use leaderboard::models::variations::routes::{insert_reply, variation_from_request};
use leaderboard::{Error, Protected, Reply, ReplyBody, Variation, Weapons};

fn weapons(names: &[&str]) -> Weapons {
    Weapons { weapons: names.iter().map(|s| s.to_string()).collect() }
}

fn flags(v: &Variation) -> [bool; 12] {
    [
        v.piercer,
        v.marskman,
        v.sharpshooter,
        v.core_eject,
        v.pump_charge,
        v.attractor,
        v.overheat,
        v.electric,
        v.malicious,
        v.drill,
        v.freezeframe,
        v.srs_cannon,
    ]
}

#[test]
fn default_variation_uses_nothing() {
    let v = Variation::default();
    assert_eq!(v.id, None);
    assert_eq!(flags(&v), [false; 12]);
}

#[test]
fn setters_chain() {
    let mut v = Variation::default();
    v.use_piercer().use_srs_cannon();
    let mut expected = [false; 12];
    expected[0] = true;
    expected[11] = true;
    assert_eq!(flags(&v), expected);
}

#[test]
fn try_use_every_weapon() {
    let names = [
        "piercer",
        "marskman",
        "sharpshooter",
        "core_eject",
        "pump_charge",
        "attractor",
        "overheat",
        "electric",
        "malicious",
        "drill",
        "freezeframe",
        "srs_cannon",
    ];
    for (k, name) in names.iter().enumerate() {
        let mut v = Variation::default();
        assert!(v.try_use(name));
        let mut expected = [false; 12];
        expected[k] = true;
        assert_eq!(flags(&v), expected);
    }
}

#[test]
fn try_use_unknown_weapon_changes_nothing() {
    let mut v = Variation::default();
    v.use_drill();
    let before = v.clone();
    assert!(!v.try_use("marksman"));
    assert!(!v.try_use("Piercer"));
    assert!(!v.try_use(""));
    assert!(!v.try_use("drill "));
    assert_eq!(v, before);
}

#[test]
fn try_use_twice_is_using_once() {
    let mut once = Variation::default();
    assert!(once.try_use("electric"));
    let mut twice = Variation::default();
    assert!(twice.try_use("electric"));
    assert!(twice.try_use("electric"));
    assert_eq!(once, twice);
}

#[test]
fn weapons_into_variation() {
    let v = weapons(&["core_eject", "overheat", "freezeframe"]).try_into().unwrap();
    assert_eq!(v.id, None);
    let mut expected = [false; 12];
    expected[3] = true;
    expected[6] = true;
    expected[10] = true;
    assert_eq!(flags(&v), expected);
}

#[test]
fn empty_weapon_list_is_the_default_variation() {
    assert_eq!(weapons(&[]).try_into(), Ok(Variation::default()));
}

#[test]
fn unknown_weapon_is_invalid() {
    assert_eq!(weapons(&["piercer", "railgun"]).try_into(), Err(Error::InvalidWeapons));
}

#[test]
fn weapon_order_and_repetition_do_not_matter() {
    let a = weapons(&["attractor", "malicious", "attractor"]).try_into().unwrap();
    let b = weapons(&["malicious", "attractor"]).try_into().unwrap();
    assert_eq!(a, b);
}

#[test]
fn create_variation_without_admin_password_is_internal() {
    let request = Protected::new(weapons(&["drill"]), "x".to_string());
    let r = variation_from_request(request, Err("ADMIN_PASS not found".to_string()));
    assert_eq!(
        r,
        Err(Reply { status: 500, body: ReplyBody::Error("ADMIN_PASS not found".to_string()) })
    );
}

#[test]
fn create_variation_with_wrong_password_is_unauthorized() {
    // The password carried must be the digest of the administrator password,
    // not the administrator password itself.
    let request = Protected::new(weapons(&["drill"]), "hunter2".to_string());
    let r = variation_from_request(request, Ok("hunter2".to_string()));
    assert_eq!(
        r,
        Err(Reply { status: 401, body: ReplyBody::Error("Unauthorized access".to_string()) })
    );
}

#[test]
fn variation_insert_replies() {
    assert_eq!(insert_reply(Ok(Some(7))), Reply { status: 200, body: ReplyBody::Created(7) });
    assert_eq!(
        insert_reply(Ok(None)),
        Reply { status: 409, body: ReplyBody::Error("Item already exists".to_string()) }
    );
    assert_eq!(
        insert_reply(Err("connection reset".to_string())),
        Reply { status: 500, body: ReplyBody::Error("connection reset".to_string()) }
    );
}
