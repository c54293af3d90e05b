use vstd::prelude::*;

use crate::models::text::same_text;

verus! {

/// The weapon variations that a run can be played with, in the order in which
/// a variation holds their flags.
pub open spec fn weapon_names() -> Seq<Seq<char>> {
    seq![
        "piercer"@,
        "marskman"@,
        "sharpshooter"@,
        "core_eject"@,
        "pump_charge"@,
        "attractor"@,
        "overheat"@,
        "electric"@,
        "malicious"@,
        "drill"@,
        "freezeframe"@,
        "srs_cannon"@,
    ]
}

/// Whether a text names a weapon variation.
pub open spec fn is_weapon(w: Seq<char>) -> bool {
    weapon_names().contains(w)
}

/// The position of a weapon variation among the flags of a variation.
pub open spec fn weapon_slot(w: Seq<char>) -> int {
    weapon_names().index_of(w)
}

/// No two weapon variations have the same name.
pub proof fn lemma_weapon_names_distinct()
    ensures
        weapon_names().len() == 12,
        forall|i: int, j: int|
            0 <= i < 12 && 0 <= j < 12 && i != j ==> weapon_names()[i] != weapon_names()[j],
{
    reveal_strlit("piercer");
    reveal_strlit("marskman");
    reveal_strlit("sharpshooter");
    reveal_strlit("core_eject");
    reveal_strlit("pump_charge");
    reveal_strlit("attractor");
    reveal_strlit("overheat");
    reveal_strlit("electric");
    reveal_strlit("malicious");
    reveal_strlit("drill");
    reveal_strlit("freezeframe");
    reveal_strlit("srs_cannon");
    assert forall|i: int, j: int|
        0 <= i < 12 && 0 <= j < 12 && i != j implies weapon_names()[i] != weapon_names()[j] by {
        let a = weapon_names()[i];
        let b = weapon_names()[j];
        if a == b {
            assert(a.len() == b.len());
            assert(a[0] == b[0]);
            assert(a[1] == b[1]);
            assert(a[a.len() - 1] == b[b.len() - 1]);
        }
    }
}

/// The slot of the weapon at position `k` is `k`.
pub proof fn lemma_weapon_slot(k: int)
    requires
        0 <= k < 12,
    ensures
        is_weapon(weapon_names()[k]),
        weapon_slot(weapon_names()[k]) == k,
{
    lemma_weapon_names_distinct();
    assert(weapon_names()[k] == weapon_names()[k]);
    let s = weapon_slot(weapon_names()[k]);
    assert(0 <= s < 12 && weapon_names()[s] == weapon_names()[k]);
}

/// A known weapon has a slot among the flags, and its name stands there.
pub proof fn lemma_known_weapon(w: Seq<char>)
    requires
        is_weapon(w),
    ensures
        0 <= weapon_slot(w) < 12,
        weapon_names()[weapon_slot(w)] == w,
{
    lemma_weapon_names_distinct();
}

/// A combination of weapon variations, with the id under which it is stored.
#[derive(Debug, Clone, PartialEq, Eq)]
pub struct Variation {
    pub id: Option<i64>,
    // Pistol
    pub piercer: bool,
    pub marskman: bool,
    pub sharpshooter: bool,
    // Shotgun
    pub core_eject: bool,
    pub pump_charge: bool,
    // Nailgun / sawblade launcher
    pub attractor: bool,
    pub overheat: bool,
    // Railcannon
    pub electric: bool,
    pub malicious: bool,
    pub drill: bool,
    // Rocket launcher
    pub freezeframe: bool,
    pub srs_cannon: bool,
}

impl Variation {
    /// The flag at position `k`, in the order of `weapon_names`.
    pub open spec fn flag(&self, k: int) -> bool {
        if k == 0 {
            self.piercer
        } else if k == 1 {
            self.marskman
        } else if k == 2 {
            self.sharpshooter
        } else if k == 3 {
            self.core_eject
        } else if k == 4 {
            self.pump_charge
        } else if k == 5 {
            self.attractor
        } else if k == 6 {
            self.overheat
        } else if k == 7 {
            self.electric
        } else if k == 8 {
            self.malicious
        } else if k == 9 {
            self.drill
        } else if k == 10 {
            self.freezeframe
        } else if k == 11 {
            self.srs_cannon
        } else {
            false
        }
    }

    /// Whether `self` is `before` with the flag at position `k` set.
    pub open spec fn sets_flag(self, before: Variation, k: int) -> bool {
        &&& self.id == before.id
        &&& forall|j: int| #[trigger] self.flag(j) == (j == k || before.flag(j))
    }
}

impl View for Variation {
    /// The names of the weapon variations that the variation uses.
    type V = Set<Seq<char>>;

    open spec fn view(&self) -> Set<Seq<char>> {
        Set::new(|w: Seq<char>| is_weapon(w) && self.flag(weapon_slot(w)))
    }
}

/// Setting the flag of a weapon adds that weapon, and nothing else, to the
/// weapons that a variation uses.
pub proof fn lemma_set_flag_view(v: Variation, n: Variation, k: int)
    requires
        0 <= k < 12,
        n.sets_flag(v, k),
    ensures
        n@ == v@.insert(weapon_names()[k]),
{
    lemma_weapon_slot(k);
    assert forall|w: Seq<char>| #[trigger] n@.contains(w) == v@.insert(weapon_names()[k]).contains(w) by {
        if is_weapon(w) {
            lemma_known_weapon(w);
            lemma_weapon_slot(weapon_slot(w));
            assert(n.flag(weapon_slot(w)) == (weapon_slot(w) == k || v.flag(weapon_slot(w))));
        }
    }
    assert(n@ =~= v@.insert(weapon_names()[k]));
}

/// A variation uses the weapon at position `k` exactly when its flag `k` is
/// set.
pub proof fn lemma_view_flag(v: Variation, k: int)
    requires
        0 <= k < 12,
    ensures
        v@.contains(weapon_names()[k]) == v.flag(k),
{
    lemma_weapon_slot(k);
}

/// Each weapon variation is used exactly when the field of its name is set:
/// the variation uses "piercer" exactly when `piercer` holds, and so on for
/// every weapon.
pub proof fn lemma_view_fields(v: Variation)
    ensures
        v@.contains("piercer"@) == v.piercer,
        v@.contains("marskman"@) == v.marskman,
        v@.contains("sharpshooter"@) == v.sharpshooter,
        v@.contains("core_eject"@) == v.core_eject,
        v@.contains("pump_charge"@) == v.pump_charge,
        v@.contains("attractor"@) == v.attractor,
        v@.contains("overheat"@) == v.overheat,
        v@.contains("electric"@) == v.electric,
        v@.contains("malicious"@) == v.malicious,
        v@.contains("drill"@) == v.drill,
        v@.contains("freezeframe"@) == v.freezeframe,
        v@.contains("srs_cannon"@) == v.srs_cannon,
{
    reveal_strlit("piercer");
    assert(weapon_names()[0] == "piercer"@);
    lemma_view_flag(v, 0);
    reveal_strlit("marskman");
    assert(weapon_names()[1] == "marskman"@);
    lemma_view_flag(v, 1);
    reveal_strlit("sharpshooter");
    assert(weapon_names()[2] == "sharpshooter"@);
    lemma_view_flag(v, 2);
    reveal_strlit("core_eject");
    assert(weapon_names()[3] == "core_eject"@);
    lemma_view_flag(v, 3);
    reveal_strlit("pump_charge");
    assert(weapon_names()[4] == "pump_charge"@);
    lemma_view_flag(v, 4);
    reveal_strlit("attractor");
    assert(weapon_names()[5] == "attractor"@);
    lemma_view_flag(v, 5);
    reveal_strlit("overheat");
    assert(weapon_names()[6] == "overheat"@);
    lemma_view_flag(v, 6);
    reveal_strlit("electric");
    assert(weapon_names()[7] == "electric"@);
    lemma_view_flag(v, 7);
    reveal_strlit("malicious");
    assert(weapon_names()[8] == "malicious"@);
    lemma_view_flag(v, 8);
    reveal_strlit("drill");
    assert(weapon_names()[9] == "drill"@);
    lemma_view_flag(v, 9);
    reveal_strlit("freezeframe");
    assert(weapon_names()[10] == "freezeframe"@);
    lemma_view_flag(v, 10);
    reveal_strlit("srs_cannon");
    assert(weapon_names()[11] == "srs_cannon"@);
    lemma_view_flag(v, 11);
}

/// Two variations with the same id and the same flags are the same.
pub proof fn lemma_flags_determine(a: Variation, b: Variation)
    requires
        a.id == b.id,
        forall|k: int| 0 <= k < 12 ==> a.flag(k) == b.flag(k),
    ensures
        a == b,
{
    assert(a.flag(0) == b.flag(0));
    assert(a.flag(1) == b.flag(1));
    assert(a.flag(2) == b.flag(2));
    assert(a.flag(3) == b.flag(3));
    assert(a.flag(4) == b.flag(4));
    assert(a.flag(5) == b.flag(5));
    assert(a.flag(6) == b.flag(6));
    assert(a.flag(7) == b.flag(7));
    assert(a.flag(8) == b.flag(8));
    assert(a.flag(9) == b.flag(9));
    assert(a.flag(10) == b.flag(10));
    assert(a.flag(11) == b.flag(11));
}

/// Using a weapon a second time changes nothing.
pub proof fn lemma_set_flag_idempotent(v: Variation, n: Variation, m: Variation, k: int)
    requires
        0 <= k < 12,
        n.sets_flag(v, k),
        m.sets_flag(n, k),
    ensures
        m == n,
{
    assert forall|j: int| 0 <= j < 12 implies m.flag(j) == n.flag(j) by {
        assert(m.flag(j) == (j == k || n.flag(j)));
        assert(n.flag(j) == (j == k || v.flag(j)));
    }
    lemma_flags_determine(m, n);
}

impl Default for Variation {
    /// A variation that is not stored yet and uses no weapon variation.
    fn default() -> (r: Variation)
        ensures
            r.id is None,
            r@ == Set::<Seq<char>>::empty(),
            forall|k: int| !#[trigger] r.flag(k),
    {
        let r = Variation {
            id: None,
            piercer: false,
            marskman: false,
            sharpshooter: false,
            core_eject: false,
            pump_charge: false,
            attractor: false,
            overheat: false,
            electric: false,
            malicious: false,
            drill: false,
            freezeframe: false,
            srs_cannon: false,
        };
        assert(r@ =~= Set::<Seq<char>>::empty());
        r
    }
}

impl Variation {
    /// Marks the variation as played with `piercer`.
    pub fn use_piercer(&mut self) -> (r: &mut Self)
        ensures
            *r == (Variation { piercer: true, ..*old(self) }),
            r.sets_flag(*old(self), 0),
            *final(self) == *final(r),
    {
        self.piercer = true;
        self
    }

    /// Marks the variation as played with `marskman`.
    pub fn use_marskman(&mut self) -> (r: &mut Self)
        ensures
            *r == (Variation { marskman: true, ..*old(self) }),
            r.sets_flag(*old(self), 1),
            *final(self) == *final(r),
    {
        self.marskman = true;
        self
    }

    /// Marks the variation as played with `sharpshooter`.
    pub fn use_sharpshooter(&mut self) -> (r: &mut Self)
        ensures
            *r == (Variation { sharpshooter: true, ..*old(self) }),
            r.sets_flag(*old(self), 2),
            *final(self) == *final(r),
    {
        self.sharpshooter = true;
        self
    }

    /// Marks the variation as played with `core_eject`.
    pub fn use_core_eject(&mut self) -> (r: &mut Self)
        ensures
            *r == (Variation { core_eject: true, ..*old(self) }),
            r.sets_flag(*old(self), 3),
            *final(self) == *final(r),
    {
        self.core_eject = true;
        self
    }

    /// Marks the variation as played with `pump_charge`.
    pub fn use_pump_charge(&mut self) -> (r: &mut Self)
        ensures
            *r == (Variation { pump_charge: true, ..*old(self) }),
            r.sets_flag(*old(self), 4),
            *final(self) == *final(r),
    {
        self.pump_charge = true;
        self
    }

    /// Marks the variation as played with `attractor`.
    pub fn use_attractor(&mut self) -> (r: &mut Self)
        ensures
            *r == (Variation { attractor: true, ..*old(self) }),
            r.sets_flag(*old(self), 5),
            *final(self) == *final(r),
    {
        self.attractor = true;
        self
    }

    /// Marks the variation as played with `overheat`.
    pub fn use_overheat(&mut self) -> (r: &mut Self)
        ensures
            *r == (Variation { overheat: true, ..*old(self) }),
            r.sets_flag(*old(self), 6),
            *final(self) == *final(r),
    {
        self.overheat = true;
        self
    }

    /// Marks the variation as played with `electric`.
    pub fn use_electric(&mut self) -> (r: &mut Self)
        ensures
            *r == (Variation { electric: true, ..*old(self) }),
            r.sets_flag(*old(self), 7),
            *final(self) == *final(r),
    {
        self.electric = true;
        self
    }

    /// Marks the variation as played with `malicious`.
    pub fn use_malicious(&mut self) -> (r: &mut Self)
        ensures
            *r == (Variation { malicious: true, ..*old(self) }),
            r.sets_flag(*old(self), 8),
            *final(self) == *final(r),
    {
        self.malicious = true;
        self
    }

    /// Marks the variation as played with `drill`.
    pub fn use_drill(&mut self) -> (r: &mut Self)
        ensures
            *r == (Variation { drill: true, ..*old(self) }),
            r.sets_flag(*old(self), 9),
            *final(self) == *final(r),
    {
        self.drill = true;
        self
    }

    /// Marks the variation as played with `freezeframe`.
    pub fn use_freezeframe(&mut self) -> (r: &mut Self)
        ensures
            *r == (Variation { freezeframe: true, ..*old(self) }),
            r.sets_flag(*old(self), 10),
            *final(self) == *final(r),
    {
        self.freezeframe = true;
        self
    }

    /// Marks the variation as played with `srs_cannon`.
    pub fn use_srs_cannon(&mut self) -> (r: &mut Self)
        ensures
            *r == (Variation { srs_cannon: true, ..*old(self) }),
            r.sets_flag(*old(self), 11),
            *final(self) == *final(r),
    {
        self.srs_cannon = true;
        self
    }

    /// Sets the flag at position `k`, through the setter of its weapon.
    fn set_flag(&mut self, k: usize)
        requires
            k < 12,
        ensures
            final(self).sets_flag(*old(self), k as int),
    {
        match k {
            0 => {
                self.use_piercer();
            },
            1 => {
                self.use_marskman();
            },
            2 => {
                self.use_sharpshooter();
            },
            3 => {
                self.use_core_eject();
            },
            4 => {
                self.use_pump_charge();
            },
            5 => {
                self.use_attractor();
            },
            6 => {
                self.use_overheat();
            },
            7 => {
                self.use_electric();
            },
            8 => {
                self.use_malicious();
            },
            9 => {
                self.use_drill();
            },
            10 => {
                self.use_freezeframe();
            },
            _ => {
                self.use_srs_cannon();
            },
        }
    }

    /// Marks the variation as played with the weapon variation named
    /// `weapon`; reports whether such a weapon variation exists.
    pub fn try_use(&mut self, weapon: &str) -> (r: bool)
        ensures
            r == is_weapon(weapon@),
            r ==> final(self).sets_flag(*old(self), weapon_slot(weapon@)),
            r ==> final(self)@ == old(self)@.insert(weapon@),
            !r ==> *final(self) == *old(self),
            final(self).id == old(self).id,
    {
        match weapon_position(weapon) {
            Some(k) => {
                let ghost before = *self;
                self.set_flag(k);
                proof {
                    lemma_set_flag_view(before, *self, k as int);
                }
                true
            },
            None => false,
        }
    }
}

/// The position among the flags of the weapon variation named `weapon`, if
/// there is one.
fn weapon_position(weapon: &str) -> (r: Option<usize>)
    ensures
        r matches Some(k) ==> is_weapon(weapon@) && k == weapon_slot(weapon@) && weapon_names()[k as int] == weapon@,
        r is None ==> !is_weapon(weapon@),
{
    if same_text(weapon, "piercer") {
        proof {
            lemma_weapon_slot(0);
        }
        Some(0)
    } else if same_text(weapon, "marskman") {
        proof {
            lemma_weapon_slot(1);
        }
        Some(1)
    } else if same_text(weapon, "sharpshooter") {
        proof {
            lemma_weapon_slot(2);
        }
        Some(2)
    } else if same_text(weapon, "core_eject") {
        proof {
            lemma_weapon_slot(3);
        }
        Some(3)
    } else if same_text(weapon, "pump_charge") {
        proof {
            lemma_weapon_slot(4);
        }
        Some(4)
    } else if same_text(weapon, "attractor") {
        proof {
            lemma_weapon_slot(5);
        }
        Some(5)
    } else if same_text(weapon, "overheat") {
        proof {
            lemma_weapon_slot(6);
        }
        Some(6)
    } else if same_text(weapon, "electric") {
        proof {
            lemma_weapon_slot(7);
        }
        Some(7)
    } else if same_text(weapon, "malicious") {
        proof {
            lemma_weapon_slot(8);
        }
        Some(8)
    } else if same_text(weapon, "drill") {
        proof {
            lemma_weapon_slot(9);
        }
        Some(9)
    } else if same_text(weapon, "freezeframe") {
        proof {
            lemma_weapon_slot(10);
        }
        Some(10)
    } else if same_text(weapon, "srs_cannon") {
        proof {
            lemma_weapon_slot(11);
        }
        Some(11)
    } else {
        assert(!is_weapon(weapon@)) by {
            if is_weapon(weapon@) {
                lemma_known_weapon(weapon@);
            }
        }
        None
    }
}

} // verus!
