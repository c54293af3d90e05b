use leaderboard::{Error, ItemType, Reply, ReplyBody};

fn error_reply(status: u16, msg: &str) -> Reply {
    Reply { status, body: ReplyBody::Error(msg.to_string()) }
}

#[test]
fn item_type_names() {
    assert_eq!(ItemType::Score.name(), "Score");
    assert_eq!(ItemType::Variation.name(), "Variation");
    assert_eq!(ItemType::User.name(), "User");
}

#[test]
fn error_messages() {
    assert_eq!(Error::Internal("db down".to_string()).message(), "Internal error: db down");
    assert_eq!(Error::Unauthorized.message(), "Unauthorized access");
    assert_eq!(Error::InvalidWeapons.message(), "Provided weapons list is invalid");
    assert_eq!(Error::NotFound(ItemType::Score).message(), "Score not found");
    assert_eq!(Error::NotFound(ItemType::Variation).message(), "Variation not found");
    assert_eq!(Error::NotFound(ItemType::User).message(), "User not found");
    assert_eq!(Error::Conflict.message(), "Item already exists");
    assert_eq!(
        Error::UnvalidatedConstraints.message(),
        "Steam ID, score and progress must be positive"
    );
}

#[test]
fn internal_error_reply_shows_only_its_message() {
    assert_eq!(
        Error::Internal("pool timed out".to_string()).into_reply(),
        error_reply(500, "pool timed out")
    );
}

#[test]
fn error_replies() {
    assert_eq!(Error::Unauthorized.into_reply(), error_reply(401, "Unauthorized access"));
    assert_eq!(
        Error::InvalidWeapons.into_reply(),
        error_reply(400, "Provided weapons list is invalid")
    );
    assert_eq!(
        Error::NotFound(ItemType::User).into_reply(),
        error_reply(404, "User not found")
    );
    assert_eq!(Error::Conflict.into_reply(), error_reply(409, "Item already exists"));
    assert_eq!(
        Error::UnvalidatedConstraints.into_reply(),
        error_reply(400, "Steam ID, score and progress must be positive")
    );
}
