//! Rules of a score board for game runs played with a chosen set of weapon
//! variations: which weapon lists name a variation, which submitted score is
//! a new high score, which neighbours surround a player in the ranking, and
//! which reply each request gets.
//!
//! Storage and HTTP stay outside this crate: the functions here take what was
//! read and return what should be written or answered.

pub mod models;

pub use models::error::{Error, ItemType, Reply, ReplyBody};
pub use models::model::Protected;
pub use models::scores::dto::CreateScore;
pub use models::scores::model::{RankedScore, Score, Upsert};
pub use models::variations::dto::Weapons;
pub use models::variations::model::Variation;

