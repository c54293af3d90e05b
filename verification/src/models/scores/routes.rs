use vstd::prelude::*;

use crate::models::error::{Reply, ReplyBody};
use crate::models::scores::model::Score;
use crate::models::variations::dto::{all_weapons, Weapons};
use crate::models::variations::model::Variation;

verus! {

// Answering a submitted run takes two trips to the store, in this order:
// find the id of the variation, then store the run; then comes the answer.
// Each step below decides what comes next from what the previous trip
// returned.

/// Whether a reply is `status` with the error message `msg`.
pub open spec fn is_error_reply(r: Reply, status: u16, msg: Seq<char>) -> bool {
    &&& r.status == status
    &&& r.body matches ReplyBody::Error(m)
    &&& m@ == msg
}

/// Whether a reply is `status` with the status message `msg`.
pub open spec fn is_status_reply(r: Reply, status: u16, msg: Seq<char>) -> bool {
    &&& r.status == status
    &&& r.body matches ReplyBody::Status(m)
    &&& m@ == msg
}

/// The variation whose id the store is asked for: the one that the weapon
/// list names. A list that names an unknown weapon is answered with
/// `400 {"error": "invalid weapons"}`.
pub fn variation_of(weapons: Weapons) -> (r: Result<Variation, Reply>)
    ensures
        r is Ok <==> all_weapons(weapons.names()),
        r matches Ok(v) ==> v.id is None && v@ == weapons.names().to_set(),
        r matches Err(rep) ==> is_error_reply(rep, 400, "invalid weapons"@),
{
    match weapons.try_into() {
        Ok(variation) => Ok(variation),
        Err(_) => Err(
            Reply { status: 400, body: ReplyBody::Error(String::from_str("invalid weapons")) },
        ),
    }
}

/// The run to store, once the store was asked for the id of the variation.
/// `lookup` is what the store returned: the id, no id, or the text of its
/// failure. No id is answered with `404 {"error": "unknown variation"}`, a
/// failure with `500 {"error": text}`, and a negative player id, score or
/// progress with `400`.
pub fn score_from_lookup(
    lookup: std::result::Result<Option<i64>, String>,
    steam_id: i64,
    score: i32,
    progress: i32,
) -> (r: Result<Score, Reply>)
    ensures
        lookup matches Ok(Some(id)) ==> (steam_id >= 0 && score >= 0 && progress >= 0 ==> r
            == Ok::<Score, Reply>(Score { id: None, variation: id, steam_id, score, progress })),
        lookup matches Ok(Some(_)) ==> (steam_id < 0 || score < 0 || progress < 0 ==> (r matches Err(
            rep,
        ) && is_error_reply(rep, 400, "steam_id, score and progress should be positive"@))),
        lookup matches Ok(None) ==> (r matches Err(rep) && is_error_reply(
            rep,
            404,
            "unknown variation"@,
        )),
        lookup matches Err(m) ==> (r matches Err(rep) && is_error_reply(rep, 500, m@)),
{
    let variation_id = match lookup {
        Ok(Some(id)) => id,
        Ok(None) => {
            return Err(
                Reply {
                    status: 404,
                    body: ReplyBody::Error(String::from_str("unknown variation")),
                },
            );
        },
        Err(m) => {
            return Err(Reply { status: 500, body: ReplyBody::Error(m) });
        },
    };
    if steam_id < 0 || score < 0 || progress < 0 {
        return Err(
            Reply {
                status: 400,
                body: ReplyBody::Error(
                    String::from_str("steam_id, score and progress should be positive"),
                ),
            },
        );
    }
    Ok(Score { id: None, variation: variation_id, steam_id, score, progress })
}

/// The answer once the store was asked to store the run: `inserted` is the
/// id of the stored score, no id when the stored score was kept, or a
/// failure.
pub fn insert_reply(inserted: std::result::Result<Option<i64>, ()>) -> (r: Reply)
    ensures
        inserted matches Ok(Some(id)) ==> r == (Reply { status: 200, body: ReplyBody::HighScore(id) }),
        inserted matches Ok(None) ==> is_status_reply(r, 200, "not a high score"@),
        inserted is Err ==> is_error_reply(r, 500, "failed to insert score"@),
{
    match inserted {
        Ok(Some(id)) => Reply { status: 200, body: ReplyBody::HighScore(id) },
        Ok(None) => Reply { status: 200, body: ReplyBody::Status(String::from_str("not a high score")) },
        Err(()) => Reply {
            status: 500,
            body: ReplyBody::Error(String::from_str("failed to insert score")),
        },
    }
}

} // verus!
