use vstd::prelude::*;
use vstd::utf8::encode_utf8;

use crate::models::error::{error_reply_message, error_status, Error, Reply, ReplyBody};
use crate::models::model::{pass_matches, sha256, Protected};
use crate::models::scores::routes::is_error_reply;
use crate::models::variations::dto::{all_weapons, Weapons};
use crate::models::variations::model::Variation;

verus! {

/// The error that a request to create a variation ends in, if it fails before
/// the store is asked: no readable administrator password, a wrong password,
/// or a weapon list that names an unknown weapon.
pub open spec fn create_error(
    request: Protected<Weapons>,
    admin_pass: std::result::Result<String, String>,
) -> Option<Error> {
    match admin_pass {
        Err(m) => Some(Error::Internal(m)),
        Ok(p) => if !pass_matches(request.pass@, sha256(encode_utf8(p@))) {
            Some(Error::Unauthorized)
        } else if !all_weapons(request.inner.names()) {
            Some(Error::InvalidWeapons)
        } else {
            None
        },
    }
}

/// The password is checked before the weapon list: with a readable
/// administrator password, a request whose password does not match its
/// digest fails as unauthorized whatever weapons it lists, and the weapon
/// list can only make a request fail once the password matched. An
/// unreadable administrator password fails the request before either check.
pub proof fn lemma_password_checked_first(
    request: Protected<Weapons>,
    admin_pass: std::result::Result<String, String>,
)
    ensures
        admin_pass matches Err(m) ==> create_error(request, admin_pass) == Some(Error::Internal(m)),
        admin_pass matches Ok(p) ==> (!pass_matches(request.pass@, sha256(encode_utf8(p@)))
            ==> create_error(request, admin_pass) == Some(Error::Unauthorized)),
        create_error(request, admin_pass) == Some(Error::InvalidWeapons) ==> (admin_pass matches Ok(
            p,
        ) && pass_matches(request.pass@, sha256(encode_utf8(p@)))),
        create_error(request, admin_pass) is None <==> (admin_pass matches Ok(p) && pass_matches(
            request.pass@,
            sha256(encode_utf8(p@)),
        ) && all_weapons(request.inner.names())),
{
}

/// Whether a reply answers the error `e`.
pub open spec fn answers(r: Reply, e: Error) -> bool {
    &&& r.status == error_status(e)
    &&& r.body matches ReplyBody::Error(m)
    &&& m@ == error_reply_message(e)
}

/// The variation that an administrator asks to create, or the answer to a
/// request that fails before the store is asked. `admin_pass` is the
/// administrator password, or the text of the failure to read it.
pub fn variation_from_request(
    request: Protected<Weapons>,
    admin_pass: std::result::Result<String, String>,
) -> (r: Result<Variation, Reply>)
    ensures
        r is Ok <==> create_error(request, admin_pass) is None,
        r matches Ok(v) ==> v.id is None && v@ == request.inner.names().to_set(),
        r matches Err(rep) ==> answers(rep, create_error(request, admin_pass)->0),
        admin_pass matches Err(m) ==> (r matches Err(rep) && is_error_reply(rep, 500, m@)),
        admin_pass matches Ok(p) ==> (!pass_matches(request.pass@, sha256(encode_utf8(p@))) ==> (
        r matches Err(rep) && is_error_reply(rep, 401, "Unauthorized access"@))),
        admin_pass matches Ok(p) ==> (pass_matches(request.pass@, sha256(encode_utf8(p@)))
            && !all_weapons(request.inner.names()) ==> (r matches Err(rep) && is_error_reply(
            rep,
            400,
            "Provided weapons list is invalid"@,
        ))),
{
    let weapons = match request.validate(admin_pass) {
        Ok(weapons) => weapons,
        Err(e) => {
            return Err(e.into_reply());
        },
    };
    match weapons.try_into() {
        Ok(variation) => Ok(variation),
        Err(e) => Err(e.into_reply()),
    }
}

/// The answer once the store was asked to store a new variation: `inserted`
/// is its id, no id when it exists already, or the text of the failure.
pub fn insert_reply(inserted: std::result::Result<Option<i64>, String>) -> (r: Reply)
    ensures
        inserted matches Ok(Some(id)) ==> r == (Reply { status: 200, body: ReplyBody::Created(id) }),
        inserted matches Ok(None) ==> answers(r, Error::Conflict),
        inserted matches Err(m) ==> answers(r, Error::Internal(m)),
{
    match inserted {
        Ok(Some(id)) => Reply { status: 200, body: ReplyBody::Created(id) },
        Ok(None) => Error::Conflict.into_reply(),
        Err(m) => Error::Internal(m).into_reply(),
    }
}

} // verus!
