use vstd::prelude::*;

use crate::decimal::{decimal_of, lemma_digits_nonempty, push_decimal};
use crate::response::{
    message_of, payload_of, status_of, Envelope, ErrorKind, ReplyView, STATUS_INTERNAL,
    STATUS_NOT_FOUND, STATUS_OK,
};

verus! {

/// A user record as the persistence provider stores it.
#[derive(Debug)]
pub struct User {
    pub id: i64,
    pub username: String,
}

/// Message of a lookup whose provider call failed; it never carries the provider's text.
pub const LOOKUP_FAILED: &'static str = "Could not complete request";

/// Message of a lookup that found no record: `User <id> not found`.
pub open spec fn user_not_found_text(id: int) -> Seq<char> {
    "User "@ + decimal_of(id) + " not found"@
}

/// The reply to a lookup of `id`, given what the persistence provider answered:
/// a record, no record, or a failure with the provider's own error text.
pub open spec fn lookup_reply(id: int, found: Result<Option<User>, String>) -> ReplyView<User> {
    match found {
        Ok(Some(u)) => ReplyView::Success(u),
        Ok(None) => ReplyView::Failure(ErrorKind::NotFound, user_not_found_text(id)),
        Err(_) => ReplyView::Failure(ErrorKind::Internal, LOOKUP_FAILED@),
    }
}

/// Builds the message `User <id> not found`.
pub fn user_not_found_message(id: i64) -> (r: String)
    ensures
        r@ == user_not_found_text(id as int),
{
    let mut s = String::from_str("User ");
    push_decimal(&mut s, id);
    s.append(" not found");
    s
}

/// Classifies the persistence provider's answer to a lookup of `id` into the
/// response envelope: the record itself, `NotFound` naming the identifier, or a
/// generic `Internal` failure that drops the provider's error text.
pub fn respond_to_lookup(id: i64, found: Result<Option<User>, String>) -> (r: Envelope<User>)
    ensures
        r@ == lookup_reply(id as int, found),
{
    match found {
        Ok(Some(u)) => Envelope::Success(u),
        Ok(None) => Envelope::failure(ErrorKind::NotFound, user_not_found_message(id)),
        Err(_) => Envelope::failure(ErrorKind::Internal, String::from_str(LOOKUP_FAILED)),
    }
}

/// A record the provider holds for `id` is answered with status 200 and the
/// record itself, identifier and username.
pub proof fn lemma_present_user_is_returned(id: i64, user: User)
    requires
        user.id == id,
    ensures
        status_of(lookup_reply(id as int, Ok(Some(user)))) == STATUS_OK,
        payload_of(lookup_reply(id as int, Ok(Some(user)))) == Some(user),
        payload_of(lookup_reply(id as int, Ok(Some(user)))).unwrap().id == id,
{
}

/// An identifier the provider does not hold is answered with status 404, no
/// record, and a non-empty message that names the identifier.
pub proof fn lemma_absent_user_is_not_found(id: i64)
    ensures
        status_of(lookup_reply(id as int, Ok(None))) == STATUS_NOT_FOUND,
        payload_of(lookup_reply(id as int, Ok(None))) is None,
        message_of(lookup_reply(id as int, Ok(None))).len() > 0,
        message_of(lookup_reply(id as int, Ok(None))) == user_not_found_text(id as int),
{
    reveal_strlit("User ");
    lemma_digits_nonempty(if id < 0 { (-id) as nat } else { id as nat });
}

/// A provider failure is answered with status 500 and the fixed generic
/// message: the reply is the same whatever error text the provider gave.
pub proof fn lemma_lookup_failure_hides_error(id: i64, error: String, other: String)
    ensures
        status_of(lookup_reply(id as int, Err(error))) == STATUS_INTERNAL,
        message_of(lookup_reply(id as int, Err(error))) == LOOKUP_FAILED@,
        payload_of(lookup_reply(id as int, Err(error))) is None,
        lookup_reply(id as int, Err(error)) == lookup_reply(id as int, Err(other)),
{
}

} // verus!
