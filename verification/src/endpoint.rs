//! What a client presents to be let into a room, and what it may send.

use crate::connection::PlayerIdentity;
use crate::directory::{RoomCode, ROOM_CODE_LENGTH};
use vstd::prelude::*;
use vstd::string::StringSliceAdditionalSpecFns;

verus! {

/// The shortest message that is looked at.
pub const MIN_MESSAGE_LENGTH: usize = 1;

/// The longest message that is looked at.
pub const MAX_MESSAGE_LENGTH: usize = 1000;

/// A request to connect that can be served: a room code, and the identity
/// by which the client is known again when it comes back.
#[derive(Clone, Copy, Debug, PartialEq, Eq)]
pub struct JoinRequest {
    pub code: RoomCode,
    pub id: PlayerIdentity,
}

/// What `Uuid::parse_str` of the uuid crate makes of `text`: the 128 bits
/// of the UUID it reads, or `None` where it reads none.
pub uninterp spec fn uuid_value(text: Seq<char>) -> Option<u128>;

/// Calls `Uuid::parse_str` of the uuid crate and hands on the UUID it
/// returns as the number that `Uuid::as_u128` gives, or `None` for its
/// error. The call reads nothing but `text`, so its result is named by
/// `uuid_value`; nothing more is claimed of it.
#[verifier::external_body]
fn uuid_parse(text: &str) -> (value: Option<u128>)
    ensures
        value == uuid_value(text@),
{
    match uuid::Uuid::parse_str(text) {
        Ok(id) => Some(id.as_u128()),
        Err(_) => None,
    }
}

/// The request that a code and an identity make, if both were read.
pub open spec fn request_of(code: Option<RoomCode>, id: Option<PlayerIdentity>) -> Option<
    JoinRequest,
> {
    match (code, id) {
        (Some(code), Some(id)) => Some(JoinRequest { code, id }),
        _ => None,
    }
}

/// Puts a request together from what was read of the code and of the
/// identity. A request that lacks either cannot be served.
pub fn request_from(code: Option<RoomCode>, id: Option<PlayerIdentity>) -> (request: Option<
    JoinRequest,
>)
    ensures
        request == request_of(code, id),
{
    match (code, id) {
        (Some(code), Some(id)) => Some(JoinRequest { code, id }),
        _ => None,
    }
}

/// Reads the two parameters of a request to connect. The code must be six
/// bytes long and the identity must read as a UUID; else there is no
/// request, and nothing is registered for the client.
pub fn parse_request(code: &str, id: &str) -> (request: Option<JoinRequest>)
    ensures
        request is Some <==> code.spec_bytes().len() == ROOM_CODE_LENGTH && uuid_value(id@) is Some,
        request matches Some(request) ==> request.code.bytes@ == code.spec_bytes() && Some(
            request.id,
        ) == uuid_value(id@),
{
    request_from(RoomCode::parse(code), uuid_parse(id))
}

/// A message of this many bytes is looked at.
pub open spec fn length_accepted(length: usize) -> bool {
    MIN_MESSAGE_LENGTH <= length <= MAX_MESSAGE_LENGTH
}

/// Whether a message of `length` bytes is looked at. Nothing that a
/// client may send is shorter than one byte or longer than a thousand.
pub fn acceptable_length(length: usize) -> (accepted: bool)
    ensures
        accepted == length_accepted(length),
{
    MIN_MESSAGE_LENGTH <= length && length <= MAX_MESSAGE_LENGTH
}

/// The bytes to decode, for a message that is looked at; `None` for one
/// that is dropped unread.
pub fn frame(message: &[u8]) -> (payload: Option<&[u8]>)
    ensures
        payload is Some <==> length_accepted(message.len()),
        payload matches Some(bytes) ==> bytes@ == message@,
{
    if acceptable_length(message.len()) {
        Some(message)
    } else {
        None
    }
}

} // verus!
