//! The items of other crates that the store relies on. Nothing in this file
//! is proved: each contract records what the named function is taken to do.

use serde_json::Error as JsonError;
use vstd::prelude::*;

verus! {

#[verifier::external_type_specification]
#[verifier::external_body]
pub struct ExClient(redis::Client);

#[verifier::external_type_specification]
#[verifier::external_body]
pub struct ExRedisError(redis::RedisError);

#[verifier::external_type_specification]
#[verifier::external_body]
pub struct ExJsonError(JsonError);

#[verifier::external_type_specification]
#[verifier::external_body]
pub struct ExDecodeError(base64::DecodeError);

#[verifier::external_type_specification]
#[verifier::external_body]
pub struct ExSession(async_session::Session);

/// What a session holds besides its cookie value, as plain data: its id, its
/// data map, and its expiry as seconds and nanoseconds of a timestamp.
pub type SessionFacts = (Seq<char>, Map<Seq<char>, Seq<char>>, Option<(i64, u32)>);

/// Whether `redis::Client::open` accepts a connection string, on the target
/// and with the features that the client was built for.
pub uninterp spec fn client_opens(connection_info: Seq<char>) -> bool;

/// The session id that `async_session::Session::id_from_cookie_value`
/// derives from a cookie value, or `None` where it rejects the value.
pub uninterp spec fn cookie_session_id(cookie_value: Seq<char>) -> Option<Seq<char>>;

/// The id that a session carries, as `async_session::Session::id` reads it.
pub uninterp spec fn session_id(session: async_session::Session) -> Seq<char>;

/// The cookie value that a session still holds and that
/// `async_session::Session::into_cookie_value` would hand out.
pub uninterp spec fn session_cookie(session: async_session::Session) -> Option<Seq<char>>;

/// The data map that a session holds, each value in its stored text form.
pub uninterp spec fn session_data(session: async_session::Session) -> Map<Seq<char>, Seq<char>>;

/// The expiry that a session carries, if any, as the seconds and the
/// nanoseconds of its timestamp (`async_session::Session::expiry`).
pub uninterp spec fn session_expiry(session: async_session::Session) -> Option<(i64, u32)>;

/// What `serde_json::from_str` reads in a record as an optional session:
/// `None` where it fails, `Some(None)` where the record holds no session,
/// else what the session in it holds.
pub uninterp spec fn record_session(record: Seq<char>) -> Option<Option<SessionFacts>>;

/// Id, data and expiry of a session together.
pub open spec fn session_facts(session: async_session::Session) -> SessionFacts {
    (session_id(session), session_data(session), session_expiry(session))
}

/// `redis::Client::open` on a connection string. It parses the string and
/// connects to nothing, so whether it succeeds depends on the string alone.
/// The contract names that outcome and says no more of it.
#[verifier::external_body]
pub(crate) fn open_client(connection_info: &str) -> (r: Result<redis::Client, redis::RedisError>)
    ensures
        r is Ok <==> client_opens(connection_info@),
{
    redis::Client::open(connection_info)
}

/// `Clone` of `redis::Client`, which `derive` wrote: the copy holds the same
/// connection information as the client it was made from.
pub assume_specification[ <redis::Client as Clone>::clone ](client: &redis::Client) -> (r:
    redis::Client)
    ensures
        r == *client,
;

/// `async_session::Session::id_from_cookie_value`: decodes the cookie value
/// as base64 and hashes the bytes. The contract only names the outcome: the
/// id is a function of the cookie value, and so is the refusal.
#[verifier::external_body]
pub(crate) fn id_from_cookie_value(cookie_value: &str) -> (r: Result<
    String,
    base64::DecodeError,
>)
    ensures
        match r {
            Ok(id) => cookie_session_id(cookie_value@) == Some(id@),
            Err(_) => cookie_session_id(cookie_value@) is None,
        },
{
    async_session::Session::id_from_cookie_value(cookie_value)
}

/// `async_session::Session::id`: the stored id, unchanged.
#[verifier::external_body]
pub(crate) fn id_of<'a>(session: &'a async_session::Session) -> (r: &'a str)
    ensures
        r@ == session_id(*session),
{
    session.id()
}

/// `async_session::Session::expires_in`: the time left until the session's
/// expiry, read off the clock at the moment of the call. It is `None` for a
/// session without expiry and for one whose expiry has passed. The result
/// changes with the time, so only the first of these is claimed.
#[verifier::external_body]
pub(crate) fn expires_in(session: &async_session::Session) -> (r: Option<std::time::Duration>)
    ensures
        session_expiry(*session) is None ==> r is None,
{
    session.expires_in()
}

/// `async_session::Session::expiry`, with the time as the seconds and the
/// nanoseconds of its timestamp (`DateTime::timestamp`,
/// `DateTime::timestamp_subsec_nanos`).
#[verifier::external_body]
pub(crate) fn expiry_of(session: &async_session::Session) -> (r: Option<(i64, u32)>)
    ensures
        r == session_expiry(*session),
{
    match session.expiry() {
        Some(time) => Some((time.timestamp(), time.timestamp_subsec_nanos())),
        None => None,
    }
}

/// `std::time::Duration::as_secs`: the whole seconds of a duration. Only the
/// store's commands read the number, so nothing is claimed of it.
#[verifier::external_body]
pub(crate) fn whole_seconds(duration: &std::time::Duration) -> (r: u64) {
    duration.as_secs()
}

/// `serde_json::to_string` on a session. The text lists the session's data
/// in the order in which its hash map is walked, which differs from process
/// to process, so the text itself is not named. Claimed is that the record
/// of a session without expiry reads back as what the session holds: id and
/// data are written as JSON strings and the absent expiry as `null`. For a
/// session with an expiry nothing is claimed, since reading back then rests
/// on the text form of the time.
#[verifier::external_body]
pub(crate) fn encode_session(session: &async_session::Session) -> (r: Result<
    String,
    serde_json::Error,
>)
    ensures
        session_expiry(*session) is None ==> (r matches Ok(record) ==> record_session(record@)
            == Some(Some(session_facts(*session)))),
{
    serde_json::to_string(session)
}

/// `serde_json::from_str` for an optional session. Whether it fails, finds
/// no session or finds one, and what that one holds, depends on the record
/// alone.
/// The cookie value is not part of a record, so a session read from one
/// holds none.
#[verifier::external_body]
pub(crate) fn decode_session(record: &str) -> (r: Result<
    Option<async_session::Session>,
    serde_json::Error,
>)
    ensures
        match r {
            Ok(Some(session)) => record_session(record@) == Some(Some(session_facts(session)))
                && session_cookie(session) is None,
            Ok(None) => record_session(record@) == Some(None::<SessionFacts>),
            Err(_) => record_session(record@) is None,
        },
{
    serde_json::from_str(record)
}

/// `Clone` of `async_session::Session`: the copy has the same id and expiry,
/// shares the data, and holds no cookie value.
#[verifier::external_body]
pub(crate) fn clone_session(session: &async_session::Session) -> (r: async_session::Session)
    ensures
        session_id(r) == session_id(*session),
        session_data(r) == session_data(*session),
        session_expiry(r) == session_expiry(*session),
        session_cookie(r) is None,
{
    session.clone()
}

/// `async_session::Session::into_cookie_value`: the cookie value that the
/// session held.
#[verifier::external_body]
pub(crate) fn into_cookie_value(session: async_session::Session) -> (r: Option<String>)
    ensures
        match r {
            Some(value) => session_cookie(session) == Some(value@),
            None => session_cookie(session) is None,
        },
{
    session.into_cookie_value()
}

} // verus!
