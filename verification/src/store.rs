//! The session store: its configuration, and the two steps of each
//! lifecycle operation.
//!
//! An operation `op` is split at the backend call. `op_command` builds the
//! [`Command`] to send; the method named `op` takes what the backend
//! answered and gives the operation's result. The caller sends the command
//! and performs no decision of its own.
//!
//! Expiry policy: a session that carries an expiry is written with the whole
//! seconds that are left of it at the moment of the call, whatever the
//! store's own time-to-live. A session whose expiry has passed is not
//! written: its key is deleted, so that no record of it stays. A session
//! without expiry is written with the store's time-to-live where one is set,
//! and without expiry where none is.
//!
//! Loading trusts no record: a record that holds another id than the one
//! asked for is no session.
//!
//! Clearing policy: a store without prefix owns the backend's database and
//! clears it with a flush, which also removes keys that others wrote there.
//! A store with a prefix lists its keys and deletes those; the two calls are
//! not atomic.

use crate::backend::{key_texts, Command, CommandView, CountReply};
use crate::error::Error;
use crate::namespace::{namespace_pattern, prefixed, wildcard};
use crate::outside::{
    client_opens, clone_session, cookie_session_id, decode_session, encode_session, expires_in,
    expiry_of, id_from_cookie_value, id_of, into_cookie_value, open_client, record_session,
    session_cookie, session_expiry, session_facts, session_id, whole_seconds, SessionFacts,
};
use vstd::prelude::*;
use vstd::string::StringExecFns;

verus! {

/// The command that reads the session with the given id.
pub open spec fn load_request(prefix: Option<Seq<char>>, id: Seq<char>) -> CommandView {
    CommandView::Get { key: prefixed(prefix, id) }
}

/// The command that writes a session's record: with the seconds that are
/// left of the session's expiry, or without expiry where it has none.
pub open spec fn store_request(
    prefix: Option<Seq<char>>,
    id: Seq<char>,
    record: Seq<char>,
    expires_in: Option<u64>,
) -> CommandView {
    match expires_in {
        Some(seconds) => CommandView::PutEx {
            key: prefixed(prefix, id),
            value: record,
            seconds: seconds as usize,
        },
        None => CommandView::Put { key: prefixed(prefix, id), value: record },
    }
}

/// The expiry that a record is written with: the seconds left of the
/// session's own expiry where there are any, else the store's time-to-live.
pub open spec fn effective_expiry(left: Option<u64>, ttl: Option<u64>) -> Option<u64> {
    match left {
        Some(seconds) => Some(seconds),
        None => ttl,
    }
}

/// The command that deletes the session with the given id.
pub open spec fn destroy_request(prefix: Option<Seq<char>>, id: Seq<char>) -> CommandView {
    CommandView::Del { key: prefixed(prefix, id) }
}

/// The command that storing sends. A session whose expiry has passed (it
/// has one and nothing is left of it) has its key deleted; any other has its
/// record written, with the expiry that [`effective_expiry`] gives.
pub open spec fn store_step(
    prefix: Option<Seq<char>>,
    ttl: Option<u64>,
    id: Seq<char>,
    record: Seq<char>,
    left: Option<u64>,
    expired: bool,
) -> CommandView {
    if left is None && expired {
        destroy_request(prefix, id)
    } else {
        store_request(prefix, id, record, effective_expiry(left, ttl))
    }
}

/// What loading makes of what was read in a record, for the id that was
/// asked for: a session with another id is no session; the rest is as read.
pub open spec fn found(id: Seq<char>, read: Option<Option<SessionFacts>>) -> Option<
    Option<SessionFacts>,
> {
    match read {
        Some(Some(facts)) => if facts.0 == id {
            read
        } else {
            Some(None)
        },
        _ => read,
    }
}

/// The command that lists the keys of a namespace.
pub open spec fn ids_request(prefix: Option<Seq<char>>) -> CommandView {
    CommandView::Keys { pattern: namespace_pattern(prefix) }
}

/// The first command of clearing: a flush without prefix, a listing with one.
pub open spec fn clear_request(prefix: Option<Seq<char>>) -> CommandView {
    match prefix {
        Some(_) => ids_request(prefix),
        None => CommandView::FlushDb,
    }
}

/// The deletion that follows the listing of a prefixed store's keys: of
/// exactly the listed keys, and none at all where the listing is empty.
pub open spec fn clear_deletion(ids: Seq<Seq<char>>) -> Option<CommandView> {
    if ids.len() == 0 {
        None
    } else {
        Some(CommandView::DelMany { keys: ids })
    }
}

/// The command that counts: the size of the database without prefix, a
/// listing of the namespace with one.
pub open spec fn count_request(prefix: Option<Seq<char>>) -> CommandView {
    match prefix {
        Some(_) => ids_request(prefix),
        None => CommandView::DbSize,
    }
}

/// What storing does with a session's cookie value: the first component is
/// handed to the caller, the second stays in the session.
pub open spec fn minted(cookie: Option<Seq<char>>) -> (Option<Seq<char>>, Option<Seq<char>>) {
    (cookie, None)
}

/// The text of an optional string.
pub open spec fn text_of(value: Option<String>) -> Option<Seq<char>> {
    match value {
        Some(text) => Some(text@),
        None => None,
    }
}

/// Whether two texts are the same.
fn same_text(a: &str, b: &str) -> (r: bool)
    ensures
        r == (a@ == b@),
{
    let left = a.to_owned();
    let right = b.to_owned();
    left == right
}

/// Takes the cookie value out of a session. The session is exchanged for
/// its copy, which holds the same id, data and expiry and no cookie value,
/// and the cookie value is taken from the one that was exchanged.
fn take_cookie_value(session: &mut async_session::Session) -> (r: Option<String>)
    ensures
        text_of(r) == session_cookie(*old(session)),
        session_cookie(*final(session)) is None,
        session_facts(*final(session)) == session_facts(*old(session)),
{
    let mut kept = clone_session(session);
    core::mem::swap(session, &mut kept);
    into_cookie_value(kept)
}

/// A session store over a Redis backend, optionally confined to a key prefix.
#[derive(Clone, Debug)]
pub struct RedisSessionStore {
    client: redis::Client,
    prefix: Option<String>,
    ttl: Option<u64>,
}

impl RedisSessionStore {
    /// The backend client that the store was made with.
    pub closed spec fn spec_client(&self) -> redis::Client {
        self.client
    }

    /// The prefix of the store's keys, if it has one.
    pub closed spec fn spec_prefix(&self) -> Option<Seq<char>> {
        text_of(self.prefix)
    }

    /// The time-to-live, in seconds, of records whose session has no expiry.
    pub closed spec fn spec_ttl(&self) -> Option<u64> {
        self.ttl
    }

    /// Creates a store without prefix and without time-to-live from an
    /// existing client.
    pub fn from_client(client: redis::Client) -> (r: Self)
        ensures
            r.spec_client() == client,
            r.spec_prefix() is None,
            r.spec_ttl() is None,
    {
        Self { client, prefix: None, ttl: None }
    }

    /// Creates a store without prefix and time-to-live from a connection string such as
    /// `redis://127.0.0.1`. The string is examined, nothing is connected.
    /// It succeeds on exactly the strings that the client accepts; see
    /// [`Self::opened`] for what is made of the client's answer.
    pub fn new(connection_info: &str) -> (r: Result<Self, redis::RedisError>)
        ensures
            r is Ok <==> client_opens(connection_info@),
            r matches Ok(store) ==> store.spec_prefix() is None && store.spec_ttl() is None,
    {
        Self::opened(open_client(connection_info))
    }

    /// The store for a client that was just opened, or the failure to open it.
    pub fn opened(client: Result<redis::Client, redis::RedisError>) -> (r: Result<
        Self,
        redis::RedisError,
    >)
        ensures
            match client {
                Ok(c) => r matches Ok(store) && store.spec_client() == c
                    && store.spec_prefix() is None && store.spec_ttl() is None,
                Err(e) => r == Err::<Self, redis::RedisError>(e),
            },
    {
        match client {
            Ok(c) => Ok(Self::from_client(c)),
            Err(e) => Err(e),
        }
    }

    /// Sets the key prefix of this store, replacing an earlier one.
    pub fn with_prefix(self, prefix: &str) -> (r: Self)
        ensures
            r.spec_client() == self.spec_client(),
            r.spec_prefix() == Some(prefix@),
            r.spec_ttl() == self.spec_ttl(),
    {
        Self { client: self.client, prefix: Some(prefix.to_owned()), ttl: self.ttl }
    }

    /// Sets the time-to-live, in seconds, that records of sessions without
    /// an expiry of their own are written with.
    pub fn with_ttl(self, seconds: u64) -> (r: Self)
        ensures
            r.spec_client() == self.spec_client(),
            r.spec_prefix() == self.spec_prefix(),
            r.spec_ttl() == Some(seconds),
    {
        Self { client: self.client, prefix: self.prefix, ttl: Some(seconds) }
    }

    /// The client to send the store's commands with.
    pub fn client(&self) -> (r: &redis::Client)
        ensures
            *r == self.spec_client(),
    {
        &self.client
    }

    /// The time-to-live in seconds, if one is set.
    pub fn ttl(&self) -> (r: Option<u64>)
        ensures
            r == self.spec_ttl(),
    {
        self.ttl
    }

    /// The key prefix, if one is set.
    pub fn prefix(&self) -> (r: Option<&str>)
        ensures
            match r {
                Some(p) => self.spec_prefix() == Some(p@),
                None => self.spec_prefix() is None,
            },
    {
        match &self.prefix {
            Some(p) => Some(p.as_str()),
            None => None,
        }
    }

    /// The backend key for `key`: the prefix and the key, or the key alone.
    pub fn prefix_key(&self, key: &str) -> (r: String)
        ensures
            r@ == prefixed(self.spec_prefix(), key@),
    {
        match &self.prefix {
            Some(prefix) => {
                let mut full = prefix.clone();
                full.append(key);
                full
            },
            None => key.to_owned(),
        }
    }

    /// The command that lists the store's keys: those that match the prefix
    /// followed by `*`. The backend reads the whole pattern as a glob, so a
    /// prefix that itself holds `*`, `?`, `[` or a backslash lists more or other
    /// keys than those that start with it.
    pub fn ids_command(&self) -> (r: Command)
        ensures
            r@ == ids_request(self.spec_prefix()),
    {
        proof {
            reveal_strlit("*");
            assert("*"@ =~= wildcard());
        }
        Command::Keys { pattern: self.prefix_key("*") }
    }

    /// The command whose answer tells the number of sessions in this store.
    pub fn count_command(&self) -> (r: Command)
        ensures
            r@ == count_request(self.spec_prefix()),
    {
        if self.prefix.is_none() {
            Command::DbSize
        } else {
            self.ids_command()
        }
    }

    /// The number of sessions in this store, from the answer to
    /// [`Self::count_command`]: the size itself, or the number of listed keys.
    pub fn count(&self, reply: &CountReply) -> (r: usize)
        ensures
            r == match *reply {
                CountReply::Size(n) => n as int,
                CountReply::Keys(ids) => ids@.len() as int,
            },
    {
        match reply {
            CountReply::Size(n) => *n,
            CountReply::Keys(ids) => ids.len(),
        }
    }

    /// The command that asks how long a session's record has left.
    pub fn ttl_for_session_command(&self, session: &async_session::Session) -> (r: Command)
        ensures
            r@ == (CommandView::Ttl { key: prefixed(self.spec_prefix(), session_id(*session)) }),
    {
        Command::Ttl { key: self.prefix_key(id_of(session)) }
    }

    /// The session id that a cookie value stands for. A cookie value that
    /// yields no id is refused with [`Error::Base64`], and only such a one.
    pub fn requested_id(cookie_value: &str) -> (r: Result<String, Error>)
        ensures
            match cookie_session_id(cookie_value@) {
                Some(id) => r matches Ok(text) && text@ == id,
                None => r matches Err(Error::Base64(_)),
            },
    {
        match id_from_cookie_value(cookie_value) {
            Ok(id) => Ok(id),
            Err(error) => Err(Error::Base64(error)),
        }
    }

    /// First step of loading: the read of the session that a cookie value
    /// stands for. A cookie value that yields no id is refused with
    /// [`Error::Base64`], and only such a one.
    pub fn load_session_command(&self, cookie_value: &str) -> (r: Result<Command, Error>)
        ensures
            match cookie_session_id(cookie_value@) {
                Some(id) => r matches Ok(command) && command@ == load_request(
                    self.spec_prefix(),
                    id,
                ),
                None => r matches Err(Error::Base64(_)),
            },
    {
        match Self::requested_id(cookie_value) {
            Ok(id) => Ok(Command::Get { key: self.prefix_key(id.as_str()) }),
            Err(error) => Err(error),
        }
    }

    /// Second step of loading: the session in the record that the backend
    /// returned for the id that was asked for ([`Self::requested_id`]). No
    /// record is no session and no error, and so is a record that holds no
    /// session. A record that cannot be read is [`Error::SerdeJson`], never
    /// "no session". A record that holds a session with another id is not
    /// trusted: it is no session. A session that is returned has the id
    /// asked for, holds what the record holds and no cookie value.
    pub fn load_session(id: &str, record: Option<String>) -> (r: Result<
        Option<async_session::Session>,
        Error,
    >)
        ensures
            match record {
                None => r matches Ok(None),
                Some(text) => match found(id@, record_session(text@)) {
                    Some(Some(facts)) => r matches Ok(Some(session)) && session_facts(session)
                        == facts && session_id(session) == id@ && session_cookie(session)
                        is None,
                    Some(None) => r matches Ok(None),
                    None => r matches Err(Error::SerdeJson(_)),
                },
            },
    {
        match record {
            Some(value) => Self::loaded(id, decode_session(value.as_str())),
            None => Ok(None),
        }
    }

    /// What loading returns for each outcome of reading a record: the
    /// session as read where it has the id asked for, no session where it
    /// has another or none was read, and a failure as [`Error::SerdeJson`].
    pub fn loaded(
        id: &str,
        decoded: Result<Option<async_session::Session>, serde_json::Error>,
    ) -> (r: Result<Option<async_session::Session>, Error>)
        ensures
            match decoded {
                Ok(Some(session)) => if session_id(session) == id@ {
                    r matches Ok(Some(same)) && same == session
                } else {
                    r matches Ok(None)
                },
                Ok(None) => r matches Ok(None),
                Err(error) => r matches Err(Error::SerdeJson(e)) && e == error,
            },
    {
        match decoded {
            Ok(Some(session)) => {
                if same_text(id_of(&session), id) {
                    Ok(Some(session))
                } else {
                    Ok(None)
                }
            },
            Ok(None) => Ok(None),
            Err(error) => Err(Error::SerdeJson(error)),
        }
    }

    /// First step of storing: the command for the session as it is at the
    /// moment of the call. A session without expiry has its record written,
    /// with the store's time-to-live where one is set and without expiry
    /// where none is; that record reads back as what the session holds. A
    /// session with an expiry has its record written with the seconds left,
    /// or its key deleted where none are left; never is it written to stay.
    /// A session that cannot be encoded is [`Error::SerdeJson`].
    /// [`Self::store_encoded`] says which command is made of each outcome.
    pub fn store_session_command(&self, session: &async_session::Session) -> (r: Result<
        Command,
        Error,
    >)
        ensures
            r matches Err(error) ==> error is SerdeJson,
            r matches Ok(command) ==> match session_expiry(*session) {
                None => exists|record: Seq<char>|
                    record_session(record) == Some(Some(session_facts(*session))) && command@
                        == #[trigger] store_request(
                        self.spec_prefix(),
                        session_id(*session),
                        record,
                        self.spec_ttl(),
                    ),
                Some(_) => command@ == destroy_request(self.spec_prefix(), session_id(*session))
                    || exists|record: Seq<char>, seconds: u64|
                        command@ == #[trigger] store_request(
                            self.spec_prefix(),
                            session_id(*session),
                            record,
                            Some(seconds),
                        ),
            },
    {
        let encoded = encode_session(session);
        let left = match expires_in(session) {
            Some(duration) => Some(whole_seconds(&duration)),
            None => None,
        };
        let expired = left.is_none() && expiry_of(session).is_some();
        self.store_encoded(id_of(session), encoded, left, expired)
    }

    /// The command for an encoded record under the key of `id`. `expired`
    /// says that the session has an expiry of which nothing is left. With
    /// seconds left the record is written with them; an expired session has
    /// its key deleted; else the record is written with the store's
    /// time-to-live, or without expiry where the store has none. A record
    /// that could not be encoded is [`Error::SerdeJson`] and no command.
    pub fn store_encoded(
        &self,
        id: &str,
        encoded: Result<String, serde_json::Error>,
        expires_in: Option<u64>,
        expired: bool,
    ) -> (r: Result<Command, Error>)
        ensures
            match encoded {
                Ok(record) => r matches Ok(command) && command@ == store_step(
                    self.spec_prefix(),
                    self.spec_ttl(),
                    id@,
                    record@,
                    expires_in,
                    expired,
                ),
                Err(error) => r matches Err(Error::SerdeJson(e)) && e == error,
            },
    {
        let key = self.prefix_key(id);
        match encoded {
            Ok(value) => {
                if expires_in.is_none() && expired {
                    return Ok(Command::Del { key });
                }
                match (if expires_in.is_some() {
                    expires_in
                } else {
                    self.ttl
                }) {
                    Some(left) => {
                        let seconds: usize = #[verifier::truncate]
                        (left as usize);
                        Ok(Command::PutEx { key, value, seconds })
                    },
                    None => Ok(Command::Put { key, value }),
                }
            },
            Err(error) => Err(Error::SerdeJson(error)),
        }
    }

    /// Second step of storing. After a successful write the session's cookie
    /// value is taken out and returned, so it is returned once: a session
    /// that holds none gives `None`. Id, data and expiry stay as they were.
    /// After a failed write the failure is returned and the session is left
    /// as it was.
    pub fn store_session(
        session: &mut async_session::Session,
        written: Result<(), redis::RedisError>,
    ) -> (r: Result<Option<String>, Error>)
        ensures
            match written {
                Ok(_) => r matches Ok(cookie) && (text_of(cookie), session_cookie(*final(session)))
                    == minted(session_cookie(*old(session))) && session_facts(*final(session))
                    == session_facts(*old(session)),
                Err(error) => r matches Err(Error::Redis(e)) && e == error && *final(session)
                    == *old(session),
            },
    {
        match written {
            Ok(_) => Ok(take_cookie_value(session)),
            Err(error) => Err(Error::Redis(error)),
        }
    }

    /// First step of destroying: the deletion of the session's key.
    pub fn destroy_session_command(&self, session: &async_session::Session) -> (r: Command)
        ensures
            r@ == destroy_request(self.spec_prefix(), session_id(*session)),
    {
        Command::Del { key: self.prefix_key(id_of(session)) }
    }

    /// Second step of destroying: success unless the backend failed. That
    /// the key was absent is no failure.
    pub fn destroy_session(deleted: Result<(), redis::RedisError>) -> (r: Result<(), Error>)
        ensures
            match deleted {
                Ok(_) => r is Ok,
                Err(error) => r matches Err(Error::Redis(e)) && e == error,
            },
    {
        Error::backend(deleted)
    }

    /// First step of clearing: a flush of the database where the store has
    /// no prefix, else the listing of the store's keys.
    pub fn clear_store_command(&self) -> (r: Command)
        ensures
            r@ == clear_request(self.spec_prefix()),
    {
        if self.prefix.is_none() {
            Command::FlushDb
        } else {
            self.ids_command()
        }
    }

    /// The step between, for a store with a prefix: the deletion of the keys
    /// that the listing gave, all of them and no others. An empty listing
    /// asks for no deletion.
    pub fn clear_store_deletion(ids: Vec<String>) -> (r: Option<Command>)
        ensures
            match clear_deletion(key_texts(ids@)) {
                Some(command) => r matches Some(c) && c@ == command,
                None => r is None,
            },
    {
        if ids.is_empty() {
            None
        } else {
            Some(Command::DelMany { keys: ids })
        }
    }

    /// Last step of clearing: success unless the backend failed.
    pub fn clear_store(cleared: Result<(), redis::RedisError>) -> (r: Result<(), Error>)
        ensures
            match cleared {
                Ok(_) => r is Ok,
                Err(error) => r matches Err(Error::Redis(e)) && e == error,
            },
    {
        Error::backend(cleared)
    }
}

} // verus!
