//! The backend's primitives as values, and what each does to the key space.

use crate::namespace::in_namespace;
use vstd::prelude::*;

verus! {

/// One primitive of the key-value backend, ready to be sent.
#[derive(Clone, Debug, PartialEq, Eq)]
pub enum Command {
    /// Read the record under a key.
    Get { key: String },
    /// Write a record that stays until it is deleted.
    Put { key: String, value: String },
    /// Write a record that the backend drops after `seconds`.
    PutEx { key: String, value: String, seconds: usize },
    /// Delete one key. A missing key is no failure.
    Del { key: String },
    /// Delete several keys at once.
    DelMany { keys: Vec<String> },
    /// List the keys that match a pattern.
    Keys { pattern: String },
    /// Ask how long the record under a key has left.
    Ttl { key: String },
    /// Count all keys of the backend's database.
    DbSize,
    /// Remove every key of the backend's database.
    FlushDb,
}

/// A [`Command`] as plain data.
pub enum CommandView {
    Get { key: Seq<char> },
    Put { key: Seq<char>, value: Seq<char> },
    PutEx { key: Seq<char>, value: Seq<char>, seconds: usize },
    Del { key: Seq<char> },
    DelMany { keys: Seq<Seq<char>> },
    Keys { pattern: Seq<char> },
    Ttl { key: Seq<char> },
    DbSize,
    FlushDb,
}

/// The texts of a list of keys, in order.
pub open spec fn key_texts(keys: Seq<String>) -> Seq<Seq<char>> {
    Seq::new(keys.len(), |i: int| keys[i]@)
}

impl View for Command {
    type V = CommandView;

    open spec fn view(&self) -> CommandView {
        match self {
            Command::Get { key } => CommandView::Get { key: key@ },
            Command::Put { key, value } => CommandView::Put { key: key@, value: value@ },
            Command::PutEx { key, value, seconds } => CommandView::PutEx {
                key: key@,
                value: value@,
                seconds: *seconds,
            },
            Command::Del { key } => CommandView::Del { key: key@ },
            Command::DelMany { keys } => CommandView::DelMany { keys: key_texts(keys@) },
            Command::Keys { pattern } => CommandView::Keys { pattern: pattern@ },
            Command::Ttl { key } => CommandView::Ttl { key: key@ },
            Command::DbSize => CommandView::DbSize,
            Command::FlushDb => CommandView::FlushDb,
        }
    }
}

/// The backend's database as the store sees it: the record under each key.
pub type Database = Map<Seq<char>, Seq<char>>;

/// What a command leaves of a database. Reads leave it as it was; a write
/// replaces one record; a deletion removes the keys it names and no others,
/// present or not; a flush leaves nothing. Expiry is left aside: a record
/// written with seconds to live is held here like any other, and what the
/// backend drops on its own is not part of this model.
pub open spec fn effect(command: CommandView, db: Database) -> Database {
    match command {
        CommandView::Put { key, value } => db.insert(key, value),
        CommandView::PutEx { key, value, seconds } => db.insert(key, value),
        CommandView::Del { key } => db.remove(key),
        CommandView::DelMany { keys } => db.remove_keys(keys.to_set()),
        CommandView::FlushDb => Map::empty(),
        CommandView::Get { key } => db,
        CommandView::Keys { pattern } => db,
        CommandView::Ttl { key } => db,
        CommandView::DbSize => db,
    }
}

/// The record that a read of `key` finds in a database, if there is one.
pub open spec fn record_at(db: Database, key: Seq<char>) -> Option<Seq<char>> {
    if db.dom().contains(key) {
        Some(db[key])
    } else {
        None
    }
}

/// The part of a database that a store with the given prefix can observe:
/// the records whose keys lie in its namespace. What the store counts, lists
/// and loads is read from this part alone.
pub open spec fn namespace_part(prefix: Option<Seq<char>>, db: Database) -> Database {
    db.restrict(Set::new(|key: Seq<char>| in_namespace(prefix, key)))
}

/// The backend's answer to the command of [`crate::RedisSessionStore::count_command`].
#[derive(Clone, Debug, PartialEq, Eq)]
pub enum CountReply {
    /// The answer to [`Command::DbSize`]: the number of keys.
    Size(usize),
    /// The answer to [`Command::Keys`]: the keys themselves.
    Keys(Vec<String>),
}

} // verus!
