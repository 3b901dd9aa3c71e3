//! What holds of the store's operations taken together, stated over the
//! commands they send and over the backend's database.

use crate::backend::{effect, namespace_part, record_at, CommandView, Database};
use crate::namespace::{
    in_namespace, lemma_distinct_prefixes_distinct_keys, lemma_prefixed_in_namespace,
    lemma_shared_key_overlap, overlapping, prefixed,
};
use crate::outside::{cookie_session_id, record_session, SessionFacts};
use crate::store::{
    clear_deletion, clear_request, count_request, destroy_request, found, ids_request,
    load_request, minted, store_request,
};
use vstd::prelude::*;

verus! {

/// The database after the deletion that clearing a prefixed store makes of a
/// listing: without the listed keys, or unchanged where nothing was listed.
pub open spec fn after_clear_deletion(ids: Seq<Seq<char>>, db: Database) -> Database {
    match clear_deletion(ids) {
        Some(command) => effect(command, db),
        None => db,
    }
}

/// Storing then loading reads what was stored. Once a session's record is
/// written, the read that loading makes for a cookie value of that session,
/// by a store with the same prefix, finds exactly that record, whether it
/// was written with an expiry or without. Turning the record back into the
/// session is the codec's part and is not stated here.
pub proof fn law_load_finds_stored_record(
    prefix: Option<Seq<char>>,
    cookie_value: Seq<char>,
    id: Seq<char>,
    record: Seq<char>,
    left: Option<u64>,
    db: Database,
)
    requires
        cookie_session_id(cookie_value) == Some(id),
    ensures
        load_request(prefix, cookie_session_id(cookie_value)->Some_0) == (CommandView::Get {
            key: prefixed(prefix, id),
        }),
        record_at(effect(store_request(prefix, id, record, left), db), prefixed(prefix, id))
            == Some(record),
        record_at(
            namespace_part(prefix, effect(store_request(prefix, id, record, left), db)),
            prefixed(prefix, id),
        ) == Some(record),
{
    lemma_prefixed_in_namespace(prefix, id);
}

/// Round trip. Let a record read back as a session with the id, data and
/// expiry in `facts`, as the record written for a session without expiry
/// does. Once it is written under the session's id, loading by that id
/// through a store with the same prefix finds the record and gives a session
/// that holds exactly `facts`: the same id and the same data map.
pub proof fn law_round_trip(
    prefix: Option<Seq<char>>,
    facts: SessionFacts,
    record: Seq<char>,
    expiry: Option<u64>,
    db: Database,
)
    requires
        record_session(record) == Some(Some(facts)),
    ensures
        ({
            let after = effect(store_request(prefix, facts.0, record, expiry), db);
            let read = record_at(after, prefixed(prefix, facts.0));
            read == Some(record) && found(facts.0, record_session(read->Some_0)) == Some(
                Some(facts),
            )
        }),
{
}

/// A session is read only through its own prefix. Where two stores have
/// prefixes that differ as texts (no prefix counting as the empty one), a
/// record that one of them writes or deletes for an id leaves what the
/// other reads for that same id as it was: a session stored through the
/// one is not found through the other.
pub proof fn law_load_through_other_prefix(
    a: Option<Seq<char>>,
    b: Option<Seq<char>>,
    id: Seq<char>,
    record: Seq<char>,
    expiry: Option<u64>,
    db: Database,
)
    requires
        prefixed(a, Seq::empty()) != prefixed(b, Seq::empty()),
    ensures
        record_at(effect(store_request(a, id, record, expiry), db), prefixed(b, id)) == record_at(
            db,
            prefixed(b, id),
        ),
        record_at(effect(destroy_request(a, id), db), prefixed(b, id)) == record_at(
            db,
            prefixed(b, id),
        ),
{
    lemma_distinct_prefixes_distinct_keys(a, b, id);
}

/// Storing a session again replaces its record and adds none: the keys of
/// the database after the second write are those after the first.
pub proof fn law_store_again_keeps_one_record(
    prefix: Option<Seq<char>>,
    id: Seq<char>,
    first: Seq<char>,
    second: Seq<char>,
    first_left: Option<u64>,
    second_left: Option<u64>,
    db: Database,
)
    ensures
        effect(
            store_request(prefix, id, second, second_left),
            effect(store_request(prefix, id, first, first_left), db),
        ).dom() == effect(store_request(prefix, id, first, first_left), db).dom(),
        record_at(
            effect(
                store_request(prefix, id, second, second_left),
                effect(store_request(prefix, id, first, first_left), db),
            ),
            prefixed(prefix, id),
        ) == Some(second),
{
    let once = effect(store_request(prefix, id, first, first_left), db);
    let twice = effect(store_request(prefix, id, second, second_left), once);
    assert(twice.dom() =~= once.dom());
}

/// Reading changes nothing. The commands that load, list and count leave
/// every record of the database as it was.
pub proof fn law_reads_leave_database(prefix: Option<Seq<char>>, id: Seq<char>, db: Database)
    ensures
        effect(load_request(prefix, id), db) == db,
        effect(ids_request(prefix), db) == db,
        effect(count_request(prefix), db) == db,
{
}

/// A cookie value is handed out once. Whatever cookie value a session holds,
/// the first successful store returns it and leaves none in the session, so
/// the store that follows returns none.
pub proof fn law_cookie_returned_once(cookie: Option<Seq<char>>)
    ensures
        minted(cookie).0 == cookie,
        minted(minted(cookie).1).0 is None,
{
}

/// Destroying is idempotent. The second deletion of a session's key leaves
/// the database as the first left it, and after either a load of that
/// session finds no record.
pub proof fn law_destroy_twice(prefix: Option<Seq<char>>, id: Seq<char>, db: Database)
    ensures
        effect(destroy_request(prefix, id), effect(destroy_request(prefix, id), db)) == effect(
            destroy_request(prefix, id),
            db,
        ),
        record_at(effect(destroy_request(prefix, id), db), prefixed(prefix, id)) is None,
{
    let once = effect(destroy_request(prefix, id), db);
    let twice = effect(destroy_request(prefix, id), once);
    assert(twice =~= once);
}

/// Namespaces with prefixes that do not overlap are isolated. What a store
/// with prefix `a` observes is unchanged by every write, deletion and
/// clearing that a store with prefix `b` makes, provided the keys that `b`
/// clears are keys of its own namespace, as a listing of it gives them.
pub proof fn law_namespaces_isolated(
    a: Seq<char>,
    b: Seq<char>,
    id: Seq<char>,
    record: Seq<char>,
    left: Option<u64>,
    ids: Seq<Seq<char>>,
    db: Database,
)
    requires
        !overlapping(a, b),
        forall|i: int| 0 <= i < ids.len() ==> in_namespace(Some(b), #[trigger] ids[i]),
    ensures
        namespace_part(Some(a), effect(store_request(Some(b), id, record, left), db))
            == namespace_part(Some(a), db),
        namespace_part(Some(a), effect(destroy_request(Some(b), id), db)) == namespace_part(
            Some(a),
            db,
        ),
        namespace_part(Some(a), after_clear_deletion(ids, db)) == namespace_part(Some(a), db),
{
    let key = prefixed(Some(b), id);
    lemma_prefixed_in_namespace(Some(b), id);
    if a.is_prefix_of(key) {
        lemma_shared_key_overlap(a, b, key);
    }
    assert(namespace_part(Some(a), effect(store_request(Some(b), id, record, left), db))
        =~= namespace_part(Some(a), db));
    assert(namespace_part(Some(a), effect(destroy_request(Some(b), id), db)) =~= namespace_part(
        Some(a),
        db,
    ));
    assert forall|k: Seq<char>| ids.to_set().contains(k) implies !in_namespace(Some(a), k) by {
        let i = choose|i: int| 0 <= i < ids.len() && ids[i] == k;
        if a.is_prefix_of(k) {
            lemma_shared_key_overlap(a, b, k);
        }
    }
    assert(namespace_part(Some(a), after_clear_deletion(ids, db)) =~= namespace_part(
        Some(a),
        db,
    ));
}

/// Clearing a store without prefix empties the whole database, whoever
/// wrote its keys.
pub proof fn law_clear_unprefixed_empties(db: Database)
    ensures
        clear_request(None) == CommandView::FlushDb,
        effect(clear_request(None), db) == Map::<Seq<char>, Seq<char>>::empty(),
        namespace_part(None, effect(clear_request(None), db)).dom().len() == 0,
{
    assert(namespace_part(None, effect(clear_request(None), db)).dom() =~= Set::<
        Seq<char>,
    >::empty());
}

/// Clearing a store with a prefix removes its own keys and leaves every
/// other key untouched. Where the listing gives exactly the keys of the
/// store's namespace, nothing of the namespace is left after the deletion,
/// and every record outside it is still there, unchanged.
pub proof fn law_clear_prefixed_spares_others(
    prefix: Seq<char>,
    ids: Seq<Seq<char>>,
    db: Database,
)
    requires
        ids.to_set() == namespace_part(Some(prefix), db).dom(),
    ensures
        namespace_part(Some(prefix), after_clear_deletion(ids, db)).dom() == Set::<
            Seq<char>,
        >::empty(),
        forall|key: Seq<char>| !in_namespace(Some(prefix), key) ==> record_at(
            after_clear_deletion(ids, db),
            key,
        ) == record_at(db, key),
{
    let after = after_clear_deletion(ids, db);
    if ids.len() == 0 {
        assert(ids.to_set() =~= Set::<Seq<char>>::empty());
    }
    assert forall|key: Seq<char>| !in_namespace(Some(prefix), key) implies record_at(after, key)
        == record_at(db, key) by {
        assert(!namespace_part(Some(prefix), db).dom().contains(key));
        assert(!ids.to_set().contains(key));
    }
    assert forall|key: Seq<char>| !namespace_part(Some(prefix), after).dom().contains(key) by {
        if in_namespace(Some(prefix), key) && db.dom().contains(key) {
            assert(namespace_part(Some(prefix), db).dom().contains(key));
            assert(ids.to_set().contains(key));
            assert(ids.len() > 0);
        }
    }
    assert(namespace_part(Some(prefix), after).dom() =~= Set::<Seq<char>>::empty());
}

} // verus!
