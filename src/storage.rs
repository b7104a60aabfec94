//! The station's stores: the connector grid, the sent calls by message id,
//! the live transactions, the queue of pending calls and the record of the
//! last transmission.

use crate::wire::same_text;
use queues::{IsQueue, Queue};
use vstd::prelude::*;

verus! {

/// The status of a connector.
#[derive(Clone, Copy, Debug, PartialEq, Eq, Structural)]
pub enum ConnectorStatus {
    Inoperative,
    Available,
    Occupied,
    Reserved,
    Unavailable,
    Faulted,
}

/// The name of a status on the wire.
pub open spec fn status_name(s: ConnectorStatus) -> Seq<char> {
    match s {
        ConnectorStatus::Inoperative => "Inoperative"@,
        ConnectorStatus::Available => "Available"@,
        ConnectorStatus::Occupied => "Occupied"@,
        ConnectorStatus::Reserved => "Reserved"@,
        ConnectorStatus::Unavailable => "Unavailable"@,
        ConnectorStatus::Faulted => "Faulted"@,
    }
}

impl ConnectorStatus {
    /// The name of the status on the wire.
    pub fn as_str(&self) -> (r: &'static str)
        ensures
            r@ == status_name(*self),
    {
        match self {
            ConnectorStatus::Inoperative => "Inoperative",
            ConnectorStatus::Available => "Available",
            ConnectorStatus::Occupied => "Occupied",
            ConnectorStatus::Reserved => "Reserved",
            ConnectorStatus::Unavailable => "Unavailable",
            ConnectorStatus::Faulted => "Faulted",
        }
    }
}

/// One connector of an EVSE.
#[derive(Clone, Copy, Debug, PartialEq, Eq, Structural)]
pub struct Connector {
    pub status: ConnectorStatus,
    pub operational: bool,
}

/// The last transmission: its message id and when it happened, in seconds.
#[derive(Debug)]
pub struct SentMessage {
    pub id: Option<String>,
    pub timestamp: Option<u64>,
}

/// The map that a list of entries stands for: a later entry overrides an
/// earlier one with the same key.
pub open spec fn entries_map<V>(s: Seq<(String, V)>) -> Map<Seq<char>, V>
    decreases s.len(),
{
    if s.len() == 0 {
        Map::empty()
    } else {
        entries_map(s.drop_last()).insert(s.last().0@, s.last().1)
    }
}

/// Entries after position `i` that miss the key do not change what it maps to.
proof fn lemma_entries_after<V>(s: Seq<(String, V)>, k: Seq<char>, i: int)
    requires
        0 <= i <= s.len(),
        forall|j: int| i <= j < s.len() ==> (#[trigger] s[j]).0@ != k,
    ensures
        entries_map(s).contains_key(k) == entries_map(s.subrange(0, i)).contains_key(k),
        entries_map(s).contains_key(k) ==> entries_map(s)[k] == entries_map(s.subrange(0, i))[k],
    decreases s.len(),
{
    if s.len() == i {
        assert(s.subrange(0, i) =~= s);
    } else {
        let t = s.drop_last();
        assert(t.subrange(0, i) =~= s.subrange(0, i));
        assert forall|j: int| i <= j < t.len() implies (#[trigger] t[j]).0@ != k by {
            assert(t[j] == s[j]);
        }
        lemma_entries_after::<V>(t, k, i);
    }
}

/// A map from strings to values, kept as a list of entries so that what it
/// maps each text to is stated exactly: vstd states std's `HashMap` only for
/// key types that it knows to obey its key model, and `String` is not one.
pub struct Table<V> {
    entries: Vec<(String, V)>,
}

impl<V> View for Table<V> {
    type V = Map<Seq<char>, V>;

    closed spec fn view(&self) -> Map<Seq<char>, V> {
        entries_map(self.entries@)
    }
}

impl<V> Table<V> {
    /// The empty table.
    pub fn new() -> (r: Table<V>)
        ensures
            r@ == Map::<Seq<char>, V>::empty(),
    {
        Table { entries: Vec::new() }
    }

    /// Maps `key` to `value`, replacing what it mapped to.
    pub fn insert(&mut self, key: String, value: V)
        ensures
            final(self)@ == old(self)@.insert(key@, value),
    {
        let ghost before = self.entries@;
        self.entries.push((key, value));
        assert(self.entries@.drop_last() =~= before);
    }

    /// What `key` maps to.
    pub fn get(&self, key: &str) -> (r: Option<&V>)
        ensures
            match r {
                Some(v) => self@.contains_key(key@) && *v == self@[key@],
                None => !self@.contains_key(key@),
            },
    {
        let mut i: usize = self.entries.len();
        while i > 0
            invariant
                i <= self.entries@.len(),
                forall|j: int| i <= j < self.entries@.len() ==> (#[trigger] self.entries@[j]).0@ != key@,
            decreases i,
        {
            i = i - 1;
            if same_text(self.entries[i].0.as_str(), key) {
                proof {
                    let s = self.entries@;
                    lemma_entries_after::<V>(s, key@, i + 1);
                    assert(s.subrange(0, i + 1).drop_last() =~= s.subrange(0, i as int));
                }
                return Some(&self.entries[i].1);
            }
        }
        proof {
            lemma_entries_after::<V>(self.entries@, key@, 0);
        }
        None
    }

    /// Removes `key` and what it maps to.
    pub fn remove(&mut self, key: &str)
        ensures
            final(self)@ == old(self)@.remove(key@),
    {
        let mut old_entries: Vec<(String, V)> = Vec::new();
        std::mem::swap(&mut old_entries, &mut self.entries);
        let ghost s = old_entries@;
        let n = old_entries.len();
        let mut kept: Vec<(String, V)> = Vec::new();
        let mut rest = old_entries;
        let mut i: usize = 0;
        while i < n
            invariant
                n == s.len(),
                i <= s.len(),
                rest@ == s.subrange(i as int, s.len() as int),
                entries_map(kept@) == entries_map(s.subrange(0, i as int)).remove(key@),
            decreases s.len() - i,
        {
            let e = rest.remove(0);
            assert(e == s[i as int]);
            let ghost prefix = s.subrange(0, i as int);
            assert(s.subrange(0, i + 1).drop_last() =~= prefix);
            if same_text(e.0.as_str(), key) {
                assert(entries_map(s.subrange(0, i + 1)).remove(key@) =~= entries_map(prefix).remove(
                    key@,
                ));
            } else {
                let ghost before = kept@;
                kept.push(e);
                assert(kept@.drop_last() =~= before);
                assert(entries_map(kept@) =~= entries_map(s.subrange(0, i + 1)).remove(key@));
            }
            i = i + 1;
        }
        assert(s.subrange(0, s.len() as int) =~= s);
        self.entries = kept;
    }
}

#[verifier::external_type_specification]
#[verifier::external_body]
#[verifier::reject_recursive_types(T)]
pub struct ExQueue<T: Clone>(Queue<T>);

/// The messages that a queue holds, oldest first.
pub uninterp spec fn queue_contents(q: Queue<String>) -> Seq<Seq<char>>;

/// Relies on queues' `Queue::new`: a queue with nothing in it.
#[verifier::external_body]
fn queue_new() -> (r: Queue<String>)
    ensures
        queue_contents(r) == Seq::<Seq<char>>::empty(),
{
    Queue::new()
}

/// Relies on queues' `IsQueue::add` for `Queue`: it pushes at the back and
/// always returns `Ok(None)`.
#[verifier::external_body]
fn queue_push(q: &mut Queue<String>, s: String)
    ensures
        queue_contents(*final(q)) == queue_contents(*old(q)).push(s@),
{
    let _ = q.add(s);
}

/// Relies on queues' `IsQueue::remove` for `Queue`: the oldest message, taken
/// out, or an error when the queue is empty.
#[verifier::external_body]
fn queue_take(q: &mut Queue<String>) -> (r: Option<String>)
    ensures
        queue_contents(*old(q)).len() == 0 ==> r is None && queue_contents(*final(q))
            == queue_contents(*old(q)),
        queue_contents(*old(q)).len() > 0 ==> r is Some && r->0@ == queue_contents(*old(q))[0]
            && queue_contents(*final(q)) == queue_contents(*old(q)).drop_first(),
{
    q.remove().ok()
}

/// Relies on queues' `IsQueue::size` for `Queue`: how many messages it holds.
#[verifier::external_body]
fn queue_length(q: &Queue<String>) -> (r: usize)
    ensures
        r == queue_contents(*q).len(),
{
    q.size()
}

/// Everything a station session keeps: its connectors, the calls it sent by
/// message id, its live transactions by transaction id, the calls waiting to
/// go out and the record of the last transmission.
pub struct Storage {
    evses: Vec<Vec<Connector>>,
    messages: Table<String>,
    transactions: Table<String>,
    queue: Queue<String>,
    last_sent: SentMessage,
}

/// A grid of `evse_count` rows of `connectors_per_evse` connectors, each
/// inoperative.
pub open spec fn initial_grid(evse_count: nat, connectors_per_evse: nat) -> Seq<Seq<Connector>> {
    Seq::new(
        evse_count,
        |i: int|
            Seq::new(
                connectors_per_evse,
                |j: int| Connector { status: ConnectorStatus::Inoperative, operational: true },
            ),
    )
}

/// Whether `(evse_index, connector_index)` names a connector of the grid.
pub open spec fn in_grid(grid: Seq<Seq<Connector>>, evse_index: int, connector_index: int) -> bool {
    0 <= evse_index < grid.len() && 0 <= connector_index < grid[evse_index].len()
}

/// The grid with one connector's status changed.
pub open spec fn with_status(
    grid: Seq<Seq<Connector>>,
    evse_index: int,
    connector_index: int,
    status: ConnectorStatus,
) -> Seq<Seq<Connector>> {
    grid.update(
        evse_index,
        grid[evse_index].update(
            connector_index,
            Connector { status, operational: grid[evse_index][connector_index].operational },
        ),
    )
}

impl Storage {
    /// The connectors, by EVSE index then connector index.
    pub closed spec fn grid(&self) -> Seq<Seq<Connector>> {
        Seq::new(self.evses@.len(), |i: int| self.evses@[i]@)
    }

    /// The sent calls, by message id.
    pub closed spec fn messages(&self) -> Map<Seq<char>, Seq<char>> {
        self.messages@.map_values(|v: String| v@)
    }

    /// The live transactions, by transaction id.
    pub closed spec fn transactions(&self) -> Map<Seq<char>, Seq<char>> {
        self.transactions@.map_values(|v: String| v@)
    }

    /// The calls waiting to go out, oldest first.
    pub closed spec fn pending(&self) -> Seq<Seq<char>> {
        queue_contents(self.queue)
    }

    /// The last transmission.
    pub closed spec fn last_sent(&self) -> (Option<Seq<char>>, Option<u64>) {
        (
            match self.last_sent.id {
                Some(id) => Some(id@),
                None => None,
            },
            self.last_sent.timestamp,
        )
    }

    /// Fresh stores for a grid of connectors, each inoperative, with nothing
    /// sent, stored or pending.
    pub fn new(evse_count: usize, connectors_per_evse: usize) -> (r: Storage)
        ensures
            r.grid() == initial_grid(evse_count as nat, connectors_per_evse as nat),
            r.messages() == Map::<Seq<char>, Seq<char>>::empty(),
            r.transactions() == Map::<Seq<char>, Seq<char>>::empty(),
            r.pending() == Seq::<Seq<char>>::empty(),
            r.last_sent() == (None::<Seq<char>>, None::<u64>),
    {
        let mut evses: Vec<Vec<Connector>> = Vec::new();
        let mut i: usize = 0;
        while i < evse_count
            invariant
                i <= evse_count,
                evses@.len() == i,
                forall|k: int|
                    0 <= k < i ==> (#[trigger] evses@[k])@ == initial_grid(
                        evse_count as nat,
                        connectors_per_evse as nat,
                    )[k],
            decreases evse_count - i,
        {
            let mut row: Vec<Connector> = Vec::new();
            let mut j: usize = 0;
            while j < connectors_per_evse
                invariant
                    j <= connectors_per_evse,
                    row@.len() == j,
                    forall|k: int|
                        0 <= k < j ==> #[trigger] row@[k] == (Connector {
                            status: ConnectorStatus::Inoperative,
                            operational: true,
                        }),
                decreases connectors_per_evse - j,
            {
                row.push(Connector { status: ConnectorStatus::Inoperative, operational: true });
                j = j + 1;
            }
            assert(row@ =~= initial_grid(evse_count as nat, connectors_per_evse as nat)[i as int]);
            evses.push(row);
            i = i + 1;
        }
        let r = Storage {
            evses,
            messages: Table::new(),
            transactions: Table::new(),
            queue: queue_new(),
            last_sent: SentMessage { id: None, timestamp: None },
        };
        assert(r.grid() =~= initial_grid(evse_count as nat, connectors_per_evse as nat));
        assert(r.messages() =~= Map::<Seq<char>, Seq<char>>::empty());
        assert(r.transactions() =~= Map::<Seq<char>, Seq<char>>::empty());
        r
    }
}

/// Records a sent call under its message id.
pub fn set_message(storage: &mut Storage, key: String, value: String)
    ensures
        final(storage).messages() == old(storage).messages().insert(key@, value@),
        final(storage).grid() == old(storage).grid(),
        final(storage).transactions() == old(storage).transactions(),
        final(storage).pending() == old(storage).pending(),
        final(storage).last_sent() == old(storage).last_sent(),
{
    let ghost k = key@;
    let ghost v = value@;
    storage.messages.insert(key, value);
    assert(storage.messages() =~= old(storage).messages().insert(k, v));
}

/// The sent call with this message id, or the empty text when there is none.
pub fn get_message(storage: &Storage, key: &str) -> (r: String)
    ensures
        r@ == if storage.messages().contains_key(key@) {
            storage.messages()[key@]
        } else {
            Seq::empty()
        },
{
    match storage.messages.get(key) {
        Some(v) => v.clone(),
        None => String::new(),
    }
}

/// The sent call with this message id, when there is one.
pub fn find_message(storage: &Storage, key: &str) -> (r: Option<String>)
    ensures
        match r {
            Some(v) => storage.messages().contains_key(key@) && v@ == storage.messages()[key@],
            None => !storage.messages().contains_key(key@),
        },
{
    match storage.messages.get(key) {
        Some(v) => Some(v.clone()),
        None => None,
    }
}

/// Stores a transaction under its id.
pub fn set_transaction(storage: &mut Storage, key: String, value: String)
    ensures
        final(storage).transactions() == old(storage).transactions().insert(key@, value@),
        final(storage).grid() == old(storage).grid(),
        final(storage).messages() == old(storage).messages(),
        final(storage).pending() == old(storage).pending(),
        final(storage).last_sent() == old(storage).last_sent(),
{
    let ghost k = key@;
    let ghost v = value@;
    storage.transactions.insert(key, value);
    assert(storage.transactions() =~= old(storage).transactions().insert(k, v));
}

/// The transaction with this id, or the empty text when there is none.
pub fn get_transaction(storage: &Storage, key: &str) -> (r: String)
    ensures
        r@ == if storage.transactions().contains_key(key@) {
            storage.transactions()[key@]
        } else {
            Seq::empty()
        },
{
    match storage.transactions.get(key) {
        Some(v) => v.clone(),
        None => String::new(),
    }
}

/// Whether a transaction with this id is live.
pub fn has_transaction(storage: &Storage, key: &str) -> (r: bool)
    ensures
        r == storage.transactions().contains_key(key@),
{
    storage.transactions.get(key).is_some()
}

/// Forgets the transaction with this id.
pub fn delete_transaction(storage: &mut Storage, key: &str)
    ensures
        final(storage).transactions() == old(storage).transactions().remove(key@),
        final(storage).grid() == old(storage).grid(),
        final(storage).messages() == old(storage).messages(),
        final(storage).pending() == old(storage).pending(),
        final(storage).last_sent() == old(storage).last_sent(),
{
    storage.transactions.remove(key);
    assert(storage.transactions() =~= old(storage).transactions().remove(key@));
}

/// Sets the status of one connector.
pub fn set_connector_status(
    storage: &mut Storage,
    evse_index: usize,
    connector_index: usize,
    value: ConnectorStatus,
)
    requires
        in_grid(old(storage).grid(), evse_index as int, connector_index as int),
    ensures
        final(storage).grid() == with_status(
            old(storage).grid(),
            evse_index as int,
            connector_index as int,
            value,
        ),
        final(storage).messages() == old(storage).messages(),
        final(storage).transactions() == old(storage).transactions(),
        final(storage).pending() == old(storage).pending(),
        final(storage).last_sent() == old(storage).last_sent(),
{
    let ghost g = storage.grid();
    let c = storage.evses[evse_index][connector_index];
    storage.evses[evse_index].set(connector_index, Connector { status: value, operational: c.operational });
    assert(storage.grid() =~= g.update(
        evse_index as int,
        g[evse_index as int].update(
            connector_index as int,
            Connector { status: value, operational: c.operational },
        ),
    ));
}

/// How many EVSEs the grid has.
pub fn evse_count(storage: &Storage) -> (r: usize)
    ensures
        r == storage.grid().len(),
{
    storage.evses.len()
}

/// A copy of one connector.
pub fn get_connector(storage: &Storage, evse_index: usize, connector_index: usize) -> (r: Connector)
    requires
        in_grid(storage.grid(), evse_index as int, connector_index as int),
    ensures
        r == storage.grid()[evse_index as int][connector_index as int],
{
    storage.evses[evse_index][connector_index]
}

/// The connector at these indices, when there is one.
pub fn find_connector(storage: &Storage, evse_index: usize, connector_index: usize) -> (r: Option<
    Connector,
>)
    ensures
        match r {
            Some(c) => in_grid(storage.grid(), evse_index as int, connector_index as int) && c
                == storage.grid()[evse_index as int][connector_index as int],
            None => !in_grid(storage.grid(), evse_index as int, connector_index as int),
        },
{
    if evse_index < storage.evses.len() && connector_index < storage.evses[evse_index].len() {
        Some(storage.evses[evse_index][connector_index])
    } else {
        None
    }
}

/// How many calls wait to go out.
pub fn queue_size(storage: &Storage) -> (r: usize)
    ensures
        r == storage.pending().len(),
{
    queue_length(&storage.queue)
}

/// Puts a call at the back of the queue.
pub fn queue_add(storage: &mut Storage, s: String)
    ensures
        final(storage).pending() == old(storage).pending().push(s@),
        final(storage).grid() == old(storage).grid(),
        final(storage).messages() == old(storage).messages(),
        final(storage).transactions() == old(storage).transactions(),
        final(storage).last_sent() == old(storage).last_sent(),
{
    queue_push(&mut storage.queue, s);
}

/// Takes the oldest call out of the queue; the empty text when there is none.
pub fn queue_pop(storage: &mut Storage) -> (r: String)
    ensures
        old(storage).pending().len() == 0 ==> r@ == Seq::<char>::empty() && final(storage).pending()
            == old(storage).pending(),
        old(storage).pending().len() > 0 ==> r@ == old(storage).pending()[0]
            && final(storage).pending() == old(storage).pending().drop_first(),
        final(storage).grid() == old(storage).grid(),
        final(storage).messages() == old(storage).messages(),
        final(storage).transactions() == old(storage).transactions(),
        final(storage).last_sent() == old(storage).last_sent(),
{
    match queue_take(&mut storage.queue) {
        Some(s) => s,
        None => String::new(),
    }
}

/// Records a transmission.
pub fn set_last_sent_message(storage: &mut Storage, id: String, timestamp: u64)
    ensures
        final(storage).last_sent() == (Some(id@), Some(timestamp)),
        final(storage).grid() == old(storage).grid(),
        final(storage).messages() == old(storage).messages(),
        final(storage).transactions() == old(storage).transactions(),
        final(storage).pending() == old(storage).pending(),
{
    storage.last_sent = SentMessage { id: Some(id), timestamp: Some(timestamp) };
}

/// A copy of the record of the last transmission.
pub fn get_last_sent_message(storage: &Storage) -> (r: SentMessage)
    ensures
        (match r.id {
            Some(id) => Some(id@),
            None => None,
        }, r.timestamp) == storage.last_sent(),
{
    let id = match &storage.last_sent.id {
        Some(s) => Some(s.clone()),
        None => None,
    };
    SentMessage { id, timestamp: storage.last_sent.timestamp }
}

} // verus!
