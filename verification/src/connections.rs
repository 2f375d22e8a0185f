//! The table of connections: one entry for each, by its identifier.

use vstd::prelude::*;

use crate::channel::SharedCounter;
use crate::config::PlatformMode;
use crate::text::same_text;

verus! {

/// What the server knows of a connection. `P` stands for the connection itself.
pub struct ConnectionMetadata<P> {
    /// The connection; `None` holds its place while it is being set up.
    pub peer_connection: Option<P>,
    /// When the place was taken, in nanoseconds since the Unix epoch.
    pub created_at: u128,
    /// The address of the client.
    pub client_ip: String,
    /// How many data channels the client has open, as the handlers of the connection
    /// count them.
    pub data_channel_count: SharedCounter,
}

/// A [`ConnectionMetadata`] with its text as a character sequence.
pub struct MetadataView<P> {
    pub peer_connection: Option<P>,
    pub created_at: nat,
    pub client_ip: Seq<char>,
    pub data_channel_count: SharedCounter,
}

impl<P> View for ConnectionMetadata<P> {
    type V = MetadataView<P>;

    open spec fn view(&self) -> MetadataView<P> {
        MetadataView {
            peer_connection: self.peer_connection,
            created_at: self.created_at as nat,
            client_ip: self.client_ip@,
            data_channel_count: self.data_channel_count,
        }
    }
}

/// An entry of the table, as it is stored.
pub type Entry<P> = (String, ConnectionMetadata<P>);

/// A table of connections by identifier.
pub type Table<P> = Map<Seq<char>, MetadataView<P>>;

/// No identifier stands twice among the entries.
pub open spec fn distinct_ids<P>(entries: Seq<Entry<P>>) -> bool {
    forall|i: int, j: int|
        0 <= i < entries.len() && 0 <= j < entries.len() && #[trigger] entries[i].0@
            == #[trigger] entries[j].0@ ==> i == j
}

/// An identifier stands among the entries.
pub open spec fn has_id<P>(entries: Seq<Entry<P>>, id: Seq<char>) -> bool {
    exists|i: int| 0 <= i < entries.len() && #[trigger] entries[i].0@ == id
}

/// Where an identifier stands among the entries.
pub open spec fn position<P>(entries: Seq<Entry<P>>, id: Seq<char>) -> int {
    choose|i: int| 0 <= i < entries.len() && #[trigger] entries[i].0@ == id
}

/// The table that distinct entries make up.
pub open spec fn table_of<P>(entries: Seq<Entry<P>>) -> Table<P> {
    Map::new(|id: Seq<char>| has_id(entries, id), |id: Seq<char>| entries[position(entries, id)].1@)
}

/// The identifiers of the connections from an address.
pub open spec fn ids_from<P>(table: Table<P>, ip: Seq<char>) -> Set<Seq<char>> {
    table.dom().filter(|id: Seq<char>| table[id].client_ip == ip)
}

/// How many connections come from an address.
pub open spec fn count_from<P>(table: Table<P>, ip: Seq<char>) -> nat {
    ids_from(table, ip).len()
}

/// How many of the first `n` entries come from an address.
spec fn entries_from<P>(entries: Seq<Entry<P>>, n: nat, ip: Seq<char>) -> nat
    decreases n,
{
    if n == 0 {
        0
    } else {
        entries_from(entries, (n - 1) as nat, ip) + if entries[n - 1].1.client_ip@ == ip {
            1nat
        } else {
            0nat
        }
    }
}

/// The state of a connection, as its transport reports it.
#[derive(Debug, Clone, Copy, PartialEq, Eq, Structural)]
pub enum PeerConnectionState {
    Unspecified,
    New,
    Connecting,
    Connected,
    Disconnected,
    Failed,
    Closed,
}

/// How long a place may be held for a connection that is being set up, in seconds.
pub const PLACEHOLDER_AGE_SECS: u64 = 30;

/// The nanoseconds of a second.
pub const NANOS_PER_SEC: u128 = 1_000_000_000;

/// The time from one moment to another, and none where the clock has been set back.
pub open spec fn elapsed(from: nat, to: nat) -> nat {
    if to >= from {
        (to - from) as nat
    } else {
        0
    }
}

/// Whether the connection is over.
pub open spec fn is_over(state: PeerConnectionState) -> bool {
    state == PeerConnectionState::Disconnected || state == PeerConnectionState::Failed || state
        == PeerConnectionState::Closed
}

/// Whether an entry of this age, in nanoseconds, is cleaned up. A place that is only
/// held goes after more than thirty whole seconds. A connection goes when it is over, or
/// when it is older than `stale_secs`; on a self-hosted server age does not count while
/// it is connected.
pub open spec fn is_cleaned_up(
    mode: PlatformMode,
    stale_secs: nat,
    age: nat,
    state: Option<PeerConnectionState>,
) -> bool {
    match state {
        None => age / NANOS_PER_SEC as nat > PLACEHOLDER_AGE_SECS,
        Some(state) => {
            ||| is_over(state)
            ||| age > stale_secs * NANOS_PER_SEC as nat && (mode == PlatformMode::Web || state
                != PeerConnectionState::Connected)
        },
    }
}

/// Decides whether an entry is cleaned up; `state` is `None` for a place that is only
/// held.
pub fn should_remove(
    mode: PlatformMode,
    stale_secs: u64,
    age: u128,
    state: Option<PeerConnectionState>,
) -> (yes: bool)
    ensures
        yes == is_cleaned_up(mode, stale_secs as nat, age as nat, state),
{
    match state {
        None => age / NANOS_PER_SEC > PLACEHOLDER_AGE_SECS as u128,
        Some(state) => {
            let limit: u128 = stale_secs as u128 * NANOS_PER_SEC;
            let over: bool = matches!(
                state,
                PeerConnectionState::Disconnected | PeerConnectionState::Failed
                    | PeerConnectionState::Closed
            );
            let kept_while_connected: bool = match mode {
                PlatformMode::Web => false,
                PlatformMode::SelfHosted => state == PeerConnectionState::Connected,
            };
            over || (age > limit && !kept_while_connected)
        },
    }
}

/// The entry is cleaned up, or kept, in accordance with its age and, for a connection,
/// with a state that `observe` may report of it.
pub open spec fn verdict<P, F: Fn(&P) -> PeerConnectionState>(
    mode: PlatformMode,
    stale_secs: nat,
    now: nat,
    observe: F,
    entry: MetadataView<P>,
    removed: bool,
) -> bool {
    let age = elapsed(entry.created_at, now);
    match entry.peer_connection {
        None => removed == is_cleaned_up(mode, stale_secs, age, None),
        Some(pc) => exists|state: PeerConnectionState|
            #[trigger] call_ensures(observe, (&pc,), state) && removed == is_cleaned_up(
                mode,
                stale_secs,
                age,
                Some(state),
            ),
    }
}

/// Each entry of `whole` stands in one of the two parts, unchanged, and nothing else does.
pub open spec fn splits_into<P>(whole: Table<P>, a: Table<P>, b: Table<P>) -> bool {
    &&& a.dom().disjoint(b.dom())
    &&& whole == a.union_prefer_right(b)
}

/// The connections of the server.
pub struct Connections<P> {
    entries: Vec<Entry<P>>,
}

impl<P> View for Connections<P> {
    type V = Table<P>;

    closed spec fn view(&self) -> Table<P> {
        table_of(self.entries@)
    }
}

impl<P> Connections<P> {
    /// The table holds no identifier twice.
    pub closed spec fn wf(self) -> bool {
        distinct_ids(self.entries@)
    }

    /// A table without connections.
    pub fn new() -> (table: Connections<P>)
        ensures
            table.wf(),
            table@ == Map::<Seq<char>, MetadataView<P>>::empty(),
    {
        let table: Connections<P> = Connections { entries: Vec::new() };
        assert(table@ =~= Map::empty());
        table
    }

    /// How many connections there are.
    pub fn len(&self) -> (n: usize)
        requires
            self.wf(),
        ensures
            self@.dom().finite(),
            n == self@.dom().len(),
    {
        proof {
            lemma_counts(self.entries@, Seq::empty());
        }
        self.entries.len()
    }

    /// How many connections come from an address.
    pub fn count_ip(&self, ip: &str) -> (n: usize)
        requires
            self.wf(),
        ensures
            n == count_from(self@, ip@),
    {
        let mut n: usize = 0;
        let mut i: usize = 0;
        while i < self.entries.len()
            invariant
                i <= self.entries@.len(),
                n <= i,
                n == entries_from(self.entries@, i as nat, ip@),
            decreases self.entries@.len() - i,
        {
            if same_text(self.entries[i].1.client_ip.as_str(), ip) {
                n = n + 1;
            }
            i = i + 1;
        }
        proof {
            lemma_counts(self.entries@, ip@);
        }
        n
    }

    fn find(&self, id: &str) -> (res: Option<usize>)
        ensures
            match res {
                Some(i) => i < self.entries@.len() && self.entries@[i as int].0@ == id@,
                None => !has_id(self.entries@, id@),
            },
    {
        let mut i: usize = 0;
        while i < self.entries.len()
            invariant
                i <= self.entries@.len(),
                forall|k: int| 0 <= k < i ==> #[trigger] self.entries@[k].0@ != id@,
            decreases self.entries@.len() - i,
        {
            if same_text(self.entries[i].0.as_str(), id) {
                return Some(i);
            }
            i = i + 1;
        }
        None
    }

    /// Takes an entry out of the table, and says what it was.
    pub fn remove(&mut self, id: &str) -> (res: Option<ConnectionMetadata<P>>)
        requires
            old(self).wf(),
        ensures
            final(self).wf(),
            final(self)@ == old(self)@.remove(id@),
            match res {
                Some(entry) => old(self)@.dom().contains(id@) && old(self)@[id@] == entry@,
                None => !old(self)@.dom().contains(id@),
            },
    {
        match self.find(id) {
            Some(i) => {
                proof {
                    lemma_entry(self.entries@, i as int);
                    lemma_drop(self.entries@, i as int);
                }
                let (_, entry) = self.entries.remove(i);
                Some(entry)
            },
            None => {
                assert(self@ =~= self@.remove(id@));
                None
            },
        }
    }

    /// Puts an entry into the table, in place of the one with its identifier, if any.
    pub fn insert(&mut self, id: String, entry: ConnectionMetadata<P>)
        requires
            old(self).wf(),
        ensures
            final(self).wf(),
            final(self)@ == old(self)@.insert(id@, entry@),
    {
        let ghost before = self@;
        let _ = self.remove(id.as_str());
        proof {
            assert(!self@.dom().contains(id@));
            lemma_push(self.entries@, (id, entry));
            assert(before.remove(id@).insert(id@, entry@) =~= before.insert(id@, entry@));
        }
        self.entries.push((id, entry));
    }

    /// Puts the connection in the place that was held for it. Hands out the counter of
    /// its data channels, or `None` where the place is gone.
    pub fn attach(&mut self, id: &str, peer_connection: P) -> (res: Option<SharedCounter>)
        requires
            old(self).wf(),
        ensures
            final(self).wf(),
            old(self)@.dom().contains(id@) ==> {
                &&& res == Some(old(self)@[id@].data_channel_count)
                &&& final(self)@ == old(self)@.insert(
                    id@,
                    (MetadataView {
                        peer_connection: Some(peer_connection),
                        ..old(self)@[id@]
                    }),
                )
            },
            !old(self)@.dom().contains(id@) ==> res is None && final(self)@ == old(self)@,
    {
        let ghost before = self@;
        match self.find(id) {
            Some(i) => {
                proof {
                    lemma_entry(self.entries@, i as int);
                    lemma_drop(self.entries@, i as int);
                }
                let (id, mut entry) = self.entries.remove(i);
                let counter: SharedCounter = entry.data_channel_count.clone();
                entry.peer_connection = Some(peer_connection);
                proof {
                    lemma_push(self.entries@, (id, entry));
                    assert(before.remove(id@).insert(id@, entry@) =~= before.insert(id@, entry@));
                }
                self.entries.push((id, entry));
                Some(counter)
            },
            None => None,
        }
    }

    /// Takes every entry out of the table that is to be cleaned up at the time `now`, and
    /// hands them out. `observe` tells the state of a connection.
    pub fn sweep<F: Fn(&P) -> PeerConnectionState>(
        &mut self,
        mode: PlatformMode,
        stale_secs: u64,
        now: u128,
        observe: F,
    ) -> (removed: Vec<Entry<P>>)
        requires
            old(self).wf(),
            forall|pc: P| call_requires(observe, (&pc,)),
        ensures
            final(self).wf(),
            distinct_ids(removed@),
            splits_into(old(self)@, final(self)@, table_of(removed@)),
            forall|id: Seq<char>| #[trigger]
                final(self)@.dom().contains(id) ==> verdict(
                    mode,
                    stale_secs as nat,
                    now as nat,
                    observe,
                    final(self)@[id],
                    false,
                ),
            forall|id: Seq<char>| #[trigger]
                table_of(removed@).dom().contains(id) ==> verdict(
                    mode,
                    stale_secs as nat,
                    now as nat,
                    observe,
                    table_of(removed@)[id],
                    true,
                ),
            forall|id: Seq<char>|
                #![trigger final(self)@.dom().contains(id)]
                final(self)@.dom().contains(id) ==> {
                    let kept = final(self)@[id];
                    &&& kept.peer_connection is None ==> now < kept.created_at + 31_000_000_000
                    &&& kept.peer_connection is Some && mode == PlatformMode::Web ==> now
                        <= kept.created_at + stale_secs * 1_000_000_000
                },
            forall|id: Seq<char>|
                #![trigger table_of(removed@).dom().contains(id)]
                table_of(removed@).dom().contains(id) ==> {
                    let gone = table_of(removed@)[id];
                    &&& gone.peer_connection is None ==> now >= gone.created_at + 31_000_000_000
                    &&& gone.peer_connection is Some && mode == PlatformMode::SelfHosted ==> exists|
                        state: PeerConnectionState|
                        #[trigger] call_ensures(observe, (&gone.peer_connection->0,), state)
                            && state != PeerConnectionState::Connected
                },
    {
        let ghost before = self@;
        let mut rest: Vec<Entry<P>> = Vec::new();
        std::mem::swap(&mut rest, &mut self.entries);
        let mut removed: Vec<Entry<P>> = Vec::new();
        assert(table_of(self.entries@) =~= Map::empty());
        assert(table_of(removed@) =~= Map::empty());
        while rest.len() > 0
            invariant
                distinct_ids(rest@),
                distinct_ids(self.entries@),
                distinct_ids(removed@),
                forall|pc: P| call_requires(observe, (&pc,)),
                table_of(rest@).dom().disjoint(table_of(self.entries@).dom()),
                table_of(rest@).dom().disjoint(table_of(removed@).dom()),
                table_of(self.entries@).dom().disjoint(table_of(removed@).dom()),
                before =~= table_of(self.entries@).union_prefer_right(
                    table_of(removed@),
                ).union_prefer_right(table_of(rest@)),
                forall|id: Seq<char>| #[trigger]
                    table_of(self.entries@).dom().contains(id) ==> verdict(
                        mode,
                        stale_secs as nat,
                        now as nat,
                        observe,
                        table_of(self.entries@)[id],
                        false,
                    ),
                forall|id: Seq<char>| #[trigger]
                    table_of(removed@).dom().contains(id) ==> verdict(
                        mode,
                        stale_secs as nat,
                        now as nat,
                        observe,
                        table_of(removed@)[id],
                        true,
                    ),
            decreases rest@.len(),
        {
            let ghost all = rest@;
            let ghost last = (all.len() - 1) as int;
            proof {
                lemma_entry(all, last);
                lemma_drop(all, last);
                assert(all.remove(last) =~= all.drop_last());
            }
            let (id, entry) = rest.pop().unwrap();
            let age: u128 = if now >= entry.created_at {
                now - entry.created_at
            } else {
                0
            };
            let state: Option<PeerConnectionState> = match &entry.peer_connection {
                Some(pc) => Some(observe(pc)),
                None => None,
            };
            if should_remove(mode, stale_secs, age, state) {
                assert(!table_of(removed@).dom().contains(id@));
                proof {
                    lemma_push(removed@, (id, entry));
                }
                removed.push((id, entry));
            } else {
                assert(!table_of(self.entries@).dom().contains(id@));
                proof {
                    lemma_push(self.entries@, (id, entry));
                }
                self.entries.push((id, entry));
            }
        }
        assert(table_of(rest@) =~= Map::empty());
        assert(before =~= self@.union_prefer_right(table_of(removed@)));
        proof {
            let kept = self@;
            assert forall|id: Seq<char>| #[trigger] kept.dom().contains(id) implies verdict(
                mode,
                stale_secs as nat,
                now as nat,
                observe,
                kept[id],
                false,
            )
                && (kept[id].peer_connection is None ==> now < kept[id].created_at
                + 31_000_000_000) && (kept[id].peer_connection is Some && mode
                == PlatformMode::Web ==> now <= kept[id].created_at + stale_secs
                * 1_000_000_000) by {
                law_kept(mode, stale_secs as nat, now as nat, observe, kept[id]);
            }
            let gone = table_of(removed@);
            assert forall|id: Seq<char>| #[trigger] gone.dom().contains(id) implies verdict(
                mode,
                stale_secs as nat,
                now as nat,
                observe,
                gone[id],
                true,
            )
                && (gone[id].peer_connection is None ==> now >= gone[id].created_at
                + 31_000_000_000) && (gone[id].peer_connection is Some && mode
                == PlatformMode::SelfHosted ==> exists|state: PeerConnectionState|
                #[trigger] call_ensures(observe, (&gone[id].peer_connection->0,), state) && state
                    != PeerConnectionState::Connected) by {
                law_removed(mode, stale_secs as nat, now as nat, observe, gone[id]);
            }
        }
        removed
    }
}

proof fn lemma_entry<P>(entries: Seq<Entry<P>>, i: int)
    requires
        distinct_ids(entries),
        0 <= i < entries.len(),
    ensures
        table_of(entries).dom().contains(entries[i].0@),
        table_of(entries)[entries[i].0@] == entries[i].1@,
{
    let id = entries[i].0@;
    assert(has_id(entries, id));
    let p = position(entries, id);
    assert(0 <= p < entries.len() && entries[p].0@ == id);
}

proof fn lemma_push<P>(entries: Seq<Entry<P>>, entry: Entry<P>)
    requires
        distinct_ids(entries),
        !has_id(entries, entry.0@),
    ensures
        distinct_ids(entries.push(entry)),
        table_of(entries.push(entry)) == table_of(entries).insert(entry.0@, entry.1@),
{
    let all = entries.push(entry);
    assert forall|i: int, j: int|
        0 <= i < all.len() && 0 <= j < all.len() && #[trigger] all[i].0@
            == #[trigger] all[j].0@ implies i == j by {
        if i < entries.len() && j < entries.len() {
            assert(entries[i].0@ == entries[j].0@);
        } else if i < entries.len() {
            assert(entries[i].0@ == entry.0@);
        } else if j < entries.len() {
            assert(entries[j].0@ == entry.0@);
        }
    }
    let grown = table_of(entries).insert(entry.0@, entry.1@);
    assert forall|id: Seq<char>| #[trigger] table_of(all).dom().contains(id)
        == grown.dom().contains(id) by {
        if has_id(entries, id) {
            let i = position(entries, id);
            assert(all[i].0@ == id);
        }
        if id == entry.0@ {
            assert(all[entries.len() as int].0@ == id);
        }
        if has_id(all, id) {
            let i = position(all, id);
            if i < entries.len() {
                assert(entries[i].0@ == id);
            }
        }
    }
    assert forall|id: Seq<char>| #[trigger] table_of(all).dom().contains(id) implies table_of(
        all,
    )[id] == grown[id] by {
        let i = position(all, id);
        assert(all[i].0@ == id);
        if i < entries.len() {
            lemma_entry(entries, i);
            assert(all[i] == entries[i]);
        }
    }
    assert(table_of(all) =~= grown);
}

proof fn lemma_drop<P>(entries: Seq<Entry<P>>, i: int)
    requires
        distinct_ids(entries),
        0 <= i < entries.len(),
    ensures
        distinct_ids(entries.remove(i)),
        !has_id(entries.remove(i), entries[i].0@),
        table_of(entries.remove(i)) == table_of(entries).remove(entries[i].0@),
{
    let rest = entries.remove(i);
    let gone = entries[i].0@;
    assert forall|k: int| 0 <= k < rest.len() implies #[trigger] rest[k] == entries[if k < i {
        k
    } else {
        k + 1
    }] by {}
    assert forall|a: int, b: int|
        0 <= a < rest.len() && 0 <= b < rest.len() && #[trigger] rest[a].0@
            == #[trigger] rest[b].0@ implies a == b by {
        let a2 = if a < i { a } else { a + 1 };
        let b2 = if b < i { b } else { b + 1 };
        assert(entries[a2].0@ == entries[b2].0@);
    }
    if has_id(rest, gone) {
        let k = position(rest, gone);
        let k2 = if k < i { k } else { k + 1 };
        assert(entries[k2].0@ == entries[i].0@);
    }
    let shrunk = table_of(entries).remove(gone);
    assert forall|id: Seq<char>| #[trigger] table_of(rest).dom().contains(id)
        == shrunk.dom().contains(id) by {
        if has_id(rest, id) {
            let k = position(rest, id);
            let k2 = if k < i { k } else { k + 1 };
            assert(entries[k2].0@ == id);
        }
        if has_id(entries, id) && id != gone {
            let k = position(entries, id);
            let k2 = if k < i { k } else { k - 1 };
            assert(rest[k2].0@ == id);
        }
    }
    assert forall|id: Seq<char>| #[trigger] table_of(rest).dom().contains(id) implies table_of(
        rest,
    )[id] == shrunk[id] by {
        let k = position(rest, id);
        let k2 = if k < i { k } else { k + 1 };
        lemma_entry(entries, k2);
    }
    assert(table_of(rest) =~= shrunk);
}

proof fn lemma_counts<P>(entries: Seq<Entry<P>>, ip: Seq<char>)
    requires
        distinct_ids(entries),
    ensures
        table_of(entries).dom().finite(),
        table_of(entries).dom().len() == entries.len(),
        ids_from(table_of(entries), ip).finite(),
        count_from(table_of(entries), ip) == entries_from(entries, entries.len(), ip),
    decreases entries.len(),
{
    let table = table_of(entries);
    if entries.len() == 0 {
        assert(table.dom() =~= Set::empty());
        assert(ids_from(table, ip) =~= Set::empty());
    } else {
        let n = (entries.len() - 1) as nat;
        let rest = entries.drop_last();
        let last = entries.last();
        assert(entries.remove(n as int) =~= rest);
        lemma_drop(entries, n as int);
        lemma_entry(entries, n as int);
        lemma_counts(rest, ip);
        assert(table.dom() =~= table_of(rest).dom().insert(last.0@));
        lemma_entries_from_prefix(entries, rest, n, ip);
        if last.1.client_ip@ == ip {
            assert(ids_from(table, ip) =~= ids_from(table_of(rest), ip).insert(last.0@));
        } else {
            assert(ids_from(table, ip) =~= ids_from(table_of(rest), ip));
        }
    }
}

proof fn lemma_entries_from_prefix<P>(a: Seq<Entry<P>>, b: Seq<Entry<P>>, n: nat, ip: Seq<char>)
    requires
        n <= a.len(),
        n <= b.len(),
        forall|i: int| 0 <= i < n ==> a[i] == b[i],
    ensures
        entries_from(a, n, ip) == entries_from(b, n, ip),
    decreases n,
{
    if n > 0 {
        lemma_entries_from_prefix(a, b, (n - 1) as nat, ip);
    }
}

/// What is cleaned up. A place that is only held goes at the age of thirty-one seconds. A
/// connection goes when it is disconnected, failed or closed, and at an age above the
/// limit, unless it is connected and the server is self-hosted.
pub proof fn law_cleanup_rule(
    mode: PlatformMode,
    stale_secs: nat,
    age: nat,
    state: Option<PeerConnectionState>,
)
    ensures
        state is None ==> (is_cleaned_up(mode, stale_secs, age, state) <==> age >= 31_000_000_000),
        state == Some(PeerConnectionState::Disconnected) || state == Some(
            PeerConnectionState::Failed,
        ) || state == Some(PeerConnectionState::Closed) ==> is_cleaned_up(
            mode,
            stale_secs,
            age,
            state,
        ),
        state == Some(PeerConnectionState::Unspecified) || state == Some(PeerConnectionState::New)
            || state == Some(PeerConnectionState::Connecting) ==> (is_cleaned_up(
            mode,
            stale_secs,
            age,
            state,
        ) <==> age > stale_secs * 1_000_000_000),
        state == Some(PeerConnectionState::Connected) ==> (is_cleaned_up(
            mode,
            stale_secs,
            age,
            state,
        ) <==> mode == PlatformMode::Web && age > stale_secs * 1_000_000_000),
{
}

/// What a cleanup has kept: a place that has been held for less than thirty-one seconds,
/// or a connection that was not reported to be over and is not above the age limit,
/// except that a connected one may be on a self-hosted server, and only there.
pub proof fn law_kept<P, F: Fn(&P) -> PeerConnectionState>(
    mode: PlatformMode,
    stale_secs: nat,
    now: nat,
    observe: F,
    entry: MetadataView<P>,
)
    requires
        verdict(mode, stale_secs, now, observe, entry, false),
    ensures
        entry.peer_connection is None ==> now < entry.created_at + 31_000_000_000,
        entry.peer_connection matches Some(pc) ==> exists|state: PeerConnectionState|
            {
                &&& #[trigger] call_ensures(observe, (&pc,), state)
                &&& state != PeerConnectionState::Disconnected
                &&& state != PeerConnectionState::Failed
                &&& state != PeerConnectionState::Closed
                &&& now <= entry.created_at + stale_secs * 1_000_000_000 || (mode
                    == PlatformMode::SelfHosted && state == PeerConnectionState::Connected)
            },
{
    let age = elapsed(entry.created_at, now);
    if let Some(pc) = entry.peer_connection {
        let state = choose|state: PeerConnectionState|
            #[trigger] call_ensures(observe, (&pc,), state) && !is_cleaned_up(
                mode,
                stale_secs,
                age,
                Some(state),
            );
        law_cleanup_rule(mode, stale_secs, age, Some(state));
        assert(call_ensures(observe, (&pc,), state));
    } else {
        law_cleanup_rule(mode, stale_secs, age, None);
    }
}

/// What a cleanup has removed: a place that has been held for thirty-one seconds, or a
/// connection that was reported to be over, or one above the age limit, which on a
/// self-hosted server was not reported to be connected.
pub proof fn law_removed<P, F: Fn(&P) -> PeerConnectionState>(
    mode: PlatformMode,
    stale_secs: nat,
    now: nat,
    observe: F,
    entry: MetadataView<P>,
)
    requires
        verdict(mode, stale_secs, now, observe, entry, true),
    ensures
        entry.peer_connection is None ==> now >= entry.created_at + 31_000_000_000,
        entry.peer_connection matches Some(pc) ==> exists|state: PeerConnectionState|
            {
                &&& #[trigger] call_ensures(observe, (&pc,), state)
                &&& {
                    ||| state == PeerConnectionState::Disconnected
                    ||| state == PeerConnectionState::Failed
                    ||| state == PeerConnectionState::Closed
                    ||| now > entry.created_at + stale_secs * 1_000_000_000 && (mode
                        == PlatformMode::Web || state != PeerConnectionState::Connected)
                }
            },
{
    let age = elapsed(entry.created_at, now);
    if let Some(pc) = entry.peer_connection {
        let state = choose|state: PeerConnectionState|
            #[trigger] call_ensures(observe, (&pc,), state) && is_cleaned_up(
                mode,
                stale_secs,
                age,
                Some(state),
            );
        law_cleanup_rule(mode, stale_secs, age, Some(state));
        assert(call_ensures(observe, (&pc,), state));
    } else {
        law_cleanup_rule(mode, stale_secs, age, None);
    }
}

/// A cleanup loses nothing and makes nothing up: an entry of the whole stands in exactly
/// one of the parts, with the same contents, and what stands in a part stood in the whole.
pub proof fn law_split<P>(whole: Table<P>, a: Table<P>, b: Table<P>, id: Seq<char>)
    requires
        splits_into(whole, a, b),
    ensures
        whole.dom().contains(id) <==> a.dom().contains(id) || b.dom().contains(id),
        !(a.dom().contains(id) && b.dom().contains(id)),
        a.dom().contains(id) ==> a[id] == whole[id],
        b.dom().contains(id) ==> b[id] == whole[id],
{
}

/// Entries make up a table: each stands in it under its identifier, with its connection,
/// time, address and counter, and nothing else does.
pub proof fn law_table_of<P>(entries: Seq<Entry<P>>, id: Seq<char>)
    requires
        distinct_ids(entries),
    ensures
        table_of(entries).dom().contains(id) <==> exists|i: int|
            0 <= i < entries.len() && #[trigger] entries[i].0@ == id,
        forall|i: int| 0 <= i < entries.len() && #[trigger] entries[i].0@ == id ==> {
            let entry = table_of(entries)[id];
            &&& entry.peer_connection == entries[i].1.peer_connection
            &&& entry.created_at == entries[i].1.created_at
            &&& entry.client_ip == entries[i].1.client_ip@
            &&& entry.data_channel_count == entries[i].1.data_channel_count
        },
        forall|i: int, j: int|
            0 <= i < j < entries.len() ==> #[trigger] entries[i].0@ != #[trigger] entries[j].0@,
{
    assert forall|i: int| 0 <= i < entries.len() && #[trigger] entries[i].0@ == id implies
        table_of(entries)[id] == entries[i].1@ by {
        lemma_entry(entries, i);
    }
}

/// The connections from an address are those whose client has it.
pub proof fn law_count_from<P>(table: Table<P>, ip: Seq<char>, id: Seq<char>)
    ensures
        ids_from(table, ip).contains(id) <==> table.dom().contains(id) && table[id].client_ip == ip,
        count_from(table, ip) == table.dom().filter(
            |id: Seq<char>| table[id].client_ip == ip,
        ).len(),
{
}

} // verus!
