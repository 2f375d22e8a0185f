//! The state of the server, and the limits that it keeps.

use vstd::prelude::*;
use vstd::set_lib::lemma_len_subset;

use crate::channel::{is_fresh, ChannelCounter, SharedCounter};
use crate::config::{ConfigView, PlatformMode, ServerConfig};
use crate::connections::{count_from, distinct_ids, elapsed, ids_from, is_cleaned_up};
use crate::connections::{splits_into, table_of, verdict, MetadataView, Table};
use crate::connections::{ConnectionMetadata, Connections, Entry, PeerConnectionState};
use crate::connections::{NANOS_PER_SEC, PLACEHOLDER_AGE_SECS};
use crate::rejection::{rejection, Rejection, RejectionView, StatusCode};

verus! {

/// What the health endpoint reports.
#[derive(Debug, Clone)]
pub struct HealthResponse {
    pub status: String,
    pub total_connections: usize,
    pub max_connections: usize,
    pub uptime_seconds: u64,
}

/// A point in time that is less than 2^64 seconds after the Unix epoch, in nanoseconds.
pub open spec fn is_timestamp(t: u128) -> bool {
    t < 0x1_0000_0000_0000_0000 * NANOS_PER_SEC
}

/// The server: its connections, its settings, and when it was started.
pub struct AppState<P> {
    peer_connections: Connections<P>,
    config: ServerConfig,
    start_time: u128,
}

/// An [`AppState`] by view.
pub struct AppView<P> {
    pub peer_connections: Table<P>,
    pub config: ConfigView,
    pub start_time: nat,
}

impl<P> View for AppState<P> {
    type V = AppView<P>;

    closed spec fn view(&self) -> AppView<P> {
        AppView {
            peer_connections: self.peer_connections@,
            config: self.config@,
            start_time: self.start_time as nat,
        }
    }
}

/// The connections are no more than the limits allow: in all, and from any one address.
pub open spec fn within_limits<P>(table: Table<P>, config: ConfigView) -> bool {
    &&& table.dom().finite()
    &&& table.dom().len() <= config.max_connections
    &&& forall|ip: Seq<char>| #[trigger] count_from(table, ip) <= config.max_connections_per_ip
}

/// Why no further connection from an address is taken, if that is so.
pub open spec fn limit_reached<P>(table: Table<P>, config: ConfigView, ip: Seq<char>) -> Option<
    RejectionView,
> {
    if table.dom().len() >= config.max_connections {
        Some(rejection(StatusCode::ServiceUnavailable, "Server at capacity, try again later"@))
    } else if count_from(table, ip) >= config.max_connections_per_ip {
        Some(rejection(StatusCode::TooManyRequests, "Too many connections from your IP"@))
    } else {
        None
    }
}

/// The entry that holds a place for a connection from an address, since a point in time.
pub open spec fn placeholder<P>(
    ip: Seq<char>,
    since: nat,
    data_channel_count: SharedCounter,
) -> MetadataView<P> {
    MetadataView { peer_connection: None, created_at: since, client_ip: ip, data_channel_count }
}

/// From one table to the next, a place is held for a connection, with a counter of its own
/// on which no data channel is counted yet, and nothing else changes.
pub open spec fn holds_place<P, F: FnOnce(ChannelCounter) -> SharedCounter>(
    before: Table<P>,
    after: Table<P>,
    pc_id: Seq<char>,
    ip: Seq<char>,
    since: nat,
    share: F,
) -> bool {
    let counter = after[pc_id].data_channel_count;
    &&& is_fresh(share, counter)
    &&& after == before.insert(pc_id, placeholder(ip, since, counter))
}

impl<P> AppState<P> {
    /// The table of connections is in order, and within the limits.
    pub closed spec fn wf(self) -> bool {
        self.peer_connections.wf() && within_limits(self.peer_connections@, self.config@)
    }

    /// The limits are kept.
    pub proof fn lemma_within_limits(self)
        requires
            self.wf(),
        ensures
            within_limits(self@.peer_connections, self@.config),
    {
    }

    /// A server that has just been started.
    pub fn new(config: ServerConfig, start_time: u128) -> (state: AppState<P>)
        ensures
            state.wf(),
            state@.peer_connections == Map::<Seq<char>, MetadataView<P>>::empty(),
            state@.config == config@,
            state@.start_time == start_time,
    {
        let state: AppState<P> = AppState {
            peer_connections: Connections::new(),
            config,
            start_time,
        };
        proof {
            assert forall|ip: Seq<char>| #[trigger]
                count_from(state.peer_connections@, ip) <= state.config@.max_connections_per_ip by {
                assert(ids_from(state.peer_connections@, ip) =~= Set::empty());
            }
        }
        state
    }

    /// The settings of the server.
    pub fn config(&self) -> (config: &ServerConfig)
        ensures
            config@ == self@.config,
    {
        &self.config
    }

    /// What the health endpoint reports at the time `now`.
    pub fn health_check(&self, now: u128) -> (health: HealthResponse)
        requires
            self.wf(),
            is_timestamp(now),
        ensures
            health.status@ == "healthy"@,
            health.total_connections == self@.peer_connections.dom().len(),
            health.max_connections == self@.config.max_connections,
            health.total_connections <= health.max_connections,
            health.uptime_seconds == elapsed(self@.start_time, now as nat) / NANOS_PER_SEC as nat,
            now >= self@.start_time ==> health.uptime_seconds * 1_000_000_000 <= now
                - self@.start_time < (health.uptime_seconds + 1) * 1_000_000_000,
            now < self@.start_time ==> health.uptime_seconds == 0,
    {
        let uptime: u128 = if now >= self.start_time {
            now - self.start_time
        } else {
            0
        };
        HealthResponse {
            status: "healthy".to_owned(),
            total_connections: self.peer_connections.len(),
            max_connections: self.config.max_connections,
            uptime_seconds: (uptime / NANOS_PER_SEC) as u64,
        }
    }

    /// Holds a place for a connection from an address, unless a limit is reached. The
    /// place has a counter of its own, on which no data channel is counted yet; `share`
    /// puts it where the connection's handlers will share it.
    pub fn reserve<F: FnOnce(ChannelCounter) -> SharedCounter>(
        &mut self,
        pc_id: String,
        client_ip: &str,
        now: u128,
        share: F,
    ) -> (res: Result<(), Rejection>)
        requires
            old(self).wf(),
            forall|counter: ChannelCounter| counter@ == 0 ==> call_requires(share, (counter,)),
        ensures
            final(self).wf(),
            final(self)@.config == old(self)@.config,
            final(self)@.start_time == old(self)@.start_time,
            match limit_reached(old(self)@.peer_connections, old(self)@.config, client_ip@) {
                Some(reason) => {
                    &&& res matches Err(e) && e@ == reason
                    &&& final(self)@.peer_connections == old(self)@.peer_connections
                },
                None => {
                    &&& res is Ok
                    &&& holds_place(
                        old(self)@.peer_connections,
                        final(self)@.peer_connections,
                        pc_id@,
                        client_ip@,
                        now as nat,
                        share,
                    )
                },
            },
    {
        if self.peer_connections.len() >= self.config.max_connections {
            return Err(
                Rejection::new(
                    StatusCode::ServiceUnavailable,
                    "Server at capacity, try again later",
                ),
            );
        }
        if self.peer_connections.count_ip(client_ip) >= self.config.max_connections_per_ip {
            return Err(
                Rejection::new(StatusCode::TooManyRequests, "Too many connections from your IP"),
            );
        }
        let data_channel_count: SharedCounter = share(ChannelCounter::new());
        let entry: ConnectionMetadata<P> = ConnectionMetadata {
            peer_connection: None,
            created_at: now,
            client_ip: client_ip.to_owned(),
            data_channel_count,
        };
        proof {
            law_admitted_within_limits(
                self.peer_connections@,
                self.config@,
                pc_id@,
                entry@,
            );
        }
        self.peer_connections.insert(pc_id, entry);
        Ok(())
    }

    /// Puts a connection in the place that was held for it, and hands out the counter of
    /// its data channels; `None` where the place is gone.
    pub fn attach(&mut self, pc_id: &str, peer_connection: P) -> (res: Option<SharedCounter>)
        requires
            old(self).wf(),
        ensures
            final(self).wf(),
            final(self)@.config == old(self)@.config,
            final(self)@.start_time == old(self)@.start_time,
            old(self)@.peer_connections.dom().contains(pc_id@) ==> {
                let entry = old(self)@.peer_connections[pc_id@];
                &&& res == Some(entry.data_channel_count)
                &&& final(self)@.peer_connections == old(self)@.peer_connections.insert(
                    pc_id@,
                    (MetadataView { peer_connection: Some(peer_connection), ..entry }),
                )
            },
            !old(self)@.peer_connections.dom().contains(pc_id@) ==> {
                &&& res is None
                &&& final(self)@.peer_connections == old(self)@.peer_connections
            },
    {
        proof {
            let table = self.peer_connections@;
            if table.dom().contains(pc_id@) {
                law_attached_within_limits(table, self.config@, pc_id@, peer_connection);
            }
        }
        self.peer_connections.attach(pc_id, peer_connection)
    }

    /// Forgets a connection, and says what was known of it.
    pub fn cleanup_connection(&mut self, pc_id: &str) -> (res: Option<ConnectionMetadata<P>>)
        requires
            old(self).wf(),
        ensures
            final(self).wf(),
            final(self)@.config == old(self)@.config,
            final(self)@.start_time == old(self)@.start_time,
            final(self)@.peer_connections == old(self)@.peer_connections.remove(pc_id@),
            match res {
                Some(entry) => {
                    &&& old(self)@.peer_connections.dom().contains(pc_id@)
                    &&& old(self)@.peer_connections[pc_id@] == entry@
                },
                None => !old(self)@.peer_connections.dom().contains(pc_id@),
            },
    {
        proof {
            let table = self.peer_connections@;
            law_part_within_limits(table, table.remove(pc_id@), self.config@);
        }
        self.peer_connections.remove(pc_id)
    }

    /// Takes note of a connection's new state: one that has failed or is closed is
    /// forgotten. Tells whether it was such a state.
    pub fn on_state_change(&mut self, pc_id: &str, state: PeerConnectionState) -> (ended: bool)
        requires
            old(self).wf(),
        ensures
            final(self).wf(),
            final(self)@.config == old(self)@.config,
            final(self)@.start_time == old(self)@.start_time,
            ended == (state == PeerConnectionState::Failed || state
                == PeerConnectionState::Closed),
            final(self)@.peer_connections == if ended {
                old(self)@.peer_connections.remove(pc_id@)
            } else {
                old(self)@.peer_connections
            },
            matches!(state, PeerConnectionState::Failed | PeerConnectionState::Closed)
                ==> !final(self)@.peer_connections.dom().contains(pc_id@),
            matches!(
                state,
                PeerConnectionState::Unspecified | PeerConnectionState::New
                    | PeerConnectionState::Connecting | PeerConnectionState::Connected
                    | PeerConnectionState::Disconnected
            ) ==> final(self)@.peer_connections == old(self)@.peer_connections,
    {
        if matches!(state, PeerConnectionState::Failed | PeerConnectionState::Closed) {
            let _ = self.cleanup_connection(pc_id);
            true
        } else {
            false
        }
    }

    /// One round of the cleanup, at the time `now`: forgets every connection that is due,
    /// and hands them out to be closed. `observe` tells the state of a connection.
    pub fn periodic_cleanup<F: Fn(&P) -> PeerConnectionState>(
        &mut self,
        now: u128,
        observe: F,
    ) -> (removed: Vec<Entry<P>>)
        requires
            old(self).wf(),
            forall|pc: P| call_requires(observe, (&pc,)),
        ensures
            final(self).wf(),
            final(self)@.config == old(self)@.config,
            final(self)@.start_time == old(self)@.start_time,
            distinct_ids(removed@),
            splits_into(
                old(self)@.peer_connections,
                final(self)@.peer_connections,
                table_of(removed@),
            ),
            forall|id: Seq<char>| #[trigger]
                final(self)@.peer_connections.dom().contains(id) ==> verdict(
                    old(self)@.config.platform_mode,
                    old(self)@.config.stale_connection_age,
                    now as nat,
                    observe,
                    final(self)@.peer_connections[id],
                    false,
                ),
            forall|id: Seq<char>| #[trigger]
                table_of(removed@).dom().contains(id) ==> verdict(
                    old(self)@.config.platform_mode,
                    old(self)@.config.stale_connection_age,
                    now as nat,
                    observe,
                    table_of(removed@)[id],
                    true,
                ),
            forall|id: Seq<char>|
                #![trigger final(self)@.peer_connections.dom().contains(id)]
                final(self)@.peer_connections.dom().contains(id) ==> {
                    let kept = final(self)@.peer_connections[id];
                    &&& kept.peer_connection is None ==> now < kept.created_at + 31_000_000_000
                    &&& kept.peer_connection is Some && old(self)@.config.platform_mode == PlatformMode::Web ==> now
                        <= kept.created_at + old(self)@.config.stale_connection_age * 1_000_000_000
                },
            forall|id: Seq<char>|
                #![trigger table_of(removed@).dom().contains(id)]
                table_of(removed@).dom().contains(id) ==> {
                    let gone = table_of(removed@)[id];
                    &&& gone.peer_connection is None ==> now >= gone.created_at + 31_000_000_000
                    &&& gone.peer_connection is Some && old(self)@.config.platform_mode == PlatformMode::SelfHosted ==> exists|
                        state: PeerConnectionState|
                        #[trigger] call_ensures(observe, (&gone.peer_connection->0,), state)
                            && state != PeerConnectionState::Connected
                },
    {
        let mode: PlatformMode = self.config.platform_mode;
        let stale_secs: u64 = self.config.stale_connection_age;
        let removed: Vec<Entry<P>> = self.peer_connections.sweep(mode, stale_secs, now, observe);
        proof {
            law_part_within_limits(
                old(self).peer_connections@,
                self.peer_connections@,
                self.config@,
            );
        }
        removed
    }
}

/// A connection that is taken because no limit is reached leaves the limits kept.
pub proof fn law_admitted_within_limits<P>(
    table: Table<P>,
    config: ConfigView,
    id: Seq<char>,
    entry: MetadataView<P>,
)
    requires
        within_limits(table, config),
        limit_reached(table, config, entry.client_ip) is None,
    ensures
        within_limits(table.insert(id, entry), config),
{
    let grown = table.insert(id, entry);
    assert forall|ip: Seq<char>| #[trigger]
        count_from(grown, ip) <= config.max_connections_per_ip by {
        let before = ids_from(table, ip);
        assert(count_from(table, ip) <= config.max_connections_per_ip);
        assert(before.finite());
        if ip == entry.client_ip {
            lemma_len_subset(ids_from(grown, ip), before.insert(id));
        } else {
            lemma_len_subset(ids_from(grown, ip), before);
        }
    }
}

/// A connection that takes the place held for it leaves the limits kept.
pub proof fn law_attached_within_limits<P>(
    table: Table<P>,
    config: ConfigView,
    id: Seq<char>,
    peer_connection: P,
)
    requires
        within_limits(table, config),
        table.dom().contains(id),
    ensures
        within_limits(
            table.insert(
                id,
                (MetadataView { peer_connection: Some(peer_connection), ..table[id] }),
            ),
            config,
        ),
{
    let changed = table.insert(
        id,
        MetadataView { peer_connection: Some(peer_connection), ..table[id] },
    );
    assert(changed.dom() =~= table.dom());
    assert forall|ip: Seq<char>| #[trigger]
        count_from(changed, ip) <= config.max_connections_per_ip by {
        assert(ids_from(changed, ip) =~= ids_from(table, ip));
        assert(count_from(table, ip) <= config.max_connections_per_ip);
    }
}

/// Whatever connections are forgotten, the limits stay kept.
pub proof fn law_part_within_limits<P>(whole: Table<P>, part: Table<P>, config: ConfigView)
    requires
        within_limits(whole, config),
        part.submap_of(whole),
    ensures
        within_limits(part, config),
{
    lemma_len_subset(part.dom(), whole.dom());
    assert forall|ip: Seq<char>| #[trigger]
        count_from(part, ip) <= config.max_connections_per_ip by {
        assert(count_from(whole, ip) <= config.max_connections_per_ip);
        assert(ids_from(whole, ip).finite());
        assert(ids_from(part, ip).subset_of(ids_from(whole, ip)));
        lemma_len_subset(ids_from(part, ip), ids_from(whole, ip));
    }
}

/// To hold a place under a new identifier and to forget it again changes nothing.
pub proof fn law_cleanup_undoes_reserve<P>(
    table: Table<P>,
    id: Seq<char>,
    entry: MetadataView<P>,
)
    requires
        !table.dom().contains(id),
    ensures
        table.insert(id, entry).remove(id) == table,
{
    assert(table.insert(id, entry).remove(id) =~= table);
}

/// When a connection is forgotten, its client may have another.
pub proof fn law_cleanup_makes_room<P>(table: Table<P>, config: ConfigView, id: Seq<char>)
    requires
        within_limits(table, config),
        table.dom().contains(id),
    ensures
        limit_reached(table.remove(id), config, table[id].client_ip) is None,
{
    let ip = table[id].client_ip;
    assert(count_from(table, ip) <= config.max_connections_per_ip);
    assert(ids_from(table, ip).finite());
    assert(ids_from(table, ip).contains(id));
    assert(ids_from(table.remove(id), ip) =~= ids_from(table, ip).remove(id));
}

/// A place that has been held for thirty-one seconds is cleaned up, whatever the server
/// is for.
pub proof fn law_abandoned_place_is_freed(mode: PlatformMode, stale_secs: nat, age: nat)
    requires
        age >= (PLACEHOLDER_AGE_SECS + 1) * NANOS_PER_SEC,
    ensures
        is_cleaned_up(mode, stale_secs, age, None),
{
}

/// On a self-hosted server a connected test is never cleaned up, however long it runs.
pub proof fn law_self_hosted_test_may_last(stale_secs: nat, age: nat)
    ensures
        !is_cleaned_up(
            PlatformMode::SelfHosted,
            stale_secs,
            age,
            Some(PeerConnectionState::Connected),
        ),
{
}

/// On a public server a connection is cleaned up once it is too old, whatever its state.
pub proof fn law_public_test_ends(stale_secs: nat, age: nat, state: PeerConnectionState)
    requires
        age > stale_secs * NANOS_PER_SEC as nat,
    ensures
        is_cleaned_up(PlatformMode::Web, stale_secs, age, Some(state)),
{
}

/// What is due to be cleaned up stays due as it grows older.
pub proof fn law_cleanup_is_monotone(
    mode: PlatformMode,
    stale_secs: nat,
    age: nat,
    later_age: nat,
    state: Option<PeerConnectionState>,
)
    requires
        age <= later_age,
        is_cleaned_up(mode, stale_secs, age, state),
    ensures
        is_cleaned_up(mode, stale_secs, later_age, state),
{
    assert(age / NANOS_PER_SEC as nat <= later_age / NANOS_PER_SEC as nat) by {
        vstd::arithmetic::div_mod::lemma_div_is_ordered(
            age as int,
            later_age as int,
            NANOS_PER_SEC as int,
        );
    }
}

/// What a cleanup has kept, a second one at the same time keeps too, as long as
/// connections do not change their state.
pub proof fn law_second_cleanup_removes_nothing<P, F: Fn(&P) -> PeerConnectionState>(
    mode: PlatformMode,
    stale_secs: nat,
    now: nat,
    observe: F,
    entry: MetadataView<P>,
)
    requires
        forall|pc: P, s1: PeerConnectionState, s2: PeerConnectionState|
            #[trigger] call_ensures(observe, (&pc,), s1) && #[trigger] call_ensures(
                observe,
                (&pc,),
                s2,
            ) ==> s1 == s2,
        verdict(mode, stale_secs, now, observe, entry, false),
    ensures
        !verdict(mode, stale_secs, now, observe, entry, true),
{
}

/// A public server cleans up whatever a self-hosted one does.
pub proof fn law_public_is_stricter(
    stale_secs: nat,
    age: nat,
    state: Option<PeerConnectionState>,
)
    requires
        is_cleaned_up(PlatformMode::SelfHosted, stale_secs, age, state),
    ensures
        is_cleaned_up(PlatformMode::Web, stale_secs, age, state),
{
}

/// A further connection is taken exactly where fewer connections are held than the limits
/// say, in all and from its address. Where the server is full that is what the client is
/// told; otherwise it is told that it has too many.
pub proof fn law_limits<P>(table: Table<P>, config: ConfigView, ip: Seq<char>)
    ensures
        ({
            let total = table.dom().len();
            let own = table.dom().filter(|id: Seq<char>| table[id].client_ip == ip).len();
            &&& total < config.max_connections && own < config.max_connections_per_ip
                <==> limit_reached(table, config, ip) is None
            &&& total >= config.max_connections ==> {
                &&& limit_reached(table, config, ip) matches Some(r) && r.status
                    == StatusCode::ServiceUnavailable && r.message
                    == "Server at capacity, try again later"@
            }
            &&& total < config.max_connections && own >= config.max_connections_per_ip ==> {
                &&& limit_reached(table, config, ip) matches Some(r) && r.status
                    == StatusCode::TooManyRequests && r.message
                    == "Too many connections from your IP"@
            }
        }),
{
}

/// A table within the limits holds no more connections than they say, in all and from any
/// one address.
pub proof fn law_within_limits<P>(table: Table<P>, config: ConfigView, ip: Seq<char>)
    requires
        within_limits(table, config),
    ensures
        table.dom().finite(),
        table.dom().len() <= config.max_connections,
        table.dom().filter(|id: Seq<char>| table[id].client_ip == ip).len()
            <= config.max_connections_per_ip,
{
    assert(count_from(table, ip) <= config.max_connections_per_ip);
}

/// A place that is held stands in the table under its identifier, without a connection
/// yet, for its client and since its time, with a counter of its own; nothing else
/// changes.
pub proof fn law_place<P, F: FnOnce(ChannelCounter) -> SharedCounter>(
    before: Table<P>,
    after: Table<P>,
    pc_id: Seq<char>,
    ip: Seq<char>,
    since: nat,
    share: F,
    other: Seq<char>,
)
    requires
        holds_place(before, after, pc_id, ip, since, share),
    ensures
        after.dom().contains(pc_id),
        after[pc_id].peer_connection is None,
        after[pc_id].created_at == since,
        after[pc_id].client_ip == ip,
        exists|counter: ChannelCounter| counter@ == 0 && #[trigger] call_ensures(
            share,
            (counter,),
            after[pc_id].data_channel_count,
        ),
        other != pc_id ==> (after.dom().contains(other) <==> before.dom().contains(other)),
        other != pc_id && before.dom().contains(other) ==> after[other] == before[other],
{
}

/// Time passes forward only: from a later moment to an earlier one none has passed. Every
/// moment less than 2^64 seconds after the epoch can be told.
pub proof fn law_time(from: nat, to: nat, t: u128)
    ensures
        from <= to ==> from + elapsed(from, to) == to,
        from > to ==> elapsed(from, to) == 0,
        is_timestamp(t) <==> t < 18_446_744_073_709_551_616 * 1_000_000_000,
{
}

} // verus!
