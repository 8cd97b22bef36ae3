use vstd::prelude::*;
use crate::backoff::{next_delay, Backoff, BackoffConfig};

verus! {

/// How many connections a pool keeps to its node.
#[derive(Debug, Clone, Copy, PartialEq, Eq, Structural)]
pub enum PoolSize {
    /// One connection per shard that the node reports.
    PerShard,
    /// A fixed, nonzero number of connections, whatever the node's shard count.
    PerHost(usize),
}

impl PoolSize {
    pub open spec fn wf(self) -> bool {
        self matches PoolSize::PerHost(n) ==> n >= 1
    }
}

/// The configuration of one node's pool; it does not change after construction.
#[derive(Debug, Clone, Copy, PartialEq, Eq, Structural)]
pub struct PoolConfig {
    pub pool_size: PoolSize,
    pub backoff: BackoffConfig,
}

impl PoolConfig {
    pub open spec fn wf(self) -> bool {
        self.pool_size.wf() && self.backoff.wf()
    }
}

/// What a shard-aware node reported for a connection during startup
/// negotiation: the shard that serves it, and the node's shard count.
#[derive(Debug, Clone, Copy, PartialEq, Eq, Structural)]
pub struct ShardInfo {
    pub shard: u16,
    pub nr_shards: u16,
}

impl ShardInfo {
    pub open spec fn wf(self) -> bool {
        self.shard < self.nr_shards
    }
}

/// One live connection held by a pool slot: the handle by which the owner of
/// the transport knows it, and the shard it is bound to, if the node is shard-aware.
#[derive(Debug, Clone, Copy, PartialEq, Eq, Structural)]
pub struct Connection {
    pub handle: u64,
    pub shard_info: Option<ShardInfo>,
}

/// One position of a pool's slot table.
#[derive(Debug, Clone, Copy, PartialEq, Eq, Structural)]
pub struct Slot {
    /// The connection, absent while it is being (re)opened.
    pub connection: Option<Connection>,
    /// The delay before the next reconnection attempt.
    pub backoff: Backoff,
    /// When a connection was last installed in this slot.
    pub last_good_ms: Option<u64>,
}

/// The slot of a pool that has not connected yet.
pub open spec fn empty_slot(cfg: PoolConfig) -> Slot {
    Slot { connection: None, backoff: Backoff { delay_ms: cfg.backoff.min_delay_ms }, last_good_ms: None }
}

/// The slot holding a connection that was just installed.
pub open spec fn filled_slot(cfg: PoolConfig, c: Connection, now_ms: u64) -> Slot {
    Slot {
        connection: Some(c),
        backoff: Backoff { delay_ms: cfg.backoff.min_delay_ms },
        last_good_ms: Some(now_ms),
    }
}

/// The pool's state as a mathematical value.
pub struct PoolView {
    pub config: PoolConfig,
    /// The node's shard count, once a connection of a per-shard pool reported it.
    pub shard_count: Option<u16>,
    pub slots: Seq<Slot>,
    pub closed: bool,
}

/// The live connections of `slots`, in slot order.
pub open spec fn live_connections(slots: Seq<Slot>) -> Seq<Connection>
    decreases slots.len(),
{
    if slots.len() == 0 {
        Seq::empty()
    } else {
        let rest = live_connections(slots.drop_last());
        match slots.last().connection {
            Some(c) => rest.push(c),
            None => rest,
        }
    }
}

/// The slot holds a connection bound to shard `h`.
pub open spec fn bound_to(s: Slot, h: u16) -> bool {
    s.connection matches Some(c) && c.shard_info matches Some(si) && si.shard == h
}

impl PoolView {
    /// The pool invariant: a per-shard pool has one provisional slot until the
    /// node's shard count is known and then exactly that many, slot `i` bound
    /// to shard `i`; a fixed-size pool has its fixed count; a closed pool holds
    /// no connection.
    pub open spec fn wf(self) -> bool {
        &&& self.config.wf()
        &&& forall|i: int| 0 <= i < self.slots.len() ==> (#[trigger] self.slots[i]).backoff.wf(self.config.backoff)
        &&& match self.config.pool_size {
            PoolSize::PerShard => match self.shard_count {
                None => self.slots.len() == 1,
                Some(k) => {
                    &&& k >= 1
                    &&& self.slots.len() == k
                    &&& forall|i: int| 0 <= i < self.slots.len() && (#[trigger] self.slots[i]).connection is Some
                        ==> self.slots[i].connection->0.shard_info == Some(ShardInfo { shard: i as u16, nr_shards: k })
                },
            },
            PoolSize::PerHost(n) => self.slots.len() == n && self.shard_count is None,
        }
        &&& self.closed ==> forall|i: int| 0 <= i < self.slots.len() ==> (#[trigger] self.slots[i]).connection is None
    }

    /// The slot count of a per-shard pool is one while the shard count is
    /// unknown, and the shard count once it is known.
    pub open spec fn slot_count_matches(self) -> bool {
        self.config.pool_size == PoolSize::PerShard ==> match self.shard_count {
            None => self.slots.len() == 1,
            Some(k) => self.slots.len() == k,
        }
    }

    /// `next` can follow `self`: the configuration stays, a known shard count
    /// stays, and the slot table never shrinks.
    pub open spec fn evolves_to(self, next: PoolView) -> bool {
        &&& next.config == self.config
        &&& self.shard_count is Some ==> next.shard_count == self.shard_count
        &&& self.slots.len() <= next.slots.len()
        &&& self.closed ==> next.closed
    }

    /// Slot `slot` holds the connection known by `handle`.
    pub open spec fn holds(self, slot: int, handle: u64) -> bool {
        &&& 0 <= slot < self.slots.len()
        &&& self.slots[slot].connection is Some
        &&& self.slots[slot].connection->0.handle == handle
    }

    /// The slot that a connection opened for `slot`, with what the node
    /// negotiated, is installed in; `None` when it is not wanted.
    pub open spec fn install_target(self, slot: int, shard_info: Option<ShardInfo>) -> Option<int> {
        if self.closed {
            None
        } else {
            match self.config.pool_size {
                PoolSize::PerHost(_) => {
                    if 0 <= slot < self.slots.len() && self.slots[slot].connection is None {
                        Some(slot)
                    } else {
                        None
                    }
                },
                PoolSize::PerShard => match (self.shard_count, shard_info) {
                    (None, None) => if self.slots[0].connection is None { Some(0) } else { None },
                    (None, Some(si)) => {
                        if si.wf() && self.slots[0].connection is None {
                            Some(si.shard as int)
                        } else {
                            None
                        }
                    },
                    (Some(k), Some(si)) => {
                        if si.nr_shards == k && si.shard < k && self.slots[si.shard as int].connection is None {
                            Some(si.shard as int)
                        } else {
                            None
                        }
                    },
                    (Some(_), None) => None,
                },
            }
        }
    }

    /// The pool after installing connection `c`, opened for `slot`, at time `now_ms`.
    pub open spec fn after_install(self, slot: int, c: Connection, now_ms: u64) -> PoolView {
        match self.install_target(slot, c.shard_info) {
            None => self,
            Some(t) => {
                if self.config.pool_size == PoolSize::PerShard && self.shard_count is None
                    && c.shard_info is Some {
                    let k = c.shard_info->0.nr_shards;
                    PoolView {
                        shard_count: Some(k),
                        slots: Seq::new(
                            k as nat,
                            |i: int|
                                if i == t {
                                    filled_slot(self.config, c, now_ms)
                                } else {
                                    empty_slot(self.config)
                                },
                        ),
                        ..self
                    }
                } else {
                    PoolView { slots: self.slots.update(t, filled_slot(self.config, c, now_ms)), ..self }
                }
            },
        }
    }
}

/// The connection picked for a request.
#[derive(Debug, Clone, Copy, PartialEq, Eq, Structural)]
pub struct Routed {
    pub slot: usize,
    pub connection: Connection,
    /// Whether the connection is bound to the requested shard; when it is not,
    /// routing was approximate.
    pub shard_local: bool,
}

/// Why no connection could be handed out.
#[derive(Debug, Clone, Copy, PartialEq, Eq, Structural)]
pub enum PoolError {
    /// The pool is being closed.
    ConnectionClosing,
    /// No slot holds a connection.
    NoConnections,
}

/// The pool's health: slots holding a connection, out of all slots.
#[derive(Debug, Clone, Copy, PartialEq, Eq, Structural)]
pub struct PoolHealth {
    pub healthy: usize,
    pub total: usize,
}

/// The connection pool of one node: a table of slots, each holding at most one
/// connection, indexed by shard once the node's shard count is known.
///
/// The maintenance task is its only writer: it installs the connections it
/// opened, reports those that broke and the attempts that failed, and waits
/// the delays handed back. The request path only reads.
pub struct NodeConnectionPool {
    config: PoolConfig,
    shard_count: Option<u16>,
    slots: Vec<Slot>,
    closed: bool,
}

impl View for NodeConnectionPool {
    type V = PoolView;

    closed spec fn view(&self) -> PoolView {
        PoolView {
            config: self.config,
            shard_count: self.shard_count,
            slots: self.slots@,
            closed: self.closed,
        }
    }
}

fn new_empty_slot(cfg: PoolConfig) -> (r: Slot)
    ensures
        r == empty_slot(cfg),
{
    Slot { connection: None, backoff: Backoff::new(cfg.backoff), last_good_ms: None }
}

fn new_filled_slot(cfg: PoolConfig, c: Connection, now_ms: u64) -> (r: Slot)
    ensures
        r == filled_slot(cfg, c, now_ms),
{
    Slot { connection: Some(c), backoff: Backoff::new(cfg.backoff), last_good_ms: Some(now_ms) }
}

impl NodeConnectionPool {
    /// A pool with no connection yet: one provisional slot for a per-shard
    /// pool, the fixed count of slots otherwise.
    pub fn new(config: PoolConfig) -> (r: NodeConnectionPool)
        requires
            config.wf(),
        ensures
            r@.wf(),
            r@.config == config,
            r@.shard_count is None,
            !r@.closed,
            r@.slots.len() == match config.pool_size {
                PoolSize::PerShard => 1,
                PoolSize::PerHost(n) => n,
            },
            forall|i: int| 0 <= i < r@.slots.len() ==> #[trigger] r@.slots[i] == empty_slot(config),
    {
        let n: usize = match config.pool_size {
            PoolSize::PerShard => 1,
            PoolSize::PerHost(n) => n,
        };
        let mut slots: Vec<Slot> = Vec::new();
        let mut i: usize = 0;
        while i < n
            invariant
                i <= n,
                slots@.len() == i,
                forall|j: int| 0 <= j < i ==> #[trigger] slots@[j] == empty_slot(config),
            decreases n - i,
        {
            slots.push(new_empty_slot(config));
            i = i + 1;
        }
        NodeConnectionPool { config, shard_count: None, slots, closed: false }
    }

    /// Installs connection `handle`, opened for `slot`, with what the node
    /// negotiated for it, at time `now_ms`. A per-shard pool puts it in the
    /// slot of its shard, and on the first shard-aware connection grows its
    /// table to the node's shard count. Returns the slot it went to, or `None`
    /// when it is not wanted there (the caller then closes it). The slot's
    /// backoff goes back to the minimum.
    pub fn install(&mut self, slot: usize, handle: u64, shard_info: Option<ShardInfo>, now_ms: u64) -> (r: Option<usize>)
        requires
            old(self)@.wf(),
        ensures
            final(self)@.wf(),
            r == (match old(self)@.install_target(slot as int, shard_info) {
                Some(t) => Some(t as usize),
                None => None::<usize>,
            }),
            final(self)@ == old(self)@.after_install(
                slot as int,
                Connection { handle, shard_info },
                now_ms,
            ),
            old(self)@.evolves_to(final(self)@),
    {
        let c = Connection { handle, shard_info };
        if self.closed {
            return None;
        }
        match self.config.pool_size {
            PoolSize::PerHost(_) => {
                if slot < self.slots.len() && self.slots[slot].connection.is_none() {
                    self.slots.set(slot, new_filled_slot(self.config, c, now_ms));
                    Some(slot)
                } else {
                    None
                }
            },
            PoolSize::PerShard => match (self.shard_count, shard_info) {
                (None, None) => {
                    if self.slots[0].connection.is_none() {
                        self.slots.set(0, new_filled_slot(self.config, c, now_ms));
                        Some(0)
                    } else {
                        None
                    }
                },
                (None, Some(si)) => {
                    if si.shard < si.nr_shards && self.slots[0].connection.is_none() {
                        self.resize_with(si, c, now_ms);
                        Some(si.shard as usize)
                    } else {
                        None
                    }
                },
                (Some(k), Some(si)) => {
                    if si.nr_shards == k && si.shard < k && self.slots[si.shard as usize].connection.is_none() {
                        self.slots.set(si.shard as usize, new_filled_slot(self.config, c, now_ms));
                        Some(si.shard as usize)
                    } else {
                        None
                    }
                },
                (Some(_), None) => None,
            },
        }
    }

    /// Grows the provisional table to the node's shard count, with `c` in
    /// the slot of its shard.
    fn resize_with(&mut self, si: ShardInfo, c: Connection, now_ms: u64)
        requires
            old(self)@.wf(),
            !old(self)@.closed,
            old(self)@.config.pool_size == PoolSize::PerShard,
            old(self)@.shard_count is None,
            si.wf(),
            c.shard_info == Some(si),
        ensures
            final(self)@ == (PoolView {
                shard_count: Some(si.nr_shards),
                slots: Seq::new(
                    si.nr_shards as nat,
                    |i: int|
                        if i == si.shard as int {
                            filled_slot(old(self)@.config, c, now_ms)
                        } else {
                            empty_slot(old(self)@.config)
                        },
                ),
                ..old(self)@
            }),
    {
        let k = si.nr_shards as usize;
        let t = si.shard as usize;
        let mut slots: Vec<Slot> = Vec::new();
        let mut i: usize = 0;
        while i < k
            invariant
                i <= k,
                k == si.nr_shards,
                t == si.shard,
                slots@.len() == i,
                forall|j: int|
                    0 <= j < i ==> #[trigger] slots@[j] == if j == t as int {
                        filled_slot(self.config, c, now_ms)
                    } else {
                        empty_slot(self.config)
                    },
            decreases k - i,
        {
            if i == t {
                slots.push(new_filled_slot(self.config, c, now_ms));
            } else {
                slots.push(new_empty_slot(self.config));
            }
            i = i + 1;
        }
        self.slots = slots;
        self.shard_count = Some(si.nr_shards);
        proof {
            assert(self@.slots =~= Seq::new(
                si.nr_shards as nat,
                |i: int|
                    if i == si.shard as int {
                        filled_slot(self.config, c, now_ms)
                    } else {
                        empty_slot(self.config)
                    },
            ));
        }
    }

    /// The maintenance task saw connection `handle` of `slot` break: the slot
    /// is emptied, and the delay before its reconnection is returned, the
    /// slot's backoff lengthening for the attempt after. `None`, and nothing
    /// changed, when the slot no longer holds that connection. No other slot changes.
    pub fn connection_broken(&mut self, slot: usize, handle: u64) -> (r: Option<u64>)
        requires
            old(self)@.wf(),
        ensures
            final(self)@.wf(),
            old(self)@.evolves_to(final(self)@),
            final(self)@.shard_count == old(self)@.shard_count,
            final(self)@.closed == old(self)@.closed,
            final(self)@.slots.len() == old(self)@.slots.len(),
            forall|j: int| 0 <= j < old(self)@.slots.len() && j != slot ==> #[trigger] final(self)@.slots[j] == old(self)@.slots[j],
            old(self)@.holds(slot as int, handle) ==> {
                &&& r == Some(old(self)@.slots[slot as int].backoff.delay_ms)
                &&& final(self)@.slots[slot as int] == (Slot {
                    connection: None,
                    backoff: Backoff { delay_ms: next_delay(old(self)@.config.backoff, old(self)@.slots[slot as int].backoff.delay_ms) },
                    ..old(self)@.slots[slot as int]
                })
            },
            !old(self)@.holds(slot as int, handle) ==> {
                &&& r is None
                &&& final(self)@ == old(self)@
            },
    {
        if slot < self.slots.len() {
            let mut s = self.slots[slot];
            if let Some(c) = s.connection {
                if c.handle == handle {
                    s.connection = None;
                    let d = s.backoff.next(self.config.backoff);
                    self.slots.set(slot, s);
                    return Some(d);
                }
            }
        }
        None
    }

    /// An attempt to reopen the connection of empty `slot` failed: returns the
    /// delay before the next attempt, and lengthens the one after it.
    pub fn reconnect_failed(&mut self, slot: usize) -> (r: u64)
        requires
            old(self)@.wf(),
            slot < old(self)@.slots.len(),
        ensures
            final(self)@.wf(),
            old(self)@.evolves_to(final(self)@),
            r == old(self)@.slots[slot as int].backoff.delay_ms,
            final(self)@ == (PoolView {
                slots: old(self)@.slots.update(slot as int, Slot {
                    backoff: Backoff { delay_ms: next_delay(old(self)@.config.backoff, r) },
                    ..old(self)@.slots[slot as int]
                }),
                ..old(self)@
            }),
    {
        let mut s = self.slots[slot];
        let d = s.backoff.next(self.config.backoff);
        self.slots.set(slot, s);
        d
    }

    /// Healthy slots out of all slots.
    pub fn health(&self) -> (r: PoolHealth)
        requires
            self@.wf(),
        ensures
            r.healthy == live_connections(self@.slots).len(),
            r.total == self@.slots.len(),
    {
        let mut healthy: usize = 0;
        let mut i: usize = 0;
        while i < self.slots.len()
            invariant
                i <= self@.slots.len(),
                healthy == live_connections(self@.slots.subrange(0, i as int)).len(),
                healthy <= i,
            decreases self@.slots.len() - i,
        {
            proof {
                assert(self@.slots.subrange(0, i + 1).drop_last() =~= self@.slots.subrange(0, i as int));
            }
            if self.slots[i].connection.is_some() {
                healthy = healthy + 1;
            }
            i = i + 1;
        }
        proof {
            assert(self@.slots.subrange(0, self@.slots.len() as int) =~= self@.slots);
        }
        PoolHealth { healthy, total: self.slots.len() }
    }

    /// Closes the pool: every slot is emptied, and the connections it held are
    /// returned, in slot order, for their transports to be terminated. Later
    /// requests get `ConnectionClosing`.
    pub fn close(&mut self) -> (r: Vec<Connection>)
        requires
            old(self)@.wf(),
        ensures
            final(self)@.wf(),
            old(self)@.evolves_to(final(self)@),
            r@ == live_connections(old(self)@.slots),
            final(self)@.closed,
            final(self)@.shard_count == old(self)@.shard_count,
            final(self)@.slots.len() == old(self)@.slots.len(),
            forall|j: int| 0 <= j < final(self)@.slots.len() ==> #[trigger] final(self)@.slots[j] == (Slot {
                connection: None,
                ..old(self)@.slots[j]
            }),
    {
        let ghost old_slots = self@.slots;
        let mut out: Vec<Connection> = Vec::new();
        let mut i: usize = 0;
        while i < self.slots.len()
            invariant
                i <= self@.slots.len(),
                self@.slots.len() == old_slots.len(),
                self.config == old(self).config,
                self.shard_count == old(self).shard_count,
                self.closed == old(self).closed,
                out@ == live_connections(old_slots.subrange(0, i as int)),
                forall|j: int| 0 <= j < i ==> #[trigger] self@.slots[j] == (Slot { connection: None, ..old_slots[j] }),
                forall|j: int| i <= j < self@.slots.len() ==> #[trigger] self@.slots[j] == old_slots[j],
            decreases self@.slots.len() - i,
        {
            proof {
                assert(old_slots.subrange(0, i + 1).drop_last() =~= old_slots.subrange(0, i as int));
            }
            let mut s = self.slots[i];
            if let Some(c) = s.connection {
                out.push(c);
                s.connection = None;
                self.slots.set(i, s);
            }
            i = i + 1;
        }
        self.closed = true;
        proof {
            assert(old_slots.subrange(0, old_slots.len() as int) =~= old_slots);
        }
        out
    }

    /// The empty slots, in order: the maintenance task's work list. A closed
    /// pool has none to fill.
    pub fn slots_to_fill(&self) -> (r: Vec<usize>)
        requires
            self@.wf(),
        ensures
            self@.closed ==> r@.len() == 0,
            !self@.closed ==> r@ == empty_slot_indices(self@.slots),
    {
        let mut out: Vec<usize> = Vec::new();
        if self.closed {
            return out;
        }
        let mut i: usize = 0;
        while i < self.slots.len()
            invariant
                i <= self@.slots.len(),
                out@ == empty_slot_indices(self@.slots.subrange(0, i as int)),
            decreases self@.slots.len() - i,
        {
            proof {
                assert(self@.slots.subrange(0, i + 1).drop_last() =~= self@.slots.subrange(0, i as int));
            }
            if self.slots[i].connection.is_none() {
                out.push(i);
            }
            i = i + 1;
        }
        proof {
            assert(self@.slots.subrange(0, self@.slots.len() as int) =~= self@.slots);
        }
        out
    }

    /// The node's shard count, once a per-shard pool learned it.
    pub fn shard_count(&self) -> (r: Option<u16>)
        ensures
            r == self@.shard_count,
    {
        self.shard_count
    }

    /// The number of slots.
    pub fn slot_count(&self) -> (r: usize)
        ensures
            r == self@.slots.len(),
    {
        self.slots.len()
    }

    /// The slot at `i`.
    pub fn slot(&self, i: usize) -> (r: Slot)
        requires
            i < self@.slots.len(),
        ensures
            r == self@.slots[i as int],
    {
        self.slots[i]
    }

    /// Whether the pool was closed.
    pub fn is_closed(&self) -> (r: bool)
        ensures
            r == self@.closed,
    {
        self.closed
    }

    /// The configuration the pool was built with.
    pub fn config(&self) -> (r: PoolConfig)
        ensures
            r == self@.config,
    {
        self.config
    }

    /// A connection for a request, without waiting on the maintenance task.
    /// With a shard hint, the first slot whose connection is bound to that
    /// shard; otherwise, or when no slot is, the first slot holding a
    /// connection, and the routing is marked approximate.
    pub fn get_connection(&self, shard_hint: Option<u16>) -> (r: Result<Routed, PoolError>)
        requires
            self@.wf(),
        ensures
            self@.closed ==> r == Err::<Routed, PoolError>(PoolError::ConnectionClosing),
            !self@.closed && live_connections(self@.slots).len() == 0 ==> r == Err::<Routed, PoolError>(
                PoolError::NoConnections,
            ),
            !self@.closed && live_connections(self@.slots).len() > 0 ==> r is Ok,
            r matches Ok(rt) ==> {
                &&& rt.slot < self@.slots.len()
                &&& self@.slots[rt.slot as int].connection == Some(rt.connection)
                &&& rt.shard_local == (shard_hint matches Some(h) && bound_to(self@.slots[rt.slot as int], h))
            },
            r matches Ok(rt) ==> (rt.shard_local ==> forall|j: int| 0 <= j < rt.slot ==> !bound_to(#[trigger] self@.slots[j], shard_hint->0)),
            r matches Ok(rt) ==> (!rt.shard_local ==> forall|j: int| 0 <= j < rt.slot ==> (#[trigger] self@.slots[j]).connection is None),
            r matches Ok(rt) ==> (!rt.shard_local && shard_hint is Some ==> forall|j: int| 0 <= j < self@.slots.len() ==> !bound_to(#[trigger] self@.slots[j], shard_hint->0)),
    {
        if self.closed {
            return Err(PoolError::ConnectionClosing);
        }
        if let Some(h) = shard_hint {
            let mut i: usize = 0;
            while i < self.slots.len()
                invariant
                    self@.wf(),
                    shard_hint == Some(h),
                    i <= self@.slots.len(),
                    forall|j: int| 0 <= j < i ==> !bound_to(#[trigger] self@.slots[j], h),
                decreases self@.slots.len() - i,
            {
                if let Some(c) = self.slots[i].connection {
                    if let Some(si) = c.shard_info {
                        if si.shard == h {
                            assert(self@.slots[i as int].connection is Some);
                            assert(bound_to(self@.slots[i as int], h));
                            proof {
                                lemma_live_connections_nonempty(self@.slots);
                            }
                            return Ok(Routed { slot: i, connection: c, shard_local: true });
                        }
                    }
                }
                i = i + 1;
            }
        }
        let mut i: usize = 0;
        while i < self.slots.len()
            invariant
                self@.wf(),
                i <= self@.slots.len(),
                forall|j: int| 0 <= j < i ==> (#[trigger] self@.slots[j]).connection is None,
                shard_hint matches Some(h) ==> forall|j: int| 0 <= j < self@.slots.len() ==> !bound_to(#[trigger] self@.slots[j], h),
            decreases self@.slots.len() - i,
        {
            if let Some(c) = self.slots[i].connection {
                assert(self@.slots[i as int].connection is Some);
                proof {
                    lemma_live_connections_nonempty(self@.slots);
                }
                return Ok(Routed { slot: i, connection: c, shard_local: false });
            }
            i = i + 1;
        }
        proof {
            lemma_live_connections_nonempty(self@.slots);
        }
        Err(PoolError::NoConnections)
    }
}

/// The indices of the empty slots of `slots`, in order.
pub open spec fn empty_slot_indices(slots: Seq<Slot>) -> Seq<usize>
    decreases slots.len(),
{
    if slots.len() == 0 {
        Seq::empty()
    } else {
        let rest = empty_slot_indices(slots.drop_last());
        if slots.last().connection is None {
            rest.push((slots.len() - 1) as usize)
        } else {
            rest
        }
    }
}

/// In every well-formed state, a per-shard pool has one slot while the
/// node's shard count is unknown, and exactly the shard count once known.
pub proof fn lemma_slot_count(v: PoolView)
    requires
        v.wf(),
    ensures
        v.slot_count_matches(),
        v.shard_count matches Some(k) ==> k >= 1,
{
}

/// Successive states keep what each step keeps: a known shard count never
/// changes and the slot table never shrinks, over any run of the pool.
pub proof fn lemma_evolves_transitive(a: PoolView, b: PoolView, c: PoolView)
    requires
        a.evolves_to(b),
        b.evolves_to(c),
    ensures
        a.evolves_to(c),
{
}

/// A connection installed in a slot leaves that slot's backoff at the minimum.
pub proof fn lemma_install_resets_backoff(v: PoolView, slot: int, c: Connection, now_ms: u64)
    requires
        v.wf(),
        v.install_target(slot, c.shard_info) is Some,
    ensures
        v.after_install(slot, c, now_ms).slots[v.install_target(slot, c.shard_info)->0].backoff.delay_ms
            == v.config.backoff.min_delay_ms,
        v.after_install(slot, c, now_ms).slots[v.install_target(slot, c.shard_info)->0].connection
            == Some(c),
{
}

/// Once a per-shard pool knows the shard count, the only slot that can hold
/// a connection bound to shard `h` is slot `h`: a request for one shard is
/// served from that shard's slot alone, whatever the other slots hold, and
/// no two slots hold connections to the same shard.
pub proof fn lemma_shard_slot(v: PoolView, i: int, h: u16)
    requires
        v.wf(),
        v.config.pool_size == PoolSize::PerShard,
        v.shard_count is Some,
        0 <= i < v.slots.len(),
        bound_to(v.slots[i], h),
    ensures
        i == h as int,
{
    assert(v.slots[i].connection->0.shard_info == Some(ShardInfo { shard: i as u16, nr_shards: v.shard_count->0 }));
}

/// A table holds a live connection exactly when one of its slots does.
pub proof fn lemma_live_connections_nonempty(slots: Seq<Slot>)
    ensures
        live_connections(slots).len() > 0 <==> exists|i: int| 0 <= i < slots.len() && (#[trigger] slots[i]).connection is Some,
    decreases slots.len(),
{
    if slots.len() > 0 {
        let rest = slots.drop_last();
        lemma_live_connections_nonempty(rest);
        if live_connections(rest).len() > 0 {
            let i = choose|i: int| 0 <= i < rest.len() && (#[trigger] rest[i]).connection is Some;
            assert(slots[i] == rest[i]);
        }
        if exists|i: int| 0 <= i < slots.len() && (#[trigger] slots[i]).connection is Some {
            let i = choose|i: int| 0 <= i < slots.len() && (#[trigger] slots[i]).connection is Some;
            if i < rest.len() {
                assert(rest[i] == slots[i]);
            }
        }
    }
}

} // verus!
