use vstd::prelude::*;

verus! {

/// The largest number of requests that one connection can have in flight:
/// stream ids are non-negative 16-bit integers.
pub const MAX_STREAMS: usize = 32768;

/// Why a request could not be given a stream on a connection.
#[derive(Debug, Clone, Copy, PartialEq, Eq, Structural)]
pub enum StreamError {
    /// The connection is broken; it cannot be revived.
    Broken,
    /// The connection already carries as many requests as its limit allows.
    TooManyInFlight,
}

/// The correlation ids of one connection: each request in flight holds its
/// own stream id, so that responses arriving in any order reach their
/// callers, and a caller that gives up does not disturb the others.
pub struct StreamIds {
    in_use: Vec<bool>,
    in_flight: usize,
    broken: bool,
}

/// The ids marked in use in `flags`.
pub open spec fn ids_in_use(flags: Seq<bool>) -> Set<int> {
    Set::new(|i: int| 0 <= i < flags.len() && flags[i])
}

/// The ids in use among the first `n` of `flags`, in increasing order.
pub open spec fn ids_in_order(flags: Seq<bool>, n: int) -> Seq<i16>
    decreases n,
{
    if n <= 0 {
        Seq::empty()
    } else if flags[n - 1] {
        ids_in_order(flags, n - 1).push((n - 1) as i16)
    } else {
        ids_in_order(flags, n - 1)
    }
}

/// The ids in use form a finite set, no larger than the number of ids, and
/// as large only when every id is in use.
pub proof fn lemma_ids_in_use_len(flags: Seq<bool>)
    ensures
        ids_in_use(flags).finite(),
        ids_in_use(flags).len() <= flags.len(),
        (forall|i: int| 0 <= i < flags.len() ==> #[trigger] flags[i]) ==> ids_in_use(flags).len() == flags.len(),
    decreases flags.len(),
{
    if flags.len() > 0 {
        let rest = flags.drop_last();
        lemma_ids_in_use_len(rest);
        let n = flags.len() - 1;
        if flags[n] {
            assert(ids_in_use(flags) =~= ids_in_use(rest).insert(n));
        } else {
            assert(ids_in_use(flags) =~= ids_in_use(rest));
        }
        if forall|i: int| 0 <= i < flags.len() ==> #[trigger] flags[i] {
            assert forall|i: int| 0 <= i < rest.len() implies #[trigger] rest[i] by {
                assert(flags[i]);
            }
        }
    } else {
        assert(ids_in_use(flags) =~= Set::<int>::empty());
    }
}

impl StreamIds {
    /// The limit on requests in flight.
    pub closed spec fn limit(&self) -> nat {
        self.in_use@.len()
    }

    /// The stream ids of the requests in flight.
    pub closed spec fn in_use(&self) -> Set<int> {
        ids_in_use(self.in_use@)
    }

    /// Whether the connection broke.
    pub closed spec fn is_broken(&self) -> bool {
        self.broken
    }

    pub closed spec fn wf(&self) -> bool {
        &&& self.in_use@.len() <= MAX_STREAMS
        &&& self.in_flight == self.in_use().len()
        &&& self.broken ==> self.in_use() == Set::<int>::empty()
    }

    /// Ids `0..limit` are available, none in use.
    pub fn new(limit: usize) -> (r: StreamIds)
        requires
            limit <= MAX_STREAMS,
        ensures
            r.wf(),
            r.limit() == limit,
            r.in_use() == Set::<int>::empty(),
            !r.is_broken(),
    {
        let mut in_use: Vec<bool> = Vec::new();
        let mut i: usize = 0;
        while i < limit
            invariant
                i <= limit,
                in_use@.len() == i,
                forall|j: int| 0 <= j < i ==> !#[trigger] in_use@[j],
            decreases limit - i,
        {
            in_use.push(false);
            i = i + 1;
        }
        let r = StreamIds { in_use, in_flight: 0, broken: false };
        assert(r.in_use() =~= Set::<int>::empty());
        r
    }

    /// Gives a new request the lowest free stream id.
    pub fn allocate(&mut self) -> (r: Result<i16, StreamError>)
        requires
            old(self).wf(),
        ensures
            final(self).wf(),
            final(self).limit() == old(self).limit(),
            final(self).is_broken() == old(self).is_broken(),
            old(self).is_broken() ==> r == Err::<i16, StreamError>(StreamError::Broken),
            !old(self).is_broken() && old(self).in_use().len() == old(self).limit() ==> r == Err::<i16, StreamError>(
                StreamError::TooManyInFlight,
            ),
            !old(self).is_broken() && old(self).in_use().len() < old(self).limit() ==> r is Ok,
            r is Err ==> final(self).in_use() == old(self).in_use(),
            r matches Ok(id) ==> {
                &&& 0 <= id < old(self).limit()
                &&& !old(self).in_use().contains(id as int)
                &&& forall|j: int| 0 <= j < id ==> old(self).in_use().contains(j)
                &&& final(self).in_use() == old(self).in_use().insert(id as int)
            },
    {
        proof {
            lemma_ids_in_use_len(self.in_use@);
        }
        if self.broken {
            return Err(StreamError::Broken);
        }
        if self.in_flight == self.in_use.len() {
            return Err(StreamError::TooManyInFlight);
        }
        let ghost old_flags = self.in_use@;
        let mut i: usize = 0;
        while i < self.in_use.len()
            invariant
                self.wf(),
                !self.broken,
                self.in_use@ == old_flags,
                old(self).in_use@ == old_flags,
                self.in_flight == old(self).in_flight,
                self.broken == old(self).broken,
                self.in_flight < self.in_use@.len(),
                i <= self.in_use@.len(),
                forall|j: int| 0 <= j < i ==> #[trigger] self.in_use@[j],
            decreases self.in_use@.len() - i,
        {
            if !self.in_use[i] {
                self.in_use.set(i, true);
                proof {
                    lemma_ids_in_use_len(old_flags);
                    assert(ids_in_use(self.in_use@) =~= ids_in_use(old_flags).insert(i as int));
                    assert forall|j: int| 0 <= j < i implies ids_in_use(old_flags).contains(j) by {
                        assert(old_flags[j]);
                    }
                }
                self.in_flight = self.in_flight + 1;
                return Ok(i as i16);
            }
            i = i + 1;
        }
        proof {
            lemma_ids_in_use_len(self.in_use@);
        }
        Err(StreamError::TooManyInFlight)
    }

    /// The response of stream `id` arrived, or its caller gave up: the id is
    /// free again. Returns whether it was in flight; an unknown id changes nothing.
    pub fn release(&mut self, id: i16) -> (r: bool)
        requires
            old(self).wf(),
        ensures
            final(self).wf(),
            final(self).limit() == old(self).limit(),
            final(self).is_broken() == old(self).is_broken(),
            r == old(self).in_use().contains(id as int),
            final(self).in_use() == old(self).in_use().remove(id as int),
    {
        proof {
            lemma_ids_in_use_len(self.in_use@);
        }
        if id < 0 || id as usize >= self.in_use.len() || !self.in_use[id as usize] {
            assert(self.in_use().remove(id as int) =~= self.in_use());
            return false;
        }
        let ghost old_flags = self.in_use@;
        self.in_use.set(id as usize, false);
        proof {
            assert(ids_in_use(self.in_use@) =~= ids_in_use(old_flags).remove(id as int));
        }
        self.in_flight = self.in_flight - 1;
        true
    }

    /// The transport failed: the connection becomes broken for good, and the
    /// stream ids that were in flight are returned in increasing order, for
    /// their callers to be failed rather than left waiting.
    pub fn break_connection(&mut self) -> (r: Vec<i16>)
        requires
            old(self).wf(),
        ensures
            final(self).wf(),
            final(self).is_broken(),
            final(self).limit() == old(self).limit(),
            final(self).in_use() == Set::<int>::empty(),
            forall|i: int| 0 <= i < r@.len() ==> old(self).in_use().contains(#[trigger] r@[i] as int),
            forall|id: int| old(self).in_use().contains(id) ==> r@.contains(id as i16),
            forall|i: int, j: int| 0 <= i < j < r@.len() ==> r@[i] < r@[j],
    {
        let ghost old_flags = self.in_use@;
        let mut out: Vec<i16> = Vec::new();
        let mut i: usize = 0;
        while i < self.in_use.len()
            invariant
                self.in_use@.len() == old_flags.len(),
                old_flags.len() <= MAX_STREAMS,
                i <= old_flags.len(),
                forall|j: int| 0 <= j < i ==> !#[trigger] self.in_use@[j],
                forall|j: int| i <= j < old_flags.len() ==> #[trigger] self.in_use@[j] == old_flags[j],
                forall|k: int| 0 <= k < out@.len() ==> 0 <= #[trigger] out@[k] < i && old_flags[out@[k] as int],
                forall|j: int| 0 <= j < i && old_flags[j] ==> out@.contains(j as i16),
                forall|a: int, b: int| 0 <= a < b < out@.len() ==> out@[a] < out@[b],
            decreases old_flags.len() - i,
        {
            if self.in_use[i] {
                let ghost out_before = out@;
                out.push(i as i16);
                self.in_use.set(i, false);
                proof {
                    assert(out@[out@.len() - 1] == i as i16);
                    assert forall|j: int| 0 <= j < i && old_flags[j] implies out@.contains(j as i16) by {
                        let k = choose|k: int| 0 <= k < out_before.len() && out_before[k] == j as i16;
                        assert(out@[k] == j as i16);
                    }
                }
            }
            i = i + 1;
        }
        self.in_flight = 0;
        self.broken = true;
        proof {
            assert(self.in_use() =~= Set::<int>::empty());
            assert forall|id: int| ids_in_use(old_flags).contains(id) implies out@.contains(id as i16) by {
                assert(0 <= id < i && old_flags[id]);
            }
        }
        out
    }

    /// The number of requests in flight.
    pub fn in_flight(&self) -> (r: usize)
        requires
            self.wf(),
        ensures
            r == self.in_use().len(),
    {
        self.in_flight
    }

    /// Whether the connection broke.
    pub fn broken(&self) -> (r: bool)
        ensures
            r == self.is_broken(),
    {
        self.broken
    }
}

} // verus!
