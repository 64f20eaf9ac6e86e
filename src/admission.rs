use vstd::prelude::*;

verus! {

/// The two endpoint categories, each with limiters of its own.
#[derive(PartialEq, Eq, Structural, Clone, Copy, Debug)]
pub enum Endpoint {
    Submit,
    Query,
}

/// Limits of one endpoint category. At most `global_limit` requests are
/// admitted in each window of `window_ms` milliseconds. Each client may send
/// `client_burst` requests at once and then one each `client_interval_ms`.
#[derive(PartialEq, Eq, Structural, Clone, Copy, Debug)]
pub struct Limits {
    pub global_limit: u32,
    pub window_ms: u32,
    pub client_interval_ms: u32,
    pub client_burst: u32,
}

/// A client's theoretical arrival time: the earliest time at which its
/// bucket is full again.
pub struct ClientSlot {
    pub client: u128,
    pub tat: u128,
}

/// A bound on every arrival time, so that the arithmetic on them stays
/// within `u128`.
pub const TAT_BOUND: u128 = 0x4_0000_0000_0000_0000;

/// The state of the limiters of one endpoint category.
pub struct Limiter {
    pub limits: Limits,
    pub window_start: u64,
    pub window_count: u64,
    pub clients: Vec<ClientSlot>,
}

/// Whether a request at `now` opens a new global window.
pub open spec fn window_resets(start: u64, now: u64, len: u32) -> bool {
    now < start || now >= start + len
}

/// The requests already admitted in the window that holds `now`.
pub open spec fn window_used(l: Limiter, now: u64) -> int {
    if window_resets(l.window_start, now, l.limits.window_ms) {
        0
    } else {
        l.window_count as int
    }
}

pub open spec fn max_int(a: int, b: int) -> int {
    if a >= b {
        a
    } else {
        b
    }
}

/// The generic cell rate rule: a client whose arrival time is `tat` may send
/// at `now` while it is less than a full burst ahead of `now`.
pub open spec fn client_allows(tat: int, now: int, interval: int, burst: int) -> bool {
    max_int(tat, now) - now <= interval * (burst - 1)
}

/// What a decision on a request from `c` at `now` does: against limiter
/// `before` it answers `r` and leaves `after`.
pub open spec fn checked(before: Limiter, after: Limiter, c: u128, now: u64, r: bool) -> bool {
    &&& after.wf()
    &&& r == before.admits(c, now)
    &&& after.limits == before.limits
    &&& before.global_admits(now) ==> {
        &&& after.window_count == window_used(before, now) + 1
        &&& after.window_start == if window_resets(
            before.window_start,
            now,
            before.limits.window_ms,
        ) {
            now
        } else {
            before.window_start
        }
    }
    &&& !before.global_admits(now) ==> {
        &&& after.window_count == before.window_count
        &&& after.window_start == before.window_start
    }
    &&& r ==> after.tat_of(c) == max_int(before.tat_of(c), now as int)
        + before.limits.client_interval_ms
    &&& forall|d: u128|
        d != c || !r ==> #[trigger] after.tat_of(d) == before.tat_of(d)
}

impl Limiter {
    pub open spec fn has_client(&self, c: u128) -> bool {
        exists|i: int| 0 <= i < self.clients@.len() && self.clients@[i].client == c
    }

    /// The arrival time of client `c`; zero for a client never seen.
    pub open spec fn tat_of(&self, c: u128) -> int {
        if self.has_client(c) {
            self.clients@[choose|i: int|
                0 <= i < self.clients@.len() && self.clients@[i].client == c].tat as int
        } else {
            0
        }
    }

    /// Each client has at most one slot, and arrival times stay bounded.
    pub open spec fn wf(&self) -> bool {
        &&& forall|i: int, j: int|
            0 <= i < j < self.clients@.len() ==> self.clients@[i].client
                != self.clients@[j].client
        &&& forall|i: int| 0 <= i < self.clients@.len() ==> self.clients@[i].tat < TAT_BOUND
    }

    /// Whether a request at `now` passes the global limit.
    pub open spec fn global_admits(&self, now: u64) -> bool {
        window_used(*self, now) < self.limits.global_limit
    }

    /// Whether a request from `c` at `now` passes both limits.
    pub open spec fn admits(&self, c: u128, now: u64) -> bool {
        &&& self.global_admits(now)
        &&& client_allows(
            self.tat_of(c),
            now as int,
            self.limits.client_interval_ms as int,
            self.limits.client_burst as int,
        )
    }

    pub fn new(limits: Limits) -> (r: Limiter)
        ensures
            r.wf(),
            r.limits == limits,
            r.window_start == 0,
            r.window_count == 0,
            r.clients@.len() == 0,
    {
        Limiter { limits, window_start: 0, window_count: 0, clients: Vec::new() }
    }

    fn find_client(&self, c: u128) -> (r: Option<usize>)
        requires
            self.wf(),
        ensures
            r is None <==> !self.has_client(c),
            r matches Some(i) ==> i < self.clients@.len() && self.clients@[i as int].client == c
                && self.tat_of(c) == self.clients@[i as int].tat,
    {
        let mut i: usize = 0;
        while i < self.clients.len()
            invariant
                self.wf(),
                i <= self.clients.len(),
                forall|j: int| 0 <= j < i ==> self.clients@[j].client != c,
            decreases self.clients.len() - i,
        {
            if self.clients[i].client == c {
                proof {
                    let k = choose|j: int|
                        0 <= j < self.clients@.len() && self.clients@[j].client == c;
                    if k != i as int {
                        if k < i as int {
                            assert(self.clients@[k].client != self.clients@[i as int].client);
                        } else {
                            assert(self.clients@[i as int].client != self.clients@[k].client);
                        }
                    }
                }
                return Some(i);
            }
            i = i + 1;
        }
        None
    }

    /// Decides on a request from client `c` at `now` (milliseconds). The global
    /// limit is asked first, and a request it admits counts against the
    /// window even where the client limit then refuses it. A refused request
    /// leaves the client's state as it was.
    pub fn check(&mut self, c: u128, now: u64) -> (r: bool)
        requires
            old(self).wf(),
        ensures
            checked(*old(self), *final(self), c, now, r),
    {
        let resets = now < self.window_start || (now as u128) >= (self.window_start as u128)
            + (self.limits.window_ms as u128);
        let used: u64 = if resets {
            0
        } else {
            self.window_count
        };
        if used >= self.limits.global_limit as u64 {
            return false;
        }
        if resets {
            self.window_start = now;
        }
        self.window_count = used + 1;
        let found = self.find_client(c);
        let tat: u128 = match found {
            Some(i) => self.clients[i].tat,
            None => 0,
        };
        let base: u128 = if tat >= now as u128 {
            tat
        } else {
            now as u128
        };
        let interval = self.limits.client_interval_ms as u128;
        let burst = self.limits.client_burst as u128;
        let allowed = if burst == 0 {
            base - (now as u128) + interval <= 0
        } else {
            assert(interval * (burst - 1) <= 0xffff_ffff * 0xffff_ffff) by (nonlinear_arith)
                requires
                    interval <= 0xffff_ffff,
                    burst - 1 <= 0xffff_ffff,
                    burst >= 1,
            ;
            base - (now as u128) <= interval * (burst - 1)
        };
        proof {
            if burst == 0 {
                assert(interval * (burst - 1) == -interval) by (nonlinear_arith)
                    requires
                        burst == 0,
                ;
            }
        }
        if !allowed {
            return false;
        }
        let ghost before = self.clients@;
        let next = base + interval;
        match found {
            Some(i) => {
                self.clients.set(i, ClientSlot { client: c, tat: next });
            },
            None => {
                self.clients.push(ClientSlot { client: c, tat: next });
            },
        }
        proof {
            let k: int = match found {
                Some(i) => i as int,
                None => before.len() as int,
            };
            assert(self.clients@[k].client == c);
            assert forall|d: u128| d != c implies #[trigger] self.tat_of(d) == old(self).tat_of(d) by {
                if old(self).has_client(d) {
                    let j = choose|j: int|
                        0 <= j < before.len() && before[j].client == d;
                    assert(self.clients@[j].client == d);
                }
                if self.has_client(d) {
                    let j = choose|j: int|
                        0 <= j < self.clients@.len() && self.clients@[j].client == d;
                    assert(j != k);
                    assert(before[j].client == d);
                    let j2 = choose|j2: int|
                        0 <= j2 < before.len() && before[j2].client == d;
                    if j2 != j {
                        if j2 < j {
                            assert(before[j2].client != before[j].client);
                        } else {
                            assert(before[j].client != before[j2].client);
                        }
                    }
                }
            }
            let m = choose|j: int|
                0 <= j < self.clients@.len() && self.clients@[j].client == c;
            if m != k {
                if m < k {
                    assert(self.clients@[m].client != self.clients@[k].client);
                } else {
                    assert(self.clients@[k].client != self.clients@[m].client);
                }
            }
        }
        true
    }
}

/// What a decision on a request from `c` at `now` to an endpoint of category
/// `e` does: only that category's limiter is consulted and changed.
pub open spec fn decided(
    before: AdmissionController,
    after: AdmissionController,
    e: Endpoint,
    c: u128,
    now: u64,
    r: bool,
) -> bool {
    &&& after.wf()
    &&& e is Submit ==> r == before.submit.admits(c, now) && after.query == before.query
    &&& e is Query ==> r == before.query.admits(c, now) && after.submit == before.submit
}

/// The admission controller: one limiter for submissions, one for queries.
/// It never sees the record store.
pub struct AdmissionController {
    pub submit: Limiter,
    pub query: Limiter,
}

impl AdmissionController {
    pub open spec fn wf(&self) -> bool {
        self.submit.wf() && self.query.wf()
    }

    pub fn new(submit: Limits, query: Limits) -> (r: AdmissionController)
        ensures
            r.wf(),
            r.submit.limits == submit,
            r.query.limits == query,
    {
        AdmissionController { submit: Limiter::new(submit), query: Limiter::new(query) }
    }

    /// Decides on a request from client `c` at `now` to an endpoint of
    /// category `e`; only that category's limiter is consulted and changed.
    pub fn decide(&mut self, e: Endpoint, c: u128, now: u64) -> (r: bool)
        requires
            old(self).wf(),
        ensures
            decided(*old(self), *final(self), e, c, now, r),
    {
        match e {
            Endpoint::Submit => self.submit.check(c, now),
            Endpoint::Query => self.query.check(c, now),
        }
    }
}

/// The current time as the limiters count it: milliseconds since the Unix
/// epoch, with times before it read as zero.
pub open spec fn as_millis(t: i64) -> u64 {
    if t < 0 {
        0
    } else {
        t as u64
    }
}

impl AdmissionController {
    /// Decides on a request from client `c` to an endpoint of category `e`
    /// at the current time.
    pub fn decide_now(&mut self, e: Endpoint, c: u128) -> (r: bool)
        requires
            old(self).wf(),
        ensures
            exists|t: i64| decided(*old(self), *final(self), e, c, as_millis(t), r),
    {
        let t = crate::service::clock_millis();
        let now: u64 = if t < 0 {
            0
        } else {
            t as u64
        };
        let r = self.decide(e, c, now);
        assert(decided(*old(self), *self, e, c, as_millis(t), r));
        r
    }
}

} // verus!
