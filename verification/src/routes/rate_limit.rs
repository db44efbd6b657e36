use vstd::prelude::*;

use crate::routes::policy::Endpoint;

verus! {

/// The time, in milliseconds, in which one more request of a client is
/// allowed again.
pub const RATE_PERIOD_MS: u64 = 2000;

/// How many requests a client may make at once before it must wait.
pub const RATE_BURST: u64 = 5;

/// The latest time, in milliseconds since the limiter's clock started, that
/// the limiter accepts.
pub const RATE_CLOCK_LIMIT_MS: u64 = 0x4000_0000_0000_0000;

/// The endpoints whose requests are limited per client: those that guess at
/// passwords or send mail.
pub open spec fn spec_rate_limited(e: Endpoint) -> bool {
    e is Register || e is Login || e is ForgotPassword
}

impl Endpoint {
    /// Whether the endpoint's requests are limited per client.
    pub fn rate_limited(self) -> (b: bool)
        ensures
            b == spec_rate_limited(self),
    {
        match self {
            Endpoint::Register | Endpoint::Login | Endpoint::ForgotPassword => true,
            _ => false,
        }
    }
}

/// Whether a request at `now` is allowed to a client whose theoretical
/// arrival time is `arrival`: it may run at most `RATE_BURST - 1` periods
/// ahead of the clock.
pub open spec fn rate_allows(arrival: nat, now: nat) -> bool {
    rate_start(arrival, now) <= now + (RATE_BURST - 1) * RATE_PERIOD_MS
}

/// The arrival time from which an allowed request counts: the later of the
/// client's arrival time and the clock.
pub open spec fn rate_start(arrival: nat, now: nat) -> nat {
    if arrival < now {
        now
    } else {
        arrival
    }
}

/// The client's arrival time after a request at `now`: one period later
/// where it was allowed, unchanged where it was refused.
pub open spec fn rate_next(arrival: nat, now: nat) -> nat {
    if rate_allows(arrival, now) {
        (rate_start(arrival, now) + RATE_PERIOD_MS) as nat
    } else {
        arrival
    }
}

/// The arrival time after `k` requests made at the same instant `now`.
pub open spec fn arrival_after(arrival: nat, now: nat, k: nat) -> nat
    decreases k,
{
    if k == 0 {
        arrival
    } else {
        rate_next(arrival_after(arrival, now, (k - 1) as nat), now)
    }
}

/// Per-client request limits: the theoretical arrival time of each client
/// seen so far (a client never seen counts as arriving at time 0).
pub struct RateLimiter {
    clients: Vec<(String, u64)>,
}

/// Whether the client at `i` of `clients` is `client`.
pub open spec fn listed_at(clients: Seq<(String, u64)>, client: Seq<char>, i: int) -> bool {
    0 <= i < clients.len() && clients[i].0@ == client
}

/// The arrival time that a list of clients holds for `client`.
pub open spec fn listed_arrival(clients: Seq<(String, u64)>, client: Seq<char>) -> nat {
    if exists|i: int| #[trigger] listed_at(clients, client, i) {
        clients[choose|i: int| #[trigger] listed_at(clients, client, i)].1 as nat
    } else {
        0
    }
}

impl RateLimiter {
    /// The arrival time of a client.
    pub closed spec fn arrival(&self, client: Seq<char>) -> nat {
        listed_arrival(self.clients@, client)
    }

    /// Each client is listed once, with an arrival time within the clock's
    /// range.
    #[verifier::type_invariant]
    spec fn wf(&self) -> bool {
        &&& forall|i: int, j: int|
            0 <= i < j < self.clients@.len() ==> self.clients@[i].0@ != self.clients@[j].0@
        &&& forall|i: int|
            0 <= i < self.clients@.len() ==> #[trigger] self.clients@[i].1 <= RATE_CLOCK_LIMIT_MS
                + RATE_BURST * RATE_PERIOD_MS
    }

    /// A limiter that has seen no client.
    pub fn new() -> (r: RateLimiter)
        ensures
            forall|c: Seq<char>| #[trigger] r.arrival(c) == 0,
    {
        RateLimiter { clients: Vec::new() }
    }

    /// Takes a request of `client` at `now` (milliseconds on the limiter's
    /// clock) and says whether it is allowed; an allowed request moves the
    /// client's arrival time on by a period, a refused one changes nothing.
    /// No other client is affected.
    pub fn check(&mut self, client: &str, now: u64) -> (allowed: bool)
        requires
            now <= RATE_CLOCK_LIMIT_MS,
        ensures
            allowed == rate_allows(old(self).arrival(client@), now as nat),
            final(self).arrival(client@) == rate_next(old(self).arrival(client@), now as nat),
            forall|c: Seq<char>|
                c != client@ ==> #[trigger] final(self).arrival(c) == old(self).arrival(c),
    {
        proof {
            use_type_invariant(&*self);
        }
        let ghost list = self.clients@;
        let mut i: usize = 0;
        while i < self.clients.len()
            invariant
                i <= self.clients@.len(),
                self.clients@ == list,
                forall|j: int| 0 <= j < i ==> list[j].0@ != client@,
            ensures
                i <= list.len(),
                forall|j: int| 0 <= j < i ==> list[j].0@ != client@,
                i < list.len() ==> list[i as int].0@ == client@,
            decreases self.clients.len() - i,
        {
            if self.clients[i].0.as_str().to_owned() == client.to_owned() {
                break;
            }
            i = i + 1;
        }
        let found = i < self.clients.len();
        let arrival: u64 = if found {
            self.clients[i].1
        } else {
            0
        };
        proof {
            if found {
                assert(listed_at(list, client@, i as int));
                let k = choose|k: int| #[trigger] listed_at(list, client@, k);
                assert(k == i);
            } else {
                assert forall|k: int| !#[trigger] listed_at(list, client@, k) by {}
            }
            assert(arrival == listed_arrival(list, client@));
        }
        let start = if arrival < now {
            now
        } else {
            arrival
        };
        if start > now + (RATE_BURST - 1) * RATE_PERIOD_MS {
            return false;
        }
        let next = start + RATE_PERIOD_MS;
        let mut clients: Vec<(String, u64)> = Vec::new();
        std::mem::swap(&mut clients, &mut self.clients);
        if found {
            let name = clients[i].0.clone();
            clients.set(i, (name, next));
        } else {
            clients.push((client.to_owned(), next));
        }
        proof {
            let now_list = clients@;
            assert forall|c: Seq<char>| c != client@ implies #[trigger] listed_arrival(now_list, c)
                == listed_arrival(list, c) by {
                if exists|k: int| #[trigger] listed_at(list, c, k) {
                    let k = choose|k: int| #[trigger] listed_at(list, c, k);
                    assert(listed_at(now_list, c, k));
                    let m = choose|m: int| #[trigger] listed_at(now_list, c, m);
                    assert(m == k);
                } else {
                    assert forall|m: int| !#[trigger] listed_at(now_list, c, m) by {
                        if listed_at(now_list, c, m) {
                            assert(listed_at(list, c, m));
                        }
                    }
                }
            }
            let idx = if found { i as int } else { list.len() as int };
            assert(listed_at(now_list, client@, idx));
            let m = choose|m: int| #[trigger] listed_at(now_list, client@, m);
            assert(m == idx);
            assert forall|a: int, b: int|
                0 <= a < b < now_list.len() implies now_list[a].0@ != now_list[b].0@ by {
                if !found && b == list.len() {
                    assert(list[a].0@ != client@);
                }
            }
        }
        self.clients = clients;
        true
    }
}

/// The arrival time of a client that was idle at `now`, after `k` allowed
/// requests at that instant.
proof fn lemma_arrival_after(arrival: nat, now: nat, k: nat)
    requires
        arrival <= now,
        k <= RATE_BURST,
    ensures
        k == 0 ==> arrival_after(arrival, now, k) == arrival,
        k > 0 ==> arrival_after(arrival, now, k) == now + k * RATE_PERIOD_MS,
    decreases k,
{
    if k > 0 {
        lemma_arrival_after(arrival, now, (k - 1) as nat);
    }
}

/// A client that was idle gets `RATE_BURST` requests at one instant; the
/// next one at that instant is refused and leaves it as it was; one period
/// later one more request is allowed.
pub proof fn burst_then_wait(arrival: nat, now: nat)
    requires
        arrival <= now,
    ensures
        forall|k: nat| k < RATE_BURST ==> #[trigger] rate_allows(arrival_after(arrival, now, k), now),
        !rate_allows(arrival_after(arrival, now, RATE_BURST as nat), now),
        arrival_after(arrival, now, (RATE_BURST + 1) as nat) == arrival_after(
            arrival,
            now,
            RATE_BURST as nat,
        ),
        rate_allows(arrival_after(arrival, now, RATE_BURST as nat), (now + RATE_PERIOD_MS) as nat),
{
    assert forall|k: nat| k < RATE_BURST implies #[trigger] rate_allows(
        arrival_after(arrival, now, k),
        now,
    ) by {
        lemma_arrival_after(arrival, now, k);
    }
    lemma_arrival_after(arrival, now, RATE_BURST as nat);
}

} // verus!
