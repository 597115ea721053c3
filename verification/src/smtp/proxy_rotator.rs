//! A pool of proxies that hands out one proxy per verification.
//!
//! In round-robin order every call draws a ticket from a shared counter, and
//! the ticket selects the proxy: ticket `t` selects the proxy at position
//! `t mod n` of `n` proxies. The counter is shared between threads, so a call
//! cannot say which ticket it will draw; what a ticket selects is fixed, and
//! the laws of the rotation are stated of the tickets.

use crate::smtp::verif_method::ProxyRotationStrategy;
use crate::text::{decimal, push_decimal};
use rand::seq::SliceRandom;
use std::sync::atomic::AtomicUsize;
use vstd::arithmetic::div_mod::{
    lemma_fundamental_div_mod, lemma_mod_multiples_vanish, lemma_mod_sub_multiples_vanish,
    lemma_small_mod,
};
use vstd::prelude::*;
use vstd::string::*;

verus! {

/// A thread-safe proxy rotator that cycles through a list of proxy IDs.
/// Supports round-robin and random selection strategies.
pub struct ProxyRotator {
    proxy_ids: Vec<String>,
    counter: AtomicUsize,
    strategy: ProxyRotationStrategy,
}

/// The position that a ticket selects among `n` proxies.
pub open spec fn slot(ticket: nat, n: nat) -> nat {
    ticket % n
}

/// The proxies that `count` tickets in a row select, beginning with the
/// ticket `first`.
pub open spec fn rotation(ids: Seq<String>, first: nat, count: nat) -> Seq<String> {
    Seq::new(count, |j: int| ids[slot((first + j) as nat, ids.len()) as int])
}

/// How many of `count` tickets in a row, beginning with the ticket `first`,
/// select the position `at` among `n` proxies.
pub open spec fn times_selected(first: nat, count: nat, n: nat, at: nat) -> nat
    decreases count,
{
    if count == 0 {
        0
    } else {
        times_selected(first, (count - 1) as nat, n, at) + if slot(
            (first + count - 1) as nat,
            n,
        ) == at {
            1nat
        } else {
            0nat
        }
    }
}

/// The name of a strategy.
pub open spec fn strategy_name(strategy: ProxyRotationStrategy) -> Seq<char> {
    match strategy {
        ProxyRotationStrategy::RoundRobin => "RoundRobin"@,
        ProxyRotationStrategy::Random => "Random"@,
    }
}

/// A rotator in short: how many proxies it has, where its counter stands and
/// which strategy it follows. The proxies themselves are not named.
pub open spec fn rotator_text(count: usize, counter: usize, strategy: ProxyRotationStrategy) -> Seq<
    char,
> {
    "ProxyRotator { proxy_ids_count: "@ + decimal(count as nat) + ", counter: "@ + decimal(
        counter as nat,
    ) + ", strategy: "@ + strategy_name(strategy) + " }"@
}

/// One of `ids`, picked at random; `None` where there is none to pick.
///
/// Trusted: calls `SliceRandom::choose` of the crate `rand` on the slice of
/// the ids, with the generator that `rand::thread_rng` gives. For a slice the
/// crate returns `None` if the slice is empty and else a reference to the
/// element at an index below the length. Which index is left open. The
/// generator is seeded by the system on its first use in a thread, and the
/// crate panics if the system gives no seed.
#[verifier::external_body]
fn pick_random<'a>(ids: &'a Vec<String>) -> (r: Option<&'a String>)
    ensures
        ids@.len() == 0 ==> r is None,
        ids@.len() > 0 ==> r is Some && ids@.contains(*r->0),
{
    ids.choose(&mut rand::thread_rng())
}

/// A rotator in short, from the numbers to show.
pub fn describe_rotator(count: usize, counter: usize, strategy: ProxyRotationStrategy) -> (r:
    String)
    ensures
        r@ == rotator_text(count, counter, strategy),
{
    let mut out = String::from_str("ProxyRotator { proxy_ids_count: ");
    push_decimal(&mut out, count as u64);
    out.append(", counter: ");
    push_decimal(&mut out, counter as u64);
    out.append(", strategy: ");
    match strategy {
        ProxyRotationStrategy::RoundRobin => out.append("RoundRobin"),
        ProxyRotationStrategy::Random => out.append("Random"),
    }
    out.append(" }");
    out
}

impl ProxyRotator {
    /// The proxy IDs of the pool, in the order in which they were given.
    pub closed spec fn proxy_ids(&self) -> Seq<String> {
        self.proxy_ids@
    }

    /// The strategy by which the next proxy is picked.
    pub closed spec fn strategy(&self) -> ProxyRotationStrategy {
        self.strategy
    }

    /// The proxy that a ticket selects: none in an empty pool, else the one
    /// at the ticket's position.
    pub open spec fn selected(&self, ticket: nat) -> Option<String> {
        if self.proxy_ids().len() == 0 {
            None
        } else {
            Some(self.proxy_ids()[slot(ticket, self.proxy_ids().len()) as int])
        }
    }

    /// Create a new ProxyRotator with the given proxy IDs and rotation strategy.
    pub fn new(proxy_ids: Vec<String>, strategy: ProxyRotationStrategy) -> (r: Self)
        ensures
            r.proxy_ids() == proxy_ids@,
            r.strategy() == strategy,
    {
        Self { proxy_ids, counter: AtomicUsize::new(0), strategy }
    }

    /// Draws the next ticket: the counter's value, which the call raises by
    /// one. After the highest number the count begins again at zero.
    fn next_ticket(&self) -> usize {
        self.counter.fetch_add(1, std::sync::atomic::Ordering::SeqCst)
    }

    /// The ticket that the next call would draw, if no other call came first.
    fn current_ticket(&self) -> usize {
        self.counter.load(std::sync::atomic::Ordering::SeqCst)
    }

    /// The proxy ID that `ticket` selects in round-robin order.
    /// Returns None if there are no proxies configured.
    pub fn proxy_id_for_ticket(&self, ticket: usize) -> (r: Option<&String>)
        ensures
            r is Some <==> self.proxy_ids().len() > 0,
            r matches Some(id) ==> Some(*id) == self.selected(ticket as nat),
    {
        if self.proxy_ids.len() == 0 {
            return None;
        }
        let index: usize = ticket % self.proxy_ids.len();
        Some(&self.proxy_ids[index])
    }

    /// Get the next proxy ID based on the rotation strategy.
    /// Returns None if there are no proxies configured.
    ///
    /// In round-robin order the proxy is the one that the next ticket of the
    /// shared counter selects; at random it is any one of the pool. Either
    /// way it is one of the pool's proxies.
    pub fn get_next_proxy_id(&self) -> (r: Option<&String>)
        ensures
            r is Some <==> self.proxy_ids().len() > 0,
            r matches Some(id) ==> exists|i: int|
                0 <= i < self.proxy_ids().len() && *id == self.proxy_ids()[i],
            r matches Some(id) ==> self.strategy() == ProxyRotationStrategy::RoundRobin
                ==> exists|ticket: nat| Some(*id) == #[trigger] self.selected(ticket),
    {
        if self.proxy_ids.len() == 0 {
            return None;
        }
        match self.strategy {
            ProxyRotationStrategy::RoundRobin => {
                let ticket = self.next_ticket();
                let r = self.proxy_id_for_ticket(ticket);
                proof {
                    let n = self.proxy_ids().len();
                    assert(0 <= slot(ticket as nat, n) < n) by (nonlinear_arith)
                        requires
                            n > 0,
                            slot(ticket as nat, n) == (ticket as nat) % n,
                    ;
                    assert(Some(*r->0) == self.selected(ticket as nat));
                }
                r
            },
            ProxyRotationStrategy::Random => pick_random(&self.proxy_ids),
        }
    }

    /// Get the number of proxies in the pool.
    pub fn len(&self) -> (r: usize)
        ensures
            r == self.proxy_ids().len(),
    {
        self.proxy_ids.len()
    }

    /// Check if the proxy pool is empty.
    pub fn is_empty(&self) -> (r: bool)
        ensures
            r == (self.proxy_ids().len() == 0),
    {
        self.proxy_ids.len() == 0
    }

    /// The rotator in short: how many proxies it has, where its counter
    /// stands and which strategy it follows. The proxies are not named.
    pub fn debug_string(&self) -> (r: String)
        ensures
            exists|counter: usize|
                r@ == #[trigger] rotator_text(
                    self.proxy_ids().len() as usize,
                    counter,
                    self.strategy(),
                ),
    {
        let counter = self.current_ticket();
        let r = describe_rotator(self.proxy_ids.len(), counter, self.strategy);
        assert(r@ == rotator_text(self.proxy_ids().len() as usize, counter, self.strategy()));
        r
    }
}

/// Among `n` proxies the ticket `first + j` selects the position `at` for
/// exactly one `j` below `n`.
proof fn lemma_one_hit_per_round(first: nat, n: nat, at: nat, j: nat)
    requires
        n > 0,
        at < n,
        j < n,
    ensures
        slot(first + j, n) == at <==> j == slot((at + n - slot(first, n)) as nat, n),
        slot(first, n) < n,
        slot((at + n - slot(first, n)) as nat, n) < n,
{
    let r = first % n;
    let q = first / n;
    lemma_fundamental_div_mod(first as int, n as int);
    assert(0 <= r < n) by (nonlinear_arith)
        requires
            n > 0,
            r == first % n,
    ;
    assert((first + j) as int == (n * q + (r + j)) as int);
    lemma_mod_multiples_vanish(q as int, (r + j) as int, n as int);
    assert((first + j) % n == (r + j) % n);
    if r + j < n {
        lemma_small_mod(r + j, n);
    } else {
        lemma_mod_sub_multiples_vanish((r + j) as int, n as int);
        lemma_small_mod((r + j - n) as nat, n);
    }
    let x = (at + n - r) as nat;
    if x < n {
        lemma_small_mod(x, n);
    } else {
        lemma_mod_sub_multiples_vanish(x as int, n as int);
        lemma_small_mod((x - n) as nat, n);
    }
}

/// Within one round the count of a position goes from zero to one at the
/// ticket that selects it.
proof fn lemma_partial_round(first: nat, count: nat, n: nat, at: nat)
    requires
        n > 0,
        at < n,
        count <= n,
    ensures
        times_selected(first, count, n, at) == if slot((at + n - slot(first, n)) as nat, n)
            < count {
            1nat
        } else {
            0nat
        },
    decreases count,
{
    if count > 0 {
        lemma_partial_round(first, (count - 1) as nat, n, at);
        lemma_one_hit_per_round(first, n, at, (count - 1) as nat);
    }
}

/// The tickets of two runs in a row select a position as often as the two
/// runs together.
pub proof fn lemma_times_selected_split(first: nat, c1: nat, c2: nat, n: nat, at: nat)
    ensures
        times_selected(first, c1 + c2, n, at) == times_selected(first, c1, n, at) + times_selected(
            first + c1,
            c2,
            n,
            at,
        ),
    decreases c2,
{
    if c2 > 0 {
        lemma_times_selected_split(first, c1, (c2 - 1) as nat, n, at);
        assert((c1 + c2 - 1) as nat == c1 + (c2 - 1) as nat);
        assert((first + (c1 + c2) - 1) as nat == ((first + c1) + c2 - 1) as nat);
    }
}

/// Round-robin is fair: `k` times `n` tickets in a row, whichever the first,
/// select each of `n` proxies exactly `k` times.
pub proof fn lemma_round_robin_is_fair(first: nat, k: nat, n: nat, at: nat)
    requires
        n > 0,
        at < n,
    ensures
        times_selected(first, k * n, n, at) == k,
    decreases k,
{
    if k == 0 {
        assert(k * n == 0) by (nonlinear_arith)
            requires
                k == 0,
        ;
    } else {
        let before = ((k - 1) * n) as nat;
        assert(k * n == (k - 1) * n + n) by (nonlinear_arith);
        assert((k - 1) * n >= 0) by (nonlinear_arith)
            requires
                k >= 1,
                n > 0,
        ;
        lemma_round_robin_is_fair(first, (k - 1) as nat, n, at);
        lemma_times_selected_split(first, before, n, n, at);
        lemma_partial_round(first + before, n, n, at);
        lemma_one_hit_per_round(first + before, n, at, 0);
    }
}

/// Round-robin goes round: the ticket `n` after a ticket selects the same
/// position, the ticket after a ticket selects the next position, and after
/// the last position the first.
pub proof fn lemma_rotation_goes_round(ticket: nat, n: nat)
    requires
        n > 0,
    ensures
        slot(ticket, n) < n,
        slot(ticket + n, n) == slot(ticket, n),
        slot(ticket + 1, n) == if slot(ticket, n) + 1 == n {
            0
        } else {
            slot(ticket, n) + 1
        },
{
    let at = slot(ticket, n);
    lemma_one_hit_per_round(ticket, n, 0, 0);
    assert(at < n);
    vstd::arithmetic::div_mod::lemma_mod_add_multiples_vanish(ticket as int, n as int);
    assert(n + ticket == ticket + n);
    if n == 1 {
        lemma_one_hit_per_round(ticket + 1, n, 0, 0);
    } else {
        let succ: nat = if at + 1 == n {
            0
        } else {
            at + 1
        };
        lemma_one_hit_per_round(ticket, n, succ, 1);
        let x = (succ + n - at) as nat;
        if x < n {
            lemma_small_mod(x, n);
        } else {
            lemma_mod_sub_multiples_vanish(x as int, n as int);
            lemma_small_mod((x - n) as nat, n);
        }
    }
}

/// From a fresh counter the first round hands out the proxies in the order
/// in which they were given, and every later round repeats it: the proxies
/// of any `n` tickets in a row are the given ones, shifted cyclically by the
/// position of the first ticket.
pub proof fn lemma_rotation_is_cyclic_shift(ids: Seq<String>, first: nat)
    requires
        ids.len() > 0,
    ensures
        slot(first, ids.len()) < ids.len(),
        rotation(ids, first, ids.len()) == ids.subrange(slot(first, ids.len()) as int, ids.len() as int)
            + ids.subrange(0, slot(first, ids.len()) as int),
        rotation(ids, 0, ids.len()) == ids,
        rotation(ids, first + ids.len(), ids.len()) == rotation(ids, first, ids.len()),
{
    let n = ids.len();
    let r = slot(first, n);
    lemma_rotation_goes_round(first, n);
    let shifted = ids.subrange(r as int, n as int) + ids.subrange(0, r as int);
    assert forall|j: int| 0 <= j < n implies #[trigger] rotation(ids, first, n)[j] == shifted[j] by {
        lemma_slot_of_later_ticket(first, n, j as nat);
    }
    assert(rotation(ids, first, n) =~= shifted);
    lemma_small_mod(0, n);
    assert forall|j: int| 0 <= j < n implies #[trigger] rotation(ids, 0, n)[j] == ids[j] by {
        lemma_small_mod(j as nat, n);
    }
    assert(rotation(ids, 0, n) =~= ids);
    assert forall|j: int| 0 <= j < n implies #[trigger] rotation(ids, first + n, n)[j] == rotation(
        ids,
        first,
        n,
    )[j] by {
        lemma_rotation_goes_round((first + j) as nat, n);
        assert((first + n + j) as nat == ((first + j) as nat + n) as nat);
    }
    assert(rotation(ids, first + n, n) =~= rotation(ids, first, n));
}

/// The ticket `j` after a ticket, for `j` below `n`, selects the position
/// `j` after that ticket's, counted round.
proof fn lemma_slot_of_later_ticket(first: nat, n: nat, j: nat)
    requires
        n > 0,
        j < n,
    ensures
        slot(first, n) < n,
        slot(first + j, n) == if slot(first, n) + j < n {
            slot(first, n) + j
        } else {
            (slot(first, n) + j - n) as nat
        },
{
    let r = slot(first, n);
    lemma_one_hit_per_round(first, n, 0, 0);
    let at: nat = if r + j < n {
        r + j
    } else {
        (r + j - n) as nat
    };
    lemma_one_hit_per_round(first, n, at, j);
    let x = (at + n - r) as nat;
    if x < n {
        lemma_small_mod(x, n);
    } else {
        lemma_mod_sub_multiples_vanish(x as int, n as int);
        lemma_small_mod((x - n) as nat, n);
    }
}

} // verus!
