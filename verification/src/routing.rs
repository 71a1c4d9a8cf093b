//! Round-robin failover over the providers: which provider an attempt goes
//! to, how failures are recorded, and what the loop guarantees.

use vstd::prelude::*;

verus! {

/// The round-robin counter after one `fetch_add(1)`: it wraps at `usize::MAX`.
pub open spec fn next_counter(counter: usize) -> usize {
    if counter == usize::MAX {
        0
    } else {
        (counter + 1) as usize
    }
}

/// The provider that the counter designates among `n` providers.
pub open spec fn designated(counter: usize, n: nat) -> int {
    counter as int % n as int
}

/// The provider that the counter designates `offset` steps further on.
pub open spec fn designated_at(counter: usize, offset: nat, n: nat) -> int {
    designated((counter + offset) as usize, n)
}

/// Some counter among the `n` from `counter` on designates provider `p`.
pub open spec fn reached_within(counter: usize, n: nat, p: nat) -> bool {
    exists|j: nat| j < n && designated_at(counter, j, n) == p
}

/// One search of the failover loop for a provider to send to.
///
/// From the counter `counter` and the attempt number `attempt` (of `n`), providers
/// other than the `known` one are skipped, each skip using one attempt and
/// advancing the counter. The result is the counter and attempt number where
/// the search stopped and the provider found, or `None` once all `n` attempts
/// are used.
pub open spec fn skip_to_candidate(
    counter: usize,
    attempt: nat,
    n: nat,
    known: Option<usize>,
) -> (usize, nat, Option<usize>)
    decreases n - attempt,
{
    if attempt >= n {
        (counter, attempt, None)
    } else if known is Some && designated(counter, n) != known->0 as int {
        skip_to_candidate(next_counter(counter), attempt + 1, n, known)
    } else {
        (counter, attempt, Some(designated(counter, n) as usize))
    }
}

/// Two counters less than `n` apart designate different providers.
pub proof fn lemma_designations_differ(x: int, t: int, n: int)
    requires
        0 < n,
        0 < t < n,
    ensures
        (x + t) % n != x % n,
{
    vstd::arithmetic::div_mod::lemma_mod_equivalence(x + t, x, n);
    vstd::arithmetic::div_mod::lemma_small_mod(t as nat, n as nat);
}

/// Some counter among `x, x + 1, ..., x + n - 1` designates provider `p`.
pub proof fn lemma_designation_reached(x: int, n: int, p: int) -> (j: int)
    requires
        0 < n,
        0 <= x,
        0 <= p < n,
    ensures
        0 <= j < n,
        (x + j) % n == p,
{
    let r = x % n;
    let j = if p >= r { p - r } else { p - r + n };
    vstd::arithmetic::div_mod::lemma_add_mod_noop(x, j, n);
    vstd::arithmetic::div_mod::lemma_small_mod(j as nat, n as nat);
    vstd::arithmetic::div_mod::lemma_mod_twice(x, n);
    if p >= r {
        assert(r + j == p);
        vstd::arithmetic::div_mod::lemma_small_mod(p as nat, n as nat);
    } else {
        assert(r + j == p + n);
        vstd::arithmetic::div_mod::lemma_mod_add_multiples_vanish(p, n);
        vstd::arithmetic::div_mod::lemma_small_mod(p as nat, n as nat);
    }
    j
}

proof fn lemma_search_finds(counter: usize, attempt: nat, n: nat, k: usize, j: nat)
    requires
        attempt + j < n,
        counter + j <= usize::MAX,
        designated_at(counter, j, n) == k,
        forall|i: nat| i < j ==> designated_at(counter, i, n) != k,
    ensures
        skip_to_candidate(counter, attempt, n, Some(k)) == ((counter + j) as usize, attempt + j, Some(
            k,
        )),
    decreases j,
{
    if j > 0 {
        assert(designated_at(counter, 0nat, n) != k);
        assert(counter != usize::MAX);
        assert forall|i: nat| i < (j - 1) as nat implies designated_at(next_counter(counter), i, n) != k by {
            assert(designated_at(counter, (i + 1) as nat, n) != k);
        }
        lemma_search_finds(next_counter(counter), attempt + 1, n, k, (j - 1) as nat);
    }
}

proof fn lemma_search_exhausts(counter: usize, attempt: nat, n: nat, k: usize)
    requires
        attempt <= n,
        counter + (n - attempt) <= usize::MAX,
        forall|i: nat| i < n - attempt ==> designated_at(counter, i, n) != k,
    ensures
        skip_to_candidate(counter, attempt, n, Some(k)).2 is None,
    decreases n - attempt,
{
    if attempt < n {
        assert(designated_at(counter, 0nat, n) != k);
        assert forall|i: nat| i < n - (attempt + 1) implies designated_at(next_counter(counter), i, n) != k by {
            assert(designated_at(counter, (i + 1) as nat, n) != k);
        }
        lemma_search_exhausts(next_counter(counter), attempt + 1, n, k);
    }
}

/// A request for a model whose provider `k` is known reaches `k` exactly once.
///
/// Whatever the round-robin counter stands at (short of wrapping around), the
/// first search of a fresh request stops at `k` with attempts to spare, and after
/// `k` has failed (the counter advances and one attempt is used)
/// the next search gives up: no other provider is ever sent the request.
pub proof fn law_known_provider_tried_once(counter: usize, n: nat, k: usize)
    requires
        0 < n,
        k < n,
        counter + n <= usize::MAX,
    ensures
        ({
            let (c1, a1, found) = skip_to_candidate(counter, 0, n, Some(k));
            &&& found == Some(k)
            &&& a1 < n
            &&& designated(c1, n) == k
            &&& skip_to_candidate(next_counter(c1), a1 + 1, n, Some(k)).2 is None
        }),
{
    let j = lemma_designation_reached(counter as int, n as int, k as int);
    assert forall|i: nat| i < j implies designated_at(counter, i, n) != k by {
        lemma_designations_differ(counter + i, j - i, n as int);
    }
    lemma_search_finds(counter, 0, n, k, j as nat);
    let c1 = (counter + j) as usize;
    assert(next_counter(c1) == c1 + 1);
    assert forall|i: nat| i < n - (j + 1) implies designated_at(next_counter(c1), i, n)
        != k by {
        lemma_designations_differ(c1 as int, (i + 1) as int, n as int);
    }
    lemma_search_exhausts(next_counter(c1), (j + 1) as nat, n, k);
}

/// A request for a model with no known provider, whose attempts all fail, is sent to providers `counter mod n`, `counter + 1 mod n`, ... in
/// turn: the `j`-th search stops at once at provider `(counter + j) mod n`,
/// these `n` providers are all different and include every provider, and the
/// search after the `n`-th failure gives up.
pub proof fn law_round_robin_tries_every_provider_once(counter: usize, n: nat)
    requires
        0 < n,
        counter + n <= usize::MAX,
    ensures
        forall|j: nat| j < n ==> #[trigger] skip_to_candidate((counter + j) as usize, j, n, None)
            == ((counter + j) as usize, j, Some(designated_at(counter, j, n) as usize)),
        skip_to_candidate((counter + n) as usize, n, n, None).2 is None,
        forall|i: nat, j: nat|
            i < j < n ==> designated_at(counter, i, n) != designated_at(counter, j, n),
        forall|p: nat|
            p < n ==> #[trigger] reached_within(counter, n, p),
{
    assert forall|i: nat, j: nat| i < j < n implies designated_at(counter, i, n)
        != designated_at(counter, j, n) by {
        lemma_designations_differ(counter + i, j - i, n as int);
    }
    assert forall|p: nat| p < n implies #[trigger] reached_within(counter, n, p) by {
        let j = lemma_designation_reached(counter as int, n as int, p as int);
        assert(designated_at(counter, j as nat, n) == p);
    }
}

/// Round-robin across requests: after a request for a model with no known
/// provider is answered by the provider the counter designates (the counter
/// then moves on), the next such request starts at the next provider.
pub proof fn law_round_robin_across_requests(counter: usize, n: nat)
    requires
        0 < n,
        counter < usize::MAX,
    ensures
        skip_to_candidate(counter, 0, n, None).2 == Some(designated(counter, n) as usize),
        skip_to_candidate(next_counter(counter), 0, n, None).2 == Some(
            ((counter + 1) % (n as int)) as usize,
        ),
        designated(next_counter(counter), n) == (designated(counter, n) + 1) % (n as int),
{
    vstd::arithmetic::div_mod::lemma_add_mod_noop(counter as int, 1, n as int);
    vstd::arithmetic::div_mod::lemma_mod_twice(counter as int, n as int);
    vstd::arithmetic::div_mod::lemma_mod_bound(counter as int + 1, n as int);
    if n > 1 {
        vstd::arithmetic::div_mod::lemma_small_mod(1, n);
    } else {
        vstd::arithmetic::div_mod::lemma_mod_bound(counter as int, 1);
        vstd::arithmetic::div_mod::lemma_mod_bound(designated(counter, n) + 1, 1);
    }
}

} // verus!

verus! {

/// Where the failover loop of one request stands.
#[derive(Debug, PartialEq)]
pub struct Failover {
    /// Attempts used so far (each skip or failure uses one).
    pub attempt: usize,
    /// How many attempts the request has: one per provider.
    pub num_providers: usize,
    /// The provider that lists the requested model, when the table knows one.
    pub known_provider: Option<usize>,
    /// What went wrong at the last failed attempt.
    pub last_error: Option<String>,
}

/// What the failover loop does next.
#[derive(Debug, PartialEq)]
pub enum FailoverStep {
    /// Send the request to this provider.
    Send(usize),
    /// Every attempt is used: answer with this error.
    GiveUp(String),
}

/// The error that ends a request whose attempts are all used.
pub open spec fn give_up_text(last_error: Option<Seq<char>>) -> Seq<char> {
    "All providers failed. Last error: "@ + match last_error {
        Some(e) => e,
        None => "Unknown error"@,
    }
}

impl Failover {
    /// A fresh loop over `num_providers` attempts.
    pub fn new(num_providers: usize, known_provider: Option<usize>) -> (f: Failover)
        ensures
            f.attempt == 0,
            f.num_providers == num_providers,
            f.known_provider == known_provider,
            f.last_error is None,
    {
        Failover { attempt: 0, num_providers, known_provider, last_error: None }
    }

    pub open spec fn last_error_text(self) -> Option<Seq<char>> {
        match self.last_error {
            Some(e) => Some(e@),
            None => None,
        }
    }

    /// The error answer once every attempt is used.
    pub fn give_up_message(&self) -> (m: String)
        ensures
            m@ == give_up_text(self.last_error_text()),
    {
        let mut m = String::new();
        m.append("All providers failed. Last error: ");
        match &self.last_error {
            Some(e) => m.append(e.as_str()),
            None => m.append("Unknown error"),
        }
        m
    }
}

/// The failure text for a provider that answered with an error status.
pub fn status_failure_message(provider: usize, status: &str, body: &str) -> (m: String)
    ensures
        m@ == "Provider "@ + crate::text::decimal(provider as nat) + " returned status "@ + status@
            + ": "@ + body@,
{
    let mut m = String::new();
    m.append("Provider ");
    crate::text::push_decimal(&mut m, provider);
    m.append(" returned status ");
    m.append(status);
    m.append(": ");
    m.append(body);
    m
}

/// The failure text for a provider that could not be reached.
pub fn request_failure_message(provider: usize, detail: &str) -> (m: String)
    ensures
        m@ == "Request to provider "@ + crate::text::decimal(provider as nat) + " failed: "@
            + detail@,
{
    let mut m = String::new();
    m.append("Request to provider ");
    crate::text::push_decimal(&mut m, provider);
    m.append(" failed: ");
    m.append(detail);
    m
}

/// The failure text for a provider whose answer body could not be read.
pub fn unreadable_body_message(provider: usize, detail: &str) -> (m: String)
    ensures
        m@ == "Failed to read response body from provider "@ + crate::text::decimal(
            provider as nat,
        ) + ": "@ + detail@,
{
    let mut m = String::new();
    m.append("Failed to read response body from provider ");
    crate::text::push_decimal(&mut m, provider);
    m.append(": ");
    m.append(detail);
    m
}

/// The failure text for a provider answer that is not a chat completion.
pub fn unparsable_answer_message(detail: &str) -> (m: String)
    ensures
        m@ == "Failed to parse provider response: "@ + detail@,
{
    let mut m = String::new();
    m.append("Failed to parse provider response: ");
    m.append(detail);
    m
}

/// The failure text for a provider index that names no provider.
pub fn missing_provider_message(provider: usize) -> (m: String)
    ensures
        m@ == "Provider "@ + crate::text::decimal(provider as nat) + " not found"@,
{
    let mut m = String::new();
    m.append("Provider ");
    crate::text::push_decimal(&mut m, provider);
    m.append(" not found");
    m
}

} // verus!
