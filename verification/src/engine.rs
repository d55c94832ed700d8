//! Policies, perils and the claims a simulated year brings.
//!
//! Which perils strike which policy is decided here, by one random draw per
//! policy and peril; the money a year earns and loses is added up by the
//! front end, in floating point.

use vstd::prelude::*;
use rand::rngs::StdRng;
use rand::Rng;

verus! {

#[verifier::external_type_specification]
#[verifier::external_body]
pub struct ExStdRng(StdRng);

/// One loss peril of a scenario. Rates are exact decimals in basis points
/// (hundredths of a percent): a frequency of 200 is a 2% chance per year, a
/// severity of 4000 is a loss of 40% of the property's value.
#[derive(Clone, Debug)]
pub struct Peril {
    pub name: String,
    pub frequency_bp: u32,
    pub severity_bp: u32,
}

/// One insured property. The value is in cents.
#[derive(Clone, Debug)]
pub struct Policy {
    pub id: u32,
    pub property_value_cents: u64,
    pub perils: Vec<Peril>,
}

/// A claim on a policy when one of its perils strikes. The amount is exact,
/// in millionths of a dollar: a value in cents times a severity in basis
/// points.
#[derive(Clone, Debug)]
pub struct Claim {
    pub policy_id: u32,
    pub peril: String,
    pub amount_micros: u128,
}

/// The number of basis points in a whole: draws are taken below it.
pub const BASIS: u32 = 10000;

impl Peril {
    /// A copy of this peril.
    pub fn duplicate(&self) -> (p: Peril)
        ensures
            p == *self,
    {
        Peril { name: self.name.clone(), frequency_bp: self.frequency_bp, severity_bp: self.severity_bp }
    }
}

/// A copy of a list of perils.
pub fn copy_perils(perils: &Vec<Peril>) -> (v: Vec<Peril>)
    ensures
        v@ == perils@,
{
    let mut v: Vec<Peril> = Vec::new();
    let n = perils.len();
    let mut i: usize = 0;
    while i < n
        invariant
            n == perils@.len(),
            i <= n,
            v@ == perils@.take(i as int),
        decreases n - i,
    {
        v.push(perils[i].duplicate());
        assert(v@ =~= perils@.take(i + 1));
        i = i + 1;
    }
    assert(perils@.take(n as int) =~= perils@);
    v
}

/// The loss when `peril` strikes a property worth `value_cents`: the
/// peril's share of the value, exactly, in millionths of a dollar.
pub open spec fn loss_micros(value_cents: u64, peril: Peril) -> int {
    value_cents * peril.severity_bp
}

/// The loss of `peril` on a property worth `value_cents`, in millionths of
/// a dollar.
fn loss_of(value_cents: u64, peril: &Peril) -> (r: u128)
    ensures
        r == loss_micros(value_cents, *peril),
{
    let value = value_cents as u128;
    let severity = peril.severity_bp as u128;
    assert(value * severity <= 18446744073709551615u128 * 4294967295u128) by (nonlinear_arith)
        requires
            value <= 18446744073709551615u128,
            severity <= 4294967295u128,
    ;
    value * severity
}

/// The claims that the first `k` perils of `policy` bring, given one draw
/// per peril: a peril strikes when its draw is below its frequency.
pub open spec fn policy_claims(policy: Policy, draws: Seq<u32>, k: int) -> Seq<Claim>
    decreases k,
{
    if k <= 0 {
        Seq::empty()
    } else {
        let peril = policy.perils@[k - 1];
        let earlier = policy_claims(policy, draws, k - 1);
        if draws[k - 1] < peril.frequency_bp {
            earlier.push(
                Claim {
                    policy_id: policy.id,
                    peril: peril.name,
                    amount_micros: loss_micros(policy.property_value_cents, peril) as u128,
                },
            )
        } else {
            earlier
        }
    }
}

/// The number of draws the first `i` policies take: one per peril.
pub open spec fn draw_count(policies: Seq<Policy>, i: int) -> nat
    decreases i,
{
    if i <= 0 {
        0
    } else {
        draw_count(policies, i - 1) + policies[i - 1].perils@.len()
    }
}

/// The number of draws a whole book takes.
pub open spec fn book_draw_count(policies: Seq<Policy>) -> nat {
    draw_count(policies, policies.len() as int)
}

/// The claims that the first `i` policies bring, in order of policy and
/// then of peril, given the draws of all their perils in that order.
pub open spec fn year_claims(policies: Seq<Policy>, draws: Seq<u32>, i: int) -> Seq<Claim>
    decreases i,
{
    if i <= 0 {
        Seq::empty()
    } else {
        let p = policies[i - 1];
        year_claims(policies, draws, i - 1) + policy_claims(
            p,
            draws.skip(draw_count(policies, i - 1) as int),
            p.perils@.len() as int,
        )
    }
}

/// The claims of a whole book, given the draws of all its perils.
pub open spec fn book_claims(policies: Seq<Policy>, draws: Seq<u32>) -> Seq<Claim> {
    year_claims(policies, draws, policies.len() as int)
}

/// Whether every draw is below the basis.
pub open spec fn valid_draws(draws: Seq<u32>) -> bool {
    forall|j: int| 0 <= j < draws.len() ==> #[trigger] draws[j] < BASIS
}

/// rand's `Rng::gen_range` on the range `0..bound`: a number drawn
/// uniformly from that range. The range is not empty, so the call does not
/// panic. Which number comes out is left open: it is random.
#[verifier::external_body]
fn draw_below(rng: &mut StdRng, bound: u32) -> (r: u32)
    requires
        bound > 0,
    ensures
        r < bound,
{
    rng.gen_range(0..bound)
}

proof fn lemma_draw_count_monotone(policies: Seq<Policy>, i: int, j: int)
    requires
        0 <= i <= j <= policies.len(),
    ensures
        draw_count(policies, i) <= draw_count(policies, j),
    decreases j - i,
{
    if i < j {
        lemma_draw_count_monotone(policies, i, j - 1);
    }
}

/// The claims a book brings for given draws, one per policy and peril in
/// order of policy and then of peril: each peril strikes when its draw is
/// below its frequency, bringing a claim of the peril's share of the
/// property's value.
pub fn claims_for_draws(policies: &Vec<Policy>, draws: &Vec<u32>) -> (claims: Vec<Claim>)
    requires
        draws@.len() == book_draw_count(policies@),
    ensures
        claims@ == book_claims(policies@, draws@),
{
    let mut claims: Vec<Claim> = Vec::new();
    let n = policies.len();
    let mut i: usize = 0;
    let mut pos: usize = 0;
    let total = draws.len();
    while i < n
        invariant
            n == policies@.len(),
            total == draws@.len(),
            i <= n,
            draws@.len() == draw_count(policies@, n as int),
            pos == draw_count(policies@, i as int),
            claims@ == year_claims(policies@, draws@, i as int),
        decreases n - i,
    {
        let policy = &policies[i];
        let m = policy.perils.len();
        let ghost before = claims@;
        proof {
            lemma_draw_count_monotone(policies@, i + 1, n as int);
        }
        let mut k: usize = 0;
        while k < m
            invariant
                n == policies@.len(),
                i < n,
                *policy == policies@[i as int],
                m == policy.perils@.len(),
                k <= m,
                draws@.len() == draw_count(policies@, n as int),
                pos == draw_count(policies@, i as int),
                total == draws@.len(),
                pos + m <= total,
                claims@ == before + policy_claims(*policy, draws@.skip(pos as int), k as int),
            decreases m - k,
        {
            let peril = &policy.perils[k];
            let d = draws[pos + k];
            assert(draws@.skip(pos as int)[k as int] == d);
            if d < peril.frequency_bp {
                let amount = loss_of(policy.property_value_cents, peril);
                claims.push(Claim { policy_id: policy.id, peril: peril.name.clone(), amount_micros: amount });
            }
            assert(claims@ =~= before + policy_claims(*policy, draws@.skip(pos as int), k + 1));
            k = k + 1;
        }
        pos = pos + m;
        i = i + 1;
    }
    claims
}

/// The claims of one simulated year: one draw below [`BASIS`] is taken from
/// `rng` for each policy and peril in turn, and the claims are those of
/// [`claims_for_draws`] for the draws that rand made, whatever they were.
pub fn simulate_claims(policies: &Vec<Policy>, rng: &mut StdRng) -> (claims: Vec<Claim>)
    ensures
        exists|draws: Seq<u32>|
            draws.len() == book_draw_count(policies@) && valid_draws(draws) && claims@ == book_claims(
                policies@,
                draws,
            ),
{
    let mut draws: Vec<u32> = Vec::new();
    let n = policies.len();
    let mut i: usize = 0;
    while i < n
        invariant
            n == policies@.len(),
            i <= n,
            draws@.len() == draw_count(policies@, i as int),
            valid_draws(draws@),
        decreases n - i,
    {
        let m = policies[i].perils.len();
        let mut k: usize = 0;
        while k < m
            invariant
                n == policies@.len(),
                i < n,
                m == policies@[i as int].perils@.len(),
                k <= m,
                draws@.len() == draw_count(policies@, i as int) + k,
                valid_draws(draws@),
            decreases m - k,
        {
            let d = draw_below(rng, BASIS);
            draws.push(d);
            k = k + 1;
        }
        i = i + 1;
    }
    claims_for_draws(policies, &draws)
}

proof fn lemma_policy_claims_len(policy: Policy, draws: Seq<u32>, k: int)
    requires
        0 <= k,
    ensures
        policy_claims(policy, draws, k).len() <= k,
    decreases k,
{
    if k > 0 {
        lemma_policy_claims_len(policy, draws, k - 1);
    }
}

/// A simulated year brings at most one claim per policy and peril.
pub proof fn lemma_at_most_one_claim_per_draw(policies: Seq<Policy>, draws: Seq<u32>, i: int)
    requires
        0 <= i <= policies.len(),
    ensures
        year_claims(policies, draws, i).len() <= draw_count(policies, i),
    decreases i,
{
    if i > 0 {
        lemma_at_most_one_claim_per_draw(policies, draws, i - 1);
        let p = policies[i - 1];
        lemma_policy_claims_len(p, draws.skip(draw_count(policies, i - 1) as int), p.perils@.len() as int);
    }
}

proof fn lemma_policy_claims_extremes(p: Policy, d: Seq<u32>, k: int)
    requires
        0 <= k <= p.perils@.len(),
        k <= d.len(),
        forall|j: int| 0 <= j < k ==> #[trigger] d[j] < BASIS,
    ensures
        (forall|j: int| 0 <= j < k ==> #[trigger] p.perils@[j].frequency_bp == 0) ==> policy_claims(p, d, k).len()
            == 0,
        (forall|j: int| 0 <= j < k ==> #[trigger] p.perils@[j].frequency_bp >= BASIS) ==> policy_claims(
            p,
            d,
            k,
        ).len() == k,
    decreases k,
{
    if k > 0 {
        lemma_policy_claims_extremes(p, d, k - 1);
        assert(d[k - 1] < BASIS);
    }
}

/// Whether every peril of every policy of `policies` has frequency `f`.
pub open spec fn all_frequencies(policies: Seq<Policy>, f: u32) -> bool {
    forall|i: int, k: int|
        0 <= i < policies.len() && 0 <= k < policies[i].perils@.len() ==> #[trigger] policies[i].perils@[k].frequency_bp
            == f
}

/// A peril that never happens (frequency 0) never strikes, and a certain one
/// (frequency of a whole, 10000 basis points) always strikes: a book whose
/// perils are all impossible has no claims, and one whose perils are all
/// certain has a claim for every policy and peril, whatever the draws.
pub proof fn lemma_impossible_and_certain_perils(policies: Seq<Policy>, draws: Seq<u32>, i: int)
    requires
        0 <= i <= policies.len(),
        valid_draws(draws),
        draws.len() == book_draw_count(policies),
    ensures
        all_frequencies(policies, 0) ==> year_claims(policies, draws, i).len() == 0,
        all_frequencies(policies, BASIS) ==> year_claims(policies, draws, i).len() == draw_count(policies, i),
    decreases i,
{
    if i > 0 {
        lemma_impossible_and_certain_perils(policies, draws, i - 1);
        let p = policies[i - 1];
        let c = draw_count(policies, i - 1) as int;
        let d = draws.skip(c);
        let len = p.perils@.len() as int;
        lemma_draw_count_monotone(policies, i, policies.len() as int);
        assert forall|j: int| 0 <= j < len implies #[trigger] d[j] < BASIS by {
            assert(d[j] == draws[c + j]);
        }
        if all_frequencies(policies, 0) {
            assert forall|j: int| 0 <= j < len implies #[trigger] p.perils@[j].frequency_bp == 0 by {
                assert(policies[i - 1].perils@[j].frequency_bp == 0);
            }
        }
        if all_frequencies(policies, BASIS) {
            assert forall|j: int| 0 <= j < len implies #[trigger] p.perils@[j].frequency_bp >= BASIS by {
                assert(policies[i - 1].perils@[j].frequency_bp == BASIS);
            }
        }
        lemma_policy_claims_extremes(p, d, len);
    }
}

/// Whether `c` is the claim that one of `p`'s perils brings when it
/// strikes.
pub open spec fn is_claim_of(p: Policy, c: Claim) -> bool {
    exists|k: int|
        0 <= k < p.perils@.len() && c == (Claim {
            policy_id: p.id,
            peril: p.perils@[k].name,
            amount_micros: loss_micros(p.property_value_cents, #[trigger] p.perils@[k]) as u128,
        })
}

proof fn lemma_policy_claims_belong(p: Policy, draws: Seq<u32>, k: int)
    requires
        0 <= k <= p.perils@.len(),
    ensures
        forall|n: int| 0 <= n < policy_claims(p, draws, k).len() ==> is_claim_of(p, #[trigger] policy_claims(p, draws, k)[n]),
    decreases k,
{
    if k > 0 {
        lemma_policy_claims_belong(p, draws, k - 1);
        let earlier = policy_claims(p, draws, k - 1);
        let now = policy_claims(p, draws, k);
        assert forall|n: int| 0 <= n < now.len() implies is_claim_of(p, #[trigger] now[n]) by {
            if n < earlier.len() {
                assert(now[n] == earlier[n]);
            } else {
                let peril = p.perils@[k - 1];
                assert(now[n] == (Claim {
                    policy_id: p.id,
                    peril: peril.name,
                    amount_micros: loss_micros(p.property_value_cents, peril) as u128,
                }));
            }
        }
    }
}

/// Every claim of a simulated year is the claim of one of the book's
/// policies for one of its perils: that peril's share of the policy's
/// property value.
pub proof fn lemma_claims_belong_to_the_book(policies: Seq<Policy>, draws: Seq<u32>, i: int)
    requires
        0 <= i <= policies.len(),
    ensures
        forall|n: int|
            #![trigger year_claims(policies, draws, i)[n]]
            0 <= n < year_claims(policies, draws, i).len() ==> exists|j: int|
                0 <= j < i && is_claim_of(#[trigger] policies[j], year_claims(policies, draws, i)[n]),
    decreases i,
{
    if i > 0 {
        lemma_claims_belong_to_the_book(policies, draws, i - 1);
        let p = policies[i - 1];
        let d = draws.skip(draw_count(policies, i - 1) as int);
        let len = p.perils@.len() as int;
        lemma_policy_claims_belong(p, d, len);
        let earlier = year_claims(policies, draws, i - 1);
        let now = year_claims(policies, draws, i);
        assert forall|n: int| #![trigger now[n]] 0 <= n < now.len() implies exists|j: int|
            0 <= j < i && is_claim_of(#[trigger] policies[j], now[n]) by {
            if n < earlier.len() {
                assert(now[n] == earlier[n]);
                let j = choose|j: int| 0 <= j < i - 1 && is_claim_of(#[trigger] policies[j], earlier[n]);
                assert(is_claim_of(policies[j], now[n]));
            } else {
                assert(now[n] == policy_claims(p, d, len)[n - earlier.len()]);
                assert(is_claim_of(policies[i - 1], now[n]));
            }
        }
    }
}

} // verus!
