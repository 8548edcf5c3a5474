use vstd::prelude::*;

verus! {

/// One percentage allocation inside a portfolio: the identifier of an asset
/// and the share of the portfolio assigned to it.
#[derive(Clone, Copy, Debug, PartialEq, Eq, Structural)]
pub struct TokenAllocation {
    /// Derived identifier of the allocated asset.
    pub mint: u64,
    /// Percentage of the portfolio assigned to the asset.
    pub weight: u8,
}

/// The portfolio one participant submitted for one tournament. Its identity
/// is derived from both addresses, so a second registration by the same
/// participant is structurally impossible. Created once, immutable
/// thereafter.
#[derive(Clone, Debug)]
pub struct UserPortfolio {
    /// Address of the participant who submitted the portfolio.
    pub user: u64,
    /// Derived address of the tournament the portfolio belongs to.
    pub tournament: u64,
    /// Ordered asset allocations; the weights sum to exactly 100.
    pub weights: Vec<TokenAllocation>,
}

/// Total weight of an allocation sequence.
pub open spec fn weight_sum(s: Seq<TokenAllocation>) -> int
    decreases s.len(),
{
    if s.len() == 0 {
        0
    } else {
        weight_sum(s.drop_last()) + s.last().weight
    }
}

/// A portfolio is valid for a tournament when it holds at most
/// `max_tokens` allocations and its weights sum to exactly 100.
pub open spec fn valid_weights(s: Seq<TokenAllocation>, max_tokens: u8) -> bool {
    s.len() <= max_tokens && weight_sum(s) == 100
}

impl UserPortfolio {
    /// A stored portfolio record is well formed for the tournament's
    /// per-user asset bound when its weight allocation is valid.
    pub open spec fn wf(self, max_tokens: u8) -> bool {
        valid_weights(self.weights@, max_tokens)
    }
}

/// Extending an allocation sequence by one entry grows its total weight by
/// that entry's weight.
proof fn lemma_weight_sum_push(s: Seq<TokenAllocation>, i: int)
    requires
        0 <= i < s.len(),
    ensures
        weight_sum(s.take(i + 1)) == weight_sum(s.take(i)) + s[i].weight,
{
    let t = s.take(i + 1);
    assert(t.drop_last() =~= s.take(i));
    assert(t.last() == s[i]);
}

/// Sums the weights of a portfolio.
///
/// The bound on the length keeps the running total well under the machine
/// limit; callers enforce it through the tournament's per-user asset bound
/// before validating the sum.
pub fn total_weight(weights: &Vec<TokenAllocation>) -> (s: u64)
    requires
        weights@.len() <= u8::MAX,
    ensures
        s == weight_sum(weights@),
{
    let mut s: u64 = 0;
    let mut i: usize = 0;
    while i < weights.len()
        invariant
            weights@.len() <= u8::MAX,
            0 <= i <= weights@.len(),
            s == weight_sum(weights@.take(i as int)),
            s <= i * 255,
        decreases weights@.len() - i,
    {
        proof {
            lemma_weight_sum_push(weights@, i as int);
        }
        s = s + weights[i].weight as u64;
        i = i + 1;
    }
    proof {
        assert(weights@.take(weights@.len() as int) =~= weights@);
    }
    s
}

} // verus!
