use vstd::prelude::*;

use crate::types::{AccountId, Balance};

verus! {

/// What becomes of an amount handed to the block author.
#[derive(Clone, Copy, Debug, PartialEq, Eq)]
pub enum AuthorPayout {
    /// The amount was zero and was dropped without effect.
    Nothing,
    /// The amount is handed to the currency for the author's account; what the
    /// currency cannot deposit there (such as an amount below the existential
    /// deposit of an account that does not exist yet) is dropped, which burns it.
    Credit(AccountId, Balance),
    /// No author is known: the amount is dropped, which burns it.
    Burn(Balance),
}

/// How a block's fees and tips are settled: the treasury's share is dropped (burnt)
/// and the author's share is paid out.
#[derive(Clone, Copy, Debug, PartialEq, Eq)]
pub struct FeeSettlement {
    pub treasury_burn: Balance,
    pub author: AuthorPayout,
}

/// The saturating `u32` sum.
pub open spec fn sat_add_u32(a: u32, b: u32) -> u32 {
    if a + b > u32::MAX {
        u32::MAX
    } else {
        (a + b) as u32
    }
}

/// The saturating `u128` sum.
pub open spec fn sat_add(a: Balance, b: Balance) -> Balance {
    if a + b > u128::MAX {
        u128::MAX
    } else {
        (a + b) as u128
    }
}

/// The saturating `u128` product.
pub open spec fn sat_mul(a: Balance, b: Balance) -> Balance {
    if a * b > u128::MAX {
        u128::MAX
    } else {
        (a * b) as u128
    }
}

/// An imbalance's `ration(first, second)`: the first part is
/// `amount * first / (first + second)` (saturating, at most `amount`), the second
/// part is the rest; when both weights are zero both parts are zero.
pub open spec fn spec_ration(amount: Balance, first: u32, second: u32) -> (Balance, Balance) {
    let total = sat_add_u32(first, second);
    if total == 0 {
        (0, 0)
    } else {
        let share = sat_mul(amount, first as u128) / (total as u128);
        let taken = if share <= amount {
            share
        } else {
            amount
        };
        (taken, (amount - taken) as u128)
    }
}

/// Splits an amount in the ratio `first : second`, as an imbalance's `ration` does.
pub fn ration(amount: Balance, first: u32, second: u32) -> (parts: (Balance, Balance))
    ensures
        parts == spec_ration(amount, first, second),
{
    let total: u32 = first.saturating_add(second);
    if total == 0 {
        return (0, 0);
    }
    let weight: u128 = first as u128;
    let product: u128 = if weight == 0 {
        0
    } else if amount <= u128::MAX / weight {
        proof {
            vstd::arithmetic::div_mod::lemma_fundamental_div_mod(u128::MAX as int, weight as int);
            vstd::arithmetic::mul::lemma_mul_inequality(
                amount as int,
                (u128::MAX / weight) as int,
                weight as int,
            );
            vstd::arithmetic::mul::lemma_mul_is_commutative(
                weight as int,
                (u128::MAX / weight) as int,
            );
        }
        amount * weight
    } else {
        proof {
            vstd::arithmetic::div_mod::lemma_fundamental_div_mod(u128::MAX as int, weight as int);
            vstd::arithmetic::mul::lemma_mul_inequality(
                (u128::MAX / weight + 1) as int,
                amount as int,
                weight as int,
            );
            vstd::arithmetic::mul::lemma_mul_is_distributive_add_other_way(
                weight as int,
                (u128::MAX / weight) as int,
                1,
            );
            vstd::arithmetic::mul::lemma_mul_is_commutative(
                weight as int,
                (u128::MAX / weight) as int,
            );
        }
        u128::MAX
    };
    let share: u128 = product / (total as u128);
    let taken: u128 = if share <= amount {
        share
    } else {
        amount
    };
    (taken, amount - taken)
}

/// What `Author` does with an amount: a zero amount is dropped, any other is
/// handed to [`Author::on_nonzero_unbalanced`].
pub open spec fn spec_author_on_unbalanced(author: Option<AccountId>, amount: Balance) -> AuthorPayout {
    if amount == 0 {
        AuthorPayout::Nothing
    } else {
        spec_author_on_nonzero(author, amount)
    }
}

/// What `Author` does with a non-zero amount: the block author gets it; with no
/// author it is dropped.
pub open spec fn spec_author_on_nonzero(author: Option<AccountId>, amount: Balance) -> AuthorPayout {
    match author {
        Some(who) => AuthorPayout::Credit(who, amount),
        None => AuthorPayout::Burn(amount),
    }
}

/// How `DealWithFees` settles the imbalances of a block, the fees first and the
/// tips second (later items are never drawn): each is rationed `0 : 100` between
/// the treasury and the author, the parts are summed (saturating), the treasury's
/// part is dropped and the author's part goes to [`Author`]. With no imbalance at
/// all, nothing happens.
pub open spec fn spec_deal_with_fees(author: Option<AccountId>, fees_then_tips: Seq<Balance>) -> FeeSettlement {
    if fees_then_tips.len() == 0 {
        FeeSettlement { treasury_burn: 0, author: AuthorPayout::Nothing }
    } else {
        let fees = spec_ration(fees_then_tips[0], 0, 100);
        let split = if fees_then_tips.len() >= 2 {
            let tips = spec_ration(fees_then_tips[1], 0, 100);
            (sat_add(fees.0, tips.0), sat_add(fees.1, tips.1))
        } else {
            fees
        };
        FeeSettlement {
            treasury_burn: split.0,
            author: spec_author_on_unbalanced(author, split.1),
        }
    }
}

/// Hands a block's fee income to its author.
pub struct Author;

impl Author {
    /// Hands a non-zero amount to the block author, or drops it when no author is
    /// known.
    pub fn on_nonzero_unbalanced(author: Option<AccountId>, amount: Balance) -> (payout:
        AuthorPayout)
        ensures
            payout == spec_author_on_nonzero(author, amount),
    {
        match author {
            Some(who) => AuthorPayout::Credit(who, amount),
            None => AuthorPayout::Burn(amount),
        }
    }

    /// Drops a zero amount; hands any other to [`Author::on_nonzero_unbalanced`].
    pub fn on_unbalanced(author: Option<AccountId>, amount: Balance) -> (payout: AuthorPayout)
        ensures
            payout == spec_author_on_unbalanced(author, amount),
    {
        if amount == 0 {
            AuthorPayout::Nothing
        } else {
            Author::on_nonzero_unbalanced(author, amount)
        }
    }
}

/// Routes transaction fees and tips.
pub struct DealWithFees;

impl DealWithFees {
    /// Settles a block's fees and tips (`fees_then_tips[0]` and
    /// `fees_then_tips[1]`, when present), given the block author.
    pub fn on_unbalanceds(author: Option<AccountId>, fees_then_tips: &[Balance]) -> (settlement:
        FeeSettlement)
        ensures
            settlement == spec_deal_with_fees(author, fees_then_tips@),
    {
        if fees_then_tips.len() == 0 {
            return FeeSettlement { treasury_burn: 0, author: AuthorPayout::Nothing };
        }
        let mut split = ration(fees_then_tips[0], 0, 100);
        if fees_then_tips.len() >= 2 {
            let tips = ration(fees_then_tips[1], 0, 100);
            split = (split.0.saturating_add(tips.0), split.1.saturating_add(tips.1));
        }
        FeeSettlement {
            treasury_burn: split.0,
            author: Author::on_unbalanced(author, split.1),
        }
    }
}

} // verus!
