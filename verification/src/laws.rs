use vstd::prelude::*;
use vstd::string::StringSliceAdditionalSpecFns;

use crate::codec::{le_bytes, le_value, lemma_le_bytes_len, lemma_le_roundtrip, radix};
use crate::dispatch::{
    call_view, scaled_quantity, spec_do_liquidity_redeem, spec_do_liquidity_stake, spec_do_swap,
    spec_swap_actions, spec_swap_pair, transfer_view, ActionView, CallFailure, SwapOrder, SwapPair, SwapQuote,
};
use crate::execution::{
    lemma_run_skips_prefix, spec_call, spec_performed, spec_run, spec_step, ActionOutcome,
    CallResult, RunEnd,
};
use crate::fees::{spec_deal_with_fees, spec_ration, AuthorPayout};
use crate::messages::{
    spec_burn_message, spec_mint_to_message, spec_swap_message, spec_transfer_message, swap_selector,
};
use crate::pallet::Completion;
use crate::state::{spec_apply_all, spec_cause_error, spec_store, DexCall, DexState, Setting};
use crate::ticker::{
    json_array_field_u64, lphpu_symbol, lumi_symbol, phpu_symbol, price_key, spec_ticker_prices,
    umi_symbol,
};
use crate::types::{AccountId, Balance, DispatchError, Error, EventView, Origin};

verus! {

/// After the root authority stores a setting, the storage holds it, the call
/// succeeds, and exactly the setting's event is appended.
pub proof fn lemma_store_then_read(state: DexState, setting: Setting)
    ensures
        spec_store(state, Origin::Root, setting).1 == Ok::<(), DispatchError>(()),
        spec_store(state, Origin::Root, setting).0.holds(setting),
        spec_store(state, Origin::Root, setting).0.events == state.events.push(setting.event()),
{
}

/// Storing a setting leaves every other storage item as it was.
pub proof fn lemma_store_keeps_other_items(state: DexState, setting: Setting, other: Setting)
    requires
        !setting.same_item(other),
    ensures
        spec_store(state, Origin::Root, setting).0.holds(other) == state.holds(other),
        spec_store(state, Origin::Root, setting).0.something == state.something,
{
}

/// Of two settings of the same item, the later one is what the storage keeps:
/// storing `first` then `second` leaves the storage as storing `second` alone,
/// events aside.
pub proof fn lemma_store_last_write_wins(state: DexState, first: Setting, second: Setting)
    requires
        first.same_item(second),
    ensures
        spec_store(spec_store(state, Origin::Root, first).0, Origin::Root, second).0.config()
            == spec_store(state, Origin::Root, second).0.config(),
{
}

/// A setter called by anyone but the root authority is refused with `BadOrigin`
/// and changes nothing, events included.
pub proof fn lemma_store_refused_without_root(state: DexState, origin: Origin, setting: Setting)
    requires
        origin != Origin::Root,
    ensures
        spec_store(state, origin, setting) == (state, Err::<(), DispatchError>(
            DispatchError::BadOrigin,
        )),
{
}

/// `cause_error` either increments the counter by one and changes nothing else,
/// or fails and changes nothing at all.
pub proof fn lemma_cause_error_increments(state: DexState, origin: Origin)
    ensures
        spec_cause_error(state, origin).1 is Ok ==> {
            &&& state.something is Some
            &&& spec_cause_error(state, origin).0.something == Some(
                (state.something->0 + 1) as u32,
            )
            &&& spec_cause_error(state, origin).0 == DexState {
                something: spec_cause_error(state, origin).0.something,
                ..state
            }
        },
        spec_cause_error(state, origin).1 is Err ==> spec_cause_error(state, origin).0 == state,
{
}

/// `256^16 = 2^128`.
pub proof fn lemma_radix_16()
    ensures
        radix(16) == 0x1_0000_0000_0000_0000_0000_0000_0000_0000,
{
    reveal_with_fuel(radix, 17);
}

/// A balance is encoded without loss: its sixteen bytes read back as the balance.
pub proof fn lemma_balance_roundtrip(value: Balance)
    ensures
        le_bytes(value as nat, 16).len() == 16,
        le_value(le_bytes(value as nat, 16)) == value,
{
    lemma_le_bytes_len(value as nat, 16);
    lemma_le_roundtrip(value as nat, 16);
    lemma_radix_16();
}

/// The payout message of a swap carries, at fixed offsets, the swapper, the
/// amount paid, the fee collector and the fee, each readable back as given.
pub proof fn lemma_swap_message_fields(
    to: AccountId,
    amount: Balance,
    collector: AccountId,
    fee: Balance,
)
    ensures
        spec_swap_message(to, amount, collector, fee).len() == 100,
        spec_swap_message(to, amount, collector, fee).subrange(0, 4) == swap_selector(),
        spec_swap_message(to, amount, collector, fee).subrange(4, 36) == to@,
        le_value(spec_swap_message(to, amount, collector, fee).subrange(36, 52)) == amount,
        spec_swap_message(to, amount, collector, fee).subrange(52, 84) == collector@,
        le_value(spec_swap_message(to, amount, collector, fee).subrange(84, 100)) == fee,
{
    lemma_balance_roundtrip(amount);
    lemma_balance_roundtrip(fee);
    let m = spec_swap_message(to, amount, collector, fee);
    assert(m.subrange(0, 4) =~= swap_selector());
    assert(m.subrange(4, 36) =~= to@);
    assert(m.subrange(36, 52) =~= le_bytes(amount as nat, 16));
    assert(m.subrange(52, 84) =~= collector@);
    assert(m.subrange(84, 100) =~= le_bytes(fee as nat, 16));
}

/// Rationing splits an amount without loss when a weight is non-zero, and a zero
/// first weight gives everything to the second part.
pub proof fn lemma_ration_conserves(amount: Balance, first: u32, second: u32)
    requires
        first + second > 0,
    ensures
        spec_ration(amount, first, second).0 + spec_ration(amount, first, second).1 == amount,
        first == 0 ==> spec_ration(amount, first, second) == (0u128, amount),
{
}

/// The fees and tips of a block all go to its author, none to the treasury: the
/// author is credited their sum (when it fits in a balance), or the sum is burnt
/// when no author is known; zero fees and tips move nothing.
pub proof fn lemma_fees_go_to_author(author: Option<AccountId>, fees: Balance, tips: Balance)
    requires
        fees + tips <= u128::MAX,
    ensures
        spec_deal_with_fees(author, seq![fees, tips]).treasury_burn == 0,
        fees + tips == 0 ==> spec_deal_with_fees(author, seq![fees, tips]).author
            == AuthorPayout::Nothing,
        fees + tips > 0 && author is Some ==> spec_deal_with_fees(author, seq![fees, tips]).author
            == AuthorPayout::Credit(author->0, (fees + tips) as u128),
        fees + tips > 0 && author is None ==> spec_deal_with_fees(author, seq![fees, tips]).author
            == AuthorPayout::Burn((fees + tips) as u128),
{
    lemma_ration_conserves(fees, 0, 100);
    lemma_ration_conserves(tips, 0, 100);
}

/// A swap for a pair of tickers that is not UMI/PHPU moves nothing.
pub proof fn lemma_unsupported_pair_moves_nothing(order: SwapOrder, quote: SwapQuote)
    requires
        order.pair is None,
    ensures
        spec_swap_actions(order, quote) == Seq::<ActionView>::empty(),
{
}

/// A UMI to PHPU swap takes the swapper's whole UMI quantity into the UMI pool
/// and pays out exactly the quoted net amount to the swapper and the quoted
/// income to the DEX account.
pub proof fn lemma_umi_swap_pays_quote(order: SwapOrder, quote: SwapQuote)
    requires
        order.pair == Some(SwapPair::UmiToPhpu),
    ensures
        spec_swap_actions(order, quote).len() == 2,
        spec_swap_actions(order, quote)[0] == transfer_view(
            order.source,
            order.umi_liquidity_account,
            scaled_quantity(order.quantity),
        ),
        spec_swap_actions(order, quote)[1] matches ActionView::ContractCall { data, .. } && {
            &&& data.subrange(4, 36) == order.source@
            &&& le_value(data.subrange(36, 52)) == quote.net
            &&& data.subrange(52, 84) == order.dex_account@
            &&& le_value(data.subrange(84, 100)) == quote.income
        },
{
    lemma_swap_message_fields(
        order.source,
        quote.net as u128,
        order.dex_account,
        quote.income as u128,
    );
}

/// A PHPU to UMI swap pays exactly the quoted net amount to the swapper and the
/// quoted income to the DEX account, both from the UMI pool.
pub proof fn lemma_phpu_swap_pays_quote(order: SwapOrder, quote: SwapQuote)
    requires
        order.pair == Some(SwapPair::PhpuToUmi),
    ensures
        spec_swap_actions(order, quote).len() == 3,
        spec_swap_actions(order, quote)[1] == transfer_view(
            order.umi_liquidity_account,
            order.source,
            quote.net as u128,
        ),
        spec_swap_actions(order, quote)[2] == transfer_view(
            order.umi_liquidity_account,
            order.dex_account,
            quote.income as u128,
        ),
{
}

/// Staking UMI mints exactly as much lUMI to the staker as it moves UMI from the
/// staker into the UMI pool.
pub proof fn lemma_umi_stake_mints_what_it_takes(
    state: DexState,
    origin: Origin,
    source: AccountId,
    quantity: Balance,
)
    requires
        spec_do_liquidity_stake(state, origin, source, quantity, umi_symbol()) is Ok,
    ensures
        ({
            let actions = spec_do_liquidity_stake(state, origin, source, quantity, umi_symbol())->Ok_0;
            let amount = scaled_quantity(quantity);
            &&& actions.len() == 2
            &&& actions[0] == transfer_view(source, state.umi_liquidity_account->0, amount)
            &&& actions[1] == call_view(
                source,
                state.umi_liquidity_contract->0,
                spec_mint_to_message(source, amount),
                CallFailure::Ignored,
            )
        }),
{
    assert(umi_symbol() != crate::ticker::phpu_symbol());
}

/// Redeeming lUMI returns to the staker exactly as much UMI as the lUMI it burns
/// in the pool, after the total-supply query.
pub proof fn lemma_lumi_redeem_returns_what_it_burns(
    state: DexState,
    origin: Origin,
    source: AccountId,
    quantity: Balance,
)
    requires
        spec_do_liquidity_redeem(state, origin, source, quantity, lumi_symbol()) is Ok,
    ensures
        ({
            let actions = spec_do_liquidity_redeem(state, origin, source, quantity, lumi_symbol())->Ok_0;
            let amount = scaled_quantity(quantity);
            let pool = state.umi_liquidity_account->0;
            &&& actions.len() == 4
            &&& actions[0] matches ActionView::ContractCall { on_failure, .. } && on_failure
                == CallFailure::Trap
            &&& actions[2] == transfer_view(pool, source, amount)
            &&& actions[3] == call_view(
                pool,
                state.umi_liquidity_contract->0,
                spec_burn_message(pool, amount),
                CallFailure::Ignored,
            )
        }),
{
}

/// Scaling a whole-token quantity by the fourteen decimals is exact whenever the
/// product fits in a balance.
pub proof fn lemma_scaled_quantity_exact(quantity: Balance)
    requires
        quantity * crate::dispatch::DECIMAL_MULTIPLIER <= u128::MAX,
    ensures
        scaled_quantity(quantity) == quantity * crate::dispatch::DECIMAL_MULTIPLIER,
{
    let product = quantity as nat * crate::dispatch::DECIMAL_MULTIPLIER as nat;
    vstd::arithmetic::div_mod::lemma_small_mod(
        product,
        0x1_0000_0000_0000_0000_0000_0000_0000_0000nat,
    );
}

/// A failed transfer ends the call with the transfer's error: when every earlier
/// step went on and action `i` is a transfer that failed with `e`, the run ends
/// with `e` after `i + 1` actions, so no later action is made.
pub proof fn lemma_failed_transfer_ends_call<E>(
    actions: Seq<ActionView>,
    outcomes: Seq<ActionOutcome<E>>,
    i: int,
    e: E,
)
    requires
        0 <= i < actions.len(),
        i < outcomes.len(),
        forall|j: int| 0 <= j < i ==> #[trigger] spec_step(actions[j], outcomes[j]) is Continue,
        actions[i] is Transfer,
        outcomes[i] == ActionOutcome::Failed(e),
    ensures
        spec_run(actions, outcomes) == RunEnd::Failed(e),
        spec_performed(actions, outcomes) == i + 1,
{
    lemma_run_skips_prefix(actions, outcomes, i);
    let rest_a = actions.skip(i);
    let rest_o = outcomes.skip(i);
    assert(rest_a[0] == actions[i]);
    assert(rest_o[0] == outcomes[i]);
}

/// A whole call leaves every storage item as it was, and deposits its completion
/// event, exactly once, only when it completes.
pub proof fn lemma_call_keeps_storage<E>(
    state: DexState,
    plan: Result<Seq<ActionView>, DispatchError>,
    completion: Completion,
    outcomes: Seq<ActionOutcome<E>>,
)
    ensures
        spec_call(state, plan, completion, outcomes).0.config() == state.config(),
        spec_call(state, plan, completion, outcomes).1 is Completed ==> spec_call(
            state,
            plan,
            completion,
            outcomes,
        ).0.events == state.events.push(completion.event()),
        !(spec_call(state, plan, completion, outcomes).1 is Completed) ==> spec_call(
            state,
            plan,
            completion,
            outcomes,
        ).0 == state,
{
}

/// The actions of a whole swap: the pallet's checks, then the effects for the
/// converted amounts.
pub open spec fn spec_swap_plan(
    state: DexState,
    origin: Origin,
    source: AccountId,
    quantity: Balance,
    source_ticker: Seq<u8>,
    destination_ticker: Seq<u8>,
    quote: SwapQuote,
) -> Result<Seq<ActionView>, DispatchError> {
    match crate::dispatch::spec_do_swap(state, origin, source, quantity, source_ticker, destination_ticker) {
        Ok(order) => Ok(spec_swap_actions(order, quote)),
        Err(e) => Err(e),
    }
}

/// A whole swap changes no storage item and deposits `SwapExecuted(source)` only
/// when it completes; a refused or failed swap leaves the storage, events
/// included, as it was.
pub proof fn lemma_swap_call_keeps_storage<E>(
    state: DexState,
    origin: Origin,
    source: AccountId,
    quantity: Balance,
    source_ticker: Seq<u8>,
    destination_ticker: Seq<u8>,
    quote: SwapQuote,
    outcomes: Seq<ActionOutcome<E>>,
)
    ensures
        ({
            let (after, result) = spec_call(
                state,
                spec_swap_plan(state, origin, source, quantity, source_ticker, destination_ticker, quote),
                Completion::Swap(source),
                outcomes,
            );
            &&& after.config() == state.config()
            &&& result is Completed ==> after.events == state.events.push(
                crate::types::EventView::SwapExecuted(source),
            )
            &&& !(result is Completed) ==> after == state
        }),
{
}

/// A whole stake changes no storage item and deposits `StakeExecuted(source)`
/// only when it completes.
pub proof fn lemma_stake_call_keeps_storage<E>(
    state: DexState,
    origin: Origin,
    source: AccountId,
    quantity: Balance,
    ticker: Seq<u8>,
    outcomes: Seq<ActionOutcome<E>>,
)
    ensures
        ({
            let (after, result) = spec_call(
                state,
                spec_do_liquidity_stake(state, origin, source, quantity, ticker),
                Completion::Stake(source),
                outcomes,
            );
            &&& after.config() == state.config()
            &&& result is Completed ==> after.events == state.events.push(
                crate::types::EventView::StakeExecuted(source),
            )
            &&& !(result is Completed) ==> after == state
        }),
{
}

/// A whole redemption changes no storage item and deposits
/// `RedeemExecuted(source)` only when it completes.
pub proof fn lemma_redeem_call_keeps_storage<E>(
    state: DexState,
    origin: Origin,
    source: AccountId,
    quantity: Balance,
    ticker: Seq<u8>,
    outcomes: Seq<ActionOutcome<E>>,
)
    ensures
        ({
            let (after, result) = spec_call(
                state,
                spec_do_liquidity_redeem(state, origin, source, quantity, ticker),
                Completion::Redeem(source),
                outcomes,
            );
            &&& after.config() == state.config()
            &&& result is Completed ==> after.events == state.events.push(
                crate::types::EventView::RedeemExecuted(source),
            )
            &&& !(result is Completed) ==> after == state
        }),
{
}

/// When the UMI transfer of a UMI stake fails with `e`, the stake ends with `e`,
/// the lUMI is not minted and the storage is as it was.
pub proof fn lemma_umi_stake_transfer_failure<E>(
    state: DexState,
    origin: Origin,
    source: AccountId,
    quantity: Balance,
    outcomes: Seq<ActionOutcome<E>>,
    e: E,
)
    requires
        spec_do_liquidity_stake(state, origin, source, quantity, umi_symbol()) is Ok,
        outcomes.len() >= 1,
        outcomes[0] == ActionOutcome::Failed(e),
    ensures
        spec_call(
            state,
            spec_do_liquidity_stake(state, origin, source, quantity, umi_symbol()),
            Completion::Stake(source),
            outcomes,
        ) == (state, CallResult::Failed(e)),
        spec_performed(
            spec_do_liquidity_stake(state, origin, source, quantity, umi_symbol())->Ok_0,
            outcomes,
        ) == 1,
{
    lemma_umi_stake_mints_what_it_takes(state, origin, source, quantity);
    let actions = spec_do_liquidity_stake(state, origin, source, quantity, umi_symbol())->Ok_0;
    lemma_failed_transfer_ends_call(actions, outcomes, 0, e);
}

/// When the UMI transfer of an lUMI redemption fails with `e` (after the supply
/// query succeeded), the redemption ends with `e`, the lUMI is not burnt and the
/// storage is as it was.
pub proof fn lemma_lumi_redeem_transfer_failure<E>(
    state: DexState,
    origin: Origin,
    source: AccountId,
    quantity: Balance,
    outcomes: Seq<ActionOutcome<E>>,
    e: E,
)
    requires
        spec_do_liquidity_redeem(state, origin, source, quantity, lumi_symbol()) is Ok,
        outcomes.len() >= 3,
        outcomes[0] == ActionOutcome::<E>::Succeeded,
        outcomes[2] == ActionOutcome::Failed(e),
    ensures
        spec_call(
            state,
            spec_do_liquidity_redeem(state, origin, source, quantity, lumi_symbol()),
            Completion::Redeem(source),
            outcomes,
        ) == (state, CallResult::Failed(e)),
        spec_performed(
            spec_do_liquidity_redeem(state, origin, source, quantity, lumi_symbol())->Ok_0,
            outcomes,
        ) == 3,
{
    lemma_lumi_redeem_returns_what_it_burns(state, origin, source, quantity);
    let actions = spec_do_liquidity_redeem(state, origin, source, quantity, lumi_symbol())->Ok_0;
    assert(spec_step(actions[0], outcomes[0]) is Continue);
    assert(spec_step(actions[1], outcomes[1]) is Continue);
    lemma_failed_transfer_ends_call(actions, outcomes, 2, e);
}

/// The counter is never set by any call: from a state where it is unset, every
/// sequence of setters, `cause_error` calls and completed swaps, stakes and
/// redemptions leaves it unset, so `cause_error` from a signed origin is always
/// refused with `NoneValue`. From genesis this holds of every reachable state.
pub proof fn lemma_counter_stays_unset(state: DexState, calls: Seq<DexCall>, who: AccountId)
    requires
        state.something is None,
    ensures
        spec_apply_all(state, calls).something is None,
        spec_cause_error(spec_apply_all(state, calls), Origin::Signed(who)).1 == Err::<
            (),
            DispatchError,
        >(DispatchError::Module(crate::types::Error::NoneValue)),
    decreases calls.len(),
{
    if calls.len() > 0 {
        let next = crate::state::spec_apply(state, calls[0]);
        lemma_counter_stays_unset(next, calls.drop_first(), who);
    }
}

/// Redeeming lPHPU sends the lPHPU to the stored PHPU liquidity account, returns
/// the PHPU to the staker from that account, and burns the same amount there.
pub proof fn lemma_lphpu_redeem_uses_phpu_pool(
    state: DexState,
    origin: Origin,
    source: AccountId,
    quantity: Balance,
)
    requires
        spec_do_liquidity_redeem(state, origin, source, quantity, lphpu_symbol()) is Ok,
    ensures
        ({
            let actions = spec_do_liquidity_redeem(state, origin, source, quantity, lphpu_symbol())->Ok_0;
            let amount = scaled_quantity(quantity);
            let pool = state.phpu_liquidity_account->0;
            &&& state.phpu_liquidity_account is Some
            &&& actions.len() == 4
            &&& actions[1] == call_view(
                source,
                state.phpu_liquidity_contract->0,
                spec_transfer_message(pool, amount, crate::dispatch::remark_lphpu()),
                CallFailure::Ignored,
            )
            &&& actions[2] == call_view(
                pool,
                state.phpu_contract->0,
                spec_transfer_message(source, amount, crate::dispatch::remark_phpu_to_source()),
                CallFailure::Ignored,
            )
            &&& actions[3] == call_view(
                state.dex_account->0,
                state.phpu_liquidity_contract->0,
                spec_burn_message(pool, amount),
                CallFailure::Ignored,
            )
        }),
{
    assert(lphpu_symbol() != lumi_symbol());
}

/// The `mint_to` message carries, at fixed offsets, the recipient and the full
/// minted value, readable back as given.
pub proof fn lemma_mint_to_message_fields(to: AccountId, value: Balance)
    ensures
        spec_mint_to_message(to, value).len() == 52,
        spec_mint_to_message(to, value).subrange(0, 4) == seq![0x1du8, 0x2fu8, 0x13u8, 0xc5u8],
        spec_mint_to_message(to, value).subrange(4, 36) == to@,
        le_value(spec_mint_to_message(to, value).subrange(36, 52)) == value,
{
    lemma_balance_roundtrip(value);
    let m = spec_mint_to_message(to, value);
    assert(m.subrange(0, 4) =~= seq![0x1du8, 0x2fu8, 0x13u8, 0xc5u8]);
    assert(m.subrange(4, 36) =~= to@);
    assert(m.subrange(36, 52) =~= le_bytes(value as nat, 16));
}

/// The `burn` message carries, at fixed offsets, the holder and the full burnt
/// value, readable back as given.
pub proof fn lemma_burn_message_fields(from: AccountId, value: Balance)
    ensures
        spec_burn_message(from, value).len() == 52,
        spec_burn_message(from, value).subrange(0, 4) == seq![0x7au8, 0x9du8, 0xa5u8, 0x10u8],
        spec_burn_message(from, value).subrange(4, 36) == from@,
        le_value(spec_burn_message(from, value).subrange(36, 52)) == value,
{
    lemma_balance_roundtrip(value);
    let m = spec_burn_message(from, value);
    assert(m.subrange(0, 4) =~= seq![0x7au8, 0x9du8, 0xa5u8, 0x10u8]);
    assert(m.subrange(4, 36) =~= from@);
    assert(m.subrange(36, 52) =~= le_bytes(value as nat, 16));
}

/// The token `transfer` message carries, at fixed offsets, the recipient and the
/// full value, readable back as given, then the remark; a remark shorter than 64
/// bytes is its length times four in one byte, then its bytes.
pub proof fn lemma_transfer_message_fields(to: AccountId, value: Balance, remark: Seq<u8>)
    ensures
        spec_transfer_message(to, value, remark).subrange(0, 4) == seq![0xdbu8, 0x20u8, 0xf9u8, 0xf5u8],
        spec_transfer_message(to, value, remark).subrange(4, 36) == to@,
        le_value(spec_transfer_message(to, value, remark).subrange(36, 52)) == value,
        remark.len() < 64 ==> {
            &&& spec_transfer_message(to, value, remark).len() == 53 + remark.len()
            &&& spec_transfer_message(to, value, remark)[52] == remark.len() * 4
            &&& spec_transfer_message(to, value, remark).subrange(53, 53 + remark.len() as int)
                == remark
        },
{
    lemma_balance_roundtrip(value);
    let m = spec_transfer_message(to, value, remark);
    assert(m.subrange(0, 4) =~= seq![0xdbu8, 0x20u8, 0xf9u8, 0xf5u8]);
    assert(m.subrange(4, 36) =~= to@);
    assert(m.subrange(36, 52) =~= le_bytes(value as nat, 16));
    if remark.len() < 64 {
        assert(m.subrange(53, 53 + remark.len() as int) =~= remark);
    }
}

/// The two tickers of a swap name a pair only when they are `UMI` and `PHPU`, in
/// either order: UMI to PHPU exactly for (`UMI`, `PHPU`), PHPU to UMI exactly for
/// (`PHPU`, `UMI`), and no pair for any other two tickers.
pub proof fn lemma_swap_pair_names_the_tickers(source_ticker: Seq<u8>, destination_ticker: Seq<u8>)
    ensures
        spec_swap_pair(source_ticker, destination_ticker) == Some(SwapPair::UmiToPhpu) <==> (
        source_ticker == "UMI".spec_bytes() && destination_ticker == "PHPU".spec_bytes()),
        spec_swap_pair(source_ticker, destination_ticker) == Some(SwapPair::PhpuToUmi) <==> (
        source_ticker == "PHPU".spec_bytes() && destination_ticker == "UMI".spec_bytes()),
        spec_swap_pair(source_ticker, destination_ticker) is None <==> !(
        (source_ticker == "UMI".spec_bytes() && destination_ticker == "PHPU".spec_bytes()) || (
        source_ticker == "PHPU".spec_bytes() && destination_ticker == "UMI".spec_bytes())),
{
    lemma_symbols_spell_the_tickers();
}

/// The ticker symbols are the ASCII bytes of `UMI`, `PHPU`, `lUMI` and `lPHPU`,
/// and they are pairwise different.
pub proof fn lemma_symbols_spell_the_tickers()
    ensures
        umi_symbol() == "UMI".spec_bytes(),
        phpu_symbol() == "PHPU".spec_bytes(),
        lumi_symbol() == "lUMI".spec_bytes(),
        lphpu_symbol() == "lPHPU".spec_bytes(),
        umi_symbol() != phpu_symbol(),
        lumi_symbol() != lphpu_symbol(),
{
    reveal_strlit("UMI");
    reveal_strlit("PHPU");
    reveal_strlit("lUMI");
    reveal_strlit("lPHPU");
    vstd::string::is_ascii_spec_bytes("UMI");
    vstd::string::is_ascii_spec_bytes("PHPU");
    vstd::string::is_ascii_spec_bytes("lUMI");
    vstd::string::is_ascii_spec_bytes("lPHPU");
    assert(vstd::string::is_ascii("UMI"));
    assert(vstd::string::is_ascii("PHPU"));
    assert(vstd::string::is_ascii("lUMI"));
    assert(vstd::string::is_ascii("lPHPU"));
    assert(umi_symbol() =~= "UMI".spec_bytes());
    assert(phpu_symbol() =~= "PHPU".spec_bytes());
    assert(lumi_symbol() =~= "lUMI".spec_bytes());
    assert(lphpu_symbol() =~= "lPHPU".spec_bytes());
    assert(umi_symbol().len() != phpu_symbol().len());
    assert(lumi_symbol().len() != lphpu_symbol().len());
}

/// A swap with two tickers that are not `UMI` and `PHPU` moves nothing, whatever
/// the order and the quote.
pub proof fn lemma_other_tickers_swap_nothing(
    state: DexState,
    origin: Origin,
    source: AccountId,
    quantity: Balance,
    source_ticker: Seq<u8>,
    destination_ticker: Seq<u8>,
    quote: SwapQuote,
)
    requires
        !((source_ticker == "UMI".spec_bytes() && destination_ticker == "PHPU".spec_bytes()) || (
        source_ticker == "PHPU".spec_bytes() && destination_ticker == "UMI".spec_bytes())),
        spec_do_swap(state, origin, source, quantity, source_ticker, destination_ticker) is Ok,
    ensures
        spec_swap_actions(
            spec_do_swap(state, origin, source, quantity, source_ticker, destination_ticker)->Ok_0,
            quote,
        ).len() == 0,
{
    lemma_swap_pair_names_the_tickers(source_ticker, destination_ticker);
}

/// A swap succeeds exactly when it is signed, every setting it reads is stored
/// and both prices can be read; its order then serves the `source` given (not
/// the signer), for the given quantity, at the stored prices, fees and accounts.
pub proof fn lemma_swap_order_serves_the_source(
    state: DexState,
    origin: Origin,
    source: AccountId,
    quantity: Balance,
    source_ticker: Seq<u8>,
    destination_ticker: Seq<u8>,
)
    ensures
        spec_do_swap(state, origin, source, quantity, source_ticker, destination_ticker) is Ok <==> {
            &&& origin is Signed
            &&& state.dex_account is Some
            &&& state.phpu_liquidity_account is Some
            &&& state.umi_liquidity_account is Some
            &&& state.phpu_contract is Some
            &&& state.swap_fees is Some
            &&& state.ticker_data is Some
            &&& json_array_field_u64(state.ticker_data->0, 0, price_key()) matches Some(Some(_))
            &&& json_array_field_u64(state.ticker_data->0, 1, price_key()) matches Some(Some(_))
        },
        spec_do_swap(state, origin, source, quantity, source_ticker, destination_ticker) is Ok ==> {
            let order = spec_do_swap(state, origin, source, quantity, source_ticker, destination_ticker)->Ok_0;
            &&& order.source == source
            &&& order.quantity == quantity
            &&& order.primitive_quantity == (if quantity <= u64::MAX {
                quantity
            } else {
                0
            })
            &&& json_array_field_u64(state.ticker_data->0, 0, price_key()) == Some(
                Some(order.umi_price),
            )
            &&& json_array_field_u64(state.ticker_data->0, 1, price_key()) == Some(
                Some(order.phpu_price),
            )
            &&& Some(order.swap_fees) == state.swap_fees
            &&& Some(order.dex_account) == state.dex_account
            &&& Some(order.phpu_liquidity_account) == state.phpu_liquidity_account
            &&& Some(order.umi_liquidity_account) == state.umi_liquidity_account
            &&& Some(order.phpu_contract) == state.phpu_contract
        },
{
}

/// A UMI to PHPU swap takes the UMI from the `source` given and pays it; a PHPU
/// to UMI swap has the `source` give its PHPU and pays it; neither uses the
/// signer in place of `source`.
pub proof fn lemma_swap_moves_the_source_funds(order: SwapOrder, quote: SwapQuote)
    requires
        order.pair is Some,
    ensures
        order.pair == Some(SwapPair::UmiToPhpu) ==> {
            &&& spec_swap_actions(order, quote)[0] matches ActionView::Transfer { from, .. } && from
                == order.source
            &&& spec_swap_actions(order, quote)[1] matches ActionView::ContractCall { data, .. }
                && data.subrange(4, 36) == order.source@
        },
        order.pair == Some(SwapPair::PhpuToUmi) ==> {
            &&& spec_swap_actions(order, quote)[0] matches ActionView::ContractCall { origin, data, .. }
                && origin == order.source && le_value(data.subrange(36, 52)) == scaled_quantity(
                order.quantity,
            )
            &&& spec_swap_actions(order, quote)[1] matches ActionView::Transfer { to, .. } && to
                == order.source
        },
{
    lemma_swap_message_fields(
        order.source,
        quote.net as u128,
        order.dex_account,
        quote.income as u128,
    );
    lemma_transfer_message_fields(
        order.phpu_liquidity_account,
        scaled_quantity(order.quantity),
        crate::dispatch::remark_source_phpu(),
    );
}

/// Staking takes and mints the same full amount: the UMI transferred (or the PHPU
/// value in the PHPU contract's transfer) and the value minted both read back as
/// `quantity * 10^14` (wrapping), for the given `source`.
pub proof fn lemma_stake_mints_the_full_amount(
    state: DexState,
    origin: Origin,
    source: AccountId,
    quantity: Balance,
    ticker: Seq<u8>,
)
    requires
        spec_do_liquidity_stake(state, origin, source, quantity, ticker) is Ok,
        spec_do_liquidity_stake(state, origin, source, quantity, ticker)->Ok_0.len() > 0,
    ensures
        ({
            let actions = spec_do_liquidity_stake(state, origin, source, quantity, ticker)->Ok_0;
            let amount = scaled_quantity(quantity);
            &&& ticker == "UMI".spec_bytes() || ticker == "PHPU".spec_bytes()
            &&& actions.len() == 2
            &&& ticker == "UMI".spec_bytes() ==> (actions[0] matches ActionView::Transfer {
                from,
                amount: taken,
                ..
            } && from == source && taken == amount)
            &&& ticker == "PHPU".spec_bytes() ==> (actions[0] matches ActionView::ContractCall {
                origin: caller,
                data,
                ..
            } && caller == source && le_value(data.subrange(36, 52)) == amount)
            &&& actions[1] matches ActionView::ContractCall { data, .. } && data.subrange(4, 36)
                == source@ && le_value(data.subrange(36, 52)) == amount
        }),
{
    lemma_symbols_spell_the_tickers();
    let amount = scaled_quantity(quantity);
    lemma_mint_to_message_fields(source, amount);
    if ticker == phpu_symbol() {
        lemma_transfer_message_fields(
            state.phpu_liquidity_account->0,
            amount,
            crate::dispatch::remark_source_phpu(),
        );
    }
}

/// Redeeming returns and burns the same full amount, `quantity * 10^14`
/// (wrapping): for `lUMI` the UMI returned to `source` and the lUMI burnt; for
/// `lPHPU` the PHPU returned to `source` and the lPHPU burnt.
pub proof fn lemma_redeem_burns_the_full_amount(
    state: DexState,
    origin: Origin,
    source: AccountId,
    quantity: Balance,
    ticker: Seq<u8>,
)
    requires
        spec_do_liquidity_redeem(state, origin, source, quantity, ticker) is Ok,
        spec_do_liquidity_redeem(state, origin, source, quantity, ticker)->Ok_0.len() > 1,
    ensures
        ({
            let actions = spec_do_liquidity_redeem(state, origin, source, quantity, ticker)->Ok_0;
            let amount = scaled_quantity(quantity);
            &&& ticker == "lUMI".spec_bytes() || ticker == "lPHPU".spec_bytes()
            &&& actions.len() == 4
            &&& ticker == "lUMI".spec_bytes() ==> (actions[2] matches ActionView::Transfer {
                to,
                amount: returned,
                ..
            } && to == source && returned == amount)
            &&& ticker == "lPHPU".spec_bytes() ==> (actions[2] matches ActionView::ContractCall {
                data,
                ..
            } && data.subrange(4, 36) == source@ && le_value(data.subrange(36, 52)) == amount)
            &&& actions[3] matches ActionView::ContractCall { data, .. } && le_value(
                data.subrange(36, 52),
            ) == amount
        }),
{
    lemma_symbols_spell_the_tickers();
    let amount = scaled_quantity(quantity);
    if ticker == lumi_symbol() {
        lemma_burn_message_fields(state.umi_liquidity_account->0, amount);
    } else {
        lemma_burn_message_fields(state.phpu_liquidity_account->0, amount);
        lemma_transfer_message_fields(
            source,
            amount,
            crate::dispatch::remark_phpu_to_source(),
        );
    }
}

/// The refusals of a swap, in order: an unsigned or root origin is `BadOrigin`;
/// then the first missing setting among the DEX account, the PHPU liquidity
/// account, the UMI liquidity account, the PHPU contract and the swap fees names
/// itself; then missing ticker data is `NoTickerPriceData`, ticker data that is
/// not JSON is `TickerPriceDataInvalid`, and a missing or malformed UMI price is
/// `TickerPriceInvalid`. Checks on settings come before any price is read.
pub proof fn lemma_swap_refusals(
    state: DexState,
    origin: Origin,
    source: AccountId,
    quantity: Balance,
    source_ticker: Seq<u8>,
    destination_ticker: Seq<u8>,
)
    ensures
        ({
            let r = spec_do_swap(state, origin, source, quantity, source_ticker, destination_ticker);
            let refused = |e: Error| r == Err::<SwapOrder, DispatchError>(DispatchError::Module(e));
            &&& !(origin is Signed) ==> r == Err::<SwapOrder, DispatchError>(DispatchError::BadOrigin)
            &&& origin is Signed && state.dex_account is None ==> refused(Error::NoDexAccount)
            &&& origin is Signed && state.dex_account is Some && state.phpu_liquidity_account is None
                ==> refused(Error::NoPhpuLiquidityAccount)
            &&& origin is Signed && state.dex_account is Some && state.phpu_liquidity_account is Some
                && state.umi_liquidity_account is None ==> refused(Error::NoUmiLiquidityAccount)
            &&& origin is Signed && state.dex_account is Some && state.phpu_liquidity_account is Some
                && state.umi_liquidity_account is Some && state.phpu_contract is None ==> refused(
                Error::NoPhpuContract,
            )
            &&& origin is Signed && state.dex_account is Some && state.phpu_liquidity_account is Some
                && state.umi_liquidity_account is Some && state.phpu_contract is Some
                && state.swap_fees is None ==> refused(Error::NoSwapFees)
            &&& origin is Signed && crate::dispatch::swap_settings_present(state)
                && state.ticker_data is None ==> refused(Error::NoTickerPriceData)
            &&& origin is Signed && crate::dispatch::swap_settings_present(state)
                && state.ticker_data is Some && json_array_field_u64(
                state.ticker_data->0,
                0,
                price_key(),
            ) is None ==> refused(Error::TickerPriceDataInvalid)
            &&& origin is Signed && crate::dispatch::swap_settings_present(state)
                && state.ticker_data is Some && json_array_field_u64(
                state.ticker_data->0,
                0,
                price_key(),
            ) == Some(None::<u64>) ==> refused(Error::TickerPriceInvalid)
        }),
{
}

/// The refusals of a stake: an unsigned or root origin is `BadOrigin`; for `UMI`
/// the UMI liquidity account, then the UMI liquidity contract; for `PHPU` the
/// PHPU liquidity account, then the PHPU liquidity contract, then the PHPU
/// contract; any other ticker is never refused.
pub proof fn lemma_stake_refusals(
    state: DexState,
    origin: Origin,
    source: AccountId,
    quantity: Balance,
    ticker: Seq<u8>,
)
    ensures
        ({
            let r = spec_do_liquidity_stake(state, origin, source, quantity, ticker);
            let refused = |e: Error| r == Err::<Seq<ActionView>, DispatchError>(DispatchError::Module(e));
            &&& !(origin is Signed) ==> r == Err::<Seq<ActionView>, DispatchError>(
                DispatchError::BadOrigin,
            )
            &&& origin is Signed && ticker == "UMI".spec_bytes() && state.umi_liquidity_account is None
                ==> refused(Error::NoUmiLiquidityAccount)
            &&& origin is Signed && ticker == "UMI".spec_bytes() && state.umi_liquidity_account is Some
                && state.umi_liquidity_contract is None ==> refused(Error::NoUmiLiquidityContract)
            &&& origin is Signed && ticker == "PHPU".spec_bytes() && state.phpu_liquidity_account is None
                ==> refused(Error::NoPhpuLiquidityAccount)
            &&& origin is Signed && ticker == "PHPU".spec_bytes() && state.phpu_liquidity_account is Some
                && state.phpu_liquidity_contract is None ==> refused(Error::NoPhpuLiquidityContract)
            &&& origin is Signed && ticker == "PHPU".spec_bytes() && state.phpu_liquidity_account is Some
                && state.phpu_liquidity_contract is Some && state.phpu_contract is None ==> refused(
                Error::NoPhpuContract,
            )
            &&& origin is Signed && ticker != "UMI".spec_bytes() && ticker != "PHPU".spec_bytes() ==> r
                == Ok::<Seq<ActionView>, DispatchError>(Seq::<ActionView>::empty())
        }),
{
    lemma_symbols_spell_the_tickers();
}

/// The refusals of a redemption, whatever the ticker: an unsigned or root origin
/// is `BadOrigin`; then the first missing setting among the DEX account, the UMI
/// liquidity account, the PHPU liquidity account, the UMI liquidity contract, the
/// PHPU liquidity contract and the PHPU contract names itself. With all of them
/// stored it is never refused, and it first queries the lUMI supply, trapping on
/// failure, from `source`.
pub proof fn lemma_redeem_refusals(
    state: DexState,
    origin: Origin,
    source: AccountId,
    quantity: Balance,
    ticker: Seq<u8>,
)
    ensures
        ({
            let r = spec_do_liquidity_redeem(state, origin, source, quantity, ticker);
            let refused = |e: Error| r == Err::<Seq<ActionView>, DispatchError>(DispatchError::Module(e));
            &&& !(origin is Signed) ==> r == Err::<Seq<ActionView>, DispatchError>(
                DispatchError::BadOrigin,
            )
            &&& origin is Signed && state.dex_account is None ==> refused(Error::NoDexAccount)
            &&& origin is Signed && state.dex_account is Some && state.umi_liquidity_account is None
                ==> refused(Error::NoUmiLiquidityAccount)
            &&& origin is Signed && state.dex_account is Some && state.umi_liquidity_account is Some
                && state.phpu_liquidity_account is None ==> refused(Error::NoPhpuLiquidityAccount)
            &&& origin is Signed && state.dex_account is Some && state.umi_liquidity_account is Some
                && state.phpu_liquidity_account is Some && state.umi_liquidity_contract is None
                ==> refused(Error::NoUmiLiquidityContract)
            &&& origin is Signed && state.dex_account is Some && state.umi_liquidity_account is Some
                && state.phpu_liquidity_account is Some && state.umi_liquidity_contract is Some
                && state.phpu_liquidity_contract is None ==> refused(Error::NoPhpuLiquidityContract)
            &&& origin is Signed && state.dex_account is Some && state.umi_liquidity_account is Some
                && state.phpu_liquidity_account is Some && state.umi_liquidity_contract is Some
                && state.phpu_liquidity_contract is Some && state.phpu_contract is None ==> refused(
                Error::NoPhpuContract,
            )
            &&& r is Ok ==> r->Ok_0.len() >= 1 && r->Ok_0[0] == call_view(
                source,
                state.umi_liquidity_contract->0,
                seq![0x16u8, 0x2du8, 0xf8u8, 0xc2u8],
                CallFailure::Trap,
            )
        }),
{
}

/// Every contract call a swap, a stake or a redemption makes attaches no value
/// and carries the gas limit of ten billion.
pub proof fn lemma_calls_attach_no_value(
    state: DexState,
    origin: Origin,
    source: AccountId,
    quantity: Balance,
    source_ticker: Seq<u8>,
    destination_ticker: Seq<u8>,
    quote: SwapQuote,
    i: int,
)
    ensures
        spec_do_swap(state, origin, source, quantity, source_ticker, destination_ticker) is Ok
            && 0 <= i < spec_swap_actions(
            spec_do_swap(state, origin, source, quantity, source_ticker, destination_ticker)->Ok_0,
            quote,
        ).len() ==> calls_attach_no_value(
            spec_swap_actions(
                spec_do_swap(state, origin, source, quantity, source_ticker, destination_ticker)->Ok_0,
                quote,
            )[i],
        ),
        spec_do_liquidity_stake(state, origin, source, quantity, source_ticker) is Ok && 0 <= i
            < spec_do_liquidity_stake(state, origin, source, quantity, source_ticker)->Ok_0.len()
            ==> calls_attach_no_value(
            spec_do_liquidity_stake(state, origin, source, quantity, source_ticker)->Ok_0[i],
        ),
        spec_do_liquidity_redeem(state, origin, source, quantity, source_ticker) is Ok && 0 <= i
            < spec_do_liquidity_redeem(state, origin, source, quantity, source_ticker)->Ok_0.len()
            ==> calls_attach_no_value(
            spec_do_liquidity_redeem(state, origin, source, quantity, source_ticker)->Ok_0[i],
        ),
{
}

/// A contract call with no value attached and a gas limit of ten billion; any
/// transfer.
pub open spec fn calls_attach_no_value(action: ActionView) -> bool {
    match action {
        ActionView::ContractCall { value, gas_limit, .. } => value == 0 && gas_limit
            == 10_000_000_000,
        ActionView::Transfer { .. } => true,
    }
}

/// The ticker prices are the two `price_in_usd` members exactly when both read
/// as `u64`; text that is not JSON is `TickerPriceDataInvalid`, and a text that is
/// JSON with a missing or malformed price is `TickerPriceInvalid`.
pub proof fn lemma_ticker_prices_read_both(data: Seq<u8>, umi: u64, phpu: u64)
    ensures
        spec_ticker_prices(data) == Ok::<(u64, u64), Error>((umi, phpu)) <==> (
        json_array_field_u64(data, 0, price_key()) == Some(Some(umi)) && json_array_field_u64(
            data,
            1,
            price_key(),
        ) == Some(Some(phpu))),
        json_array_field_u64(data, 0, price_key()) is None ==> spec_ticker_prices(data) == Err::<
            (u64, u64),
            Error,
        >(Error::TickerPriceDataInvalid),
        json_array_field_u64(data, 0, price_key()) is Some && json_array_field_u64(
            data,
            1,
            price_key(),
        ) is Some && (json_array_field_u64(data, 0, price_key()) == Some(None::<u64>)
            || json_array_field_u64(data, 1, price_key()) == Some(None::<u64>))
            ==> spec_ticker_prices(data) == Err::<(u64, u64), Error>(Error::TickerPriceInvalid),
{
}

/// Each setting is announced by the event of its own item, carrying the stored
/// value.
pub proof fn lemma_settings_announce_themselves(data: Seq<u8>, account: AccountId, fees: u64)
    ensures
        Setting::TickerData(data).event() == EventView::TickerPriceDataStored(data),
        Setting::DexAccount(account).event() == EventView::DexAccountDataStored(account),
        Setting::UmiLiquidityAccount(account).event() == EventView::UmiLiquidityAccountDataStored(
            account,
        ),
        Setting::PhpuLiquidityAccount(account).event() == EventView::PhpuLiquidityAccountDataStored(
            account,
        ),
        Setting::PhpuContract(account).event() == EventView::PhpuContractDataStored(account),
        Setting::UmiLiquidityContract(account).event()
            == EventView::UmiLiquidityContractDataStored(account),
        Setting::PhpuLiquidityContract(account).event()
            == EventView::PhpuLiquidityContractDataStored(account),
        Setting::SwapFees(fees).event() == EventView::SwapFeesDataStored(fees),
{
}

} // verus!
