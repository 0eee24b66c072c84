use vstd::prelude::*;
use vstd::string::StringSliceAdditionalSpecFns;
use vstd::utf8::valid_utf8;

use crate::messages::{
    burn_message, mint_to_message, spec_burn_message, spec_mint_to_message, spec_swap_message,
    spec_transfer_message, swap_message, total_supply_message, total_supply_selector,
    transfer_message,
};
use crate::pallet::Pallet;
use crate::state::DexState;
use crate::ticker::{
    is_symbol, lphpu_symbol, lumi_symbol, phpu_symbol, spec_ticker_prices, ticker_prices,
    umi_symbol,
};
use crate::types::{ensure_signed, AccountId, Balance, DispatchError, Error, Origin};

verus! {

/// Token amounts carry fourteen decimals: a quantity of whole tokens is scaled by this.
pub const DECIMAL_MULTIPLIER: u128 = 100_000_000_000_000;

/// The gas limit given to every contract call.
pub const CONTRACT_GAS_LIMIT: u64 = 10_000_000_000;

/// What the dispatch does when a contract call fails.
#[derive(Clone, Copy, Debug, PartialEq, Eq)]
pub enum CallFailure {
    /// The failure is ignored and the dispatch goes on.
    Ignored,
    /// The dispatch panics.
    Trap,
}

/// An effect on other pallets that a dispatch performs, in order.
///
/// A `Transfer` moves `amount` with the runtime currency, keeping the sender
/// alive; when it fails, the dispatch fails with the currency's error and none of
/// its effects remain. A `ContractCall` calls contract `dest` from `origin` with
/// `value` attached, the gas limit, no storage-deposit limit and debugging off.
#[derive(Clone, Debug, PartialEq, Eq)]
pub enum Action {
    Transfer { from: AccountId, to: AccountId, amount: Balance },
    ContractCall {
        origin: AccountId,
        dest: AccountId,
        value: Balance,
        gas_limit: u64,
        data: Vec<u8>,
        on_failure: CallFailure,
    },
}

/// The mathematical form of an [`Action`].
pub enum ActionView {
    Transfer { from: AccountId, to: AccountId, amount: Balance },
    ContractCall {
        origin: AccountId,
        dest: AccountId,
        value: Balance,
        gas_limit: u64,
        data: Seq<u8>,
        on_failure: CallFailure,
    },
}

impl View for Action {
    type V = ActionView;

    open spec fn view(&self) -> ActionView {
        match self {
            Action::Transfer { from, to, amount } => ActionView::Transfer {
                from: *from,
                to: *to,
                amount: *amount,
            },
            Action::ContractCall { origin, dest, value, gas_limit, data, on_failure } =>
                ActionView::ContractCall {
                origin: *origin,
                dest: *dest,
                value: *value,
                gas_limit: *gas_limit,
                data: data@,
                on_failure: *on_failure,
            },
        }
    }
}

/// The mathematical form of a list of actions.
pub open spec fn actions_view(actions: Seq<Action>) -> Seq<ActionView> {
    actions.map_values(|a: Action| a@)
}

/// The mathematical form of a dispatch that yields actions.
pub open spec fn plan_view(plan: Result<Vec<Action>, DispatchError>) -> Result<
    Seq<ActionView>,
    DispatchError,
> {
    match plan {
        Ok(actions) => Ok(actions_view(actions@)),
        Err(e) => Err(e),
    }
}

/// A currency transfer.
pub open spec fn transfer_view(from: AccountId, to: AccountId, amount: Balance) -> ActionView {
    ActionView::Transfer { from, to, amount }
}

/// A contract call with no value attached and the pallet's gas limit.
pub open spec fn call_view(
    origin: AccountId,
    dest: AccountId,
    data: Seq<u8>,
    on_failure: CallFailure,
) -> ActionView {
    ActionView::ContractCall {
        origin,
        dest,
        value: 0,
        gas_limit: CONTRACT_GAS_LIMIT,
        data,
        on_failure,
    }
}

/// A quantity of whole tokens in the smallest unit. The runtime's balance
/// multiplication wraps around on overflow.
pub open spec fn scaled_quantity(quantity: Balance) -> Balance {
    vstd::wrapping::u128_specs::wrapping_mul(quantity, DECIMAL_MULTIPLIER)
}

/// The remark of a PHPU transfer into a liquidity pool.
pub open spec fn remark_source_phpu() -> Seq<u8> {
    "Transfer source PHPU".spec_bytes()
}

/// The remark of an lUMI transfer back into the pool.
pub open spec fn remark_lumi() -> Seq<u8> {
    "Transfer lUMI".spec_bytes()
}

/// The remark of an lPHPU transfer back into the pool.
pub open spec fn remark_lphpu() -> Seq<u8> {
    "Transfer lPHPU".spec_bytes()
}

/// The remark of a PHPU transfer back to the staker.
pub open spec fn remark_phpu_to_source() -> Seq<u8> {
    "Transfer PHPU to source".spec_bytes()
}

fn scale(quantity: Balance) -> (scaled: Balance)
    ensures
        scaled == scaled_quantity(quantity),
{
    quantity.wrapping_mul(DECIMAL_MULTIPLIER)
}

fn transfer_action(from: AccountId, to: AccountId, amount: Balance) -> (action: Action)
    ensures
        action@ == transfer_view(from, to, amount),
{
    Action::Transfer { from, to, amount }
}

fn call_action(origin: AccountId, dest: AccountId, data: Vec<u8>, on_failure: CallFailure) -> (action:
    Action)
    ensures
        action@ == call_view(origin, dest, data@, on_failure),
{
    Action::ContractCall {
        origin,
        dest,
        value: 0,
        gas_limit: CONTRACT_GAS_LIMIT,
        data,
        on_failure,
    }
}

fn push_action(actions: &mut Vec<Action>, action: Action)
    ensures
        actions_view(final(actions)@) == actions_view(old(actions)@).push(action@),
{
    let ghost view = action@;
    actions.push(action);
    assert(actions_view(actions@) =~= actions_view(old(actions)@).push(view));
}

fn remark_transfer_message(to: &AccountId, value: Balance, remark: &str) -> (data: Vec<u8>)
    requires
        vstd::string::is_ascii(remark),
        remark@.len() <= 64,
    ensures
        data@ == spec_transfer_message(*to, value, remark.spec_bytes()),
{
    proof {
        vstd::string::is_ascii_spec_bytes(remark);
    }
    transfer_message(to, value, remark)
}

// ---------------------------------------------------------------------------
// Swap
// ---------------------------------------------------------------------------

/// The direction of a swap.
#[derive(Clone, Copy, Debug, PartialEq, Eq)]
pub enum SwapPair {
    UmiToPhpu,
    PhpuToUmi,
}

/// Everything a swap needs once its checks have passed.
#[derive(Clone, Copy, Debug, PartialEq, Eq)]
pub struct SwapOrder {
    pub source: AccountId,
    /// `None` when the tickers name no supported pair: the swap then moves nothing.
    pub pair: Option<SwapPair>,
    pub quantity: Balance,
    /// The quantity as a `u64`, or 0 when it does not fit.
    pub primitive_quantity: u64,
    pub umi_price: u64,
    pub phpu_price: u64,
    pub swap_fees: u64,
    pub dex_account: AccountId,
    pub phpu_liquidity_account: AccountId,
    pub umi_liquidity_account: AccountId,
    pub phpu_contract: AccountId,
}

/// The converted amounts of a swap, in the smallest unit of the token paid out:
/// the fee kept as income and what the swapper receives.
#[derive(Clone, Copy, Debug, PartialEq, Eq)]
pub struct SwapQuote {
    pub income: u64,
    pub net: u64,
}

/// The pair that two tickers name: `UMI` to `PHPU` or `PHPU` to `UMI`.
pub open spec fn spec_swap_pair(source_ticker: Seq<u8>, destination_ticker: Seq<u8>) -> Option<
    SwapPair,
> {
    if source_ticker == umi_symbol() && destination_ticker == phpu_symbol() {
        Some(SwapPair::UmiToPhpu)
    } else if source_ticker == phpu_symbol() && destination_ticker == umi_symbol() {
        Some(SwapPair::PhpuToUmi)
    } else {
        None
    }
}

/// The quantity as a `u64`, or 0 when it does not fit.
pub open spec fn spec_primitive_quantity(quantity: Balance) -> u64 {
    if quantity <= u64::MAX {
        quantity as u64
    } else {
        0
    }
}

/// Whether the stored settings that a swap reads are all present.
pub open spec fn swap_settings_present(state: DexState) -> bool {
    &&& state.dex_account is Some
    &&& state.phpu_liquidity_account is Some
    &&& state.umi_liquidity_account is Some
    &&& state.phpu_contract is Some
    &&& state.swap_fees is Some
}

/// The inputs on which a swap panics: a ticker, or the stored ticker data reached
/// after the settings checks, that is not UTF-8.
pub open spec fn swap_traps(
    state: DexState,
    origin: Origin,
    source_ticker: Seq<u8>,
    destination_ticker: Seq<u8>,
) -> bool {
    &&& origin is Signed
    &&& {
        ||| !valid_utf8(source_ticker)
        ||| !valid_utf8(destination_ticker)
        ||| (swap_settings_present(state) && state.ticker_data is Some && !valid_utf8(
            state.ticker_data->0,
        ))
    }
}

/// The checks of a swap, in order: a signed origin; the DEX account, the PHPU
/// liquidity account, the UMI liquidity account, the PHPU contract and the swap
/// fees; the ticker data; then its two prices.
pub open spec fn spec_do_swap(
    state: DexState,
    origin: Origin,
    source: AccountId,
    quantity: Balance,
    source_ticker: Seq<u8>,
    destination_ticker: Seq<u8>,
) -> Result<SwapOrder, DispatchError> {
    if !(origin is Signed) {
        Err(DispatchError::BadOrigin)
    } else if state.dex_account is None {
        Err(DispatchError::Module(Error::NoDexAccount))
    } else if state.phpu_liquidity_account is None {
        Err(DispatchError::Module(Error::NoPhpuLiquidityAccount))
    } else if state.umi_liquidity_account is None {
        Err(DispatchError::Module(Error::NoUmiLiquidityAccount))
    } else if state.phpu_contract is None {
        Err(DispatchError::Module(Error::NoPhpuContract))
    } else if state.swap_fees is None {
        Err(DispatchError::Module(Error::NoSwapFees))
    } else if state.ticker_data is None {
        Err(DispatchError::Module(Error::NoTickerPriceData))
    } else {
        match spec_ticker_prices(state.ticker_data->0) {
            Err(e) => Err(DispatchError::Module(e)),
            Ok((umi_price, phpu_price)) => Ok(
                SwapOrder {
                    source,
                    pair: spec_swap_pair(source_ticker, destination_ticker),
                    quantity,
                    primitive_quantity: spec_primitive_quantity(quantity),
                    umi_price,
                    phpu_price,
                    swap_fees: state.swap_fees->0,
                    dex_account: state.dex_account->0,
                    phpu_liquidity_account: state.phpu_liquidity_account->0,
                    umi_liquidity_account: state.umi_liquidity_account->0,
                    phpu_contract: state.phpu_contract->0,
                },
            ),
        }
    }
}

/// The effects of a swap, given its converted amounts.
///
/// UMI to PHPU: the UMI moves from the swapper to the UMI liquidity account, then
/// the PHPU contract, called by the PHPU liquidity account, pays `net` to the
/// swapper and `income` to the DEX account. PHPU to UMI: the swapper's PHPU moves
/// to the PHPU liquidity account through the PHPU contract, then `net` UMI goes
/// from the UMI liquidity account to the swapper and `income` to the DEX account.
pub open spec fn spec_swap_actions(order: SwapOrder, quote: SwapQuote) -> Seq<ActionView> {
    match order.pair {
        None => seq![],
        Some(SwapPair::UmiToPhpu) => seq![
            transfer_view(order.source, order.umi_liquidity_account, scaled_quantity(order.quantity)),
            call_view(
                order.phpu_liquidity_account,
                order.phpu_contract,
                spec_swap_message(order.source, quote.net as u128, order.dex_account, quote.income as u128),
                CallFailure::Ignored,
            ),
        ],
        Some(SwapPair::PhpuToUmi) => seq![
            call_view(
                order.source,
                order.phpu_contract,
                spec_transfer_message(
                    order.phpu_liquidity_account,
                    scaled_quantity(order.quantity),
                    remark_source_phpu(),
                ),
                CallFailure::Ignored,
            ),
            transfer_view(order.umi_liquidity_account, order.source, quote.net as u128),
            transfer_view(order.umi_liquidity_account, order.dex_account, quote.income as u128),
        ],
    }
}

fn swap_pair(source_ticker: &[u8], destination_ticker: &[u8]) -> (pair: Option<SwapPair>)
    ensures
        pair == spec_swap_pair(source_ticker@, destination_ticker@),
{
    let umi = symbol_umi();
    let phpu = symbol_phpu();
    if is_symbol(source_ticker, umi.as_slice()) && is_symbol(destination_ticker, phpu.as_slice()) {
        Some(SwapPair::UmiToPhpu)
    } else if is_symbol(source_ticker, phpu.as_slice()) && is_symbol(
        destination_ticker,
        umi.as_slice(),
    ) {
        Some(SwapPair::PhpuToUmi)
    } else {
        None
    }
}

fn primitive_quantity(quantity: Balance) -> (q: u64)
    ensures
        q == spec_primitive_quantity(quantity),
{
    if quantity <= u64::MAX as u128 {
        quantity as u64
    } else {
        0
    }
}

/// The effects of a swap, in order, for the amounts that the conversion gave.
pub fn swap_actions(order: &SwapOrder, quote: SwapQuote) -> (actions: Vec<Action>)
    ensures
        actions_view(actions@) == spec_swap_actions(*order, quote),
{
    let mut actions: Vec<Action> = Vec::new();
    assert(actions_view(actions@) =~= Seq::<ActionView>::empty());
    match order.pair {
        None => {},
        Some(SwapPair::UmiToPhpu) => {
            let umi = scale(order.quantity);
            push_action(
                &mut actions,
                transfer_action(order.source, order.umi_liquidity_account, umi),
            );
            let data = swap_message(
                &order.source,
                quote.net as u128,
                &order.dex_account,
                quote.income as u128,
            );
            push_action(
                &mut actions,
                call_action(
                    order.phpu_liquidity_account,
                    order.phpu_contract,
                    data,
                    CallFailure::Ignored,
                ),
            );
        },
        Some(SwapPair::PhpuToUmi) => {
            let remark = "Transfer source PHPU";
            proof {
                reveal_strlit("Transfer source PHPU");
            }
            let data = remark_transfer_message(
                &order.phpu_liquidity_account,
                scale(order.quantity),
                remark,
            );
            push_action(
                &mut actions,
                call_action(order.source, order.phpu_contract, data, CallFailure::Ignored),
            );
            push_action(
                &mut actions,
                transfer_action(order.umi_liquidity_account, order.source, quote.net as u128),
            );
            push_action(
                &mut actions,
                transfer_action(order.umi_liquidity_account, order.dex_account, quote.income as u128),
            );
        },
    }
    assert(actions_view(actions@) =~= spec_swap_actions(*order, quote));
    actions
}

impl Pallet {
    /// Checks a swap of `quantity` of `source_ticker` for `destination_ticker`
    /// and gathers what it needs. Its effects follow from [`swap_actions`] once
    /// the amounts are converted; [`Pallet::conclude`] then deposits `SwapExecuted`.
    pub fn do_swap(
        &self,
        origin: Origin,
        source: AccountId,
        quantity: Balance,
        source_ticker: Vec<u8>,
        destination_ticker: Vec<u8>,
    ) -> (r: Result<SwapOrder, DispatchError>)
        requires
            !swap_traps(self@, origin, source_ticker@, destination_ticker@),
        ensures
            r == spec_do_swap(self@, origin, source, quantity, source_ticker@, destination_ticker@),
    {
        if let Err(e) = ensure_signed(origin) {
            return Err(e);
        }
        let dex_account = match self.dex_account() {
            Some(a) => a,
            None => return Err(DispatchError::Module(Error::NoDexAccount)),
        };
        let phpu_liquidity_account = match self.phpu_liquidity_account() {
            Some(a) => a,
            None => return Err(DispatchError::Module(Error::NoPhpuLiquidityAccount)),
        };
        let umi_liquidity_account = match self.umi_liquidity_account() {
            Some(a) => a,
            None => return Err(DispatchError::Module(Error::NoUmiLiquidityAccount)),
        };
        let phpu_contract = match self.phpu_contract() {
            Some(a) => a,
            None => return Err(DispatchError::Module(Error::NoPhpuContract)),
        };
        let swap_fees = match self.swap_fees() {
            Some(f) => f,
            None => return Err(DispatchError::Module(Error::NoSwapFees)),
        };
        let primitive = primitive_quantity(quantity);
        let ticker_data = match self.ticker_data() {
            Some(d) => d,
            None => return Err(DispatchError::Module(Error::NoTickerPriceData)),
        };
        let (umi_price, phpu_price) = match ticker_prices(ticker_data.as_slice()) {
            Ok(prices) => prices,
            Err(e) => return Err(DispatchError::Module(e)),
        };
        Ok(
            SwapOrder {
                source,
                pair: swap_pair(source_ticker.as_slice(), destination_ticker.as_slice()),
                quantity,
                primitive_quantity: primitive,
                umi_price,
                phpu_price,
                swap_fees,
                dex_account,
                phpu_liquidity_account,
                umi_liquidity_account,
                phpu_contract,
            },
        )
    }
}

// ---------------------------------------------------------------------------
// Liquidity staking
// ---------------------------------------------------------------------------

/// The inputs on which staking or redeeming panics: a signed call with a ticker
/// that is not UTF-8.
pub open spec fn ticker_traps(origin: Origin, ticker: Seq<u8>) -> bool {
    origin is Signed && !valid_utf8(ticker)
}

/// Staking: for `UMI`, the UMI moves to the UMI liquidity account and the UMI
/// liquidity contract mints as much lUMI to the staker; for `PHPU`, the PHPU moves
/// to the PHPU liquidity account through the PHPU contract and the PHPU liquidity
/// contract mints as much lPHPU to the staker; any other ticker moves nothing.
pub open spec fn spec_do_liquidity_stake(
    state: DexState,
    origin: Origin,
    source: AccountId,
    quantity: Balance,
    ticker: Seq<u8>,
) -> Result<Seq<ActionView>, DispatchError> {
    let amount = scaled_quantity(quantity);
    if !(origin is Signed) {
        Err(DispatchError::BadOrigin)
    } else if ticker == umi_symbol() {
        if state.umi_liquidity_account is None {
            Err(DispatchError::Module(Error::NoUmiLiquidityAccount))
        } else if state.umi_liquidity_contract is None {
            Err(DispatchError::Module(Error::NoUmiLiquidityContract))
        } else {
            let pool = state.umi_liquidity_account->0;
            let token = state.umi_liquidity_contract->0;
            Ok(
                seq![
                    transfer_view(source, pool, amount),
                    call_view(source, token, spec_mint_to_message(source, amount), CallFailure::Ignored),
                ],
            )
        }
    } else if ticker == phpu_symbol() {
        if state.phpu_liquidity_account is None {
            Err(DispatchError::Module(Error::NoPhpuLiquidityAccount))
        } else if state.phpu_liquidity_contract is None {
            Err(DispatchError::Module(Error::NoPhpuLiquidityContract))
        } else if state.phpu_contract is None {
            Err(DispatchError::Module(Error::NoPhpuContract))
        } else {
            let pool = state.phpu_liquidity_account->0;
            let token = state.phpu_liquidity_contract->0;
            let phpu = state.phpu_contract->0;
            Ok(
                seq![
                    call_view(
                        source,
                        phpu,
                        spec_transfer_message(pool, amount, remark_source_phpu()),
                        CallFailure::Ignored,
                    ),
                    call_view(source, token, spec_mint_to_message(source, amount), CallFailure::Ignored),
                ],
            )
        }
    } else {
        Ok(seq![])
    }
}

// ---------------------------------------------------------------------------
// Liquidity redemption
// ---------------------------------------------------------------------------

/// Redemption. The checks, in order: a signed origin; the DEX account, the UMI
/// liquidity account, the PHPU liquidity account, the UMI liquidity contract, the
/// PHPU liquidity contract and the PHPU contract. Every redemption first queries
/// the lUMI total supply, and panics when that call fails. Then for `lUMI`: the
/// lUMI goes back to the UMI pool, the UMI comes back to the staker, and the
/// pool's lUMI is burnt; for `lPHPU`: the lPHPU goes back to the PHPU pool, the
/// PHPU comes back to the staker from that pool, and the pool's lPHPU is burnt by
/// a call from the DEX account; any other ticker does nothing more.
pub open spec fn spec_do_liquidity_redeem(
    state: DexState,
    origin: Origin,
    source: AccountId,
    quantity: Balance,
    ticker: Seq<u8>,
) -> Result<Seq<ActionView>, DispatchError> {
    let amount = scaled_quantity(quantity);
    if !(origin is Signed) {
        Err(DispatchError::BadOrigin)
    } else if state.dex_account is None {
        Err(DispatchError::Module(Error::NoDexAccount))
    } else if state.umi_liquidity_account is None {
        Err(DispatchError::Module(Error::NoUmiLiquidityAccount))
    } else if state.phpu_liquidity_account is None {
        Err(DispatchError::Module(Error::NoPhpuLiquidityAccount))
    } else if state.umi_liquidity_contract is None {
        Err(DispatchError::Module(Error::NoUmiLiquidityContract))
    } else if state.phpu_liquidity_contract is None {
        Err(DispatchError::Module(Error::NoPhpuLiquidityContract))
    } else if state.phpu_contract is None {
        Err(DispatchError::Module(Error::NoPhpuContract))
    } else {
        let dex = state.dex_account->0;
        let umi_pool = state.umi_liquidity_account->0;
        let phpu_pool = state.phpu_liquidity_account->0;
        let lumi = state.umi_liquidity_contract->0;
        let lphpu = state.phpu_liquidity_contract->0;
        let phpu = state.phpu_contract->0;
        let supply_query = seq![
            call_view(source, lumi, total_supply_selector(), CallFailure::Trap),
        ];
        if ticker == lumi_symbol() {
            Ok(
                supply_query + seq![
                    call_view(
                        source,
                        lumi,
                        spec_transfer_message(umi_pool, amount, remark_lumi()),
                        CallFailure::Ignored,
                    ),
                    transfer_view(umi_pool, source, amount),
                    call_view(umi_pool, lumi, spec_burn_message(umi_pool, amount), CallFailure::Ignored),
                ],
            )
        } else if ticker == lphpu_symbol() {
            Ok(
                supply_query + seq![
                    call_view(
                        source,
                        lphpu,
                        spec_transfer_message(phpu_pool, amount, remark_lphpu()),
                        CallFailure::Ignored,
                    ),
                    call_view(
                        phpu_pool,
                        phpu,
                        spec_transfer_message(source, amount, remark_phpu_to_source()),
                        CallFailure::Ignored,
                    ),
                    call_view(dex, lphpu, spec_burn_message(phpu_pool, amount), CallFailure::Ignored),
                ],
            )
        } else {
            Ok(supply_query)
        }
    }
}

fn symbol_umi() -> (s: Vec<u8>)
    ensures
        s@ == umi_symbol(),
{
    let s: Vec<u8> = vec![0x55, 0x4d, 0x49];
    assert(s@ =~= umi_symbol());
    s
}

fn symbol_phpu() -> (s: Vec<u8>)
    ensures
        s@ == phpu_symbol(),
{
    let s: Vec<u8> = vec![0x50, 0x48, 0x50, 0x55];
    assert(s@ =~= phpu_symbol());
    s
}

fn symbol_lumi() -> (s: Vec<u8>)
    ensures
        s@ == lumi_symbol(),
{
    let s: Vec<u8> = vec![0x6c, 0x55, 0x4d, 0x49];
    assert(s@ =~= lumi_symbol());
    s
}

fn symbol_lphpu() -> (s: Vec<u8>)
    ensures
        s@ == lphpu_symbol(),
{
    let s: Vec<u8> = vec![0x6c, 0x50, 0x48, 0x50, 0x55];
    assert(s@ =~= lphpu_symbol());
    s
}

impl Pallet {
    /// Stakes `quantity` of `source_ticker` to get liquidity tokens: checks the
    /// call and gives its effects, in order. [`Pallet::conclude`] deposits
    /// `StakeExecuted` once they have taken place.
    pub fn do_liquidity_stake(
        &self,
        origin: Origin,
        source: AccountId,
        quantity: Balance,
        source_ticker: Vec<u8>,
    ) -> (r: Result<Vec<Action>, DispatchError>)
        requires
            !ticker_traps(origin, source_ticker@),
        ensures
            plan_view(r) == spec_do_liquidity_stake(self@, origin, source, quantity, source_ticker@),
    {
        if let Err(e) = ensure_signed(origin) {
            return Err(e);
        }
        let amount = scale(quantity);
        let mut actions: Vec<Action> = Vec::new();
        assert(actions_view(actions@) =~= Seq::<ActionView>::empty());
        if is_symbol(source_ticker.as_slice(), symbol_umi().as_slice()) {
            let pool = match self.umi_liquidity_account() {
                Some(a) => a,
                None => return Err(DispatchError::Module(Error::NoUmiLiquidityAccount)),
            };
            let token = match self.umi_liquidity_contract() {
                Some(a) => a,
                None => return Err(DispatchError::Module(Error::NoUmiLiquidityContract)),
            };
            push_action(&mut actions, transfer_action(source, pool, amount));
            push_action(
                &mut actions,
                call_action(source, token, mint_to_message(&source, amount), CallFailure::Ignored),
            );
        } else if is_symbol(source_ticker.as_slice(), symbol_phpu().as_slice()) {
            let pool = match self.phpu_liquidity_account() {
                Some(a) => a,
                None => return Err(DispatchError::Module(Error::NoPhpuLiquidityAccount)),
            };
            let token = match self.phpu_liquidity_contract() {
                Some(a) => a,
                None => return Err(DispatchError::Module(Error::NoPhpuLiquidityContract)),
            };
            let phpu = match self.phpu_contract() {
                Some(a) => a,
                None => return Err(DispatchError::Module(Error::NoPhpuContract)),
            };
            let remark = "Transfer source PHPU";
            proof {
                reveal_strlit("Transfer source PHPU");
            }
            push_action(
                &mut actions,
                call_action(
                    source,
                    phpu,
                    remark_transfer_message(&pool, amount, remark),
                    CallFailure::Ignored,
                ),
            );
            push_action(
                &mut actions,
                call_action(source, token, mint_to_message(&source, amount), CallFailure::Ignored),
            );
        }
        assert(actions_view(actions@) =~= spec_do_liquidity_stake(
            self@,
            origin,
            source,
            quantity,
            source_ticker@,
        )->Ok_0);
        Ok(actions)
    }

    /// Redeems `quantity` of the liquidity token `source_ticker`: checks the call
    /// and gives its effects, in order. [`Pallet::conclude`] deposits
    /// `RedeemExecuted` once they have taken place.
    pub fn do_liquidity_redeem(
        &self,
        origin: Origin,
        source: AccountId,
        quantity: Balance,
        source_ticker: Vec<u8>,
    ) -> (r: Result<Vec<Action>, DispatchError>)
        requires
            !ticker_traps(origin, source_ticker@),
        ensures
            plan_view(r) == spec_do_liquidity_redeem(self@, origin, source, quantity, source_ticker@),
    {
        if let Err(e) = ensure_signed(origin) {
            return Err(e);
        }
        let amount = scale(quantity);
        let dex = match self.dex_account() {
            Some(a) => a,
            None => return Err(DispatchError::Module(Error::NoDexAccount)),
        };
        let umi_pool = match self.umi_liquidity_account() {
            Some(a) => a,
            None => return Err(DispatchError::Module(Error::NoUmiLiquidityAccount)),
        };
        let phpu_pool = match self.phpu_liquidity_account() {
            Some(a) => a,
            None => return Err(DispatchError::Module(Error::NoPhpuLiquidityAccount)),
        };
        let lumi = match self.umi_liquidity_contract() {
            Some(a) => a,
            None => return Err(DispatchError::Module(Error::NoUmiLiquidityContract)),
        };
        let lphpu = match self.phpu_liquidity_contract() {
            Some(a) => a,
            None => return Err(DispatchError::Module(Error::NoPhpuLiquidityContract)),
        };
        let phpu = match self.phpu_contract() {
            Some(a) => a,
            None => return Err(DispatchError::Module(Error::NoPhpuContract)),
        };
        let mut actions: Vec<Action> = Vec::new();
        assert(actions_view(actions@) =~= Seq::<ActionView>::empty());
        push_action(
            &mut actions,
            call_action(source, lumi, total_supply_message(), CallFailure::Trap),
        );
        if is_symbol(source_ticker.as_slice(), symbol_lumi().as_slice()) {
            let remark = "Transfer lUMI";
            proof {
                reveal_strlit("Transfer lUMI");
            }
            push_action(
                &mut actions,
                call_action(
                    source,
                    lumi,
                    remark_transfer_message(&umi_pool, amount, remark),
                    CallFailure::Ignored,
                ),
            );
            push_action(&mut actions, transfer_action(umi_pool, source, amount));
            push_action(
                &mut actions,
                call_action(umi_pool, lumi, burn_message(&umi_pool, amount), CallFailure::Ignored),
            );
        } else if is_symbol(source_ticker.as_slice(), symbol_lphpu().as_slice()) {
            let remark = "Transfer lPHPU";
            let back = "Transfer PHPU to source";
            proof {
                reveal_strlit("Transfer lPHPU");
                reveal_strlit("Transfer PHPU to source");
            }
            push_action(
                &mut actions,
                call_action(
                    source,
                    lphpu,
                    remark_transfer_message(&phpu_pool, amount, remark),
                    CallFailure::Ignored,
                ),
            );
            push_action(
                &mut actions,
                call_action(
                    phpu_pool,
                    phpu,
                    remark_transfer_message(&source, amount, back),
                    CallFailure::Ignored,
                ),
            );
            push_action(
                &mut actions,
                call_action(dex, lphpu, burn_message(&phpu_pool, amount), CallFailure::Ignored),
            );
        }
        assert(actions_view(actions@) =~= spec_do_liquidity_redeem(
            self@,
            origin,
            source,
            quantity,
            source_ticker@,
        )->Ok_0);
        Ok(actions)
    }
}

} // verus!
