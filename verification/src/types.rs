use vstd::prelude::*;

verus! {

/// A 32-byte account identifier, the runtime's `AccountId32`.
pub type AccountId = [u8; 32];

/// The runtime's balance type.
pub type Balance = u128;

/// Who dispatched a call: the root authority, a signed account, or nobody.
#[derive(Clone, Copy, Debug, PartialEq, Eq)]
pub enum Origin {
    Root,
    Signed(AccountId),
    Unsigned,
}

/// The pallet's own errors.
#[derive(Clone, Copy, Debug, PartialEq, Eq)]
pub enum Error {
    NoneValue,
    NoTickerPriceData,
    TickerPriceDataInvalid,
    TickerPriceInvalid,
    NoDexAccount,
    NoUmiLiquidityAccount,
    NoPhpuLiquidityAccount,
    StorageOverflow,
    InsufficientFunds,
    NoPhpuContract,
    NoUmiLiquidityContract,
    NoPhpuLiquidityContract,
    NoSwapFees,
    NoLiquiditySupply,
}

/// Why a dispatch was refused: the origin was not allowed, or the pallet refused it.
#[derive(Clone, Copy, Debug, PartialEq, Eq)]
pub enum DispatchError {
    BadOrigin,
    Module(Error),
}

/// The events the pallet deposits.
#[derive(Clone, Debug, PartialEq, Eq)]
pub enum Event {
    SomethingStored(u32, AccountId),
    TickerPriceDataStored(Vec<u8>),
    DexAccountDataStored(AccountId),
    UmiLiquidityAccountDataStored(AccountId),
    PhpuLiquidityAccountDataStored(AccountId),
    PhpuContractDataStored(AccountId),
    UmiLiquidityContractDataStored(AccountId),
    PhpuLiquidityContractDataStored(AccountId),
    DexIncomeAccountDataStored(AccountId),
    SwapExecuted(AccountId),
    StakeExecuted(AccountId),
    RedeemExecuted(AccountId),
    SentPhpu(AccountId),
    SwapFeesDataStored(u64),
}

/// The mathematical form of an [`Event`]: byte vectors become sequences.
pub enum EventView {
    SomethingStored(u32, AccountId),
    TickerPriceDataStored(Seq<u8>),
    DexAccountDataStored(AccountId),
    UmiLiquidityAccountDataStored(AccountId),
    PhpuLiquidityAccountDataStored(AccountId),
    PhpuContractDataStored(AccountId),
    UmiLiquidityContractDataStored(AccountId),
    PhpuLiquidityContractDataStored(AccountId),
    DexIncomeAccountDataStored(AccountId),
    SwapExecuted(AccountId),
    StakeExecuted(AccountId),
    RedeemExecuted(AccountId),
    SentPhpu(AccountId),
    SwapFeesDataStored(u64),
}

impl View for Event {
    type V = EventView;

    open spec fn view(&self) -> EventView {
        match self {
            Event::SomethingStored(v, a) => EventView::SomethingStored(*v, *a),
            Event::TickerPriceDataStored(d) => EventView::TickerPriceDataStored(d@),
            Event::DexAccountDataStored(a) => EventView::DexAccountDataStored(*a),
            Event::UmiLiquidityAccountDataStored(a) => EventView::UmiLiquidityAccountDataStored(*a),
            Event::PhpuLiquidityAccountDataStored(a) => EventView::PhpuLiquidityAccountDataStored(*a),
            Event::PhpuContractDataStored(a) => EventView::PhpuContractDataStored(*a),
            Event::UmiLiquidityContractDataStored(a) => EventView::UmiLiquidityContractDataStored(*a),
            Event::PhpuLiquidityContractDataStored(a) => EventView::PhpuLiquidityContractDataStored(*a),
            Event::DexIncomeAccountDataStored(a) => EventView::DexIncomeAccountDataStored(*a),
            Event::SwapExecuted(a) => EventView::SwapExecuted(*a),
            Event::StakeExecuted(a) => EventView::StakeExecuted(*a),
            Event::RedeemExecuted(a) => EventView::RedeemExecuted(*a),
            Event::SentPhpu(a) => EventView::SentPhpu(*a),
            Event::SwapFeesDataStored(f) => EventView::SwapFeesDataStored(*f),
        }
    }
}

/// `Ok` with the signer of a signed origin, `BadOrigin` otherwise.
pub open spec fn spec_ensure_signed(origin: Origin) -> Result<AccountId, DispatchError> {
    match origin {
        Origin::Signed(who) => Ok(who),
        _ => Err(DispatchError::BadOrigin),
    }
}

/// `Ok` for the root origin, `BadOrigin` otherwise.
pub open spec fn spec_ensure_root(origin: Origin) -> Result<(), DispatchError> {
    match origin {
        Origin::Root => Ok(()),
        _ => Err(DispatchError::BadOrigin),
    }
}

/// Accepts a signed origin and gives back its signer.
pub fn ensure_signed(origin: Origin) -> (r: Result<AccountId, DispatchError>)
    ensures
        r == spec_ensure_signed(origin),
{
    match origin {
        Origin::Signed(who) => Ok(who),
        _ => Err(DispatchError::BadOrigin),
    }
}

/// Accepts the root origin only.
pub fn ensure_root(origin: Origin) -> (r: Result<(), DispatchError>)
    ensures
        r == spec_ensure_root(origin),
{
    match origin {
        Origin::Root => Ok(()),
        _ => Err(DispatchError::BadOrigin),
    }
}

} // verus!
