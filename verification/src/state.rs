use vstd::prelude::*;

use crate::pallet::Completion;
use crate::types::{AccountId, DispatchError, Error, EventView, Origin};

verus! {

/// The pallet's storage, as a mathematical value.
pub struct DexState {
    pub something: Option<u32>,
    pub ticker_data: Option<Seq<u8>>,
    pub dex_account: Option<AccountId>,
    pub phpu_liquidity_account: Option<AccountId>,
    pub umi_liquidity_account: Option<AccountId>,
    pub phpu_contract: Option<AccountId>,
    pub phpu_liquidity_contract: Option<AccountId>,
    pub umi_liquidity_contract: Option<AccountId>,
    pub swap_fees: Option<u64>,
    /// The events deposited so far, oldest first.
    pub events: Seq<EventView>,
}

/// One configuration item that the root authority can set, with its new value.
pub enum Setting {
    TickerData(Seq<u8>),
    DexAccount(AccountId),
    UmiLiquidityAccount(AccountId),
    PhpuLiquidityAccount(AccountId),
    PhpuContract(AccountId),
    UmiLiquidityContract(AccountId),
    PhpuLiquidityContract(AccountId),
    SwapFees(u64),
}

impl Setting {
    /// Whether two settings address the same storage item.
    pub open spec fn same_item(self, other: Setting) -> bool {
        match (self, other) {
            (Setting::TickerData(_), Setting::TickerData(_)) => true,
            (Setting::DexAccount(_), Setting::DexAccount(_)) => true,
            (Setting::UmiLiquidityAccount(_), Setting::UmiLiquidityAccount(_)) => true,
            (Setting::PhpuLiquidityAccount(_), Setting::PhpuLiquidityAccount(_)) => true,
            (Setting::PhpuContract(_), Setting::PhpuContract(_)) => true,
            (Setting::UmiLiquidityContract(_), Setting::UmiLiquidityContract(_)) => true,
            (Setting::PhpuLiquidityContract(_), Setting::PhpuLiquidityContract(_)) => true,
            (Setting::SwapFees(_), Setting::SwapFees(_)) => true,
            _ => false,
        }
    }

    /// The event that announces this setting.
    pub open spec fn event(self) -> EventView {
        match self {
            Setting::TickerData(d) => EventView::TickerPriceDataStored(d),
            Setting::DexAccount(a) => EventView::DexAccountDataStored(a),
            Setting::UmiLiquidityAccount(a) => EventView::UmiLiquidityAccountDataStored(a),
            Setting::PhpuLiquidityAccount(a) => EventView::PhpuLiquidityAccountDataStored(a),
            Setting::PhpuContract(a) => EventView::PhpuContractDataStored(a),
            Setting::UmiLiquidityContract(a) => EventView::UmiLiquidityContractDataStored(a),
            Setting::PhpuLiquidityContract(a) => EventView::PhpuLiquidityContractDataStored(a),
            Setting::SwapFees(f) => EventView::SwapFeesDataStored(f),
        }
    }
}

impl DexState {
    /// The empty storage of a fresh chain.
    pub open spec fn genesis() -> DexState {
        DexState {
            something: None,
            ticker_data: None,
            dex_account: None,
            phpu_liquidity_account: None,
            umi_liquidity_account: None,
            phpu_contract: None,
            phpu_liquidity_contract: None,
            umi_liquidity_contract: None,
            swap_fees: None,
            events: Seq::empty(),
        }
    }

    /// The storage with one configuration item replaced.
    pub open spec fn with_setting(self, setting: Setting) -> DexState {
        match setting {
            Setting::TickerData(d) => DexState { ticker_data: Some(d), ..self },
            Setting::DexAccount(a) => DexState { dex_account: Some(a), ..self },
            Setting::UmiLiquidityAccount(a) => DexState { umi_liquidity_account: Some(a), ..self },
            Setting::PhpuLiquidityAccount(a) => DexState { phpu_liquidity_account: Some(a), ..self },
            Setting::PhpuContract(a) => DexState { phpu_contract: Some(a), ..self },
            Setting::UmiLiquidityContract(a) => DexState { umi_liquidity_contract: Some(a), ..self },
            Setting::PhpuLiquidityContract(a) => DexState {
                phpu_liquidity_contract: Some(a),
                ..self
            },
            Setting::SwapFees(f) => DexState { swap_fees: Some(f), ..self },
        }
    }

    /// Whether the storage currently holds `setting`.
    pub open spec fn holds(self, setting: Setting) -> bool {
        match setting {
            Setting::TickerData(d) => self.ticker_data == Some(d),
            Setting::DexAccount(a) => self.dex_account == Some(a),
            Setting::UmiLiquidityAccount(a) => self.umi_liquidity_account == Some(a),
            Setting::PhpuLiquidityAccount(a) => self.phpu_liquidity_account == Some(a),
            Setting::PhpuContract(a) => self.phpu_contract == Some(a),
            Setting::UmiLiquidityContract(a) => self.umi_liquidity_contract == Some(a),
            Setting::PhpuLiquidityContract(a) => self.phpu_liquidity_contract == Some(a),
            Setting::SwapFees(f) => self.swap_fees == Some(f),
        }
    }

    /// The storage with one more event deposited.
    pub open spec fn deposit(self, event: EventView) -> DexState {
        DexState { events: self.events.push(event), ..self }
    }

    /// Everything but the deposited events.
    pub open spec fn config(self) -> DexState {
        DexState { events: Seq::empty(), ..self }
    }
}

/// What a root-only setter does: from the root origin it stores the setting and
/// announces it; from any other origin it is refused with `BadOrigin` and nothing
/// changes.
pub open spec fn spec_store(state: DexState, origin: Origin, setting: Setting) -> (
    DexState,
    Result<(), DispatchError>,
) {
    match origin {
        Origin::Root => (state.with_setting(setting).deposit(setting.event()), Ok(())),
        _ => (state, Err(DispatchError::BadOrigin)),
    }
}

/// What `cause_error` does: a signed origin increments the stored counter, which
/// must be present and below `u32::MAX`.
pub open spec fn spec_cause_error(state: DexState, origin: Origin) -> (
    DexState,
    Result<(), DispatchError>,
) {
    match origin {
        Origin::Signed(_) => match state.something {
            None => (state, Err(DispatchError::Module(Error::NoneValue))),
            Some(old) => if old == u32::MAX {
                (state, Err(DispatchError::Module(Error::StorageOverflow)))
            } else {
                (DexState { something: Some((old + 1) as u32), ..state }, Ok(()))
            },
        },
        _ => (state, Err(DispatchError::BadOrigin)),
    }
}

/// A call that can change the pallet's storage. Swapping, staking and redeeming
/// only read the storage until they complete, so each appears as its completion.
pub enum DexCall {
    Store(Origin, Setting),
    CauseError(Origin),
    Complete(Completion),
}

/// The storage after one call.
pub open spec fn spec_apply(state: DexState, call: DexCall) -> DexState {
    match call {
        DexCall::Store(origin, setting) => spec_store(state, origin, setting).0,
        DexCall::CauseError(origin) => spec_cause_error(state, origin).0,
        DexCall::Complete(completion) => state.deposit(completion.event()),
    }
}

/// The storage after a sequence of calls, in order.
pub open spec fn spec_apply_all(state: DexState, calls: Seq<DexCall>) -> DexState
    decreases calls.len(),
{
    if calls.len() == 0 {
        state
    } else {
        spec_apply_all(spec_apply(state, calls[0]), calls.drop_first())
    }
}

} // verus!
