use vstd::prelude::*;

use crate::state::{spec_cause_error, spec_store, DexState, Setting};
use crate::types::{
    ensure_root, ensure_signed, AccountId, DispatchError, Error, Event, EventView, Origin,
};

verus! {

/// The DEX pallet: its storage items and the events it has deposited.
pub struct Pallet {
    something: Option<u32>,
    ticker_data: Option<Vec<u8>>,
    dex_account: Option<AccountId>,
    phpu_liquidity_account: Option<AccountId>,
    umi_liquidity_account: Option<AccountId>,
    phpu_contract: Option<AccountId>,
    phpu_liquidity_contract: Option<AccountId>,
    umi_liquidity_contract: Option<AccountId>,
    swap_fees: Option<u64>,
    events: Vec<Event>,
}

/// A call whose outside effects have all taken place, and the account it served.
#[derive(Clone, Copy, Debug, PartialEq, Eq)]
pub enum Completion {
    Swap(AccountId),
    Stake(AccountId),
    Redeem(AccountId),
}

impl Completion {
    /// The event that announces the completed call.
    pub open spec fn event(self) -> EventView {
        match self {
            Completion::Swap(who) => EventView::SwapExecuted(who),
            Completion::Stake(who) => EventView::StakeExecuted(who),
            Completion::Redeem(who) => EventView::RedeemExecuted(who),
        }
    }
}

/// The mathematical value of stored bytes.
pub open spec fn bytes_view(data: Option<Vec<u8>>) -> Option<Seq<u8>> {
    match data {
        Some(d) => Some(d@),
        None => None,
    }
}

/// The mathematical value of a list of events.
pub open spec fn events_view(events: Seq<Event>) -> Seq<EventView> {
    events.map_values(|e: Event| e@)
}

impl View for Pallet {
    type V = DexState;

    closed spec fn view(&self) -> DexState {
        DexState {
            something: self.something,
            ticker_data: bytes_view(self.ticker_data),
            dex_account: self.dex_account,
            phpu_liquidity_account: self.phpu_liquidity_account,
            umi_liquidity_account: self.umi_liquidity_account,
            phpu_contract: self.phpu_contract,
            phpu_liquidity_contract: self.phpu_liquidity_contract,
            umi_liquidity_contract: self.umi_liquidity_contract,
            swap_fees: self.swap_fees,
            events: events_view(self.events@),
        }
    }
}

pub(crate) fn copy_bytes(data: &Vec<u8>) -> (copy: Vec<u8>)
    ensures
        copy@ == data@,
{
    let copy = data.clone();
    assert(copy@ =~= data@);
    copy
}

impl Pallet {
    /// A pallet with empty storage and no events.
    pub fn new() -> (pallet: Pallet)
        ensures
            pallet@ == DexState::genesis(),
    {
        let pallet = Pallet {
            something: None,
            ticker_data: None,
            dex_account: None,
            phpu_liquidity_account: None,
            umi_liquidity_account: None,
            phpu_contract: None,
            phpu_liquidity_contract: None,
            umi_liquidity_contract: None,
            swap_fees: None,
            events: Vec::new(),
        };
        assert(pallet@.events =~= Seq::<EventView>::empty());
        pallet
    }

    /// The stored counter.
    pub fn something(&self) -> (r: Option<u32>)
        ensures
            r == self@.something,
    {
        self.something
    }

    /// The stored ticker price data.
    pub fn ticker_data(&self) -> (r: Option<Vec<u8>>)
        ensures
            bytes_view(r) == self@.ticker_data,
    {
        match &self.ticker_data {
            Some(data) => Some(copy_bytes(data)),
            None => None,
        }
    }

    /// The account that collects the DEX income.
    pub fn dex_account(&self) -> (r: Option<AccountId>)
        ensures
            r == self@.dex_account,
    {
        self.dex_account
    }

    /// The PHPU liquidity pool account.
    pub fn phpu_liquidity_account(&self) -> (r: Option<AccountId>)
        ensures
            r == self@.phpu_liquidity_account,
    {
        self.phpu_liquidity_account
    }

    /// The UMI liquidity pool account.
    pub fn umi_liquidity_account(&self) -> (r: Option<AccountId>)
        ensures
            r == self@.umi_liquidity_account,
    {
        self.umi_liquidity_account
    }

    /// The PHPU token contract.
    pub fn phpu_contract(&self) -> (r: Option<AccountId>)
        ensures
            r == self@.phpu_contract,
    {
        self.phpu_contract
    }

    /// The PHPU liquidity token contract.
    pub fn phpu_liquidity_contract(&self) -> (r: Option<AccountId>)
        ensures
            r == self@.phpu_liquidity_contract,
    {
        self.phpu_liquidity_contract
    }

    /// The UMI liquidity token contract.
    pub fn umi_liquidity_contract(&self) -> (r: Option<AccountId>)
        ensures
            r == self@.umi_liquidity_contract,
    {
        self.umi_liquidity_contract
    }

    /// The swap fees, a percentage.
    pub fn swap_fees(&self) -> (r: Option<u64>)
        ensures
            r == self@.swap_fees,
    {
        self.swap_fees
    }

    /// The events deposited so far, oldest first.
    pub fn events(&self) -> (r: &Vec<Event>)
        ensures
            events_view(r@) == self@.events,
    {
        &self.events
    }

    /// Deposits the event that closes a completed call.
    pub(crate) fn deposit_completion(&mut self, completion: Completion)
        ensures
            final(self)@ == old(self)@.deposit(completion.event()),
    {
        let event = match completion {
            Completion::Swap(who) => Event::SwapExecuted(who),
            Completion::Stake(who) => Event::StakeExecuted(who),
            Completion::Redeem(who) => Event::RedeemExecuted(who),
        };
        self.deposit_event(event);
    }

    fn deposit_event(&mut self, event: Event)
        ensures
            final(self)@ == old(self)@.deposit(event@),
    {
        self.events.push(event);
        assert(events_view(self.events@) =~= events_view(old(self).events@).push(event@));
    }

    /// Setup the ticker prices.
    pub fn store_ticker_price(&mut self, origin: Origin, ticker_data: Vec<u8>) -> (r: Result<
        (),
        DispatchError,
    >)
        ensures
            (final(self)@, r) == spec_store(old(self)@, origin, Setting::TickerData(ticker_data@)),
    {
        match ensure_root(origin) {
            Err(e) => Err(e),
            Ok(()) => {
                self.ticker_data = Some(copy_bytes(&ticker_data));
                self.deposit_event(Event::TickerPriceDataStored(ticker_data));
                Ok(())
            },
        }
    }

    /// Setup the DEX account.
    pub fn store_dex_account(&mut self, origin: Origin, dex_account: AccountId) -> (r: Result<
        (),
        DispatchError,
    >)
        ensures
            (final(self)@, r) == spec_store(old(self)@, origin, Setting::DexAccount(dex_account)),
    {
        match ensure_root(origin) {
            Err(e) => Err(e),
            Ok(()) => {
                self.dex_account = Some(dex_account);
                self.deposit_event(Event::DexAccountDataStored(dex_account));
                Ok(())
            },
        }
    }

    /// Setup the UMI liquidity account.
    pub fn store_umi_liquidity_account(
        &mut self,
        origin: Origin,
        umi_liquidity_account: AccountId,
    ) -> (r: Result<(), DispatchError>)
        ensures
            (final(self)@, r) == spec_store(
                old(self)@,
                origin,
                Setting::UmiLiquidityAccount(umi_liquidity_account),
            ),
    {
        match ensure_root(origin) {
            Err(e) => Err(e),
            Ok(()) => {
                self.umi_liquidity_account = Some(umi_liquidity_account);
                self.deposit_event(Event::UmiLiquidityAccountDataStored(umi_liquidity_account));
                Ok(())
            },
        }
    }

    /// Setup the PHPU liquidity account.
    pub fn store_phpu_liquidity_account(
        &mut self,
        origin: Origin,
        phpu_liquidity_account: AccountId,
    ) -> (r: Result<(), DispatchError>)
        ensures
            (final(self)@, r) == spec_store(
                old(self)@,
                origin,
                Setting::PhpuLiquidityAccount(phpu_liquidity_account),
            ),
    {
        match ensure_root(origin) {
            Err(e) => Err(e),
            Ok(()) => {
                self.phpu_liquidity_account = Some(phpu_liquidity_account);
                self.deposit_event(Event::PhpuLiquidityAccountDataStored(phpu_liquidity_account));
                Ok(())
            },
        }
    }

    /// Setup the PHPU smart contract.
    pub fn store_phpu_contract(&mut self, origin: Origin, phpu_contract: AccountId) -> (r: Result<
        (),
        DispatchError,
    >)
        ensures
            (final(self)@, r) == spec_store(old(self)@, origin, Setting::PhpuContract(phpu_contract)),
    {
        match ensure_root(origin) {
            Err(e) => Err(e),
            Ok(()) => {
                self.phpu_contract = Some(phpu_contract);
                self.deposit_event(Event::PhpuContractDataStored(phpu_contract));
                Ok(())
            },
        }
    }

    /// Setup the UMI liquidity smart contract.
    pub fn store_umi_liquidity_contract(
        &mut self,
        origin: Origin,
        umi_liquidity_contract: AccountId,
    ) -> (r: Result<(), DispatchError>)
        ensures
            (final(self)@, r) == spec_store(
                old(self)@,
                origin,
                Setting::UmiLiquidityContract(umi_liquidity_contract),
            ),
    {
        match ensure_root(origin) {
            Err(e) => Err(e),
            Ok(()) => {
                self.umi_liquidity_contract = Some(umi_liquidity_contract);
                self.deposit_event(Event::UmiLiquidityContractDataStored(umi_liquidity_contract));
                Ok(())
            },
        }
    }

    /// Setup the PHPU liquidity smart contract.
    pub fn store_phpu_liquidity_contract(
        &mut self,
        origin: Origin,
        phpu_liquidity_contract: AccountId,
    ) -> (r: Result<(), DispatchError>)
        ensures
            (final(self)@, r) == spec_store(
                old(self)@,
                origin,
                Setting::PhpuLiquidityContract(phpu_liquidity_contract),
            ),
    {
        match ensure_root(origin) {
            Err(e) => Err(e),
            Ok(()) => {
                self.phpu_liquidity_contract = Some(phpu_liquidity_contract);
                self.deposit_event(Event::PhpuLiquidityContractDataStored(phpu_liquidity_contract));
                Ok(())
            },
        }
    }

    /// Setup the swap fees (a percentage).
    pub fn store_swap_fees(&mut self, origin: Origin, swap_fees: u64) -> (r: Result<
        (),
        DispatchError,
    >)
        ensures
            (final(self)@, r) == spec_store(old(self)@, origin, Setting::SwapFees(swap_fees)),
    {
        match ensure_root(origin) {
            Err(e) => Err(e),
            Ok(()) => {
                self.swap_fees = Some(swap_fees);
                self.deposit_event(Event::SwapFeesDataStored(swap_fees));
                Ok(())
            },
        }
    }

    /// Increments the stored counter; errors when it is unset or would overflow.
    pub fn cause_error(&mut self, origin: Origin) -> (r: Result<(), DispatchError>)
        ensures
            (final(self)@, r) == spec_cause_error(old(self)@, origin),
    {
        match ensure_signed(origin) {
            Err(e) => Err(e),
            Ok(_who) => match self.something {
                None => Err(DispatchError::Module(Error::NoneValue)),
                Some(old) => match old.checked_add(1) {
                    None => Err(DispatchError::Module(Error::StorageOverflow)),
                    Some(new) => {
                        self.something = Some(new);
                        Ok(())
                    },
                },
            },
        }
    }
}

} // verus!
