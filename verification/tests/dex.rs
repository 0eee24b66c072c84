use humidefi_dex::dispatch::{
    swap_actions, Action, CallFailure, SwapOrder, SwapPair, SwapQuote, CONTRACT_GAS_LIMIT,
    DECIMAL_MULTIPLIER,
};
use humidefi_dex::messages::{burn_message, mint_to_message, swap_message, total_supply_message, transfer_message};
use humidefi_dex::execution::{step, ActionOutcome, CallRun, Step};
use humidefi_dex::pallet::{Completion, Pallet};
use humidefi_dex::types::{AccountId, DispatchError, Error, Event, Origin};

fn account(tag: u8) -> AccountId {
    [tag; 32]
}

const ALICE: u8 = 1;
const DEX: u8 = 2;
const PHPU_POOL: u8 = 3;
const UMI_POOL: u8 = 4;
const PHPU_TOKEN: u8 = 5;
const LPHPU_TOKEN: u8 = 6;
const LUMI_TOKEN: u8 = 7;

const PRICES: &str = r#"[{"ticker":"UMI","price_in_usd":2},{"ticker":"PHPU","price_in_usd":50}]"#;

fn configured() -> Pallet {
    let mut p = Pallet::new();
    p.store_dex_account(Origin::Root, account(DEX)).unwrap();
    p.store_phpu_liquidity_account(Origin::Root, account(PHPU_POOL)).unwrap();
    p.store_umi_liquidity_account(Origin::Root, account(UMI_POOL)).unwrap();
    p.store_phpu_contract(Origin::Root, account(PHPU_TOKEN)).unwrap();
    p.store_phpu_liquidity_contract(Origin::Root, account(LPHPU_TOKEN)).unwrap();
    p.store_umi_liquidity_contract(Origin::Root, account(LUMI_TOKEN)).unwrap();
    p.store_swap_fees(Origin::Root, 3).unwrap();
    p.store_ticker_price(Origin::Root, PRICES.as_bytes().to_vec()).unwrap();
    p
}

fn signed() -> Origin {
    Origin::Signed(account(ALICE))
}

fn call(origin: AccountId, dest: AccountId, data: Vec<u8>, on_failure: CallFailure) -> Action {
    Action::ContractCall { origin, dest, value: 0, gas_limit: CONTRACT_GAS_LIMIT, data, on_failure }
}

#[test]
fn new_pallet_is_empty() {
    let p = Pallet::new();
    assert_eq!(p.something(), None);
    assert_eq!(p.ticker_data(), None);
    assert_eq!(p.dex_account(), None);
    assert_eq!(p.swap_fees(), None);
    assert!(p.events().is_empty());
}

#[test]
fn root_store_then_read() {
    let mut p = Pallet::new();
    assert_eq!(p.store_dex_account(Origin::Root, account(9)), Ok(()));
    assert_eq!(p.dex_account(), Some(account(9)));
    assert_eq!(p.events(), &vec![Event::DexAccountDataStored(account(9))]);
    assert_eq!(p.store_ticker_price(Origin::Root, vec![1, 2, 3]), Ok(()));
    assert_eq!(p.ticker_data(), Some(vec![1, 2, 3]));
    assert_eq!(p.events()[1], Event::TickerPriceDataStored(vec![1, 2, 3]));
    assert_eq!(p.store_swap_fees(Origin::Root, 7), Ok(()));
    assert_eq!(p.swap_fees(), Some(7));
    assert_eq!(p.events()[2], Event::SwapFeesDataStored(7));
}

#[test]
fn each_setter_stores_its_item() {
    let p = configured();
    assert_eq!(p.phpu_liquidity_account(), Some(account(PHPU_POOL)));
    assert_eq!(p.umi_liquidity_account(), Some(account(UMI_POOL)));
    assert_eq!(p.phpu_contract(), Some(account(PHPU_TOKEN)));
    assert_eq!(p.phpu_liquidity_contract(), Some(account(LPHPU_TOKEN)));
    assert_eq!(p.umi_liquidity_contract(), Some(account(LUMI_TOKEN)));
    assert_eq!(p.events().len(), 8);
    assert_eq!(p.events()[4], Event::PhpuLiquidityContractDataStored(account(LPHPU_TOKEN)));
    assert_eq!(p.events()[5], Event::UmiLiquidityContractDataStored(account(LUMI_TOKEN)));
}

#[test]
fn later_store_wins() {
    let mut p = Pallet::new();
    p.store_phpu_contract(Origin::Root, account(1)).unwrap();
    p.store_phpu_contract(Origin::Root, account(2)).unwrap();
    assert_eq!(p.phpu_contract(), Some(account(2)));
    assert_eq!(p.events().len(), 2);
}

#[test]
fn non_root_store_is_refused() {
    let mut p = Pallet::new();
    assert_eq!(p.store_swap_fees(signed(), 5), Err(DispatchError::BadOrigin));
    assert_eq!(p.store_dex_account(Origin::Unsigned, account(3)), Err(DispatchError::BadOrigin));
    assert_eq!(p.swap_fees(), None);
    assert_eq!(p.dex_account(), None);
    assert!(p.events().is_empty());
}

#[test]
fn cause_error_needs_signed_origin_and_a_value() {
    let mut p = Pallet::new();
    assert_eq!(p.cause_error(Origin::Root), Err(DispatchError::BadOrigin));
    assert_eq!(p.cause_error(signed()), Err(DispatchError::Module(Error::NoneValue)));
    assert_eq!(p.something(), None);
}

#[test]
fn swap_checks_come_in_order() {
    let mut p = Pallet::new();
    let umi = b"UMI".to_vec();
    let phpu = b"PHPU".to_vec();
    assert_eq!(p.do_swap(Origin::Root, account(ALICE), 1, umi.clone(), phpu.clone()), Err(DispatchError::BadOrigin));
    assert_eq!(
        p.do_swap(signed(), account(ALICE), 1, umi.clone(), phpu.clone()),
        Err(DispatchError::Module(Error::NoDexAccount))
    );
    p.store_dex_account(Origin::Root, account(DEX)).unwrap();
    assert_eq!(
        p.do_swap(signed(), account(ALICE), 1, umi.clone(), phpu.clone()),
        Err(DispatchError::Module(Error::NoPhpuLiquidityAccount))
    );
    p.store_phpu_liquidity_account(Origin::Root, account(PHPU_POOL)).unwrap();
    assert_eq!(
        p.do_swap(signed(), account(ALICE), 1, umi.clone(), phpu.clone()),
        Err(DispatchError::Module(Error::NoUmiLiquidityAccount))
    );
    p.store_umi_liquidity_account(Origin::Root, account(UMI_POOL)).unwrap();
    assert_eq!(
        p.do_swap(signed(), account(ALICE), 1, umi.clone(), phpu.clone()),
        Err(DispatchError::Module(Error::NoPhpuContract))
    );
    p.store_phpu_contract(Origin::Root, account(PHPU_TOKEN)).unwrap();
    assert_eq!(
        p.do_swap(signed(), account(ALICE), 1, umi.clone(), phpu.clone()),
        Err(DispatchError::Module(Error::NoSwapFees))
    );
    p.store_swap_fees(Origin::Root, 3).unwrap();
    assert_eq!(
        p.do_swap(signed(), account(ALICE), 1, umi.clone(), phpu.clone()),
        Err(DispatchError::Module(Error::NoTickerPriceData))
    );
    p.store_ticker_price(Origin::Root, b"not json".to_vec()).unwrap();
    assert_eq!(
        p.do_swap(signed(), account(ALICE), 1, umi.clone(), phpu.clone()),
        Err(DispatchError::Module(Error::TickerPriceDataInvalid))
    );
    p.store_ticker_price(Origin::Root, br#"[{"price_in_usd":2}]"#.to_vec()).unwrap();
    assert_eq!(
        p.do_swap(signed(), account(ALICE), 1, umi.clone(), phpu.clone()),
        Err(DispatchError::Module(Error::TickerPriceInvalid))
    );
    p.store_ticker_price(Origin::Root, br#"[{"price_in_usd":-2},{"price_in_usd":5}]"#.to_vec()).unwrap();
    assert_eq!(
        p.do_swap(signed(), account(ALICE), 1, umi.clone(), phpu.clone()),
        Err(DispatchError::Module(Error::TickerPriceInvalid))
    );
}

#[test]
fn swap_order_gathers_settings_and_prices() {
    let p = configured();
    let order = p.do_swap(signed(), account(ALICE), 7, b"UMI".to_vec(), b"PHPU".to_vec()).unwrap();
    assert_eq!(
        order,
        SwapOrder {
            source: account(ALICE),
            pair: Some(SwapPair::UmiToPhpu),
            quantity: 7,
            primitive_quantity: 7,
            umi_price: 2,
            phpu_price: 50,
            swap_fees: 3,
            dex_account: account(DEX),
            phpu_liquidity_account: account(PHPU_POOL),
            umi_liquidity_account: account(UMI_POOL),
            phpu_contract: account(PHPU_TOKEN),
        }
    );
    let back = p.do_swap(signed(), account(ALICE), u128::MAX, b"PHPU".to_vec(), b"UMI".to_vec()).unwrap();
    assert_eq!(back.pair, Some(SwapPair::PhpuToUmi));
    assert_eq!(back.primitive_quantity, 0);
    let other = p.do_swap(signed(), account(ALICE), 7, b"UMI".to_vec(), b"UMI".to_vec()).unwrap();
    assert_eq!(other.pair, None);
}

#[test]
fn umi_to_phpu_swap_effects() {
    let p = configured();
    let order = p.do_swap(signed(), account(ALICE), 7, b"UMI".to_vec(), b"PHPU".to_vec()).unwrap();
    let actions = swap_actions(&order, SwapQuote { income: 11, net: 22 });
    assert_eq!(
        actions,
        vec![
            Action::Transfer { from: account(ALICE), to: account(UMI_POOL), amount: 7 * DECIMAL_MULTIPLIER },
            call(
                account(PHPU_POOL),
                account(PHPU_TOKEN),
                swap_message(&account(ALICE), 22, &account(DEX), 11),
                CallFailure::Ignored
            ),
        ]
    );
}

#[test]
fn phpu_to_umi_swap_effects() {
    let p = configured();
    let order = p.do_swap(signed(), account(ALICE), 2, b"PHPU".to_vec(), b"UMI".to_vec()).unwrap();
    let actions = swap_actions(&order, SwapQuote { income: 5, net: 95 });
    assert_eq!(
        actions,
        vec![
            call(
                account(ALICE),
                account(PHPU_TOKEN),
                transfer_message(&account(PHPU_POOL), 2 * DECIMAL_MULTIPLIER, "Transfer source PHPU"),
                CallFailure::Ignored
            ),
            Action::Transfer { from: account(UMI_POOL), to: account(ALICE), amount: 95 },
            Action::Transfer { from: account(UMI_POOL), to: account(DEX), amount: 5 },
        ]
    );
}

#[test]
fn unsupported_pair_moves_nothing() {
    let p = configured();
    let order = p.do_swap(signed(), account(ALICE), 2, b"BTC".to_vec(), b"UMI".to_vec()).unwrap();
    assert!(swap_actions(&order, SwapQuote { income: 1, net: 1 }).is_empty());
}

#[test]
fn quantity_scaling_wraps() {
    let p = configured();
    let order = p.do_swap(signed(), account(ALICE), u128::MAX, b"UMI".to_vec(), b"PHPU".to_vec()).unwrap();
    let actions = swap_actions(&order, SwapQuote { income: 0, net: 0 });
    assert_eq!(
        actions[0],
        Action::Transfer {
            from: account(ALICE),
            to: account(UMI_POOL),
            amount: u128::MAX.wrapping_mul(DECIMAL_MULTIPLIER)
        }
    );
}

#[test]
fn stake_umi_effects() {
    let p = configured();
    let actions = p.do_liquidity_stake(signed(), account(ALICE), 3, b"UMI".to_vec()).unwrap();
    assert_eq!(
        actions,
        vec![
            Action::Transfer { from: account(ALICE), to: account(UMI_POOL), amount: 3 * DECIMAL_MULTIPLIER },
            call(
                account(ALICE),
                account(LUMI_TOKEN),
                mint_to_message(&account(ALICE), 3 * DECIMAL_MULTIPLIER),
                CallFailure::Ignored
            ),
        ]
    );
}

#[test]
fn stake_phpu_effects() {
    let p = configured();
    let actions = p.do_liquidity_stake(signed(), account(ALICE), 4, b"PHPU".to_vec()).unwrap();
    assert_eq!(
        actions,
        vec![
            call(
                account(ALICE),
                account(PHPU_TOKEN),
                transfer_message(&account(PHPU_POOL), 4 * DECIMAL_MULTIPLIER, "Transfer source PHPU"),
                CallFailure::Ignored
            ),
            call(
                account(ALICE),
                account(LPHPU_TOKEN),
                mint_to_message(&account(ALICE), 4 * DECIMAL_MULTIPLIER),
                CallFailure::Ignored
            ),
        ]
    );
}

#[test]
fn stake_errors() {
    let mut p = Pallet::new();
    assert_eq!(p.do_liquidity_stake(Origin::Root, account(ALICE), 1, b"UMI".to_vec()), Err(DispatchError::BadOrigin));
    assert_eq!(
        p.do_liquidity_stake(signed(), account(ALICE), 1, b"UMI".to_vec()),
        Err(DispatchError::Module(Error::NoUmiLiquidityAccount))
    );
    assert_eq!(
        p.do_liquidity_stake(signed(), account(ALICE), 1, b"PHPU".to_vec()),
        Err(DispatchError::Module(Error::NoPhpuLiquidityAccount))
    );
    assert_eq!(p.do_liquidity_stake(signed(), account(ALICE), 1, b"XYZ".to_vec()), Ok(vec![]));
    p.store_umi_liquidity_account(Origin::Root, account(UMI_POOL)).unwrap();
    assert_eq!(
        p.do_liquidity_stake(signed(), account(ALICE), 1, b"UMI".to_vec()),
        Err(DispatchError::Module(Error::NoUmiLiquidityContract))
    );
    p.store_phpu_liquidity_account(Origin::Root, account(PHPU_POOL)).unwrap();
    assert_eq!(
        p.do_liquidity_stake(signed(), account(ALICE), 1, b"PHPU".to_vec()),
        Err(DispatchError::Module(Error::NoPhpuLiquidityContract))
    );
    p.store_phpu_liquidity_contract(Origin::Root, account(LPHPU_TOKEN)).unwrap();
    assert_eq!(
        p.do_liquidity_stake(signed(), account(ALICE), 1, b"PHPU".to_vec()),
        Err(DispatchError::Module(Error::NoPhpuContract))
    );
}

#[test]
fn redeem_lumi_effects() {
    let p = configured();
    let amount = 6 * DECIMAL_MULTIPLIER;
    let actions = p.do_liquidity_redeem(signed(), account(ALICE), 6, b"lUMI".to_vec()).unwrap();
    assert_eq!(
        actions,
        vec![
            call(account(ALICE), account(LUMI_TOKEN), total_supply_message(), CallFailure::Trap),
            call(
                account(ALICE),
                account(LUMI_TOKEN),
                transfer_message(&account(UMI_POOL), amount, "Transfer lUMI"),
                CallFailure::Ignored
            ),
            Action::Transfer { from: account(UMI_POOL), to: account(ALICE), amount },
            call(account(UMI_POOL), account(LUMI_TOKEN), burn_message(&account(UMI_POOL), amount), CallFailure::Ignored),
        ]
    );
}

#[test]
fn redeem_lphpu_effects() {
    let p = configured();
    let amount = 8 * DECIMAL_MULTIPLIER;
    let actions = p.do_liquidity_redeem(signed(), account(ALICE), 8, b"lPHPU".to_vec()).unwrap();
    assert_eq!(
        actions,
        vec![
            call(account(ALICE), account(LUMI_TOKEN), total_supply_message(), CallFailure::Trap),
            call(
                account(ALICE),
                account(LPHPU_TOKEN),
                transfer_message(&account(PHPU_POOL), amount, "Transfer lPHPU"),
                CallFailure::Ignored
            ),
            call(
                account(PHPU_POOL),
                account(PHPU_TOKEN),
                transfer_message(&account(ALICE), amount, "Transfer PHPU to source"),
                CallFailure::Ignored
            ),
            call(account(DEX), account(LPHPU_TOKEN), burn_message(&account(PHPU_POOL), amount), CallFailure::Ignored),
        ]
    );
}

#[test]
fn redeem_without_phpu_pool_is_refused() {
    let mut p = Pallet::new();
    p.store_dex_account(Origin::Root, account(DEX)).unwrap();
    p.store_umi_liquidity_account(Origin::Root, account(UMI_POOL)).unwrap();
    p.store_umi_liquidity_contract(Origin::Root, account(LUMI_TOKEN)).unwrap();
    p.store_phpu_liquidity_contract(Origin::Root, account(LPHPU_TOKEN)).unwrap();
    p.store_phpu_contract(Origin::Root, account(PHPU_TOKEN)).unwrap();
    assert_eq!(
        p.do_liquidity_redeem(signed(), account(ALICE), 1, b"lPHPU".to_vec()),
        Err(DispatchError::Module(Error::NoPhpuLiquidityAccount))
    );
}

#[test]
fn redeem_other_ticker_only_queries_supply() {
    let p = configured();
    let actions = p.do_liquidity_redeem(signed(), account(ALICE), 8, b"UMI".to_vec()).unwrap();
    assert_eq!(actions, vec![call(account(ALICE), account(LUMI_TOKEN), total_supply_message(), CallFailure::Trap)]);
}

#[test]
fn redeem_errors_in_order() {
    let mut p = Pallet::new();
    let t = b"lUMI".to_vec();
    assert_eq!(p.do_liquidity_redeem(Origin::Unsigned, account(ALICE), 1, t.clone()), Err(DispatchError::BadOrigin));
    assert_eq!(p.do_liquidity_redeem(signed(), account(ALICE), 1, t.clone()), Err(DispatchError::Module(Error::NoDexAccount)));
    p.store_dex_account(Origin::Root, account(DEX)).unwrap();
    assert_eq!(
        p.do_liquidity_redeem(signed(), account(ALICE), 1, t.clone()),
        Err(DispatchError::Module(Error::NoUmiLiquidityAccount))
    );
    p.store_umi_liquidity_account(Origin::Root, account(UMI_POOL)).unwrap();
    assert_eq!(
        p.do_liquidity_redeem(signed(), account(ALICE), 1, t.clone()),
        Err(DispatchError::Module(Error::NoPhpuLiquidityAccount))
    );
    p.store_phpu_liquidity_account(Origin::Root, account(PHPU_POOL)).unwrap();
    assert_eq!(
        p.do_liquidity_redeem(signed(), account(ALICE), 1, t.clone()),
        Err(DispatchError::Module(Error::NoUmiLiquidityContract))
    );
    p.store_umi_liquidity_contract(Origin::Root, account(LUMI_TOKEN)).unwrap();
    assert_eq!(
        p.do_liquidity_redeem(signed(), account(ALICE), 1, t.clone()),
        Err(DispatchError::Module(Error::NoPhpuLiquidityContract))
    );
    p.store_phpu_liquidity_contract(Origin::Root, account(LPHPU_TOKEN)).unwrap();
    assert_eq!(
        p.do_liquidity_redeem(signed(), account(ALICE), 1, t.clone()),
        Err(DispatchError::Module(Error::NoPhpuContract))
    );
}

#[test]
fn conclude_deposits_the_completion_event() {
    let mut p = Pallet::new();
    p.conclude(CallRun::<()>::new(vec![], Completion::Swap(account(ALICE))));
    p.conclude(CallRun::<()>::new(vec![], Completion::Stake(account(ALICE))));
    p.conclude(CallRun::<()>::new(vec![], Completion::Redeem(account(DEX))));
    assert_eq!(
        p.events(),
        &vec![
            Event::SwapExecuted(account(ALICE)),
            Event::StakeExecuted(account(ALICE)),
            Event::RedeemExecuted(account(DEX)),
        ]
    );
}

fn matches_continue<E>(s: &Step<E>) -> bool {
    matches!(s, Step::Continue)
}

#[test]
fn failed_transfer_ends_the_stake() {
    let p = configured();
    let actions = p.do_liquidity_stake(signed(), account(ALICE), 3, b"UMI".to_vec()).unwrap();
    let mut run: CallRun<&str> = CallRun::new(actions, Completion::Stake(account(ALICE)));
    let first = run.next_action().unwrap();
    assert!(matches!(first, Action::Transfer { .. }));
    match run.record(ActionOutcome::Failed("low balance")) {
        Step::Fail(e) => assert_eq!(e, "low balance"),
        _ => panic!("a failed transfer must end the call"),
    }
    assert!(run.next_action().is_none());
}

#[test]
fn failed_redeem_transfer_stops_before_the_burn() {
    let p = configured();
    let actions = p.do_liquidity_redeem(signed(), account(ALICE), 6, b"lUMI".to_vec()).unwrap();
    let mut run: CallRun<u32> = CallRun::new(actions, Completion::Redeem(account(ALICE)));
    run.next_action().unwrap();
    assert!(matches_continue(&run.record(ActionOutcome::Succeeded)));
    run.next_action().unwrap();
    assert!(matches_continue(&run.record(ActionOutcome::Failed(1))));
    assert!(matches!(run.next_action().unwrap(), Action::Transfer { .. }));
    assert!(matches!(run.record(ActionOutcome::Failed(7)), Step::Fail(7)));
    assert!(run.next_action().is_none());
}

#[test]
fn failed_supply_query_traps() {
    let p = configured();
    let actions = p.do_liquidity_redeem(signed(), account(ALICE), 6, b"lPHPU".to_vec()).unwrap();
    let mut run: CallRun<u32> = CallRun::new(actions, Completion::Redeem(account(ALICE)));
    run.next_action().unwrap();
    assert!(matches!(run.record(ActionOutcome::Failed(3)), Step::Trap));
    assert!(run.next_action().is_none());
}

#[test]
fn completed_run_concludes_the_call() {
    let mut p = configured();
    let actions = p.do_liquidity_stake(signed(), account(ALICE), 3, b"PHPU".to_vec()).unwrap();
    let mut run: CallRun<u32> = CallRun::new(actions, Completion::Stake(account(ALICE)));
    let mut made = 0;
    while run.next_action().is_some() {
        assert!(matches_continue(&run.record(ActionOutcome::Succeeded)));
        made += 1;
    }
    assert_eq!(made, 2);
    let before = p.events().len();
    p.conclude(run);
    assert_eq!(p.events().len(), before + 1);
    assert_eq!(p.events()[before], Event::StakeExecuted(account(ALICE)));
    assert_eq!(p.dex_account(), Some(account(DEX)));
}

#[test]
fn step_rules() {
    let transfer = Action::Transfer { from: account(1), to: account(2), amount: 5 };
    let ignored = call(account(1), account(2), vec![], CallFailure::Ignored);
    let trap = call(account(1), account(2), vec![], CallFailure::Trap);
    assert!(matches!(step(&transfer, ActionOutcome::<u8>::Succeeded), Step::Continue));
    assert!(matches!(step(&transfer, ActionOutcome::Failed(4u8)), Step::Fail(4)));
    assert!(matches!(step(&ignored, ActionOutcome::Failed(4u8)), Step::Continue));
    assert!(matches!(step(&trap, ActionOutcome::Failed(4u8)), Step::Trap));
    assert!(matches!(step(&trap, ActionOutcome::<u8>::Succeeded), Step::Continue));
}
