use vstd::prelude::*;
use vstd::string::StringSliceAdditionalSpecFns;

use crate::codec::{encode_account, encode_balance, encode_text, le_bytes, scale_bytes};
use crate::types::{AccountId, Balance};

verus! {

/// Selector of the token contracts' `transfer` message.
pub open spec fn transfer_selector() -> Seq<u8> {
    seq![0xdbu8, 0x20u8, 0xf9u8, 0xf5u8]
}

/// Selector of the PHPU contract's `swap` message.
pub open spec fn swap_selector() -> Seq<u8> {
    seq![0xc4u8, 0x05u8, 0xe9u8, 0x82u8]
}

/// Selector of the liquidity contracts' `mint_to` message.
pub open spec fn mint_to_selector() -> Seq<u8> {
    seq![0x1du8, 0x2fu8, 0x13u8, 0xc5u8]
}

/// Selector of the liquidity contracts' `burn` message.
pub open spec fn burn_selector() -> Seq<u8> {
    seq![0x7au8, 0x9du8, 0xa5u8, 0x10u8]
}

/// Selector of the liquidity contracts' `total_supply` query.
pub open spec fn total_supply_selector() -> Seq<u8> {
    seq![0x16u8, 0x2du8, 0xf8u8, 0xc2u8]
}

/// `transfer(to, value, remark)`.
pub open spec fn spec_transfer_message(to: AccountId, value: Balance, remark: Seq<u8>) -> Seq<
    u8,
> {
    transfer_selector() + to@ + le_bytes(value as nat, 16) + scale_bytes(remark)
}

/// `swap(to, amount, collector, fee)`: pays `amount` to `to` and `fee` to `collector`.
pub open spec fn spec_swap_message(
    to: AccountId,
    amount: Balance,
    collector: AccountId,
    fee: Balance,
) -> Seq<u8> {
    swap_selector() + to@ + le_bytes(amount as nat, 16) + collector@ + le_bytes(fee as nat, 16)
}

/// `mint_to(to, value)`.
pub open spec fn spec_mint_to_message(to: AccountId, value: Balance) -> Seq<u8> {
    mint_to_selector() + to@ + le_bytes(value as nat, 16)
}

/// `burn(from, value)`.
pub open spec fn spec_burn_message(from: AccountId, value: Balance) -> Seq<u8> {
    burn_selector() + from@ + le_bytes(value as nat, 16)
}

fn selector(a: u8, b: u8, c: u8, d: u8) -> (bytes: Vec<u8>)
    ensures
        bytes@ == seq![a, b, c, d],
{
    let mut bytes: Vec<u8> = Vec::new();
    bytes.push(a);
    bytes.push(b);
    bytes.push(c);
    bytes.push(d);
    assert(bytes@ =~= seq![a, b, c, d]);
    bytes
}

/// Builds the contract data of a token `transfer`.
pub fn transfer_message(to: &AccountId, value: Balance, remark: &str) -> (data: Vec<u8>)
    requires
        remark.spec_bytes().len() <= u32::MAX,
    ensures
        data@ == spec_transfer_message(*to, value, remark.spec_bytes()),
{
    let mut data: Vec<u8> = Vec::new();
    let mut head = selector(0xdb, 0x20, 0xf9, 0xf5);
    let mut to_bytes = encode_account(to);
    let mut value_bytes = encode_balance(value);
    let mut remark_bytes = encode_text(remark);
    data.append(&mut head);
    data.append(&mut to_bytes);
    data.append(&mut value_bytes);
    data.append(&mut remark_bytes);
    assert(data@ =~= spec_transfer_message(*to, value, remark.spec_bytes()));
    data
}

/// Builds the contract data of a PHPU `swap` payout.
pub fn swap_message(to: &AccountId, amount: Balance, collector: &AccountId, fee: Balance) -> (data:
    Vec<u8>)
    ensures
        data@ == spec_swap_message(*to, amount, *collector, fee),
{
    let mut data: Vec<u8> = Vec::new();
    let mut head = selector(0xc4, 0x05, 0xe9, 0x82);
    let mut to_bytes = encode_account(to);
    let mut amount_bytes = encode_balance(amount);
    let mut collector_bytes = encode_account(collector);
    let mut fee_bytes = encode_balance(fee);
    data.append(&mut head);
    data.append(&mut to_bytes);
    data.append(&mut amount_bytes);
    data.append(&mut collector_bytes);
    data.append(&mut fee_bytes);
    assert(data@ =~= spec_swap_message(*to, amount, *collector, fee));
    data
}

/// Builds the contract data of a liquidity token `mint_to`.
pub fn mint_to_message(to: &AccountId, value: Balance) -> (data: Vec<u8>)
    ensures
        data@ == spec_mint_to_message(*to, value),
{
    let mut data: Vec<u8> = Vec::new();
    let mut head = selector(0x1d, 0x2f, 0x13, 0xc5);
    let mut to_bytes = encode_account(to);
    let mut value_bytes = encode_balance(value);
    data.append(&mut head);
    data.append(&mut to_bytes);
    data.append(&mut value_bytes);
    assert(data@ =~= spec_mint_to_message(*to, value));
    data
}

/// Builds the contract data of a liquidity token `burn`.
pub fn burn_message(from: &AccountId, value: Balance) -> (data: Vec<u8>)
    ensures
        data@ == spec_burn_message(*from, value),
{
    let mut data: Vec<u8> = Vec::new();
    let mut head = selector(0x7a, 0x9d, 0xa5, 0x10);
    let mut from_bytes = encode_account(from);
    let mut value_bytes = encode_balance(value);
    data.append(&mut head);
    data.append(&mut from_bytes);
    data.append(&mut value_bytes);
    assert(data@ =~= spec_burn_message(*from, value));
    data
}

/// Builds the contract data of a liquidity token `total_supply` query.
pub fn total_supply_message() -> (data: Vec<u8>)
    ensures
        data@ == total_supply_selector(),
{
    let mut data: Vec<u8> = Vec::new();
    let mut head = selector(0x16, 0x2d, 0xf8, 0xc2);
    data.append(&mut head);
    assert(data@ =~= total_supply_selector());
    data
}

} // verus!
