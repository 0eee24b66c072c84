use humidefi_dex::messages::{burn_message, mint_to_message, swap_message, total_supply_message, transfer_message};
use humidefi_dex::ticker::{is_symbol, prices_from_fields, ticker_prices};
use humidefi_dex::types::{ensure_root, ensure_signed, DispatchError, Error, Origin};

fn le16(v: u128) -> Vec<u8> {
    v.to_le_bytes().to_vec()
}

#[test]
fn transfer_message_layout() {
    let to = [7u8; 32];
    let data = transfer_message(&to, 0x0102_0304, "Transfer lUMI");
    let mut expected = vec![0xdb, 0x20, 0xf9, 0xf5];
    expected.extend_from_slice(&to);
    expected.extend_from_slice(&[0x04, 0x03, 0x02, 0x01, 0, 0, 0, 0, 0, 0, 0, 0, 0, 0, 0, 0]);
    expected.push(13 * 4);
    expected.extend_from_slice(b"Transfer lUMI");
    assert_eq!(data, expected);
}

#[test]
fn long_remark_uses_two_byte_length() {
    let remark = "x".repeat(100);
    let data = transfer_message(&[0u8; 32], 1, &remark);
    assert_eq!(&data[52..54], &[0x91, 0x01]);
    assert_eq!(data.len(), 4 + 32 + 16 + 2 + 100);
}

#[test]
fn swap_message_layout() {
    let to = [1u8; 32];
    let collector = [2u8; 32];
    let data = swap_message(&to, 500, &collector, u128::MAX);
    let mut expected = vec![0xc4, 0x05, 0xe9, 0x82];
    expected.extend_from_slice(&to);
    expected.extend(le16(500));
    expected.extend_from_slice(&collector);
    expected.extend(le16(u128::MAX));
    assert_eq!(data, expected);
    assert_eq!(data.len(), 100);
}

#[test]
fn mint_burn_and_supply_messages() {
    let who = [9u8; 32];
    let mut mint = vec![0x1d, 0x2f, 0x13, 0xc5];
    mint.extend_from_slice(&who);
    mint.extend(le16(42));
    assert_eq!(mint_to_message(&who, 42), mint);
    let mut burn = vec![0x7a, 0x9d, 0xa5, 0x10];
    burn.extend_from_slice(&who);
    burn.extend(le16(42));
    assert_eq!(burn_message(&who, 42), burn);
    assert_eq!(total_supply_message(), vec![0x16, 0x2d, 0xf8, 0xc2]);
}

#[test]
fn prices_read_from_json() {
    let data = br#"[{"ticker":"UMI","price_in_usd":2},{"ticker":"PHPU","price_in_usd":50}]"#;
    assert_eq!(ticker_prices(data), Ok((2, 50)));
    assert_eq!(ticker_prices(b" [ {\"price_in_usd\": 0}, {\"price_in_usd\": 18446744073709551615} ] "), Ok((0, u64::MAX)));
}

#[test]
fn price_errors() {
    assert_eq!(ticker_prices(b""), Err(Error::TickerPriceDataInvalid));
    assert_eq!(ticker_prices(b"[1, 2"), Err(Error::TickerPriceDataInvalid));
    assert_eq!(ticker_prices(b"{\"0\": {\"price_in_usd\": 1}}"), Err(Error::TickerPriceInvalid));
    assert_eq!(ticker_prices(b"[{\"price_in_usd\": 1.5}, {\"price_in_usd\": 1}]"), Err(Error::TickerPriceInvalid));
    assert_eq!(ticker_prices(b"[{\"price_in_usd\": 1}, {\"price\": 1}]"), Err(Error::TickerPriceInvalid));
    assert_eq!(ticker_prices(b"[{\"price_in_usd\": 1}, {\"price_in_usd\": \"1\"}]"), Err(Error::TickerPriceInvalid));
    assert_eq!(ticker_prices(b"[{\"price_in_usd\": 18446744073709551616}, {\"price_in_usd\": 1}]"), Err(Error::TickerPriceInvalid));
}

#[test]
fn prices_from_read_fields() {
    assert_eq!(prices_from_fields(None, None), Err(Error::TickerPriceDataInvalid));
    assert_eq!(prices_from_fields(Some(None), Some(Some(1))), Err(Error::TickerPriceInvalid));
    assert_eq!(prices_from_fields(Some(Some(3)), Some(None)), Err(Error::TickerPriceInvalid));
    assert_eq!(prices_from_fields(Some(Some(3)), None), Err(Error::TickerPriceDataInvalid));
    assert_eq!(prices_from_fields(Some(Some(3)), Some(Some(4))), Ok((3, 4)));
}

#[test]
fn symbols_compare_bytes() {
    assert!(is_symbol(b"UMI", b"UMI"));
    assert!(!is_symbol(b"UMI ", b"UMI"));
    assert!(!is_symbol(b"umi", b"UMI"));
    assert!(!is_symbol(b"", b"UMI"));
}

#[test]
fn origins() {
    let a = [3u8; 32];
    assert_eq!(ensure_root(Origin::Root), Ok(()));
    assert_eq!(ensure_root(Origin::Signed(a)), Err(DispatchError::BadOrigin));
    assert_eq!(ensure_signed(Origin::Signed(a)), Ok(a));
    assert_eq!(ensure_signed(Origin::Unsigned), Err(DispatchError::BadOrigin));
}
