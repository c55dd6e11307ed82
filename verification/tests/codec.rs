use lockswap::SwapError;
use lockswap::codec::decode_amount;
use lockswap::codec::decode_order;
use lockswap::codec::encode_order;

fn le16(v: u128) -> Vec<u8> {
    v.to_le_bytes().to_vec()
}

#[test]
fn encode_order_exact_bytes() {
    let payload = encode_order(1_000_000, 5_000_000_000);
    assert_eq!(payload.len(), 24);
    let mut expected = 1_000_000u128.to_le_bytes().to_vec();
    expected.extend_from_slice(&5_000_000_000u64.to_le_bytes());
    assert_eq!(payload, expected);
}

#[test]
fn order_round_trip_small() {
    let payload = encode_order(1_000_000, 5_000_000_000);
    assert_eq!(decode_order(&payload), Ok((1_000_000, 5_000_000_000)));
}

#[test]
fn order_round_trip_extremes() {
    for &(a, p) in &[
        (0u128, 0u64),
        (1, 1),
        (u128::MAX, u64::MAX),
        (0x0102_0304_0506_0708_090a_0b0c_0d0e_0f10, 0x1122_3344_5566_7788),
    ] {
        assert_eq!(decode_order(&encode_order(a, p)), Ok((a, p)));
    }
}

#[test]
fn decode_order_rejects_wrong_lengths() {
    assert_eq!(decode_order(&Vec::new()), Err(SwapError::MalformedPayload));
    assert_eq!(decode_order(&vec![0u8; 23]), Err(SwapError::MalformedPayload));
    assert_eq!(decode_order(&vec![0u8; 25]), Err(SwapError::MalformedPayload));
    assert_eq!(decode_order(&vec![0u8; 16]), Err(SwapError::MalformedPayload));
}

#[test]
fn decode_amount_reads_first_sixteen_bytes() {
    assert_eq!(decode_amount(&le16(42)), Ok(42));
    let order = encode_order(7_777, 9_999);
    assert_eq!(decode_amount(&order), Ok(7_777));
}

#[test]
fn decode_amount_rejects_short_payloads() {
    assert_eq!(decode_amount(&vec![0u8; 15]), Err(SwapError::MalformedPayload));
    assert_eq!(decode_amount(&Vec::new()), Err(SwapError::MalformedPayload));
}
