use shielded_codec::wallet::{
    BlockHeight, NonNegativeAmount, OutPoint, TransparentAddress, TxOut, WalletTransparentOutput,
};

fn p2pkh(hash: [u8; 20]) -> Vec<u8> {
    let mut script = vec![0x76, 0xa9, 0x14];
    script.extend_from_slice(&hash);
    script.extend_from_slice(&[0x88, 0xac]);
    script
}

fn p2sh(hash: [u8; 20]) -> Vec<u8> {
    let mut script = vec![0xa9, 0x14];
    script.extend_from_slice(&hash);
    script.push(0x87);
    script
}

fn value(v: u64) -> NonNegativeAmount {
    NonNegativeAmount::from_u64(v).unwrap()
}

#[test]
fn output_to_a_public_key_hash() {
    let hash = [7u8; 20];
    let txout = TxOut::new(value(5), p2pkh(hash));
    assert_eq!(txout.recipient_address(), Some(TransparentAddress::PublicKeyHash(hash)));
    let output =
        WalletTransparentOutput::from_parts(OutPoint::new([1; 32], 3), txout, BlockHeight::from_u32(9))
            .unwrap();
    assert_eq!(output.recipient_address(), &TransparentAddress::PublicKeyHash(hash));
    assert_eq!(output.outpoint(), &OutPoint::new([1; 32], 3));
    assert_eq!(output.txout(), &TxOut::new(value(5), p2pkh(hash)));
    assert_eq!(output.height(), BlockHeight::from_u32(9));
}

#[test]
fn output_to_a_script_hash() {
    let hash = [0x42u8; 20];
    let txout = TxOut::new(value(0), p2sh(hash));
    let output =
        WalletTransparentOutput::from_parts(OutPoint::new([0; 32], 0), txout, BlockHeight::from_u32(1))
            .unwrap();
    assert_eq!(output.recipient_address(), &TransparentAddress::ScriptHash(hash));
}

#[test]
fn output_without_an_address() {
    for script in [vec![], vec![0x6a, 0x01, 0x00], vec![0x76, 0xa9, 0x14, 1, 2, 3]] {
        let txout = TxOut::new(value(1), script);
        assert_eq!(txout.recipient_address(), None);
        assert_eq!(
            WalletTransparentOutput::from_parts(
                OutPoint::new([1; 32], 0),
                txout,
                BlockHeight::from_u32(0)
            ),
            None
        );
    }
}

#[test]
fn non_negative_amount_range() {
    assert_eq!(value(0).into_u64(), 0);
    assert_eq!(value(2_100_000_000_000_000).into_u64(), 2_100_000_000_000_000);
    assert_eq!(NonNegativeAmount::from_u64(2_100_000_000_000_001), None);
}
