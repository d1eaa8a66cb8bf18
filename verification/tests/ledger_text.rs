use std::str::FromStr;

use chronicle::model::hex::{from_hex, to_hex};
use chronicle::model::ids::{BlockId, MilestoneId, OutputId, TransactionId};

fn pattern<const N: usize>(seed: u8) -> [u8; N] {
    let mut bytes = [0u8; N];
    for (i, byte) in bytes.iter_mut().enumerate() {
        *byte = seed.wrapping_mul(31).wrapping_add((i as u8).wrapping_mul(17));
    }
    bytes
}

#[test]
fn block_ids_are_written_and_read_as_the_ledger_does() {
    for seed in [0u8, 1, 2, 0x7f, 0x80, 0xfe, 0xff] {
        let bytes = pattern::<32>(seed);
        let theirs = iota_types::block::BlockId::new(bytes);
        let ours = BlockId(bytes);
        assert_eq!(ours.to_hex(), theirs.to_string());
        assert_eq!(BlockId::from_hex(&theirs.to_string()), Ok(ours));
        assert_eq!(iota_types::block::BlockId::from_str(&ours.to_hex()).unwrap(), theirs);
    }
}

#[test]
fn transaction_and_milestone_ids_are_written_as_the_ledger_does() {
    for seed in [0u8, 3, 0x55, 0xaa, 0xff] {
        let bytes = pattern::<32>(seed);
        assert_eq!(
            TransactionId(bytes).to_hex(),
            iota_types::block::payload::transaction::TransactionId::new(bytes).to_string()
        );
        assert_eq!(
            MilestoneId(bytes).to_hex(),
            iota_types::block::payload::milestone::MilestoneId::new(bytes).to_string()
        );
        assert_eq!(
            MilestoneId::from_hex(&iota_types::block::payload::milestone::MilestoneId::new(bytes).to_string()),
            Ok(MilestoneId(bytes))
        );
    }
}

#[test]
fn output_ids_are_written_and_read_as_the_ledger_does() {
    for seed in [0u8, 9, 0xc3] {
        for index in [0u16, 1, 2, 100, 127] {
            let bytes = pattern::<32>(seed);
            let theirs = iota_types::block::output::OutputId::new(
                iota_types::block::payload::transaction::TransactionId::new(bytes),
                index,
            )
            .unwrap();
            let ours = OutputId::new(TransactionId(bytes), index);
            assert_eq!(ours.to_hex(), theirs.to_string());
            assert_eq!(OutputId::from_hex(&theirs.to_string()), Ok(ours));
            let read = iota_types::block::output::OutputId::from_str(&ours.to_hex()).unwrap();
            assert_eq!(read, theirs);
            assert_eq!(ours.index(), theirs.index());
            assert_eq!(ours.transaction_id().to_hex(), theirs.transaction_id().to_string());
        }
    }
}

#[test]
fn texts_are_accepted_and_refused_as_the_ledger_does() {
    let good = BlockId(pattern::<32>(5)).to_hex();
    let mut samples = vec![
        String::new(),
        "0".to_string(),
        "0x".to_string(),
        "00".to_string(),
        good.clone(),
        good.to_uppercase(),
        good.to_uppercase().replacen("0X", "0x", 1),
        good[2..].to_string(),
        good[..65].to_string(),
        good[..64].to_string(),
        format!("{good}0"),
        format!("{good}00"),
        format!(" {good}"),
        format!("{good} "),
        good.replacen("0x", "0X", 1),
    ];
    for bad in ['g', 'G', ' ', '/', ':', '@', '`', 'x', '-', '\u{e9}'] {
        let mut text = good.clone();
        text.replace_range(10..11, &bad.to_string());
        samples.push(text);
    }
    for sample in samples {
        let ours = BlockId::from_hex(&sample);
        let theirs = iota_types::block::BlockId::from_str(&sample);
        assert_eq!(ours.is_ok(), theirs.is_ok(), "{sample:?}");
        if let (Ok(ours), Ok(theirs)) = (ours, theirs) {
            assert_eq!(ours.0, *theirs);
        }
    }
}

#[test]
fn byte_strings_of_any_length_are_read_back() {
    for len in [0usize, 1, 2, 31, 33, 64] {
        let bytes: Vec<u8> = (0..len).map(|i| (i * 37 + 11) as u8).collect();
        assert_eq!(from_hex(&to_hex(&bytes), len), Ok(bytes));
    }
}
