use seed_flow::contracts::SourceTag;
use seed_flow::derive::{source_records, take_source_records, SourceAssemblyError, MAX_SOURCE_RECORDS};
use seed_flow::machine::{AcquiredSource, AcquiredSources};
use seed_flow::physical::PhysicalStaging;

#[test]
fn empty_sources_give_no_records() {
    let staging = PhysicalStaging::new();
    let machine = AcquiredSources::new();
    let records = source_records(&staging, &machine).unwrap();
    assert!(records.is_empty());
}

#[test]
fn records_come_dice_then_coins_then_machine_in_order() {
    let mut staging = PhysicalStaging::new();
    staging.push_dice(3);
    staging.push_coin(1);
    staging.push_dice(5);
    let mut machine = AcquiredSources::new();
    machine.push(AcquiredSource::new(SourceTag::X86Rdseed64, b"RDSEED64", &[9u8; 32]).unwrap());
    machine.push(AcquiredSource::new(SourceTag::X86RdrandSupplementary, b"RDRAND", &[7u8; 8]).unwrap());
    let records = source_records(&staging, &machine).unwrap();
    let tags: Vec<SourceTag> = records.iter().map(|r| r.tag).collect();
    assert_eq!(
        tags,
        vec![SourceTag::DiceRolls, SourceTag::CoinFlips, SourceTag::X86Rdseed64, SourceTag::X86RdrandSupplementary]
    );
    assert_eq!(records[0].bytes, vec![3, 5]);
    assert!(records[0].algo_id.is_empty());
    assert_eq!(records[1].bytes, vec![1]);
    assert_eq!(records[2].algo_id, b"RDSEED64".to_vec());
    assert_eq!(records[3].bytes, vec![7u8; 8]);
}

#[test]
fn coins_only_skips_the_empty_dice_record() {
    let mut staging = PhysicalStaging::new();
    staging.push_coin(0);
    let machine = AcquiredSources::new();
    let records = source_records(&staging, &machine).unwrap();
    assert_eq!(records.len(), 1);
    assert_eq!(records[0].tag, SourceTag::CoinFlips);
}

#[test]
fn widest_assemblable_set_fits_and_every_input_is_scrubbed_after() {
    let mut staging = PhysicalStaging::new();
    for _ in 0..64 {
        staging.push_dice(3);
        staging.push_coin(1);
    }
    let mut machine = AcquiredSources::new();
    for (tag, algo) in [
        (SourceTag::ApprovedEfiRng, &b"EFIRNG"[..]),
        (SourceTag::X86Rdseed64, &b"RDSEED64"[..]),
        (SourceTag::X86RdrandSupplementary, &b"RDRAND64"[..]),
        (SourceTag::ApprovedUsbTrng, &b"USBTRNG"[..]),
        (SourceTag::Tpm2GetRandom, &b"TPM2GET"[..]),
    ] {
        machine.push(AcquiredSource::new(tag, algo, &[7u8; 32]).unwrap());
    }
    let records = take_source_records(&mut staging, &mut machine).unwrap();
    assert_eq!(records.len(), 7);
    assert!(records.len() <= MAX_SOURCE_RECORDS);
    assert!(staging.dice_bytes().is_empty());
    assert!(staging.coin_bytes().is_empty());
    assert!(machine.is_empty());
    let _ = SourceAssemblyError::TooManySources;
}
