use seed_flow::contracts::SourceTag;
use seed_flow::machine::{
    assemble_acquired_sources, render_acquiring, render_machine_failed, write_ticker_panel, AcquiredSource,
    AcquiredSources, MachineAcquisitionError, MachineExtras, ACQUIRING_DURATION_LINE, ACQUIRING_LINE, EXIT_LINE,
    MAX_ALGO_ID, MAX_MACHINE_SOURCE_BYTES, NO_SOURCE_HEADLINE, TIMED_OUT_HEADLINE,
};
use seed_flow::text::TextOp;

fn machine_screen(ops: &[TextOp]) -> Vec<String> {
    let start = ops.iter().rposition(|o| matches!(o, TextOp::Clear)).map(|i| i + 1).unwrap_or(0);
    ops[start..]
        .iter()
        .map(|o| match o {
            TextOp::Line(s) | TextOp::Prose(s) => s.clone(),
            TextOp::Clear => String::new(),
        })
        .collect()
}

const DISCLAIMER: &str = "Health checks detect only catastrophic failures; they are not proof of unpredictability.";

fn tags_of(all: &AcquiredSources) -> Vec<SourceTag> {
    (0..all.len()).map(|i| all.get(i).tag()).collect()
}

#[test]
fn acquired_source_round_trips_and_rejects_oversized_input() {
    let rec = AcquiredSource::new(SourceTag::X86Rdseed64, b"RDSEED64", &[0x11u8; 32]).unwrap();
    assert_eq!(rec.tag(), SourceTag::X86Rdseed64);
    assert_eq!(rec.algo_id(), b"RDSEED64".to_vec());
    assert_eq!(rec.bytes(), vec![0x11u8; 32]);
    assert!(AcquiredSource::new(SourceTag::X86Rdseed64, &[0u8; MAX_ALGO_ID + 1], &[0u8; 4]).is_none());
    assert!(AcquiredSource::new(SourceTag::X86Rdseed64, b"x", &[0u8; MAX_MACHINE_SOURCE_BYTES + 1]).is_none());
}

#[test]
fn acquired_source_scrub_zeroes_and_empties() {
    let mut rec = AcquiredSource::new(SourceTag::X86RdrandSupplementary, b"RDRAND", &[0xAAu8; 32]).unwrap();
    rec.scrub();
    assert_eq!(rec.algo_id(), Vec::<u8>::new());
    assert_eq!(rec.bytes(), Vec::<u8>::new());
}

#[test]
fn acquired_sources_collects_and_iterates_in_push_order() {
    let mut all = AcquiredSources::new();
    all.push(AcquiredSource::new(SourceTag::ApprovedEfiRng, b"a", &[1]).unwrap());
    all.push(AcquiredSource::new(SourceTag::X86Rdseed64, b"b", &[2]).unwrap());
    assert_eq!(all.len(), 2);
    assert_eq!(all.tags(), vec![SourceTag::ApprovedEfiRng, SourceTag::X86Rdseed64]);
}

#[test]
fn acquired_sources_scrub_clears_everything() {
    let mut all = AcquiredSources::new();
    all.push(AcquiredSource::new(SourceTag::ApprovedEfiRng, b"a", &[1, 2, 3]).unwrap());
    all.scrub();
    assert_eq!(all.len(), 0);
    assert!(all.is_empty());
}

#[test]
fn assemble_tpm_alone_succeeds() {
    let tpm = AcquiredSource::new(SourceTag::Tpm2GetRandom, b"TPM2/GetRandom", &[0x33u8; 32]).unwrap();
    let mut into = AcquiredSources::new();
    let result = assemble_acquired_sources(None, None, None, Some(tpm), None, &mut into);
    assert!(result.is_ok());
    assert_eq!(into.len(), 1);
}

#[test]
fn assemble_rdrand_with_tpm_primary_is_included() {
    let tpm = AcquiredSource::new(SourceTag::Tpm2GetRandom, b"TPM2/GetRandom", &[0x33u8; 32]).unwrap();
    let rdrand = AcquiredSource::new(SourceTag::X86RdrandSupplementary, b"RDRAND", &[0xAAu8; 32]).unwrap();
    let mut into = AcquiredSources::new();
    let result = assemble_acquired_sources(None, None, Some(rdrand), Some(tpm), None, &mut into);
    assert!(result.is_ok());
    assert_eq!(into.len(), 2);
}

#[test]
fn assemble_all_four_sources_fills_four_slots() {
    let efi = AcquiredSource::new(SourceTag::ApprovedEfiRng, b"CTR-DRBG", &[0x11u8; 32]).unwrap();
    let rdseed = AcquiredSource::new(SourceTag::X86Rdseed64, b"RDSEED64", &[0x22u8; 32]).unwrap();
    let rdrand = AcquiredSource::new(SourceTag::X86RdrandSupplementary, b"RDRAND", &[0xAAu8; 32]).unwrap();
    let tpm = AcquiredSource::new(SourceTag::Tpm2GetRandom, b"TPM2/GetRandom", &[0x33u8; 32]).unwrap();
    let mut into = AcquiredSources::new();
    let result = assemble_acquired_sources(Some(efi), Some(rdseed), Some(rdrand), Some(tpm), None, &mut into);
    assert!(result.is_ok());
    assert_eq!(into.len(), 4);
}

#[test]
fn tpm_record_never_counts_as_sole_source() {
    let tpm = AcquiredSource::new(SourceTag::Tpm2GetRandom, b"TPM2/GetRandom", &[0x33u8; 32]).unwrap();
    let mut into = AcquiredSources::new();
    into.push(tpm);
    assert!(!into.has_sole_source_approved(true, true));
}

#[test]
fn assemble_rdrand_alone_is_rejected_never_enables_machine_only() {
    let rdrand = AcquiredSource::new(SourceTag::X86RdrandSupplementary, b"RDRAND", &[0xAAu8; 32]).unwrap();
    let mut into = AcquiredSources::new();
    let result = assemble_acquired_sources(None, None, Some(rdrand), None, None, &mut into);
    assert_eq!(result, Err(MachineAcquisitionError::NoSourceAvailable));
    assert!(into.is_empty(), "RDRAND-only bytes must never be pushed into the acquired set");
}

#[test]
fn assemble_no_sources_is_rejected() {
    let mut into = AcquiredSources::new();
    let result = assemble_acquired_sources(None, None, None, None, None, &mut into);
    assert_eq!(result, Err(MachineAcquisitionError::NoSourceAvailable));
    assert!(into.is_empty());
}

#[test]
fn assemble_efi_rng_alone_succeeds_without_rdrand() {
    let efi_rng = AcquiredSource::new(SourceTag::ApprovedEfiRng, b"CTR-DRBG", &[0x11u8; 32]).unwrap();
    let mut into = AcquiredSources::new();
    let result = assemble_acquired_sources(Some(efi_rng), None, None, None, None, &mut into);
    assert!(result.is_ok());
    assert_eq!(into.len(), 1);
}

#[test]
fn assemble_rdseed_alone_succeeds_without_rdrand() {
    let rdseed = AcquiredSource::new(SourceTag::X86Rdseed64, b"RDSEED64", &[0x22u8; 32]).unwrap();
    let mut into = AcquiredSources::new();
    let result = assemble_acquired_sources(None, Some(rdseed), None, None, None, &mut into);
    assert!(result.is_ok());
    assert_eq!(into.len(), 1);
}

#[test]
fn assemble_rdrand_combined_with_a_primary_source_is_included() {
    let rdseed = AcquiredSource::new(SourceTag::X86Rdseed64, b"RDSEED64", &[0x22u8; 32]).unwrap();
    let rdrand = AcquiredSource::new(SourceTag::X86RdrandSupplementary, b"RDRAND", &[0xAAu8; 32]).unwrap();
    let mut into = AcquiredSources::new();
    let result = assemble_acquired_sources(None, Some(rdseed), Some(rdrand), None, None, &mut into);
    assert!(result.is_ok());
    assert_eq!(into.len(), 2);
    let tags = tags_of(&into);
    assert!(tags.contains(&SourceTag::X86RdrandSupplementary));
    assert!(tags.contains(&SourceTag::X86Rdseed64));
}

#[test]
fn assemble_efi_rng_and_rdseed_fail_rdrand_succeeds_still_rejected() {
    let rdrand = AcquiredSource::new(SourceTag::X86RdrandSupplementary, b"RDRAND", &[0x55u8; 32]).unwrap();
    let mut into = AcquiredSources::new();
    let result = assemble_acquired_sources(None, None, Some(rdrand), None, None, &mut into);
    assert_eq!(result, Err(MachineAcquisitionError::NoSourceAvailable));
    assert!(into.is_empty());
}

#[test]
fn has_sole_source_approved_true_for_a_sole_source_approved_efi_rng() {
    let mut sources = AcquiredSources::new();
    sources.push(AcquiredSource::new(SourceTag::ApprovedEfiRng, b"CTR-DRBG", &[1u8; 32]).unwrap());
    assert!(sources.has_sole_source_approved(true, false));
}

#[test]
fn has_sole_source_approved_true_for_a_sole_source_approved_rdseed() {
    let mut sources = AcquiredSources::new();
    sources.push(AcquiredSource::new(SourceTag::X86Rdseed64, b"RDSEED64", &[2u8; 32]).unwrap());
    assert!(sources.has_sole_source_approved(false, true));
}

#[test]
fn has_sole_source_approved_false_for_an_approved_but_not_sole_source() {
    let mut sources = AcquiredSources::new();
    sources.push(AcquiredSource::new(SourceTag::ApprovedEfiRng, b"CTR-DRBG", &[3u8; 32]).unwrap());
    assert!(!sources.has_sole_source_approved(false, false));
}

#[test]
fn has_sole_source_approved_false_for_rdrand_only() {
    let mut sources = AcquiredSources::new();
    sources.push(AcquiredSource::new(SourceTag::X86RdrandSupplementary, b"RDRAND", &[4u8; 32]).unwrap());
    assert!(!sources.has_sole_source_approved(true, true));
}

#[test]
fn has_sole_source_approved_false_for_an_empty_acquisition() {
    let sources = AcquiredSources::new();
    assert!(!sources.has_sole_source_approved(true, true));
}

#[test]
fn has_sole_source_approved_true_when_mixed_with_a_non_qualifying_rdrand_record() {
    let mut sources = AcquiredSources::new();
    sources.push(AcquiredSource::new(SourceTag::X86RdrandSupplementary, b"RDRAND", &[5u8; 32]).unwrap());
    sources.push(AcquiredSource::new(SourceTag::X86Rdseed64, b"RDSEED64", &[6u8; 32]).unwrap());
    assert!(sources.has_sole_source_approved(false, true));
}

#[test]
fn render_acquiring_carries_the_spec_16_disclaimer() {
    let mut out = Vec::new();
    render_acquiring(&mut out, DISCLAIMER);
    let s = machine_screen(&out);
    assert!(s.iter().any(|l| l == ACQUIRING_LINE));
    assert!(out.iter().any(|o| matches!(o, TextOp::Prose(p) if p == DISCLAIMER)));
}

#[test]
fn render_acquiring_carries_the_duration_progress_line() {
    let mut out = Vec::new();
    render_acquiring(&mut out, DISCLAIMER);
    assert!(machine_screen(&out).iter().any(|l| l.contains(ACQUIRING_DURATION_LINE)));
}

#[test]
fn render_machine_failed_distinguishes_timed_out_from_no_source_available() {
    let mut timed_out = Vec::new();
    render_machine_failed(&mut timed_out, MachineAcquisitionError::SourceTimedOut);
    let t = machine_screen(&timed_out);
    assert!(t.iter().any(|l| l == TIMED_OUT_HEADLINE));
    assert!(t.iter().any(|l| l.contains("dice") || l.contains("coin")));
    assert!(t.iter().any(|l| l == EXIT_LINE));

    let mut no_source = Vec::new();
    render_machine_failed(&mut no_source, MachineAcquisitionError::NoSourceAvailable);
    let n = machine_screen(&no_source);
    assert!(n.iter().any(|l| l == NO_SOURCE_HEADLINE));
    assert!(n.iter().any(|l| l.contains("dice") || l.contains("coin")));
    assert!(n.iter().any(|l| l == EXIT_LINE));

    assert!(!n.iter().any(|l| l == TIMED_OUT_HEADLINE));
    assert!(!t.iter().any(|l| l == NO_SOURCE_HEADLINE));
}

#[test]
fn render_acquiring_output_is_static_and_secret_free() {
    let mut out = Vec::new();
    render_acquiring(&mut out, DISCLAIMER);
    let screen = machine_screen(&out);
    // ACQUIRING_LINE, "", the disclaimer (one prose paragraph), "", then the
    // three rows of the ticker panel.
    let disclaimer_paragraphs = 1;
    assert_eq!(screen.len(), 4 + disclaimer_paragraphs + 2);
}

#[test]
fn render_acquiring_wraps_the_duration_line_in_a_panel() {
    let mut out = Vec::new();
    render_acquiring(&mut out, DISCLAIMER);
    let screen = machine_screen(&out);
    let content_idx = screen
        .iter()
        .position(|l| l.contains(ACQUIRING_DURATION_LINE))
        .expect("duration line must still be present");
    assert!(content_idx > 0 && content_idx + 1 < screen.len());
    let top = &screen[content_idx - 1];
    let bottom = &screen[content_idx + 1];
    assert!(top.starts_with('+') && top.ends_with('+'), "top border malformed: {top:?}");
    assert!(bottom.starts_with('+') && bottom.ends_with('+'), "bottom border malformed: {bottom:?}");
    assert_eq!(top, bottom);
    let content = &screen[content_idx];
    assert!(content.starts_with('|') && content.ends_with('|'));
}

#[test]
fn ticker_panel_hugs_the_line_width() {
    let mut out = Vec::new();
    write_ticker_panel(&mut out, "abc");
    let s = machine_screen(&out);
    assert_eq!(s, vec!["+---+".to_string(), "|abc|".to_string(), "+---+".to_string()]);
}

#[test]
fn machine_extras_default_to_off() {
    let e = MachineExtras::none();
    assert!(!e.tpm && !e.usb_trng);
}

#[test]
fn scrubbed_container_is_empty_and_takes_new_records_in_order() {
    let mut s = AcquiredSources::new();
    s.push(AcquiredSource::new(SourceTag::X86Rdseed64, b"rdseed", &[1, 2, 3]).unwrap());
    s.push(AcquiredSource::new(SourceTag::ApprovedEfiRng, b"efi", &[4]).unwrap());
    s.scrub();
    assert_eq!(s.len(), 0);
    assert!(s.is_empty());
    s.push(AcquiredSource::new(SourceTag::ApprovedEfiRng, b"efi", &[9, 9]).unwrap());
    assert_eq!(s.len(), 1);
    assert_eq!(s.get(0).tag(), SourceTag::ApprovedEfiRng);
    assert_eq!(s.get(0).bytes(), vec![9, 9]);
    assert_eq!(s.tags(), vec![SourceTag::ApprovedEfiRng]);
}
