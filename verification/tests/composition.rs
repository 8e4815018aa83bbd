use seed_flow::composition::{
    render_composition_panel, EDU_NOTHING_WITNESSED,
    claimed_page_count, claimed_page_range, claimed_row_text, counted_milli_bits, counted_section, panel_pages,
    render_claimed_note, render_claimed_page, render_claimed_page_header, render_header, render_notices_page,
    CompositionModel, EntropyMode, MachineTagSet, PanelPage, CLAIMED_SECTION_HEADER, EDU_CLAIMED_NOTE,
    EDU_COIN_COUNT, EDU_COIN_PHYS, EDU_COUNTED_TOTAL_PREFIX, EDU_DICE_COUNT, EDU_DICE_PHYS, EDU_EFIRNG_CLAIM,
    EDU_EFIRNG_PHYS, EDU_HEADER, EDU_RDRAND_CLAIM, EDU_RDRAND_PHYS, EDU_RDSEED_CLAIM, EDU_RDSEED_PHYS,
    EDU_USBTRNG_CLAIM, EDU_USBTRNG_PHYS, RULE_LINE,
};
use seed_flow::contracts::{SourceTag, TargetBits};
use seed_flow::text::TextOp;

fn lines(ops: &[TextOp]) -> Vec<String> {
    ops.iter()
        .filter_map(|o| match o {
            TextOp::Line(s) => Some(s.clone()),
            _ => None,
        })
        .collect()
}

#[test]
fn edu_header_verbatim() {
    assert_eq!(
        EDU_HEADER,
        "Your entropy is made of these sources. Alea mixes them all, but it can only count the ones you witnessed."
    );
}

#[test]
fn edu_dice_phys_verbatim() {
    assert_eq!(
        EDU_DICE_PHYS,
        "Dice: you rolled a physical six-sided die; the randomness is the physics of the throw, which you performed and Alea counted."
    );
}

#[test]
fn edu_dice_count_verbatim() {
    assert_eq!(EDU_DICE_COUNT, "WITNESSED -- 2.585 bits per roll (counted toward the floor)");
}

#[test]
fn edu_coin_phys_verbatim() {
    assert_eq!(
        EDU_COIN_PHYS,
        "Coins: you flipped a physical coin; the randomness is the physics of the flip, which you performed and Alea counted."
    );
}

#[test]
fn edu_coin_count_verbatim() {
    assert_eq!(EDU_COIN_COUNT, "WITNESSED -- 1 bit per flip (counted toward the floor)");
}

#[test]
fn edu_rdseed_phys_verbatim() {
    assert_eq!(
        EDU_RDSEED_PHYS,
        "RDSEED: a CPU instruction that samples an on-die noise source inside this processor. You cannot watch it work, and Alea cannot prove it is unpredictable."
    );
}

#[test]
fn edu_rdseed_claim_verbatim() {
    assert_eq!(EDU_RDSEED_CLAIM, "CLAIMED -- bytes returned and health-checked, not proven; 0 counted bits");
}

#[test]
fn edu_efirng_phys_verbatim() {
    assert_eq!(
        EDU_EFIRNG_PHYS,
        "EFI RNG: a random-number service provided by this computer's firmware, backed by hardware the firmware vendor chose. You cannot watch it work."
    );
}

#[test]
fn edu_efirng_claim_verbatim() {
    assert_eq!(EDU_EFIRNG_CLAIM, "CLAIMED -- bytes returned and health-checked, not proven; 0 counted bits");
}

#[test]
fn edu_rdrand_phys_verbatim() {
    assert_eq!(
        EDU_RDRAND_PHYS,
        "RDRAND: a CPU instruction that returns numbers from a generator seeded by the processor's noise source. Supplementary only -- it never stands alone."
    );
}

#[test]
fn edu_rdrand_claim_verbatim() {
    assert_eq!(EDU_RDRAND_CLAIM, "CLAIMED (supplementary) -- health-checked, not proven; 0 counted bits");
}

#[test]
fn edu_counted_total_prefix_verbatim() {
    assert_eq!(EDU_COUNTED_TOTAL_PREFIX, "Counted (witnessed) toward the security floor:");
}

#[test]
fn edu_claimed_note_verbatim() {
    assert_eq!(
        EDU_CLAIMED_NOTE,
        "Claimed sources are mixed in and can only help -- but they add 0 counted bits, because health checks are not proof of unpredictability."
    );
}

#[test]
fn edu_usbtrng_phys_verbatim() {
    assert_eq!(
        EDU_USBTRNG_PHYS,
        "USB TRNG: an external dongle you attached that samples its own physical noise source; a separate device, but you cannot watch it work, and Alea cannot prove it is honest or that its data arrived unaltered."
    );
}

#[test]
fn edu_usbtrng_claim_verbatim() {
    assert_eq!(EDU_USBTRNG_CLAIM, "CLAIMED -- health-checked, not proven; 0 counted bits (reinforcement only)");
}

#[test]
fn machine_tag_set_starts_empty() {
    let s = MachineTagSet::new();
    assert_eq!(s, MachineTagSet::default());
    assert!(s.is_empty());
    assert_eq!(s.len(), 0);
    assert_eq!(s.iter().len(), 0);
}

#[test]
fn machine_tag_set_insert_dedupes_and_orders_canonically() {
    let mut s = MachineTagSet::new();
    s.insert(SourceTag::X86RdrandSupplementary);
    s.insert(SourceTag::ApprovedEfiRng);
    s.insert(SourceTag::X86Rdseed64);
    s.insert(SourceTag::ApprovedEfiRng);
    assert_eq!(s.len(), 3);
    let order: Vec<SourceTag> = s.iter();
    assert_eq!(order, vec![SourceTag::ApprovedEfiRng, SourceTag::X86Rdseed64, SourceTag::X86RdrandSupplementary]);
}

#[test]
fn machine_tag_set_accepts_usb_trng_and_orders_it_last() {
    let mut s = MachineTagSet::new();
    s.insert(SourceTag::ApprovedUsbTrng);
    s.insert(SourceTag::X86Rdseed64);
    s.insert(SourceTag::ApprovedUsbTrng);
    assert!(s.contains(SourceTag::ApprovedUsbTrng));
    assert_eq!(s.len(), 2);
    let order: Vec<SourceTag> = s.iter();
    assert_eq!(order, vec![SourceTag::X86Rdseed64, SourceTag::ApprovedUsbTrng]);
}

#[test]
fn machine_tag_set_ignores_dice_and_coin_tags() {
    let mut s = MachineTagSet::new();
    s.insert(SourceTag::DiceRolls);
    s.insert(SourceTag::CoinFlips);
    assert!(s.is_empty());
}

#[test]
fn machine_tag_set_capacity_is_at_most_four() {
    let mut s = MachineTagSet::new();
    for _ in 0..10 {
        s.insert(SourceTag::ApprovedEfiRng);
        s.insert(SourceTag::X86Rdseed64);
        s.insert(SourceTag::X86RdrandSupplementary);
        s.insert(SourceTag::ApprovedUsbTrng);
    }
    assert_eq!(s.len(), 4, "must never exceed 4");
}

#[test]
fn model_infers_combined_when_both_physical_and_machine_present() {
    let mut tags = MachineTagSet::new();
    tags.insert(SourceTag::X86Rdseed64);
    let m = CompositionModel::new(128, 40, tags, TargetBits::Bits256, 1);
    assert_eq!(m.mode, EntropyMode::Combined);
}

#[test]
fn model_infers_dice_only_when_no_machine_tags() {
    let m = CompositionModel::new(24, 0, MachineTagSet::new(), TargetBits::Bits128, 1);
    assert_eq!(m.mode, EntropyMode::DiceOnly);
}

#[test]
fn model_infers_machine_only_when_no_physical() {
    let mut tags = MachineTagSet::new();
    tags.insert(SourceTag::X86Rdseed64);
    let m = CompositionModel::new(0, 0, tags, TargetBits::Bits256, 1);
    assert_eq!(m.mode, EntropyMode::MachineOnly);
}

#[test]
fn counted_total_of_128_rolls_and_40_flips_is_370_880_milli_bits() {
    assert_eq!(counted_milli_bits(128, 40), 370_880);
    assert_eq!(counted_milli_bits(1, 0), 2585);
    assert_eq!(counted_milli_bits(0, 1), 1000);
}

#[test]
fn counted_section_ignores_claimed_sources_and_reports_floor() {
    let mut tags = MachineTagSet::new();
    tags.insert(SourceTag::ApprovedUsbTrng);
    let with_usb = CompositionModel::new(128, 40, tags, TargetBits::Bits256, 1);
    let without = CompositionModel::new(128, 40, MachineTagSet::new(), TargetBits::Bits256, 1);
    assert_eq!(counted_section(&with_usb), counted_section(&without));
    let total = counted_section(&with_usb).total.unwrap();
    assert_eq!(total.milli_bits, 370_880);
    assert!(total.meets_floor);
    let below = CompositionModel::new(10, 0, MachineTagSet::new(), TargetBits::Bits128, 1);
    assert!(!counted_section(&below).total.unwrap().meets_floor);
}

#[test]
fn machine_only_counted_section_has_no_total() {
    let mut tags = MachineTagSet::new();
    tags.insert(SourceTag::ApprovedEfiRng);
    let m = CompositionModel::new(0, 0, tags, TargetBits::Bits256, 3);
    let c = counted_section(&m);
    assert!(!c.dice_row && !c.coin_row);
    assert_eq!(c.total, None);
}

#[test]
fn claimed_pages_hold_two_tags_each_and_cover_all() {
    assert_eq!(claimed_page_count(0), 0);
    assert_eq!(claimed_page_count(1), 1);
    assert_eq!(claimed_page_count(2), 1);
    assert_eq!(claimed_page_count(3), 2);
    assert_eq!(claimed_page_count(4), 2);
    assert_eq!(claimed_page_range(3, 0), (0, 2));
    assert_eq!(claimed_page_range(3, 1), (2, 3));
}

#[test]
fn panel_pages_for_each_mode() {
    let dice_only = CompositionModel::new(24, 0, MachineTagSet::new(), TargetBits::Bits128, 1);
    assert_eq!(panel_pages(&dice_only), vec![PanelPage::Overview]);
    let mut tags = MachineTagSet::new();
    tags.insert(SourceTag::ApprovedEfiRng);
    tags.insert(SourceTag::X86Rdseed64);
    tags.insert(SourceTag::X86RdrandSupplementary);
    let machine_only = CompositionModel::new(0, 0, tags, TargetBits::Bits256, 1);
    assert_eq!(
        panel_pages(&machine_only),
        vec![
            PanelPage::Overview,
            PanelPage::Claimed(0),
            PanelPage::Claimed(1),
            PanelPage::Notices { disclaimer: true, machine_only_warning: true },
        ]
    );
}

#[test]
fn claimed_rows_never_carry_a_number() {
    let mut tags = MachineTagSet::new();
    tags.insert(SourceTag::ApprovedEfiRng);
    tags.insert(SourceTag::X86Rdseed64);
    tags.insert(SourceTag::X86RdrandSupplementary);
    tags.insert(SourceTag::ApprovedUsbTrng);
    let m = CompositionModel::new(128, 40, tags, TargetBits::Bits256, 1);
    let mut out = Vec::new();
    for p in 0..claimed_page_count(m.machine_tags.len()) {
        render_claimed_page(&mut out, &m, p);
    }
    let ls = lines(&out);
    for tag in m.machine_tags.iter() {
        let (_, claim, short) = claimed_row_text(tag);
        assert!(ls.iter().any(|l| l == claim));
        let row = ls
            .iter()
            .find(|l| l.contains(short) && l.contains("claimed, 0 counted"))
            .expect("claimed row present");
        assert!(!row.replace("claimed, 0 counted", "").chars().any(|c| c.is_ascii_digit()));
        assert!(!row.contains("0.0"));
    }
    // The note closes only the last page.
    let notes = out.iter().filter(|o| matches!(o, TextOp::Prose(s) if s == EDU_CLAIMED_NOTE)).count();
    assert_eq!(notes, 1);
}

#[test]
fn claimed_page_header_and_note_are_exact() {
    let mut out = Vec::new();
    render_claimed_page_header(&mut out);
    assert!(matches!(out[0], TextOp::Clear));
    assert_eq!(lines(&out), vec![CLAIMED_SECTION_HEADER.to_string(), RULE_LINE.to_string()]);
    let mut note = Vec::new();
    render_claimed_note(&mut note);
    assert_eq!(lines(&note), vec![RULE_LINE.to_string()]);
    assert!(matches!(&note[1], TextOp::Prose(s) if s == EDU_CLAIMED_NOTE));
}

#[test]
fn panel_header_names_words_target_and_policy() {
    let m = CompositionModel::new(24, 0, MachineTagSet::new(), TargetBits::Bits256, 3);
    let mut out = Vec::new();
    render_header(&mut out, &m);
    assert_eq!(lines(&out), vec!["ENTROPY COMPOSITION -- 24 words (target 256 bits)   policy v3".to_string()]);
}

#[test]
fn notices_page_shows_disclaimer_and_machine_only_warning() {
    let mut tags = MachineTagSet::new();
    tags.insert(SourceTag::ApprovedEfiRng);
    let m = CompositionModel::new(0, 0, tags, TargetBits::Bits256, 1);
    let mut out = Vec::new();
    render_notices_page(&mut out, &m, true, "DISCLAIMER", "WARNING");
    assert_eq!(out.len(), 5);
    assert!(matches!(&out[1], TextOp::Prose(s) if s == "DISCLAIMER"));
    assert!(matches!(&out[3], TextOp::Prose(s) if s == "WARNING"));
    let dice = CompositionModel::new(24, 0, MachineTagSet::new(), TargetBits::Bits128, 1);
    let mut none = Vec::new();
    render_notices_page(&mut none, &dice, false, "DISCLAIMER", "WARNING");
    assert_eq!(none.len(), 1);
}

const DISCLAIMER: &str = "Health checks catch a broken machine source; they cannot prove it is unpredictable.";
const MACHINE_ONLY_WARNING: &str = "Machine-only entropy: nothing here was witnessed by you.";

/// One decimal place of a milli-bit figure, rounded half up.
fn bits_1dp(milli: u64) -> String {
    let tenths = (milli + 50) / 100;
    format!("{}.{}", tenths / 10, tenths % 10)
}

fn panel(m: &CompositionModel) -> Vec<TextOp> {
    let dice = bits_1dp(u64::from(m.dice_rolls) * 2585);
    let coins = bits_1dp(u64::from(m.coin_flips) * 1000);
    let total = bits_1dp(counted_milli_bits(m.dice_rolls, m.coin_flips));
    let mut out = Vec::new();
    render_composition_panel(&mut out, m, &dice, &coins, &total, DISCLAIMER, MACHINE_ONLY_WARNING);
    out
}

fn has_prose(ops: &[TextOp], text: &str) -> bool {
    ops.iter().any(|o| matches!(o, TextOp::Prose(p) if p == text))
}

fn has_line_with(ops: &[TextOp], needle: &str) -> bool {
    lines(ops).iter().any(|l| l.contains(needle))
}

#[test]
fn combined_renders_both_sections_with_correct_total_and_claimed_row() {
    let mut tags = MachineTagSet::new();
    tags.insert(SourceTag::X86Rdseed64);
    let m = CompositionModel::new(128, 40, tags, TargetBits::Bits256, 1);
    assert_eq!(m.mode, EntropyMode::Combined);
    let ops = panel(&m);
    assert!(has_prose(&ops, EDU_HEADER));
    assert!(has_prose(&ops, EDU_DICE_PHYS));
    assert!(has_prose(&ops, EDU_COIN_PHYS));
    assert!(has_prose(&ops, EDU_RDSEED_PHYS));
    assert!(has_line_with(&ops, EDU_RDSEED_CLAIM));
    assert!(has_line_with(&ops, "370.9 bits  >= 256"), "counted total line must show 370.9 >= 256");
    assert!(has_prose(&ops, DISCLAIMER));
    let all = lines(&ops);
    let claimed_row = all
        .iter()
        .find(|l| l.contains("RDSEED") && l.contains("claimed, 0 counted"))
        .expect("must render a RDSEED / claimed, 0 counted row");
    assert!(!claimed_row.replace("claimed, 0 counted", "").chars().any(|c| c.is_ascii_digit()));
}

#[test]
fn dice_only_renders_counted_section_only_no_claimed_no_disclaimer() {
    let m = CompositionModel::new(24, 0, MachineTagSet::new(), TargetBits::Bits128, 1);
    assert_eq!(m.mode, EntropyMode::DiceOnly);
    let ops = panel(&m);
    assert!(has_prose(&ops, EDU_DICE_PHYS));
    assert!(!has_line_with(&ops, "CLAIMED -- UNPROVEN"));
    assert!(!has_prose(&ops, DISCLAIMER));
    assert!(!has_prose(&ops, MACHINE_ONLY_WARNING));
}

#[test]
fn machine_only_renders_empty_counted_section_and_warning() {
    let mut tags = MachineTagSet::new();
    tags.insert(SourceTag::ApprovedEfiRng);
    let m = CompositionModel::new(0, 0, tags, TargetBits::Bits256, 3);
    assert_eq!(m.mode, EntropyMode::MachineOnly);
    let ops = panel(&m);
    assert!(has_line_with(&ops, EDU_NOTHING_WITNESSED));
    assert!(has_line_with(&ops, "witnessed"), "must state plainly that nothing is witnessed");
    assert!(has_prose(&ops, MACHINE_ONLY_WARNING));
    assert!(has_prose(&ops, DISCLAIMER));
    assert!(!has_line_with(&ops, "bits  >="), "MachineOnly has no floor to meet, so no verdict line");
}

#[test]
fn invariant_no_claimed_source_ever_appears_beside_a_counted_figure_or_inflates_the_total() {
    let dice_coin_combos: &[(u32, u32)] = &[(0, 0), (1, 0), (0, 1), (128, 40), (24, 0)];
    let machine_combos: &[&[SourceTag]] = &[
        &[],
        &[SourceTag::ApprovedEfiRng],
        &[SourceTag::X86Rdseed64],
        &[SourceTag::X86RdrandSupplementary],
        &[SourceTag::ApprovedUsbTrng],
        &[SourceTag::ApprovedEfiRng, SourceTag::X86Rdseed64],
        &[SourceTag::ApprovedEfiRng, SourceTag::X86Rdseed64, SourceTag::X86RdrandSupplementary],
        &[
            SourceTag::ApprovedEfiRng,
            SourceTag::X86Rdseed64,
            SourceTag::X86RdrandSupplementary,
            SourceTag::ApprovedUsbTrng,
        ],
    ];
    let targets = [TargetBits::Bits128, TargetBits::Bits256];
    let mut cases_checked = 0usize;
    for &(rolls, flips) in dice_coin_combos {
        for machine in machine_combos {
            for &target in &targets {
                let mut tags = MachineTagSet::new();
                for &t in *machine {
                    tags.insert(t);
                }
                let m = CompositionModel::new(rolls, flips, tags, target, 1);
                let ops = panel(&m);
                cases_checked += 1;
                let expected_total_milli = counted_milli_bits(rolls, flips);
                let expected_total_str = bits_1dp(expected_total_milli);
                let all = lines(&ops);
                for line in &all {
                    let lower = line.to_ascii_lowercase();
                    let has_claimed_marker = lower.contains("claimed");
                    let has_digit = line.chars().any(|c| c.is_ascii_digit());
                    if has_claimed_marker && has_digit {
                        assert!(
                            !line.contains(&expected_total_str) || expected_total_milli == 0,
                            "a claimed-bearing line must never contain the counted total figure: {line:?}"
                        );
                    }
                    if line.contains("bits") && line.contains(">=") {
                        assert!(line.contains(&expected_total_str), "{line:?}");
                    }
                }
                for &tag in *machine {
                    let (_, _, short) = claimed_row_text(tag);
                    let row = all
                        .iter()
                        .find(|l| l.contains(short) && l.contains("claimed, 0 counted"))
                        .unwrap_or_else(|| panic!("missing claimed row for {short}"));
                    assert!(!row.replace("claimed, 0 counted", "").chars().any(|c| c.is_ascii_digit()));
                }
            }
        }
    }
    assert_eq!(cases_checked, dice_coin_combos.len() * machine_combos.len() * targets.len());
}

#[test]
fn render_never_emits_a_bare_0_0_on_a_claimed_row() {
    let mut tags = MachineTagSet::new();
    tags.insert(SourceTag::ApprovedEfiRng);
    tags.insert(SourceTag::X86Rdseed64);
    tags.insert(SourceTag::X86RdrandSupplementary);
    tags.insert(SourceTag::ApprovedUsbTrng);
    let m = CompositionModel::new(128, 40, tags, TargetBits::Bits256, 1);
    for line in lines(&panel(&m)) {
        if line.contains("claimed, 0 counted") {
            assert!(!line.contains("0.0"), "claimed row must never print 0.0: {line:?}");
        }
    }
}

#[test]
fn usb_trng_source_renders_as_claimed_row_and_never_alters_counted_total() {
    let mut tags = MachineTagSet::new();
    tags.insert(SourceTag::ApprovedUsbTrng);
    let m = CompositionModel::new(128, 40, tags, TargetBits::Bits256, 1);
    assert_eq!(m.mode, EntropyMode::Combined);
    let with_usb = panel(&m);
    assert!(has_line_with(&with_usb, "CLAIMED -- UNPROVEN"));
    assert!(has_prose(&with_usb, EDU_USBTRNG_PHYS));
    assert!(has_line_with(&with_usb, EDU_USBTRNG_CLAIM));
    let all = lines(&with_usb);
    let claimed_row = all
        .iter()
        .find(|l| l.contains("USB TRNG") && l.contains("claimed, 0 counted"))
        .expect("must render a USB TRNG / claimed, 0 counted row");
    assert!(!claimed_row.replace("claimed, 0 counted", "").chars().any(|c| c.is_ascii_digit()));
    let baseline = CompositionModel::new(128, 40, MachineTagSet::new(), TargetBits::Bits256, 1);
    let without = panel(&baseline);
    let total_line = |ops: &[TextOp]| {
        lines(ops)
            .into_iter()
            .find(|l| l.contains("bits") && l.contains(">="))
            .expect("counted-total verdict line must be present")
    };
    assert_eq!(total_line(&with_usb), total_line(&without));
    assert!(total_line(&with_usb).contains("370.9 bits  >= 256"));
}

#[test]
fn usb_trng_alongside_efi_rng_adds_one_more_independent_claimed_row() {
    let mut tags = MachineTagSet::new();
    tags.insert(SourceTag::ApprovedEfiRng);
    tags.insert(SourceTag::ApprovedUsbTrng);
    let m = CompositionModel::new(0, 0, tags, TargetBits::Bits128, 2);
    assert_eq!(m.mode, EntropyMode::MachineOnly);
    let ops = panel(&m);
    assert!(has_prose(&ops, EDU_EFIRNG_PHYS));
    assert!(has_prose(&ops, EDU_USBTRNG_PHYS));
    assert!(has_line_with(&ops, EDU_NOTHING_WITNESSED));
    assert!(!has_line_with(&ops, "bits  >="), "MachineOnly has no floor to meet, so no verdict line");
}

#[test]
fn panel_has_overview_claimed_pages_notices_and_prompts_in_order() {
    let mut tags = MachineTagSet::new();
    tags.insert(SourceTag::ApprovedEfiRng);
    tags.insert(SourceTag::X86Rdseed64);
    tags.insert(SourceTag::ApprovedUsbTrng);
    let m = CompositionModel::new(128, 40, tags, TargetBits::Bits256, 1);
    let ops = panel(&m);
    let clears = ops.iter().filter(|o| matches!(o, TextOp::Clear)).count();
    // overview, two claimed pages, notices
    assert_eq!(clears, 4);
    let all = lines(&ops);
    assert_eq!(all[0], "ENTROPY COMPOSITION -- 24 words (target 256 bits)   policy v1");
    assert_eq!(all[all.len() - 2], "[Enter] Continue to generate");
    assert_eq!(all[all.len() - 1], "[Esc] Return to entropy entry");
    assert!(has_line_with(&ops, "   128 rolls = 330.9 bits"));
    assert!(has_line_with(&ops, "   40 flips = 40.0 bits"));
}

#[test]
fn counted_lines_are_the_same_with_or_without_claimed_sources() {
    let mut tags = MachineTagSet::new();
    tags.insert(SourceTag::ApprovedEfiRng);
    tags.insert(SourceTag::X86Rdseed64);
    let with = CompositionModel::new(128, 40, tags, TargetBits::Bits256, 1);
    let without = CompositionModel::new(128, 40, MachineTagSet::new(), TargetBits::Bits256, 1);
    let mut a = Vec::new();
    seed_flow::composition::render_counted_section(&mut a, &with, "330.9", "40.0", "370.9");
    let mut b = Vec::new();
    seed_flow::composition::render_counted_section(&mut b, &without, "330.9", "40.0", "370.9");
    assert_eq!(lines(&a), lines(&b));
    assert!(lines(&a).iter().any(|l| l.ends_with("370.9 bits  >= 256")));
}

#[test]
fn tag_list_is_canonical_and_len_matches() {
    let mut s = MachineTagSet::new();
    s.insert(SourceTag::ApprovedUsbTrng);
    s.insert(SourceTag::ApprovedEfiRng);
    assert_eq!(s.iter(), vec![SourceTag::ApprovedEfiRng, SourceTag::ApprovedUsbTrng]);
    assert_eq!(s.len(), s.iter().len());
    assert!(!s.is_empty());
}
