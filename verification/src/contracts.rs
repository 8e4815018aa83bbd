//! Plain-data vocabulary shared by every module: the BIP32 bounds, the
//! entropy-source tags, the word-count / target choices and the address
//! forms a path may be rendered as.
use vstd::prelude::*;

verus! {

/// Maximum number of levels in a derivation path.
pub const MAX_DEPTH: usize = 10;

/// The hardened-index bit (`2^31`).
pub const HARDENED_OFFSET: u32 = 0x8000_0000;

/// Source tag of one entropy record.
#[derive(Debug, Clone, Copy, PartialEq, Eq, Structural)]
pub enum SourceTag {
    ApprovedEfiRng,
    X86Rdseed64,
    X86RdrandSupplementary,
    ApprovedUsbTrng,
    Tpm2GetRandom,
    Tpm12GetRandom,
    DiceRolls,
    CoinFlips,
}

/// The security target: 128 bits (12 words) or 256 bits (24 words).
#[derive(Debug, Clone, Copy, PartialEq, Eq, Structural)]
pub enum TargetBits {
    Bits128,
    Bits256,
}

/// The number of words in the mnemonic.
#[derive(Debug, Clone, Copy, PartialEq, Eq, Structural)]
pub enum WordCount {
    Twelve,
    TwentyFour,
}

/// One of the four preset single-sig derivation standards.
#[derive(Debug, Clone, Copy, PartialEq, Eq, Structural)]
pub enum PathStandard {
    Bip44,
    Bip49,
    Bip84,
    Bip86,
}

/// The address form a path is rendered as.
#[derive(Debug, Clone, Copy, PartialEq, Eq, Structural)]
pub enum ScriptType {
    P2pkh,
    P2shP2wpkh,
    P2wpkh,
    P2tr,
}

/// The number of bits a target stands for.
pub open spec fn spec_target_bits(t: TargetBits) -> nat {
    match t {
        TargetBits::Bits128 => 128,
        TargetBits::Bits256 => 256,
    }
}

/// The number of words a target stands for.
pub open spec fn spec_target_words(t: TargetBits) -> nat {
    match t {
        TargetBits::Bits128 => 12,
        TargetBits::Bits256 => 24,
    }
}

/// `target` as a plain bit count.
pub fn target_bits_number(target: TargetBits) -> (r: u32)
    ensures
        r == spec_target_bits(target),
{
    match target {
        TargetBits::Bits128 => 128,
        TargetBits::Bits256 => 256,
    }
}

/// `target` as a mnemonic word count.
pub fn target_word_count(target: TargetBits) -> (r: u32)
    ensures
        r == spec_target_words(target),
{
    match target {
        TargetBits::Bits128 => 12,
        TargetBits::Bits256 => 24,
    }
}

/// The conventional script type of a preset standard.
pub open spec fn spec_script_for_standard(s: PathStandard) -> ScriptType {
    match s {
        PathStandard::Bip44 => ScriptType::P2pkh,
        PathStandard::Bip49 => ScriptType::P2shP2wpkh,
        PathStandard::Bip84 => ScriptType::P2wpkh,
        PathStandard::Bip86 => ScriptType::P2tr,
    }
}

/// The conventional script type of a preset standard (44 legacy, 49 nested
/// segwit, 84 native segwit, 86 taproot).
pub fn script_for_standard(s: PathStandard) -> (r: ScriptType)
    ensures
        r == spec_script_for_standard(s),
{
    match s {
        PathStandard::Bip44 => ScriptType::P2pkh,
        PathStandard::Bip49 => ScriptType::P2shP2wpkh,
        PathStandard::Bip84 => ScriptType::P2wpkh,
        PathStandard::Bip86 => ScriptType::P2tr,
    }
}

/// The BIP number of a single-sig standard: 44, 49, 84 or 86.
pub open spec fn spec_standard_bip(s: PathStandard) -> nat {
    match s {
        PathStandard::Bip44 => 44,
        PathStandard::Bip49 => 49,
        PathStandard::Bip84 => 84,
        PathStandard::Bip86 => 86,
    }
}

} // verus!
