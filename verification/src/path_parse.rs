//! The free-form BIP32 derivation-path parser: a typed path string such as
//! `m/48'/0'/0'/2'/0/0` becomes a bounded `[u32; MAX_DEPTH]` of child
//! numbers (hardened bit applied), or a typed [`PathParseError`].
//!
//! Grammar:
//!
//! ```text
//! path     = "m" , element , { element } ;     (* at least one element *)
//! element  = "/" , number , [ hardened ] ;
//! number   = digit , { digit } ;               (* value < 2^31 *)
//! hardened = "'" | "h" | "H" ;
//! ```
//!
//! [`spec_parse_path`] states the accepted language and the error reported
//! for every rejected input; [`parse_path`] is proved to compute exactly it,
//! without panicking on any input.
use vstd::prelude::*;
use crate::contracts::{HARDENED_OFFSET, MAX_DEPTH};
use vstd::string::StringSliceAdditionalSpecFns;

verus! {

/// A typed parse rejection.
#[derive(Debug, Clone, Copy, PartialEq, Eq, Structural)]
pub enum PathParseError {
    /// The empty string, or a lone `m` with no element.
    Empty,
    /// Whitespace anywhere in the string.
    Whitespace,
    /// A missing or uppercase `m` prefix, or junk right after the `m`.
    MissingMasterPrefix,
    /// A trailing slash or an empty segment (`//`).
    EmptySegment,
    /// A non-digit character inside a number.
    BadDigit,
    /// A hardened marker with no number before it.
    MissingNumber,
    /// A stray, misplaced, duplicated or unknown hardened marker.
    BadMarker,
    /// A number past `u32::MAX`.
    NumberOverflow,
    /// A number `>= 2^31`, which would collide with the hardened bit.
    NumberTooLarge,
    /// More than [`MAX_DEPTH`] elements.
    TooDeep,
}

/// The human-readable reason shown for each error.
pub open spec fn spec_reason(e: PathParseError) -> Seq<char> {
    match e {
        PathParseError::Empty => "type a path such as m/84'/0'/0'/0/0"@,
        PathParseError::Whitespace => "no spaces are allowed in a path"@,
        PathParseError::MissingMasterPrefix => "a path must start with lowercase m/"@,
        PathParseError::EmptySegment => "an empty level (a // or a trailing /) is not allowed"@,
        PathParseError::BadDigit => "a level must be a decimal number"@,
        PathParseError::MissingNumber => "a hardened marker needs a number before it"@,
        PathParseError::BadMarker => "use one hardened marker (' or h or H) right after a number"@,
        PathParseError::NumberOverflow => "a level number overflowed a 32-bit child index"@,
        PathParseError::NumberTooLarge => "a level number must be below 2^31 (2147483648)"@,
        PathParseError::TooDeep => "a path may have at most 10 levels"@,
    }
}

impl PathParseError {
    /// A short human-readable reason for the "could not read that path" line.
    pub fn reason(self) -> (r: &'static str)
        ensures
            r@ == spec_reason(self),
    {
        match self {
            PathParseError::Empty => "type a path such as m/84'/0'/0'/0/0",
            PathParseError::Whitespace => "no spaces are allowed in a path",
            PathParseError::MissingMasterPrefix => "a path must start with lowercase m/",
            PathParseError::EmptySegment => "an empty level (a // or a trailing /) is not allowed",
            PathParseError::BadDigit => "a level must be a decimal number",
            PathParseError::MissingNumber => "a hardened marker needs a number before it",
            PathParseError::BadMarker => "use one hardened marker (' or h or H) right after a number",
            PathParseError::NumberOverflow => "a level number overflowed a 32-bit child index",
            PathParseError::NumberTooLarge => "a level number must be below 2^31 (2147483648)",
            PathParseError::TooDeep => "a path may have at most 10 levels",
        }
    }
}

// ---------------------------------------------------------------------------
// The language, stated over bytes
// ---------------------------------------------------------------------------

/// `'`, `h` or `H`.
pub open spec fn spec_is_marker(b: u8) -> bool {
    b == 39 || b == 104 || b == 72
}

/// An ASCII decimal digit.
pub open spec fn spec_is_digit(b: u8) -> bool {
    48 <= b && b <= 57
}

/// ASCII whitespace: space, tab, line feed, form feed, carriage return.
pub open spec fn spec_is_ws(b: u8) -> bool {
    b == 32 || b == 9 || b == 10 || b == 12 || b == 13
}

/// The end of the run of digits starting at `i`.
pub open spec fn digit_run(t: Seq<u8>, i: int) -> int
    decreases t.len() - i,
{
    if i < 0 || i >= t.len() || !spec_is_digit(t[i]) {
        i
    } else {
        digit_run(t, i + 1)
    }
}

/// The decimal value of the first `n` bytes of `t`.
pub open spec fn digits_value(t: Seq<u8>, n: int) -> nat
    decreases n,
{
    if n <= 0 {
        0
    } else {
        digits_value(t, n - 1) * 10 + ((t[n - 1] - 48) as nat)
    }
}

/// One element token (the text between two slashes) parsed to its child
/// number, hardened bit applied.
pub open spec fn spec_element(t: Seq<u8>) -> Result<u32, PathParseError> {
    let d = digit_run(t, 0);
    let v = digits_value(t, d);
    let rest = t.len() - d;
    if t.len() == 0 {
        Err(PathParseError::EmptySegment)
    } else if v > u32::MAX {
        Err(PathParseError::NumberOverflow)
    } else if d == 0 {
        if spec_is_marker(t[0]) {
            if t.len() == 1 {
                Err(PathParseError::MissingNumber)
            } else {
                Err(PathParseError::BadMarker)
            }
        } else {
            Err(PathParseError::BadDigit)
        }
    } else if rest >= 2 {
        if spec_is_marker(t[d]) {
            Err(PathParseError::BadMarker)
        } else {
            Err(PathParseError::BadDigit)
        }
    } else if rest == 1 && !spec_is_marker(t[d]) {
        Err(PathParseError::BadMarker)
    } else if v >= HARDENED_OFFSET {
        Err(PathParseError::NumberTooLarge)
    } else if rest == 1 {
        Ok((v + HARDENED_OFFSET) as u32)
    } else {
        Ok(v as u32)
    }
}

/// The end of the segment starting at `i`: the next `/`, or the end.
pub open spec fn seg_end(b: Seq<u8>, i: int) -> int
    decreases b.len() - i,
{
    if i < 0 || i >= b.len() || b[i] == 47 {
        i
    } else {
        seg_end(b, i + 1)
    }
}

pub proof fn lemma_seg_end(b: Seq<u8>, i: int)
    requires
        0 <= i <= b.len(),
    ensures
        i <= seg_end(b, i) <= b.len(),
        seg_end(b, i) < b.len() ==> b[seg_end(b, i)] == 47,
        forall|k: int| i <= k < seg_end(b, i) ==> b[k] != 47,
    decreases b.len() - i,
{
    if i < b.len() && b[i] != 47 {
        lemma_seg_end(b, i + 1);
    }
}

/// The elements of `b` from token start `i` on, `depth` of them already
/// accepted before.
pub open spec fn spec_elements(b: Seq<u8>, i: int, depth: nat) -> Result<Seq<u32>, PathParseError>
    decreases b.len() - i,
{
    if i < 0 || i > b.len() {
        Err(PathParseError::EmptySegment)
    } else {
        let e = seg_end(b, i);
        if depth >= MAX_DEPTH {
            Err(PathParseError::TooDeep)
        } else {
            match spec_element(b.subrange(i, e)) {
                Err(x) => Err(x),
                Ok(v) => if e >= b.len() {
                    Ok(seq![v])
                } else {
                    proof {
                        lemma_seg_end(b, i);
                    }
                    match spec_elements(b, e + 1, depth + 1) {
                        Ok(rest) => Ok(seq![v] + rest),
                        Err(x) => Err(x),
                    }
                },
            }
        }
    }
}

/// The parse of a whole path string (as bytes): the child numbers in order,
/// or the error for the first rule the string breaks.
pub open spec fn spec_parse_path(b: Seq<u8>) -> Result<Seq<u32>, PathParseError> {
    if b.len() == 0 {
        Err(PathParseError::Empty)
    } else if exists|k: int| 0 <= k < b.len() && spec_is_ws(#[trigger] b[k]) {
        Err(PathParseError::Whitespace)
    } else if b[0] != 109 {
        Err(PathParseError::MissingMasterPrefix)
    } else if b.len() == 1 {
        Err(PathParseError::Empty)
    } else if b[1] != 47 {
        Err(PathParseError::MissingMasterPrefix)
    } else {
        spec_elements(b, 2, 0)
    }
}

// ---------------------------------------------------------------------------
// Lemmas
// ---------------------------------------------------------------------------

proof fn lemma_digit_run(t: Seq<u8>, i: int, d: int)
    requires
        0 <= i <= d <= t.len(),
        forall|k: int| i <= k < d ==> spec_is_digit(#[trigger] t[k]),
        d == t.len() || !spec_is_digit(t[d]),
    ensures
        digit_run(t, i) == d,
    decreases d - i,
{
    if i < d {
        lemma_digit_run(t, i + 1, d);
    }
}

proof fn lemma_digits_mono(t: Seq<u8>, k: int, m: int)
    requires
        0 <= k <= m <= t.len(),
        forall|j: int| 0 <= j < m ==> spec_is_digit(#[trigger] t[j]),
    ensures
        digits_value(t, k) <= digits_value(t, m),
    decreases m - k,
{
    if k < m {
        lemma_digits_mono(t, k, m - 1);
        assert(digits_value(t, m) == digits_value(t, m - 1) * 10 + ((t[m - 1] - 48) as nat));
    }
}

// ---------------------------------------------------------------------------
// Executable parser
// ---------------------------------------------------------------------------

/// True for the three accepted hardened markers.
pub fn is_marker(b: u8) -> (r: bool)
    ensures
        r == spec_is_marker(b),
{
    b == 39 || b == 104 || b == 72
}

/// Parse the token `b[start..end]`.
fn parse_element(b: &[u8], start: usize, end: usize) -> (r: Result<u32, PathParseError>)
    requires
        start <= end <= b@.len(),
    ensures
        r == spec_element(b@.subrange(start as int, end as int)),
{
    let ghost t = b@.subrange(start as int, end as int);
    if start == end {
        return Err(PathParseError::EmptySegment);
    }
    let len = end - start;
    let mut value: u64 = 0;
    let mut digits: usize = 0;
    while digits < len && 48 <= b[start + digits] && b[start + digits] <= 57
        invariant
            t == b@.subrange(start as int, end as int),
            start <= end <= b@.len(),
            len == end - start,
            len == t.len(),
            digits <= len,
            forall|k: int| 0 <= k < digits ==> spec_is_digit(#[trigger] t[k]),
            value == digits_value(t, digits as int),
            value <= u32::MAX,
        decreases len - digits,
    {
        assert(t[digits as int] == b@[start + digits]);
        let dv = (b[start + digits] - 48) as u64;
        value = value * 10 + dv;
        digits = digits + 1;
        assert(digits_value(t, digits as int) == digits_value(t, digits - 1) * 10 + ((t[digits - 1]
            - 48) as nat));
        if value > 0xFFFF_FFFFu64 {
            proof {
                let d = digit_run(t, 0);
                let mut m: int = digits as int;
                // all bytes up to the end of the run are digits
                assert(forall|k: int| 0 <= k < digits ==> spec_is_digit(#[trigger] t[k]));
                lemma_run_covers(t, digits as int);
                lemma_digits_mono(t, digits as int, digit_run(t, 0));
            }
            return Err(PathParseError::NumberOverflow);
        }
    }
    proof {
        if digits < len {
            assert(t[digits as int] == b@[start + digits]);
        }
        lemma_digit_run(t, 0, digits as int);
    }
    if digits == 0 {
        assert(t[0] == b@[start as int]);
        if is_marker(b[start]) {
            return Err(if len == 1 {
                PathParseError::MissingNumber
            } else {
                PathParseError::BadMarker
            });
        }
        return Err(PathParseError::BadDigit);
    }
    let rest = len - digits;
    let hardened = if rest == 0 {
        false
    } else if rest == 1 {
        assert(t[digits as int] == b@[start + digits]);
        if is_marker(b[start + digits]) {
            true
        } else {
            return Err(PathParseError::BadMarker);
        }
    } else {
        assert(t[digits as int] == b@[start + digits]);
        return Err(
            if is_marker(b[start + digits]) {
                PathParseError::BadMarker
            } else {
                PathParseError::BadDigit
            },
        );
    };
    if value >= HARDENED_OFFSET as u64 {
        return Err(PathParseError::NumberTooLarge);
    }
    let base = value as u32;
    Ok(
        if hardened {
            base + HARDENED_OFFSET
        } else {
            base
        },
    )
}

/// Every byte before the end of the leading digit run is a digit, and the
/// run reaches at least as far as any all-digit prefix.
proof fn lemma_run_covers(t: Seq<u8>, n: int)
    requires
        0 <= n <= t.len(),
        forall|k: int| 0 <= k < n ==> spec_is_digit(#[trigger] t[k]),
    ensures
        n <= digit_run(t, 0) <= t.len(),
        forall|k: int| 0 <= k < digit_run(t, 0) ==> spec_is_digit(#[trigger] t[k]),
{
    lemma_run_from(t, 0);
    lemma_run_reaches(t, 0, n);
}

proof fn lemma_run_from(t: Seq<u8>, i: int)
    requires
        0 <= i <= t.len(),
    ensures
        i <= digit_run(t, i) <= t.len(),
        forall|k: int| i <= k < digit_run(t, i) ==> spec_is_digit(#[trigger] t[k]),
    decreases t.len() - i,
{
    if i < t.len() && spec_is_digit(t[i]) {
        lemma_run_from(t, i + 1);
    }
}

proof fn lemma_run_reaches(t: Seq<u8>, i: int, n: int)
    requires
        0 <= i <= n <= t.len(),
        forall|k: int| i <= k < n ==> spec_is_digit(#[trigger] t[k]),
    ensures
        n <= digit_run(t, i),
    decreases n - i,
{
    if i < n {
        assert(spec_is_digit(t[i]));
        assert(digit_run(t, i) == digit_run(t, i + 1));
        lemma_run_reaches(t, i + 1, n);
    } else {
        lemma_run_from(t, i);
    }
}

/// Applies the parse of the elements still ahead to the prefix already
/// accepted.
pub open spec fn prepend(p: Seq<u32>, r: Result<Seq<u32>, PathParseError>) -> Result<
    Seq<u32>,
    PathParseError,
> {
    match r {
        Ok(s) => Ok(p + s),
        Err(x) => Err(x),
    }
}

/// Parse a typed derivation path (`m/44'/0'/0'/0/0`), writing the child
/// numbers into `out` and returning how many were written; the slots past
/// them are left as they were. On `Err` the contents of `out` are
/// unspecified; no input makes this panic.
pub fn parse_path(input: &str, out: &mut [u32; MAX_DEPTH]) -> (r: Result<usize, PathParseError>)
    ensures
        match spec_parse_path(input.spec_bytes()) {
            Ok(v) => r == Ok::<usize, PathParseError>(v.len() as usize) && v.len() <= MAX_DEPTH
                && final(out)@.subrange(0, v.len() as int) == v && final(out)@.subrange(
                v.len() as int,
                MAX_DEPTH as int,
            ) == old(out)@.subrange(v.len() as int, MAX_DEPTH as int),
            Err(e) => r == Err::<usize, PathParseError>(e),
        },
{
    let b = input.as_bytes();
    let ghost bs = b@;
    let n = b.len();
    if n == 0 {
        return Err(PathParseError::Empty);
    }
    let mut k: usize = 0;
    while k < n
        invariant
            n == bs.len(),
            b@ == bs,
            bs == input.spec_bytes(),
            k <= n,
            forall|j: int| 0 <= j < k ==> !spec_is_ws(#[trigger] bs[j]),
        decreases n - k,
    {
        let c = b[k];
        if c == 32 || c == 9 || c == 10 || c == 12 || c == 13 {
            assert(spec_is_ws(bs[k as int]));
            assert(bs == input.spec_bytes());
            assert(spec_parse_path(bs) == Err::<Seq<u32>, PathParseError>(PathParseError::Whitespace));
            return Err(PathParseError::Whitespace);
        }
        k = k + 1;
    }
    assert(!(exists|j: int| 0 <= j < bs.len() && spec_is_ws(#[trigger] bs[j])));
    if b[0] != 109 {
        return Err(PathParseError::MissingMasterPrefix);
    }
    if n == 1 {
        return Err(PathParseError::Empty);
    }
    if b[1] != 47 {
        return Err(PathParseError::MissingMasterPrefix);
    }
    let mut i: usize = 2;
    let mut depth: usize = 0;
    assert(out@.subrange(0, 0) =~= Seq::<u32>::empty());
    loop
        invariant
            n == bs.len(),
            b@ == bs,
            bs == input.spec_bytes(),
            2 <= i <= n,
            depth <= MAX_DEPTH,
            spec_parse_path(bs) == prepend(out@.subrange(0, depth as int), spec_elements(bs, i as int, depth as nat)),
            forall|j: int| depth <= j < MAX_DEPTH ==> #[trigger] out@[j] == old(out)@[j],
        decreases n - i,
    {
        if depth >= MAX_DEPTH {
            return Err(PathParseError::TooDeep);
        }
        let mut e: usize = i;
        while e < n && b[e] != 47
            invariant
                n == bs.len(),
                b@ == bs,
                i <= e <= n,
                seg_end(bs, i as int) == seg_end(bs, e as int),
            decreases n - e,
        {
            e = e + 1;
        }
        proof {
            lemma_seg_end(bs, i as int);
        }
        assert(seg_end(bs, e as int) == e);
        let ghost before = out@.subrange(0, depth as int);
        let v = match parse_element(b, i, e) {
            Ok(v) => v,
            Err(x) => {
                return Err(x);
            },
        };
        out[depth] = v;
        proof {
            assert(out@.subrange(0, depth as int) =~= before);
            assert(out@.subrange(0, depth + 1) =~= before.push(v));
        }
        depth = depth + 1;
        if e >= n {
            assert(before + seq![v] =~= before.push(v));
            assert(out@.subrange(depth as int, MAX_DEPTH as int) =~= old(out)@.subrange(
                depth as int,
                MAX_DEPTH as int,
            ));
            return Ok(depth);
        }
        proof {
            assert(spec_elements(bs, i as int, (depth - 1) as nat) == match spec_elements(
                bs,
                e + 1,
                depth as nat,
            ) {
                Ok(rest) => Ok(seq![v] + rest),
                Err(x) => Err(x),
            });
            match spec_elements(bs, e + 1, depth as nat) {
                Ok(rest) => {
                    assert(before + (seq![v] + rest) =~= before.push(v) + rest);
                },
                Err(x) => {},
            }
        }
        i = e + 1;
    }
}

} // verus!
