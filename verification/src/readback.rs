//! The custom-path builder's read-back and the free-form path parser agree:
//! typing the path the builder shows (`m/84'/0'/0'/0/0`) into the parser
//! gives back exactly the child numbers the builder derives.
use vstd::prelude::*;
use vstd::utf8::{encode_utf8, is_ascii_chars, is_ascii_chars_encode_utf8};
use crate::contracts::MAX_DEPTH;
use crate::custom_path::{spec_child, spec_children, view_wf, BuilderView, MAX_LEVEL_VALUE};
use crate::custom_path_screen::{spec_level_text, spec_path_text};
use crate::path_parse::{
    digit_run, digits_value, lemma_seg_end, seg_end, spec_element, spec_elements, spec_is_digit, spec_is_ws,
    spec_parse_path,
};
use crate::text::{spec_decimal, spec_digit};

verus! {

/// The bytes of a string of ASCII characters.
pub open spec fn spec_ascii(s: Seq<char>) -> Seq<u8> {
    s.map_values(|c: char| c as u8)
}

/// The characters a path read-back is made of: `m`, `/`, `'` and digits.
pub open spec fn spec_path_char(c: char) -> bool {
    c == 'm' || c == '/' || c == '\'' || ('0' <= c && c <= '9')
}

proof fn lemma_digit_char(d: nat)
    requires
        d < 10,
    ensures
        spec_digit(d) as u8 == 48 + d,
        '0' <= spec_digit(d) <= '9',
{
}

proof fn lemma_ascii_add(a: Seq<char>, b: Seq<char>)
    ensures
        spec_ascii(a + b) == spec_ascii(a) + spec_ascii(b),
{
    assert(spec_ascii(a + b) =~= spec_ascii(a) + spec_ascii(b));
}

proof fn lemma_digits_prefix(t: Seq<u8>, u: Seq<u8>, k: int)
    requires
        0 <= k <= t.len(),
        k <= u.len(),
        forall|j: int| 0 <= j < k ==> t[j] == u[j],
    ensures
        digits_value(t, k) == digits_value(u, k),
    decreases k,
{
    if k > 0 {
        lemma_digits_prefix(t, u, k - 1);
    }
}

/// The bytes of a decimal numeral are digits and read back as its value.
proof fn lemma_decimal_bytes(v: nat)
    ensures
        spec_ascii(spec_decimal(v)).len() >= 1,
        forall|k: int| 0 <= k < spec_decimal(v).len() ==> '0' <= #[trigger] spec_decimal(v)[k] <= '9',
        forall|k: int|
            0 <= k < spec_ascii(spec_decimal(v)).len() ==> spec_is_digit(#[trigger] spec_ascii(spec_decimal(v))[k]),
        digits_value(spec_ascii(spec_decimal(v)), spec_ascii(spec_decimal(v)).len() as int) == v,
    decreases v,
{
    let t = spec_ascii(spec_decimal(v));
    if v < 10 {
        lemma_digit_char(v);
        assert(spec_decimal(v) == seq![spec_digit(v)]);
        assert(t.len() == 1);
        assert(t[0] == spec_digit(v) as u8);
        assert(digits_value(t, 1) == digits_value(t, 0) * 10 + ((t[0] - 48) as nat));
    } else {
        let q = v / 10;
        let r = v % 10;
        lemma_decimal_bytes(q);
        lemma_digit_char(r);
        let s1 = spec_decimal(q);
        let t1 = spec_ascii(s1);
        assert(spec_decimal(v) == s1 + seq![spec_digit(r)]);
        lemma_ascii_add(s1, seq![spec_digit(r)]);
        assert(spec_ascii(seq![spec_digit(r)]) =~= seq![spec_digit(r) as u8]);
        let l1 = t1.len() as int;
        assert(t == t1 + seq![spec_digit(r) as u8]);
        assert(t.len() == l1 + 1);
        assert forall|k: int| 0 <= k < spec_decimal(v).len() implies '0' <= #[trigger] spec_decimal(v)[k] <= '9' by {
            if k < s1.len() {
                assert(spec_decimal(v)[k] == s1[k]);
            }
        }
        assert forall|k: int| 0 <= k < t.len() implies spec_is_digit(#[trigger] t[k]) by {
            if k < l1 {
                assert(t[k] == t1[k]);
            }
        }
        lemma_digits_prefix(t, t1, l1);
        assert(digits_value(t, l1 + 1) == digits_value(t, l1) * 10 + ((t[l1] - 48) as nat));
        assert(t[l1] == 48 + r);
        assert(v == q * 10 + r);
    }
}

proof fn lemma_run_to(t: Seq<u8>, i: int, d: int)
    requires
        0 <= i <= d <= t.len(),
        forall|k: int| i <= k < d ==> spec_is_digit(#[trigger] t[k]),
        d == t.len() || !spec_is_digit(t[d]),
    ensures
        digit_run(t, i) == d,
    decreases d - i,
{
    if i < d {
        lemma_run_to(t, i + 1, d);
    }
}

proof fn lemma_seg_to(b: Seq<u8>, i: int, e: int)
    requires
        0 <= i <= e <= b.len(),
        forall|k: int| i <= k < e ==> #[trigger] b[k] != 47,
        e == b.len() || b[e] == 47,
    ensures
        seg_end(b, i) == e,
    decreases e - i,
{
    if i < e {
        lemma_seg_to(b, i + 1, e);
    }
}

proof fn lemma_seg_shift(p: Seq<u8>, q: Seq<u8>, i: int)
    requires
        0 <= i <= q.len(),
    ensures
        seg_end(p + q, p.len() + i) == p.len() + seg_end(q, i),
    decreases q.len() - i,
{
    if i < q.len() {
        assert((p + q)[p.len() + i] == q[i]);
        if q[i] != 47 {
            lemma_seg_shift(p, q, i + 1);
        }
    }
}

/// Parsing elements does not look before its start: a prefix shifts the
/// positions and changes nothing else.
proof fn lemma_elements_shift(p: Seq<u8>, q: Seq<u8>, i: int, depth: nat)
    requires
        0 <= i <= q.len(),
    ensures
        spec_elements(p + q, p.len() + i, depth) == spec_elements(q, i, depth),
    decreases q.len() - i,
{
    let e = seg_end(q, i);
    lemma_seg_shift(p, q, i);
    lemma_seg_end(q, i);
    assert((p + q).subrange(p.len() + i, p.len() + e) =~= q.subrange(i, e));
    if e < q.len() {
        lemma_elements_shift(p, q, e + 1, depth + 1);
    }
}

/// One level's read-back parses to that level's child number, and holds
/// only digits and a trailing `'`.
proof fn lemma_level_element(v: u32, h: bool)
    requires
        v <= MAX_LEVEL_VALUE,
    ensures
        spec_ascii(spec_level_text(v, h)).len() >= 1,
        spec_element(spec_ascii(spec_level_text(v, h))) == Ok::<u32, crate::path_parse::PathParseError>(
            spec_child(v, h),
        ),
        forall|k: int|
            0 <= k < spec_level_text(v, h).len() ==> spec_path_char(#[trigger] spec_level_text(v, h)[k])
                && spec_level_text(v, h)[k] != '/' && spec_level_text(v, h)[k] != 'm',
{
    reveal_strlit("'");
    let dec = spec_decimal(v as nat);
    let tail: Seq<char> = if h { "'"@ } else { Seq::empty() };
    lemma_decimal_bytes(v as nat);
    let t1 = spec_ascii(dec);
    let d = t1.len() as int;
    let text = spec_level_text(v, h);
    assert(text == dec + tail);
    lemma_ascii_add(dec, tail);
    let t = spec_ascii(text);
    assert(t == t1 + spec_ascii(tail));
    assert forall|k: int| 0 <= k < d implies spec_is_digit(#[trigger] t[k]) by {
        assert(t[k] == t1[k]);
    }
    if h {
        assert(spec_ascii(tail) =~= seq![39u8]);
        assert(t[d] == 39);
    } else {
        assert(spec_ascii(tail) =~= Seq::<u8>::empty());
        assert(t.len() == d);
    }
    lemma_run_to(t, 0, d);
    lemma_digits_prefix(t, t1, d);
    assert forall|k: int| 0 <= k < text.len() implies spec_path_char(#[trigger] text[k]) && text[k] != '/'
        && text[k] != 'm' by {
        if k < dec.len() {
            assert(text[k] == dec[k]);
        } else {
            assert(text[k] == '\'');
        }
    }
}

/// The read-back of levels `j..n`: `/` and each level.
pub open spec fn spec_levels_suffix(levels: Seq<u32>, flags: Seq<bool>, j: nat, n: nat) -> Seq<char>
    decreases n - j,
{
    if j >= n {
        Seq::empty()
    } else {
        "/"@ + spec_level_text(levels[j as int], flags[j as int]) + spec_levels_suffix(levels, flags, j + 1, n)
    }
}

/// Levels well formed for a read-back of `n` levels.
pub open spec fn spec_levels_ok(levels: Seq<u32>, flags: Seq<bool>, n: nat) -> bool {
    &&& n == levels.len()
    &&& n == flags.len()
    &&& n <= MAX_DEPTH
    &&& forall|i: int| 0 <= i < n ==> #[trigger] levels[i] <= MAX_LEVEL_VALUE
}

proof fn lemma_text_split(levels: Seq<u32>, flags: Seq<bool>, k: nat, n: nat)
    requires
        k <= n,
    ensures
        spec_path_text(levels, flags, k) + spec_levels_suffix(levels, flags, k, n) == spec_path_text(levels, flags, n),
    decreases n - k,
{
    if k == n {
        assert(spec_path_text(levels, flags, k) + spec_levels_suffix(levels, flags, k, n) =~= spec_path_text(
            levels,
            flags,
            n,
        ));
    } else {
        lemma_text_split(levels, flags, k + 1, n);
        let l = spec_level_text(levels[k as int], flags[k as int]);
        assert(spec_path_text(levels, flags, k + 1) == spec_path_text(levels, flags, k) + "/"@ + l);
        assert(spec_path_text(levels, flags, k) + spec_levels_suffix(levels, flags, k, n) =~= spec_path_text(
            levels,
            flags,
            k + 1,
        ) + spec_levels_suffix(levels, flags, k + 1, n));
    }
}

proof fn lemma_suffix_chars(levels: Seq<u32>, flags: Seq<bool>, j: nat, n: nat)
    requires
        spec_levels_ok(levels, flags, n),
        j <= n,
    ensures
        forall|k: int|
            0 <= k < spec_levels_suffix(levels, flags, j, n).len() ==> spec_path_char(
                #[trigger] spec_levels_suffix(levels, flags, j, n)[k],
            ) && spec_levels_suffix(levels, flags, j, n)[k] != 'm',
        j < n ==> spec_levels_suffix(levels, flags, j, n).len() >= 2 && spec_levels_suffix(levels, flags, j, n)[0]
            == '/',
    decreases n - j,
{
    reveal_strlit("/");
    if j < n {
        lemma_suffix_chars(levels, flags, j + 1, n);
        lemma_level_element(levels[j as int], flags[j as int]);
        let l = spec_level_text(levels[j as int], flags[j as int]);
        let rest = spec_levels_suffix(levels, flags, j + 1, n);
        let s = spec_levels_suffix(levels, flags, j, n);
        assert(s == "/"@ + l + rest);
        lemma_decimal_bytes(levels[j as int] as nat);
        assert(l.len() >= 1) by {
            lemma_ascii_add(spec_decimal(levels[j as int] as nat), Seq::empty());
        }
        assert forall|k: int| 0 <= k < s.len() implies spec_path_char(#[trigger] s[k]) && s[k] != 'm' by {
            if k == 0 {
                assert(s[k] == '/');
            } else if k < 1 + l.len() {
                assert(s[k] == l[k - 1]);
            } else {
                assert(s[k] == rest[k - 1 - l.len()]);
            }
        }
    }
}

/// The read-back of levels `j..n`, after its leading `/`, parses to the
/// child numbers of those levels.
proof fn lemma_suffix_elements(levels: Seq<u32>, flags: Seq<bool>, j: nat, n: nat)
    requires
        spec_levels_ok(levels, flags, n),
        j < n,
    ensures
        spec_elements(spec_ascii(spec_levels_suffix(levels, flags, j, n)), 1, j) == Ok::<
            Seq<u32>,
            crate::path_parse::PathParseError,
        >(spec_children(levels, flags).subrange(j as int, n as int)),
    decreases n - j,
{
    reveal_strlit("/");
    let l = spec_level_text(levels[j as int], flags[j as int]);
    lemma_level_element(levels[j as int], flags[j as int]);
    let a_bytes = spec_ascii(l);
    let a = a_bytes.len() as int;
    let rest = spec_levels_suffix(levels, flags, j + 1, n);
    let suffix = spec_levels_suffix(levels, flags, j, n);
    assert(suffix == ("/"@ + l) + rest);
    lemma_ascii_add("/"@ + l, rest);
    lemma_ascii_add("/"@, l);
    assert(spec_ascii("/"@) =~= seq![47u8]);
    let p = seq![47u8] + a_bytes;
    let q = spec_ascii(rest);
    let b = spec_ascii(suffix);
    assert(b == p + q);
    assert forall|k: int| 1 <= k < 1 + a implies #[trigger] b[k] != 47 by {
        assert(b[k] == a_bytes[k - 1]);
        assert(a_bytes[k - 1] == l[k - 1] as u8);
    }
    if j + 1 < n {
        lemma_suffix_chars(levels, flags, j + 1, n);
        assert(q[0] == rest[0] as u8);
        assert(b[1 + a] == q[0]);
    } else {
        assert(rest =~= Seq::<char>::empty());
        assert(b.len() == 1 + a);
    }
    lemma_seg_to(b, 1, 1 + a);
    assert(b.subrange(1, 1 + a) =~= a_bytes);
    let children = spec_children(levels, flags);
    if j + 1 < n {
        lemma_suffix_elements(levels, flags, j + 1, n);
        lemma_elements_shift(p, q, 1, j + 1);
        assert(children.subrange(j as int, n as int) =~= seq![children[j as int]] + children.subrange(
            (j + 1) as int,
            n as int,
        ));
    } else {
        assert(children.subrange(j as int, n as int) =~= seq![children[j as int]]);
    }
}

/// The path the custom-path builder reads back, typed into the free-form
/// parser, parses to exactly the child numbers the builder derives.
pub proof fn lemma_readback_parses_to_built_path(v: BuilderView)
    requires
        view_wf(v),
    ensures
        spec_parse_path(encode_utf8(spec_path_text(v.levels, v.flags, v.levels.len()))) == Ok::<
            Seq<u32>,
            crate::path_parse::PathParseError,
        >(spec_children(v.levels, v.flags)),
{
    reveal_strlit("m");
    let levels = v.levels;
    let flags = v.flags;
    let n = levels.len();
    assert(spec_levels_ok(levels, flags, n));
    let text = spec_path_text(levels, flags, n);
    let suffix = spec_levels_suffix(levels, flags, 0, n);
    lemma_text_split(levels, flags, 0, n);
    assert(text == "m"@ + suffix);
    lemma_suffix_chars(levels, flags, 0, n);
    assert forall|k: int| 0 <= k < text.len() implies spec_path_char(#[trigger] text[k]) by {
        if k > 0 {
            assert(text[k] == suffix[k - 1]);
        }
    }
    assert(is_ascii_chars(text));
    is_ascii_chars_encode_utf8(text);
    let b = spec_ascii(text);
    assert(encode_utf8(text) =~= b);
    lemma_ascii_add("m"@, suffix);
    assert(spec_ascii("m"@) =~= seq![109u8]);
    let q = spec_ascii(suffix);
    assert(b == seq![109u8] + q);
    assert(!(exists|k: int| 0 <= k < b.len() && spec_is_ws(#[trigger] b[k]))) by {
        assert forall|k: int| 0 <= k < b.len() implies !spec_is_ws(#[trigger] b[k]) by {
            assert(b[k] == text[k] as u8);
        }
    }
    assert(b[1] == q[0]);
    assert(q[0] == suffix[0] as u8);
    lemma_suffix_elements(levels, flags, 0, n);
    lemma_elements_shift(seq![109u8], q, 1, 0);
    assert(spec_children(levels, flags).subrange(0, n as int) =~= spec_children(levels, flags));
}

} // verus!
