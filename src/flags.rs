use vstd::prelude::*;
use crate::numbers::NumberScan;
use crate::types::TokenFlags;

verus! {

/// The flag word `flags` holds the (single-bit) flag `f`.
pub open spec fn has_flag(flags: u32, f: TokenFlags) -> bool {
    flags & f.spec_bit() != 0
}

/// The flag word of a token: bit 0 for a preceding line break, bit 1 for a
/// preceding JSDoc comment, and the token's own flags `own`.
pub open spec fn flag_word(line_break: bool, jsdoc: bool, own: u32) -> u32 {
    (if line_break {
        1u32
    } else {
        0u32
    }) | (if jsdoc {
        2u32
    } else {
        0u32
    }) | own
}

/// The own flags of a numeric literal: its prefix flag, `Scientific` and `ContainsSeparator`.
pub open spec fn number_word(specifier: TokenFlags, scientific: bool, separator: bool) -> u32 {
    (match specifier {
        TokenFlags::HexSpecifier => 64u32,
        TokenFlags::BinarySpecifier => 128u32,
        TokenFlags::OctalSpecifier => 256u32,
        TokenFlags::Octal => 32u32,
        _ => 0u32,
    }) | (if scientific {
        16u32
    } else {
        0u32
    }) | (if separator {
        512u32
    } else {
        0u32
    })
}

/// The own flags of a string or template piece: `Unterminated` and the escape flags.
pub open spec fn literal_word(terminated: bool, unicode: bool, extended: bool, invalid: bool) -> u32 {
    (if terminated {
        0u32
    } else {
        4u32
    }) | (if unicode {
        1024u32
    } else {
        0u32
    }) | (if extended {
        8u32
    } else {
        0u32
    }) | (if invalid {
        2048u32
    } else {
        0u32
    })
}

proof fn lemma_compose(a: u32, b: u32, extra: u32, r: u32)
    requires
        a == 0 || a == 1,
        b == 0 || b == 2,
        extra & 3 == 0,
        r == a | b | extra,
    ensures
        (r & 1 != 0) == (a == 1),
        (r & 2 != 0) == (b == 2),
        r & extra == extra,
        r & 0xFFFF_FFFC == extra,
{
    assert((r & 1 != 0) == (a == 1)) by (bit_vector)
        requires
            a == 0 || a == 1,
            b == 0 || b == 2,
            extra & 3 == 0,
            r == a | b | extra,
    ;
    assert((r & 2 != 0) == (b == 2)) by (bit_vector)
        requires
            a == 0 || a == 1,
            b == 0 || b == 2,
            extra & 3 == 0,
            r == a | b | extra,
    ;
    assert(r & extra == extra) by (bit_vector)
        requires
            r == a | b | extra,
    ;
    assert(r & 0xFFFF_FFFC == extra) by (bit_vector)
        requires
            a == 0 || a == 1,
            b == 0 || b == 2,
            extra & 3 == 0,
            r == a | b | extra,
    ;
}

/// The flag word of a token: the preceding line break and preceding JSDoc
/// comment facts, and the token's own flags `extra`, which hold neither.
pub fn compose_flags(line_break: bool, jsdoc: bool, extra: u32) -> (r: u32)
    requires
        extra == 0 || extra == 4 || extra & 3 == 0,
    ensures
        has_flag(r, TokenFlags::PrecedingLineBreak) == line_break,
        has_flag(r, TokenFlags::PrecedingJSDocComment) == jsdoc,
        r & extra == extra,
        r & 0xFFFF_FFFC == extra,
        has_flag(r, TokenFlags::Unterminated) == has_flag(extra, TokenFlags::Unterminated),
        r == flag_word(line_break, jsdoc, extra),
{
    let a: u32 = if line_break {
        1
    } else {
        0
    };
    let b: u32 = if jsdoc {
        2
    } else {
        0
    };
    let r = a | b | extra;
    assert(extra & 3 == 0) by (bit_vector)
        requires
            extra == 0 || extra == 4 || extra & 3 == 0,
    ;
    proof {
        lemma_compose(a, b, extra, r);
    }
    assert((r & 4 != 0) == (extra & 4 != 0)) by (bit_vector)
        requires
            r & 0xFFFF_FFFC == extra,
    ;
    r
}

pub proof fn lemma_flag_within(r: u32, extra: u32, f: TokenFlags)
    requires
        r & extra == extra,
        has_flag(extra, f),
    ensures
        has_flag(r, f),
{
    let m = f.spec_bit();
    assert(r & m != 0) by (bit_vector)
        requires
            r & extra == extra,
            extra & m != 0,
    ;
}

/// The flags of a string or template piece: unterminated, and the kinds of
/// escape sequence found in it.
pub fn literal_flags(terminated: bool, unicode: bool, extended: bool, invalid: bool) -> (r: u32)
    ensures
        r & 3 == 0,
        has_flag(r, TokenFlags::Unterminated) == !terminated,
        has_flag(r, TokenFlags::UnicodeEscape) == unicode,
        has_flag(r, TokenFlags::ExtendedUnicodeEscape) == extended,
        has_flag(r, TokenFlags::ContainsInvalidEscape) == invalid,
        r == literal_word(terminated, unicode, extended, invalid),
{
    let a: u32 = if terminated {
        0
    } else {
        4
    };
    let b: u32 = if unicode {
        1024
    } else {
        0
    };
    let c: u32 = if extended {
        8
    } else {
        0
    };
    let d: u32 = if invalid {
        2048
    } else {
        0
    };
    let r = a | b | c | d;
    assert(r & 3 == 0 && (r & 4 != 0) == (a == 4) && (r & 1024 != 0) == (b == 1024) && (r & 8
        != 0) == (c == 8) && (r & 2048 != 0) == (d == 2048)) by (bit_vector)
        requires
            a == 0 || a == 4,
            b == 0 || b == 1024,
            c == 0 || c == 8,
            d == 0 || d == 2048,
            r == a | b | c | d,
    ;
    r
}

/// The flags that a numeric literal's own shape gives it.
pub fn number_flags(n: &NumberScan) -> (r: u32)
    ensures
        r & 3 == 0,
        r & 4 == 0,
        n.specifier == TokenFlags::HexSpecifier || n.specifier == TokenFlags::BinarySpecifier
            || n.specifier == TokenFlags::OctalSpecifier || n.specifier == TokenFlags::Octal
            ==> has_flag(r, n.specifier),
        n.scientific ==> has_flag(r, TokenFlags::Scientific),
        n.has_separator ==> has_flag(r, TokenFlags::ContainsSeparator),
        n.specifier == TokenFlags::Empty && !n.scientific && !n.has_separator ==> r == 0,
        r == number_word(n.specifier, n.scientific, n.has_separator),
{
    let s: u32 = match n.specifier {
        TokenFlags::HexSpecifier => 64,
        TokenFlags::BinarySpecifier => 128,
        TokenFlags::OctalSpecifier => 256,
        TokenFlags::Octal => 32,
        _ => 0,
    };
    let e: u32 = if n.scientific {
        16
    } else {
        0
    };
    let c: u32 = if n.has_separator {
        512
    } else {
        0
    };
    let r = s | e | c;
    assert(r & 3 == 0 && r & 4 == 0 && (s != 0 ==> r & s != 0) && (e != 0 ==> r & 16 != 0) && (c != 0 ==> r
        & 512 != 0) && (s == 0 && e == 0 && c == 0 ==> r == 0)) by (bit_vector)
        requires
            s == 0 || s == 32 || s == 64 || s == 128 || s == 256,
            e == 0 || e == 16,
            c == 0 || c == 512,
            r == s | e | c,
    ;
    r
}

} // verus!
