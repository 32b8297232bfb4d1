//! Terminal display width of text, East Asian style: characters of the
//! Unicode East Asian Width classes Wide, Fullwidth and Ambiguous take two
//! columns, all others one. The ranges are those of Unicode 14, with
//! unassigned code points grouped with their neighbours.

use vstd::prelude::*;

use crate::text::chars_of;

verus! {

/// Double-width code points: latin and symbols.
pub open spec fn double_width_latin_and_symbols(v: u32) -> bool {
    v == 0xA1
        || v == 0xA4
        || (0xA7 <= v && v <= 0xA8)
        || v == 0xAA
        || (0xAD <= v && v <= 0xAE)
        || (0xB0 <= v && v <= 0xB4)
        || (0xB6 <= v && v <= 0xBA)
        || (0xBC <= v && v <= 0xBF)
        || v == 0xC6
        || v == 0xD0
        || (0xD7 <= v && v <= 0xD8)
        || (0xDE <= v && v <= 0xE1)
        || v == 0xE6
        || (0xE8 <= v && v <= 0xEA)
        || (0xEC <= v && v <= 0xED)
        || v == 0xF0
        || (0xF2 <= v && v <= 0xF3)
        || (0xF7 <= v && v <= 0xFA)
        || v == 0xFC
        || v == 0xFE
        || v == 0x101
        || v == 0x111
        || v == 0x113
        || v == 0x11B
        || (0x126 <= v && v <= 0x127)
        || v == 0x12B
        || (0x131 <= v && v <= 0x133)
        || v == 0x138
        || (0x13F <= v && v <= 0x142)
        || v == 0x144
        || (0x148 <= v && v <= 0x14B)
        || v == 0x14D
        || (0x152 <= v && v <= 0x153)
        || (0x166 <= v && v <= 0x167)
        || v == 0x16B
        || v == 0x1CE
        || v == 0x1D0
        || v == 0x1D2
        || v == 0x1D4
        || v == 0x1D6
        || v == 0x1D8
        || v == 0x1DA
        || v == 0x1DC
        || v == 0x251
        || v == 0x261
        || v == 0x2C4
        || v == 0x2C7
        || (0x2C9 <= v && v <= 0x2CB)
        || v == 0x2CD
        || v == 0x2D0
        || (0x2D8 <= v && v <= 0x2DB)
        || v == 0x2DD
        || v == 0x2DF
        || (0x300 <= v && v <= 0x36F)
        || (0x391 <= v && v <= 0x3A9)
        || (0x3B1 <= v && v <= 0x3C1)
        || (0x3C3 <= v && v <= 0x3C9)
        || v == 0x401
        || (0x410 <= v && v <= 0x44F)
        || v == 0x451
        || (0x1100 <= v && v <= 0x115F)
}

/// Double-width code points: punctuation and symbols.
pub open spec fn double_width_punctuation_and_symbols(v: u32) -> bool {
    v == 0x2010
        || (0x2013 <= v && v <= 0x2016)
        || (0x2018 <= v && v <= 0x2019)
        || (0x201C <= v && v <= 0x201D)
        || (0x2020 <= v && v <= 0x2022)
        || (0x2024 <= v && v <= 0x2027)
        || v == 0x2030
        || (0x2032 <= v && v <= 0x2033)
        || v == 0x2035
        || v == 0x203B
        || v == 0x203E
        || v == 0x2074
        || v == 0x207F
        || (0x2081 <= v && v <= 0x2084)
        || v == 0x20AC
        || v == 0x2103
        || v == 0x2105
        || v == 0x2109
        || v == 0x2113
        || v == 0x2116
        || (0x2121 <= v && v <= 0x2122)
        || v == 0x2126
        || v == 0x212B
        || (0x2153 <= v && v <= 0x2154)
        || (0x215B <= v && v <= 0x215E)
        || (0x2160 <= v && v <= 0x216B)
        || (0x2170 <= v && v <= 0x2179)
        || v == 0x2189
        || (0x2190 <= v && v <= 0x2199)
        || (0x21B8 <= v && v <= 0x21B9)
        || v == 0x21D2
        || v == 0x21D4
        || v == 0x21E7
        || v == 0x2200
        || (0x2202 <= v && v <= 0x2203)
        || (0x2207 <= v && v <= 0x2208)
        || v == 0x220B
        || v == 0x220F
        || v == 0x2211
        || v == 0x2215
        || v == 0x221A
        || (0x221D <= v && v <= 0x2220)
        || v == 0x2223
        || v == 0x2225
        || (0x2227 <= v && v <= 0x222C)
        || v == 0x222E
        || (0x2234 <= v && v <= 0x2237)
        || (0x223C <= v && v <= 0x223D)
        || v == 0x2248
        || v == 0x224C
        || v == 0x2252
        || (0x2260 <= v && v <= 0x2261)
        || (0x2264 <= v && v <= 0x2267)
        || (0x226A <= v && v <= 0x226B)
        || (0x226E <= v && v <= 0x226F)
        || (0x2282 <= v && v <= 0x2283)
        || (0x2286 <= v && v <= 0x2287)
        || v == 0x2295
        || v == 0x2299
        || v == 0x22A5
        || v == 0x22BF
        || v == 0x2312
        || (0x231A <= v && v <= 0x231B)
        || (0x2329 <= v && v <= 0x232A)
        || (0x23E9 <= v && v <= 0x23EC)
        || v == 0x23F0
        || v == 0x23F3
        || (0x2460 <= v && v <= 0x24E9)
        || (0x24EB <= v && v <= 0x254B)
        || (0x2550 <= v && v <= 0x2573)
        || (0x2580 <= v && v <= 0x258F)
        || (0x2592 <= v && v <= 0x2595)
        || (0x25A0 <= v && v <= 0x25A1)
        || (0x25A3 <= v && v <= 0x25A9)
        || (0x25B2 <= v && v <= 0x25B3)
        || (0x25B6 <= v && v <= 0x25B7)
        || (0x25BC <= v && v <= 0x25BD)
        || (0x25C0 <= v && v <= 0x25C1)
        || (0x25C6 <= v && v <= 0x25C8)
        || v == 0x25CB
        || (0x25CE <= v && v <= 0x25D1)
        || (0x25E2 <= v && v <= 0x25E5)
        || v == 0x25EF
        || (0x25FD <= v && v <= 0x25FE)
        || (0x2605 <= v && v <= 0x2606)
        || v == 0x2609
        || (0x260E <= v && v <= 0x260F)
        || (0x2614 <= v && v <= 0x2615)
        || v == 0x261C
        || v == 0x261E
        || v == 0x2640
        || v == 0x2642
        || (0x2648 <= v && v <= 0x2653)
        || (0x2660 <= v && v <= 0x2661)
        || (0x2663 <= v && v <= 0x2665)
        || (0x2667 <= v && v <= 0x266A)
        || (0x266C <= v && v <= 0x266D)
        || v == 0x266F
        || v == 0x267F
        || v == 0x2693
        || (0x269E <= v && v <= 0x269F)
        || v == 0x26A1
        || (0x26AA <= v && v <= 0x26AB)
        || (0x26BD <= v && v <= 0x26BF)
        || (0x26C4 <= v && v <= 0x26E1)
        || v == 0x26E3
        || (0x26E8 <= v && v <= 0x26FF)
        || v == 0x2705
        || (0x270A <= v && v <= 0x270B)
        || v == 0x2728
        || v == 0x273D
        || v == 0x274C
        || v == 0x274E
        || (0x2753 <= v && v <= 0x2755)
        || v == 0x2757
        || (0x2776 <= v && v <= 0x277F)
        || (0x2795 <= v && v <= 0x2797)
        || v == 0x27B0
        || v == 0x27BF
        || (0x2B1B <= v && v <= 0x2B1C)
        || v == 0x2B50
        || (0x2B55 <= v && v <= 0x2B59)
}

/// Double-width code points: cjk.
pub open spec fn double_width_cjk(v: u32) -> bool {
    (0x2E80 <= v && v <= 0x303E)
        || (0x3041 <= v && v <= 0x4DBF)
        || (0x4E00 <= v && v <= 0xA4C6)
        || (0xA960 <= v && v <= 0xA97C)
        || (0xAC00 <= v && v <= 0xD7A3)
        || (0xE000 <= v && v <= 0xFAD9)
        || (0xFE00 <= v && v <= 0xFE19)
        || (0xFE30 <= v && v <= 0xFE6B)
        || (0xFF01 <= v && v <= 0xFF60)
        || (0xFFE0 <= v && v <= 0xFFE6)
        || v == 0xFFFD
}

/// Double-width code points: supplementary.
pub open spec fn double_width_supplementary(v: u32) -> bool {
    (0x16FE0 <= v && v <= 0x1B2FB)
        || v == 0x1F004
        || v == 0x1F0CF
        || (0x1F100 <= v && v <= 0x1F10A)
        || (0x1F110 <= v && v <= 0x1F12D)
        || (0x1F130 <= v && v <= 0x1F169)
        || (0x1F170 <= v && v <= 0x1F1AC)
        || (0x1F200 <= v && v <= 0x1F320)
        || (0x1F32D <= v && v <= 0x1F335)
        || (0x1F337 <= v && v <= 0x1F37C)
        || (0x1F37E <= v && v <= 0x1F393)
        || (0x1F3A0 <= v && v <= 0x1F3CA)
        || (0x1F3CF <= v && v <= 0x1F3D3)
        || (0x1F3E0 <= v && v <= 0x1F3F0)
        || v == 0x1F3F4
        || (0x1F3F8 <= v && v <= 0x1F43E)
        || v == 0x1F440
        || (0x1F442 <= v && v <= 0x1F4FC)
        || (0x1F4FF <= v && v <= 0x1F53D)
        || (0x1F54B <= v && v <= 0x1F54E)
        || (0x1F550 <= v && v <= 0x1F567)
        || v == 0x1F57A
        || (0x1F595 <= v && v <= 0x1F596)
        || v == 0x1F5A4
        || (0x1F5FB <= v && v <= 0x1F64F)
        || (0x1F680 <= v && v <= 0x1F6C5)
        || v == 0x1F6CC
        || (0x1F6D0 <= v && v <= 0x1F6D2)
        || (0x1F6D5 <= v && v <= 0x1F6DF)
        || (0x1F6EB <= v && v <= 0x1F6EC)
        || (0x1F6F4 <= v && v <= 0x1F6FC)
        || (0x1F7E0 <= v && v <= 0x1F7F0)
        || (0x1F90C <= v && v <= 0x1F93A)
        || (0x1F93C <= v && v <= 0x1F945)
        || (0x1F947 <= v && v <= 0x1F9FF)
        || (0x1FA70 <= v && v <= 0x1FAF6)
        || (0x20000 <= v && v <= 0x3134A)
        || (0xE0100 <= v && v <= 0x10FFFD)
}

/// Whether a character takes two columns: East Asian Wide, Fullwidth or
/// Ambiguous.
pub open spec fn is_double_width(c: char) -> bool {
    let v = c as u32;
    double_width_latin_and_symbols(v) || double_width_punctuation_and_symbols(v) || double_width_cjk(v) || double_width_supplementary(v)
}

/// The columns a character takes.
pub open spec fn char_columns(c: char) -> nat {
    if is_double_width(c) {
        2
    } else {
        1
    }
}

/// The columns a text takes.
pub open spec fn display_width(s: Seq<char>) -> nat
    decreases s.len(),
{
    if s.len() == 0 {
        0
    } else {
        display_width(s.drop_last()) + char_columns(s.last())
    }
}

/// Every character takes one or two columns.
pub proof fn display_width_bounds(s: Seq<char>)
    ensures
        s.len() <= display_width(s) <= 2 * s.len(),
    decreases s.len(),
{
    if s.len() > 0 {
        display_width_bounds(s.drop_last());
    }
}

/// A prefix takes no more columns than the whole text.
pub proof fn display_width_prefix(s: Seq<char>, i: int)
    requires
        0 <= i <= s.len(),
    ensures
        display_width(s.take(i)) <= display_width(s),
    decreases s.len(),
{
    if i < s.len() {
        display_width_prefix(s.drop_last(), i);
        assert(s.drop_last().take(i) =~= s.take(i));
    } else {
        assert(s.take(i) =~= s);
    }
}

fn is_double_width_latin_and_symbols(v: u32) -> (r: bool)
    ensures
        r == double_width_latin_and_symbols(v),
{
    v == 0xA1
        || v == 0xA4
        || (0xA7 <= v && v <= 0xA8)
        || v == 0xAA
        || (0xAD <= v && v <= 0xAE)
        || (0xB0 <= v && v <= 0xB4)
        || (0xB6 <= v && v <= 0xBA)
        || (0xBC <= v && v <= 0xBF)
        || v == 0xC6
        || v == 0xD0
        || (0xD7 <= v && v <= 0xD8)
        || (0xDE <= v && v <= 0xE1)
        || v == 0xE6
        || (0xE8 <= v && v <= 0xEA)
        || (0xEC <= v && v <= 0xED)
        || v == 0xF0
        || (0xF2 <= v && v <= 0xF3)
        || (0xF7 <= v && v <= 0xFA)
        || v == 0xFC
        || v == 0xFE
        || v == 0x101
        || v == 0x111
        || v == 0x113
        || v == 0x11B
        || (0x126 <= v && v <= 0x127)
        || v == 0x12B
        || (0x131 <= v && v <= 0x133)
        || v == 0x138
        || (0x13F <= v && v <= 0x142)
        || v == 0x144
        || (0x148 <= v && v <= 0x14B)
        || v == 0x14D
        || (0x152 <= v && v <= 0x153)
        || (0x166 <= v && v <= 0x167)
        || v == 0x16B
        || v == 0x1CE
        || v == 0x1D0
        || v == 0x1D2
        || v == 0x1D4
        || v == 0x1D6
        || v == 0x1D8
        || v == 0x1DA
        || v == 0x1DC
        || v == 0x251
        || v == 0x261
        || v == 0x2C4
        || v == 0x2C7
        || (0x2C9 <= v && v <= 0x2CB)
        || v == 0x2CD
        || v == 0x2D0
        || (0x2D8 <= v && v <= 0x2DB)
        || v == 0x2DD
        || v == 0x2DF
        || (0x300 <= v && v <= 0x36F)
        || (0x391 <= v && v <= 0x3A9)
        || (0x3B1 <= v && v <= 0x3C1)
        || (0x3C3 <= v && v <= 0x3C9)
        || v == 0x401
        || (0x410 <= v && v <= 0x44F)
        || v == 0x451
        || (0x1100 <= v && v <= 0x115F)
}

fn is_double_width_punctuation_and_symbols(v: u32) -> (r: bool)
    ensures
        r == double_width_punctuation_and_symbols(v),
{
    v == 0x2010
        || (0x2013 <= v && v <= 0x2016)
        || (0x2018 <= v && v <= 0x2019)
        || (0x201C <= v && v <= 0x201D)
        || (0x2020 <= v && v <= 0x2022)
        || (0x2024 <= v && v <= 0x2027)
        || v == 0x2030
        || (0x2032 <= v && v <= 0x2033)
        || v == 0x2035
        || v == 0x203B
        || v == 0x203E
        || v == 0x2074
        || v == 0x207F
        || (0x2081 <= v && v <= 0x2084)
        || v == 0x20AC
        || v == 0x2103
        || v == 0x2105
        || v == 0x2109
        || v == 0x2113
        || v == 0x2116
        || (0x2121 <= v && v <= 0x2122)
        || v == 0x2126
        || v == 0x212B
        || (0x2153 <= v && v <= 0x2154)
        || (0x215B <= v && v <= 0x215E)
        || (0x2160 <= v && v <= 0x216B)
        || (0x2170 <= v && v <= 0x2179)
        || v == 0x2189
        || (0x2190 <= v && v <= 0x2199)
        || (0x21B8 <= v && v <= 0x21B9)
        || v == 0x21D2
        || v == 0x21D4
        || v == 0x21E7
        || v == 0x2200
        || (0x2202 <= v && v <= 0x2203)
        || (0x2207 <= v && v <= 0x2208)
        || v == 0x220B
        || v == 0x220F
        || v == 0x2211
        || v == 0x2215
        || v == 0x221A
        || (0x221D <= v && v <= 0x2220)
        || v == 0x2223
        || v == 0x2225
        || (0x2227 <= v && v <= 0x222C)
        || v == 0x222E
        || (0x2234 <= v && v <= 0x2237)
        || (0x223C <= v && v <= 0x223D)
        || v == 0x2248
        || v == 0x224C
        || v == 0x2252
        || (0x2260 <= v && v <= 0x2261)
        || (0x2264 <= v && v <= 0x2267)
        || (0x226A <= v && v <= 0x226B)
        || (0x226E <= v && v <= 0x226F)
        || (0x2282 <= v && v <= 0x2283)
        || (0x2286 <= v && v <= 0x2287)
        || v == 0x2295
        || v == 0x2299
        || v == 0x22A5
        || v == 0x22BF
        || v == 0x2312
        || (0x231A <= v && v <= 0x231B)
        || (0x2329 <= v && v <= 0x232A)
        || (0x23E9 <= v && v <= 0x23EC)
        || v == 0x23F0
        || v == 0x23F3
        || (0x2460 <= v && v <= 0x24E9)
        || (0x24EB <= v && v <= 0x254B)
        || (0x2550 <= v && v <= 0x2573)
        || (0x2580 <= v && v <= 0x258F)
        || (0x2592 <= v && v <= 0x2595)
        || (0x25A0 <= v && v <= 0x25A1)
        || (0x25A3 <= v && v <= 0x25A9)
        || (0x25B2 <= v && v <= 0x25B3)
        || (0x25B6 <= v && v <= 0x25B7)
        || (0x25BC <= v && v <= 0x25BD)
        || (0x25C0 <= v && v <= 0x25C1)
        || (0x25C6 <= v && v <= 0x25C8)
        || v == 0x25CB
        || (0x25CE <= v && v <= 0x25D1)
        || (0x25E2 <= v && v <= 0x25E5)
        || v == 0x25EF
        || (0x25FD <= v && v <= 0x25FE)
        || (0x2605 <= v && v <= 0x2606)
        || v == 0x2609
        || (0x260E <= v && v <= 0x260F)
        || (0x2614 <= v && v <= 0x2615)
        || v == 0x261C
        || v == 0x261E
        || v == 0x2640
        || v == 0x2642
        || (0x2648 <= v && v <= 0x2653)
        || (0x2660 <= v && v <= 0x2661)
        || (0x2663 <= v && v <= 0x2665)
        || (0x2667 <= v && v <= 0x266A)
        || (0x266C <= v && v <= 0x266D)
        || v == 0x266F
        || v == 0x267F
        || v == 0x2693
        || (0x269E <= v && v <= 0x269F)
        || v == 0x26A1
        || (0x26AA <= v && v <= 0x26AB)
        || (0x26BD <= v && v <= 0x26BF)
        || (0x26C4 <= v && v <= 0x26E1)
        || v == 0x26E3
        || (0x26E8 <= v && v <= 0x26FF)
        || v == 0x2705
        || (0x270A <= v && v <= 0x270B)
        || v == 0x2728
        || v == 0x273D
        || v == 0x274C
        || v == 0x274E
        || (0x2753 <= v && v <= 0x2755)
        || v == 0x2757
        || (0x2776 <= v && v <= 0x277F)
        || (0x2795 <= v && v <= 0x2797)
        || v == 0x27B0
        || v == 0x27BF
        || (0x2B1B <= v && v <= 0x2B1C)
        || v == 0x2B50
        || (0x2B55 <= v && v <= 0x2B59)
}

fn is_double_width_cjk(v: u32) -> (r: bool)
    ensures
        r == double_width_cjk(v),
{
    (0x2E80 <= v && v <= 0x303E)
        || (0x3041 <= v && v <= 0x4DBF)
        || (0x4E00 <= v && v <= 0xA4C6)
        || (0xA960 <= v && v <= 0xA97C)
        || (0xAC00 <= v && v <= 0xD7A3)
        || (0xE000 <= v && v <= 0xFAD9)
        || (0xFE00 <= v && v <= 0xFE19)
        || (0xFE30 <= v && v <= 0xFE6B)
        || (0xFF01 <= v && v <= 0xFF60)
        || (0xFFE0 <= v && v <= 0xFFE6)
        || v == 0xFFFD
}

fn is_double_width_supplementary(v: u32) -> (r: bool)
    ensures
        r == double_width_supplementary(v),
{
    (0x16FE0 <= v && v <= 0x1B2FB)
        || v == 0x1F004
        || v == 0x1F0CF
        || (0x1F100 <= v && v <= 0x1F10A)
        || (0x1F110 <= v && v <= 0x1F12D)
        || (0x1F130 <= v && v <= 0x1F169)
        || (0x1F170 <= v && v <= 0x1F1AC)
        || (0x1F200 <= v && v <= 0x1F320)
        || (0x1F32D <= v && v <= 0x1F335)
        || (0x1F337 <= v && v <= 0x1F37C)
        || (0x1F37E <= v && v <= 0x1F393)
        || (0x1F3A0 <= v && v <= 0x1F3CA)
        || (0x1F3CF <= v && v <= 0x1F3D3)
        || (0x1F3E0 <= v && v <= 0x1F3F0)
        || v == 0x1F3F4
        || (0x1F3F8 <= v && v <= 0x1F43E)
        || v == 0x1F440
        || (0x1F442 <= v && v <= 0x1F4FC)
        || (0x1F4FF <= v && v <= 0x1F53D)
        || (0x1F54B <= v && v <= 0x1F54E)
        || (0x1F550 <= v && v <= 0x1F567)
        || v == 0x1F57A
        || (0x1F595 <= v && v <= 0x1F596)
        || v == 0x1F5A4
        || (0x1F5FB <= v && v <= 0x1F64F)
        || (0x1F680 <= v && v <= 0x1F6C5)
        || v == 0x1F6CC
        || (0x1F6D0 <= v && v <= 0x1F6D2)
        || (0x1F6D5 <= v && v <= 0x1F6DF)
        || (0x1F6EB <= v && v <= 0x1F6EC)
        || (0x1F6F4 <= v && v <= 0x1F6FC)
        || (0x1F7E0 <= v && v <= 0x1F7F0)
        || (0x1F90C <= v && v <= 0x1F93A)
        || (0x1F93C <= v && v <= 0x1F945)
        || (0x1F947 <= v && v <= 0x1F9FF)
        || (0x1FA70 <= v && v <= 0x1FAF6)
        || (0x20000 <= v && v <= 0x3134A)
        || (0xE0100 <= v && v <= 0x10FFFD)
}

/// The columns a character takes.
pub fn char_width(c: char) -> (r: usize)
    ensures
        r == char_columns(c),
{
    let v = c as u32;
    if is_double_width_latin_and_symbols(v) || is_double_width_punctuation_and_symbols(v) || is_double_width_cjk(v) || is_double_width_supplementary(v) {
        2
    } else {
        1
    }
}

/// The columns a text takes, wide and ambiguous characters counting two.
pub fn str_width(s: &str) -> (r: usize)
    requires
        display_width(s@) <= usize::MAX,
    ensures
        r == display_width(s@),
{
    let cs = chars_of(s);
    let mut total: usize = 0;
    let mut i: usize = 0;
    while i < cs.len()
        invariant
            cs@ == s@,
            i <= cs@.len(),
            total == display_width(s@.take(i as int)),
            display_width(s@) <= usize::MAX,
        decreases cs@.len() - i,
    {
        proof {
            display_width_prefix(s@, i + 1);
            assert(s@.take(i + 1).drop_last() =~= s@.take(i as int));
        }
        total = total + char_width(cs[i]);
        i = i + 1;
    }
    assert(s@.take(i as int) =~= s@);
    total
}

} // verus!
