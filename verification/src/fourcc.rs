//! Four-character codes, the 32-bit tags that Core Video and Core Media use to
//! name pixel formats (`BGRA`, `420v`, ...). The first character is the most
//! significant byte of the code.

use vstd::prelude::*;

verus! {

/// The code whose characters, most significant first, are `chars`.
pub open spec fn code_of_chars(chars: Seq<u8>) -> int
    recommends
        chars.len() == 4,
{
    chars[0] * 0x100_0000 + chars[1] * 0x1_0000 + chars[2] * 0x100 + chars[3]
}

/// The four characters of `code`, most significant byte first.
pub open spec fn chars_of_code(code: u32) -> Seq<u8> {
    seq![
        (code / 0x100_0000) as u8,
        (code / 0x1_0000 % 0x100) as u8,
        (code / 0x100 % 0x100) as u8,
        (code % 0x100) as u8,
    ]
}

/// Builds the code made of the four characters `chars`.
pub fn four_char_code(chars: [u8; 4]) -> (code: u32)
    ensures
        code == code_of_chars(chars@),
{
    let c0: u32 = chars[0] as u32;
    let c1: u32 = chars[1] as u32;
    let c2: u32 = chars[2] as u32;
    let c3: u32 = chars[3] as u32;
    c0 * 0x100_0000 + c1 * 0x1_0000 + c2 * 0x100 + c3
}

/// The four characters of `code`, most significant byte first.
pub fn four_char_code_chars(code: u32) -> (chars: [u8; 4])
    ensures
        chars@ == chars_of_code(code),
{
    let chars: [u8; 4] = [
        (code / 0x100_0000) as u8,
        (code / 0x1_0000 % 0x100) as u8,
        (code / 0x100 % 0x100) as u8,
        (code % 0x100) as u8,
    ];
    assert(chars@ =~= chars_of_code(code));
    chars
}

/// Splitting a code into its characters and joining them again gives the code back.
pub proof fn lemma_code_chars_round_trip(code: u32)
    ensures
        code_of_chars(chars_of_code(code)) == code,
{
    let c = code as int;
    assert(c == (c / 0x100_0000) * 0x100_0000 + (c / 0x1_0000 % 0x100) * 0x1_0000 + (c / 0x100
        % 0x100) * 0x100 + c % 0x100) by (nonlinear_arith)
        requires
            0 <= c < 0x1_0000_0000,
    ;
}

/// Joining four characters into a code and splitting it again gives the characters back.
pub proof fn lemma_chars_code_round_trip(chars: Seq<u8>)
    requires
        chars.len() == 4,
    ensures
        code_of_chars(chars) <= u32::MAX,
        chars_of_code(code_of_chars(chars) as u32) == chars,
{
    let a = chars[0] as int;
    let b = chars[1] as int;
    let c = chars[2] as int;
    let d = chars[3] as int;
    let v = a * 0x100_0000 + b * 0x1_0000 + c * 0x100 + d;
    assert(v / 0x100_0000 == a && v / 0x1_0000 % 0x100 == b && v / 0x100 % 0x100 == c && v
        % 0x100 == d && v <= 0xffff_ffff) by (nonlinear_arith)
        requires
            0 <= a < 256,
            0 <= b < 256,
            0 <= c < 256,
            0 <= d < 256,
            v == a * 0x100_0000 + b * 0x1_0000 + c * 0x100 + d,
    ;
    assert(chars_of_code(v as u32) =~= chars);
}

} // verus!
