//! Reading fixed-layout fields out of the byte payloads of control events, and GUIDs.
use vstd::prelude::*;

verus! {

/// The little-endian `u16` at `at`.
pub open spec fn le_u16_at(b: Seq<u8>, at: int) -> nat {
    b[at] as nat + b[at + 1] as nat * 0x100
}

/// The little-endian `u32` at `at`.
pub open spec fn le_u32_at(b: Seq<u8>, at: int) -> nat {
    b[at] as nat + b[at + 1] as nat * 0x100 + b[at + 2] as nat * 0x1_0000 + b[at + 3] as nat
        * 0x100_0000
}

/// The little-endian `i32` at `at`, in two's complement.
pub open spec fn le_i32_at(b: Seq<u8>, at: int) -> int {
    if le_u32_at(b, at) < 0x8000_0000 {
        le_u32_at(b, at) as int
    } else {
        le_u32_at(b, at) - 0x1_0000_0000
    }
}

/// The big-endian `u64` at `at`.
pub open spec fn be_u64_at(b: Seq<u8>, at: int) -> nat {
    b[at] as nat * 0x100_0000_0000_0000 + b[at + 1] as nat * 0x1_0000_0000_0000 + b[at + 2] as nat
        * 0x100_0000_0000 + b[at + 3] as nat * 0x1_0000_0000 + b[at + 4] as nat * 0x100_0000
        + b[at + 5] as nat * 0x1_0000 + b[at + 6] as nat * 0x100 + b[at + 7] as nat
}

/// The GUID stored at `at`, as a 128-bit number: a little-endian `u32`, two little-endian
/// `u16`s and eight bytes, most significant part first.
pub open spec fn guid_at(b: Seq<u8>, at: int) -> nat {
    le_u32_at(b, at) * 0x1_0000_0000_0000_0000_0000_0000 + le_u16_at(b, at + 4)
        * 0x1_0000_0000_0000_0000_0000 + le_u16_at(b, at + 6) * 0x1_0000_0000_0000_0000
        + be_u64_at(b, at + 8)
}

/// Reads the little-endian `u32` at `at`.
pub fn read_u32(b: &[u8], at: usize) -> (r: u32)
    requires
        at + 4 <= b@.len(),
    ensures
        r as nat == le_u32_at(b@, at as int),
{
    b[at] as u32 + b[at + 1] as u32 * 0x100 + b[at + 2] as u32 * 0x1_0000 + b[at + 3] as u32
        * 0x100_0000
}

/// Reads the little-endian `i32` at `at`.
pub fn read_i32(b: &[u8], at: usize) -> (r: i32)
    requires
        at + 4 <= b@.len(),
    ensures
        r as int == le_i32_at(b@, at as int),
{
    let u = read_u32(b, at);
    if u < 0x8000_0000 {
        u as i32
    } else {
        (u as i64 - 0x1_0000_0000) as i32
    }
}

/// Reads the GUID stored at `at`.
pub fn read_guid(b: &[u8], at: usize) -> (r: u128)
    requires
        at + 16 <= b@.len(),
    ensures
        r as nat == guid_at(b@, at as int),
{
    let _len = b.len();
    let d1 = read_u32(b, at) as u128;
    let d2 = b[at + 4] as u128 + b[at + 5] as u128 * 0x100;
    let d3 = b[at + 6] as u128 + b[at + 7] as u128 * 0x100;
    let d4 = b[at + 8] as u128 * 0x100_0000_0000_0000 + b[at + 9] as u128 * 0x1_0000_0000_0000
        + b[at + 10] as u128 * 0x100_0000_0000 + b[at + 11] as u128 * 0x1_0000_0000 + b[at + 12]
        as u128 * 0x100_0000 + b[at + 13] as u128 * 0x1_0000 + b[at + 14] as u128 * 0x100 + b[at
        + 15] as u128;
    d1 * 0x1_0000_0000_0000_0000_0000_0000 + d2 * 0x1_0000_0000_0000_0000_0000 + d3
        * 0x1_0000_0000_0000_0000 + d4
}

/// The upper-case hexadecimal digit for `d`.
pub open spec fn hex_char(d: nat) -> char {
    if d == 0 { '0' }
    else if d == 1 { '1' }
    else if d == 2 { '2' }
    else if d == 3 { '3' }
    else if d == 4 { '4' }
    else if d == 5 { '5' }
    else if d == 6 { '6' }
    else if d == 7 { '7' }
    else if d == 8 { '8' }
    else if d == 9 { '9' }
    else if d == 10 { 'A' }
    else if d == 11 { 'B' }
    else if d == 12 { 'C' }
    else if d == 13 { 'D' }
    else if d == 14 { 'E' }
    else { 'F' }
}

/// The last `n` hexadecimal digits of `v`, zero-padded, most significant first.
pub open spec fn hex_digits(v: nat, n: nat) -> Seq<char>
    decreases n,
{
    if n == 0 {
        Seq::empty()
    } else {
        hex_digits(v / 16, (n - 1) as nat).push(hex_char(v % 16))
    }
}

/// The hyphenated form of a GUID: 32 upper-case hexadecimal digits in groups of 8, 4, 4, 4
/// and 12.
pub open spec fn guid_text(g: nat) -> Seq<char> {
    hex_digits(g / 0x1_0000_0000_0000_0000_0000_0000, 8) + seq!['-'] + hex_digits(
        g / 0x1_0000_0000_0000_0000_0000 % 0x1_0000,
        4,
    ) + seq!['-'] + hex_digits(g / 0x1_0000_0000_0000_0000 % 0x1_0000, 4) + seq!['-']
        + hex_digits(g / 0x1_0000_0000_0000 % 0x1_0000, 4) + seq!['-'] + hex_digits(
        g % 0x1_0000_0000_0000,
        12,
    )
}

/// The digit for `d` as a string.
fn hex_digit_str(d: u128) -> (r: &'static str)
    requires
        d < 16,
    ensures
        r@ == seq![hex_char(d as nat)],
{
    proof {
        reveal_strlit("0");
        reveal_strlit("1");
        reveal_strlit("2");
        reveal_strlit("3");
        reveal_strlit("4");
        reveal_strlit("5");
        reveal_strlit("6");
        reveal_strlit("7");
        reveal_strlit("8");
        reveal_strlit("9");
        reveal_strlit("A");
        reveal_strlit("B");
        reveal_strlit("C");
        reveal_strlit("D");
        reveal_strlit("E");
        reveal_strlit("F");
    }
    if d == 0 { "0" }
    else if d == 1 { "1" }
    else if d == 2 { "2" }
    else if d == 3 { "3" }
    else if d == 4 { "4" }
    else if d == 5 { "5" }
    else if d == 6 { "6" }
    else if d == 7 { "7" }
    else if d == 8 { "8" }
    else if d == 9 { "9" }
    else if d == 10 { "A" }
    else if d == 11 { "B" }
    else if d == 12 { "C" }
    else if d == 13 { "D" }
    else if d == 14 { "E" }
    else { "F" }
}

/// Appends the last `n` hexadecimal digits of `v` to `s`.
fn push_hex(s: &mut String, v: u128, n: u32)
    ensures
        final(s)@ == old(s)@ + hex_digits(v as nat, n as nat),
    decreases n,
{
    if n > 0 {
        push_hex(s, v / 16, n - 1);
        let ghost mid = s@;
        s.append(hex_digit_str(v % 16));
        assert(s@ =~= old(s)@ + hex_digits(v as nat, n as nat));
    }
}

/// Writes a GUID in its hyphenated hexadecimal form.
pub fn guid_string(g: u128) -> (r: String)
    ensures
        r@ == guid_text(g as nat),
{
    proof {
        reveal_strlit("-");
    }
    let mut s = String::new();
    push_hex(&mut s, g / 0x1_0000_0000_0000_0000_0000_0000, 8);
    s.append("-");
    push_hex(&mut s, g / 0x1_0000_0000_0000_0000_0000 % 0x1_0000, 4);
    s.append("-");
    push_hex(&mut s, g / 0x1_0000_0000_0000_0000 % 0x1_0000, 4);
    s.append("-");
    push_hex(&mut s, g / 0x1_0000_0000_0000 % 0x1_0000, 4);
    s.append("-");
    push_hex(&mut s, g % 0x1_0000_0000_0000, 12);
    assert(s@ =~= guid_text(g as nat));
    s
}

} // verus!
