//! Text: numbers as digit strings, and the building of strings.

use vstd::prelude::*;

verus! {

/// The upper-case hexadecimal digit of `d` (below 16).
pub open spec fn upper_hex_digit(d: nat) -> char {
    if d < 10 {
        (48 + d) as char
    } else {
        (55 + d) as char
    }
}

/// `n` in upper-case hexadecimal, without leading zeros ("0" for zero).
pub open spec fn hex_text(n: nat) -> Seq<char>
    decreases n,
{
    if n < 16 {
        seq![upper_hex_digit(n)]
    } else {
        hex_text(n / 16).push(upper_hex_digit(n % 16))
    }
}

/// `n` in decimal, without leading zeros ("0" for zero).
pub open spec fn decimal_text(n: nat) -> Seq<char>
    decreases n,
{
    if n < 10 {
        seq![(48 + n) as char]
    } else {
        decimal_text(n / 10).push((48 + n % 10) as char)
    }
}

/// Appends `n` in upper-case hexadecimal to `s`.
fn push_hex(s: &mut String, n: u64)
    ensures
        final(s)@ == old(s)@ + hex_text(n as nat),
    decreases n,
{
    if n >= 16 {
        push_hex(s, n / 16);
    }
    let d = (n % 16) as u8;
    let c = if d < 10 { (48 + d) as char } else { (55 + d) as char };
    push_char(s, c);
    proof {
        assert(s@ =~= old(s)@ + hex_text(n as nat));
    }
}

/// `n` in upper-case hexadecimal.
pub(crate) fn upper_hex(n: u64) -> (r: String)
    ensures
        r@ == hex_text(n as nat),
{
    let mut s = String::new();
    push_hex(&mut s, n);
    proof {
        assert(s@ =~= hex_text(n as nat));
    }
    s
}

/// Appends `n` in decimal to `s`.
fn push_decimal(s: &mut String, n: u8)
    ensures
        final(s)@ == old(s)@ + decimal_text(n as nat),
    decreases n,
{
    if n >= 10 {
        push_decimal(s, n / 10);
    }
    let c = (48 + n % 10) as char;
    push_char(s, c);
    proof {
        assert(s@ =~= old(s)@ + decimal_text(n as nat));
    }
}

/// `n` in decimal.
pub(crate) fn decimal(n: u8) -> (r: String)
    ensures
        r@ == decimal_text(n as nat),
{
    let mut s = String::new();
    push_decimal(&mut s, n);
    proof {
        assert(s@ =~= decimal_text(n as nat));
    }
    s
}

/// Appends `t` to `s`.
/// Relies on `String::push_str`, which appends the string slice.
#[verifier::external_body]
pub(crate) fn push_str(s: &mut String, t: &str)
    ensures
        final(s)@ == old(s)@ + t@,
{
    s.push_str(t)
}

/// Appends `c` to `s`.
/// Relies on `String::push`, which appends the character.
#[verifier::external_body]
pub(crate) fn push_char(s: &mut String, c: char)
    ensures
        final(s)@ == old(s)@.push(c),
{
    s.push(c)
}

/// The character that shows a pixel: a space when unset, a full block when
/// set.
pub open spec fn cell_char(p: u8) -> char {
    if p == 0 { ' ' } else { '█' }
}

/// The first `k` pixels of a row-major grid of `width` columns as text: one
/// character per pixel, rows separated by a line break.
pub open spec fn grid_text(pixels: Seq<u8>, width: nat, k: nat) -> Seq<char>
    decreases k,
{
    if k == 0 {
        Seq::empty()
    } else {
        let before = grid_text(pixels, width, (k - 1) as nat);
        let sep = if k - 1 != 0 && (k - 1) % (width as int) == 0 { before.push('\n') } else { before };
        sep.push(cell_char(pixels[k - 1]))
    }
}

/// A row-major grid of `width` columns as text (see `grid_text`).
pub(crate) fn render_grid(pixels: &Vec<u8>, width: usize) -> (r: String)
    requires
        width > 0,
    ensures
        r@ == grid_text(pixels@, width as nat, pixels@.len()),
{
    let mut s = String::new();
    let mut k: usize = 0;
    while k < pixels.len()
        invariant
            k <= pixels@.len(),
            width > 0,
            s@ == grid_text(pixels@, width as nat, k as nat),
        decreases pixels@.len() - k,
    {
        if k != 0 && k % width == 0 {
            push_char(&mut s, '\n');
        }
        let c = if pixels[k] == 0 { ' ' } else { '█' };
        push_char(&mut s, c);
        k += 1;
    }
    s
}

/// The first `rows` rows of a row-major grid of `width` columns as text:
/// one character per pixel, each row followed by a line break.
pub open spec fn rows_text(pixels: Seq<u8>, width: nat, rows: nat) -> Seq<char>
    decreases rows,
{
    if rows == 0 {
        Seq::empty()
    } else {
        let r = (rows - 1) as nat;
        rows_text(pixels, width, r) + Seq::new(width, |c: int| cell_char(pixels[r * width + c]))
            .push('\n')
    }
}

/// An instruction with one operand: its name, then the operand in
/// hexadecimal.
pub open spec fn one_operand_text(name: Seq<char>, a: nat) -> Seq<char> {
    name + hex_text(a)
}

/// An instruction with two operands: its name, the first operand in
/// hexadecimal, two tabs, the second operand in hexadecimal.
pub open spec fn two_operands_text(name: Seq<char>, a: nat, b: nat) -> Seq<char> {
    name + hex_text(a) + "\t\t"@ + hex_text(b)
}

/// See `one_operand_text`.
pub(crate) fn one_operand(name: &str, a: u64) -> (r: String)
    ensures
        r@ == one_operand_text(name@, a as nat),
{
    let mut s = name.to_owned();
    let h = upper_hex(a);
    push_str(&mut s, h.as_str());
    s
}

/// See `two_operands_text`.
pub(crate) fn two_operands(name: &str, a: u64, b: u64) -> (r: String)
    ensures
        r@ == two_operands_text(name@, a as nat, b as nat),
{
    let mut s = name.to_owned();
    let h = upper_hex(a);
    push_str(&mut s, h.as_str());
    push_str(&mut s, "\t\t");
    let h = upper_hex(b);
    push_str(&mut s, h.as_str());
    s
}

} // verus!
