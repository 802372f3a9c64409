//! Diagnostic rendering of an identifier as `0x[..]` hexadecimal.
use vstd::prelude::*;

use crate::hash::SubotaiHash;

verus! {

/// The upper-case hexadecimal digit for `n < 16`.
pub open spec fn hex_digit(n: int) -> char {
    seq!['0', '1', '2', '3', '4', '5', '6', '7', '8', '9', 'A', 'B', 'C', 'D', 'E', 'F'][n]
}

/// A byte as two zero-padded upper-case hexadecimal digits.
pub open spec fn hex_byte(b: u8) -> Seq<char> {
    seq![hex_digit(b as int / 16), hex_digit(b as int % 16)]
}

/// The digits for bytes `n - 1` down to `0`, leaving out leading zero bytes
/// unless a non-zero byte has already been written (`started`).
pub open spec fn digits_below(raw: Seq<u8>, n: int, started: bool) -> Seq<char>
    decreases n,
{
    if n <= 0 {
        Seq::empty()
    } else {
        let now = started || raw[n - 1] != 0;
        (if now {
            hex_byte(raw[n - 1])
        } else {
            Seq::empty()
        }) + digits_below(raw, n - 1, now)
    }
}

/// The rendering of an identifier: `0x[`, the bytes from the most
/// significant down with leading zero bytes left out, then `]`.
pub open spec fn rendered(raw: Seq<u8>) -> Seq<char> {
    seq!['0', 'x', '['] + digits_below(raw, 20, false) + seq![']']
}

/// Relies on `String::push`: appends one character at the end.
#[verifier::external_body]
fn push_char(s: &mut String, c: char)
    ensures
        final(s)@ == old(s)@.push(c),
{
    s.push(c);
}

/// The digit for `n`, which is below 16.
fn hex_digit_of(n: u8) -> (r: char)
    requires
        n < 16,
    ensures
        r == hex_digit(n as int),
{
    let digits = ['0', '1', '2', '3', '4', '5', '6', '7', '8', '9', 'A', 'B', 'C', 'D', 'E', 'F'];
    assert(digits@ =~= seq!['0', '1', '2', '3', '4', '5', '6', '7', '8', '9', 'A', 'B', 'C', 'D', 'E', 'F']);
    digits[n as usize]
}

impl SubotaiHash {
    /// Renders the hash as `0x[..]`: upper-case hexadecimal, most significant
    /// byte first, two digits a byte, leading zero bytes left out. The blank
    /// hash renders as `0x[]`.
    pub fn to_string(&self) -> (r: String)
        ensures
            r@ == rendered(self.raw@),
    {
        let mut hex = String::new();
        push_char(&mut hex, '0');
        push_char(&mut hex, 'x');
        push_char(&mut hex, '[');
        let mut leftpad_over = false;
        let mut n: usize = 20;
        while n > 0
            invariant
                n <= 20,
                hex@ + digits_below(self.raw@, n as int, leftpad_over) == seq!['0', 'x', '[']
                    + digits_below(self.raw@, 20, false),
            decreases n,
        {
            let byte = self.raw[n - 1];
            let ghost old_hex = hex@;
            let ghost was_started = leftpad_over;
            if byte > 0 {
                leftpad_over = true;
            }
            if leftpad_over {
                push_char(&mut hex, hex_digit_of(byte / 16));
                push_char(&mut hex, hex_digit_of(byte % 16));
                assert(hex@ =~= old_hex + hex_byte(byte));
            }
            n = n - 1;
            assert(hex@ + digits_below(self.raw@, n as int, leftpad_over) =~= old_hex
                + digits_below(self.raw@, (n + 1) as int, was_started));
        }
        push_char(&mut hex, ']');
        assert(hex@ =~= rendered(self.raw@));
        hex
    }
}

} // verus!
