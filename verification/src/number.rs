//! Numbers as the console reads and writes them.
//!
//! A number is read from a word as an optional `+` followed by one or more
//! digits of the radix; anything else, or a value above the limit, is no number.
//! A number is written in lower-case digits, padded with zeros to a least width.

use vstd::prelude::*;

verus! {

/// The value of `c` as a digit of `radix`, if it is one. Letters count from ten,
/// in either case.
pub open spec fn digit_of(c: char, radix: nat) -> Option<nat> {
    let n = c as nat;
    let d: nat = if 0x30 <= n <= 0x39 {
        (n - 0x30) as nat
    } else if 0x61 <= n <= 0x7a {
        (n - 0x61 + 10) as nat
    } else if 0x41 <= n <= 0x5a {
        (n - 0x41 + 10) as nat
    } else {
        radix
    };
    if d < radix {
        Some(d)
    } else {
        None
    }
}

/// Whether every character of `s` is a digit of `radix`.
pub open spec fn all_digits(s: Seq<char>, radix: nat) -> bool {
    forall|i: int| 0 <= i < s.len() ==> (#[trigger] digit_of(s[i], radix)) is Some
}

/// The value of a run of digits, most significant first.
pub open spec fn digits_value(s: Seq<char>, radix: nat) -> nat
    decreases s.len(),
{
    if s.len() == 0 {
        0
    } else {
        digits_value(s.drop_last(), radix) * radix + match digit_of(s.last(), radix) {
            Some(d) => d,
            None => 0,
        }
    }
}

/// The digits of a word: the word without its leading `+`, if it has one.
pub open spec fn unsigned_digits(s: Seq<char>) -> Seq<char> {
    if s.len() > 0 && s[0] == '+' {
        s.skip(1)
    } else {
        s
    }
}

/// The number that a word spells in `radix`, if it spells one that is at most `max`.
pub open spec fn parse_number(s: Seq<char>, radix: nat, max: nat) -> Option<nat> {
    let body = unsigned_digits(s);
    if body.len() > 0 && all_digits(body, radix) && digits_value(body, radix) <= max {
        Some(digits_value(body, radix))
    } else {
        None
    }
}

/// A longer run of digits is worth at least as much as any of its prefixes.
proof fn lemma_prefix_value(s: Seq<char>, radix: nat, k: int)
    requires
        0 <= k <= s.len(),
        radix >= 1,
    ensures
        digits_value(s.take(k), radix) <= digits_value(s, radix),
    decreases s.len(),
{
    if k == s.len() {
        assert(s.take(k) =~= s);
    } else {
        let shorter = s.drop_last();
        lemma_prefix_value(shorter, radix, k);
        assert(shorter.take(k) =~= s.take(k));
        let v = digits_value(shorter, radix);
        assert(v * radix >= v) by (nonlinear_arith)
            requires
                radix >= 1,
                v >= 0,
        ;
    }
}

/// The value of `c` as a digit of `radix`, if it is one.
pub fn to_digit(c: char, radix: u32) -> (d: Option<u32>)
    requires
        2 <= radix <= 36,
    ensures
        match digit_of(c, radix as nat) {
            Some(v) => d == Some(v as u32),
            None => d is None,
        },
{
    let n: u32 = c as u32;
    let v: u32 = if 0x30 <= n && n <= 0x39 {
        n - 0x30
    } else if 0x61 <= n && n <= 0x7a {
        n - 0x61 + 10
    } else if 0x41 <= n && n <= 0x5a {
        n - 0x41 + 10
    } else {
        radix
    };
    if v < radix {
        Some(v)
    } else {
        None
    }
}

/// Reads a word as an unsigned number of the given radix, at most `max`.
pub fn parse_unsigned(word: &Vec<char>, radix: u32, max: u64) -> (r: Option<u64>)
    requires
        2 <= radix <= 36,
    ensures
        match parse_number(word@, radix as nat, max as nat) {
            Some(v) => r == Some(v as u64),
            None => r is None,
        },
{
    let n = word.len();
    let start: usize = if n > 0 && word[0] == '+' {
        1
    } else {
        0
    };
    let ghost body = unsigned_digits(word@);
    assert(body =~= word@.skip(start as int));
    if start == n {
        return None;
    }
    let mut acc: u64 = 0;
    let mut i: usize = start;
    assert(body.take(0) =~= Seq::<char>::empty());
    while i < n
        invariant
            2 <= radix <= 36,
            n == word.len(),
            start <= i <= n,
            body == word@.skip(start as int),
            body == unsigned_digits(word@),
            body.len() == n - start,
            all_digits(body.take(i - start), radix as nat),
            acc == digits_value(body.take(i - start), radix as nat),
            acc <= max,
        decreases n - i,
    {
        let ghost k = i - start;
        assert(body[k] == word@[i as int]);
        let d = match to_digit(word[i], radix) {
            Some(d) => d,
            None => {
                assert(digit_of(body[k], radix as nat) is None);
                return None;
            },
        };
        assert(acc as u128 * radix as u128 <= 0xffff_ffff_ffff_ffff * 36) by (nonlinear_arith)
            requires
                acc <= 0xffff_ffff_ffff_ffff,
                radix <= 36,
        ;
        let ghost longer = body.take(k + 1);
        assert(longer.drop_last() =~= body.take(k));
        assert(longer.last() == body[k]);
        let next: u128 = acc as u128 * radix as u128 + d as u128;
        assert(next == digits_value(longer, radix as nat));
        if next > max as u128 {
            proof {
                lemma_prefix_value(body, radix as nat, k + 1);
            }
            return None;
        }
        assert forall|j: int| 0 <= j < longer.len() implies (#[trigger] digit_of(
            longer[j],
            radix as nat,
        )) is Some by {
            if j < k {
                assert(longer[j] == body.take(k)[j]);
            }
        }
        acc = next as u64;
        i += 1;
    }
    assert(body.take(n - start) =~= body);
    Some(acc)
}

/// Reads a word as a hexadecimal 16-bit number.
pub fn parse_hex_u16(word: &Vec<char>) -> (r: Option<u16>)
    ensures
        match parse_number(word@, 16, 0xffff) {
            Some(v) => r == Some(v as u16),
            None => r is None,
        },
{
    match parse_unsigned(word, 16, 0xffff) {
        Some(v) => Some(v as u16),
        None => None,
    }
}

/// Reads a word as a hexadecimal 64-bit number.
pub fn parse_hex_u64(word: &Vec<char>) -> (r: Option<u64>)
    ensures
        match parse_number(word@, 16, u64::MAX as nat) {
            Some(v) => r == Some(v as u64),
            None => r is None,
        },
{
    parse_unsigned(word, 16, u64::MAX)
}

/// Reads a word as a decimal number that fits the machine's word.
pub fn parse_decimal_usize(word: &Vec<char>) -> (r: Option<usize>)
    ensures
        match parse_number(word@, 10, usize::MAX as nat) {
            Some(v) => r == Some(v as usize),
            None => r is None,
        },
{
    match parse_unsigned(word, 10, usize::MAX as u64) {
        Some(v) => Some(v as usize),
        None => None,
    }
}

/// Dividing by the radix makes a number smaller, and leaves zero as it is.
pub proof fn lemma_quotient_smaller(v: nat, radix: nat)
    requires
        radix >= 2,
    ensures
        v / radix <= v,
        v >= 1 ==> v / radix < v,
        v % radix < radix,
{
    assert(v / radix <= v && (v >= 1 ==> v / radix < v) && v % radix < radix) by (nonlinear_arith)
        requires
            radix >= 2,
            v >= 0,
    ;
}

/// The lower-case character that stands for the digit `d`.
pub open spec fn digit_char(d: nat) -> char {
    if d < 10 {
        (0x30 + d) as char
    } else {
        (0x61 + d - 10) as char
    }
}

/// How a number is written in `radix`: most significant digit first, in lower
/// case, with zeros in front up to `width` digits where it has fewer.
pub open spec fn number_text(v: nat, radix: nat, width: nat) -> Seq<char>
    decreases v, width,
{
    if radix < 2 {
        Seq::empty()
    } else if v < radix && width <= 1 {
        seq![digit_char(v)]
    } else {
        proof {
            lemma_quotient_smaller(v, radix);
        }
        let rest: nat = if width > 0 {
            (width - 1) as nat
        } else {
            0
        };
        number_text(v / radix, radix, rest).push(digit_char(v % radix))
    }
}

/// The character of one digit.
fn digit_to_char(d: u8) -> (c: char)
    requires
        d < 36,
    ensures
        c == digit_char(d as nat),
{
    if d < 10 {
        (0x30 + d) as char
    } else {
        (0x61 + (d - 10)) as char
    }
}

/// Appends `v`, written in `radix` with at least `width` digits, to `out`.
pub fn write_number(out: &mut Vec<char>, v: u64, radix: u32, width: usize)
    requires
        2 <= radix <= 36,
    ensures
        final(out)@ == old(out)@ + number_text(v as nat, radix as nat, width as nat),
    decreases v, width,
{
    let r: u64 = radix as u64;
    if v < r && width <= 1 {
        out.push(digit_to_char(v as u8));
        assert(out@ =~= old(out)@ + number_text(v as nat, radix as nat, width as nat));
    } else {
        let rest: usize = if width > 0 {
            width - 1
        } else {
            0
        };
        proof {
            lemma_quotient_smaller(v as nat, radix as nat);
        }
        write_number(out, v / r, radix, rest);
        let ghost front = out@;
        out.push(digit_to_char((v % r) as u8));
        assert(front == old(out)@ + number_text(v as nat / radix as nat, radix as nat, rest as nat));
        assert(out@ =~= old(out)@ + number_text(v as nat, radix as nat, width as nat));
    }
}

/// `v` in hexadecimal, with at least `width` digits.
pub fn hex_text(v: u64, width: usize) -> (text: Vec<char>)
    ensures
        text@ == number_text(v as nat, 16, width as nat),
{
    let mut text: Vec<char> = Vec::new();
    write_number(&mut text, v, 16, width);
    text
}

/// `v` in decimal.
pub fn decimal_text(v: u64) -> (text: Vec<char>)
    ensures
        text@ == number_text(v as nat, 10, 1),
{
    let mut text: Vec<char> = Vec::new();
    write_number(&mut text, v, 10, 1);
    text
}

} // verus!
