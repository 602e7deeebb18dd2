//! Text that the kernel writes about itself: numbers and indentation.

use vstd::prelude::*;
use vstd::string::StringExecFns;

verus! {

/// The character of a digit below sixteen, lower case.
pub open spec fn digit_char(d: nat) -> char {
    if d == 0 {
        '0'
    } else if d == 1 {
        '1'
    } else if d == 2 {
        '2'
    } else if d == 3 {
        '3'
    } else if d == 4 {
        '4'
    } else if d == 5 {
        '5'
    } else if d == 6 {
        '6'
    } else if d == 7 {
        '7'
    } else if d == 8 {
        '8'
    } else if d == 9 {
        '9'
    } else if d == 10 {
        'a'
    } else if d == 11 {
        'b'
    } else if d == 12 {
        'c'
    } else if d == 13 {
        'd'
    } else if d == 14 {
        'e'
    } else {
        'f'
    }
}

/// `n` in decimal: its digits, most significant first, without leading
/// zeros; a single `0` for zero.
pub open spec fn decimal(n: nat) -> Seq<char>
    decreases n,
{
    if n < 10 {
        seq![digit_char(n)]
    } else {
        decimal(n / 10).push(digit_char(n % 10))
    }
}

/// The hexadecimal digits of `n`, lower case, most significant first, without
/// leading zeros; a single `0` for zero.
pub open spec fn hex_digits(n: nat) -> Seq<char>
    decreases n,
{
    if n < 16 {
        seq![digit_char(n)]
    } else {
        hex_digits(n / 16).push(digit_char(n % 16))
    }
}

/// `n` in hexadecimal with the prefix `0x`.
pub open spec fn hexadecimal(n: nat) -> Seq<char> {
    seq!['0', 'x'] + hex_digits(n)
}

/// `depth` levels of indentation, four blanks each.
pub open spec fn pad(depth: nat) -> Seq<char> {
    Seq::new(4 * depth, |i: int| ' ')
}

fn digit_str(d: u64) -> (r: &'static str)
    requires
        d < 16,
    ensures
        r@ == seq![digit_char(d as nat)],
{
    proof {
        reveal_strlit("0");
        reveal_strlit("1");
        reveal_strlit("2");
        reveal_strlit("3");
        reveal_strlit("4");
        reveal_strlit("5");
        reveal_strlit("6");
        reveal_strlit("7");
        reveal_strlit("8");
        reveal_strlit("9");
        reveal_strlit("a");
        reveal_strlit("b");
        reveal_strlit("c");
        reveal_strlit("d");
        reveal_strlit("e");
        reveal_strlit("f");
    }
    let r = match d {
        0 => "0",
        1 => "1",
        2 => "2",
        3 => "3",
        4 => "4",
        5 => "5",
        6 => "6",
        7 => "7",
        8 => "8",
        9 => "9",
        10 => "a",
        11 => "b",
        12 => "c",
        13 => "d",
        14 => "e",
        _ => "f",
    };
    assert(r@ =~= seq![digit_char(d as nat)]);
    r
}

/// Appends `n` in decimal.
pub fn push_decimal(out: &mut String, n: u64)
    ensures
        final(out)@ == old(out)@ + decimal(n as nat),
    decreases n,
{
    if n >= 10 {
        push_decimal(out, n / 10);
    }
    out.append(digit_str(n % 10));
    assert(out@ =~= old(out)@ + decimal(n as nat));
}

fn push_hex_digits(out: &mut String, n: u64)
    ensures
        final(out)@ == old(out)@ + hex_digits(n as nat),
    decreases n,
{
    if n >= 16 {
        push_hex_digits(out, n / 16);
    }
    out.append(digit_str(n % 16));
    assert(out@ =~= old(out)@ + hex_digits(n as nat));
}

/// Appends `n` in hexadecimal with the prefix `0x`.
pub fn push_hexadecimal(out: &mut String, n: u64)
    ensures
        final(out)@ == old(out)@ + hexadecimal(n as nat),
{
    proof {
        reveal_strlit("0x");
    }
    out.append("0x");
    push_hex_digits(out, n);
    assert(out@ =~= old(out)@ + hexadecimal(n as nat));
}

/// Appends `depth` levels of indentation.
pub fn push_pad(out: &mut String, depth: usize)
    ensures
        final(out)@ == old(out)@ + pad(depth as nat),
{
    let mut level: usize = 0;
    assert(out@ =~= old(out)@ + pad(0));
    while level < depth
        invariant
            level <= depth,
            out@ == old(out)@ + pad(level as nat),
        decreases depth - level,
    {
        proof {
            reveal_strlit("    ");
        }
        out.append("    ");
        level += 1;
        assert(out@ =~= old(out)@ + pad(level as nat));
    }
}

/// A value that wraps `inner` under `name`, as it is written in a dump,
/// `depth` levels deep: `inner` stands on a line of its own, one level
/// deeper.
pub open spec fn wrapped(name: Seq<char>, inner: Seq<char>, depth: nat) -> Seq<char> {
    name + "(\n"@ + pad(depth + 1) + inner + ",\n"@ + pad(depth) + ")"@
}

/// `inner` wrapped under `name`, as [`wrapped`] says.
pub fn wrapped_text(name: &str, inner: &str, depth: usize) -> (r: String)
    requires
        depth < usize::MAX,
    ensures
        r@ == wrapped(name@, inner@, depth as nat),
{
    let mut text = String::from_str(name);
    text.append("(\n");
    push_pad(&mut text, depth + 1);
    text.append(inner);
    text.append(",\n");
    push_pad(&mut text, depth);
    text.append(")");
    text
}

} // verus!
