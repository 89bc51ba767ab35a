//! Decimal and hexadecimal text of small integers, used for the textual
//! form of IP addresses.

use vstd::prelude::*;

verus! {

/// The decimal digit character for `d` in `0..10`.
pub open spec fn dec_digit(d: int) -> char {
    if d == 0 {
        '0'
    } else if d == 1 {
        '1'
    } else if d == 2 {
        '2'
    } else if d == 3 {
        '3'
    } else if d == 4 {
        '4'
    } else if d == 5 {
        '5'
    } else if d == 6 {
        '6'
    } else if d == 7 {
        '7'
    } else if d == 8 {
        '8'
    } else {
        '9'
    }
}

/// The lowercase hexadecimal digit character for `d` in `0..16`.
pub open spec fn hex_digit(d: int) -> char {
    if d < 10 {
        dec_digit(d)
    } else if d == 10 {
        'a'
    } else if d == 11 {
        'b'
    } else if d == 12 {
        'c'
    } else if d == 13 {
        'd'
    } else if d == 14 {
        'e'
    } else {
        'f'
    }
}

/// The decimal text of `n` in `0..256`, without leading zeros.
pub open spec fn dec_byte_text(n: int) -> Seq<char> {
    if n < 10 {
        seq![dec_digit(n)]
    } else if n < 100 {
        seq![dec_digit(n / 10), dec_digit(n % 10)]
    } else {
        seq![dec_digit(n / 100), dec_digit((n / 10) % 10), dec_digit(n % 10)]
    }
}

/// The lowercase hexadecimal text of `n` in `0..65536`, without leading
/// zeros.
pub open spec fn hex_group_text(n: int) -> Seq<char> {
    if n < 0x10 {
        seq![hex_digit(n)]
    } else if n < 0x100 {
        seq![hex_digit(n / 0x10), hex_digit(n % 0x10)]
    } else if n < 0x1000 {
        seq![hex_digit(n / 0x100), hex_digit((n / 0x10) % 0x10), hex_digit(n % 0x10)]
    } else {
        seq![
            hex_digit(n / 0x1000),
            hex_digit((n / 0x100) % 0x10),
            hex_digit((n / 0x10) % 0x10),
            hex_digit(n % 0x10),
        ]
    }
}

/// The decimal text of `n` in `0..65536`, without leading zeros.
pub open spec fn dec_u16_text(n: int) -> Seq<char> {
    if n < 10 {
        seq![dec_digit(n)]
    } else if n < 100 {
        seq![dec_digit(n / 10), dec_digit(n % 10)]
    } else if n < 1000 {
        seq![dec_digit(n / 100), dec_digit((n / 10) % 10), dec_digit(n % 10)]
    } else if n < 10000 {
        seq![
            dec_digit(n / 1000),
            dec_digit((n / 100) % 10),
            dec_digit((n / 10) % 10),
            dec_digit(n % 10),
        ]
    } else {
        seq![
            dec_digit(n / 10000),
            dec_digit((n / 1000) % 10),
            dec_digit((n / 100) % 10),
            dec_digit((n / 10) % 10),
            dec_digit(n % 10),
        ]
    }
}

/// Append the decimal digit character for `d` to `out`.
pub fn push_dec_digit(out: &mut String, d: u8)
    requires
        d < 10,
    ensures
        final(out)@ == old(out)@ + seq![dec_digit(d as int)],
{
    proof {
        reveal_strlit("0");
        reveal_strlit("1");
        reveal_strlit("2");
        reveal_strlit("3");
        reveal_strlit("4");
        reveal_strlit("5");
        reveal_strlit("6");
        reveal_strlit("7");
        reveal_strlit("8");
        reveal_strlit("9");
    }
    match d {
        0 => out.append("0"),
        1 => out.append("1"),
        2 => out.append("2"),
        3 => out.append("3"),
        4 => out.append("4"),
        5 => out.append("5"),
        6 => out.append("6"),
        7 => out.append("7"),
        8 => out.append("8"),
        _ => out.append("9"),
    }
    proof {
        assert(out@ =~= old(out)@ + seq![dec_digit(d as int)]);
    }
}

/// Append the lowercase hexadecimal digit character for `d` to `out`.
pub fn push_hex_digit(out: &mut String, d: u8)
    requires
        d < 16,
    ensures
        final(out)@ == old(out)@ + seq![hex_digit(d as int)],
{
    if d < 10 {
        push_dec_digit(out, d);
    } else {
        proof {
            reveal_strlit("a");
            reveal_strlit("b");
            reveal_strlit("c");
            reveal_strlit("d");
            reveal_strlit("e");
            reveal_strlit("f");
        }
        match d {
            10 => out.append("a"),
            11 => out.append("b"),
            12 => out.append("c"),
            13 => out.append("d"),
            14 => out.append("e"),
            _ => out.append("f"),
        }
        proof {
            assert(out@ =~= old(out)@ + seq![hex_digit(d as int)]);
        }
    }
}

/// Append the decimal text of the byte `n`, without leading zeros.
pub fn push_dec_byte(out: &mut String, n: u8)
    ensures
        final(out)@ == old(out)@ + dec_byte_text(n as int),
{
    if n < 10 {
        push_dec_digit(out, n);
    } else if n < 100 {
        push_dec_digit(out, n / 10);
        push_dec_digit(out, n % 10);
    } else {
        push_dec_digit(out, n / 100);
        push_dec_digit(out, (n / 10) % 10);
        push_dec_digit(out, n % 10);
    }
    proof {
        assert(out@ =~= old(out)@ + dec_byte_text(n as int));
    }
}

/// Append the decimal text of `n`, without leading zeros.
pub fn push_dec_u16(out: &mut String, n: u16)
    ensures
        final(out)@ == old(out)@ + dec_u16_text(n as int),
{
    if n < 10 {
        push_dec_digit(out, n as u8);
    } else if n < 100 {
        push_dec_digit(out, (n / 10) as u8);
        push_dec_digit(out, (n % 10) as u8);
    } else if n < 1000 {
        push_dec_digit(out, (n / 100) as u8);
        push_dec_digit(out, ((n / 10) % 10) as u8);
        push_dec_digit(out, (n % 10) as u8);
    } else if n < 10000 {
        push_dec_digit(out, (n / 1000) as u8);
        push_dec_digit(out, ((n / 100) % 10) as u8);
        push_dec_digit(out, ((n / 10) % 10) as u8);
        push_dec_digit(out, (n % 10) as u8);
    } else {
        push_dec_digit(out, (n / 10000) as u8);
        push_dec_digit(out, ((n / 1000) % 10) as u8);
        push_dec_digit(out, ((n / 100) % 10) as u8);
        push_dec_digit(out, ((n / 10) % 10) as u8);
        push_dec_digit(out, (n % 10) as u8);
    }
    proof {
        assert(out@ =~= old(out)@ + dec_u16_text(n as int));
    }
}

/// Append the lowercase hexadecimal text of the group `n`, without leading
/// zeros.
pub fn push_hex_group(out: &mut String, n: u16)
    ensures
        final(out)@ == old(out)@ + hex_group_text(n as int),
{
    if n < 0x10 {
        push_hex_digit(out, n as u8);
    } else if n < 0x100 {
        push_hex_digit(out, (n / 0x10) as u8);
        push_hex_digit(out, (n % 0x10) as u8);
    } else if n < 0x1000 {
        push_hex_digit(out, (n / 0x100) as u8);
        push_hex_digit(out, ((n / 0x10) % 0x10) as u8);
        push_hex_digit(out, (n % 0x10) as u8);
    } else {
        push_hex_digit(out, (n / 0x1000) as u8);
        push_hex_digit(out, ((n / 0x100) % 0x10) as u8);
        push_hex_digit(out, ((n / 0x10) % 0x10) as u8);
        push_hex_digit(out, (n % 0x10) as u8);
    }
    proof {
        assert(out@ =~= old(out)@ + hex_group_text(n as int));
    }
}

} // verus!
