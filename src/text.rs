//! Text fields of on-disk structures.
use vstd::prelude::*;
use vstd::string::StringExecFns;

verus! {

/// The characters of bytes that are all ASCII.
pub open spec fn ascii_chars(s: Seq<u8>) -> Seq<char> {
    Seq::new(s.len(), |i: int| s[i] as char)
}

/// What `String::from_utf8_lossy` makes of a byte string.
pub uninterp spec fn utf8_lossy_of(b: Seq<u8>) -> Seq<char>;

/// Relies on `String::from_utf8_lossy`: a function of the bytes alone, which
/// leaves valid UTF-8 (ASCII in particular) as it is.
#[verifier::external_body]
pub(crate) fn lossy_string(b: &[u8]) -> (r: String)
    ensures
        r@ == utf8_lossy_of(b@),
        (forall|i: int| 0 <= i < b@.len() ==> b@[i] < 0x80) ==> r@ == ascii_chars(b@),
{
    String::from_utf8_lossy(b).into_owned()
}

/// The bytes of `s` before its first NUL byte.
pub open spec fn until_nul(s: Seq<u8>) -> Seq<u8>
    decreases s.len(),
{
    if s.len() == 0 {
        s
    } else if s[0] == 0 {
        Seq::empty()
    } else {
        seq![s[0]] + until_nul(s.drop_first())
    }
}

/// The position of the first NUL byte of `buf[start..end]`, or `end`.
pub(crate) fn nul_position(buf: &[u8], start: usize, end: usize) -> (n: usize)
    requires
        start <= end <= buf@.len(),
    ensures
        start <= n <= end,
        buf@.subrange(start as int, n as int) == until_nul(buf@.subrange(start as int, end as int)),
{
    let mut n = start;
    while n < end && buf[n] != 0
        invariant
            start <= n <= end <= buf@.len(),
            forall|j: int| start <= j < n ==> buf@[j] != 0,
            until_nul(buf@.subrange(start as int, end as int)) == buf@.subrange(start as int, n as int)
                + until_nul(buf@.subrange(n as int, end as int)),
        decreases end - n,
    {
        assert(buf@.subrange(n as int, end as int).drop_first() =~= buf@.subrange(n + 1, end as int));
        assert(buf@.subrange(start as int, n as int) + seq![buf@[n as int]] =~= buf@.subrange(
            start as int,
            n + 1,
        ));
        n = n + 1;
    }
    if n < end {
        assert(until_nul(buf@.subrange(n as int, end as int)) =~= Seq::<u8>::empty());
    } else {
        assert(buf@.subrange(n as int, end as int) =~= Seq::<u8>::empty());
    }
    assert(buf@.subrange(start as int, n as int) + Seq::<u8>::empty() =~= buf@.subrange(
        start as int,
        n as int,
    ));
    n
}

/// The digit of value `d` (0 to 15), upper case beyond 9.
pub open spec fn hex_digit(d: int) -> char {
    if d == 0 {
        '0'
    } else if d == 1 {
        '1'
    } else if d == 2 {
        '2'
    } else if d == 3 {
        '3'
    } else if d == 4 {
        '4'
    } else if d == 5 {
        '5'
    } else if d == 6 {
        '6'
    } else if d == 7 {
        '7'
    } else if d == 8 {
        '8'
    } else if d == 9 {
        '9'
    } else if d == 10 {
        'A'
    } else if d == 11 {
        'B'
    } else if d == 12 {
        'C'
    } else if d == 13 {
        'D'
    } else if d == 14 {
        'E'
    } else {
        'F'
    }
}

/// The decimal text of `n`.
pub open spec fn decimal(n: nat) -> Seq<char>
    decreases n,
{
    if n < 10 {
        seq![hex_digit(n as int)]
    } else {
        decimal(n / 10).push(hex_digit((n % 10) as int))
    }
}

/// The eight upper-case hexadecimal digits of `x`.
pub open spec fn hex8(x: u32) -> Seq<char> {
    Seq::new(8, |i: int| hex_digit(((x >> ((28 - 4 * i) as u32)) & 0xf) as int))
}

/// The text of the digit `d`.
fn digit_str(d: u64) -> (r: &'static str)
    requires
        d < 16,
    ensures
        r@ == seq![hex_digit(d as int)],
{
    if d == 0 {
        proof {
            reveal_strlit("0");
        }
        "0"
    } else if d == 1 {
        proof {
            reveal_strlit("1");
        }
        "1"
    } else if d == 2 {
        proof {
            reveal_strlit("2");
        }
        "2"
    } else if d == 3 {
        proof {
            reveal_strlit("3");
        }
        "3"
    } else if d == 4 {
        proof {
            reveal_strlit("4");
        }
        "4"
    } else if d == 5 {
        proof {
            reveal_strlit("5");
        }
        "5"
    } else if d == 6 {
        proof {
            reveal_strlit("6");
        }
        "6"
    } else if d == 7 {
        proof {
            reveal_strlit("7");
        }
        "7"
    } else if d == 8 {
        proof {
            reveal_strlit("8");
        }
        "8"
    } else if d == 9 {
        proof {
            reveal_strlit("9");
        }
        "9"
    } else if d == 10 {
        proof {
            reveal_strlit("A");
        }
        "A"
    } else if d == 11 {
        proof {
            reveal_strlit("B");
        }
        "B"
    } else if d == 12 {
        proof {
            reveal_strlit("C");
        }
        "C"
    } else if d == 13 {
        proof {
            reveal_strlit("D");
        }
        "D"
    } else if d == 14 {
        proof {
            reveal_strlit("E");
        }
        "E"
    } else {
        proof {
            reveal_strlit("F");
        }
        "F"
    }
}

/// Appends the decimal text of `n` to `s`.
pub fn push_decimal(s: &mut String, n: u64)
    ensures
        final(s)@ == old(s)@ + decimal(n as nat),
    decreases n,
{
    if n >= 10 {
        push_decimal(s, n / 10);
    }
    s.append(digit_str(n % 10));
    assert(s@ =~= old(s)@ + decimal(n as nat));
}

/// Appends the eight upper-case hexadecimal digits of `x` to `s`.
pub fn push_hex8(s: &mut String, x: u32)
    ensures
        final(s)@ == old(s)@ + hex8(x),
{
    let ghost s0 = s@;
    let mut i: u32 = 0;
    while i < 8
        invariant
            0 <= i <= 8,
            s@ == s0 + hex8(x).subrange(0, i as int),
        decreases 8 - i,
    {
        let d = (x >> (28 - 4 * i)) & 0xf;
        assert(d < 16) by (bit_vector)
            requires
                d == (x >> ((28 - 4 * i) as u32)) & 0xf,
        ;
        s.append(digit_str(d as u64));
        assert(s@ =~= s0 + hex8(x).subrange(0, i + 1));
        i = i + 1;
    }
    assert(hex8(x).subrange(0, 8) =~= hex8(x));
}

} // verus!
