//! Text for the Windows API: UTF-16 with a terminating NUL, and decimal numbers.
use vstd::prelude::*;

verus! {

/// The UTF-16 code units of one character: one unit below 0x10000, else a
/// surrogate pair.
pub open spec fn utf16_units(c: char) -> Seq<u16> {
    let v = c as int;
    if v < 0x10000 {
        seq![v as u16]
    } else {
        let w = v - 0x10000;
        seq![(0xD800 + w / 1024) as u16, (0xDC00 + w % 1024) as u16]
    }
}

/// The UTF-16 encoding of a string.
pub open spec fn utf16_of(s: Seq<char>) -> Seq<u16>
    decreases s.len(),
{
    if s.len() == 0 {
        Seq::empty()
    } else {
        utf16_of(s.drop_last()) + utf16_units(s.last())
    }
}

fn push_utf16(out: &mut Vec<u16>, c: char)
    ensures
        final(out)@ == old(out)@ + utf16_units(c),
{
    let v = c as u32;
    if v < 0x10000 {
        out.push(v as u16);
    } else {
        let w = v - 0x10000;
        out.push((0xD800 + w / 1024) as u16);
        out.push((0xDC00 + w % 1024) as u16);
    }
    assert(final(out)@ =~= old(out)@ + utf16_units(c));
}

/// Encode a string as UTF-16 with a terminating NUL, as the wide-character
/// Windows functions take it.
pub fn encode_utf16(s: &str) -> (units: Vec<u16>)
    ensures
        units@ == utf16_of(s@).push(0),
{
    let mut units: Vec<u16> = Vec::new();
    for c in it: s.chars()
        invariant
            it.seq() == s@,
            units@ == utf16_of(s@.take(it.index() as int)),
    {
        push_utf16(&mut units, c);
        assert(s@.take(it.index() + 1).drop_last() =~= s@.take(it.index() as int));
    }
    assert(s@.take(s@.len() as int) =~= s@);
    units.push(0);
    units
}

/// The character of a decimal digit.
pub open spec fn digit_char(d: int) -> char {
    if d == 0 {
        '0'
    } else if d == 1 {
        '1'
    } else if d == 2 {
        '2'
    } else if d == 3 {
        '3'
    } else if d == 4 {
        '4'
    } else if d == 5 {
        '5'
    } else if d == 6 {
        '6'
    } else if d == 7 {
        '7'
    } else if d == 8 {
        '8'
    } else {
        '9'
    }
}

/// The decimal digits of a number, most significant first, without leading zeros.
pub open spec fn decimal(n: nat) -> Seq<char>
    decreases n,
{
    if n < 10 {
        seq![digit_char(n as int)]
    } else {
        decimal(n / 10).push(digit_char((n % 10) as int))
    }
}

fn digit_str(d: u32) -> (s: &'static str)
    requires
        d < 10,
    ensures
        s@ == seq![digit_char(d as int)],
{
    proof {
        reveal_strlit("0");
        reveal_strlit("1");
        reveal_strlit("2");
        reveal_strlit("3");
        reveal_strlit("4");
        reveal_strlit("5");
        reveal_strlit("6");
        reveal_strlit("7");
        reveal_strlit("8");
        reveal_strlit("9");
    }
    match d {
        0 => "0",
        1 => "1",
        2 => "2",
        3 => "3",
        4 => "4",
        5 => "5",
        6 => "6",
        7 => "7",
        8 => "8",
        _ => "9",
    }
}

/// Append the decimal digits of `n`.
pub fn append_decimal(text: &mut String, n: u32)
    ensures
        final(text)@ == old(text)@ + decimal(n as nat),
    decreases n,
{
    if n >= 10 {
        append_decimal(text, n / 10);
    }
    text.append(digit_str(n % 10));
    assert(final(text)@ =~= old(text)@ + decimal(n as nat));
}

// ---------------------------------------------------------------------------
// Laws
// ---------------------------------------------------------------------------

/// A character below U+10000 is the one unit of its code; any other is a
/// surrogate pair (a high unit 0xD800..0xDBFF, then a low unit
/// 0xDC00..0xDFFF) from which the code is recovered.
pub proof fn lemma_utf16_of_char(c: char)
    ensures
        (c as int) < 0x10000 ==> utf16_of(seq![c]) == seq![(c as int) as u16],
        (c as int) >= 0x10000 ==> ({
            let u = utf16_of(seq![c]);
            &&& u.len() == 2
            &&& 0xD800 <= u[0] <= 0xDBFF
            &&& 0xDC00 <= u[1] <= 0xDFFF
            &&& 0x10000 + (u[0] - 0xD800) * 0x400 + (u[1] - 0xDC00) == c as int
        }),
{
    let one = seq![c];
    assert(one.drop_last() =~= Seq::<char>::empty());
    assert(one.last() == c);
    assert(utf16_of(one.drop_last()) == Seq::<u16>::empty());
    assert(utf16_of(one) =~= utf16_units(c));
    assert(c as int <= 0x10FFFF);
}

/// Encoding a concatenation is concatenating the encodings.
pub proof fn lemma_utf16_of_concat(s: Seq<char>, t: Seq<char>)
    ensures
        utf16_of(s + t) == utf16_of(s) + utf16_of(t),
    decreases t.len(),
{
    if t.len() == 0 {
        assert(s + t =~= s);
        assert(utf16_of(s) + utf16_of(t) =~= utf16_of(s));
    } else {
        assert((s + t).drop_last() =~= s + t.drop_last());
        lemma_utf16_of_concat(s, t.drop_last());
        assert(utf16_of(s + t) =~= utf16_of(s) + utf16_of(t));
    }
}

/// A string of characters below U+10000 encodes as one unit per character,
/// each the character's code.
pub proof fn lemma_utf16_of_bmp(s: Seq<char>)
    requires
        forall|i: int| 0 <= i < s.len() ==> (#[trigger] s[i] as int) < 0x10000,
    ensures
        utf16_of(s).len() == s.len(),
        forall|i: int| 0 <= i < s.len() ==> #[trigger] utf16_of(s)[i] == (s[i] as int) as u16,
    decreases s.len(),
{
    if s.len() > 0 {
        let p = s.drop_last();
        assert forall|i: int| 0 <= i < p.len() implies (#[trigger] p[i] as int) < 0x10000 by {
            assert(p[i] == s[i]);
        }
        lemma_utf16_of_bmp(p);
        assert(s.last() == s[s.len() - 1]);
    }
}

/// The number that a string of decimal digits denotes.
pub open spec fn digits_value(s: Seq<char>) -> int
    decreases s.len(),
{
    if s.len() == 0 {
        0
    } else {
        digits_value(s.drop_last()) * 10 + (s.last() as int - 0x30)
    }
}

proof fn lemma_digit_char(d: int)
    requires
        0 <= d < 10,
    ensures
        digit_char(d) as int == 0x30 + d,
{
    assert('0' as int == 0x30);
    assert('1' as int == 0x31);
    assert('2' as int == 0x32);
    assert('3' as int == 0x33);
    assert('4' as int == 0x34);
    assert('5' as int == 0x35);
    assert('6' as int == 0x36);
    assert('7' as int == 0x37);
    assert('8' as int == 0x38);
    assert('9' as int == 0x39);
}

/// The decimal form of `n` is made of the digits '0' to '9', denotes `n`, and
/// starts with '0' only for 0 itself.
pub proof fn lemma_decimal(n: nat)
    ensures
        decimal(n).len() >= 1,
        forall|i: int| 0 <= i < decimal(n).len() ==> 0x30 <= #[trigger] decimal(n)[i] as int <= 0x39,
        digits_value(decimal(n)) == n,
        n > 0 ==> decimal(n)[0] as int != 0x30,
        n == 0 ==> decimal(n) == seq!['0'],
    decreases n,
{
    lemma_digit_char((n % 10) as int);
    if n >= 10 {
        lemma_decimal(n / 10);
        let d = decimal(n);
        assert(d.drop_last() =~= decimal(n / 10));
        assert forall|i: int| 0 <= i < d.len() implies 0x30 <= #[trigger] d[i] as int <= 0x39 by {
            if i < d.len() - 1 {
                assert(d[i] == decimal(n / 10)[i]);
            }
        }
        assert(d[0] == decimal(n / 10)[0]);
        assert(d.last() == digit_char((n % 10) as int));
        assert(digits_value(d) == digits_value(decimal(n / 10)) * 10 + (n % 10));
    } else {
        let d = seq![digit_char(n as int)];
        assert(d.drop_last() =~= Seq::<char>::empty());
        assert(digits_value(d.drop_last()) == 0);
        assert(d.last() == digit_char(n as int));
        assert(decimal(n) == d);
        assert(digits_value(d) == n);
    }
}

} // verus!
