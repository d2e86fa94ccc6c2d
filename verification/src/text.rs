use vstd::prelude::*;

verus! {

/// The ASCII digit for `d` (0..=9).
pub open spec fn digit_char(d: nat) -> char {
    ('0' as nat + d) as char
}

/// Decimal notation of a natural number, without leading zeros.
pub open spec fn decimal(n: nat) -> Seq<char>
    decreases n,
{
    if n < 10 {
        seq![digit_char(n)]
    } else {
        decimal(n / 10).push(digit_char(n % 10))
    }
}

/// Decimal notation padded with zeros to at least two digits.
pub open spec fn two_digit(n: nat) -> Seq<char> {
    if n < 10 {
        seq!['0', digit_char(n)]
    } else {
        decimal(n)
    }
}

fn digit_str(d: u64) -> (s: &'static str)
    requires
        d < 10,
    ensures
        s@ == seq![digit_char(d as nat)],
{
    if d == 0 {
        proof { reveal_strlit("0"); }
        "0"
    } else if d == 1 {
        proof { reveal_strlit("1"); }
        "1"
    } else if d == 2 {
        proof { reveal_strlit("2"); }
        "2"
    } else if d == 3 {
        proof { reveal_strlit("3"); }
        "3"
    } else if d == 4 {
        proof { reveal_strlit("4"); }
        "4"
    } else if d == 5 {
        proof { reveal_strlit("5"); }
        "5"
    } else if d == 6 {
        proof { reveal_strlit("6"); }
        "6"
    } else if d == 7 {
        proof { reveal_strlit("7"); }
        "7"
    } else if d == 8 {
        proof { reveal_strlit("8"); }
        "8"
    } else {
        proof { reveal_strlit("9"); }
        "9"
    }
}

/// Appends the decimal notation of `n` to `out`.
fn push_decimal(out: &mut String, n: u64)
    ensures
        final(out)@ == old(out)@ + decimal(n as nat),
    decreases n,
{
    if n < 10 {
        out.append(digit_str(n));
    } else {
        push_decimal(out, n / 10);
        out.append(digit_str(n % 10));
    }
}

/// Decimal notation of `n`.
pub fn decimal_text(n: u64) -> (s: String)
    ensures
        s@ == decimal(n as nat),
{
    let mut s = String::new();
    push_decimal(&mut s, n);
    assert(s@ =~= decimal(n as nat));
    s
}

/// Appends `n` padded to two digits.
fn push_two_digit(out: &mut String, n: u64)
    ensures
        final(out)@ == old(out)@ + two_digit(n as nat),
{
    if n < 10 {
        proof { reveal_strlit("0"); }
        out.append("0");
        out.append(digit_str(n));
        assert(final(out)@ =~= old(out)@ + two_digit(n as nat));
    } else {
        push_decimal(out, n);
    }
}

/// The percentage clamped to 0..=100.
pub open spec fn clamp_percent(value: int) -> nat {
    if value < 0 {
        0
    } else if value > 100 {
        100
    } else {
        value as nat
    }
}

/// `"<n> %"` for the percentage clamped to 0..=100.
pub open spec fn percent_spec(value: int) -> Seq<char> {
    decimal(clamp_percent(value)) + seq![' ', '%']
}

/// A whole percentage as shown in the widget: clamped to 0..=100, then `"<n> %"`.
/// The caller rounds a fractional percentage to the nearest whole number first.
pub fn percent_text(value: i64) -> (s: String)
    ensures
        s@ == percent_spec(value as int),
{
    let clamped: u64 = if value < 0 {
        0
    } else if value > 100 {
        100
    } else {
        value as u64
    };
    let mut s = String::new();
    push_decimal(&mut s, clamped);
    proof { reveal_strlit(" %"); }
    s.append(" %");
    assert(s@ =~= percent_spec(value as int));
    s
}

/// The whole minutes left, never negative.
pub open spec fn remaining_minutes(total: int) -> nat {
    if total < 0 {
        0
    } else {
        total as nat
    }
}

/// The countdown shown until the usage limit resets: `"<d>일 <h>시간"` when at
/// least a day is left, else `"hh:mm"`.
pub open spec fn countdown_spec(total_minutes: int) -> Seq<char> {
    let m = remaining_minutes(total_minutes);
    let total_hours = m / 60;
    let days = total_hours / 24;
    let hours = total_hours % 24;
    let minutes = m % 60;
    if days > 0 {
        decimal(days) + seq!['일', ' '] + decimal(hours) + seq!['시', '간']
    } else {
        two_digit(hours) + seq![':'] + two_digit(minutes)
    }
}

/// The countdown text for a number of whole minutes until the reset (negative
/// counts as zero).
pub fn countdown_label(total_minutes: i64) -> (s: String)
    ensures
        s@ == countdown_spec(total_minutes as int),
{
    let m: u64 = if total_minutes < 0 {
        0
    } else {
        total_minutes as u64
    };
    let total_hours = m / 60;
    let days = total_hours / 24;
    let hours = total_hours % 24;
    let minutes = m % 60;
    let mut s = String::new();
    if days > 0 {
        push_decimal(&mut s, days);
        proof { reveal_strlit("일 "); }
        s.append("일 ");
        push_decimal(&mut s, hours);
        proof { reveal_strlit("시간"); }
        s.append("시간");
    } else {
        push_two_digit(&mut s, hours);
        proof { reveal_strlit(":"); }
        s.append(":");
        push_two_digit(&mut s, minutes);
    }
    assert(s@ =~= countdown_spec(total_minutes as int));
    s
}

/// The UTF-16 code units of one character.
pub open spec fn utf16_of_char(c: char) -> Seq<u16> {
    let v = c as u32;
    if v < 0x10000 {
        seq![v as u16]
    } else {
        let w = v - 0x10000;
        seq![(0xD800 + w / 1024) as u16, (0xDC00 + w % 1024) as u16]
    }
}

/// The UTF-16 encoding of a character sequence.
pub open spec fn utf16_units(s: Seq<char>) -> Seq<u16>
    decreases s.len(),
{
    if s.len() == 0 {
        Seq::empty()
    } else {
        utf16_units(s.drop_last()) + utf16_of_char(s.last())
    }
}

fn push_utf16(out: &mut Vec<u16>, c: char)
    ensures
        final(out)@ == old(out)@ + utf16_of_char(c),
{
    let v: u32 = c as u32;
    if v < 0x10000 {
        out.push(v as u16);
    } else {
        let w: u32 = v - 0x10000;
        out.push((0xD800 + w / 1024) as u16);
        out.push((0xDC00 + w % 1024) as u16);
    }
    assert(final(out)@ =~= old(out)@ + utf16_of_char(c));
}

/// A string as a NUL-terminated UTF-16 buffer, the form Win32 calls take.
pub fn wide(value: &str) -> (buffer: Vec<u16>)
    ensures
        buffer@ == utf16_units(value@).push(0u16),
{
    let n = value.unicode_len();
    let mut buffer: Vec<u16> = Vec::new();
    let mut i: usize = 0;
    while i < n
        invariant
            n == value@.len(),
            i <= n,
            buffer@ == utf16_units(value@.subrange(0, i as int)),
        decreases n - i,
    {
        let c = value.get_char(i);
        push_utf16(&mut buffer, c);
        proof {
            let next = value@.subrange(0, i + 1);
            assert(next.drop_last() =~= value@.subrange(0, i as int));
            assert(next.last() == c);
        }
        i = i + 1;
    }
    assert(value@.subrange(0, n as int) =~= value@);
    buffer.push(0u16);
    buffer
}

/// Every character encodes to one or two units; a NUL-free string yields a
/// buffer whose only zero unit is the terminator.
pub proof fn lemma_utf16_no_interior_nul(s: Seq<char>)
    requires
        forall|i: int| 0 <= i < s.len() ==> s[i] != '\0',
    ensures
        forall|k: int| 0 <= k < utf16_units(s).len() ==> utf16_units(s)[k] != 0u16,
        utf16_units(s).len() >= s.len(),
    decreases s.len(),
{
    if s.len() > 0 {
        let init = s.drop_last();
        assert forall|i: int| 0 <= i < init.len() implies init[i] != '\0' by {
            assert(init[i] == s[i]);
        }
        lemma_utf16_no_interior_nul(init);
        let c = s.last();
        assert(c == s[s.len() - 1]);
        vstd::utf8::char_is_scalar(c);
        if c as u32 == 0 {
            vstd::utf8::char_u32_cast(c, c as u32);
            vstd::utf8::char_u32_cast('\0', '\0' as u32);
        }
        assert(c as u32 != 0);
        let u = utf16_of_char(c);
        assert forall|k: int| 0 <= k < u.len() implies u[k] != 0u16 by {
            let v = c as u32;
            assert(0 < v <= 0x10FFFF);
            if v < 0x10000 {
                assert(u[0] == v as u16);
                assert(v as u16 == v);
            } else {
                let w = v - 0x10000;
                assert(0 <= w / 1024 < 1024);
                assert(0 <= w % 1024 < 1024);
                assert((0xD800 + w / 1024) as u16 == 0xD800 + w / 1024);
                assert((0xDC00 + w % 1024) as u16 == 0xDC00 + w % 1024);
            }
        }
        let all = utf16_units(s);
        assert(all == utf16_units(init) + u);
        assert forall|k: int| 0 <= k < all.len() implies all[k] != 0u16 by {
            if k < utf16_units(init).len() {
                assert(all[k] == utf16_units(init)[k]);
            } else {
                assert(all[k] == u[k - utf16_units(init).len()]);
            }
        }
    }
}

/// The countdown's parts are in range: hours below a day, minutes below an hour.
pub proof fn lemma_countdown_parts(total: int)
    ensures
        ({
            let m = remaining_minutes(total);
            &&& (m / 60) % 24 < 24
            &&& m % 60 < 60
            &&& (m / 60 / 24) * 24 * 60 + ((m / 60) % 24) * 60 + m % 60 == m
        }),
{
    let m = remaining_minutes(total);
    assert((m / 60 / 24) * 24 + (m / 60) % 24 == m / 60);
    assert((m / 60) * 60 + m % 60 == m);
    assert((m / 60 / 24) * 24 * 60 + ((m / 60) % 24) * 60 == (m / 60) * 60) by (nonlinear_arith)
        requires
            (m / 60 / 24) * 24 + (m / 60) % 24 == m / 60,
    ;
}

} // verus!
