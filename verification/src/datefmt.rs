use vstd::prelude::*;

verus! {

/// Calendar date and time fields for one resolved date-time value.
#[derive(Clone, Copy, PartialEq, Eq, Structural, Debug)]
pub struct DateParts {
    pub year: i32,
    pub month: u32,
    pub day: u32,
    pub hour: u32,
    pub minute: u32,
    pub second: u32,
}

/// The character for one decimal digit.
pub open spec fn spec_digit(d: nat) -> char {
    if d == 0 {
        '0'
    } else if d == 1 {
        '1'
    } else if d == 2 {
        '2'
    } else if d == 3 {
        '3'
    } else if d == 4 {
        '4'
    } else if d == 5 {
        '5'
    } else if d == 6 {
        '6'
    } else if d == 7 {
        '7'
    } else if d == 8 {
        '8'
    } else {
        '9'
    }
}

/// Decimal rendering of a natural number, most significant digit first,
/// with no leading zeros (a single `0` for zero itself).
pub open spec fn spec_dec(n: nat) -> Seq<char>
    decreases n,
{
    if n < 10 {
        seq![spec_digit(n)]
    } else {
        spec_dec(n / 10).push(spec_digit(n % 10))
    }
}

/// Decimal rendering, zero-padded on the left to at least `w` characters.
pub open spec fn spec_pad(n: nat, w: nat) -> Seq<char> {
    if spec_dec(n).len() >= w {
        spec_dec(n)
    } else {
        Seq::new((w - spec_dec(n).len()) as nat, |i: int| '0') + spec_dec(n)
    }
}

/// A calendar year: at least four digits, with a leading `-` when negative.
pub open spec fn spec_year(y: int) -> Seq<char> {
    if y < 0 {
        seq!['-'] + spec_pad((-y) as nat, 4)
    } else {
        spec_pad(y as nat, 4)
    }
}

/// The `YYYY-MM-DDTHH:MM:SS` rendering of a date-time: zero-padded fields,
/// 24-hour clock, no time zone suffix and no fractional seconds.
pub open spec fn spec_datetime(p: DateParts) -> Seq<char> {
    spec_year(p.year as int) + seq!['-'] + spec_pad(p.month as nat, 2) + seq!['-'] + spec_pad(
        p.day as nat,
        2,
    ) + seq!['T'] + spec_pad(p.hour as nat, 2) + seq![':'] + spec_pad(p.minute as nat, 2)
        + seq![':'] + spec_pad(p.second as nat, 2)
}

/// Relies on std's `String::push`: appends exactly one character at the end.
#[verifier::external_body]
fn push_char(s: &mut String, c: char)
    ensures
        final(s)@ == old(s)@ + seq![c],
{
    s.push(c);
}

fn digit_char(d: u64) -> (c: char)
    requires
        d < 10,
    ensures
        c == spec_digit(d as nat),
{
    if d == 0 {
        '0'
    } else if d == 1 {
        '1'
    } else if d == 2 {
        '2'
    } else if d == 3 {
        '3'
    } else if d == 4 {
        '4'
    } else if d == 5 {
        '5'
    } else if d == 6 {
        '6'
    } else if d == 7 {
        '7'
    } else if d == 8 {
        '8'
    } else {
        '9'
    }
}

fn push_dec(s: &mut String, n: u64)
    ensures
        final(s)@ == old(s)@ + spec_dec(n as nat),
    decreases n,
{
    if n >= 10 {
        push_dec(s, n / 10);
        push_char(s, digit_char(n % 10));
        proof {
            assert(s@ =~= old(s)@ + spec_dec(n as nat));
        }
    } else {
        push_char(s, digit_char(n));
        proof {
            assert(s@ =~= old(s)@ + spec_dec(n as nat));
        }
    }
}

proof fn lemma_dec_len_pos(n: nat)
    ensures
        spec_dec(n).len() >= 1,
    decreases n,
{
    if n >= 10 {
        lemma_dec_len_pos(n / 10);
    }
}

fn push_pad2(s: &mut String, n: u64)
    ensures
        final(s)@ == old(s)@ + spec_pad(n as nat, 2),
{
    if n < 10 {
        push_char(s, '0');
        push_char(s, digit_char(n));
        proof {
            assert(s@ =~= old(s)@ + spec_pad(n as nat, 2));
        }
    } else {
        proof {
            lemma_dec_len_pos(n as nat / 10);
        }
        push_dec(s, n);
    }
}

fn push_pad4(s: &mut String, n: u64)
    ensures
        final(s)@ == old(s)@ + spec_pad(n as nat, 4),
{
    proof {
        lemma_dec_len_pos(n as nat);
        if n >= 10 {
            lemma_dec_len_pos(n as nat / 10);
        }
        if n >= 100 {
            lemma_dec_len_pos(n as nat / 10 / 10);
            assert(n as nat / 10 / 10 == n as nat / 100) by (nonlinear_arith);
        }
        if n >= 1000 {
            lemma_dec_len_pos(n as nat / 10 / 10 / 10);
            assert(n as nat / 10 / 10 / 10 == n as nat / 1000) by (nonlinear_arith);
        }
    }
    if n < 10 {
        push_char(s, '0');
        push_char(s, '0');
        push_char(s, '0');
        push_char(s, digit_char(n));
        proof {
            assert(s@ =~= old(s)@ + spec_pad(n as nat, 4));
        }
    } else if n < 100 {
        push_char(s, '0');
        push_char(s, '0');
        push_dec(s, n);
        proof {
            assert(s@ =~= old(s)@ + spec_pad(n as nat, 4));
        }
    } else if n < 1000 {
        push_char(s, '0');
        push_dec(s, n);
        proof {
            assert(s@ =~= old(s)@ + spec_pad(n as nat, 4));
        }
    } else {
        push_dec(s, n);
    }
}

/// Renders resolved calendar fields as `YYYY-MM-DDTHH:MM:SS`.
pub fn format_datetime(p: DateParts) -> (s: String)
    ensures
        s@ == spec_datetime(p),
{
    let mut s = String::new();
    if p.year < 0 {
        push_char(&mut s, '-');
        let mag: i64 = -(p.year as i64);
        push_pad4(&mut s, mag as u64);
    } else {
        push_pad4(&mut s, p.year as u64);
    }
    push_char(&mut s, '-');
    push_pad2(&mut s, p.month as u64);
    push_char(&mut s, '-');
    push_pad2(&mut s, p.day as u64);
    push_char(&mut s, 'T');
    push_pad2(&mut s, p.hour as u64);
    push_char(&mut s, ':');
    push_pad2(&mut s, p.minute as u64);
    push_char(&mut s, ':');
    push_pad2(&mut s, p.second as u64);
    proof {
        assert(s@ =~= spec_datetime(p));
    }
    s
}

} // verus!
