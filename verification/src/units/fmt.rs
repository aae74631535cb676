//! Integers written with thousands separators.

use vstd::prelude::*;

verus! {

/// The character of one decimal digit.
pub open spec fn digit_char(d: int) -> char {
    ((48 + d) as u8) as char
}

/// The decimal digits of `n`, without leading zeros.
pub open spec fn decimal(n: nat) -> Seq<char>
    decreases n,
{
    if n < 10 {
        seq![digit_char(n as int)]
    } else {
        decimal(n / 10).push(digit_char((n % 10) as int))
    }
}

/// A number below 1000 written with exactly three digits.
pub open spec fn three_digits(n: nat) -> Seq<char> {
    seq![
        digit_char((n / 100) as int),
        digit_char(((n / 10) % 10) as int),
        digit_char((n % 10) as int),
    ]
}

/// The digits of `n` with a comma before every group of three that is not
/// the first.
pub open spec fn grouped(n: nat) -> Seq<char>
    decreases n,
{
    if n < 1000 {
        decimal(n)
    } else {
        grouped(n / 1000) + seq![','] + three_digits(n % 1000)
    }
}

/// `n` with thousands separators, and a minus sign where it is negative.
pub open spec fn thousands(n: int) -> Seq<char> {
    if n < 0 {
        seq!['-'] + grouped((-n) as nat)
    } else {
        grouped(n as nat)
    }
}

/// The groups that follow the leading one, the last collected first.
pub open spec fn trailing_groups(groups: Seq<u64>) -> Seq<char>
    decreases groups.len(),
{
    if groups.len() == 0 {
        Seq::empty()
    } else {
        seq![','] + three_digits(groups.last() as nat) + trailing_groups(groups.drop_last())
    }
}

/// `String::push` of std: the string gains `c` at its end and is otherwise
/// unchanged.
#[verifier::external_body]
pub(crate) fn push_char(s: &mut String, c: char)
    ensures
        final(s)@ == old(s)@.push(c),
{
    s.push(c);
}

fn digit(d: u64) -> (c: char)
    requires
        d < 10,
    ensures
        c == digit_char(d as int),
{
    let b: u8 = 48u8 + (d as u8);
    b as char
}

/// The digits collected so far, the last collected first.
pub open spec fn collected_digits(digits: Seq<u64>) -> Seq<char>
    decreases digits.len(),
{
    if digits.len() == 0 {
        Seq::empty()
    } else {
        seq![digit_char(digits.last() as int)] + collected_digits(digits.drop_last())
    }
}

/// Writes `n` in decimal at the end of `s`.
pub fn push_number(s: &mut String, n: u64)
    ensures
        final(s)@ == old(s)@ + decimal(n as nat),
{
    let mut rest: u64 = n;
    let mut digits: Vec<u64> = Vec::new();
    while rest >= 10
        invariant
            decimal(n as nat) == decimal(rest as nat) + collected_digits(digits@),
            forall|i: int| 0 <= i < digits@.len() ==> digits@[i] < 10,
        decreases rest,
    {
        let ghost before = digits@;
        digits.push(rest % 10);
        proof {
            assert(digits@.drop_last() == before);
            assert(decimal(rest as nat) == decimal((rest / 10) as nat).push(
                digit_char((rest % 10) as int),
            ));
            assert(collected_digits(digits@) == seq![digit_char((rest % 10) as int)]
                + collected_digits(before));
            assert(decimal(rest as nat) + collected_digits(before) == decimal((rest / 10) as nat)
                + collected_digits(digits@));
        }
        rest = rest / 10;
    }
    push_char(s, digit(rest));
    assert(decimal(rest as nat) == seq![digit_char(rest as int)]);
    let mut i: usize = digits.len();
    assert(digits@.take(i as int) == digits@);
    while i > 0
        invariant
            i <= digits@.len(),
            forall|k: int| 0 <= k < digits@.len() ==> digits@[k] < 10,
            s@ + collected_digits(digits@.take(i as int)) == old(s)@ + decimal(rest as nat)
                + collected_digits(digits@),
        decreases i,
    {
        let ghost head = digits@.take(i as int);
        i = i - 1;
        let ghost before = s@;
        push_char(s, digit(digits[i]));
        proof {
            assert(head.last() == digits@[i as int]);
            assert(head.drop_last() == digits@.take(i as int));
            assert(collected_digits(head) == seq![digit_char(digits@[i as int] as int)]
                + collected_digits(digits@.take(i as int)));
            assert(s@ + collected_digits(digits@.take(i as int)) == before + collected_digits(
                head,
            ));
        }
    }
    proof {
        assert(digits@.take(0) == Seq::<u64>::empty());
        assert(s@ + Seq::<char>::empty() == s@);
    }
}

fn push_group(s: &mut String, n: u64)
    requires
        n < 1000,
    ensures
        final(s)@ == old(s)@ + seq![','] + three_digits(n as nat),
{
    push_char(s, ',');
    push_char(s, digit(n / 100));
    push_char(s, digit((n / 10) % 10));
    push_char(s, digit(n % 10));
    assert(final(s)@ == old(s)@ + seq![','] + three_digits(n as nat));
}

/// Writes `n` in decimal with a comma between groups of three digits:
/// `1234567` becomes `1,234,567`, and `-1000` becomes `-1,000`.
pub fn format_thousands(n: i64) -> (s: String)
    ensures
        s@ == thousands(n as int),
{
    let negative: bool = n < 0;
    let size: u64 = if n >= 0 {
        n as u64
    } else if n == i64::MIN {
        9223372036854775808u64
    } else {
        (-n) as u64
    };
    let mut rest: u64 = size;
    let mut groups: Vec<u64> = Vec::new();
    while rest >= 1000
        invariant
            grouped(size as nat) == grouped(rest as nat) + trailing_groups(groups@),
            forall|i: int| 0 <= i < groups@.len() ==> groups@[i] < 1000,
        decreases rest,
    {
        let ghost before = groups@;
        groups.push(rest % 1000);
        proof {
            assert(groups@.drop_last() == before);
            assert(grouped(rest as nat) == grouped((rest / 1000) as nat) + seq![','] + three_digits(
                (rest % 1000) as nat,
            ));
            assert(trailing_groups(groups@) == seq![','] + three_digits((rest % 1000) as nat)
                + trailing_groups(before));
            assert(grouped(rest as nat) + trailing_groups(before) == grouped((rest / 1000) as nat)
                + trailing_groups(groups@));
        }
        rest = rest / 1000;
    }
    let mut out = String::new();
    if negative {
        push_char(&mut out, '-');
    }
    let ghost sign: Seq<char> = if negative {
        seq!['-']
    } else {
        Seq::empty()
    };
    assert(out@ == sign);
    assert(grouped(rest as nat) == decimal(rest as nat));
    push_number(&mut out, rest);
    let mut i: usize = groups.len();
    assert(groups@.take(i as int) == groups@);
    while i > 0
        invariant
            i <= groups@.len(),
            forall|k: int| 0 <= k < groups@.len() ==> groups@[k] < 1000,
            out@ + trailing_groups(groups@.take(i as int)) == sign + grouped(rest as nat)
                + trailing_groups(groups@),
        decreases i,
    {
        let ghost head = groups@.take(i as int);
        i = i - 1;
        let ghost before = out@;
        push_group(&mut out, groups[i]);
        proof {
            assert(head.last() == groups@[i as int]);
            assert(head.drop_last() == groups@.take(i as int));
            assert(trailing_groups(head) == seq![','] + three_digits(groups@[i as int] as nat)
                + trailing_groups(groups@.take(i as int)));
            assert(out@ + trailing_groups(groups@.take(i as int)) == before + trailing_groups(head));
        }
    }
    proof {
        assert(groups@.take(0) == Seq::<u64>::empty());
        assert(out@ + Seq::<char>::empty() == out@);
    }
    out
}

} // verus!
