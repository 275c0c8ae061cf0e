//! Decimal rendering of integers, used to assemble session tokens.

use vstd::prelude::*;

verus! {

/// The character for one decimal digit.
pub open spec fn digit_char(d: nat) -> char {
    if d == 0 {
        '0'
    } else if d == 1 {
        '1'
    } else if d == 2 {
        '2'
    } else if d == 3 {
        '3'
    } else if d == 4 {
        '4'
    } else if d == 5 {
        '5'
    } else if d == 6 {
        '6'
    } else if d == 7 {
        '7'
    } else if d == 8 {
        '8'
    } else {
        '9'
    }
}

/// The decimal digits of `n`, most significant first, without leading
/// zeros (a single `'0'` for zero).
pub open spec fn spec_u64_dec(n: nat) -> Seq<char>
    decreases n,
{
    if n < 10 {
        seq![digit_char(n)]
    } else {
        spec_u64_dec(n / 10).push(digit_char(n % 10))
    }
}

/// The decimal rendering of a signed value: a `'-'` before the digits of
/// its magnitude when negative.
pub open spec fn spec_i64_dec(n: int) -> Seq<char> {
    if n >= 0 {
        spec_u64_dec(n as nat)
    } else {
        seq!['-'] + spec_u64_dec((-n) as nat)
    }
}

fn digit_str(d: u64) -> (r: &'static str)
    requires
        d < 10,
    ensures
        r@ == seq![digit_char(d as nat)],
{
    let r: &'static str = match d {
        0 => "0",
        1 => "1",
        2 => "2",
        3 => "3",
        4 => "4",
        5 => "5",
        6 => "6",
        7 => "7",
        8 => "8",
        _ => "9",
    };
    proof {
        reveal_strlit("0");
        reveal_strlit("1");
        reveal_strlit("2");
        reveal_strlit("3");
        reveal_strlit("4");
        reveal_strlit("5");
        reveal_strlit("6");
        reveal_strlit("7");
        reveal_strlit("8");
        reveal_strlit("9");
        assert(r@ =~= seq![digit_char(d as nat)]);
    }
    r
}

/// Whether `c` is a decimal digit.
pub open spec fn is_dec_digit(c: char) -> bool {
    c == '0' || c == '1' || c == '2' || c == '3' || c == '4' || c == '5' || c == '6' || c == '7'
        || c == '8' || c == '9'
}

/// Every character of the unsigned rendering is a decimal digit.
pub proof fn lemma_u64_dec_digits(n: nat)
    ensures
        forall|i: int|
            0 <= i < spec_u64_dec(n).len() ==> is_dec_digit(#[trigger] spec_u64_dec(n)[i]),
    decreases n,
{
    if n >= 10 {
        lemma_u64_dec_digits(n / 10);
        let p = spec_u64_dec(n / 10);
        let s = spec_u64_dec(n);
        assert forall|i: int| 0 <= i < s.len() implies is_dec_digit(s[i]) by {
            if i < p.len() {
                assert(s[i] == p[i]);
            } else {
                assert(s[i] == digit_char(n % 10));
            }
        }
    }
}

/// The rendering has at least one character, and at least two from ten up.
pub proof fn lemma_u64_dec_len(n: nat)
    ensures
        spec_u64_dec(n).len() >= 1,
        n >= 10 ==> spec_u64_dec(n).len() >= 2,
    decreases n,
{
    if n >= 10 {
        lemma_u64_dec_len(n / 10);
    }
}

/// Law: the unsigned decimal rendering is injective.
pub proof fn lemma_u64_dec_injective(a: nat, b: nat)
    requires
        spec_u64_dec(a) == spec_u64_dec(b),
    ensures
        a == b,
    decreases a,
{
    if a < 10 && b < 10 {
        assert(spec_u64_dec(a) == seq![digit_char(a)]);
        assert(spec_u64_dec(b) == seq![digit_char(b)]);
        assert(seq![digit_char(a)][0] == digit_char(a));
        assert(seq![digit_char(b)][0] == digit_char(b));
        assert(digit_char(a) == digit_char(b));
        assert(a == b);
    } else if a < 10 {
        lemma_u64_dec_len(b);
        assert(spec_u64_dec(a).len() == 1);
        assert(false);
    } else if b < 10 {
        lemma_u64_dec_len(a);
        assert(spec_u64_dec(b).len() == 1);
        assert(false);
    } else {
        let pa = spec_u64_dec(a / 10);
        let pb = spec_u64_dec(b / 10);
        assert(spec_u64_dec(a).last() == digit_char(a % 10));
        assert(spec_u64_dec(b).last() == digit_char(b % 10));
        assert(a % 10 == b % 10);
        assert(spec_u64_dec(a).drop_last() =~= pa);
        assert(spec_u64_dec(b).drop_last() =~= pb);
        lemma_u64_dec_injective(a / 10, b / 10);
    }
}

/// No character of a signed rendering is a colon.
pub proof fn lemma_i64_dec_no_colon(n: int)
    ensures
        forall|i: int| 0 <= i < spec_i64_dec(n).len() ==> #[trigger] spec_i64_dec(n)[i] != ':',
{
    if n >= 0 {
        lemma_u64_dec_digits(n as nat);
    } else {
        lemma_u64_dec_digits((-n) as nat);
        let s = spec_i64_dec(n);
        let d = spec_u64_dec((-n) as nat);
        assert forall|i: int| 0 <= i < s.len() implies s[i] != ':' by {
            if i == 0 {
                assert(s[0] == '-');
            } else {
                assert(s[i] == d[i - 1]);
            }
        }
    }
}

/// Law: the signed decimal rendering is injective.
pub proof fn lemma_i64_dec_injective(a: int, b: int)
    requires
        spec_i64_dec(a) == spec_i64_dec(b),
    ensures
        a == b,
{
    if a >= 0 && b >= 0 {
        lemma_u64_dec_injective(a as nat, b as nat);
    } else if a < 0 && b < 0 {
        let da = spec_u64_dec((-a) as nat);
        let db = spec_u64_dec((-b) as nat);
        assert(da =~= spec_i64_dec(a).subrange(1, spec_i64_dec(a).len() as int));
        assert(db =~= spec_i64_dec(b).subrange(1, spec_i64_dec(b).len() as int));
        lemma_u64_dec_injective((-a) as nat, (-b) as nat);
    } else if a >= 0 {
        lemma_u64_dec_digits(a as nat);
        lemma_u64_dec_len(a as nat);
        assert(spec_i64_dec(b)[0] == '-');
        assert(is_dec_digit(spec_i64_dec(a)[0]));
        assert(false);
    } else {
        lemma_u64_dec_digits(b as nat);
        lemma_u64_dec_len(b as nat);
        assert(spec_i64_dec(a)[0] == '-');
        assert(is_dec_digit(spec_i64_dec(b)[0]));
        assert(false);
    }
}

/// Renders `n` in decimal.
pub fn u64_to_dec(n: u64) -> (r: String)
    ensures
        r@ == spec_u64_dec(n as nat),
    decreases n,
{
    if n < 10 {
        let r = digit_str(n).to_owned();
        r
    } else {
        let mut s = u64_to_dec(n / 10);
        s.append(digit_str(n % 10));
        proof {
            assert(s@ =~= spec_u64_dec(n as nat));
        }
        s
    }
}

/// Renders `n` in decimal, with a leading `'-'` when negative.
pub fn i64_to_dec(n: i64) -> (r: String)
    ensures
        r@ == spec_i64_dec(n as int),
{
    if n >= 0 {
        u64_to_dec(n as u64)
    } else {
        let mag: u64 = ((-(n + 1)) as u64) + 1;
        assert(mag as nat == (-(n as int)) as nat);
        let mut s = "-".to_owned();
        let d = u64_to_dec(mag);
        s.append(d.as_str());
        proof {
            reveal_strlit("-");
            assert(s@ =~= spec_i64_dec(n as int));
        }
        s
    }
}

} // verus!
