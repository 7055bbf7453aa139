//! Decimal seconds, as Reaper prints a play position, read without floating point.
use vstd::prelude::*;

use crate::protocol::ErrorView;
use crate::protocol::ReaperError;
use crate::text::chars_of;
use crate::text::split_text;
use crate::text::split_view;

verus! {

/// A length of time: whole seconds and the nanoseconds past them.
#[derive(Debug, Clone, Copy, PartialEq, Eq)]
pub struct TimeSpan {
    pub secs: u64,
    pub nanos: u32,
}

pub open spec fn is_digit(c: char) -> bool {
    '0' <= c && c <= '9'
}

pub open spec fn all_digits(d: Seq<char>) -> bool {
    forall|i: int| 0 <= i < d.len() ==> is_digit(#[trigger] d[i])
}

pub open spec fn digit_value(c: char) -> nat {
    (c as int - '0' as int) as nat
}

/// The number that the decimal digits `d` write.
pub open spec fn digits_value(d: Seq<char>) -> nat
    decreases d.len(),
{
    if d.len() == 0 {
        0
    } else {
        digits_value(d.drop_last()) * 10 + digit_value(d.last())
    }
}

pub open spec fn pow10(n: nat) -> nat
    decreases n,
{
    if n == 0 {
        1
    } else {
        10 * pow10((n - 1) as nat)
    }
}

/// The nanoseconds that the fraction digits `f` write; digits past the ninth are dropped.
pub open spec fn fraction_nanos(f: Seq<char>) -> nat {
    if f.len() >= 9 {
        digits_value(f.take(9))
    } else {
        digits_value(f) * pow10((9 - f.len()) as nat)
    }
}

/// The (seconds, nanoseconds) that a decimal such as `12`, `12.5` or `.5` writes;
/// none for any other text.
pub open spec fn decimal_seconds(s: Seq<char>) -> Option<(nat, nat)> {
    let p = split_view(s, '.');
    if p.len() == 1 && p[0].len() > 0 && all_digits(p[0]) {
        Some((digits_value(p[0]), 0))
    } else if p.len() == 2 && all_digits(p[0]) && all_digits(p[1]) && p[0].len() + p[1].len() > 0 {
        Some((digits_value(p[0]), fraction_nanos(p[1])))
    } else {
        None
    }
}

pub const BAD_TRANSPORT_LINE: &'static str = "transport reply has fewer than three fields";

pub const BAD_POSITION: &'static str = "transport position is not a decimal number of seconds";

/// The play position in a `TRANSPORT` reply: its third tab-separated field, in seconds.
pub open spec fn transport_position(body: Seq<char>) -> Result<(nat, nat), ErrorView> {
    let f = split_view(body, '\t');
    if f.len() < 3 {
        Err(ErrorView::Parse(BAD_TRANSPORT_LINE@))
    } else {
        match decimal_seconds(f[2]) {
            Some(v) => if v.0 <= u64::MAX {
                Ok(v)
            } else {
                Err(ErrorView::Parse(BAD_POSITION@))
            },
            None => Err(ErrorView::Parse(BAD_POSITION@)),
        }
    }
}

/// The number that the digits of `s` write, when all are digits and it fits in a `u64`.
fn parse_digits(s: &str) -> (r: Option<u64>)
    ensures
        r is Some <==> (all_digits(s@) && digits_value(s@) <= u64::MAX),
        r is Some ==> r->0 == digits_value(s@),
{
    let cs = chars_of(s);
    let mut v: u64 = 0;
    let mut i: usize = 0;
    let mut fits: bool = true;
    assert(s@.take(0) =~= Seq::<char>::empty());
    while i < cs.len()
        invariant
            cs@ == s@,
            i <= cs.len(),
            all_digits(s@.take(i as int)),
            fits ==> v == digits_value(s@.take(i as int)),
            !fits ==> digits_value(s@.take(i as int)) > u64::MAX,
        decreases cs.len() - i,
    {
        let c = cs[i];
        if !('0' <= c && c <= '9') {
            assert(!is_digit(s@[i as int]));
            return None;
        }
        let d = (c as u32 - '0' as u32) as u64;
        assert(s@.take(i + 1).drop_last() =~= s@.take(i as int));
        assert(digits_value(s@.take(i + 1)) == digits_value(s@.take(i as int)) * 10 + d);
        if fits {
            if v > (u64::MAX - d) / 10 {
                fits = false;
                assert(v * 10 + d > u64::MAX) by (nonlinear_arith)
                    requires
                        v > (u64::MAX - d) / 10,
                        d <= 9,
                ;
            } else {
                assert(v * 10 + d <= u64::MAX) by (nonlinear_arith)
                    requires
                        v <= (u64::MAX - d) / 10,
                        d <= 9,
                ;
                v = v * 10 + d;
            }
        } else {
            let ghost w = digits_value(s@.take(i as int));
            assert(w * 10 + d > u64::MAX) by (nonlinear_arith)
                requires
                    w > u64::MAX,
            ;
        }
        assert(all_digits(s@.take(i + 1))) by {
            assert forall|j: int| 0 <= j < i + 1 implies is_digit(#[trigger] s@.take(i + 1)[j]) by {
                if j < i {
                    assert(s@.take(i + 1)[j] == s@.take(i as int)[j]);
                }
            }
        }
        i = i + 1;
    }
    assert(s@.take(cs.len() as int) =~= s@);
    if fits {
        Some(v)
    } else {
        None
    }
}

/// The nanoseconds that the fraction digits `f` write, when all are digits.
fn parse_fraction(f: &str) -> (r: Option<u32>)
    ensures
        r is Some <==> all_digits(f@),
        r is Some ==> r->0 == fraction_nanos(f@),
{
    let cs = chars_of(f);
    let mut i: usize = 0;
    while i < cs.len()
        invariant
            cs@ == f@,
            i <= cs.len(),
            forall|j: int| 0 <= j < i ==> is_digit(#[trigger] f@[j]),
        decreases cs.len() - i,
    {
        if !('0' <= cs[i] && cs[i] <= '9') {
            assert(!is_digit(f@[i as int]));
            return None;
        }
        i = i + 1;
    }
    let n: usize = if cs.len() < 9 {
        cs.len()
    } else {
        9
    };
    proof {
        lemma_pow10_nine();
    }
    let mut v: u32 = 0;
    let mut i: usize = 0;
    assert(f@.take(0) =~= Seq::<char>::empty());
    while i < n
        invariant
            cs@ == f@,
            all_digits(f@),
            n <= 9,
            n <= cs.len(),
            i <= n,
            v == digits_value(f@.take(i as int)),
            v < pow10(i as nat),
            pow10(9) == 1_000_000_000,
        decreases n - i,
    {
        let d = cs[i] as u32 - '0' as u32;
        assert(is_digit(f@[i as int]));
        assert(f@.take(i + 1).drop_last() =~= f@.take(i as int));
        let ghost p = pow10(i as nat);
        proof {
            lemma_pow10_le((i + 1) as nat, 9);
        }
        assert(v * 10 + d < 10 * p) by (nonlinear_arith)
            requires
                v < p,
                d <= 9,
        ;
        v = v * 10 + d;
        i = i + 1;
    }
    let mut k: usize = n;
    let ghost base = v as nat;
    assert(base * pow10(0) == base);
    while k < 9
        invariant
            n <= k <= 9,
            v as nat == base * pow10((k - n) as nat),
            v < pow10(k as nat),
            pow10(9) == 1_000_000_000,
        decreases 9 - k,
    {
        let ghost p = pow10(k as nat);
        proof {
            lemma_pow10_le((k + 1) as nat, 9);
        }
        assert(v * 10 < 10 * p) by (nonlinear_arith)
            requires
                v < p,
        ;
        proof {
            let e = (k - n) as nat;
            assert(pow10(e + 1) == 10 * pow10(e));
            assert(base * pow10(e + 1) == base * pow10(e) * 10) by (nonlinear_arith)
                requires
                    pow10(e + 1) == 10 * pow10(e),
            ;
        }
        v = v * 10;
        k = k + 1;
    }
    if cs.len() < 9 {
        assert(f@.take(n as int) =~= f@);
    }
    Some(v)
}

proof fn lemma_pow10_le(a: nat, b: nat)
    requires
        a <= b,
    ensures
        pow10(a) <= pow10(b),
    decreases b,
{
    if a < b {
        lemma_pow10_le(a, (b - 1) as nat);
    }
}

proof fn lemma_pow10_nine()
    ensures
        pow10(9) == 1_000_000_000,
{
    assert(pow10(0) == 1);
    assert(pow10(1) == 10);
    assert(pow10(2) == 100);
    assert(pow10(3) == 1000);
    assert(pow10(4) == 10000);
    assert(pow10(5) == 100000);
    assert(pow10(6) == 1000000);
    assert(pow10(7) == 10000000);
    assert(pow10(8) == 100000000);
}

/// Reads the play position out of a `TRANSPORT` reply.
pub fn parse_transport_position(body: &str) -> (r: Result<TimeSpan, ReaperError>)
    ensures
        match transport_position(body@) {
            Ok(v) => r is Ok && r->Ok_0.secs == v.0 && r->Ok_0.nanos == v.1,
            Err(e) => r is Err && r->Err_0@ == e,
        },
{
    let f = split_text(body, '\t');
    if f.len() < 3 {
        return Err(ReaperError::Parse(String::from_str(BAD_TRANSPORT_LINE)));
    }
    let ghost fv = f@.map_values(|p: String| p@);
    assert(fv[2] == f@[2]@);
    let p = split_text(f[2].as_str(), '.');
    let ghost pv = p@.map_values(|q: String| q@);
    assert(pv[0] == p@[0]@);
    let whole = parse_digits(p[0].as_str());
    let first_len = p[0].as_str().unicode_len();
    if p.len() == 1 {
        match whole {
            Some(secs) => {
                if first_len > 0 {
                    return Ok(TimeSpan { secs, nanos: 0 });
                }
            },
            None => {},
        }
        return Err(ReaperError::Parse(String::from_str(BAD_POSITION)));
    }
    if p.len() == 2 {
        assert(pv[1] == p@[1]@);
        let frac = parse_fraction(p[1].as_str());
        let frac_len = p[1].as_str().unicode_len();
        match (whole, frac) {
            (Some(secs), Some(nanos)) => {
                if first_len > 0 || frac_len > 0 {
                    return Ok(TimeSpan { secs, nanos });
                }
            },
            _ => {},
        }
    }
    Err(ReaperError::Parse(String::from_str(BAD_POSITION)))
}

} // verus!
