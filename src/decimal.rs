//! Exact fixed-point decimals: an integer mantissa and a count of fractional
//! digits, parsed and rendered by `rust_decimal`.
use vstd::prelude::*;

verus! {

/// Largest magnitude of a mantissa: 2^96 - 1.
pub const MAX_MANTISSA: i128 = 79228162514264337593543950335;

/// Largest number of fractional digits.
pub const MAX_SCALE: u32 = 28;

pub open spec fn is_digit(c: char) -> bool {
    '0' <= c && c <= '9'
}

pub open spec fn all_digits(s: Seq<char>) -> bool {
    forall|i: int| 0 <= i < s.len() ==> is_digit(#[trigger] s[i])
}

/// Value of a string of decimal digits.
pub open spec fn digits_value(s: Seq<char>) -> int
    decreases s.len(),
{
    if s.len() == 0 {
        0
    } else {
        digits_value(s.drop_last()) * 10 + ((s.last() as u32) as int - 48)
    }
}

pub open spec fn pow10(n: nat) -> int
    decreases n,
{
    if n == 0 {
        1
    } else {
        10 * pow10((n - 1) as nat)
    }
}

/// A string of `n` digits has a value below `10^n`, and at least `10^(n-1)`
/// when it does not start with zero.
proof fn lemma_digits_bounds(s: Seq<char>)
    requires
        all_digits(s),
    ensures
        0 <= digits_value(s) < pow10(s.len()),
        s.len() > 0 && s[0] != '0' ==> pow10((s.len() - 1) as nat) <= digits_value(s),
    decreases s.len(),
{
    if s.len() > 0 {
        let p = s.drop_last();
        assert(all_digits(p)) by {
            assert forall|i: int| 0 <= i < p.len() implies is_digit(p[i]) by {
                assert(p[i] == s[i]);
            }
        }
        lemma_digits_bounds(p);
        assert(is_digit(s[s.len() - 1]));
        let d = (s.last() as u32) as int - 48;
        assert(0 <= d < 10);
        let v = digits_value(p);
        assert(digits_value(s) == v * 10 + d);
        assert(pow10(s.len()) == 10 * pow10(p.len()));
        assert(v * 10 + d < 10 * pow10(p.len())) by (nonlinear_arith)
            requires
                v < pow10(p.len()),
                0 <= d < 10,
        ;
        if s[0] != '0' && p.len() > 0 {
            assert(p[0] == s[0]);
            assert(pow10(p.len()) == 10 * pow10((p.len() - 1) as nat));
            assert(pow10((p.len() - 1) as nat) * 10 <= v * 10 + d) by (nonlinear_arith)
                requires
                    pow10((p.len() - 1) as nat) <= v,
                    0 <= d,
            ;
        }
        if s[0] != '0' && p.len() == 0 {
            assert(s.last() == s[0]);
            assert(s[0] != '0' && is_digit(s[0]));
            assert((s[0] as u32) != 48u32);
        }
    }
}

/// Two digit strings without a leading zero that have the same value are
/// the same string.
proof fn lemma_digits_injective(s: Seq<char>, r: Seq<char>)
    requires
        all_digits(s),
        all_digits(r),
        s.len() > 0,
        r.len() > 0,
        s[0] != '0',
        r[0] != '0',
        digits_value(s) == digits_value(r),
    ensures
        s == r,
    decreases s.len(),
{
    lemma_digits_bounds(s);
    lemma_digits_bounds(r);
    if s.len() < r.len() {
        lemma_pow10_monotone(s.len(), (r.len() - 1) as nat);
    } else if r.len() < s.len() {
        lemma_pow10_monotone(r.len(), (s.len() - 1) as nat);
    } else {
        let ps = s.drop_last();
        let pr = r.drop_last();
        assert(is_digit(s[s.len() - 1]));
        assert(is_digit(r[r.len() - 1]));
        let ds = (s.last() as u32) as int - 48;
        let dr = (r.last() as u32) as int - 48;
        let vs = digits_value(ps);
        let vr = digits_value(pr);
        assert(vs * 10 + ds == vr * 10 + dr);
        assert(vs == vr && ds == dr) by (nonlinear_arith)
            requires
                vs * 10 + ds == vr * 10 + dr,
                0 <= ds < 10,
                0 <= dr < 10,
        ;
        assert(s.last() == r.last());
        if s.len() > 1 {
            assert(all_digits(ps)) by {
                assert forall|i: int| 0 <= i < ps.len() implies is_digit(ps[i]) by {
                    assert(ps[i] == s[i]);
                }
            }
            assert(all_digits(pr)) by {
                assert forall|i: int| 0 <= i < pr.len() implies is_digit(pr[i]) by {
                    assert(pr[i] == r[i]);
                }
            }
            assert(ps[0] == s[0]);
            assert(pr[0] == r[0]);
            lemma_digits_injective(ps, pr);
        }
        assert(s =~= r) by {
            assert forall|i: int| 0 <= i < s.len() implies s[i] == r[i] by {
                if i < s.len() - 1 {
                    assert(s[i] == ps[i]);
                    assert(r[i] == pr[i]);
                }
            }
        }
    }
}

proof fn lemma_pow10_monotone(a: nat, b: nat)
    requires
        a <= b,
    ensures
        pow10(a) <= pow10(b),
    decreases b - a,
{
    if a < b {
        lemma_pow10_monotone(a, (b - 1) as nat);
        assert(pow10(b) == 10 * pow10((b - 1) as nat));
        lemma_pow10_positive((b - 1) as nat);
    }
}

proof fn lemma_pow10_positive(n: nat)
    ensures
        pow10(n) > 0,
    decreases n,
{
    if n > 0 {
        lemma_pow10_positive((n - 1) as nat);
    }
}

/// Reading an integer literal of at most 17 digits with no leading zero and
/// writing the decimal back gives the literal again: whatever `to_text` may
/// return for a positive integer at scale 0 (digits, no leading zero, that
/// value) is, for the value `parse` reads from `s`, `s` itself.
pub proof fn lemma_integer_round_trip(s: Seq<char>, text: Seq<char>)
    requires
        all_digits(s),
        1 <= s.len() <= 17,
        s[0] != '0',
        all_digits(text),
        text.len() > 0,
        text[0] != '0',
        digits_value(text) == digits_value(s),
    ensures
        text == s,
{
    lemma_digits_injective(s, text);
}

/// What `rust_decimal` makes of a literal: its mantissa and scale, or `None`
/// where the text is no decimal number.
pub uninterp spec fn decimal_of(s: Seq<char>) -> Option<(int, nat)>;

/// How `rust_decimal` writes the decimal with the given mantissa and scale.
pub uninterp spec fn decimal_text(m: int, k: nat) -> Seq<char>;

/// Relies on `rust_decimal::Decimal::from_str`: a literal of an optional sign,
/// digits and at most one point. It fails on empty text and, where no
/// exponent mark occurs, on a first character that is neither a digit, a
/// point nor a sign; up to 17 plain digits give that integer at scale 0.
#[verifier::external_body]
fn parse_decimal(s: &str) -> (r: Option<Dec>)
    ensures
        r is Some ==> decimal_of(s@) == Some(r->Some_0@) && r->Some_0.wf(),
        r is None <==> decimal_of(s@) is None,
        s@.len() == 0 ==> r is None,
        (s@.len() > 0 && !is_digit(s@[0]) && s@[0] != '.' && s@[0] != '-' && s@[0] != '+'
            && !s@.contains('e') && !s@.contains('E')) ==> r is None,
        (all_digits(s@) && 1 <= s@.len() <= 17) ==> r is Some && r->Some_0@.0 == digits_value(s@)
            && r->Some_0@.1 == 0,
{
    match <rust_decimal::Decimal as std::str::FromStr>::from_str(s) {
        Ok(d) => Some(Dec { mantissa: d.mantissa(), scale: d.scale() }),
        Err(_) => None,
    }
}

/// Relies on `rust_decimal::Decimal::from_i128_with_scale` (which panics out
/// of range) and its `Display`: a positive integer at scale 0 is written as
/// its digits, with no leading zero.
#[verifier::external_body]
fn render_decimal(m: i128, k: u32) -> (r: String)
    requires
        k <= MAX_SCALE,
        -MAX_MANTISSA <= m <= MAX_MANTISSA,
    ensures
        r@ == decimal_text(m as int, k as nat),
        (k == 0 && m > 0) ==> all_digits(r@) && r@.len() > 0 && r@[0] != '0' && digits_value(r@)
            == m as int,
{
    rust_decimal::Decimal::from_i128_with_scale(m, k).to_string()
}

/// An exact decimal number: `mantissa / 10^scale`.
#[derive(Clone, Copy, Debug, PartialEq, Eq)]
pub struct Dec {
    mantissa: i128,
    scale: u32,
}

impl View for Dec {
    type V = (int, nat);

    closed spec fn view(&self) -> (int, nat) {
        (self.mantissa as int, self.scale as nat)
    }
}

impl Dec {
    /// Mantissa and scale lie in the range a decimal can hold.
    pub closed spec fn wf(&self) -> bool {
        self.scale <= MAX_SCALE && -MAX_MANTISSA <= self.mantissa <= MAX_MANTISSA
    }

    pub fn zero() -> (r: Dec)
        ensures
            r@ == (0int, 0nat),
            r.wf(),
    {
        Dec { mantissa: 0, scale: 0 }
    }

    pub fn mantissa(&self) -> (r: i128)
        ensures
            r as int == self@.0,
    {
        self.mantissa
    }

    pub fn scale(&self) -> (r: u32)
        ensures
            r as nat == self@.1,
    {
        self.scale
    }

    /// Reads a decimal literal; `None` where it is not one.
    pub fn parse(s: &str) -> (r: Option<Dec>)
        ensures
            match r {
                Some(d) => decimal_of(s@) == Some(d@) && d.wf(),
                None => decimal_of(s@) is None,
            },
            s@.len() == 0 ==> r is None,
            (s@.len() > 0 && !is_digit(s@[0]) && s@[0] != '.' && s@[0] != '-' && s@[0] != '+'
                && !s@.contains('e') && !s@.contains('E')) ==> r is None,
            (all_digits(s@) && 1 <= s@.len() <= 17) ==> (r matches Some(d) && d@.0 == digits_value(
                s@,
            ) && d@.1 == 0),
    {
        parse_decimal(s)
    }

    /// The decimal written as text, without loss.
    pub fn to_text(&self) -> (r: String)
        requires
            self.wf(),
        ensures
            r@ == decimal_text(self@.0, self@.1),
            (self@.1 == 0 && self@.0 > 0) ==> all_digits(r@) && r@.len() > 0 && r@[0] != '0'
                && digits_value(r@) == self@.0,
    {
        render_decimal(self.mantissa, self.scale)
    }
}

} // verus!
