use vstd::prelude::*;

verus! {

/// An exact fixed-point number, `(-1)^negative * mantissa / 10^scale`,
/// shaped like the 96-bit decimal of the arithmetic library that parses and
/// renders it: the mantissa fits in 96 bits and the scale is at most 28.
#[derive(Debug, Clone, Copy)]
pub struct Dec {
    pub negative: bool,
    pub mantissa: u128,
    pub scale: u32,
}

/// 10^e.
pub open spec fn pow10(e: nat) -> nat
    decreases e,
{
    if e == 0 {
        1
    } else {
        10 * pow10((e - 1) as nat)
    }
}

/// 2^96, the exclusive bound on a decimal's mantissa.
pub open spec fn mantissa_bound() -> nat {
    0x1000000000000000000000000
}

/// The largest scale a decimal can carry.
pub const MAX_DEC_SCALE: u32 = 28;

impl Dec {
    /// The representation invariant every `Dec` in a `Value` satisfies.
    pub open spec fn wf(self) -> bool {
        self.mantissa < mantissa_bound() && self.scale <= MAX_DEC_SCALE
    }

    /// The mantissa with its sign applied: the number's value times 10^scale.
    pub open spec fn signed_mantissa(self) -> int {
        if self.negative {
            -(self.mantissa as int)
        } else {
            self.mantissa as int
        }
    }

    /// True when the fractional part is zero, i.e. the value is an integer.
    pub open spec fn spec_is_integral(self) -> bool {
        (self.mantissa as int) % (pow10(self.scale as nat) as int) == 0
    }

    /// The integer part's magnitude (truncation toward zero).
    pub open spec fn spec_trunc_abs(self) -> int {
        (self.mantissa as int) / (pow10(self.scale as nat) as int)
    }

    /// The value truncated toward zero, as a mathematical integer.
    pub open spec fn spec_trunc(self) -> int {
        if self.negative {
            -self.spec_trunc_abs()
        } else {
            self.spec_trunc_abs()
        }
    }
}

/// Two decimals denote the same number: cross-multiplied mantissas agree.
pub open spec fn dec_val_eq(a: Dec, b: Dec) -> bool {
    a.signed_mantissa() * pow10(b.scale as nat) == b.signed_mantissa() * pow10(a.scale as nat)
}

proof fn lemma_pow10_pos(e: nat)
    ensures
        pow10(e) >= 1,
    decreases e,
{
    if e > 0 {
        lemma_pow10_pos((e - 1) as nat);
    }
}

proof fn lemma_pow10_adds(a: nat, b: nat)
    ensures
        pow10(a + b) == pow10(a) * pow10(b),
    decreases a,
{
    if a == 0 {
        assert(pow10(0 + b) == 1 * pow10(b));
    } else {
        lemma_pow10_adds((a - 1) as nat, b);
        assert(pow10(a + b) == 10 * pow10((a + b - 1) as nat));
        assert(pow10((a - 1) as nat + b) == pow10((a - 1) as nat) * pow10(b));
        assert(pow10(a) * pow10(b) == 10 * (pow10((a - 1) as nat) * pow10(b)))
            by (nonlinear_arith)
            requires
                pow10(a) == 10 * pow10((a - 1) as nat),
        ;
    }
}

proof fn lemma_pow10_le(a: nat, b: nat)
    requires
        a <= b,
    ensures
        pow10(a) <= pow10(b),
{
    lemma_pow10_adds(a, (b - a) as nat);
    lemma_pow10_pos((b - a) as nat);
    lemma_pow10_pos(a);
    assert(pow10(a) * 1 <= pow10(a) * pow10((b - a) as nat)) by (nonlinear_arith)
        requires
            pow10(a) >= 1,
            pow10((b - a) as nat) >= 1,
    ;
}

/// pow10 values up to 38 stated as literals, by unwinding the definition.
proof fn lemma_pow10_38()
    ensures
        pow10(28) == 10_000_000_000_000_000_000_000_000_000,
        pow10(38) == 100_000_000_000_000_000_000_000_000_000_000_000_000,
        pow10(38) < u128::MAX,
{
    assert(pow10(0) == 1);
    assert(pow10(1) == 10);
    assert(pow10(2) == 100);
    assert(pow10(3) == 1000);
    assert(pow10(4) == 10000);
    assert(pow10(5) == 100000);
    assert(pow10(6) == 1000000);
    assert(pow10(7) == 10000000);
    assert(pow10(8) == 100000000);
    assert(pow10(9) == 1000000000);
    assert(pow10(10) == 10000000000);
    assert(pow10(11) == 100000000000);
    assert(pow10(12) == 1000000000000);
    assert(pow10(13) == 10000000000000);
    assert(pow10(14) == 100000000000000);
    assert(pow10(15) == 1000000000000000);
    assert(pow10(16) == 10000000000000000);
    assert(pow10(17) == 100000000000000000);
    assert(pow10(18) == 1000000000000000000);
    assert(pow10(19) == 10000000000000000000);
    assert(pow10(20) == 100000000000000000000);
    assert(pow10(21) == 1000000000000000000000);
    assert(pow10(22) == 10000000000000000000000);
    assert(pow10(23) == 100000000000000000000000);
    assert(pow10(24) == 1000000000000000000000000);
    assert(pow10(25) == 10000000000000000000000000);
    assert(pow10(26) == 100000000000000000000000000);
    assert(pow10(27) == 1000000000000000000000000000);
    assert(pow10(28) == 10000000000000000000000000000);
    assert(pow10(29) == 100000000000000000000000000000);
    assert(pow10(30) == 1000000000000000000000000000000);
    assert(pow10(31) == 10000000000000000000000000000000);
    assert(pow10(32) == 100000000000000000000000000000000);
    assert(pow10(33) == 1000000000000000000000000000000000);
    assert(pow10(34) == 10000000000000000000000000000000000);
    assert(pow10(35) == 100000000000000000000000000000000000);
    assert(pow10(36) == 1000000000000000000000000000000000000);
    assert(pow10(37) == 10000000000000000000000000000000000000);
    assert(pow10(38) == 100000000000000000000000000000000000000);
}

/// 10^e for every exponent whose power still fits the mantissa type.
pub fn pow10_u128(e: u32) -> (r: u128)
    requires
        e <= 38,
    ensures
        r == pow10(e as nat),
{
    let mut acc: u128 = 1;
    let mut i: u32 = 0;
    while i < e
        invariant
            i <= e,
            e <= 38,
            acc == pow10(i as nat),
        decreases e - i,
    {
        proof {
            lemma_pow10_38();
            lemma_pow10_le((i + 1) as nat, 38);
        }
        acc = acc * 10;
        i = i + 1;
    }
    acc
}

impl Dec {
    /// The decimal `num / 10^scale`, written as the decimal library's
    /// two-argument constructor spells it.
    pub fn new(num: i64, scale: u32) -> (r: Dec)
        requires
            scale <= MAX_DEC_SCALE,
        ensures
            r.wf(),
            r.negative == (num < 0),
            r.mantissa == if num < 0 {
                -(num as int)
            } else {
                num as int
            },
            r.scale == scale,
    {
        let mantissa: u128 = if num < 0 {
            if num == i64::MIN {
                9223372036854775808u128
            } else {
                (-num) as u128
            }
        } else {
            num as u128
        };
        Dec { negative: num < 0, mantissa, scale }
    }

    /// True when the fractional part is zero.
    pub fn is_integral(&self) -> (r: bool)
        requires
            self.wf(),
        ensures
            r == self.spec_is_integral(),
    {
        let p = pow10_u128(self.scale);
        proof {
            lemma_pow10_pos(self.scale as nat);
        }
        self.mantissa % p == 0
    }

    /// The integer part's magnitude.
    pub fn trunc_abs(&self) -> (r: u128)
        requires
            self.wf(),
        ensures
            r == self.spec_trunc_abs(),
    {
        let p = pow10_u128(self.scale);
        proof {
            lemma_pow10_pos(self.scale as nat);
        }
        self.mantissa / p
    }
}

/// The magnitude comparison `lo.mantissa * 10^(hi.scale - lo.scale) ==
/// hi.mantissa` decides value equality for two nonzero decimals of the same
/// sign, where `lo` names the operand with the smaller scale.
proof fn lemma_dec_eq_reduces(a: Dec, b: Dec, lo: Dec, hi: Dec)
    requires
        a.negative == b.negative,
        lo.scale <= hi.scale,
        (lo == a && hi == b) || (lo == b && hi == a),
    ensures
        dec_val_eq(a, b) == ((lo.mantissa as int) * (pow10((hi.scale - lo.scale) as nat) as int)
            == hi.mantissa as int),
{
    let f = pow10((hi.scale - lo.scale) as nat) as int;
    let pl = pow10(lo.scale as nat) as int;
    let ph = pow10(hi.scale as nat) as int;
    lemma_pow10_pos(lo.scale as nat);
    lemma_pow10_adds(lo.scale as nat, (hi.scale - lo.scale) as nat);
    assert(ph == pl * f);
    let lm = lo.mantissa as int;
    let hm = hi.mantissa as int;
    // lm * ph == hm * pl  <==>  lm * f == hm, cancelling the positive pl.
    assert((lm * ph == hm * pl) == (lm * f == hm)) by (nonlinear_arith)
        requires
            ph == pl * f,
            pl >= 1,
    ;
    if a.negative {
        let sa = a.signed_mantissa();
        let sb = b.signed_mantissa();
        assert((sa * ph == sb * pl) == ((a.mantissa as int) * ph == (b.mantissa as int) * pl))
            by (nonlinear_arith)
            requires
                sa == -(a.mantissa as int),
                sb == -(b.mantissa as int),
        ;
        assert((sa * pl == sb * ph) == ((a.mantissa as int) * pl == (b.mantissa as int) * ph))
            by (nonlinear_arith)
            requires
                sa == -(a.mantissa as int),
                sb == -(b.mantissa as int),
        ;
    }
}

impl PartialEq for Dec {
    /// Numeric equality: `1.0` equals `1.00`, and a negative zero equals zero.
    fn eq(&self, other: &Dec) -> (r: bool)
        ensures
            r == dec_val_eq(*self, *other),
    {
        proof {
            lemma_pow10_pos(self.scale as nat);
            lemma_pow10_pos(other.scale as nat);
        }
        let ghost ps = pow10(self.scale as nat) as int;
        let ghost po = pow10(other.scale as nat) as int;
        if self.mantissa == 0 && other.mantissa == 0 {
            return true;
        }
        let ghost sa = self.signed_mantissa();
        let ghost sb = other.signed_mantissa();
        if self.mantissa == 0 || other.mantissa == 0 {
            proof {
                if self.mantissa == 0 {
                    assert(sa * po == 0) by (nonlinear_arith)
                        requires
                            sa == 0,
                    ;
                    assert(sb * ps != 0) by (nonlinear_arith)
                        requires
                            sb != 0,
                            ps >= 1,
                    ;
                } else {
                    assert(sb * ps == 0) by (nonlinear_arith)
                        requires
                            sb == 0,
                    ;
                    assert(sa * po != 0) by (nonlinear_arith)
                        requires
                            sa != 0,
                            po >= 1,
                    ;
                }
            }
            return false;
        }
        if self.negative != other.negative {
            proof {
                assert(sa * po != sb * ps) by (nonlinear_arith)
                    requires
                        po >= 1,
                        ps >= 1,
                        (sa > 0 && sb < 0) || (sa < 0 && sb > 0),
                ;
            }
            return false;
        }
        // Same sign, both nonzero: scale the smaller-scale mantissa up and
        // compare; a product that overflows cannot match the other mantissa.
        let (lo, hi): (&Dec, &Dec) = if self.scale <= other.scale {
            (self, other)
        } else {
            (other, self)
        };
        let diff = hi.scale - lo.scale;
        proof {
            lemma_dec_eq_reduces(*self, *other, *lo, *hi);
        }
        if diff > 38 {
            // 10^39 alone exceeds the mantissa type, and the mantissa is
            // nonzero, so the scaled value cannot match.
            proof {
                lemma_pow10_38();
                lemma_pow10_le(39, diff as nat);
                assert((lo.mantissa as int) * (pow10(diff as nat) as int) >= pow10(
                    diff as nat,
                ) as int) by (nonlinear_arith)
                    requires
                        lo.mantissa as int >= 1,
                        pow10(diff as nat) as int >= 1,
                ;
                assert(pow10(39) == 10 * pow10(38));
            }
            return false;
        }
        let factor = pow10_u128(diff);
        match lo.mantissa.checked_mul(factor) {
            Some(scaled) => scaled == hi.mantissa,
            None => {
                proof {
                    assert(hi.mantissa as int <= u128::MAX as int);
                }
                false
            },
        }
    }
}

impl vstd::std_specs::cmp::PartialEqSpecImpl for Dec {
    open spec fn obeys_eq_spec() -> bool {
        true
    }

    open spec fn eq_spec(&self, other: &Dec) -> bool {
        dec_val_eq(*self, *other)
    }
}

/// What the decimal library's exact parser returns on a text: the sign,
/// 96-bit mantissa and scale of the parsed number, or the library's error
/// message prefixed as the parse diagnostics spell it.
pub uninterp spec fn dec_parse_of(s: Seq<char>) -> Result<(bool, u128, u32), Seq<char>>;

/// What the decimal library renders a (sign, mantissa, scale) triple as.
pub uninterp spec fn dec_render_of(negative: bool, mantissa: u128, scale: u32) -> Seq<char>;

/// Relies on rust_decimal's `Decimal::from_str_exact`: an exact,
/// non-rounding parse whose result carries a 96-bit mantissa and a scale of
/// at most 28; `mantissa`, `scale` and `is_sign_negative` take the parts out.
#[verifier::external_body]
pub fn dec_from_str(s: &str) -> (r: Result<Dec, String>)
    ensures
        match r {
            Ok(d) => dec_parse_of(s@) == Ok::<_, Seq<char>>(
                (d.negative, d.mantissa, d.scale),
            ) && d.wf(),
            Err(e) => dec_parse_of(s@) == Err::<(bool, u128, u32), _>(e@),
        },
{
    match rust_decimal::Decimal::from_str_exact(s) {
        Ok(d) => Ok(Dec {
            negative: d.is_sign_negative(),
            mantissa: d.mantissa().unsigned_abs(),
            scale: d.scale(),
        }),
        Err(oe) => Err(format!("Original error: {oe}")),
    }
}

/// Relies on rust_decimal's `Decimal::from_i128_with_scale` and its
/// `Display`: the canonical rendering of the number, trailing zeros kept.
#[verifier::external_body]
pub fn dec_to_string(d: &Dec) -> (r: String)
    requires
        d.wf(),
    ensures
        r@ == dec_render_of(d.negative, d.mantissa, d.scale),
{
    let mut m = d.mantissa as i128;
    if d.negative {
        m = -m;
    }
    rust_decimal::Decimal::from_i128_with_scale(m, d.scale).to_string()
}

} // verus!
