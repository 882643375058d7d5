use vstd::prelude::*;

verus! {

/// Exclusive bound on the magnitude of a mantissa: 2^96.
pub const MANTISSA_BOUND: i128 = 79228162514264337593543950336;

/// Largest number of fractional digits an amount may carry.
pub const MAX_SCALE: u32 = 28;

/// 10 raised to `n`.
pub open spec fn pow10(n: nat) -> int
    decreases n,
{
    if n == 0 {
        1
    } else {
        10 * pow10((n - 1) as nat)
    }
}

pub proof fn lemma_pow10_grows(j: nat, k: nat)
    requires
        j <= k,
    ensures
        1 <= pow10(j) <= pow10(k),
        pow10(0) == 1,
    decreases k,
{
    assert(pow10(0) == 1);
    if k > j {
        lemma_pow10_grows(j, (k - 1) as nat);
    } else if j > 0 {
        lemma_pow10_grows((j - 1) as nat, (j - 1) as nat);
    }
}

/// A decimal number, `mantissa / 10^scale`, within the range of a
/// 96-bit mantissa and at most 28 fractional digits.
#[derive(Clone, Copy, Debug, PartialEq, Eq, Structural)]
pub struct Amount {
    pub mantissa: i128,
    pub scale: u32,
}

/// The larger of the two scales: both amounts are exact at it.
pub open spec fn common_scale(a: Amount, b: Amount) -> nat {
    if a.scale >= b.scale {
        a.scale as nat
    } else {
        b.scale as nat
    }
}

/// `a < b` as numbers.
pub open spec fn less(a: Amount, b: Amount) -> bool {
    a.at_scale(common_scale(a, b)) < b.at_scale(common_scale(a, b))
}

/// `a - b` as a mantissa at the common scale of the two.
pub open spec fn difference(a: Amount, b: Amount) -> int {
    a.at_scale(common_scale(a, b)) - b.at_scale(common_scale(a, b))
}

/// Whether an integer can be the mantissa of an amount.
pub open spec fn mantissa_fits(m: int) -> bool {
    -MANTISSA_BOUND < m < MANTISSA_BOUND
}

impl Amount {
    pub open spec fn wf(self) -> bool {
        &&& self.scale <= MAX_SCALE
        &&& mantissa_fits(self.mantissa as int)
    }

    /// The mantissa that gives the same number at the finer scale `s`.
    pub open spec fn at_scale(self, s: nat) -> int {
        self.mantissa * pow10((s - self.scale) as nat)
    }

    /// Whether the number is zero.
    pub open spec fn is_zero_spec(self) -> bool {
        self.mantissa == 0
    }

    /// An amount from its mantissa and scale; `None` when either is out of range.
    pub fn from_parts(mantissa: i128, scale: u32) -> (r: Option<Amount>)
        ensures
            r is Some <==> (scale <= MAX_SCALE && mantissa_fits(mantissa as int)),
            r matches Some(a) ==> a.wf() && a.mantissa == mantissa && a.scale == scale,
    {
        if scale <= MAX_SCALE && -MANTISSA_BOUND < mantissa && mantissa < MANTISSA_BOUND {
            Some(Amount { mantissa, scale })
        } else {
            None
        }
    }

    pub fn is_zero(&self) -> (r: bool)
        ensures
            r == self.is_zero_spec(),
    {
        self.mantissa == 0
    }

    /// `self < other` as numbers.
    pub fn lt(&self, other: &Amount) -> (r: bool)
        requires
            self.wf(),
            other.wf(),
        ensures
            r == less(*self, *other),
    {
        if self.scale >= other.scale {
            let k = self.scale - other.scale;
            proof {
                lemma_pow10_grows(0, 0);
                assert(common_scale(*self, *other) == self.scale);
                assert(other.at_scale(common_scale(*self, *other)) == other.mantissa * pow10(k as nat));
                assert(self.mantissa * pow10(0) == self.mantissa);
                assert(self.at_scale(common_scale(*self, *other)) == self.mantissa);
            }
            match scale_up(other.mantissa, k) {
                Some(o) => self.mantissa < o,
                None => {
                    proof {
                        lemma_sign_kept(other.mantissa as int, k as nat);
                    }
                    other.mantissa > 0
                },
            }
        } else {
            let k = other.scale - self.scale;
            proof {
                lemma_pow10_grows(0, 0);
                assert(common_scale(*self, *other) == other.scale);
                assert(self.at_scale(common_scale(*self, *other)) == self.mantissa * pow10(k as nat));
                assert(other.mantissa * pow10(0) == other.mantissa);
                assert(other.at_scale(common_scale(*self, *other)) == other.mantissa);
            }
            match scale_up(self.mantissa, k) {
                Some(s) => s < other.mantissa,
                None => {
                    proof {
                        lemma_sign_kept(self.mantissa as int, k as nat);
                    }
                    self.mantissa < 0
                },
            }
        }
    }

    /// `self - other`, exact, at the common scale of the two; `None` when the
    /// result needs a mantissa beyond the bound.
    pub fn checked_sub(&self, other: &Amount) -> (r: Option<Amount>)
        requires
            self.wf(),
            other.wf(),
        ensures
            r is Some <==> mantissa_fits(difference(*self, *other)),
            r matches Some(d) ==> d.wf() && d.scale == common_scale(*self, *other)
                && d.mantissa == difference(*self, *other),
    {
        let scale = if self.scale >= other.scale {
            self.scale
        } else {
            other.scale
        };
        proof {
            lemma_pow10_grows(0, 0);
        }
        let a = scale_up(self.mantissa, scale - self.scale);
        let b = scale_up(other.mantissa, scale - other.scale);
        match (a, b) {
            (Some(x), Some(y)) => match x.checked_sub(y) {
                Some(d) => {
                    if -MANTISSA_BOUND < d && d < MANTISSA_BOUND {
                        Some(Amount { mantissa: d, scale })
                    } else {
                        None
                    }
                },
                None => None,
            },
            _ => None,
        }
    }
}

/// `m * 10^k`, or `None` when that leaves the range of `i128`.
fn scale_up(m: i128, k: u32) -> (r: Option<i128>)
    ensures
        r matches Some(x) ==> x == m * pow10(k as nat),
        r is None ==> !(i128::MIN <= m * pow10(k as nat) <= i128::MAX),
{
    let mut cur: i128 = m;
    let mut i: u32 = 0;
    while i < k
        invariant
            i <= k,
            cur == m * pow10(i as nat),
        decreases k - i,
    {
        match cur.checked_mul(10) {
            Some(n) => {
                proof {
                    assert(m * pow10((i + 1) as nat) == (m * pow10(i as nat)) * 10)
                        by (nonlinear_arith)
                        requires
                            pow10((i + 1) as nat) == 10 * pow10(i as nat),
                    ;
                }
                cur = n;
                i = i + 1;
            },
            None => {
                proof {
                    assert(m * pow10((i + 1) as nat) == (m * pow10(i as nat)) * 10)
                        by (nonlinear_arith)
                        requires
                            pow10((i + 1) as nat) == 10 * pow10(i as nat),
                    ;
                    lemma_magnitude_grows(m as int, (i + 1) as nat, k as nat);
                }
                return None;
            },
        }
    }
    Some(cur)
}

proof fn lemma_magnitude_grows(m: int, j: nat, k: nat)
    requires
        j <= k,
    ensures
        m >= 0 ==> 0 <= m * pow10(j) <= m * pow10(k),
        m < 0 ==> m * pow10(k) <= m * pow10(j) < 0,
{
    lemma_pow10_grows(j, k);
    let pj = pow10(j);
    let pk = pow10(k);
    assert(m >= 0 ==> 0 <= m * pj <= m * pk) by (nonlinear_arith)
        requires
            1 <= pj <= pk,
    ;
    assert(m < 0 ==> m * pk <= m * pj < 0) by (nonlinear_arith)
        requires
            1 <= pj <= pk,
    ;
}

proof fn lemma_sign_kept(m: int, k: nat)
    ensures
        m > 0 ==> m * pow10(k) >= m,
        m <= 0 ==> m * pow10(k) <= m,
        m == 0 ==> m * pow10(k) == 0,
{
    lemma_pow10_grows(0, k);
    lemma_magnitude_grows(m, 0, k);
}

} // verus!
