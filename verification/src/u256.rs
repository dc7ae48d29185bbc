//! 256-bit unsigned integers held as four little-endian 64-bit limbs, the
//! representation that the bidding protocol puts on the wire.
use vstd::prelude::*;

verus! {

/// 2^64, the weight of one limb.
pub open spec fn limb_base() -> nat {
    0x1_0000_0000_0000_0000nat
}

/// Value of a little-endian sequence of limbs.
pub open spec fn limbs_value(limbs: Seq<u64>) -> nat
    decreases limbs.len(),
{
    if limbs.len() == 0 {
        0
    } else {
        limbs[0] as nat + limb_base() * limbs_value(limbs.drop_first())
    }
}

/// 2^256: every `U256` is below it.
pub open spec fn u256_modulus() -> nat {
    limb_base() * limb_base() * limb_base() * limb_base()
}

/// An unsigned 256-bit integer, least significant limb first.
#[derive(Clone, Copy, Debug, PartialEq, Eq)]
pub struct U256 {
    pub limbs: [u64; 4],
}

impl Default for U256 {
    fn default() -> (r: U256)
        ensures
            r@ == 0,
    {
        U256::zero()
    }
}

impl View for U256 {
    type V = nat;

    open spec fn view(&self) -> nat {
        limbs_value(self.limbs@)
    }
}

proof fn lemma_limb_step(x: int, rx: int, y: int, ry: int)
    requires
        0 <= x < limb_base(),
        0 <= y < limb_base(),
        0 <= rx,
        0 <= ry,
    ensures
        (x + limb_base() * rx < y + limb_base() * ry) <==> (rx < ry || (rx == ry && x < y)),
        (x + limb_base() * rx == y + limb_base() * ry) <==> (rx == ry && x == y),
{
    let b = limb_base() as int;
    if rx < ry {
        assert(b * rx + b <= b * ry) by (nonlinear_arith)
            requires rx < ry, b > 0;
    } else if rx > ry {
        assert(b * ry + b <= b * rx) by (nonlinear_arith)
            requires ry < rx, b > 0;
    }
}

/// The value of four limbs, unfolded.
pub proof fn lemma_value_of_four(l: Seq<u64>)
    requires
        l.len() == 4,
    ensures
        limbs_value(l) == l[0] + limb_base() * (l[1] + limb_base() * (l[2] + limb_base() * l[3])),
{
    let l1 = l.drop_first();
    let l2 = l1.drop_first();
    let l3 = l2.drop_first();
    let l4 = l3.drop_first();
    assert(l4.len() == 0);
    assert(limbs_value(l4) == 0);
    assert(limbs_value(l3) == l[3]);
    assert(limbs_value(l2) == l[2] + limb_base() * l[3]);
    assert(limbs_value(l1) == l[1] + limb_base() * (l[2] + limb_base() * l[3]));
}

/// The limb at position `i`, or zero past the end: limbs beyond the length of
/// a little-endian sequence count as zeros.
pub open spec fn limb_or_zero(limbs: Seq<u64>, i: int) -> u64 {
    if 0 <= i < limbs.len() {
        limbs[i]
    } else {
        0u64
    }
}

/// Two limb sequences that agree once padded with zeros have the same value.
pub proof fn lemma_value_ignores_zero_padding(s: Seq<u64>, t: Seq<u64>)
    requires
        forall|i: int| 0 <= i ==> #[trigger] limb_or_zero(s, i) == limb_or_zero(t, i),
    ensures
        limbs_value(s) == limbs_value(t),
    decreases s.len() + t.len(),
{
    if s.len() == 0 && t.len() == 0 {
    } else {
        let s1 = if s.len() == 0 { s } else { s.drop_first() };
        let t1 = if t.len() == 0 { t } else { t.drop_first() };
        assert forall|i: int| 0 <= i implies #[trigger] limb_or_zero(s1, i) == limb_or_zero(t1, i) by {
            assert(limb_or_zero(s, i + 1) == limb_or_zero(t, i + 1));
            if s.len() == 0 {
                assert(limb_or_zero(s, i) == limb_or_zero(t, i));
            }
            if t.len() == 0 {
                assert(limb_or_zero(s, i) == limb_or_zero(t, i));
            }
        }
        lemma_value_ignores_zero_padding(s1, t1);
        assert(limb_or_zero(s, 0) == limb_or_zero(t, 0));
    }
}

/// ruint's `Uint::<256, 4>::from_limbs_slice` (alloy's `U256`), read back with
/// `into_limbs`. The source copies the slice's limbs in order and fills the
/// remaining ones with zeros; it panics when a limb past the fourth is non-zero,
/// which `requires` leaves out.
#[verifier::external_body]
fn alloy_u256_limbs_from_slice(slice: &[u64]) -> (r: [u64; 4])
    requires
        forall|i: int| 4 <= i < slice@.len() ==> slice@[i] == 0,
    ensures
        forall|i: int| 0 <= i < 4 ==> r@[i] == limb_or_zero(slice@, i),
{
    alloy_primitives::U256::from_limbs_slice(slice).into_limbs()
}

/// Sending a value as its limbs and building it back from them gives the same
/// limbs and value: `from_limbs_slice` undoes `as_limbs_vec`.
pub proof fn lemma_limbs_round_trip(v: U256, w: U256)
    requires
        forall|i: int| 0 <= i < 4 ==> w.limbs@[i] == limb_or_zero(v.limbs@, i),
    ensures
        w.limbs@ == v.limbs@,
        w@ == v@,
{
    assert(w.limbs@ =~= v.limbs@);
}

impl U256 {
    /// Builds the integer whose little-endian limbs are `slice` (shorter slices
    /// are padded with zeros). Limbs past the fourth must be zero.
    pub fn from_limbs_slice(slice: &[u64]) -> (r: U256)
        requires
            forall|i: int| 4 <= i < slice@.len() ==> slice@[i] == 0,
        ensures
            r@ == limbs_value(slice@),
            forall|i: int| 0 <= i < 4 ==> r.limbs@[i] == limb_or_zero(slice@, i),
    {
        let limbs = alloy_u256_limbs_from_slice(slice);
        let r = U256 { limbs };
        proof {
            assert forall|i: int| 0 <= i implies #[trigger] limb_or_zero(slice@, i) == limb_or_zero(r.limbs@, i) by {
                if i < 4 {
                    assert(r.limbs@[i] == limb_or_zero(slice@, i));
                }
            }
            lemma_value_ignores_zero_padding(slice@, r.limbs@);
        }
        r
    }

    /// The four little-endian limbs as a vector.
    pub fn as_limbs_vec(&self) -> (r: Vec<u64>)
        ensures
            r@ == self.limbs@,
    {
        let mut v: Vec<u64> = Vec::new();
        v.push(self.limbs[0]);
        v.push(self.limbs[1]);
        v.push(self.limbs[2]);
        v.push(self.limbs[3]);
        assert(v@ =~= self.limbs@);
        v
    }

    /// The integer zero.
    pub fn zero() -> (r: U256)
        ensures
            r@ == 0,
            r.limbs@ == seq![0u64, 0u64, 0u64, 0u64],
    {
        let r = U256 { limbs: [0, 0, 0, 0] };
        proof {
            lemma_value_of_four(r.limbs@);
        }
        r
    }

    /// The integer `v`.
    pub fn from_u64(v: u64) -> (r: U256)
        ensures
            r@ == v,
            r.limbs@ == seq![v, 0u64, 0u64, 0u64],
    {
        let r = U256 { limbs: [v, 0, 0, 0] };
        proof {
            lemma_value_of_four(r.limbs@);
        }
        r
    }

    /// Whether the value is zero.
    pub fn is_zero(&self) -> (r: bool)
        ensures
            r == (self@ == 0),
    {
        proof {
            lemma_value_of_four(self.limbs@);
        }
        self.limbs[0] == 0 && self.limbs[1] == 0 && self.limbs[2] == 0 && self.limbs[3] == 0
    }

    /// Strict comparison of the values.
    pub fn lt(&self, other: &U256) -> (r: bool)
        ensures
            r == (self@ < other@),
    {
        let a = self.limbs;
        let b = other.limbs;
        proof {
            lemma_value_of_four(a@);
            lemma_value_of_four(b@);
            let ra2 = a[2] + limb_base() * a[3];
            let rb2 = b[2] + limb_base() * b[3];
            lemma_limb_step(a[2] as int, a[3] as int, b[2] as int, b[3] as int);
            let ra1 = a[1] + limb_base() * ra2;
            let rb1 = b[1] + limb_base() * rb2;
            lemma_limb_step(a[1] as int, ra2, b[1] as int, rb2);
            lemma_limb_step(a[0] as int, ra1, b[0] as int, rb1);
        }
        if a[3] != b[3] {
            a[3] < b[3]
        } else if a[2] != b[2] {
            a[2] < b[2]
        } else if a[1] != b[1] {
            a[1] < b[1]
        } else {
            a[0] < b[0]
        }
    }

    /// Equality of the values.
    pub fn eq_value(&self, other: &U256) -> (r: bool)
        ensures
            r == (self@ == other@),
    {
        let a = self.limbs;
        let b = other.limbs;
        proof {
            lemma_value_of_four(a@);
            lemma_value_of_four(b@);
            let ra2 = a[2] + limb_base() * a[3];
            let rb2 = b[2] + limb_base() * b[3];
            lemma_limb_step(a[2] as int, a[3] as int, b[2] as int, b[3] as int);
            let ra1 = a[1] + limb_base() * ra2;
            let rb1 = b[1] + limb_base() * rb2;
            lemma_limb_step(a[1] as int, ra2, b[1] as int, rb2);
            lemma_limb_step(a[0] as int, ra1, b[0] as int, rb1);
        }
        a[0] == b[0] && a[1] == b[1] && a[2] == b[2] && a[3] == b[3]
    }
}

} // verus!
