use vstd::prelude::*;

use crate::width::Width;

verus! {

/// The arithmetic operations that a registry can exercise.
#[derive(Clone, Copy, Debug, PartialEq, Eq, Structural)]
pub enum OpKind {
    Sum,
    Difference,
    Product,
    Quotient,
}

/// The plaintext that the operation `kind` yields on `a` and `b` at width `w`,
/// wrapping around modulo 2^bits; `None` where the harness leaves the result to
/// the scheme (a quotient by zero).
pub open spec fn expected(kind: OpKind, w: Width, a: nat, b: nat) -> Option<nat> {
    let m = w.spec_modulus();
    match kind {
        OpKind::Sum => Some((a + b) % m),
        OpKind::Difference => Some(((a - b) % (m as int)) as nat),
        OpKind::Product => Some((a * b) % m),
        OpKind::Quotient => if b == 0 {
            None
        } else {
            Some(a / b)
        },
    }
}

/// Wraparound keeps results in the width: whatever the operation, a result that
/// the model gives on two plaintexts of a width is itself a plaintext of it.
pub proof fn lemma_expected_fits(kind: OpKind, w: Width, a: nat, b: nat)
    requires
        w.holds(a),
        w.holds(b),
    ensures
        expected(kind, w, a, b) matches Some(v) ==> w.holds(v),
{
    if kind == OpKind::Quotient && b != 0 {
        assert(a / b <= a) by (nonlinear_arith)
            requires b > 0;
    }
}

impl OpKind {
    /// The label under which the canonical registry lists this operation.
    pub open spec fn spec_label(self) -> Seq<char> {
        match self {
            OpKind::Sum => seq!['S', 'u', 'm'],
            OpKind::Difference => seq!['D', 'i', 'f', 'f', 'e', 'r', 'e', 'n', 'c', 'e'],
            OpKind::Product => seq!['P', 'r', 'o', 'd', 'u', 'c', 't'],
            OpKind::Quotient => seq!['Q', 'u', 'o', 't', 'i', 'e', 'n', 't'],
        }
    }

    /// Whether the operation is one of the costly ones (multiplication, division).
    pub open spec fn spec_costly(self) -> bool {
        self == OpKind::Product || self == OpKind::Quotient
    }

    pub fn label(&self) -> (r: String)
        ensures
            r@ == self.spec_label(),
    {
        match self {
            OpKind::Sum => {
                let r = "Sum".to_owned();
                proof {
                    reveal_strlit("Sum");
                    assert(r@ =~= self.spec_label());
                }
                r
            },
            OpKind::Difference => {
                let r = "Difference".to_owned();
                proof {
                    reveal_strlit("Difference");
                    assert(r@ =~= self.spec_label());
                }
                r
            },
            OpKind::Product => {
                let r = "Product".to_owned();
                proof {
                    reveal_strlit("Product");
                    assert(r@ =~= self.spec_label());
                }
                r
            },
            OpKind::Quotient => {
                let r = "Quotient".to_owned();
                proof {
                    reveal_strlit("Quotient");
                    assert(r@ =~= self.spec_label());
                }
                r
            },
        }
    }

    pub fn is_costly(&self) -> (r: bool)
        ensures
            r == self.spec_costly(),
    {
        match self {
            OpKind::Product | OpKind::Quotient => true,
            _ => false,
        }
    }
}

/// The plaintext result that `kind` owes on the plaintexts `a` and `b` of width `w`.
pub fn expected_plain(kind: OpKind, w: Width, a: u64, b: u64) -> (r: Option<u64>)
    requires
        w.holds(a as nat),
        w.holds(b as nat),
    ensures
        r matches Some(v) ==> expected(kind, w, a as nat, b as nat) == Some(v as nat),
        r is None ==> expected(kind, w, a as nat, b as nat) is None,
{
    let m = w.modulus();
    match kind {
        OpKind::Sum => Some((a + b) % m),
        OpKind::Difference => {
            if a >= b {
                Some(a - b)
            } else {
                let r = m - (b - a);
                proof {
                    let d = a as int - b as int;
                    assert(d % (m as int) == d + m) by {
                        vstd::arithmetic::div_mod::lemma_fundamental_div_mod_converse(
                            d, m as int, -1, d + m);
                    }
                }
                Some(r)
            }
        },
        OpKind::Product => {
            proof {
                assert(a * b <= 0xffff_ffff * 0xffff_ffff) by (nonlinear_arith)
                    requires a <= 0xffff_ffff, b <= 0xffff_ffff;
            }
            Some((a * b) % m)
        },
        OpKind::Quotient => if b == 0 {
            None
        } else {
            Some(a / b)
        },
    }
}

} // verus!
