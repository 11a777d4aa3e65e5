use vstd::prelude::*;

use crate::arith::{expected, expected_plain, OpKind};
use crate::outcome::OperationOutcome;
use crate::registry::Registry;
use crate::width::Width;

verus! {

/// One run of the harness at one width, on two plaintext inputs.
pub struct Experiment {
    width: Width,
    a: u64,
    b: u64,
}

/// Why two inputs cannot form an experiment.
#[derive(Clone, Copy, Debug, PartialEq, Eq, Structural)]
pub enum InputError {
    /// The first input does not fit the width.
    FirstOutOfRange,
    /// The second input does not fit the width.
    SecondOutOfRange,
}

/// How a decrypted outcome compares with the plaintext model.
#[derive(Clone, Copy, Debug, PartialEq, Eq, Structural)]
pub enum Verdict {
    /// The decrypted result is the one the model gives.
    Agrees,
    /// The decrypted result differs from `expected`.
    Disagrees { expected: u64 },
    /// The operation faulted; there is nothing to compare.
    Faulted,
    /// The model leaves this result to the scheme (a quotient by zero).
    Unchecked,
}

/// The verdict on `outcome` of an operation of `kind` on `a` and `b` at `w`.
pub open spec fn verdict_of(
    kind: OpKind,
    w: Width,
    a: nat,
    b: nat,
    outcome: OperationOutcome,
) -> Verdict {
    match outcome {
        OperationOutcome::Failure { .. } => Verdict::Faulted,
        OperationOutcome::Success { value, .. } => match expected(kind, w, a, b) {
            None => Verdict::Unchecked,
            Some(e) => if e == value as nat {
                Verdict::Agrees
            } else {
                Verdict::Disagrees { expected: e as u64 }
            },
        },
    }
}

impl Experiment {
    pub closed spec fn spec_width(&self) -> Width {
        self.width
    }

    pub closed spec fn spec_a(&self) -> nat {
        self.a as nat
    }

    pub closed spec fn spec_b(&self) -> nat {
        self.b as nat
    }

    /// Well-formed: both inputs are plaintexts of the width.
    pub open spec fn wf(&self) -> bool {
        self.spec_width().holds(self.spec_a()) && self.spec_width().holds(self.spec_b())
    }

    /// An experiment at `width` on `a` and `b`; an input that does not fit the
    /// width is rejected, the first one before the second.
    pub fn new(width: Width, a: u64, b: u64) -> (r: Result<Experiment, InputError>)
        ensures
            r matches Ok(e) ==> {
                &&& e.wf()
                &&& e.spec_width() == width
                &&& e.spec_a() == a
                &&& e.spec_b() == b
            },
            r == Err::<Experiment, _>(InputError::FirstOutOfRange) <==> !width.holds(a as nat),
            r == Err::<Experiment, _>(InputError::SecondOutOfRange) <==> width.holds(a as nat)
                && !width.holds(b as nat),
    {
        if !width.fits(a) {
            Err(InputError::FirstOutOfRange)
        } else if !width.fits(b) {
            Err(InputError::SecondOutOfRange)
        } else {
            Ok(Experiment { width, a, b })
        }
    }

    pub fn width(&self) -> (r: Width)
        ensures
            r == self.spec_width(),
    {
        self.width
    }

    pub fn a(&self) -> (r: u64)
        ensures
            r == self.spec_a(),
    {
        self.a
    }

    pub fn b(&self) -> (r: u64)
        ensures
            r == self.spec_b(),
    {
        self.b
    }

    /// The verdict on one outcome of an operation of `kind`.
    pub fn judge(&self, kind: OpKind, outcome: &OperationOutcome) -> (r: Verdict)
        requires
            self.wf(),
        ensures
            r == verdict_of(kind, self.spec_width(), self.spec_a(), self.spec_b(), *outcome),
    {
        match outcome {
            OperationOutcome::Failure { .. } => Verdict::Faulted,
            OperationOutcome::Success { value, .. } => {
                match expected_plain(kind, self.width, self.a, self.b) {
                    None => Verdict::Unchecked,
                    Some(e) => if e == *value {
                        Verdict::Agrees
                    } else {
                        Verdict::Disagrees { expected: e }
                    },
                }
            },
        }
    }

    /// The verdicts on the outcomes of `reg`, listed in registry order.
    pub fn judge_all(&self, reg: &Registry, out: &Vec<OperationOutcome>) -> (r: Vec<Verdict>)
        requires
            self.wf(),
            out@.len() == reg@.len(),
        ensures
            r@.len() == reg@.len(),
            forall|i: int|
                0 <= i < r@.len() ==> r@[i] == verdict_of(
                    reg@[i].kind,
                    self.spec_width(),
                    self.spec_a(),
                    self.spec_b(),
                    out@[i],
                ),
    {
        let n = reg.len();
        let mut r: Vec<Verdict> = Vec::new();
        let mut i: usize = 0;
        while i < n
            invariant
                self.wf(),
                n == reg@.len(),
                out@.len() == n,
                i <= n,
                r@.len() == i,
                forall|k: int|
                    0 <= k < i ==> r@[k] == verdict_of(
                        reg@[k].kind,
                        self.spec_width(),
                        self.spec_a(),
                        self.spec_b(),
                        out@[k],
                    ),
            decreases n - i,
        {
            let v = self.judge(reg.get(i).kind, &out[i]);
            r.push(v);
            i = i + 1;
        }
        r
    }
}

} // verus!
