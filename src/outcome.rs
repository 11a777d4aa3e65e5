use vstd::prelude::*;

use crate::registry::{has_name, Registry};

verus! {

/// What one run of an operation gave back when it did not fault: the time the
/// arithmetic took and the decrypted result.
#[derive(Clone, Copy, Debug, PartialEq, Eq, Structural)]
pub struct RunRecord {
    pub elapsed_nanos: u64,
    pub value: u64,
}

/// The per-operation result that the harness reports.
pub enum OperationOutcome {
    Success { name: String, elapsed_nanos: u64, value: u64 },
    Failure { name: String, fault: String },
}

/// The outcome that a run of the operation `name` settles into: a success with
/// its record, or a failure that carries the fault's description.
pub open spec fn settled(name: String, run: Result<RunRecord, String>) -> OperationOutcome {
    match run {
        Ok(rec) => OperationOutcome::Success {
            name,
            elapsed_nanos: rec.elapsed_nanos,
            value: rec.value,
        },
        Err(fault) => OperationOutcome::Failure { name, fault },
    }
}

impl OperationOutcome {
    pub open spec fn spec_name(&self) -> Seq<char> {
        match self {
            OperationOutcome::Success { name, .. } => name@,
            OperationOutcome::Failure { name, .. } => name@,
        }
    }

    pub fn name(&self) -> (r: &String)
        ensures
            r@ == self.spec_name(),
    {
        match self {
            OperationOutcome::Success { name, .. } => name,
            OperationOutcome::Failure { name, .. } => name,
        }
    }

    pub fn is_success(&self) -> (r: bool)
        ensures
            r == self is Success,
    {
        match self {
            OperationOutcome::Success { .. } => true,
            OperationOutcome::Failure { .. } => false,
        }
    }

    /// The decrypted result of a successful run.
    pub fn value(&self) -> (r: Option<u64>)
        ensures
            r matches Some(v) ==> self matches OperationOutcome::Success { value, .. } && v
                == value,
            r is None ==> self is Failure,
    {
        match self {
            OperationOutcome::Success { value, .. } => Some(*value),
            OperationOutcome::Failure { .. } => None,
        }
    }
}

/// Turns what one isolated run of the operation `name` gave back into its outcome.
pub fn settle(name: String, run: Result<RunRecord, String>) -> (r: OperationOutcome)
    ensures
        r == settled(name, run),
{
    match run {
        Ok(rec) => OperationOutcome::Success {
            name,
            elapsed_nanos: rec.elapsed_nanos,
            value: rec.value,
        },
        Err(fault) => OperationOutcome::Failure { name, fault },
    }
}

/// A finished run as a worker hands it back, tagged with its operation's name;
/// workers finish in any order.
pub struct Completed {
    pub name: String,
    pub run: Result<RunRecord, String>,
}

/// Why the finished runs cannot be matched one for one with a registry.
#[derive(Clone, Copy, Debug, PartialEq, Eq, Structural)]
pub enum CollateError {
    /// The run at `index` names no operation of the registry.
    UnknownName { index: usize },
    /// The run at `index` repeats the name of an earlier run.
    RepeatedName { index: usize },
    /// The operation at `index` of the registry has no run.
    MissingName { index: usize },
}

/// Some run of `done` is tagged `name`.
pub open spec fn reported(done: Seq<Completed>, name: Seq<char>) -> bool {
    exists|j: int| 0 <= j < done.len() && done[j].name@ == name
}

/// The run at `j` names no operation of `ops`, or repeats an earlier run's name.
pub open spec fn stray(ops: Seq<crate::registry::Operation>, done: Seq<Completed>, j: int) -> bool {
    ||| !has_name(ops, done[j].name@)
    ||| exists|k: int| 0 <= k < j && done[k].name@ == done[j].name@
}

/// `out` lists, in registry order, the outcome of each operation of `ops`, each
/// settled from the run that carries its name.
pub open spec fn collated(
    ops: Seq<crate::registry::Operation>,
    done: Seq<Completed>,
    out: Seq<OperationOutcome>,
) -> bool {
    &&& out.len() == ops.len()
    &&& forall|i: int| 0 <= i < ops.len() ==> #[trigger] reported(done, ops[i].name@)
    &&& forall|i: int, j: int|
        0 <= i < ops.len() && 0 <= j < done.len() && done[j].name@ == ops[i].name@ ==> out[i]
            == settled(ops[i].name, done[j].run)
}

/// A fault stays with its operation: where two batches of runs differ only in
/// the run at `j`, every operation that the run at `j` does not name keeps its
/// outcome, and the operation it names fails exactly when that run faulted.
pub proof fn lemma_fault_isolated(
    ops: Seq<crate::registry::Operation>,
    done: Seq<Completed>,
    out: Seq<OperationOutcome>,
    done2: Seq<Completed>,
    out2: Seq<OperationOutcome>,
    j: int,
)
    requires
        collated(ops, done, out),
        collated(ops, done2, out2),
        done2.len() == done.len(),
        0 <= j < done.len(),
        done2[j].name == done[j].name,
        forall|k: int| 0 <= k < done.len() && k != j ==> done2[k] == done[k],
    ensures
        forall|i: int|
            0 <= i < ops.len() && ops[i].name@ != done[j].name@ ==> out2[i] == out[i],
        forall|i: int|
            0 <= i < ops.len() && ops[i].name@ == done[j].name@ ==> {
                &&& (out2[i] is Failure <==> done2[j].run is Err)
                &&& out2[i].spec_name() == ops[i].name@
            },
{
    assert forall|i: int| 0 <= i < ops.len() && ops[i].name@ != done[j].name@ implies out2[i]
        == out[i] by {
        assert(reported(done, ops[i].name@));
        let k = choose|k: int| 0 <= k < done.len() && done[k].name@ == ops[i].name@;
        assert(done2[k] == done[k]);
        assert(out[i] == settled(ops[i].name, done[k].run));
        assert(out2[i] == settled(ops[i].name, done2[k].run));
    }
    assert forall|i: int| 0 <= i < ops.len() && ops[i].name@ == done[j].name@ implies {
        &&& (out2[i] is Failure <==> done2[j].run is Err)
        &&& out2[i].spec_name() == ops[i].name@
    } by {
        assert(out2[i] == settled(ops[i].name, done2[j].run));
    }
}

/// A copy of a run's result.
fn copy_run(run: &Result<RunRecord, String>) -> (r: Result<RunRecord, String>)
    ensures
        r == *run,
{
    match run {
        Ok(rec) => Ok(*rec),
        Err(fault) => Err(fault.clone()),
    }
}

/// Puts the finished runs, which arrive in completion order, back into registry
/// order, settling each into an outcome. The runs must name the registry's
/// operations one for one: the first run that names no operation or repeats a
/// name is rejected, and then the first operation that no run names.
pub fn collate(reg: &Registry, done: &Vec<Completed>) -> (r: Result<
    Vec<OperationOutcome>,
    CollateError,
>)
    requires
        reg.wf(),
    ensures
        r matches Ok(out) ==> collated(reg@, done@, out@),
        r matches Ok(_) ==> forall|j: int| 0 <= j < done@.len() ==> !stray(reg@, done@, j),
        r matches Err(CollateError::UnknownName { index }) ==> {
            &&& index < done@.len()
            &&& !has_name(reg@, done@[index as int].name@)
            &&& forall|j: int| 0 <= j < index ==> !stray(reg@, done@, j)
        },
        r matches Err(CollateError::RepeatedName { index }) ==> {
            &&& index < done@.len()
            &&& has_name(reg@, done@[index as int].name@)
            &&& exists|k: int| 0 <= k < index && done@[k].name@ == done@[index as int].name@
            &&& forall|j: int| 0 <= j < index ==> !stray(reg@, done@, j)
        },
        r matches Err(CollateError::MissingName { index }) ==> {
            &&& forall|j: int| 0 <= j < done@.len() ==> !stray(reg@, done@, j)
            &&& index < reg@.len()
            &&& !reported(done@, reg@[index as int].name@)
            &&& forall|i: int| 0 <= i < index ==> #[trigger] reported(done@, reg@[i].name@)
        },
{
    let n = reg.len();
    let mut slot: Vec<Option<usize>> = Vec::new();
    let mut i: usize = 0;
    while i < n
        invariant
            i <= n,
            slot@.len() == i,
            forall|p: int| 0 <= p < i ==> slot@[p] is None,
        decreases n - i,
    {
        slot.push(None);
        i = i + 1;
    }
    let m = done.len();
    let mut j: usize = 0;
    while j < m
        invariant
            n == reg@.len(),
            m == done@.len(),
            j <= m,
            slot@.len() == n,
            reg.wf(),
            forall|k: int| 0 <= k < j ==> !stray(reg@, done@, k),
            forall|p: int|
                0 <= p < n ==> match #[trigger] slot@[p] {
                    Some(k) => k < j && done@[k as int].name@ == reg@[p].name@,
                    None => forall|k: int| 0 <= k < j ==> done@[k].name@ != reg@[p].name@,
                },
        decreases m - j,
    {
        match reg.position(&done[j].name) {
            None => {
                return Err(CollateError::UnknownName { index: j });
            },
            Some(p) => {
                match slot[p] {
                    Some(k) => {
                        proof {
                            assert(done@[k as int].name@ == done@[j as int].name@);
                        }
                        return Err(CollateError::RepeatedName { index: j });
                    },
                    None => {
                        proof {
                            assert(!stray(reg@, done@, j as int)) by {
                                if exists|k: int| 0 <= k < j && done@[k].name@ == done@[j as int].name@ {
                                    let k = choose|k: int| 0 <= k < j && done@[k].name@ == done@[j as int].name@;
                                    assert(done@[k].name@ != reg@[p as int].name@);
                                }
                            }
                        }
                        slot.set(p, Some(j));
                        proof {
                            assert forall|q: int| 0 <= q < n implies match #[trigger] slot@[q] {
                                Some(k) => k < j + 1 && done@[k as int].name@ == reg@[q].name@,
                                None => forall|k: int| 0 <= k < j + 1 ==> done@[k].name@ != reg@[q].name@,
                            } by {
                                if q != p as int {
                                    if slot@[q] is None {
                                        assert(reg@[q].name@ != reg@[p as int].name@);
                                    }
                                }
                            }
                        }
                    },
                }
            },
        }
        j = j + 1;
    }
    let mut out: Vec<OperationOutcome> = Vec::new();
    let mut i: usize = 0;
    while i < n
        invariant
            n == reg@.len(),
            m == done@.len(),
            i <= n,
            slot@.len() == n,
            reg.wf(),
            out@.len() == i,
            forall|k: int| 0 <= k < m ==> !stray(reg@, done@, k),
            forall|p: int|
                0 <= p < n ==> match #[trigger] slot@[p] {
                    Some(k) => k < m && done@[k as int].name@ == reg@[p].name@,
                    None => forall|k: int| 0 <= k < m ==> done@[k].name@ != reg@[p].name@,
                },
            forall|p: int| 0 <= p < i ==> #[trigger] reported(done@, reg@[p].name@),
            forall|p: int, k: int|
                0 <= p < i && 0 <= k < m && done@[k].name@ == reg@[p].name@ ==> out@[p]
                    == settled(reg@[p].name, done@[k].run),
        decreases n - i,
    {
        match slot[i] {
            None => {
                proof {
                    assert(!reported(done@, reg@[i as int].name@));
                }
                return Err(CollateError::MissingName { index: i });
            },
            Some(k) => {
                let op = reg.get(i);
                let o = settle(op.name.clone(), copy_run(&done[k].run));
                proof {
                    assert(reported(done@, reg@[i as int].name@));
                    assert forall|k2: int| 0 <= k2 < m && done@[k2].name@ == reg@[i as int].name@
                        implies k2 == k by {
                        if k2 != k {
                            if k2 < k {
                                assert(!stray(reg@, done@, k as int));
                            } else {
                                assert(!stray(reg@, done@, k2));
                            }
                        }
                    }
                }
                out.push(o);
            },
        }
        i = i + 1;
    }
    Ok(out)
}

} // verus!
