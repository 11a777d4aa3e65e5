use vstd::prelude::*;

use crate::arith::OpKind;

verus! {

/// One named operation of a registry.
pub struct Operation {
    pub name: String,
    pub kind: OpKind,
}

/// No two operations of `ops` share a name.
pub open spec fn names_unique(ops: Seq<Operation>) -> bool {
    forall|i: int, j: int| 0 <= i < j < ops.len() ==> ops[i].name@ != ops[j].name@
}

/// Some operation of `ops` is called `name`.
pub open spec fn has_name(ops: Seq<Operation>, name: Seq<char>) -> bool {
    exists|p: int| 0 <= p < ops.len() && ops[p].name@ == name
}

/// Why a list of operations cannot form a registry.
#[derive(Clone, Copy, Debug, PartialEq, Eq, Structural)]
pub enum RegistryError {
    /// The operation at `second` repeats the name of the one at `first`.
    DuplicateName { first: usize, second: usize },
}

/// The canonical operations, in order: Sum and Difference, then Product and
/// Quotient where the costly ones are enabled.
pub open spec fn canonical_kinds(include_costly: bool) -> Seq<OpKind> {
    if include_costly {
        seq![OpKind::Sum, OpKind::Difference, OpKind::Product, OpKind::Quotient]
    } else {
        seq![OpKind::Sum, OpKind::Difference]
    }
}

/// An ordered list of operations whose names are pairwise distinct.
pub struct Registry {
    ops: Vec<Operation>,
}

impl View for Registry {
    type V = Seq<Operation>;

    closed spec fn view(&self) -> Seq<Operation> {
        self.ops@
    }
}

impl Operation {
    pub fn new(name: String, kind: OpKind) -> (r: Operation)
        ensures
            r.name == name,
            r.kind == kind,
    {
        Operation { name, kind }
    }

    /// The canonical operation of `kind`, labelled with its name.
    pub fn labelled(kind: OpKind) -> (r: Operation)
        ensures
            r.name@ == kind.spec_label(),
            r.kind == kind,
    {
        Operation { name: kind.label(), kind }
    }
}

impl Registry {
    /// Well-formed: the names are pairwise distinct.
    pub open spec fn wf(&self) -> bool {
        names_unique(self@)
    }

    /// Builds a registry from `ops`, rejecting the first operation (in list order)
    /// whose name an earlier one already has.
    pub fn new(ops: Vec<Operation>) -> (r: Result<Registry, RegistryError>)
        ensures
            r is Ok <==> names_unique(ops@),
            r matches Ok(reg) ==> reg@ == ops@ && reg.wf(),
            r matches Err(RegistryError::DuplicateName { first, second }) ==> {
                &&& first < second < ops@.len()
                &&& ops@[first as int].name@ == ops@[second as int].name@
                &&& names_unique(ops@.take(second as int))
            },
    {
        let n = ops.len();
        let mut j: usize = 0;
        while j < n
            invariant
                n == ops@.len(),
                j <= n,
                names_unique(ops@.take(j as int)),
            decreases n - j,
        {
            let mut i: usize = 0;
            while i < j
                invariant
                    n == ops@.len(),
                    i <= j < n,
                    names_unique(ops@.take(j as int)),
                    forall|k: int| 0 <= k < i ==> ops@[k].name@ != ops@[j as int].name@,
                decreases j - i,
            {
                if ops[i].name == ops[j].name {
                    return Err(RegistryError::DuplicateName { first: i, second: j });
                }
                i = i + 1;
            }
            assert(names_unique(ops@.take(j as int + 1)));
            j = j + 1;
        }
        assert(ops@.take(n as int) =~= ops@);
        Ok(Registry { ops })
    }

    /// The canonical registry: Sum and Difference, followed by Product and
    /// Quotient when `include_costly` holds.
    pub fn canonical(include_costly: bool) -> (r: Registry)
        ensures
            r.wf(),
            r@.len() == canonical_kinds(include_costly).len(),
            forall|i: int|
                0 <= i < r@.len() ==> {
                    &&& #[trigger] r@[i].kind == canonical_kinds(include_costly)[i]
                    &&& r@[i].name@ == canonical_kinds(include_costly)[i].spec_label()
                },
    {
        let mut ops: Vec<Operation> = Vec::new();
        ops.push(Operation::labelled(OpKind::Sum));
        ops.push(Operation::labelled(OpKind::Difference));
        if include_costly {
            ops.push(Operation::labelled(OpKind::Product));
            ops.push(Operation::labelled(OpKind::Quotient));
        }
        proof {
            let ks = canonical_kinds(include_costly);
            assert(ops@.len() == ks.len());
            assert forall|i: int| 0 <= i < ops@.len() implies ops@[i].kind == ks[i]
                && ops@[i].name@ == ks[i].spec_label() by {}
            assert(OpKind::Sum.spec_label()[0] != OpKind::Difference.spec_label()[0]);
            assert(OpKind::Sum.spec_label()[0] != OpKind::Product.spec_label()[0]);
            assert(OpKind::Sum.spec_label()[0] != OpKind::Quotient.spec_label()[0]);
            assert(OpKind::Difference.spec_label()[0] != OpKind::Product.spec_label()[0]);
            assert(OpKind::Difference.spec_label()[0] != OpKind::Quotient.spec_label()[0]);
            assert(OpKind::Product.spec_label()[0] != OpKind::Quotient.spec_label()[0]);
            assert(names_unique(ops@));
        }
        Registry { ops }
    }

    pub fn len(&self) -> (r: usize)
        ensures
            r == self@.len(),
    {
        self.ops.len()
    }

    pub fn get(&self, i: usize) -> (r: &Operation)
        requires
            i < self@.len(),
        ensures
            *r == self@[i as int],
    {
        &self.ops[i]
    }

    /// The index of the operation called `name`, if any.
    pub fn position(&self, name: &String) -> (r: Option<usize>)
        ensures
            r matches Some(p) ==> p < self@.len() && self@[p as int].name@ == name@,
            r is None <==> !has_name(self@, name@),
    {
        let n = self.ops.len();
        let mut p: usize = 0;
        while p < n
            invariant
                n == self@.len(),
                p <= n,
                forall|k: int| 0 <= k < p ==> self@[k].name@ != name@,
            decreases n - p,
        {
            if self.ops[p].name == *name {
                return Some(p);
            }
            p = p + 1;
        }
        None
    }
}

} // verus!
