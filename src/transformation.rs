use vstd::prelude::*;

verus! {

/// Number of free (not fixed) entries in `fixed`.
pub open spec fn count_free(fixed: Seq<bool>) -> nat
    decreases fixed.len(),
{
    if fixed.len() == 0 {
        0
    } else {
        count_free(fixed.drop_last()) + if fixed.last() { 0nat } else { 1nat }
    }
}

/// The two index tables agree with the fixed flags: each free external
/// index has exactly one internal index and back, fixed ones have none,
/// and internal indices follow the external order.
pub open spec fn tables_match(
    fixed: Seq<bool>,
    internal_of: Seq<Option<usize>>,
    external_of: Seq<usize>,
) -> bool {
    &&& internal_of.len() == fixed.len()
    &&& external_of.len() == count_free(fixed)
    &&& forall|e: int| 0 <= e < fixed.len() ==> (fixed[e] <==> internal_of[e] is None)
    &&& forall|e: int|
        #![trigger internal_of[e]]
        0 <= e < fixed.len() && internal_of[e] is Some ==> {
            let k = internal_of[e]->Some_0;
            k < external_of.len() && external_of[k as int] == e
        }
    &&& forall|k: int|
        #![trigger external_of[k]]
        0 <= k < external_of.len() ==> {
            let e = external_of[k];
            e < fixed.len() && internal_of[e as int] == Some(k as usize)
        }
    &&& forall|k1: int, k2: int|
        0 <= k1 < k2 < external_of.len() ==> external_of[k1] < external_of[k2]
}

/// Fixed flags and index tables, as plain sequences.
pub struct IndexView {
    pub fixed: Seq<bool>,
    pub internal_of: Seq<Option<usize>>,
    pub external_of: Seq<usize>,
}

/// The mapping between external parameter indices (all parameters, in the
/// order they were added) and internal ones (the free parameters only, in
/// the same order).
#[derive(Debug, Clone)]
pub struct IndexTables {
    fixed: Vec<bool>,
    internal_of: Vec<Option<usize>>,
    external_of: Vec<usize>,
}

impl View for IndexTables {
    type V = IndexView;

    closed spec fn view(&self) -> IndexView {
        IndexView {
            fixed: self.fixed@,
            internal_of: self.internal_of@,
            external_of: self.external_of@,
        }
    }
}

proof fn lemma_count_free_bound(fixed: Seq<bool>)
    ensures
        count_free(fixed) <= fixed.len(),
    decreases fixed.len(),
{
    if fixed.len() > 0 {
        lemma_count_free_bound(fixed.drop_last());
    }
}

/// Two pairs of tables that match the same flags agree on their first `k`
/// internal indices.
proof fn lemma_external_prefix_agrees(
    fixed: Seq<bool>,
    io1: Seq<Option<usize>>,
    eo1: Seq<usize>,
    io2: Seq<Option<usize>>,
    eo2: Seq<usize>,
    k: int,
)
    requires
        tables_match(fixed, io1, eo1),
        tables_match(fixed, io2, eo2),
        0 <= k <= eo1.len(),
    ensures
        forall|j: int| 0 <= j < k ==> eo1[j] == eo2[j],
    decreases k,
{
    if k > 0 {
        lemma_external_prefix_agrees(fixed, io1, eo1, io2, eo2, k - 1);
        let j = k - 1;
        let a = eo1[j];
        let b = eo2[j];
        if a < b {
            // `a` is free, so it has a position `m` in the second table,
            // below `j`, where the tables already agree.
            assert(a < fixed.len() && io1[a as int] == Some(j as usize));
            assert(!fixed[a as int]);
            assert(io2[a as int] is Some);
            let m = io2[a as int]->Some_0 as int;
            assert(m < eo2.len() && eo2[m] == a);
            assert(m < j) by {
                if m >= j {
                    if m > j {
                        assert(eo2[j] < eo2[m]);
                    }
                }
            }
            assert(eo1[m] == a);
            assert(eo1[m] < eo1[j]);
        } else if b < a {
            assert(b < fixed.len() && io2[b as int] == Some(j as usize));
            assert(!fixed[b as int]);
            assert(io1[b as int] is Some);
            let m = io1[b as int]->Some_0 as int;
            assert(m < eo1.len() && eo1[m] == b);
            assert(m < j) by {
                if m >= j {
                    if m > j {
                        assert(eo1[j] < eo1[m]);
                    }
                }
            }
            assert(eo2[m] == b);
            assert(eo2[m] < eo2[j]);
        }
    }
}

/// The fixed flags determine both index tables: any two pairs of tables
/// that match the same flags are equal.
pub proof fn lemma_tables_determined_by_flags(
    fixed: Seq<bool>,
    io1: Seq<Option<usize>>,
    eo1: Seq<usize>,
    io2: Seq<Option<usize>>,
    eo2: Seq<usize>,
)
    requires
        tables_match(fixed, io1, eo1),
        tables_match(fixed, io2, eo2),
    ensures
        io1 == io2,
        eo1 == eo2,
{
    lemma_external_prefix_agrees(fixed, io1, eo1, io2, eo2, eo1.len() as int);
    assert(eo1 =~= eo2);
    assert forall|e: int| 0 <= e < fixed.len() implies io1[e] == io2[e] by {
        if io1[e] is Some {
            let k1 = io1[e]->Some_0 as int;
            let k2 = io2[e]->Some_0 as int;
            assert(eo1[k1] == e);
            assert(eo2[k2] == e);
            if k1 < k2 {
                assert(eo1[k1] < eo1[k2]);
            } else if k2 < k1 {
                assert(eo1[k2] < eo1[k1]);
            }
        }
    }
    assert(io1 =~= io2);
}

/// Build both tables from the fixed flags.
fn build_tables(fixed: &Vec<bool>) -> (r: (Vec<Option<usize>>, Vec<usize>))
    ensures
        tables_match(fixed@, r.0@, r.1@),
{
    let n = fixed.len();
    let mut internal_of: Vec<Option<usize>> = Vec::new();
    let mut external_of: Vec<usize> = Vec::new();
    let mut e: usize = 0;
    while e < n
        invariant
            n == fixed@.len(),
            e <= n,
            internal_of@.len() == e,
            external_of@.len() == count_free(fixed@.subrange(0, e as int)),
            forall|i: int| 0 <= i < e ==> (fixed@[i] <==> internal_of@[i] is None),
            forall|i: int|
                #![trigger internal_of@[i]]
                0 <= i < e && internal_of@[i] is Some ==> {
                    let k = internal_of@[i]->Some_0;
                    k < external_of@.len() && external_of@[k as int] == i
                },
            forall|k: int|
                #![trigger external_of@[k]]
                0 <= k < external_of@.len() ==> {
                    let i = external_of@[k];
                    i < e && internal_of@[i as int] == Some(k as usize)
                },
            forall|k1: int, k2: int|
                0 <= k1 < k2 < external_of@.len() ==> external_of@[k1] < external_of@[k2],
        decreases n - e,
    {
        proof {
            let pre = fixed@.subrange(0, e as int);
            let next = fixed@.subrange(0, e as int + 1);
            assert(next.drop_last() =~= pre);
            lemma_count_free_bound(pre);
        }
        if fixed[e] {
            internal_of.push(None);
        } else {
            internal_of.push(Some(external_of.len()));
            external_of.push(e);
        }
        e = e + 1;
    }
    assert(fixed@.subrange(0, n as int) =~= fixed@);
    (internal_of, external_of)
}

impl IndexTables {
    /// Well-formed: the tables match the flags.
    pub open spec fn wf(&self) -> bool {
        tables_match(self@.fixed, self@.internal_of, self@.external_of)
    }

    /// Tables for parameters with the given fixed flags.
    pub fn from_fixed(fixed: &Vec<bool>) -> (r: Self)
        ensures
            r.wf(),
            r@.fixed == fixed@,
    {
        let (internal_of, external_of) = build_tables(fixed);
        IndexTables { fixed: fixed.clone(), internal_of, external_of }
    }

    /// Tables for no parameters.
    pub fn new() -> (r: Self)
        ensures
            r.wf(),
            r@.fixed.len() == 0,
    {
        let fixed: Vec<bool> = Vec::new();
        IndexTables::from_fixed(&fixed)
    }

    /// Total number of parameters.
    pub fn len(&self) -> (r: usize)
        requires
            self.wf(),
        ensures
            r == self@.fixed.len(),
    {
        self.fixed.len()
    }

    /// Number of free parameters: the internal dimension.
    pub fn variable_parameters(&self) -> (r: usize)
        requires
            self.wf(),
        ensures
            r == count_free(self@.fixed),
    {
        self.external_of.len()
    }

    /// Whether the parameter at `ext` is fixed.
    pub fn is_fixed(&self, ext: usize) -> (r: bool)
        requires
            self.wf(),
            ext < self@.fixed.len(),
        ensures
            r == self@.fixed[ext as int],
    {
        self.fixed[ext]
    }

    /// Internal index of the parameter at `ext`; `None` when it is fixed.
    pub fn int_of_ext(&self, ext: usize) -> (r: Option<usize>)
        requires
            self.wf(),
            ext < self@.fixed.len(),
        ensures
            r == self@.internal_of[ext as int],
            r is None <==> self@.fixed[ext as int],
    {
        self.internal_of[ext]
    }

    /// External index of the free parameter with internal index `idx`.
    pub fn ext_of_int(&self, idx: usize) -> (r: usize)
        requires
            self.wf(),
            idx < count_free(self@.fixed),
        ensures
            r == self@.external_of[idx as int],
            r < self@.fixed.len(),
            !self@.fixed[r as int],
            self@.internal_of[r as int] == Some(idx),
    {
        self.external_of[idx]
    }

    /// Append a parameter; returns its external index.
    pub fn push(&mut self, fixed: bool) -> (r: usize)
        requires
            old(self).wf(),
            old(self)@.fixed.len() < usize::MAX,
        ensures
            final(self).wf(),
            final(self)@.fixed == old(self)@.fixed.push(fixed),
            r == old(self)@.fixed.len(),
    {
        let ext = self.fixed.len();
        let mut flags = self.fixed.clone();
        flags.push(fixed);
        *self = IndexTables::from_fixed(&flags);
        ext
    }

    /// Fix or free the parameter at `ext` and rebuild both tables.
    pub fn set_fixed(&mut self, ext: usize, fixed: bool)
        requires
            old(self).wf(),
            ext < old(self)@.fixed.len(),
        ensures
            final(self).wf(),
            final(self)@.fixed == old(self)@.fixed.update(ext as int, fixed),
    {
        let mut flags = self.fixed.clone();
        flags.set(ext, fixed);
        *self = IndexTables::from_fixed(&flags);
    }
}

} // verus!
