use vstd::prelude::*;

verus! {

/// `0 + 1 + ... + n`: the number of entries of the upper triangle of an
/// `n × n` matrix.
pub open spec fn tri(n: nat) -> nat
    decreases n,
{
    if n == 0 {
        0
    } else {
        tri((n - 1) as nat) + n
    }
}

/// Where entry `(r, c)`, with `r <= c`, of the upper triangle is stored:
/// column after column.
pub open spec fn packed_index(r: nat, c: nat) -> nat {
    r + tri(c)
}

/// Entry `(i, j)` of the symmetric matrix stored as `data`.
pub open spec fn entry_of<T>(data: Seq<T>, i: nat, j: nat) -> T {
    if i <= j {
        data[packed_index(i, j) as int]
    } else {
        data[packed_index(j, i) as int]
    }
}

/// Index, in the full matrix, of row `i` of the matrix without row `skip`.
pub open spec fn retained_index(i: nat, skip: nat) -> nat {
    if i < skip {
        i
    } else {
        i + 1
    }
}

/// The same unordered pair of indices.
pub open spec fn same_pair(i: nat, j: nat, r: nat, c: nat) -> bool {
    (i == r && j == c) || (i == c && j == r)
}

proof fn lemma_tri_closed(n: nat)
    ensures
        2 * tri(n) == n * (n + 1),
    decreases n,
{
    if n > 0 {
        lemma_tri_closed((n - 1) as nat);
        assert(2 * tri(n) == (n - 1) * n + 2 * n);
        assert((n - 1) * n + 2 * n == n * (n + 1)) by (nonlinear_arith)
            requires
                n > 0,
        ;
    } else {
        assert(n * (n + 1) == 0) by (nonlinear_arith)
            requires
                n == 0,
        ;
    }
}

proof fn lemma_tri_step(a: nat, b: nat)
    requires
        a < b,
    ensures
        tri(a) + a < tri(b),
    decreases b,
{
    if a + 1 < b {
        lemma_tri_step(a, (b - 1) as nat);
    }
}

/// Every stored position belongs to exactly one entry of the triangle.
proof fn lemma_packed_index(r1: nat, c1: nat, r2: nat, c2: nat, n: nat)
    requires
        r1 <= c1 < n,
        r2 <= c2 < n,
    ensures
        packed_index(r1, c1) < tri(n),
        packed_index(r1, c1) == packed_index(r2, c2) ==> r1 == r2 && c1 == c2,
{
    lemma_tri_step(c1, n);
    if c1 < c2 {
        lemma_tri_step(c1, c2);
    } else if c2 < c1 {
        lemma_tri_step(c2, c1);
    }
}

/// `tri(n)`, computed without an intermediate product larger than the result.
fn tri_exec(n: usize) -> (r: usize)
    requires
        tri(n as nat) <= usize::MAX,
    ensures
        r == tri(n as nat),
{
    proof {
        lemma_tri_closed(n as nat);
    }
    if n % 2 == 0 {
        let h = n / 2;
        assert(h * (n + 1) == tri(n as nat)) by (nonlinear_arith)
            requires
                n == 2 * h,
                2 * tri(n as nat) == n * (n + 1),
        ;
        h * (n + 1)
    } else {
        let h = n / 2 + 1;
        assert(n * h == tri(n as nat)) by (nonlinear_arith)
            requires
                n + 1 == 2 * h,
                2 * tri(n as nat) == n * (n + 1),
        ;
        n * h
    }
}

/// A symmetric `n × n` matrix stored as its upper triangle, `n(n+1)/2`
/// entries, column after column.
#[derive(Debug, Clone)]
pub struct MnUserCovariance<T> {
    data: Vec<T>,
    nrow: usize,
}

impl<T: Copy> MnUserCovariance<T> {
    pub closed spec fn nrow_spec(&self) -> nat {
        self.nrow as nat
    }

    pub closed spec fn data_spec(&self) -> Seq<T> {
        self.data@
    }

    /// The stored triangle has the length that the size asks for.
    pub open spec fn wf(&self) -> bool {
        self.data_spec().len() == tri(self.nrow_spec())
    }

    /// Entry `(i, j)`.
    pub open spec fn entry(&self, i: nat, j: nat) -> T {
        entry_of(self.data_spec(), i, j)
    }

    /// An `n × n` matrix with every entry `fill`.
    pub fn new(n: usize, fill: T) -> (r: Self)
        requires
            tri(n as nat) <= usize::MAX,
        ensures
            r.wf(),
            r.nrow_spec() == n,
            forall|i: nat, j: nat| i < n && j < n ==> r.entry(i, j) == fill,
    {
        let len = tri_exec(n);
        let mut data: Vec<T> = Vec::new();
        let mut k: usize = 0;
        while k < len
            invariant
                k <= len,
                data@.len() == k,
                forall|m: int| 0 <= m < k ==> data@[m] == fill,
            decreases len - k,
        {
            data.push(fill);
            k = k + 1;
        }
        let r = MnUserCovariance { data, nrow: n };
        assert forall|i: nat, j: nat| i < n && j < n implies r.entry(i, j) == fill by {
            if i <= j {
                lemma_packed_index(i, j, i, j, n as nat);
            } else {
                lemma_packed_index(j, i, j, i, n as nat);
            }
        }
        r
    }

    /// The matrix whose upper triangle, column after column, is `data`.
    pub fn from_vec(data: Vec<T>, n: usize) -> (r: Self)
        requires
            data@.len() == tri(n as nat),
        ensures
            r.wf(),
            r.nrow_spec() == n,
            r.data_spec() == data@,
    {
        MnUserCovariance { data, nrow: n }
    }

    pub fn nrow(&self) -> (r: usize)
        ensures
            r == self.nrow_spec(),
    {
        self.nrow
    }

    /// Entry `(row, col)`; the same as `(col, row)`.
    pub fn get(&self, row: usize, col: usize) -> (r: T)
        requires
            self.wf(),
            row < self.nrow_spec(),
            col < self.nrow_spec(),
        ensures
            r == self.entry(row as nat, col as nat),
            r == self.entry(col as nat, row as nat),
    {
        let (r, c) = if row <= col {
            (row, col)
        } else {
            (col, row)
        };
        proof {
            lemma_packed_index(r as nat, c as nat, r as nat, c as nat, self.nrow as nat);
        }
        let len = self.data.len();
        assert(r + tri(c as nat) < len);
        self.data[r + tri_exec(c)]
    }

    /// Set entry `(row, col)`, and with it `(col, row)`; every other entry
    /// keeps its value.
    pub fn set(&mut self, row: usize, col: usize, val: T)
        requires
            old(self).wf(),
            row < old(self).nrow_spec(),
            col < old(self).nrow_spec(),
        ensures
            final(self).wf(),
            final(self).nrow_spec() == old(self).nrow_spec(),
            forall|i: nat, j: nat|
                i < old(self).nrow_spec() && j < old(self).nrow_spec() ==> final(self).entry(i, j)
                    == if same_pair(i, j, row as nat, col as nat) {
                    val
                } else {
                    old(self).entry(i, j)
                },
    {
        let (r, c) = if row <= col {
            (row, col)
        } else {
            (col, row)
        };
        let ghost n = self.nrow as nat;
        proof {
            lemma_packed_index(r as nat, c as nat, r as nat, c as nat, n);
        }
        let len = self.data.len();
        assert(r + tri(c as nat) < len);
        let idx = r + tri_exec(c);
        self.data.set(idx, val);
        assert forall|i: nat, j: nat| i < n && j < n implies self.entry(i, j) == if same_pair(
            i,
            j,
            row as nat,
            col as nat,
        ) {
            val
        } else {
            old(self).entry(i, j)
        } by {
            if i <= j {
                lemma_packed_index(i, j, r as nat, c as nat, n);
            } else {
                lemma_packed_index(j, i, r as nat, c as nat, n);
            }
        }
    }

    /// The diagonal matrix of the entries `(i, i)` with `i != skip`, in
    /// order, with `zero` elsewhere: what is left of a covariance without
    /// parameter `skip` when its correlations cannot be recovered.
    pub fn retained_diagonal(&self, skip: usize, zero: T) -> (r: Self)
        requires
            self.wf(),
            skip < self.nrow_spec(),
        ensures
            r.wf(),
            r.nrow_spec() == self.nrow_spec() - 1,
            forall|i: nat, j: nat|
                i < r.nrow_spec() && j < r.nrow_spec() ==> r.entry(i, j) == if i == j {
                    self.entry(retained_index(i, skip as nat), retained_index(i, skip as nat))
                } else {
                    zero
                },
    {
        let m = self.nrow - 1;
        let total = self.data.len();
        proof {
            lemma_tri_step(m as nat, self.nrow as nat);
        }
        assert(tri(m as nat) <= total);
        let mut result = MnUserCovariance::new(m, zero);
        let mut r: usize = 0;
        while r < m
            invariant
                self.wf(),
                skip < self.nrow_spec(),
                m == self.nrow_spec() - 1,
                r <= m,
                result.wf(),
                result.nrow_spec() == m,
                forall|i: nat, j: nat|
                    i < m && j < m ==> result.entry(i, j) == if i == j && i < r {
                        self.entry(retained_index(i, skip as nat), retained_index(i, skip as nat))
                    } else {
                        zero
                    },
            decreases m - r,
        {
            let src = if r < skip {
                r
            } else {
                r + 1
            };
            let v = self.get(src, src);
            result.set(r, r, v);
            r = r + 1;
        }
        result
    }

    /// The stored triangle.
    pub fn data(&self) -> (r: &Vec<T>)
        ensures
            r@ == self.data_spec(),
    {
        &self.data
    }
}

} // verus!
