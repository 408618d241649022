use vstd::prelude::*;

verus! {

/// The first position at which `name` stands in `names`, if any.
pub open spec fn first_index(names: Seq<Seq<char>>, name: Seq<char>) -> Option<usize> {
    if exists|i: int| 0 <= i < names.len() && names[i] == name {
        let i = choose|i: int|
            0 <= i < names.len() && names[i] == name && forall|j: int|
                0 <= j < i ==> names[j] != name;
        Some(i as usize)
    } else {
        None
    }
}

/// A name that was absent is found, after it is appended, at the end.
proof fn lemma_first_index_fresh(names: Seq<Seq<char>>, name: Seq<char>)
    requires
        first_index(names, name) is None,
    ensures
        first_index(names.push(name), name) == Some(names.len() as usize),
{
    let grown = names.push(name);
    let n = names.len() as int;
    assert(forall|j: int| 0 <= j < n ==> names[j] != name);
    assert(grown[n] == name);
    assert(forall|j: int| 0 <= j < n ==> grown[j] != name);
    let c = choose|i: int|
        0 <= i < grown.len() && grown[i] == name && forall|j: int| 0 <= j < i ==> grown[j] != name;
    assert(0 <= n < grown.len() && grown[n] == name && forall|j: int| 0 <= j < n ==> grown[j] != name);
    assert(c == n) by {
        if c < n {
            assert(grown[c] == names[c]);
        }
    }
}

/// Parameter names in external order, looked up by name.
#[derive(Debug, Clone)]
pub struct ParameterNames {
    names: Vec<String>,
}

impl View for ParameterNames {
    type V = Seq<Seq<char>>;

    closed spec fn view(&self) -> Seq<Seq<char>> {
        self.names@.map_values(|s: String| s@)
    }
}

impl ParameterNames {
    pub fn new() -> (r: Self)
        ensures
            r@ == Seq::<Seq<char>>::empty(),
    {
        let r = ParameterNames { names: Vec::new() };
        assert(r@ =~= Seq::<Seq<char>>::empty());
        r
    }

    pub fn len(&self) -> (r: usize)
        ensures
            r == self@.len(),
    {
        self.names.len()
    }

    /// Append a name; returns its position.
    pub fn push(&mut self, name: String) -> (r: usize)
        ensures
            final(self)@ == old(self)@.push(name@),
            r == old(self)@.len(),
            first_index(old(self)@, name@) is None ==> first_index(final(self)@, name@) == Some(r),
    {
        let r = self.names.len();
        let ghost added = name@;
        self.names.push(name);
        assert(self@ =~= old(self)@.push(added));
        proof {
            if first_index(old(self)@, added) is None {
                lemma_first_index_fresh(old(self)@, added);
            }
        }
        r
    }

    /// The name at `ext`.
    pub fn name(&self, ext: usize) -> (r: &String)
        requires
            ext < self@.len(),
        ensures
            r@ == self@[ext as int],
    {
        &self.names[ext]
    }

    /// Rename the parameter at `ext`.
    pub fn set_name(&mut self, ext: usize, name: String)
        requires
            ext < old(self)@.len(),
        ensures
            final(self)@ == old(self)@.update(ext as int, name@),
    {
        self.names.set(ext, name);
        assert(self@ =~= old(self)@.update(ext as int, name@));
    }

    /// The position of the first parameter called `name`.
    pub fn index(&self, name: &String) -> (r: Option<usize>)
        ensures
            r == first_index(self@, name@),
    {
        let mut i: usize = 0;
        while i < self.names.len()
            invariant
                i <= self.names@.len(),
                self@.len() == self.names@.len(),
                forall|j: int| 0 <= j < i ==> self@[j] != name@,
            decreases self.names@.len() - i,
        {
            if self.names[i] == *name {
                let ghost names = self@;
                assert(names[i as int] == name@);
                assert(exists|k: int| 0 <= k < names.len() && names[k] == name@);
                let ghost c = choose|k: int|
                    0 <= k < names.len() && names[k] == name@ && forall|j: int|
                        0 <= j < k ==> names[j] != name@;
                assert(0 <= i < names.len() && names[i as int] == name@ && forall|j: int|
                    0 <= j < i ==> names[j] != name@);
                assert(c == i as int) by {
                    if c < i {
                    } else if c > i {
                    }
                }
                return Some(i);
            }
            i = i + 1;
        }
        None
    }
}

} // verus!
