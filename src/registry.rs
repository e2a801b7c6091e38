//! A set of channel handles, kept in the order they registered.
use vstd::prelude::*;

verus! {

/// Registered handles, each at most once.
#[derive(Debug)]
pub struct Registry {
    handles: Vec<u64>,
}

impl View for Registry {
    type V = Seq<u64>;

    /// The handles in the order they registered.
    closed spec fn view(&self) -> Seq<u64> {
        self.handles@
    }
}

impl Registry {
    #[verifier::type_invariant]
    spec fn distinct(&self) -> bool {
        self.handles@.no_duplicates()
    }

    pub open spec fn members(&self) -> Set<u64> {
        self@.to_set()
    }

    pub fn new() -> (r: Registry)
        ensures
            r@.len() == 0,
            r.members() == Set::<u64>::empty(),
    {
        let r = Registry { handles: Vec::new() };
        assert(r@.to_set() =~= Set::<u64>::empty());
        r
    }

    /// The registered handles, in the order they registered, each once.
    pub fn handles(&self) -> (r: Vec<u64>)
        ensures
            r@ == self@,
            r@.no_duplicates(),
    {
        proof {
            use_type_invariant(self);
        }
        self.handles.clone()
    }

    fn position(&self, h: u64) -> (r: Option<usize>)
        ensures
            r is None ==> !self@.contains(h),
            r is Some ==> r->Some_0 < self@.len() && self@[r->Some_0 as int] == h,
    {
        let mut i: usize = 0;
        while i < self.handles.len()
            invariant
                i <= self.handles@.len(),
                forall|j: int| 0 <= j < i ==> self.handles@[j] != h,
            decreases self.handles@.len() - i,
        {
            if self.handles[i] == h {
                return Some(i);
            }
            i = i + 1;
        }
        None
    }

    /// Adds a handle.
    pub fn insert(&mut self, h: u64)
        ensures
            final(self).members() == old(self).members().insert(h),
    {
        proof {
            use_type_invariant(&*self);
        }
        match self.position(h) {
            Some(_) => {
                assert(self.members().insert(h) =~= self.members());
            },
            None => {
                let ghost s0 = self@;
                let mut v: Vec<u64> = Vec::new();
                std::mem::swap(&mut v, &mut self.handles);
                v.push(h);
                assert(v@ == s0.push(h));
                assert(v@.to_set() =~= s0.to_set().insert(h)) by {
                    assert forall|x: u64| v@.contains(x) <==> s0.contains(x) || x == h by {
                        if s0.contains(x) {
                            let j = choose|j: int| 0 <= j < s0.len() && s0[j] == x;
                            assert(v@[j] == x);
                        }
                        if x == h {
                            assert(v@[s0.len() as int] == x);
                        }
                    }
                }
                self.handles = v;
            },
        }
    }

    /// Removes a handle.
    pub fn remove(&mut self, h: u64)
        ensures
            final(self).members() == old(self).members().remove(h),
    {
        proof {
            use_type_invariant(&*self);
        }
        match self.position(h) {
            None => {
                assert(self.members().remove(h) =~= self.members());
            },
            Some(i) => {
                let ghost s0 = self@;
                let mut v: Vec<u64> = Vec::new();
                std::mem::swap(&mut v, &mut self.handles);
                v.remove(i);
                assert(v@ =~= s0.remove(i as int));
                assert forall|x: u64| v@.contains(x) <==> s0.contains(x) && x != h by {
                    if v@.contains(x) {
                        let j = choose|j: int| 0 <= j < v@.len() && v@[j] == x;
                        if j < i {
                            assert(s0[j] == x);
                        } else {
                            assert(s0[j + 1] == x);
                        }
                    }
                    if s0.contains(x) && x != h {
                        let j = choose|j: int| 0 <= j < s0.len() && s0[j] == x;
                        if j < i {
                            assert(v@[j] == x);
                        } else {
                            assert(j != i);
                            assert(v@[j - 1] == x);
                        }
                    }
                }
                assert(v@.to_set() =~= s0.to_set().remove(h));
                self.handles = v;
            },
        }
    }
}

} // verus!
