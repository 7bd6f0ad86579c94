use vstd::prelude::*;

verus! {

/// A tracker for the fragment kinds whose styles were already rendered
/// during one render pass.
///
/// The kinds are kept in order of first request, each once; a kind is never
/// removed, so what the tracker has seen only grows.
pub struct CssOnce {
    seen: Vec<String>,
}

impl View for CssOnce {
    type V = Set<Seq<char>>;

    /// The set of fragment kinds already seen.
    closed spec fn view(&self) -> Set<Seq<char>> {
        Set::new(|k: Seq<char>| exists|i: int| 0 <= i < self.seen@.len() && #[trigger] self.seen@[i]@ == k)
    }
}

impl CssOnce {
    /// Each kind is stored once.
    #[verifier::type_invariant]
    closed spec fn no_repeats(&self) -> bool {
        forall|i: int, j: int|
            0 <= i < j < self.seen@.len() ==> #[trigger] self.seen@[i]@ != #[trigger] self.seen@[j]@
    }

    /// Creates a tracker that has seen no fragment kind.
    pub fn new() -> (r: Self)
        ensures
            r@ == Set::<Seq<char>>::empty(),
    {
        let r = CssOnce { seen: Vec::new() };
        assert(r@ =~= Set::<Seq<char>>::empty());
        r
    }

    /// Tells whether the styles of fragment kind `kind` were already
    /// rendered, and records that they are now.
    pub fn is_rendered(&mut self, kind: &str) -> (r: bool)
        ensures
            r == old(self)@.contains(kind@),
            final(self)@ == old(self)@.insert(kind@),
    {
        proof {
            use_type_invariant(&*self);
        }
        let key: String = kind.to_owned();
        let n: usize = self.seen.len();
        let mut i: usize = 0;
        while i < n
            invariant
                n == self.seen@.len(),
                0 <= i <= n,
                key@ == kind@,
                forall|j: int| 0 <= j < i ==> #[trigger] self.seen@[j]@ != kind@,
            decreases n - i,
        {
            if self.seen[i] == key {
                assert(self@.contains(kind@));
                assert(self@.insert(kind@) =~= self@);
                return true;
            }
            i = i + 1;
        }
        assert(!self@.contains(kind@));
        let ghost before = self@;
        let ghost prior = self.seen@;
        // The vector is moved out whole and put back, so that no borrow of
        // the field outlives a state where the type invariant is unchecked.
        let mut taken = CssOnce { seen: Vec::new() };
        core::mem::swap(self, &mut taken);
        let mut seen = taken.seen;
        seen.push(key);
        *self = CssOnce { seen };
        assert(self.seen@ == prior.push(key));
        assert(self@ =~= before.insert(kind@)) by {
            assert forall|k: Seq<char>| #[trigger] self@.contains(k) <==> before.insert(kind@).contains(k) by {
                if before.contains(k) {
                    let j = choose|j: int| 0 <= j < prior.len() && #[trigger] prior[j]@ == k;
                    assert(self.seen@[j]@ == k);
                }
                if k == kind@ {
                    assert(self.seen@[n as int]@ == k);
                }
                if self@.contains(k) && k != kind@ {
                    let j = choose|j: int| 0 <= j < self.seen@.len() && #[trigger] self.seen@[j]@ == k;
                    assert(prior[j]@ == k);
                }
            }
        }
        false
    }
}

impl Default for CssOnce {
    /// A tracker that has seen no fragment kind.
    fn default() -> (r: Self)
        ensures
            r@ == Set::<Seq<char>>::empty(),
    {
        CssOnce::new()
    }
}

} // verus!
