//! The entities in scope, grouped by type, during one traversal.

use vstd::prelude::*;
use crate::json::same_text;

verus! {

/// The map that a log of assignments builds: each entry assigns its IRIs to
/// its type, and a later entry overrides an earlier one of the same type.
pub open spec fn assigned(log: Seq<(String, Vec<String>)>) -> Map<Seq<char>, Seq<Seq<char>>>
    decreases log.len(),
{
    if log.len() == 0 {
        Map::empty()
    } else {
        assigned(log.drop_last()).insert(log.last().0@, log.last().1.deep_view())
    }
}

/// For each type, the IRIs (between angle brackets) currently in scope.
pub struct Frontier {
    log: Vec<(String, Vec<String>)>,
}

impl View for Frontier {
    type V = Map<Seq<char>, Seq<Seq<char>>>;

    closed spec fn view(&self) -> Map<Seq<char>, Seq<Seq<char>>> {
        assigned(self.log@)
    }
}

impl Frontier {
    /// A frontier that holds `seed_iri` alone, under `seed_type`.
    pub fn new(seed_type: &str, seed_iri: &str) -> (r: Frontier)
        ensures
            r@ == Map::<Seq<char>, Seq<Seq<char>>>::empty().insert(seed_type@, seq![seed_iri@]),
    {
        let mut iris: Vec<String> = Vec::new();
        iris.push(String::from_str(seed_iri));
        let mut log: Vec<(String, Vec<String>)> = Vec::new();
        log.push((String::from_str(seed_type), iris));
        let r = Frontier { log };
        proof {
            assert(r.log@.drop_last() =~= Seq::<(String, Vec<String>)>::empty());
            assert(assigned(r.log@.drop_last()) == Map::<Seq<char>, Seq<Seq<char>>>::empty());
            assert(iris.deep_view() =~= seq![seed_iri@]);
            assert(r@ =~= Map::<Seq<char>, Seq<Seq<char>>>::empty().insert(
                seed_type@,
                seq![seed_iri@],
            ));
        }
        r
    }

    /// The IRIs in scope for `ty`, if the type has been reached.
    pub fn get(&self, ty: &str) -> (r: Option<&Vec<String>>)
        ensures
            match r {
                Some(iris) => self@.contains_key(ty@) && self@[ty@] == iris.deep_view(),
                None => !self@.contains_key(ty@),
            },
    {
        let mut i: usize = self.log.len();
        assert(self.log@.subrange(0, i as int) =~= self.log@);
        while i > 0
            invariant
                i <= self.log@.len(),
                assigned(self.log@.subrange(0, i as int)).contains_key(ty@) == self@.contains_key(ty@),
                assigned(self.log@.subrange(0, i as int)).contains_key(ty@) ==> assigned(
                    self.log@.subrange(0, i as int),
                )[ty@] == self@[ty@],
            decreases i,
        {
            assert(self.log@.subrange(0, i as int).drop_last() =~= self.log@.subrange(0, i - 1));
            if same_text(self.log[i - 1].0.as_str(), ty) {
                return Some(&self.log[i - 1].1);
            }
            i = i - 1;
        }
        None
    }

    /// Puts `iris` in scope for `ty`, in place of what it held.
    pub fn set(&mut self, ty: String, iris: Vec<String>)
        ensures
            final(self)@ == old(self)@.insert(ty@, iris.deep_view()),
    {
        self.log.push((ty, iris));
        proof {
            assert(self.log@.drop_last() =~= old(self).log@);
        }
    }
}

} // verus!
