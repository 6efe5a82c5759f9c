//! The walk without configuration: from a seed, follow every edge in one
//! direction, round after round, until a round finds nothing.
//!
//! The walk keeps no set of visited entities: along a cycle it never ends.
//! The caller sends the queries, as for the configured traversal.

use vstd::prelude::*;
use crate::query::{create_forward_parametrized_query, create_reverse_parametrized_query,
    forward_text, join_lines, joined_lines, reverse_text};
use crate::results::{all_have_iri, bracketed_iris, iris_of, parse_json_uris, rows_at};
use crate::snippet::{build_delete_snippet, delete_snippet_text};
use crate::traversal::{MalformedReply, Reply, bracketed_all, hit_var, hits};

verus! {

/// The query of one round: the neighbours of `iris`, text of the `VALUES`
/// block, in the walk's direction.
pub open spec fn round_query(forward: bool, iris: Seq<char>) -> Seq<char> {
    if forward {
        forward_text(iris)
    } else {
        reverse_text(iris)
    }
}

/// A walk along all edges of one direction.
pub struct NeighbourWalk {
    forward: bool,
    pending: Option<String>,
    plan: Vec<String>,
}

impl NeighbourWalk {
    /// Follows objects when true, subjects when false.
    pub closed spec fn is_forward(&self) -> bool {
        self.forward
    }

    /// The query of the current round, or none once a round found nothing.
    pub closed spec fn pending_query(&self) -> Option<Seq<char>> {
        match self.pending {
            Some(q) => Some(q@),
            None => None,
        }
    }

    /// The delete statements planned so far, in order.
    pub closed spec fn planned(&self) -> Seq<Seq<char>> {
        self.plan.deep_view()
    }

    /// A walk from the entity `iri` (between angle brackets); its first
    /// round asks for the neighbours of `iri`.
    pub fn new(iri: &str, forward: bool) -> (r: NeighbourWalk)
        ensures
            r.is_forward() == forward,
            r.pending_query() == Some(round_query(forward, iri@)),
            r.planned() == Seq::<Seq<char>>::empty(),
    {
        let q = if forward {
            create_forward_parametrized_query(iri)
        } else {
            create_reverse_parametrized_query(iri)
        };
        let r = NeighbourWalk { forward, pending: Some(q), plan: Vec::new() };
        assert(r.plan.deep_view() =~= Seq::<Seq<char>>::empty());
        r
    }

    /// The query of the current round.
    pub fn next_query(&self) -> (r: Option<&String>)
        ensures
            match r {
                Some(q) => self.pending_query() == Some(q@),
                None => self.pending_query() is None,
            },
    {
        match &self.pending {
            Some(q) => Some(q),
            None => None,
        }
    }

    /// Takes the store's reply to the current round. Its hits are planned for
    /// deletion and become the next round's entities; a round without hits,
    /// or a failed one, ends the walk. A reply with an IRI row that has no
    /// text is refused and changes nothing.
    pub fn record(&mut self, reply: &Reply) -> (r: Result<(), MalformedReply>)
        requires
            old(self).pending_query() is Some,
        ensures
            final(self).is_forward() == old(self).is_forward(),
            ({
                let var = hit_var(old(self).is_forward());
                let rows = hits(*reply, var);
                if rows.len() == 0 {
                    &&& r is Ok
                    &&& final(self).pending_query() is None
                    &&& final(self).planned() == old(self).planned()
                } else if !all_have_iri(rows, var) {
                    &&& r is Err
                    &&& final(self).pending_query() == old(self).pending_query()
                    &&& final(self).planned() == old(self).planned()
                } else {
                    &&& r is Ok
                    &&& final(self).pending_query() == Some(
                        round_query(
                            old(self).is_forward(),
                            joined_lines(bracketed_all(iris_of(rows, var))),
                        ),
                    )
                    &&& final(self).planned() == old(self).planned().push(
                        delete_snippet_text(iris_of(rows, var)),
                    )
                }
            }),
    {
        let var = if self.forward {
            "o"
        } else {
            "s"
        };
        proof {
            reveal_strlit("o");
            reveal_strlit("s");
            assert(var@ == hit_var(self.forward));
        }
        if let Reply::Answered(result) = reply {
            let rows = parse_json_uris(result, var);
            if rows.len() > 0 {
                return match bracketed_iris(&rows, var) {
                    Some(iris) => {
                        proof {
                            assert(iris.deep_view() =~= bracketed_all(
                                iris_of(rows_at(rows@), var@),
                            ));
                        }
                        let snippet = build_delete_snippet(&rows, var);
                        let ghost before = self.plan.deep_view();
                        self.plan.push(snippet);
                        assert(self.plan.deep_view() =~= before.push(snippet@));
                        let values = join_lines(&iris);
                        let q = if self.forward {
                            create_forward_parametrized_query(values.as_str())
                        } else {
                            create_reverse_parametrized_query(values.as_str())
                        };
                        self.pending = Some(q);
                        Ok(())
                    },
                    None => Err(MalformedReply::IriWithoutValue),
                };
            }
        }
        self.pending = None;
        Ok(())
    }

    /// The delete statements planned so far, in order.
    pub fn plan(&self) -> (r: &Vec<String>)
        ensures
            r.deep_view() == self.planned(),
    {
        &self.plan
    }
}

} // verus!
