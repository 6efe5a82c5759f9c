//! The traversal: one pass over the configuration that, edge by edge, asks
//! the store for related entities and plans their deletion.
//!
//! The store is reached by the caller. [`Traversal::next_query`] says which
//! query to send next; [`Traversal::record`] takes what came back.

use vstd::prelude::*;
use crate::config::{TypeConfig, config_entries, entry_at, entry_count};
use crate::frontier::Frontier;
use crate::json::Json;
use crate::query::{
    backward_typed_text, create_backward_parametrized_select_query_with_type,
    create_forward_parametrized_select_query_with_type, forward_typed_text, join_lines,
    joined_lines,
};
use crate::results::{
    all_have_iri, bracketed, bracketed_iris, iris_of, parse_json_uris, result_rows, rows_at,
    uri_rows,
};
use crate::snippet::{build_delete_snippet, delete_snippet_text};

verus! {

/// The configuration's entries: type, reverse types, forward types.
pub type Entries = Seq<(Seq<char>, Seq<Seq<char>>, Seq<Seq<char>>)>;

/// The frontier's model: the IRIs in scope for each type.
pub type Scope = Map<Seq<char>, Seq<Seq<char>>>;

/// A position in the pass: an entry, a direction (forward after reverse),
/// and an edge of that direction.
pub type Position = (int, bool, int);

/// The edges of entry `e` in the given direction.
pub open spec fn edges_of(entries: Entries, e: int, forward: bool) -> Seq<Seq<char>> {
    if forward {
        entries[e].2
    } else {
        entries[e].1
    }
}

/// The first position at or after `(e, forward, k)` whose edge is queried:
/// one whose entry's type is in scope. Past the last entry, the end.
pub open spec fn settle(entries: Entries, scope: Scope, e: int, forward: bool, k: int) -> Position
    decreases entries.len() - e, if forward { 0int } else { 1int },
{
    if e < 0 || e >= entries.len() {
        (entries.len() as int, false, 0)
    } else if !scope.contains_key(entries[e].0) {
        settle(entries, scope, e + 1, false, 0)
    } else if 0 <= k < edges_of(entries, e, forward).len() {
        (e, forward, k)
    } else if !forward {
        settle(entries, scope, e, true, 0)
    } else {
        settle(entries, scope, e + 1, false, 0)
    }
}

/// Settling never moves back to an earlier entry.
pub proof fn settle_moves_forward(entries: Entries, scope: Scope, e: int, forward: bool, k: int)
    requires
        0 <= e <= entries.len(),
    ensures
        settle(entries, scope, e, forward, k).0 >= e,
    decreases entries.len() - e, if forward { 0int } else { 1int },
{
    if e < entries.len() && scope.contains_key(entries[e].0) {
        if !(0 <= k < edges_of(entries, e, forward).len()) {
            if !forward {
                settle_moves_forward(entries, scope, e, true, 0);
            } else {
                settle_moves_forward(entries, scope, e + 1, false, 0);
            }
        }
    } else if e < entries.len() {
        settle_moves_forward(entries, scope, e + 1, false, 0);
    }
}

/// An entry whose type is not in scope sends no query: the pass moves past
/// it whole.
pub proof fn absent_type_sends_no_query(
    entries: Entries,
    scope: Scope,
    e: int,
    forward: bool,
    k: int,
)
    requires
        0 <= e < entries.len(),
        !scope.contains_key(entries[e].0),
    ensures
        settle(entries, scope, e, forward, k).0 > e,
        !queries_at(entries, scope, e, forward, k),
{
    settle_moves_forward(entries, scope, e + 1, false, 0);
}

/// The edge at `(e, forward, k)` is one whose query is sent.
pub open spec fn queries_at(entries: Entries, scope: Scope, e: int, forward: bool, k: int) -> bool {
    &&& 0 <= e < entries.len()
    &&& scope.contains_key(entries[e].0)
    &&& 0 <= k < edges_of(entries, e, forward).len()
}

/// The variable that a query in the given direction selects.
pub open spec fn hit_var(forward: bool) -> Seq<char> {
    if forward {
        "o"@
    } else {
        "s"@
    }
}

/// The query sent at `(e, forward, k)`: the entities of the entry's type in
/// scope, and the edge's type.
pub open spec fn query_at(entries: Entries, scope: Scope, e: int, forward: bool, k: int) -> Seq<
    char,
> {
    let iris = joined_lines(scope[entries[e].0]);
    let target = edges_of(entries, e, forward)[k];
    if forward {
        forward_typed_text(iris, target)
    } else {
        backward_typed_text(iris, target)
    }
}

/// What the store answered to a query.
pub enum Reply {
    /// The store answered with a SPARQL JSON result.
    Answered(Json),
    /// The store could not be reached, or refused the query.
    Failed,
}

/// A row that binds the selected variable to an IRI but carries no text
/// for it.
#[derive(Debug, PartialEq, Eq, Structural)]
pub enum MalformedReply {
    IriWithoutValue,
}

/// The rows of a reply that bind `var` to an IRI; none for a failure.
pub open spec fn hits(reply: Reply, var: Seq<char>) -> Seq<Json> {
    match reply {
        Reply::Answered(result) => uri_rows(result_rows(result), var),
        Reply::Failed => Seq::empty(),
    }
}

/// Each of `iris` between angle brackets.
pub open spec fn bracketed_all(iris: Seq<Seq<char>>) -> Seq<Seq<char>> {
    iris.map_values(|iri: Seq<char>| bracketed(iri))
}

/// The plan as one text: each statement followed by a line with `;` and a
/// blank line.
pub open spec fn plan_text_of(plan: Seq<Seq<char>>) -> Seq<char>
    decreases plan.len(),
{
    if plan.len() == 0 {
        Seq::empty()
    } else {
        plan_text_of(plan.drop_last()) + plan.last() + "\n;\n\n"@
    }
}

/// Writes `plan` as one text, each statement followed by a `;` line and a
/// blank line.
pub fn render_plan(plan: &Vec<String>) -> (r: String)
    ensures
        r@ == plan_text_of(plan.deep_view()),
{
    let mut s = String::new();
    let mut i: usize = 0;
    while i < plan.len()
        invariant
            i <= plan@.len(),
            s@ == plan_text_of(plan.deep_view().subrange(0, i as int)),
        decreases plan@.len() - i,
    {
        assert(plan.deep_view().subrange(0, i as int + 1).drop_last()
            =~= plan.deep_view().subrange(0, i as int));
        s.append(plan[i].as_str());
        s.append("\n;\n\n");
        i = i + 1;
    }
    assert(plan.deep_view().subrange(0, i as int) =~= plan.deep_view());
    s
}

/// One pass over a type configuration from a seed entity.
pub struct Traversal {
    config: TypeConfig,
    frontier: Frontier,
    plan: Vec<String>,
    entry: usize,
    forward: bool,
    edge: usize,
}

impl Traversal {
    /// The configuration's entries, in order.
    pub closed spec fn entries(&self) -> Entries {
        config_entries(self.config)
    }

    /// The IRIs in scope, by type.
    pub closed spec fn scope(&self) -> Scope {
        self.frontier@
    }

    /// The delete statements planned so far, in order.
    pub closed spec fn planned(&self) -> Seq<Seq<char>> {
        self.plan.deep_view()
    }

    /// The position of the next edge to consider.
    pub closed spec fn position(&self) -> Position {
        (self.entry as int, self.forward, self.edge as int)
    }

    /// The position is at or before the end of the pass.
    pub closed spec fn well_formed(&self) -> bool {
        self.entry <= config_entries(self.config).len()
    }

    /// A pass over `config` whose frontier holds `seed_iri` under `seed_type`.
    pub fn new(config: TypeConfig, seed_iri: &str, seed_type: &str) -> (r: Traversal)
        ensures
            r.well_formed(),
            r.entries() == config_entries(config),
            r.scope() == Map::<Seq<char>, Seq<Seq<char>>>::empty().insert(
                seed_type@,
                seq![seed_iri@],
            ),
            r.planned() == Seq::<Seq<char>>::empty(),
            r.position() == (0int, false, 0int),
    {
        let r = Traversal {
            config,
            frontier: Frontier::new(seed_type, seed_iri),
            plan: Vec::new(),
            entry: 0,
            forward: false,
            edge: 0,
        };
        assert(r.plan.deep_view() =~= Seq::<Seq<char>>::empty());
        r
    }

    /// The IRIs in scope for `ty`, if the pass has reached that type.
    pub fn in_scope(&self, ty: &str) -> (r: Option<&Vec<String>>)
        ensures
            match r {
                Some(iris) => self.scope().contains_key(ty@) && self.scope()[ty@]
                    == iris.deep_view(),
                None => !self.scope().contains_key(ty@),
            },
    {
        self.frontier.get(ty)
    }

    /// The delete statements planned so far, in order.
    pub fn plan(&self) -> (r: &Vec<String>)
        ensures
            r.deep_view() == self.planned(),
    {
        &self.plan
    }

    /// The plan as one text.
    pub fn plan_text(&self) -> (r: String)
        ensures
            r@ == plan_text_of(self.planned()),
    {
        render_plan(&self.plan)
    }

    /// Moves to the next edge whose query is sent, and gives that query; or
    /// to the end of the pass, and gives nothing. Entries whose type is not
    /// in scope are passed over whole.
    pub fn next_query(&mut self) -> (r: Option<String>)
        requires
            old(self).well_formed(),
        ensures
            final(self).well_formed(),
            final(self).entries() == old(self).entries(),
            final(self).scope() == old(self).scope(),
            final(self).planned() == old(self).planned(),
            final(self).position() == settle(
                old(self).entries(),
                old(self).scope(),
                old(self).position().0,
                old(self).position().1,
                old(self).position().2,
            ),
            match r {
                Some(q) => queries_at(
                    final(self).entries(),
                    final(self).scope(),
                    final(self).position().0,
                    final(self).position().1,
                    final(self).position().2,
                ) && q@ == query_at(
                    final(self).entries(),
                    final(self).scope(),
                    final(self).position().0,
                    final(self).position().1,
                    final(self).position().2,
                ),
                None => final(self).position().0 == final(self).entries().len(),
            },
    {
        let ghost entries = config_entries(self.config);
        let ghost scope = self.frontier@;
        let ghost target = settle(
            entries,
            scope,
            self.entry as int,
            self.forward,
            self.edge as int,
        );
        let count = entry_count(&self.config);
        while self.entry < count
            invariant
                self.config == old(self).config,
                self.frontier == old(self).frontier,
                self.plan == old(self).plan,
                entries == config_entries(self.config),
                scope == self.frontier@,
                count == entries.len(),
                self.entry <= count,
                self.plan.deep_view() == old(self).plan.deep_view(),
                settle(entries, scope, self.entry as int, self.forward, self.edge as int)
                    == target,
                target == settle(
                    entries,
                    scope,
                    old(self).entry as int,
                    old(self).forward,
                    old(self).edge as int,
                ),
            decreases count - self.entry, if self.forward { 0int } else { 1int },
        {
            let (ty, edges) = match entry_at(&self.config, self.entry) {
                Some(pair) => pair,
                None => {
                    return None;
                },
            };
            match self.frontier.get(ty.as_str()) {
                Some(iris) => {
                    let list = if self.forward {
                        &edges.forward
                    } else {
                        &edges.reverse
                    };
                    assert(list@.len() == list.deep_view().len());
                    if self.edge < list.len() {
                        let values = join_lines(iris);
                        let q = if self.forward {
                            create_forward_parametrized_select_query_with_type(
                                values.as_str(),
                                list[self.edge].as_str(),
                            )
                        } else {
                            create_backward_parametrized_select_query_with_type(
                                values.as_str(),
                                list[self.edge].as_str(),
                            )
                        };
                        assert(settle(
                            entries,
                            scope,
                            self.entry as int,
                            self.forward,
                            self.edge as int,
                        ) == (self.entry as int, self.forward, self.edge as int));
                        return Some(q);
                    } else if !self.forward {
                        self.forward = true;
                        self.edge = 0;
                    } else {
                        self.entry = self.entry + 1;
                        self.forward = false;
                        self.edge = 0;
                    }
                },
                None => {
                    self.entry = self.entry + 1;
                    self.forward = false;
                    self.edge = 0;
                },
            }
        }
        self.forward = false;
        self.edge = 0;
        None
    }

    /// Takes the store's reply to the query that [`Traversal::next_query`]
    /// gave, and moves past its edge.
    ///
    /// When the reply binds the selected variable to IRIs, they become the
    /// frontier of the edge's type and a statement that deletes them joins
    /// the plan. A failed reply counts as no hits. A reply with an IRI row
    /// that has no text is refused and changes nothing.
    pub fn record(&mut self, reply: &Reply) -> (r: Result<(), MalformedReply>)
        requires
            old(self).well_formed(),
            queries_at(
                old(self).entries(),
                old(self).scope(),
                old(self).position().0,
                old(self).position().1,
                old(self).position().2,
            ),
        ensures
            final(self).well_formed(),
            final(self).entries() == old(self).entries(),
            ({
                let (e, forward, k) = old(self).position();
                let var = hit_var(forward);
                let rows = hits(*reply, var);
                let target = edges_of(old(self).entries(), e, forward)[k];
                if rows.len() == 0 {
                    &&& r is Ok
                    &&& final(self).scope() == old(self).scope()
                    &&& final(self).planned() == old(self).planned()
                    &&& final(self).position() == (e, forward, k + 1)
                } else if !all_have_iri(rows, var) {
                    &&& r is Err
                    &&& final(self).scope() == old(self).scope()
                    &&& final(self).planned() == old(self).planned()
                    &&& final(self).position() == (e, forward, k)
                } else {
                    &&& r is Ok
                    &&& final(self).scope() == old(self).scope().insert(
                        target,
                        bracketed_all(iris_of(rows, var)),
                    )
                    &&& final(self).planned() == old(self).planned().push(
                        delete_snippet_text(iris_of(rows, var)),
                    )
                    &&& final(self).position() == (e, forward, k + 1)
                }
            }),
    {
        let ghost entries = config_entries(self.config);
        let (_, edges) = match entry_at(&self.config, self.entry) {
            Some(pair) => pair,
            None => {
                return Ok(());
            },
        };
        let list = if self.forward {
            &edges.forward
        } else {
            &edges.reverse
        };
        let n: usize = list.len();
        assert(self.edge < n);
        let var = if self.forward {
            "o"
        } else {
            "s"
        };
        proof {
            reveal_strlit("o");
            reveal_strlit("s");
            assert(var@ == hit_var(self.forward));
        }
        if let Reply::Answered(result) = reply {
            let rows = parse_json_uris(result, var);
            if rows.len() > 0 {
                match bracketed_iris(&rows, var) {
                    Some(iris) => {
                        let snippet = build_delete_snippet(&rows, var);
                        let ghost before = self.plan.deep_view();
                        proof {
                            assert(iris.deep_view() =~= bracketed_all(
                                iris_of(rows_at(rows@), var@),
                            ));
                        }
                        self.frontier.set(list[self.edge].clone(), iris);
                        self.plan.push(snippet);
                        assert(self.plan.deep_view() =~= before.push(snippet@));
                    },
                    None => {
                        return Err(MalformedReply::IriWithoutValue);
                    },
                }
            }
        }
        self.edge = self.edge + 1;
        Ok(())
    }
}

} // verus!
