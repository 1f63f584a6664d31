//! The filter expression model: a recursive predicate tree (or a raw,
//! pre-encoded text) together with its wire rendering, the nested
//! bracketed-array syntax the remote service accepts.

use vstd::prelude::*;

use crate::wire::{escape_json, spec_escaped, spec_quoted};

verus! {

/// A comparison operator of a leaf predicate.
#[derive(Clone, Copy, PartialEq, Eq, Structural, Debug)]
pub enum FilterOp {
    Eq,
    Neq,
    Gt,
    Gte,
    Lt,
    Lte,
}

impl FilterOp {
    /// The operator as it appears on the wire.
    pub open spec fn spec_wire(self) -> Seq<char> {
        match self {
            FilterOp::Eq => "="@,
            FilterOp::Neq => "!="@,
            FilterOp::Gt => ">"@,
            FilterOp::Gte => ">="@,
            FilterOp::Lt => "<"@,
            FilterOp::Lte => "<="@,
        }
    }

    pub fn wire_name(self) -> (r: &'static str)
        ensures
            r@ == self.spec_wire(),
    {
        match self {
            FilterOp::Eq => "=",
            FilterOp::Neq => "!=",
            FilterOp::Gt => ">",
            FilterOp::Gte => ">=",
            FilterOp::Lt => "<",
            FilterOp::Lte => "<=",
        }
    }
}

/// A filter expression: either a raw pre-encoded text, accepted verbatim,
/// or a structured tree of predicates combined with `and` / `or`.
///
/// No check is made that leaf field names are legal for the queried
/// resource; the remote service is the sole arbiter of filter validity.
pub enum Filter {
    /// An already-serialized filter, passed through unchanged.
    Raw(String),
    /// A `(field, operator, value)` predicate.
    Leaf(String, FilterOp, String),
    /// All children must hold.
    And(Vec<Filter>),
    /// At least one child must hold.
    Or(Vec<Filter>),
}

/// The wire text of a filter expression: a raw filter stands for itself, a
/// leaf becomes the three-element array `[field, operator, value]`, and a
/// compound node becomes `[tag, child, child, ...]`, children in order.
pub open spec fn spec_filter_wire(f: Filter) -> Seq<char>
    decreases f, 0int,
{
    match f {
        Filter::Raw(s) => s@,
        Filter::Leaf(field, op, value) => seq!['['] + spec_quoted(spec_escaped(field@)) + seq![',']
            + spec_quoted(op.spec_wire()) + seq![','] + spec_quoted(spec_escaped(value@))
            + seq![']'],
        Filter::And(cs) => seq!['['] + spec_quoted("and"@) + spec_filter_children(cs@, 0)
            + seq![']'],
        Filter::Or(cs) => seq!['['] + spec_quoted("or"@) + spec_filter_children(cs@, 0)
            + seq![']'],
    }
}

/// The wire text of the children `cs[i..]`, each preceded by a comma.
pub open spec fn spec_filter_children(cs: Seq<Filter>, i: int) -> Seq<char>
    decreases cs, cs.len() - i,
{
    if i < 0 || i >= cs.len() {
        Seq::empty()
    } else {
        seq![','] + spec_filter_wire(cs[i]) + spec_filter_children(cs, i + 1)
    }
}

impl Filter {
    /// Renders the expression in the wire filter syntax.
    #[verifier::loop_isolation(false)]
    pub fn to_wire(&self) -> (r: String)
        ensures
            r@ == spec_filter_wire(*self),
        decreases *self,
    {
        match self {
            Filter::Raw(s) => s.clone(),
            Filter::Leaf(field, op, value) => {
                let mut out = String::new();
                out.append("[\"");
                out.append(escape_json(field.as_str()).as_str());
                out.append("\",\"");
                out.append(op.wire_name());
                out.append("\",\"");
                out.append(escape_json(value.as_str()).as_str());
                out.append("\"]");
                proof {
                    reveal_strlit("[\"");
                    reveal_strlit("\",\"");
                    reveal_strlit("\"]");
                    assert("[\""@ =~= seq!['[', '"']);
                    assert("\",\""@ =~= seq!['"', ',', '"']);
                    assert("\"]"@ =~= seq!['"', ']']);
                    assert(out@ =~= spec_filter_wire(*self));
                }
                out
            },
            Filter::And(cs) => {
                let mut out = String::new();
                out.append("[\"and\"");
                proof {
                    reveal_strlit("[\"and\"");
                    assert("[\"and\""@ =~= seq!['['] + spec_quoted("and"@)) by {
                        reveal_strlit("and");
                    }
                }
                let n: usize = cs.len();
                for i in 0..n
                    invariant
                        n == cs@.len(),
                        out@ + spec_filter_children(cs@, i as int) =~= seq!['['] + spec_quoted(
                            "and"@,
                        ) + spec_filter_children(cs@, 0),
                    decreases n - i,
                {
                    proof {
                        broadcast use vstd::std_specs::vec::group_vec_axioms;
                        assert(decreases_to!(*self => self->And_0));
                        assert(decreases_to!(*cs => cs[i as int]));
                        assert(decreases_to!(*self => cs[i as int]));
                    }
                    out.append(",");
                    let child = cs[i].to_wire();
                    out.append(child.as_str());
                    proof {
                        reveal_strlit(",");
                        assert(","@ =~= seq![',']);
                    }
                }
                out.append("]");
                proof {
                    reveal_strlit("]");
                    assert("]"@ =~= seq![']']);
                    assert(out@ =~= spec_filter_wire(*self));
                }
                out
            },
            Filter::Or(cs) => {
                let mut out = String::new();
                out.append("[\"or\"");
                proof {
                    reveal_strlit("[\"or\"");
                    assert("[\"or\""@ =~= seq!['['] + spec_quoted("or"@)) by {
                        reveal_strlit("or");
                    }
                }
                let n: usize = cs.len();
                for i in 0..n
                    invariant
                        n == cs@.len(),
                        out@ + spec_filter_children(cs@, i as int) =~= seq!['['] + spec_quoted(
                            "or"@,
                        ) + spec_filter_children(cs@, 0),
                    decreases n - i,
                {
                    proof {
                        broadcast use vstd::std_specs::vec::group_vec_axioms;
                        assert(decreases_to!(*self => self->Or_0));
                        assert(decreases_to!(*cs => cs[i as int]));
                        assert(decreases_to!(*self => cs[i as int]));
                    }
                    out.append(",");
                    let child = cs[i].to_wire();
                    out.append(child.as_str());
                    proof {
                        reveal_strlit(",");
                        assert(","@ =~= seq![',']);
                    }
                }
                out.append("]");
                proof {
                    reveal_strlit("]");
                    assert("]"@ =~= seq![']']);
                    assert(out@ =~= spec_filter_wire(*self));
                }
                out
            },
        }
    }
}

} // verus!
