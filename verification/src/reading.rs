//! Ghost readers of the wire forms, and the proofs that rendering loses
//! nothing: reading back the rendered text of a JSON string, of a
//! structured filter expression, or of a whole request body recovers
//! exactly the content that was rendered.  Nothing here is executable;
//! the executable rendering lives in [`crate::filter`], [`crate::query`]
//! and [`crate::wire`].

use vstd::prelude::*;

use crate::filter::{spec_filter_children, spec_filter_wire, Filter, FilterOp};
use crate::query::{spec_query_pairs, spec_query_wire, Query, SortField};
use crate::wire::{
    spec_bool, spec_csv, spec_dec_u8, spec_digit, spec_escaped, spec_escaped_char, spec_hex_digit,
    spec_opt_pair, spec_pair, spec_quoted,
};

verus! {

/// The numeric value of a hexadecimal digit character, or -1.
pub open spec fn spec_hex_val(c: char) -> int {
    if c == '0' {
        0
    } else if c == '1' {
        1
    } else if c == '2' {
        2
    } else if c == '3' {
        3
    } else if c == '4' {
        4
    } else if c == '5' {
        5
    } else if c == '6' {
        6
    } else if c == '7' {
        7
    } else if c == '8' {
        8
    } else if c == '9' {
        9
    } else if c == 'a' {
        10
    } else if c == 'b' {
        11
    } else if c == 'c' {
        12
    } else if c == 'd' {
        13
    } else if c == 'e' {
        14
    } else if c == 'f' {
        15
    } else {
        -1
    }
}

proof fn lemma_hex_val_of_digit(d: int)
    requires
        0 <= d < 16,
    ensures
        spec_hex_val(spec_hex_digit(d)) == d,
{
}

/// One decoded character of a JSON string, read at position `i`: the
/// character itself, or an escape sequence.  Yields the decoded character
/// and the width consumed, or nothing on a malformed escape.
pub open spec fn read_string_char(s: Seq<char>, i: int) -> Option<(char, int)> {
    if i < 0 || i >= s.len() || s[i] == '"' {
        Option::None
    } else if s[i] == '\\' {
        if i + 1 >= s.len() {
            Option::None
        } else if s[i + 1] == '"' {
            Option::Some(('"', 2))
        } else if s[i + 1] == '\\' {
            Option::Some(('\\', 2))
        } else if s[i + 1] == 'n' {
            Option::Some(('\n', 2))
        } else if s[i + 1] == 'r' {
            Option::Some(('\r', 2))
        } else if s[i + 1] == 't' {
            Option::Some(('\t', 2))
        } else if s[i + 1] == 'u' {
            if i + 6 <= s.len() && s[i + 2] == '0' && s[i + 3] == '0' && spec_hex_val(s[i + 4]) >= 0
                && spec_hex_val(s[i + 5]) >= 0 {
                Option::Some(
                    (((16 * spec_hex_val(s[i + 4]) + spec_hex_val(s[i + 5])) as u32) as char, 6),
                )
            } else {
                Option::None
            }
        } else {
            Option::None
        }
    } else {
        Option::Some((s[i], 1))
    }
}

/// The body of a JSON string read from position `i` up to its closing
/// quote: the decoded text and the position just past the quote.
pub open spec fn read_string_body(s: Seq<char>, i: int) -> Option<(Seq<char>, int)>
    decreases s.len() - i,
{
    if i < 0 || i >= s.len() {
        Option::None
    } else if s[i] == '"' {
        Option::Some((Seq::empty(), i + 1))
    } else {
        match read_string_char(s, i) {
            Option::None => Option::None,
            Option::Some((c, w)) => if w >= 1 {
                match read_string_body(s, i + w) {
                    Option::None => Option::None,
                    Option::Some((rest, j)) => Option::Some((seq![c] + rest, j)),
                }
            } else {
                Option::None
            },
        }
    }
}

/// From an equality on a subrange, the pointwise characters.
proof fn lemma_subrange_chars(s: Seq<char>, w: Seq<char>, i: int)
    requires
        0 <= i,
        i + w.len() <= s.len(),
        s.subrange(i, i + w.len()) == w,
    ensures
        forall|k: int| 0 <= k < w.len() ==> s[i + k] == w[k],
{
    assert forall|k: int| 0 <= k < w.len() implies s[i + k] == w[k] by {
        assert(s.subrange(i, i + w.len())[k] == s[i + k]);
    }
}

/// Reading an escaped character undoes the escaping, wherever it stands.
proof fn lemma_read_escaped_char(c: char, s: Seq<char>, i: int)
    requires
        0 <= i,
        i + spec_escaped_char(c).len() <= s.len(),
        forall|k: int|
            0 <= k < spec_escaped_char(c).len() ==> s[i + k] == spec_escaped_char(c)[k],
    ensures
        read_string_char(s, i) == Option::Some((c, spec_escaped_char(c).len() as int)),
{
    let e = spec_escaped_char(c);
    assert(s[i + 0] == e[0]);
    if c == '"' || c == '\\' || c == '\n' || c == '\r' || c == '\t' {
        assert(s[i] == '\\');
        assert(s[i + 1] == e[1]);
    } else if (c as u32) < 32 {
        assert(s[i] == '\\');
        assert(s[i + 1] == 'u');
        assert(s[i + 2] == '0');
        assert(s[i + 3] == '0');
        let hi = (c as u32) as int / 16;
        let lo = (c as u32) as int % 16;
        assert(s[i + 4] == spec_hex_digit(hi));
        assert(s[i + 5] == spec_hex_digit(lo));
        lemma_hex_val_of_digit(hi);
        lemma_hex_val_of_digit(lo);
        assert(16 * hi + lo == c as u32) by {
            assert((c as u32) as int / 16 * 16 + (c as u32) as int % 16 == (c as u32) as int);
        }
        assert((((c as u32)) as char) == c);
    } else {
        assert(s[i] == c);
    }
}


/// Reading a rendered JSON string body undoes the escaping: at `i` stands
/// the escaped text followed by the closing quote, and the reader yields
/// the original text and the position just past that quote.
pub proof fn lemma_read_string_round_trip(t: Seq<char>, s: Seq<char>, i: int)
    requires
        0 <= i,
        i + spec_escaped(t).len() + 1 <= s.len(),
        s.subrange(i, i + spec_escaped(t).len()) == spec_escaped(t),
        s[i + spec_escaped(t).len()] == '"',
    ensures
        read_string_body(s, i) == Option::Some((t, i + spec_escaped(t).len() + 1)),
    decreases t.len(),
{
    let e = spec_escaped(t);
    lemma_subrange_chars(s, e, i);
    if t.len() == 0 {
        assert(s[i] == '"');
    } else {
        let c = t[0];
        let ec = spec_escaped_char(c);
        let t2 = t.drop_first();
        let e2 = spec_escaped(t2);
        assert(e == ec + e2);
        assert forall|k: int| 0 <= k < ec.len() implies s[i + k] == ec[k] by {
            assert(e[k] == ec[k]);
        }
        lemma_read_escaped_char(c, s, i);
        let w = ec.len() as int;
        assert forall|m: int| 0 <= m < e2.len() implies s.subrange(i + w, i + w + e2.len())[m]
            == e2[m] by {
            assert(s[i + (w + m)] == e[w + m]);
            assert(e[w + m] == e2[m]);
            assert(s.subrange(i + w, i + w + e2.len())[m] == s[i + w + m]);
            assert(i + w + m == i + (w + m));
        }
        assert(s.subrange(i + w, i + w + e2.len()) =~= e2);
        assert(s[i + (w + e2.len())] == '"');
        assert(s[i + w + e2.len()] == '"');
        lemma_read_string_round_trip(t2, s, i + w);
        assert(s[i] != '"') by {
            assert(s[i + 0] == ec[0]);
            if c == '"' || c == '\\' || c == '\n' || c == '\r' || c == '\t' || (c as u32) < 32 {
                assert(ec[0] == '\\');
            } else {
                assert(ec[0] == c);
            }
        }
        assert(seq![c] + t2 =~= t);
        assert(read_string_body(s, i) == Option::Some((t, i + e.len() + 1)));
    }
}

/// A character that stands for itself inside a JSON string.
pub open spec fn is_plain(c: char) -> bool {
    c != '"' && c != '\\' && (c as u32) >= 32
}

/// Text of plain characters is unchanged by escaping.
proof fn lemma_plain_escape(t: Seq<char>)
    requires
        forall|k: int| 0 <= k < t.len() ==> is_plain(#[trigger] t[k]),
    ensures
        spec_escaped(t) == t,
    decreases t.len(),
{
    if t.len() == 0 {
        assert(spec_escaped(t) =~= t);
    } else {
        assert(is_plain(t[0]));
        assert(spec_escaped_char(t[0]) == seq![t[0]]);
        lemma_plain_escape(t.drop_first());
        assert(spec_escaped(t) =~= t);
    }
}

/// The ghost content of a filter expression: the same shape, with every
/// text taken as a sequence of characters.
pub enum FilterTerm {
    Raw(Seq<char>),
    Leaf(Seq<char>, FilterOp, Seq<char>),
    And(Seq<FilterTerm>),
    Or(Seq<FilterTerm>),
}

/// The content of a filter expression.
pub open spec fn term_of(f: Filter) -> FilterTerm
    decreases f, 0int,
{
    match f {
        Filter::Raw(s) => FilterTerm::Raw(s@),
        Filter::Leaf(field, op, value) => FilterTerm::Leaf(field@, op, value@),
        Filter::And(cs) => FilterTerm::And(terms_of(cs@, 0)),
        Filter::Or(cs) => FilterTerm::Or(terms_of(cs@, 0)),
    }
}

/// The contents of the children `cs[idx..]`.
pub open spec fn terms_of(cs: Seq<Filter>, idx: int) -> Seq<FilterTerm>
    decreases cs, cs.len() - idx,
{
    if idx < 0 || idx >= cs.len() {
        Seq::empty()
    } else {
        seq![term_of(cs[idx])] + terms_of(cs, idx + 1)
    }
}

/// A filter built entirely from the structured forms, with no raw
/// pre-encoded text anywhere in it.
pub open spec fn structured(f: Filter) -> bool
    decreases f, 0int,
{
    match f {
        Filter::Raw(_) => false,
        Filter::Leaf(_, _, _) => true,
        Filter::And(cs) => all_structured(cs@, 0),
        Filter::Or(cs) => all_structured(cs@, 0),
    }
}

/// Whether every child in `cs[idx..]` is structured.
pub open spec fn all_structured(cs: Seq<Filter>, idx: int) -> bool
    decreases cs, cs.len() - idx,
{
    if idx < 0 || idx >= cs.len() {
        true
    } else {
        structured(cs[idx]) && all_structured(cs, idx + 1)
    }
}

/// Fuel sufficient for the reader to consume the expression.
pub open spec fn filter_fuel(f: Filter) -> nat
    decreases f, 0int,
{
    match f {
        Filter::Raw(_) => 1,
        Filter::Leaf(_, _, _) => 1,
        Filter::And(cs) => 1 + list_fuel(cs@, 0),
        Filter::Or(cs) => 1 + list_fuel(cs@, 0),
    }
}

/// Fuel sufficient for the reader to consume the children `cs[idx..]`.
pub open spec fn list_fuel(cs: Seq<Filter>, idx: int) -> nat
    decreases cs, cs.len() - idx,
{
    if idx < 0 || idx >= cs.len() {
        1
    } else {
        1 + filter_fuel(cs[idx]) + list_fuel(cs, idx + 1)
    }
}

/// The operator denoted by a wire name, if any.
pub open spec fn op_of_name(name: Seq<char>) -> Option<FilterOp> {
    if name == "="@ {
        Option::Some(FilterOp::Eq)
    } else if name == "!="@ {
        Option::Some(FilterOp::Neq)
    } else if name == ">"@ {
        Option::Some(FilterOp::Gt)
    } else if name == ">="@ {
        Option::Some(FilterOp::Gte)
    } else if name == "<"@ {
        Option::Some(FilterOp::Lt)
    } else if name == "<="@ {
        Option::Some(FilterOp::Lte)
    } else {
        Option::None
    }
}

/// A reader of one filter expression, starting at `i`: the content read
/// and the position just past it.
pub open spec fn parse_filter(s: Seq<char>, i: int, fuel: nat) -> Option<(FilterTerm, int)>
    decreases fuel, 1int,
{
    if fuel == 0 {
        Option::None
    } else if i < 0 || i + 2 > s.len() || s[i] != '[' || s[i + 1] != '"' {
        Option::None
    } else {
        match read_string_body(s, i + 2) {
            Option::None => Option::None,
            Option::Some((first, j)) => if j < s.len() && s[j] == ']' {
                if first == "and"@ {
                    Option::Some((FilterTerm::And(Seq::empty()), j + 1))
                } else if first == "or"@ {
                    Option::Some((FilterTerm::Or(Seq::empty()), j + 1))
                } else {
                    Option::None
                }
            } else if j + 1 < s.len() && s[j] == ',' && s[j + 1] == '"' {
                parse_leaf_tail(s, j + 2, first)
            } else if j + 1 < s.len() && s[j] == ',' && s[j + 1] == '[' && (first == "and"@
                || first == "or"@) {
                match parse_filter_list(s, j, (fuel - 1) as nat) {
                    Option::None => Option::None,
                    Option::Some((children, k)) => if first == "and"@ {
                        Option::Some((FilterTerm::And(children), k))
                    } else {
                        Option::Some((FilterTerm::Or(children), k))
                    },
                }
            } else {
                Option::None
            },
        }
    }
}

/// The rest of a leaf after its field name: operator and value strings and
/// the closing bracket.
pub open spec fn parse_leaf_tail(s: Seq<char>, i: int, field: Seq<char>) -> Option<
    (FilterTerm, int),
> {
    match read_string_body(s, i) {
        Option::None => Option::None,
        Option::Some((opname, j)) => match op_of_name(opname) {
            Option::None => Option::None,
            Option::Some(op) => if j + 1 < s.len() && s[j] == ',' && s[j + 1] == '"' {
                match read_string_body(s, j + 2) {
                    Option::None => Option::None,
                    Option::Some((value, k)) => if k < s.len() && s[k] == ']' {
                        Option::Some((FilterTerm::Leaf(field, op, value), k + 1))
                    } else {
                        Option::None
                    },
                }
            } else {
                Option::None
            },
        },
    }
}

/// A reader of a compound node's remaining children: at `i` stands either
/// the closing bracket or a comma before the next child.
pub open spec fn parse_filter_list(s: Seq<char>, i: int, fuel: nat) -> Option<
    (Seq<FilterTerm>, int),
>
    decreases fuel, 0int,
{
    if fuel == 0 {
        Option::None
    } else if i < 0 || i >= s.len() {
        Option::None
    } else if s[i] == ']' {
        Option::Some((Seq::empty(), i + 1))
    } else if s[i] == ',' {
        match parse_filter(s, i + 1, (fuel - 1) as nat) {
            Option::None => Option::None,
            Option::Some((child, j)) => match parse_filter_list(s, j, (fuel - 1) as nat) {
                Option::None => Option::None,
                Option::Some((rest, k)) => Option::Some((seq![child] + rest, k)),
            },
        }
    } else {
        Option::None
    }
}

/// Each operator's wire name reads back as that operator.
proof fn lemma_op_name_round_trip(op: FilterOp)
    ensures
        op_of_name(op.spec_wire()) == Option::Some(op),
        forall|k: int| 0 <= k < op.spec_wire().len() ==> is_plain(#[trigger] op.spec_wire()[k]),
        spec_escaped(op.spec_wire()) == op.spec_wire(),
{
    reveal_strlit("=");
    reveal_strlit("!=");
    reveal_strlit(">");
    reveal_strlit(">=");
    reveal_strlit("<");
    reveal_strlit("<=");
    match op {
        FilterOp::Eq => {
            assert(op.spec_wire() =~= seq!['=']);
        },
        FilterOp::Neq => {
            assert(op.spec_wire() =~= seq!['!', '=']);
        },
        FilterOp::Gt => {
            assert(op.spec_wire() =~= seq!['>']);
        },
        FilterOp::Gte => {
            assert(op.spec_wire() =~= seq!['>', '=']);
        },
        FilterOp::Lt => {
            assert(op.spec_wire() =~= seq!['<']);
        },
        FilterOp::Lte => {
            assert(op.spec_wire() =~= seq!['<', '=']);
        },
    }
    lemma_plain_escape(op.spec_wire());
}

/// The tags are plain text, unchanged by escaping, and distinct.
proof fn lemma_tags_plain()
    ensures
        spec_escaped("and"@) == "and"@,
        spec_escaped("or"@) == "or"@,
        "and"@ != "or"@,
        forall|k: int| 0 <= k < "and"@.len() ==> is_plain(#[trigger] "and"@[k]),
        forall|k: int| 0 <= k < "or"@.len() ==> is_plain(#[trigger] "or"@[k]),
{
    reveal_strlit("and");
    reveal_strlit("or");
    assert("and"@ =~= seq!['a', 'n', 'd']);
    assert("or"@ =~= seq!['o', 'r']);
    lemma_plain_escape("and"@);
    lemma_plain_escape("or"@);
}

/// A structured filter's wire text opens with a bracket.
proof fn lemma_wire_opens_bracket(f: Filter)
    requires
        structured(f),
    ensures
        spec_filter_wire(f).len() >= 2,
        spec_filter_wire(f)[0] == '[',
{
}

/// Reading the rendered wire text of a structured filter, wherever it
/// stands, recovers exactly its content.
proof fn lemma_read_filter(f: Filter, s: Seq<char>, i: int, fuel: nat)
    requires
        structured(f),
        0 <= i,
        i + spec_filter_wire(f).len() <= s.len(),
        s.subrange(i, i + spec_filter_wire(f).len()) == spec_filter_wire(f),
        fuel >= filter_fuel(f),
    ensures
        parse_filter(s, i, fuel) == Option::Some(
            (term_of(f), i + spec_filter_wire(f).len() as int),
        ),
    decreases fuel, 1int,
{
    let w = spec_filter_wire(f);
    lemma_subrange_chars(s, w, i);
    match f {
        Filter::Raw(_) => {
            assert(false);
        },
        Filter::Leaf(field, op, value) => {
            let ef = spec_escaped(field@);
            let eo = op.spec_wire();
            let ev = spec_escaped(value@);
            lemma_op_name_round_trip(op);
            assert(w == seq!['['] + spec_quoted(ef) + seq![','] + spec_quoted(eo) + seq![',']
                + spec_quoted(ev) + seq![']']);
            assert(s[i + 0] == w[0]);
            assert(w[0] == '[');
            assert(s[i + 1] == w[1]);
            assert(w[1] == '"');
            // the field string
            assert forall|m: int| 0 <= m < ef.len() implies s.subrange(i + 2, i + 2 + ef.len())[m]
                == ef[m] by {
                assert(s[i + (2 + m)] == w[2 + m]);
                assert(w[2 + m] == ef[m]);
                assert(s.subrange(i + 2, i + 2 + ef.len())[m] == s[i + 2 + m]);
                assert(i + 2 + m == i + (2 + m));
            }
            assert(s.subrange(i + 2, i + 2 + ef.len()) =~= ef);
            assert(s[i + (2 + ef.len())] == w[(2 + ef.len()) as int]);
            assert(w[(2 + ef.len()) as int] == '"');
            lemma_read_string_round_trip(field@, s, i + 2);
            let j = i + 2 + ef.len() + 1;
            assert(s[i + (3 + ef.len())] == w[(3 + ef.len()) as int]);
            assert(w[(3 + ef.len()) as int] == ',');
            assert(s[i + (4 + ef.len())] == w[(4 + ef.len()) as int]);
            assert(w[(4 + ef.len()) as int] == '"');
            assert(s[j] == ',' && s[j + 1] == '"');
            // the operator string
            let jo = j + 2;
            assert forall|m: int| 0 <= m < eo.len() implies s.subrange(jo, jo + eo.len())[m]
                == eo[m] by {
                assert(s[i + (5 + ef.len() + m)] == w[5 + ef.len() + m]);
                assert(w[5 + ef.len() + m] == eo[m]);
                assert(s.subrange(jo, jo + eo.len())[m] == s[jo + m]);
                assert(jo + m == i + (5 + ef.len() + m));
            }
            assert(s.subrange(jo, jo + eo.len()) =~= eo);
            assert(s[i + (5 + ef.len() + eo.len())] == w[(5 + ef.len() + eo.len()) as int]);
            assert(w[(5 + ef.len() + eo.len()) as int] == '"');
            assert(s[jo + eo.len()] == s[i + (5 + ef.len() + eo.len())]);
            assert(spec_escaped(eo) == eo);
            lemma_read_string_round_trip(eo, s, jo);
            assert(read_string_body(s, jo) == Option::Some((eo, jo + eo.len() + 1)));
            let j2 = jo + eo.len() + 1;
            assert(s[i + (6 + ef.len() + eo.len())] == w[(6 + ef.len() + eo.len()) as int]);
            assert(w[(6 + ef.len() + eo.len()) as int] == ',');
            assert(s[i + (7 + ef.len() + eo.len())] == w[(7 + ef.len() + eo.len()) as int]);
            assert(w[(7 + ef.len() + eo.len()) as int] == '"');
            assert(s[j2] == ',' && s[j2 + 1] == '"');
            // the value string
            let jv = j2 + 2;
            assert forall|m: int| 0 <= m < ev.len() implies s.subrange(jv, jv + ev.len())[m]
                == ev[m] by {
                assert(s[i + (8 + ef.len() + eo.len() + m)] == w[8 + ef.len() + eo.len() + m]);
                assert(w[8 + ef.len() + eo.len() + m] == ev[m]);
                assert(s.subrange(jv, jv + ev.len())[m] == s[jv + m]);
                assert(jv + m == i + (8 + ef.len() + eo.len() + m));
            }
            assert(s.subrange(jv, jv + ev.len()) =~= ev);
            assert(s[i + (8 + ef.len() + eo.len() + ev.len())] == w[(8 + ef.len() + eo.len() + ev.len()) as int]);
            assert(w[(8 + ef.len() + eo.len() + ev.len()) as int] == '"');
            assert(s[jv + ev.len()] == s[i + (8 + ef.len() + eo.len() + ev.len())]);
            lemma_read_string_round_trip(value@, s, jv);
            let j3 = jv + ev.len() + 1;
            assert(s[i + (9 + ef.len() + eo.len() + ev.len())] == w[(9 + ef.len() + eo.len() + ev.len()) as int]);
            assert(w[(9 + ef.len() + eo.len() + ev.len()) as int] == ']');
            assert(s[j3] == s[i + (9 + ef.len() + eo.len() + ev.len())]);
            // the pieces compose
            assert(parse_leaf_tail(s, j + 2, field@) == Option::Some(
                (FilterTerm::Leaf(field@, op, value@), j3 + 1),
            ));
            assert(j3 + 1 == i + w.len());
            assert(parse_filter(s, i, fuel) == Option::Some((term_of(f), i + w.len() as int)));
        },
        Filter::And(cs) => {
            lemma_read_compound(f, cs@, s, i, fuel);
        },
        Filter::Or(cs) => {
            lemma_read_compound(f, cs@, s, i, fuel);
        },
    }
}

/// The compound case of [`lemma_read_filter`]: a tag and a child list.
proof fn lemma_read_compound(f: Filter, cs: Seq<Filter>, s: Seq<char>, i: int, fuel: nat)
    requires
        structured(f),
        (f matches Filter::And(v) && v@ == cs) || (f matches Filter::Or(v) && v@ == cs),
        0 <= i,
        i + spec_filter_wire(f).len() <= s.len(),
        s.subrange(i, i + spec_filter_wire(f).len()) == spec_filter_wire(f),
        fuel >= filter_fuel(f),
    ensures
        parse_filter(s, i, fuel) == Option::Some(
            (term_of(f), i + spec_filter_wire(f).len() as int),
        ),
    decreases fuel, 0int,
{
    let w = spec_filter_wire(f);
    let tag: Seq<char> = if f matches Filter::And(_) {
        "and"@
    } else {
        "or"@
    };
    let ch = spec_filter_children(cs, 0);
    lemma_subrange_chars(s, w, i);
    lemma_tags_plain();
    assert(w == seq!['['] + spec_quoted(tag) + ch + seq![']']);
    assert(s[i + 0] == w[0]);
    assert(w[0] == '[');
    assert(s[i + 1] == w[1]);
    assert(w[1] == '"');
    assert forall|m: int| 0 <= m < tag.len() implies s.subrange(i + 2, i + 2 + tag.len())[m]
        == tag[m] by {
        assert(s[i + (2 + m)] == w[2 + m]);
        assert(w[2 + m] == tag[m]);
        assert(s.subrange(i + 2, i + 2 + tag.len())[m] == s[i + 2 + m]);
        assert(i + 2 + m == i + (2 + m));
    }
    assert(s.subrange(i + 2, i + 2 + tag.len()) =~= tag);
    assert(s[i + (2 + tag.len())] == w[(2 + tag.len()) as int]);
    assert(w[(2 + tag.len()) as int] == '"');
    assert(spec_escaped(tag) == tag);
    lemma_read_string_round_trip(tag, s, i + 2);
    assert(read_string_body(s, i + 2) == Option::Some((tag, i + 2 + tag.len() + 1)));
    let j = i + 3 + tag.len();
    if cs.len() == 0 {
        assert(ch =~= Seq::<char>::empty());
        assert(s[i + (3 + tag.len())] == w[(3 + tag.len()) as int]);
        assert(w[(3 + tag.len()) as int] == ']');
        assert(s[j] == s[i + (3 + tag.len())]);
        assert(terms_of(cs, 0) =~= Seq::<FilterTerm>::empty());
        assert(parse_filter(s, i, fuel) == Option::Some((term_of(f), i + w.len() as int)));
    } else {
        assert(ch == seq![','] + spec_filter_wire(cs[0]) + spec_filter_children(cs, 1));
        assert(s[i + (3 + tag.len())] == w[3 + tag.len() as int]);
        assert(w[3 + tag.len() as int] == ch[0]);
        assert(s[j] == ',');
        lemma_wire_opens_bracket(cs[0]);
        assert(s[i + (4 + tag.len())] == w[4 + tag.len() as int]);
        assert(w[4 + tag.len() as int] == ch[1]);
        assert(ch[1] == spec_filter_wire(cs[0])[0]);
        assert(s[j + 1] == '[');
        // the child list, closed by the final bracket
        assert forall|m: int| 0 <= m < ch.len() implies s.subrange(j, j + ch.len())[m]
            == ch[m] by {
            assert(s[i + (3 + tag.len() + m)] == w[3 + tag.len() + m]);
            assert(w[3 + tag.len() + m] == ch[m]);
            assert(s.subrange(j, j + ch.len())[m] == s[j + m]);
            assert(j + m == i + (3 + tag.len() + m));
        }
        assert(s.subrange(j, j + ch.len()) =~= ch);
        assert(s[i + (3 + tag.len() + ch.len())] == w[(3 + tag.len() + ch.len()) as int]);
        assert(w[(3 + tag.len() + ch.len()) as int] == ']');
        assert(s[j + ch.len()] == s[i + (3 + tag.len() + ch.len())]);
        lemma_read_filter_list(cs, 0, s, j, (fuel - 1) as nat);
        assert(parse_filter_list(s, j, (fuel - 1) as nat) == Option::Some(
            (terms_of(cs, 0), j + ch.len() + 1),
        ));
        assert(j + ch.len() + 1 == i + w.len());
        assert(parse_filter(s, i, fuel) == Option::Some((term_of(f), i + w.len() as int)));
    }
}

/// Reading rendered children `cs[idx..]` up to their closing bracket
/// recovers exactly their contents.
proof fn lemma_read_filter_list(cs: Seq<Filter>, idx: int, s: Seq<char>, i: int, fuel: nat)
    requires
        all_structured(cs, idx),
        0 <= idx <= cs.len(),
        0 <= i,
        i + spec_filter_children(cs, idx).len() + 1 <= s.len(),
        s.subrange(i, i + spec_filter_children(cs, idx).len()) == spec_filter_children(cs, idx),
        s[i + spec_filter_children(cs, idx).len()] == ']',
        fuel >= list_fuel(cs, idx),
    ensures
        parse_filter_list(s, i, fuel) == Option::Some(
            (terms_of(cs, idx), i + spec_filter_children(cs, idx).len() + 1),
        ),
    decreases fuel, 0int,
{
    let ch = spec_filter_children(cs, idx);
    lemma_subrange_chars(s, ch, i);
    if idx >= cs.len() {
        assert(ch =~= Seq::<char>::empty());
        assert(s[i + ch.len()] == ']');
        assert(s[i] == s[i + ch.len()]);
        assert(terms_of(cs, idx) =~= Seq::<FilterTerm>::empty());
    } else {
        let cw = spec_filter_wire(cs[idx]);
        let rest = spec_filter_children(cs, idx + 1);
        assert(ch == seq![','] + cw + rest);
        assert(s[i + 0] == ch[0]);
        assert(ch[0] == ',');
        assert(s[i] == s[i + 0]);
        assert(s[i] != ']');
        // the first child
        assert forall|m: int| 0 <= m < cw.len() implies s.subrange(i + 1, i + 1 + cw.len())[m]
            == cw[m] by {
            assert(s[i + (1 + m)] == ch[1 + m]);
            assert(ch[1 + m] == cw[m]);
            assert(s.subrange(i + 1, i + 1 + cw.len())[m] == s[i + 1 + m]);
            assert(i + 1 + m == i + (1 + m));
        }
        assert(s.subrange(i + 1, i + 1 + cw.len()) =~= cw);
        assert(structured(cs[idx]));
        lemma_read_filter(cs[idx], s, i + 1, (fuel - 1) as nat);
        let j = i + 1 + cw.len();
        // the remaining children
        assert forall|m: int| 0 <= m < rest.len() implies s.subrange(j, j + rest.len())[m]
            == rest[m] by {
            assert(s[i + (1 + cw.len() + m)] == ch[1 + cw.len() + m]);
            assert(ch[1 + cw.len() + m] == rest[m]);
            assert(s.subrange(j, j + rest.len())[m] == s[j + m]);
            assert(j + m == i + (1 + cw.len() + m));
        }
        assert(s.subrange(j, j + rest.len()) =~= rest);
        assert(s[i + (1 + cw.len() + rest.len())] == ']');
        assert(s[j + rest.len()] == s[i + (1 + cw.len() + rest.len())]);
        lemma_read_filter_list(cs, idx + 1, s, j, (fuel - 1) as nat);
        assert(seq![term_of(cs[idx])] + terms_of(cs, idx + 1) =~= terms_of(cs, idx));
        assert(parse_filter_list(s, i, fuel) == Option::Some(
            (terms_of(cs, idx), i + ch.len() + 1),
        ));
    }
}

/// The wire rendering of a structured filter loses nothing: reading the
/// rendered text back recovers exactly the expression's content.
pub proof fn lemma_filter_wire_round_trip(f: Filter, fuel: nat)
    requires
        structured(f),
        fuel >= filter_fuel(f),
    ensures
        parse_filter(spec_filter_wire(f), 0, fuel) == Option::Some(
            (term_of(f), spec_filter_wire(f).len() as int),
        ),
{
    let w = spec_filter_wire(f);
    assert(w.subrange(0, w.len() as int) =~= w);
    lemma_read_filter(f, w, 0, fuel);
}

/// Two structured filters with the same wire text have the same content:
/// the rendering is injective up to content.
pub proof fn lemma_filter_wire_injective(f1: Filter, f2: Filter)
    requires
        structured(f1),
        structured(f2),
        spec_filter_wire(f1) == spec_filter_wire(f2),
    ensures
        term_of(f1) == term_of(f2),
{
    let fuel = filter_fuel(f1) + filter_fuel(f2);
    lemma_filter_wire_round_trip(f1, fuel);
    lemma_filter_wire_round_trip(f2, fuel);
}


/// The numeric value of a decimal digit character, or -1.
pub open spec fn spec_dig_val(c: char) -> int {
    if spec_hex_val(c) < 10 {
        spec_hex_val(c)
    } else {
        -1
    }
}

/// Accumulates decimal digits from `i` and stops at the first non-digit.
pub open spec fn read_digits(s: Seq<char>, i: int, acc: int) -> (int, int)
    decreases s.len() - i,
{
    if 0 <= i < s.len() && spec_dig_val(s[i]) >= 0 {
        read_digits(s, i + 1, 10 * acc + spec_dig_val(s[i]))
    } else {
        (acc, i)
    }
}

/// A decimal number read at `i`: its value and the position after it.
pub open spec fn read_number(s: Seq<char>, i: int) -> Option<(int, int)> {
    if 0 <= i < s.len() && spec_dig_val(s[i]) >= 0 {
        Option::Some(read_digits(s, i, 0))
    } else {
        Option::None
    }
}

/// A JSON boolean read at `i`.
pub open spec fn read_bool(s: Seq<char>, i: int) -> Option<(bool, int)> {
    if 0 <= i && i + 4 <= s.len() && s.subrange(i, i + 4) == "true"@ {
        Option::Some((true, i + 4))
    } else if 0 <= i && i + 5 <= s.len() && s.subrange(i, i + 5) == "false"@ {
        Option::Some((false, i + 5))
    } else {
        Option::None
    }
}

/// A complete JSON string read at `i`, opening quote included.
pub open spec fn read_jstring(s: Seq<char>, i: int) -> Option<(Seq<char>, int)> {
    if 0 <= i < s.len() && s[i] == '"' {
        read_string_body(s, i + 1)
    } else {
        Option::None
    }
}

/// The sort key denoted by a wire name, if any.
pub open spec fn sort_of_name(name: Seq<char>) -> Option<SortField> {
    if name == "id"@ {
        Option::Some(SortField::Id)
    } else if name == "title"@ {
        Option::Some(SortField::Title)
    } else if name == "released"@ {
        Option::Some(SortField::Released)
    } else if name == "rating"@ {
        Option::Some(SortField::Rating)
    } else if name == "votecount"@ {
        Option::Some(SortField::Votecount)
    } else if name == "searchrank"@ {
        Option::Some(SortField::Searchrank)
    } else if name == "name"@ {
        Option::Some(SortField::Name)
    } else if name == "vn_count"@ {
        Option::Some(SortField::VnCount)
    } else if name == "char_count"@ {
        Option::Some(SortField::CharCount)
    } else if name == "voted"@ {
        Option::Some(SortField::Voted)
    } else if name == "vote"@ {
        Option::Some(SortField::Vote)
    } else if name == "added"@ {
        Option::Some(SortField::Added)
    } else if name == "lastmod"@ {
        Option::Some(SortField::Lastmod)
    } else if name == "started"@ {
        Option::Some(SortField::Started)
    } else if name == "finished"@ {
        Option::Some(SortField::Finished)
    } else {
        Option::None
    }
}

/// A quoted sort key read at `i`.
pub open spec fn read_sort(s: Seq<char>, i: int) -> Option<(SortField, int)> {
    match read_jstring(s, i) {
        Option::None => Option::None,
        Option::Some((name, j)) => match sort_of_name(name) {
            Option::None => Option::None,
            Option::Some(k) => Option::Some((k, j)),
        },
    }
}

/// The separator before a member: nothing for the first, a comma after.
pub open spec fn sep_text(first: bool) -> Seq<char> {
    if first {
        Seq::empty()
    } else {
        seq![',']
    }
}

/// The text that introduces a member: separator, quoted key, colon.
pub open spec fn member_prefix(key: Seq<char>, first: bool) -> Seq<char> {
    sep_text(first) + spec_quoted(key) + seq![':']
}

/// Whether the member for `key` begins at `i`.
pub open spec fn member_starts(s: Seq<char>, i: int, first: bool, key: Seq<char>) -> bool {
    let p = member_prefix(key, first);
    0 <= i && i + p.len() <= s.len() && s.subrange(i, i + p.len()) == p
}

/// The members of an object body, each after its separator.
pub open spec fn members_text(pairs: Seq<Seq<char>>, first: bool) -> Seq<char>
    decreases pairs.len(),
{
    if pairs.len() == 0 {
        Seq::empty()
    } else {
        sep_text(first) + pairs[0] + members_text(pairs.drop_first(), false)
    }
}

/// The member list is the comma-joined text of the pairs.
proof fn lemma_members_csv(pairs: Seq<Seq<char>>)
    ensures
        members_text(pairs, true) == spec_csv(pairs),
        members_text(pairs, false) == if pairs.len() == 0 {
            Seq::<char>::empty()
        } else {
            (seq![','] + spec_csv(pairs))
        },
    decreases pairs.len(),
{
    if pairs.len() == 0 {
        assert(members_text(pairs, true) =~= spec_csv(pairs));
    } else if pairs.len() == 1 {
        assert(members_text(pairs.drop_first(), false) =~= Seq::<char>::empty());
        assert(members_text(pairs, true) =~= spec_csv(pairs));
        assert(members_text(pairs, false) =~= seq![','] + spec_csv(pairs));
    } else {
        lemma_members_csv(pairs.drop_first());
        assert(members_text(pairs, true) =~= spec_csv(pairs));
        assert(members_text(pairs, false) =~= seq![','] + spec_csv(pairs));
    }
}

/// The key of the `n`-th member of a request body, in wire order.
pub open spec fn qkey(n: int) -> Seq<char> {
    if n == 0 {
        "filters"@
    } else if n == 1 {
        "fields"@
    } else if n == 2 {
        "sort"@
    } else if n == 3 {
        "reverse"@
    } else if n == 4 {
        "results"@
    } else if n == 5 {
        "page"@
    } else if n == 6 {
        "user"@
    } else if n == 7 {
        "count"@
    } else if n == 8 {
        "compact_filters"@
    } else {
        "normalized_filters"@
    }
}

/// The rendered value of the `n`-th member of `q`, when set.
pub open spec fn qval<T>(q: Query<T>, n: int) -> Option<Seq<char>> {
    if n == 0 {
    match q.filters {
            Option::Some(f) => Option::Some(spec_filter_wire(f)),
            Option::None => Option::None,
        }
    } else if n == 1 {
    match q.fields {
            Option::Some(t) => Option::Some(spec_quoted(spec_escaped(t@))),
            Option::None => Option::None,
        }
    } else if n == 2 {
    match q.sort {
            Option::Some(k) => Option::Some(spec_quoted(k.spec_wire())),
            Option::None => Option::None,
        }
    } else if n == 3 {
    match q.reverse {
            Option::Some(b) => Option::Some(spec_bool(b)),
            Option::None => Option::None,
        }
    } else if n == 4 {
    match q.results {
            Option::Some(m) => Option::Some(spec_dec_u8(m)),
            Option::None => Option::None,
        }
    } else if n == 5 {
    match q.page {
            Option::Some(m) => Option::Some(spec_dec_u8(m)),
            Option::None => Option::None,
        }
    } else if n == 6 {
    match q.user {
            Option::Some(t) => Option::Some(spec_quoted(spec_escaped(t@))),
            Option::None => Option::None,
        }
    } else if n == 7 {
    match q.count {
            Option::Some(b) => Option::Some(spec_bool(b)),
            Option::None => Option::None,
        }
    } else if n == 8 {
    match q.compact_filters {
            Option::Some(b) => Option::Some(spec_bool(b)),
            Option::None => Option::None,
        }
    } else {
    match q.normalized_filters {
            Option::Some(b) => Option::Some(spec_bool(b)),
            Option::None => Option::None,
        }
    }
}

/// The members of `q` from the `n`-th on.
pub open spec fn pairs_from<T>(q: Query<T>, n: int) -> Seq<Seq<char>>
    decreases 10 - n,
{
    if n < 0 || n >= 10 {
        Seq::empty()
    } else {
        spec_opt_pair(qkey(n), qval(q, n)) + pairs_from(q, n + 1)
    }
}

/// Concatenation of member lists is associative.
proof fn lemma_assoc(a: Seq<Seq<char>>, b: Seq<Seq<char>>, c: Seq<Seq<char>>)
    ensures
        a + b + c == a + (b + c),
{
    assert(a + b + c =~= a + (b + c));
}

/// The empty member list is a unit for concatenation.
proof fn lemma_unit(a: Seq<Seq<char>>)
    ensures
        a + Seq::<Seq<char>>::empty() == a,
{
    assert(a + Seq::<Seq<char>>::empty() =~= a);
}

/// One unfolding of the remaining-members list.
proof fn lemma_pairs_suffix<T>(q: Query<T>, n: int)
    requires
        0 <= n < 10,
    ensures
        pairs_from(q, n) == spec_opt_pair(qkey(n), qval(q, n)) + pairs_from(q, n + 1),
{
}

/// The request body's members, written with the indexed key and value.
#[verifier::rlimit(100)]
proof fn lemma_query_pairs_unfolded<T>(q: Query<T>)
    ensures
        spec_query_pairs(q) == spec_opt_pair(qkey(0), qval(q, 0)) + spec_opt_pair(qkey(1), qval(q, 1)) + spec_opt_pair(qkey(2), qval(q, 2)) + spec_opt_pair(qkey(3), qval(q, 3)) + spec_opt_pair(qkey(4), qval(q, 4)) + spec_opt_pair(qkey(5), qval(q, 5)) + spec_opt_pair(qkey(6), qval(q, 6)) + spec_opt_pair(qkey(7), qval(q, 7)) + spec_opt_pair(qkey(8), qval(q, 8)) + spec_opt_pair(qkey(9), qval(q, 9)),
{
    assert(qkey(0) == "filters"@);
    assert(qkey(1) == "fields"@);
    assert(qkey(2) == "sort"@);
    assert(qkey(3) == "reverse"@);
    assert(qkey(4) == "results"@);
    assert(qkey(5) == "page"@);
    assert(qkey(6) == "user"@);
    assert(qkey(7) == "count"@);
    assert(qkey(8) == "compact_filters"@);
    assert(qkey(9) == "normalized_filters"@);
}

/// All ten members together are exactly the request body's members.
proof fn lemma_pairs_from_all<T>(q: Query<T>)
    ensures
        pairs_from(q, 0) == spec_query_pairs(q),
{
    let s0 = spec_opt_pair(qkey(0), qval(q, 0));
    let s1 = spec_opt_pair(qkey(1), qval(q, 1));
    let s2 = spec_opt_pair(qkey(2), qval(q, 2));
    let s3 = spec_opt_pair(qkey(3), qval(q, 3));
    let s4 = spec_opt_pair(qkey(4), qval(q, 4));
    let s5 = spec_opt_pair(qkey(5), qval(q, 5));
    let s6 = spec_opt_pair(qkey(6), qval(q, 6));
    let s7 = spec_opt_pair(qkey(7), qval(q, 7));
    let s8 = spec_opt_pair(qkey(8), qval(q, 8));
    let s9 = spec_opt_pair(qkey(9), qval(q, 9));
    let t10 = pairs_from(q, 10);
    assert(t10 == Seq::<Seq<char>>::empty());
    let t9 = pairs_from(q, 9);
    lemma_pairs_suffix(q, 9);
    let t8 = pairs_from(q, 8);
    lemma_pairs_suffix(q, 8);
    let t7 = pairs_from(q, 7);
    lemma_pairs_suffix(q, 7);
    let t6 = pairs_from(q, 6);
    lemma_pairs_suffix(q, 6);
    let t5 = pairs_from(q, 5);
    lemma_pairs_suffix(q, 5);
    let t4 = pairs_from(q, 4);
    lemma_pairs_suffix(q, 4);
    let t3 = pairs_from(q, 3);
    lemma_pairs_suffix(q, 3);
    let t2 = pairs_from(q, 2);
    lemma_pairs_suffix(q, 2);
    let t1 = pairs_from(q, 1);
    lemma_pairs_suffix(q, 1);
    let t0 = pairs_from(q, 0);
    lemma_pairs_suffix(q, 0);
    let u0 = s0;
    let u1 = u0 + s1;
    let u2 = u1 + s2;
    let u3 = u2 + s3;
    let u4 = u3 + s4;
    let u5 = u4 + s5;
    let u6 = u5 + s6;
    let u7 = u6 + s7;
    let u8 = u7 + s8;
    let u9 = u8 + s9;
    lemma_query_pairs_unfolded(q);
    assert(spec_query_pairs(q) == u9);
    assert(t0 == u0 + t1);
    lemma_assoc(u0, s1, t2);
    assert(u0 + t1 == u1 + t2);
    lemma_assoc(u1, s2, t3);
    assert(u1 + t2 == u2 + t3);
    lemma_assoc(u2, s3, t4);
    assert(u2 + t3 == u3 + t4);
    lemma_assoc(u3, s4, t5);
    assert(u3 + t4 == u4 + t5);
    lemma_assoc(u4, s5, t6);
    assert(u4 + t5 == u5 + t6);
    lemma_assoc(u5, s6, t7);
    assert(u5 + t6 == u6 + t7);
    lemma_assoc(u6, s7, t8);
    assert(u6 + t7 == u7 + t8);
    lemma_assoc(u7, s8, t9);
    assert(u7 + t8 == u8 + t9);
    lemma_assoc(u8, s9, t10);
    assert(u8 + t9 == u9 + t10);
    lemma_unit(u9);
    assert(pairs_from(q, 0) == spec_query_pairs(q));
}

/// An index at which two member keys differ.
pub open spec fn key_div(a: int, b: int) -> int {
    if a == 0 && b == 1 {
        2
    } else if a == 0 && b == 2 {
        0
    } else if a == 0 && b == 3 {
        0
    } else if a == 0 && b == 4 {
        0
    } else if a == 0 && b == 5 {
        0
    } else if a == 0 && b == 6 {
        0
    } else if a == 0 && b == 7 {
        0
    } else if a == 0 && b == 8 {
        0
    } else if a == 0 && b == 9 {
        0
    } else if a == 1 && b == 2 {
        0
    } else if a == 1 && b == 3 {
        0
    } else if a == 1 && b == 4 {
        0
    } else if a == 1 && b == 5 {
        0
    } else if a == 1 && b == 6 {
        0
    } else if a == 1 && b == 7 {
        0
    } else if a == 1 && b == 8 {
        0
    } else if a == 1 && b == 9 {
        0
    } else if a == 2 && b == 3 {
        0
    } else if a == 2 && b == 4 {
        0
    } else if a == 2 && b == 5 {
        0
    } else if a == 2 && b == 6 {
        0
    } else if a == 2 && b == 7 {
        0
    } else if a == 2 && b == 8 {
        0
    } else if a == 2 && b == 9 {
        0
    } else if a == 3 && b == 4 {
        2
    } else if a == 3 && b == 5 {
        0
    } else if a == 3 && b == 6 {
        0
    } else if a == 3 && b == 7 {
        0
    } else if a == 3 && b == 8 {
        0
    } else if a == 3 && b == 9 {
        0
    } else if a == 4 && b == 5 {
        0
    } else if a == 4 && b == 6 {
        0
    } else if a == 4 && b == 7 {
        0
    } else if a == 4 && b == 8 {
        0
    } else if a == 4 && b == 9 {
        0
    } else if a == 5 && b == 6 {
        0
    } else if a == 5 && b == 7 {
        0
    } else if a == 5 && b == 8 {
        0
    } else if a == 5 && b == 9 {
        0
    } else if a == 6 && b == 7 {
        0
    } else if a == 6 && b == 8 {
        0
    } else if a == 6 && b == 9 {
        0
    } else if a == 7 && b == 8 {
        2
    } else if a == 7 && b == 9 {
        0
    } else if a == 8 && b == 9 {
        0
    } else {
        0
    }
}

/// Any two distinct member keys differ within their common length.
proof fn lemma_keys_diverge(a: int, b: int)
    requires
        0 <= a < b < 10,
    ensures
        0 <= key_div(a, b) < qkey(a).len(),
        key_div(a, b) < qkey(b).len(),
        qkey(a)[key_div(a, b)] != qkey(b)[key_div(a, b)],
{
    reveal_strlit("filters");
    reveal_strlit("fields");
    reveal_strlit("sort");
    reveal_strlit("reverse");
    reveal_strlit("results");
    reveal_strlit("page");
    reveal_strlit("user");
    reveal_strlit("count");
    reveal_strlit("compact_filters");
    reveal_strlit("normalized_filters");
}

/// The content of a query as its wire form carries it: for each optional
/// member, whether it is present and, when it is, its value.
pub struct QueryContent {
    pub filters: Option<FilterTerm>,
    pub fields: Option<Seq<char>>,
    pub sort: Option<SortField>,
    pub reverse: Option<bool>,
    pub results: Option<int>,
    pub page: Option<int>,
    pub user: Option<Seq<char>>,
    pub count: Option<bool>,
    pub compact_filters: Option<bool>,
    pub normalized_filters: Option<bool>,
}

/// The content a query's wire form should carry.
pub open spec fn query_content<T>(q: Query<T>) -> QueryContent {
    QueryContent {
        filters: match q.filters {
            Option::Some(f) => Option::Some(term_of(f)),
            Option::None => Option::None,
        },
        fields: match q.fields {
            Option::Some(t) => Option::Some(t@),
            Option::None => Option::None,
        },
        sort: q.sort,
        reverse: q.reverse,
        results: match q.results {
            Option::Some(m) => Option::Some(m as int),
            Option::None => Option::None,
        },
        page: match q.page {
            Option::Some(m) => Option::Some(m as int),
            Option::None => Option::None,
        },
        user: match q.user {
            Option::Some(t) => Option::Some(t@),
            Option::None => Option::None,
        },
        count: q.count,
        compact_filters: q.compact_filters,
        normalized_filters: q.normalized_filters,
    }
}

/// Reads the optional `filters` member.
pub open spec fn read_opt_filter(s: Seq<char>, i: int, first: bool, key: Seq<char>, fuel: nat)
    -> Option<(Option<FilterTerm>, int, bool)> {
    if member_starts(s, i, first, key) {
        match parse_filter(s, i + member_prefix(key, first).len(), fuel) {
            Option::Some((f, j)) => Option::Some((Option::Some(f), j, false)),
            Option::None => Option::None,
        }
    } else {
        Option::Some((Option::None, i, first))
    }
}

/// Reads an optional string-valued member.
pub open spec fn read_opt_string(s: Seq<char>, i: int, first: bool, key: Seq<char>) -> Option<
    (Option<Seq<char>>, int, bool),
> {
    if member_starts(s, i, first, key) {
        match read_jstring(s, i + member_prefix(key, first).len()) {
            Option::Some((t, j)) => Option::Some((Option::Some(t), j, false)),
            Option::None => Option::None,
        }
    } else {
        Option::Some((Option::None, i, first))
    }
}

/// Reads the optional `sort` member.
pub open spec fn read_opt_sort(s: Seq<char>, i: int, first: bool, key: Seq<char>) -> Option<
    (Option<SortField>, int, bool),
> {
    if member_starts(s, i, first, key) {
        match read_sort(s, i + member_prefix(key, first).len()) {
            Option::Some((k, j)) => Option::Some((Option::Some(k), j, false)),
            Option::None => Option::None,
        }
    } else {
        Option::Some((Option::None, i, first))
    }
}

/// Reads an optional boolean member.
pub open spec fn read_opt_bool(s: Seq<char>, i: int, first: bool, key: Seq<char>) -> Option<
    (Option<bool>, int, bool),
> {
    if member_starts(s, i, first, key) {
        match read_bool(s, i + member_prefix(key, first).len()) {
            Option::Some((b, j)) => Option::Some((Option::Some(b), j, false)),
            Option::None => Option::None,
        }
    } else {
        Option::Some((Option::None, i, first))
    }
}

/// Reads an optional numeric member.
pub open spec fn read_opt_number(s: Seq<char>, i: int, first: bool, key: Seq<char>) -> Option<
    (Option<int>, int, bool),
> {
    if member_starts(s, i, first, key) {
        match read_number(s, i + member_prefix(key, first).len()) {
            Option::Some((m, j)) => Option::Some((Option::Some(m), j, false)),
            Option::None => Option::None,
        }
    } else {
        Option::Some((Option::None, i, first))
    }
}

/// Reads a complete request body: the braces and the ten optional members
/// in wire order.
pub open spec fn read_query(s: Seq<char>, fuel: nat) -> Option<QueryContent> {
    if s.len() < 2 || s[0] != '{' {
        Option::None
    } else {
        match read_opt_filter(s, 1, true, "filters"@, fuel) {
            Option::None => Option::None,
            Option::Some((filters, i1, f1)) => match read_opt_string(s, i1, f1, "fields"@) {
                Option::None => Option::None,
                Option::Some((fields, i2, f2)) => match read_opt_sort(s, i2, f2, "sort"@) {
                    Option::None => Option::None,
                    Option::Some((sort, i3, f3)) => match read_opt_bool(s, i3, f3, "reverse"@) {
                        Option::None => Option::None,
                        Option::Some((reverse, i4, f4)) => match read_opt_number(
                            s,
                            i4,
                            f4,
                            "results"@,
                        ) {
                            Option::None => Option::None,
                            Option::Some((results, i5, f5)) => match read_opt_number(
                                s,
                                i5,
                                f5,
                                "page"@,
                            ) {
                                Option::None => Option::None,
                                Option::Some((page, i6, f6)) => match read_opt_string(
                                    s,
                                    i6,
                                    f6,
                                    "user"@,
                                ) {
                                    Option::None => Option::None,
                                    Option::Some((user, i7, f7)) => match read_opt_bool(
                                        s,
                                        i7,
                                        f7,
                                        "count"@,
                                    ) {
                                        Option::None => Option::None,
                                        Option::Some((count, i8, f8)) => match read_opt_bool(
                                            s,
                                            i8,
                                            f8,
                                            "compact_filters"@,
                                        ) {
                                            Option::None => Option::None,
                                            Option::Some((compact, i9, f9)) => match read_opt_bool(
                                                s,
                                                i9,
                                                f9,
                                                "normalized_filters"@,
                                            ) {
                                                Option::None => Option::None,
                                                Option::Some((normalized, i10, _f10)) => if i10 + 1
                                                    == s.len() && s[i10] == '}' {
                                                    Option::Some(
                                                        QueryContent {
                                                            filters,
                                                            fields,
                                                            sort,
                                                            reverse,
                                                            results,
                                                            page,
                                                            user,
                                                            count,
                                                            compact_filters: compact,
                                                            normalized_filters: normalized,
                                                        },
                                                    )
                                                } else {
                                                    Option::None
                                                },
                                            },
                                        },
                                    },
                                },
                            },
                        },
                    },
                },
            },
        }
    }
}

/// The text of the remaining members from the `n`-th on, then the closing
/// brace, is exactly what stands at `i`.
pub open spec fn tail_state<T>(q: Query<T>, s: Seq<char>, i: int, first: bool, n: int) -> bool {
    let m = members_text(pairs_from(q, n), first);
    &&& 0 <= i
    &&& s.len() == i + m.len() + 1
    &&& s.subrange(i, i + m.len()) == m
    &&& s[i + m.len()] == '}'
}

/// From pointwise characters, the subrange equality.
proof fn lemma_chars_subrange(s: Seq<char>, w: Seq<char>, i: int)
    requires
        0 <= i,
        i + w.len() <= s.len(),
        forall|k: int| 0 <= k < w.len() ==> s[i + k] == w[k],
    ensures
        s.subrange(i, i + w.len()) == w,
{
    assert forall|k: int| 0 <= k < w.len() implies s.subrange(i, i + w.len())[k] == w[k] by {
        assert(s.subrange(i, i + w.len())[k] == s[i + k]);
    }
    assert(s.subrange(i, i + w.len()) =~= w);
}

/// A segment of a known stretch of text, shifted to its own position.
proof fn lemma_shift_chars(s: Seq<char>, m: Seq<char>, i: int, off: int, w: Seq<char>)
    requires
        0 <= i,
        0 <= off,
        off + w.len() <= m.len(),
        i + m.len() <= s.len(),
        forall|k: int| 0 <= k < m.len() ==> s[i + k] == m[k],
        forall|d: int| 0 <= d < w.len() ==> m[off + d] == w[d],
    ensures
        forall|d: int| 0 <= d < w.len() ==> s[(i + off) + d] == w[d],
        s.subrange(i + off, i + off + w.len()) == w,
{
    assert forall|d: int| 0 <= d < w.len() implies s[(i + off) + d] == w[d] by {
        assert(s[i + (off + d)] == m[off + d]);
        assert((i + off) + d == i + (off + d));
    }
    lemma_chars_subrange(s, w, i + off);
}

/// A complete rendered JSON string reads back as its text.
proof fn lemma_read_jstring_at(t: Seq<char>, s: Seq<char>, i: int)
    requires
        0 <= i,
        i + spec_escaped(t).len() + 2 <= s.len(),
        forall|k: int|
            0 <= k < spec_escaped(t).len() + 2 ==> s[i + k] == spec_quoted(spec_escaped(t))[k],
    ensures
        read_jstring(s, i) == Option::Some((t, i + spec_escaped(t).len() + 2)),
{
    let e = spec_escaped(t);
    let qd = spec_quoted(e);
    assert(s[i + 0] == qd[0]);
    assert(qd[0] == '"');
    assert forall|k: int| 0 <= k < e.len() implies s[(i + 1) + k] == e[k] by {
        assert(s[i + (1 + k)] == qd[1 + k]);
        assert(qd[1 + k] == e[k]);
        assert((i + 1) + k == i + (1 + k));
    }
    lemma_chars_subrange(s, e, i + 1);
    assert(s[i + (1 + e.len())] == qd[(1 + e.len()) as int]);
    assert(qd[(1 + e.len()) as int] == '"');
    assert(s[i + 1 + e.len()] == '"');
    lemma_read_string_round_trip(t, s, i + 1);
}

/// A rendered boolean reads back as its value.
proof fn lemma_read_bool_at(b: bool, s: Seq<char>, i: int)
    requires
        0 <= i,
        i + spec_bool(b).len() <= s.len(),
        forall|k: int| 0 <= k < spec_bool(b).len() ==> s[i + k] == spec_bool(b)[k],
    ensures
        read_bool(s, i) == Option::Some((b, i + spec_bool(b).len())),
{
    reveal_strlit("true");
    reveal_strlit("false");
    if b {
        lemma_chars_subrange(s, "true"@, i);
    } else {
        lemma_chars_subrange(s, "false"@, i);
        if i + 4 <= s.len() && s.subrange(i, i + 4) == "true"@ {
            assert(s.subrange(i, i + 4)[0] == s[i + 0]);
            assert(s[i + 0] == "false"@[0]);
            assert(false);
        }
    }
}

/// The decimal digits have their values.
proof fn lemma_dig_val_of_digit(d: int)
    requires
        0 <= d < 10,
    ensures
        spec_dig_val(spec_digit(d)) == d,
{
    lemma_hex_val_of_digit(d);
}

/// A rendered page-size number reads back as its value, when what follows
/// is not a digit.
proof fn lemma_read_number_at(n: u8, s: Seq<char>, i: int)
    requires
        0 <= i,
        i + spec_dec_u8(n).len() < s.len(),
        forall|k: int| 0 <= k < spec_dec_u8(n).len() ==> s[i + k] == spec_dec_u8(n)[k],
        spec_dig_val(s[i + spec_dec_u8(n).len()]) < 0,
    ensures
        read_number(s, i) == Option::Some((n as int, i + spec_dec_u8(n).len())),
{
    let w = spec_dec_u8(n);
    let v = n as int;
    if n < 10 {
        assert(s[i + 0] == w[0]);
        lemma_dig_val_of_digit(v);
        assert(spec_dig_val(s[i]) == v);
        assert(s[i + 1] == s[i + w.len()]);
        assert(read_digits(s, i + 1, v) == (v, i + 1));
        assert(read_digits(s, i, 0) == (v, i + 1));
    } else if n < 100 {
        let d0 = v / 10;
        let d1 = v % 10;
        assert(s[i + 0] == w[0]);
        assert(s[i + 1] == w[1]);
        lemma_dig_val_of_digit(d0);
        lemma_dig_val_of_digit(d1);
        assert(spec_dig_val(s[i]) == d0);
        assert(spec_dig_val(s[i + 1]) == d1);
        assert(s[i + 2] == s[i + w.len()]);
        assert(read_digits(s, i + 2, 10 * d0 + d1) == (10 * d0 + d1, i + 2));
        assert(10 * d0 + d1 == v);
        assert(read_digits(s, i + 1, d0) == (v, i + 2));
        assert(read_digits(s, i, 0) == (v, i + 2));
    } else {
        let d0 = v / 100;
        let d1 = (v / 10) % 10;
        let d2 = v % 10;
        assert(s[i + 0] == w[0]);
        assert(s[i + 1] == w[1]);
        assert(s[i + 2] == w[2]);
        lemma_dig_val_of_digit(d0);
        lemma_dig_val_of_digit(d1);
        lemma_dig_val_of_digit(d2);
        assert(spec_dig_val(s[i]) == d0);
        assert(spec_dig_val(s[i + 1]) == d1);
        assert(spec_dig_val(s[i + 2]) == d2);
        assert(s[i + 3] == s[i + w.len()]);
        assert(read_digits(s, i + 3, 100 * d0 + 10 * d1 + d2) == (100 * d0 + 10 * d1 + d2, i + 3));
        assert(100 * d0 + 10 * d1 + d2 == v);
        assert(read_digits(s, i + 2, 10 * d0 + d1) == (v, i + 3));
        assert(read_digits(s, i + 1, d0) == (v, i + 3));
        assert(read_digits(s, i, 0) == (v, i + 3));
    }
}

/// Each sort key's wire name is plain text and reads back as that key.
proof fn lemma_sort_name_round_trip(k: SortField)
    ensures
        sort_of_name(k.spec_wire()) == Option::Some(k),
        spec_escaped(k.spec_wire()) == k.spec_wire(),
{
    reveal_strlit("id");
    reveal_strlit("title");
    reveal_strlit("released");
    reveal_strlit("rating");
    reveal_strlit("votecount");
    reveal_strlit("searchrank");
    reveal_strlit("name");
    reveal_strlit("vn_count");
    reveal_strlit("char_count");
    reveal_strlit("voted");
    reveal_strlit("vote");
    reveal_strlit("added");
    reveal_strlit("lastmod");
    reveal_strlit("started");
    reveal_strlit("finished");
    match k {
        SortField::Id => {
            assert(k.spec_wire() =~= seq!['i', 'd']);
        },
        SortField::Title => {
            assert(k.spec_wire() =~= seq!['t', 'i', 't', 'l', 'e']);
        },
        SortField::Released => {
            assert(k.spec_wire() =~= seq!['r', 'e', 'l', 'e', 'a', 's', 'e', 'd']);
        },
        SortField::Rating => {
            assert(k.spec_wire() =~= seq!['r', 'a', 't', 'i', 'n', 'g']);
        },
        SortField::Votecount => {
            assert(k.spec_wire() =~= seq!['v', 'o', 't', 'e', 'c', 'o', 'u', 'n', 't']);
        },
        SortField::Searchrank => {
            assert(k.spec_wire() =~= seq!['s', 'e', 'a', 'r', 'c', 'h', 'r', 'a', 'n', 'k']);
        },
        SortField::Name => {
            assert(k.spec_wire() =~= seq!['n', 'a', 'm', 'e']);
        },
        SortField::VnCount => {
            assert(k.spec_wire() =~= seq!['v', 'n', '_', 'c', 'o', 'u', 'n', 't']);
        },
        SortField::CharCount => {
            assert(k.spec_wire() =~= seq!['c', 'h', 'a', 'r', '_', 'c', 'o', 'u', 'n', 't']);
        },
        SortField::Voted => {
            assert(k.spec_wire() =~= seq!['v', 'o', 't', 'e', 'd']);
        },
        SortField::Vote => {
            assert(k.spec_wire() =~= seq!['v', 'o', 't', 'e']);
        },
        SortField::Added => {
            assert(k.spec_wire() =~= seq!['a', 'd', 'd', 'e', 'd']);
        },
        SortField::Lastmod => {
            assert(k.spec_wire() =~= seq!['l', 'a', 's', 't', 'm', 'o', 'd']);
        },
        SortField::Started => {
            assert(k.spec_wire() =~= seq!['s', 't', 'a', 'r', 't', 'e', 'd']);
        },
        SortField::Finished => {
            assert(k.spec_wire() =~= seq!['f', 'i', 'n', 'i', 's', 'h', 'e', 'd']);
        },
    }
    assert forall|d: int| 0 <= d < k.spec_wire().len() implies is_plain(
        #[trigger] k.spec_wire()[d],
    ) by {}
    lemma_plain_escape(k.spec_wire());
}

/// A rendered quoted sort key reads back as that key.
proof fn lemma_read_sort_at(k: SortField, s: Seq<char>, i: int)
    requires
        0 <= i,
        i + k.spec_wire().len() + 2 <= s.len(),
        forall|d: int|
            0 <= d < k.spec_wire().len() + 2 ==> s[i + d] == spec_quoted(k.spec_wire())[d],
    ensures
        read_sort(s, i) == Option::Some((k, i + k.spec_wire().len() + 2)),
{
    lemma_sort_name_round_trip(k);
    assert forall|d: int|
        0 <= d < spec_escaped(k.spec_wire()).len() + 2 implies s[i + d] == spec_quoted(
        spec_escaped(k.spec_wire()),
    )[d] by {
        assert(s[i + d] == spec_quoted(k.spec_wire())[d]);
    }
    lemma_read_jstring_at(k.spec_wire(), s, i);
}

/// When only members later than the `nk`-th remain, the `nk`-th member's
/// prefix does not begin here.
proof fn lemma_member_absent<T>(q: Query<T>, s: Seq<char>, i: int, first: bool, nk: int, m: int)
    requires
        0 <= nk < m <= 10,
        tail_state(q, s, i, first, m),
    ensures
        !member_starts(s, i, first, qkey(nk)),
    decreases 10 - m,
{
    let pn = member_prefix(qkey(nk), first);
    if m == 10 {
        assert(pairs_from(q, 10) == Seq::<Seq<char>>::empty());
        assert(members_text(pairs_from(q, 10), first) == Seq::<char>::empty());
        assert(pn.len() >= 3);
    } else if qval(q, m) is None {
        lemma_pairs_suffix(q, m);
        assert(spec_opt_pair(qkey(m), qval(q, m)) =~= Seq::<Seq<char>>::empty());
        assert(pairs_from(q, m) =~= pairs_from(q, m + 1));
        assert(tail_state(q, s, i, first, m + 1));
        lemma_member_absent(q, s, i, first, nk, m + 1);
    } else {
        let vtext = qval(q, m)->0;
        lemma_pairs_suffix(q, m);
        let pair = spec_pair(qkey(m), vtext);
        let rest = pairs_from(q, m + 1);
        assert(spec_opt_pair(qkey(m), qval(q, m)) == seq![pair]);
        assert((seq![pair] + rest).len() > 0);
        assert((seq![pair] + rest)[0] == pair);
        assert((seq![pair] + rest).drop_first() =~= rest);
        let mm = members_text(pairs_from(q, m), first);
        assert(mm == sep_text(first) + pair + members_text(rest, false));
        if member_starts(s, i, first, qkey(nk)) {
            lemma_keys_diverge(nk, m);
            let d = key_div(nk, m);
            let x = sep_text(first).len() + 1 + d;
            lemma_subrange_chars(s, pn, i);
            assert(pn[x] == qkey(nk)[d]);
            assert(s[i + x] == qkey(nk)[d]);
            lemma_subrange_chars(s, mm, i);
            assert(x < mm.len());
            assert(mm[x] == qkey(m)[d]);
            assert(s[i + x] == qkey(m)[d]);
            assert(false);
        }
    }
}

/// Reads the `filters` member from the canonical text and steps past it.
proof fn lemma_step_filters<T>(q: Query<T>, s: Seq<char>, i: int, first: bool, fuel: nat)
    requires
        q.filters matches Some(f) ==> (structured(f) && fuel >= filter_fuel(f)),
        tail_state(q, s, i, first, 0),
    ensures
        ({
            let r = read_opt_filter(s, i, first, "filters"@, fuel);
            &&& r is Some
            &&& (r->0).0 == (match q.filters { Option::Some(f) => Option::Some(term_of(f)), Option::None => Option::None })
            &&& (r->0).2 == (first && !(q.filters is Some))
            &&& tail_state(q, s, (r->0).1, (r->0).2, 1)
        }),
{
    assert(qkey(0) == "filters"@);
    lemma_pairs_suffix(q, 0);
    let mm = members_text(pairs_from(q, 0), first);
    lemma_subrange_chars(s, mm, i);
    match q.filters {
        Option::None => {
            assert(qval(q, 0) is None);
            assert(spec_opt_pair(qkey(0), qval(q, 0)) =~= Seq::<Seq<char>>::empty());
            assert(pairs_from(q, 0) =~= pairs_from(q, 1));
            assert(tail_state(q, s, i, first, 1));
            lemma_member_absent(q, s, i, first, 0, 1);
        },
        Option::Some(b) => {
            let vtext = spec_filter_wire(b);
            assert(qval(q, 0) == Option::Some(vtext));
            let pair = spec_pair(qkey(0), vtext);
            let rest = pairs_from(q, 1);
            assert(spec_opt_pair(qkey(0), qval(q, 0)) == seq![pair]);
            assert((seq![pair] + rest).len() > 0);
            assert((seq![pair] + rest)[0] == pair);
            assert((seq![pair] + rest).drop_first() =~= rest);
            let rtext = members_text(rest, false);
            assert(mm == sep_text(first) + pair + rtext);
            let p = member_prefix(qkey(0), first);
            assert forall|d: int| 0 <= d < p.len() implies mm[0 + d] == p[d] by {}
            lemma_shift_chars(s, mm, i, 0, p);
            assert(s.subrange(i, i + p.len()) == p);
            assert(member_starts(s, i, first, qkey(0)));
            let iv = i + p.len() as int;
            assert forall|d: int| 0 <= d < vtext.len() implies mm[p.len() + d] == vtext[d] by {}
            lemma_shift_chars(s, mm, i, p.len() as int, vtext);
            lemma_chars_subrange(s, vtext, iv);
            lemma_read_filter(b, s, iv, fuel);
            let j = iv + vtext.len() as int;
            assert forall|d: int| 0 <= d < rtext.len() implies mm[(p.len() + vtext.len()) + d]
                == rtext[d] by {}
            lemma_shift_chars(s, mm, i, (p.len() + vtext.len()) as int, rtext);
            assert(s.subrange(j, j + rtext.len()) == rtext);
            assert(j + rtext.len() == i + mm.len());
            assert(s[j + rtext.len()] == '}');
            assert(tail_state(q, s, j, false, 1));
            assert(read_opt_filter(s, i, first, "filters"@, fuel) == Option::Some((Option::Some(term_of(b)), j, false)));
        },
    }
}

/// Reads the `fields` member from the canonical text and steps past it.
proof fn lemma_step_fields<T>(q: Query<T>, s: Seq<char>, i: int, first: bool)
    requires
        tail_state(q, s, i, first, 1),
    ensures
        ({
            let r = read_opt_string(s, i, first, "fields"@);
            &&& r is Some
            &&& (r->0).0 == (match q.fields { Option::Some(t) => Option::Some(t@), Option::None => Option::None })
            &&& (r->0).2 == (first && !(q.fields is Some))
            &&& tail_state(q, s, (r->0).1, (r->0).2, 2)
        }),
{
    assert(qkey(1) == "fields"@);
    lemma_pairs_suffix(q, 1);
    let mm = members_text(pairs_from(q, 1), first);
    lemma_subrange_chars(s, mm, i);
    match q.fields {
        Option::None => {
            assert(qval(q, 1) is None);
            assert(spec_opt_pair(qkey(1), qval(q, 1)) =~= Seq::<Seq<char>>::empty());
            assert(pairs_from(q, 1) =~= pairs_from(q, 2));
            assert(tail_state(q, s, i, first, 2));
            lemma_member_absent(q, s, i, first, 1, 2);
        },
        Option::Some(b) => {
            let vtext = spec_quoted(spec_escaped(b@));
            assert(qval(q, 1) == Option::Some(vtext));
            let pair = spec_pair(qkey(1), vtext);
            let rest = pairs_from(q, 2);
            assert(spec_opt_pair(qkey(1), qval(q, 1)) == seq![pair]);
            assert((seq![pair] + rest).len() > 0);
            assert((seq![pair] + rest)[0] == pair);
            assert((seq![pair] + rest).drop_first() =~= rest);
            let rtext = members_text(rest, false);
            assert(mm == sep_text(first) + pair + rtext);
            let p = member_prefix(qkey(1), first);
            assert forall|d: int| 0 <= d < p.len() implies mm[0 + d] == p[d] by {}
            lemma_shift_chars(s, mm, i, 0, p);
            assert(s.subrange(i, i + p.len()) == p);
            assert(member_starts(s, i, first, qkey(1)));
            let iv = i + p.len() as int;
            assert forall|d: int| 0 <= d < vtext.len() implies mm[p.len() + d] == vtext[d] by {}
            lemma_shift_chars(s, mm, i, p.len() as int, vtext);
            lemma_read_jstring_at(b@, s, iv);
            let j = iv + vtext.len() as int;
            assert forall|d: int| 0 <= d < rtext.len() implies mm[(p.len() + vtext.len()) + d]
                == rtext[d] by {}
            lemma_shift_chars(s, mm, i, (p.len() + vtext.len()) as int, rtext);
            assert(s.subrange(j, j + rtext.len()) == rtext);
            assert(j + rtext.len() == i + mm.len());
            assert(s[j + rtext.len()] == '}');
            assert(tail_state(q, s, j, false, 2));
            assert(read_opt_string(s, i, first, "fields"@) == Option::Some((Option::Some(b@), j, false)));
        },
    }
}

/// Reads the `sort` member from the canonical text and steps past it.
proof fn lemma_step_sort<T>(q: Query<T>, s: Seq<char>, i: int, first: bool)
    requires
        tail_state(q, s, i, first, 2),
    ensures
        ({
            let r = read_opt_sort(s, i, first, "sort"@);
            &&& r is Some
            &&& (r->0).0 == q.sort
            &&& (r->0).2 == (first && !(q.sort is Some))
            &&& tail_state(q, s, (r->0).1, (r->0).2, 3)
        }),
{
    assert(qkey(2) == "sort"@);
    lemma_pairs_suffix(q, 2);
    let mm = members_text(pairs_from(q, 2), first);
    lemma_subrange_chars(s, mm, i);
    match q.sort {
        Option::None => {
            assert(qval(q, 2) is None);
            assert(spec_opt_pair(qkey(2), qval(q, 2)) =~= Seq::<Seq<char>>::empty());
            assert(pairs_from(q, 2) =~= pairs_from(q, 3));
            assert(tail_state(q, s, i, first, 3));
            lemma_member_absent(q, s, i, first, 2, 3);
        },
        Option::Some(b) => {
            let vtext = spec_quoted(b.spec_wire());
            assert(qval(q, 2) == Option::Some(vtext));
            let pair = spec_pair(qkey(2), vtext);
            let rest = pairs_from(q, 3);
            assert(spec_opt_pair(qkey(2), qval(q, 2)) == seq![pair]);
            assert((seq![pair] + rest).len() > 0);
            assert((seq![pair] + rest)[0] == pair);
            assert((seq![pair] + rest).drop_first() =~= rest);
            let rtext = members_text(rest, false);
            assert(mm == sep_text(first) + pair + rtext);
            let p = member_prefix(qkey(2), first);
            assert forall|d: int| 0 <= d < p.len() implies mm[0 + d] == p[d] by {}
            lemma_shift_chars(s, mm, i, 0, p);
            assert(s.subrange(i, i + p.len()) == p);
            assert(member_starts(s, i, first, qkey(2)));
            let iv = i + p.len() as int;
            assert forall|d: int| 0 <= d < vtext.len() implies mm[p.len() + d] == vtext[d] by {}
            lemma_shift_chars(s, mm, i, p.len() as int, vtext);
            lemma_read_sort_at(b, s, iv);
            let j = iv + vtext.len() as int;
            assert forall|d: int| 0 <= d < rtext.len() implies mm[(p.len() + vtext.len()) + d]
                == rtext[d] by {}
            lemma_shift_chars(s, mm, i, (p.len() + vtext.len()) as int, rtext);
            assert(s.subrange(j, j + rtext.len()) == rtext);
            assert(j + rtext.len() == i + mm.len());
            assert(s[j + rtext.len()] == '}');
            assert(tail_state(q, s, j, false, 3));
            assert(read_opt_sort(s, i, first, "sort"@) == Option::Some((Option::Some(b), j, false)));
        },
    }
}

/// Reads the `reverse` member from the canonical text and steps past it.
proof fn lemma_step_reverse<T>(q: Query<T>, s: Seq<char>, i: int, first: bool)
    requires
        tail_state(q, s, i, first, 3),
    ensures
        ({
            let r = read_opt_bool(s, i, first, "reverse"@);
            &&& r is Some
            &&& (r->0).0 == q.reverse
            &&& (r->0).2 == (first && !(q.reverse is Some))
            &&& tail_state(q, s, (r->0).1, (r->0).2, 4)
        }),
{
    assert(qkey(3) == "reverse"@);
    lemma_pairs_suffix(q, 3);
    let mm = members_text(pairs_from(q, 3), first);
    lemma_subrange_chars(s, mm, i);
    match q.reverse {
        Option::None => {
            assert(qval(q, 3) is None);
            assert(spec_opt_pair(qkey(3), qval(q, 3)) =~= Seq::<Seq<char>>::empty());
            assert(pairs_from(q, 3) =~= pairs_from(q, 4));
            assert(tail_state(q, s, i, first, 4));
            lemma_member_absent(q, s, i, first, 3, 4);
        },
        Option::Some(b) => {
            let vtext = spec_bool(b);
            assert(qval(q, 3) == Option::Some(vtext));
            let pair = spec_pair(qkey(3), vtext);
            let rest = pairs_from(q, 4);
            assert(spec_opt_pair(qkey(3), qval(q, 3)) == seq![pair]);
            assert((seq![pair] + rest).len() > 0);
            assert((seq![pair] + rest)[0] == pair);
            assert((seq![pair] + rest).drop_first() =~= rest);
            let rtext = members_text(rest, false);
            assert(mm == sep_text(first) + pair + rtext);
            let p = member_prefix(qkey(3), first);
            assert forall|d: int| 0 <= d < p.len() implies mm[0 + d] == p[d] by {}
            lemma_shift_chars(s, mm, i, 0, p);
            assert(s.subrange(i, i + p.len()) == p);
            assert(member_starts(s, i, first, qkey(3)));
            let iv = i + p.len() as int;
            assert forall|d: int| 0 <= d < vtext.len() implies mm[p.len() + d] == vtext[d] by {}
            lemma_shift_chars(s, mm, i, p.len() as int, vtext);
            lemma_read_bool_at(b, s, iv);
            let j = iv + vtext.len() as int;
            assert forall|d: int| 0 <= d < rtext.len() implies mm[(p.len() + vtext.len()) + d]
                == rtext[d] by {}
            lemma_shift_chars(s, mm, i, (p.len() + vtext.len()) as int, rtext);
            assert(s.subrange(j, j + rtext.len()) == rtext);
            assert(j + rtext.len() == i + mm.len());
            assert(s[j + rtext.len()] == '}');
            assert(tail_state(q, s, j, false, 4));
            assert(read_opt_bool(s, i, first, "reverse"@) == Option::Some((Option::Some(b), j, false)));
        },
    }
}

/// Reads the `results` member from the canonical text and steps past it.
proof fn lemma_step_results<T>(q: Query<T>, s: Seq<char>, i: int, first: bool)
    requires
        tail_state(q, s, i, first, 4),
    ensures
        ({
            let r = read_opt_number(s, i, first, "results"@);
            &&& r is Some
            &&& (r->0).0 == (match q.results { Option::Some(m) => Option::Some(m as int), Option::None => Option::None })
            &&& (r->0).2 == (first && !(q.results is Some))
            &&& tail_state(q, s, (r->0).1, (r->0).2, 5)
        }),
{
    assert(qkey(4) == "results"@);
    lemma_pairs_suffix(q, 4);
    let mm = members_text(pairs_from(q, 4), first);
    lemma_subrange_chars(s, mm, i);
    match q.results {
        Option::None => {
            assert(qval(q, 4) is None);
            assert(spec_opt_pair(qkey(4), qval(q, 4)) =~= Seq::<Seq<char>>::empty());
            assert(pairs_from(q, 4) =~= pairs_from(q, 5));
            assert(tail_state(q, s, i, first, 5));
            lemma_member_absent(q, s, i, first, 4, 5);
        },
        Option::Some(b) => {
            let vtext = spec_dec_u8(b);
            assert(qval(q, 4) == Option::Some(vtext));
            let pair = spec_pair(qkey(4), vtext);
            let rest = pairs_from(q, 5);
            assert(spec_opt_pair(qkey(4), qval(q, 4)) == seq![pair]);
            assert((seq![pair] + rest).len() > 0);
            assert((seq![pair] + rest)[0] == pair);
            assert((seq![pair] + rest).drop_first() =~= rest);
            let rtext = members_text(rest, false);
            assert(mm == sep_text(first) + pair + rtext);
            let p = member_prefix(qkey(4), first);
            assert forall|d: int| 0 <= d < p.len() implies mm[0 + d] == p[d] by {}
            lemma_shift_chars(s, mm, i, 0, p);
            assert(s.subrange(i, i + p.len()) == p);
            assert(member_starts(s, i, first, qkey(4)));
            let iv = i + p.len() as int;
            assert forall|d: int| 0 <= d < vtext.len() implies mm[p.len() + d] == vtext[d] by {}
            lemma_shift_chars(s, mm, i, p.len() as int, vtext);
            // what follows the number is a comma or the closing brace
            if rest.len() > 0 {
                assert(members_text(rest, false).len() > 0);
                assert(rtext[0] == ',');
                assert(mm[(p.len() + vtext.len()) as int] == rtext[0]);
                assert(s[i + (p.len() + vtext.len())] == mm[(p.len() + vtext.len()) as int]);
                assert(spec_dig_val(s[iv + vtext.len()]) < 0);
            } else {
                assert(rtext =~= Seq::<char>::empty());
                assert(iv + vtext.len() == i + mm.len());
                assert(s[i + mm.len()] == '}');
                assert(spec_dig_val(s[iv + vtext.len()]) < 0);
            }
            lemma_read_number_at(b, s, iv);
            let j = iv + vtext.len() as int;
            assert forall|d: int| 0 <= d < rtext.len() implies mm[(p.len() + vtext.len()) + d]
                == rtext[d] by {}
            lemma_shift_chars(s, mm, i, (p.len() + vtext.len()) as int, rtext);
            assert(s.subrange(j, j + rtext.len()) == rtext);
            assert(j + rtext.len() == i + mm.len());
            assert(s[j + rtext.len()] == '}');
            assert(tail_state(q, s, j, false, 5));
            assert(read_opt_number(s, i, first, "results"@) == Option::Some((Option::Some(b as int), j, false)));
        },
    }
}

/// Reads the `page` member from the canonical text and steps past it.
proof fn lemma_step_page<T>(q: Query<T>, s: Seq<char>, i: int, first: bool)
    requires
        tail_state(q, s, i, first, 5),
    ensures
        ({
            let r = read_opt_number(s, i, first, "page"@);
            &&& r is Some
            &&& (r->0).0 == (match q.page { Option::Some(m) => Option::Some(m as int), Option::None => Option::None })
            &&& (r->0).2 == (first && !(q.page is Some))
            &&& tail_state(q, s, (r->0).1, (r->0).2, 6)
        }),
{
    assert(qkey(5) == "page"@);
    lemma_pairs_suffix(q, 5);
    let mm = members_text(pairs_from(q, 5), first);
    lemma_subrange_chars(s, mm, i);
    match q.page {
        Option::None => {
            assert(qval(q, 5) is None);
            assert(spec_opt_pair(qkey(5), qval(q, 5)) =~= Seq::<Seq<char>>::empty());
            assert(pairs_from(q, 5) =~= pairs_from(q, 6));
            assert(tail_state(q, s, i, first, 6));
            lemma_member_absent(q, s, i, first, 5, 6);
        },
        Option::Some(b) => {
            let vtext = spec_dec_u8(b);
            assert(qval(q, 5) == Option::Some(vtext));
            let pair = spec_pair(qkey(5), vtext);
            let rest = pairs_from(q, 6);
            assert(spec_opt_pair(qkey(5), qval(q, 5)) == seq![pair]);
            assert((seq![pair] + rest).len() > 0);
            assert((seq![pair] + rest)[0] == pair);
            assert((seq![pair] + rest).drop_first() =~= rest);
            let rtext = members_text(rest, false);
            assert(mm == sep_text(first) + pair + rtext);
            let p = member_prefix(qkey(5), first);
            assert forall|d: int| 0 <= d < p.len() implies mm[0 + d] == p[d] by {}
            lemma_shift_chars(s, mm, i, 0, p);
            assert(s.subrange(i, i + p.len()) == p);
            assert(member_starts(s, i, first, qkey(5)));
            let iv = i + p.len() as int;
            assert forall|d: int| 0 <= d < vtext.len() implies mm[p.len() + d] == vtext[d] by {}
            lemma_shift_chars(s, mm, i, p.len() as int, vtext);
            // what follows the number is a comma or the closing brace
            if rest.len() > 0 {
                assert(members_text(rest, false).len() > 0);
                assert(rtext[0] == ',');
                assert(mm[(p.len() + vtext.len()) as int] == rtext[0]);
                assert(s[i + (p.len() + vtext.len())] == mm[(p.len() + vtext.len()) as int]);
                assert(spec_dig_val(s[iv + vtext.len()]) < 0);
            } else {
                assert(rtext =~= Seq::<char>::empty());
                assert(iv + vtext.len() == i + mm.len());
                assert(s[i + mm.len()] == '}');
                assert(spec_dig_val(s[iv + vtext.len()]) < 0);
            }
            lemma_read_number_at(b, s, iv);
            let j = iv + vtext.len() as int;
            assert forall|d: int| 0 <= d < rtext.len() implies mm[(p.len() + vtext.len()) + d]
                == rtext[d] by {}
            lemma_shift_chars(s, mm, i, (p.len() + vtext.len()) as int, rtext);
            assert(s.subrange(j, j + rtext.len()) == rtext);
            assert(j + rtext.len() == i + mm.len());
            assert(s[j + rtext.len()] == '}');
            assert(tail_state(q, s, j, false, 6));
            assert(read_opt_number(s, i, first, "page"@) == Option::Some((Option::Some(b as int), j, false)));
        },
    }
}

/// Reads the `user` member from the canonical text and steps past it.
proof fn lemma_step_user<T>(q: Query<T>, s: Seq<char>, i: int, first: bool)
    requires
        tail_state(q, s, i, first, 6),
    ensures
        ({
            let r = read_opt_string(s, i, first, "user"@);
            &&& r is Some
            &&& (r->0).0 == (match q.user { Option::Some(t) => Option::Some(t@), Option::None => Option::None })
            &&& (r->0).2 == (first && !(q.user is Some))
            &&& tail_state(q, s, (r->0).1, (r->0).2, 7)
        }),
{
    assert(qkey(6) == "user"@);
    lemma_pairs_suffix(q, 6);
    let mm = members_text(pairs_from(q, 6), first);
    lemma_subrange_chars(s, mm, i);
    match q.user {
        Option::None => {
            assert(qval(q, 6) is None);
            assert(spec_opt_pair(qkey(6), qval(q, 6)) =~= Seq::<Seq<char>>::empty());
            assert(pairs_from(q, 6) =~= pairs_from(q, 7));
            assert(tail_state(q, s, i, first, 7));
            lemma_member_absent(q, s, i, first, 6, 7);
        },
        Option::Some(b) => {
            let vtext = spec_quoted(spec_escaped(b@));
            assert(qval(q, 6) == Option::Some(vtext));
            let pair = spec_pair(qkey(6), vtext);
            let rest = pairs_from(q, 7);
            assert(spec_opt_pair(qkey(6), qval(q, 6)) == seq![pair]);
            assert((seq![pair] + rest).len() > 0);
            assert((seq![pair] + rest)[0] == pair);
            assert((seq![pair] + rest).drop_first() =~= rest);
            let rtext = members_text(rest, false);
            assert(mm == sep_text(first) + pair + rtext);
            let p = member_prefix(qkey(6), first);
            assert forall|d: int| 0 <= d < p.len() implies mm[0 + d] == p[d] by {}
            lemma_shift_chars(s, mm, i, 0, p);
            assert(s.subrange(i, i + p.len()) == p);
            assert(member_starts(s, i, first, qkey(6)));
            let iv = i + p.len() as int;
            assert forall|d: int| 0 <= d < vtext.len() implies mm[p.len() + d] == vtext[d] by {}
            lemma_shift_chars(s, mm, i, p.len() as int, vtext);
            lemma_read_jstring_at(b@, s, iv);
            let j = iv + vtext.len() as int;
            assert forall|d: int| 0 <= d < rtext.len() implies mm[(p.len() + vtext.len()) + d]
                == rtext[d] by {}
            lemma_shift_chars(s, mm, i, (p.len() + vtext.len()) as int, rtext);
            assert(s.subrange(j, j + rtext.len()) == rtext);
            assert(j + rtext.len() == i + mm.len());
            assert(s[j + rtext.len()] == '}');
            assert(tail_state(q, s, j, false, 7));
            assert(read_opt_string(s, i, first, "user"@) == Option::Some((Option::Some(b@), j, false)));
        },
    }
}

/// Reads the `count` member from the canonical text and steps past it.
proof fn lemma_step_count<T>(q: Query<T>, s: Seq<char>, i: int, first: bool)
    requires
        tail_state(q, s, i, first, 7),
    ensures
        ({
            let r = read_opt_bool(s, i, first, "count"@);
            &&& r is Some
            &&& (r->0).0 == q.count
            &&& (r->0).2 == (first && !(q.count is Some))
            &&& tail_state(q, s, (r->0).1, (r->0).2, 8)
        }),
{
    assert(qkey(7) == "count"@);
    lemma_pairs_suffix(q, 7);
    let mm = members_text(pairs_from(q, 7), first);
    lemma_subrange_chars(s, mm, i);
    match q.count {
        Option::None => {
            assert(qval(q, 7) is None);
            assert(spec_opt_pair(qkey(7), qval(q, 7)) =~= Seq::<Seq<char>>::empty());
            assert(pairs_from(q, 7) =~= pairs_from(q, 8));
            assert(tail_state(q, s, i, first, 8));
            lemma_member_absent(q, s, i, first, 7, 8);
        },
        Option::Some(b) => {
            let vtext = spec_bool(b);
            assert(qval(q, 7) == Option::Some(vtext));
            let pair = spec_pair(qkey(7), vtext);
            let rest = pairs_from(q, 8);
            assert(spec_opt_pair(qkey(7), qval(q, 7)) == seq![pair]);
            assert((seq![pair] + rest).len() > 0);
            assert((seq![pair] + rest)[0] == pair);
            assert((seq![pair] + rest).drop_first() =~= rest);
            let rtext = members_text(rest, false);
            assert(mm == sep_text(first) + pair + rtext);
            let p = member_prefix(qkey(7), first);
            assert forall|d: int| 0 <= d < p.len() implies mm[0 + d] == p[d] by {}
            lemma_shift_chars(s, mm, i, 0, p);
            assert(s.subrange(i, i + p.len()) == p);
            assert(member_starts(s, i, first, qkey(7)));
            let iv = i + p.len() as int;
            assert forall|d: int| 0 <= d < vtext.len() implies mm[p.len() + d] == vtext[d] by {}
            lemma_shift_chars(s, mm, i, p.len() as int, vtext);
            lemma_read_bool_at(b, s, iv);
            let j = iv + vtext.len() as int;
            assert forall|d: int| 0 <= d < rtext.len() implies mm[(p.len() + vtext.len()) + d]
                == rtext[d] by {}
            lemma_shift_chars(s, mm, i, (p.len() + vtext.len()) as int, rtext);
            assert(s.subrange(j, j + rtext.len()) == rtext);
            assert(j + rtext.len() == i + mm.len());
            assert(s[j + rtext.len()] == '}');
            assert(tail_state(q, s, j, false, 8));
            assert(read_opt_bool(s, i, first, "count"@) == Option::Some((Option::Some(b), j, false)));
        },
    }
}

/// Reads the `compact_filters` member from the canonical text and steps past it.
proof fn lemma_step_compact<T>(q: Query<T>, s: Seq<char>, i: int, first: bool)
    requires
        tail_state(q, s, i, first, 8),
    ensures
        ({
            let r = read_opt_bool(s, i, first, "compact_filters"@);
            &&& r is Some
            &&& (r->0).0 == q.compact_filters
            &&& (r->0).2 == (first && !(q.compact_filters is Some))
            &&& tail_state(q, s, (r->0).1, (r->0).2, 9)
        }),
{
    assert(qkey(8) == "compact_filters"@);
    lemma_pairs_suffix(q, 8);
    let mm = members_text(pairs_from(q, 8), first);
    lemma_subrange_chars(s, mm, i);
    match q.compact_filters {
        Option::None => {
            assert(qval(q, 8) is None);
            assert(spec_opt_pair(qkey(8), qval(q, 8)) =~= Seq::<Seq<char>>::empty());
            assert(pairs_from(q, 8) =~= pairs_from(q, 9));
            assert(tail_state(q, s, i, first, 9));
            lemma_member_absent(q, s, i, first, 8, 9);
        },
        Option::Some(b) => {
            let vtext = spec_bool(b);
            assert(qval(q, 8) == Option::Some(vtext));
            let pair = spec_pair(qkey(8), vtext);
            let rest = pairs_from(q, 9);
            assert(spec_opt_pair(qkey(8), qval(q, 8)) == seq![pair]);
            assert((seq![pair] + rest).len() > 0);
            assert((seq![pair] + rest)[0] == pair);
            assert((seq![pair] + rest).drop_first() =~= rest);
            let rtext = members_text(rest, false);
            assert(mm == sep_text(first) + pair + rtext);
            let p = member_prefix(qkey(8), first);
            assert forall|d: int| 0 <= d < p.len() implies mm[0 + d] == p[d] by {}
            lemma_shift_chars(s, mm, i, 0, p);
            assert(s.subrange(i, i + p.len()) == p);
            assert(member_starts(s, i, first, qkey(8)));
            let iv = i + p.len() as int;
            assert forall|d: int| 0 <= d < vtext.len() implies mm[p.len() + d] == vtext[d] by {}
            lemma_shift_chars(s, mm, i, p.len() as int, vtext);
            lemma_read_bool_at(b, s, iv);
            let j = iv + vtext.len() as int;
            assert forall|d: int| 0 <= d < rtext.len() implies mm[(p.len() + vtext.len()) + d]
                == rtext[d] by {}
            lemma_shift_chars(s, mm, i, (p.len() + vtext.len()) as int, rtext);
            assert(s.subrange(j, j + rtext.len()) == rtext);
            assert(j + rtext.len() == i + mm.len());
            assert(s[j + rtext.len()] == '}');
            assert(tail_state(q, s, j, false, 9));
            assert(read_opt_bool(s, i, first, "compact_filters"@) == Option::Some((Option::Some(b), j, false)));
        },
    }
}

/// Reads the `normalized_filters` member from the canonical text and steps past it.
proof fn lemma_step_normalized<T>(q: Query<T>, s: Seq<char>, i: int, first: bool)
    requires
        tail_state(q, s, i, first, 9),
    ensures
        ({
            let r = read_opt_bool(s, i, first, "normalized_filters"@);
            &&& r is Some
            &&& (r->0).0 == q.normalized_filters
            &&& (r->0).2 == (first && !(q.normalized_filters is Some))
            &&& tail_state(q, s, (r->0).1, (r->0).2, 10)
        }),
{
    assert(qkey(9) == "normalized_filters"@);
    lemma_pairs_suffix(q, 9);
    let mm = members_text(pairs_from(q, 9), first);
    lemma_subrange_chars(s, mm, i);
    match q.normalized_filters {
        Option::None => {
            assert(qval(q, 9) is None);
            assert(spec_opt_pair(qkey(9), qval(q, 9)) =~= Seq::<Seq<char>>::empty());
            assert(pairs_from(q, 9) =~= pairs_from(q, 10));
            assert(tail_state(q, s, i, first, 10));
            lemma_member_absent(q, s, i, first, 9, 10);
        },
        Option::Some(b) => {
            let vtext = spec_bool(b);
            assert(qval(q, 9) == Option::Some(vtext));
            let pair = spec_pair(qkey(9), vtext);
            let rest = pairs_from(q, 10);
            assert(spec_opt_pair(qkey(9), qval(q, 9)) == seq![pair]);
            assert((seq![pair] + rest).len() > 0);
            assert((seq![pair] + rest)[0] == pair);
            assert((seq![pair] + rest).drop_first() =~= rest);
            let rtext = members_text(rest, false);
            assert(mm == sep_text(first) + pair + rtext);
            let p = member_prefix(qkey(9), first);
            assert forall|d: int| 0 <= d < p.len() implies mm[0 + d] == p[d] by {}
            lemma_shift_chars(s, mm, i, 0, p);
            assert(s.subrange(i, i + p.len()) == p);
            assert(member_starts(s, i, first, qkey(9)));
            let iv = i + p.len() as int;
            assert forall|d: int| 0 <= d < vtext.len() implies mm[p.len() + d] == vtext[d] by {}
            lemma_shift_chars(s, mm, i, p.len() as int, vtext);
            lemma_read_bool_at(b, s, iv);
            let j = iv + vtext.len() as int;
            assert forall|d: int| 0 <= d < rtext.len() implies mm[(p.len() + vtext.len()) + d]
                == rtext[d] by {}
            lemma_shift_chars(s, mm, i, (p.len() + vtext.len()) as int, rtext);
            assert(s.subrange(j, j + rtext.len()) == rtext);
            assert(j + rtext.len() == i + mm.len());
            assert(s[j + rtext.len()] == '}');
            assert(tail_state(q, s, j, false, 10));
            assert(read_opt_bool(s, i, first, "normalized_filters"@) == Option::Some((Option::Some(b), j, false)));
        },
    }
}

/// The canonical request body loses nothing: reading back the rendered
/// wire form of any query whose filter (if set) is structured recovers
/// exactly the query's content — each optional member's presence and
/// value, and so in particular the response-shaping flag pattern that
/// governs which echo fields a response may carry.
#[verifier::rlimit(100)]
#[verifier::spinoff_prover]
pub proof fn lemma_query_wire_round_trip<T>(q: Query<T>, fuel: nat)
    requires
        q.filters matches Some(f) ==> (structured(f) && fuel >= filter_fuel(f)),
    ensures
        read_query(spec_query_wire(q), fuel) == Option::Some(query_content(q)),
{
    let s = spec_query_wire(q);
    lemma_pairs_from_all(q);
    lemma_members_csv(spec_query_pairs(q));
    let mt = members_text(pairs_from(q, 0), true);
    assert(s == seq!['{'] + mt + seq!['}']);
    assert(s[0] == '{');
    assert(s.len() == 1 + mt.len() + 1);
    assert forall|k: int| 0 <= k < mt.len() implies s.subrange(1, 1 + mt.len() as int)[k] == mt[k] by {
        assert(s.subrange(1, 1 + mt.len() as int)[k] == s[1 + k]);
        assert(s[1 + k] == mt[k]);
    }
    assert(s.subrange(1, 1 + mt.len() as int) =~= mt);
    assert(s[1 + mt.len() as int] == '}');
    assert(tail_state(q, s, 1, true, 0));
    lemma_step_filters(q, s, 1, true, fuel);
    let r0 = read_opt_filter(s, 1, true, "filters"@, fuel);
    let (c0, i1, f1) = r0->0;
    lemma_step_fields(q, s, i1, f1);
    let r1 = read_opt_string(s, i1, f1, "fields"@);
    let (c1, i2, f2) = r1->0;
    lemma_step_sort(q, s, i2, f2);
    let r2 = read_opt_sort(s, i2, f2, "sort"@);
    let (c2, i3, f3) = r2->0;
    lemma_step_reverse(q, s, i3, f3);
    let r3 = read_opt_bool(s, i3, f3, "reverse"@);
    let (c3, i4, f4) = r3->0;
    lemma_step_results(q, s, i4, f4);
    let r4 = read_opt_number(s, i4, f4, "results"@);
    let (c4, i5, f5) = r4->0;
    lemma_step_page(q, s, i5, f5);
    let r5 = read_opt_number(s, i5, f5, "page"@);
    let (c5, i6, f6) = r5->0;
    lemma_step_user(q, s, i6, f6);
    let r6 = read_opt_string(s, i6, f6, "user"@);
    let (c6, i7, f7) = r6->0;
    lemma_step_count(q, s, i7, f7);
    let r7 = read_opt_bool(s, i7, f7, "count"@);
    let (c7, i8, f8) = r7->0;
    lemma_step_compact(q, s, i8, f8);
    let r8 = read_opt_bool(s, i8, f8, "compact_filters"@);
    let (c8, i9, f9) = r8->0;
    lemma_step_normalized(q, s, i9, f9);
    let r9 = read_opt_bool(s, i9, f9, "normalized_filters"@);
    let (c9, i10, f10) = r9->0;
    assert(pairs_from(q, 10) == Seq::<Seq<char>>::empty());
    assert(members_text(pairs_from(q, 10), f10) == Seq::<char>::empty());
    assert(s.len() == i10 + 1);
    assert(s[i10] == '}');
    assert(read_query(s, fuel) == Option::Some(query_content(q)));
}

/// Two queries with the same rendered body have the same content, whatever
/// resource they are tagged with: the wire form determines the query.
pub proof fn lemma_query_wire_injective<T, U>(q1: Query<T>, q2: Query<U>)
    requires
        q1.filters matches Some(f) ==> structured(f),
        q2.filters matches Some(f) ==> structured(f),
        spec_query_wire(q1) == spec_query_wire(q2),
    ensures
        query_content(q1) == query_content(q2),
{
    let fuel1: nat = match q1.filters {
        Option::Some(f) => filter_fuel(f),
        Option::None => 0,
    };
    let fuel2: nat = match q2.filters {
        Option::Some(f) => filter_fuel(f),
        Option::None => 0,
    };
    lemma_query_wire_round_trip(q1, fuel1 + fuel2);
    lemma_query_wire_round_trip(q2, fuel1 + fuel2);
}

} // verus!
