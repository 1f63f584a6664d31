//! User-list types: label records, the label field registry, and the
//! sparse list patch with its builder.
//!
//! A [`UListPatch`] is a partial update: a field left unset is omitted from
//! the wire payload entirely — never emitted as `null` — because the remote
//! service reads omission as "leave unchanged".

use vstd::prelude::*;

use crate::fields::{fields_csv, WireField};
use crate::wire::{
    dec_u8, dec2_u8, dec4_u16, join_csv, push_string_pair, push_u8_pair, spec_csv, spec_dec_u8,
    spec_dec2_u8, spec_dec4_u16, spec_escaped, spec_obj, spec_opt_pair, spec_pair,
    spec_part_views, spec_quoted,
};

verus! {

/// A label attached to one entry of a user's list.
#[derive(Clone, Debug)]
pub struct UListLabel {
    pub id: Option<u32>,
    pub label: Option<String>,
}

/// One label definition of a user's list.
#[derive(Clone, Debug)]
pub struct UListLabelsInst {
    /// Integer identifier of the label.
    pub id: Option<u32>,
    /// Whether the label is private; private labels are only included when
    /// the caller is authenticated with list-read permission.
    pub private: Option<bool>,
    pub label: Option<String>,
    pub count: Option<u32>,
}

/// The label definitions of a user's list.
#[derive(Clone, Debug)]
pub struct UListLabels {
    pub labels: Option<Vec<UListLabelsInst>>,
}

/// A selectable field of a label definition.
#[derive(Clone, Copy, PartialEq, Eq, Structural, Debug)]
pub enum UListLabelsField {
    Count,
}

impl WireField for UListLabelsField {
    open spec fn spec_wire(self) -> Seq<char> {
        match self {
            UListLabelsField::Count => "count"@,
        }
    }

    fn wire_name(self) -> (r: &'static str) {
        match self {
            UListLabelsField::Count => "count",
        }
    }
}

/// An ordered, duplicate-tolerant selection of label-definition fields.
pub struct UListLabelsFieldChoices(pub Vec<UListLabelsField>);

impl UListLabelsFieldChoices {
    /// Every selectable field, in declaration order.
    pub open spec fn spec_all() -> Seq<UListLabelsField> {
        seq![UListLabelsField::Count]
    }

    /// Selects nothing beyond the always-included primary fields.
    pub fn new() -> (r: Self)
        ensures
            r.0@ == Seq::<UListLabelsField>::empty(),
    {
        UListLabelsFieldChoices(Vec::new())
    }

    /// A caller-chosen selection; duplicates and any order are permitted.
    pub fn from(vec: Vec<UListLabelsField>) -> (r: Self)
        ensures
            r.0@ == vec@,
    {
        UListLabelsFieldChoices(vec)
    }

    /// Every known field, in declaration order.
    pub fn all() -> (r: Self)
        ensures
            r.0@ == Self::spec_all(),
    {
        let mut v: Vec<UListLabelsField> = Vec::new();
        v.push(UListLabelsField::Count);
        proof {
            assert(v@ =~= Self::spec_all());
        }
        UListLabelsFieldChoices(v)
    }

    /// The selection rendered as the wire `fields` parameter.
    pub fn to_csv(&self) -> (r: String)
        ensures
            r@ == spec_csv(self.0@.map_values(|f: UListLabelsField| f.spec_wire())),
    {
        fields_csv(&self.0)
    }
}

/// The status of a release in a user's list, carried on the wire as its
/// numeric code.
#[derive(Clone, Copy, PartialEq, Eq, Structural, Debug)]
pub enum UListStatus {
    Unknown,
    Pending,
    Obtained,
    OnLoan,
    Deleted,
}

impl UListStatus {
    /// The numeric wire code of the status.
    pub open spec fn spec_code(self) -> u8 {
        match self {
            UListStatus::Unknown => 0,
            UListStatus::Pending => 1,
            UListStatus::Obtained => 2,
            UListStatus::OnLoan => 3,
            UListStatus::Deleted => 4,
        }
    }

    /// Returns the numeric wire code.
    pub fn code(self) -> (r: u8)
        ensures
            r == self.spec_code(),
    {
        match self {
            UListStatus::Unknown => 0,
            UListStatus::Pending => 1,
            UListStatus::Obtained => 2,
            UListStatus::OnLoan => 3,
            UListStatus::Deleted => 4,
        }
    }
}

/// A user-list label identifier, carried on the wire as its numeric code.
#[derive(Clone, Copy, PartialEq, Eq, Structural, Debug)]
pub enum LabelId {
    Playing,
    Finished,
    Stalled,
    Dropped,
    WishList,
    BlackList,
}

impl LabelId {
    /// The numeric wire code of the label.
    pub open spec fn spec_code(self) -> u8 {
        match self {
            LabelId::Playing => 1,
            LabelId::Finished => 2,
            LabelId::Stalled => 3,
            LabelId::Dropped => 4,
            LabelId::WishList => 5,
            LabelId::BlackList => 6,
        }
    }

    /// Returns the numeric wire code.
    pub fn code(self) -> (r: u8)
        ensures
            r == self.spec_code(),
    {
        match self {
            LabelId::Playing => 1,
            LabelId::Finished => 2,
            LabelId::Stalled => 3,
            LabelId::Dropped => 4,
            LabelId::WishList => 5,
            LabelId::BlackList => 6,
        }
    }
}

/// A calendar date.  It renders as zero-padded `YYYY-MM-DD`; no calendar
/// validity check is made (a month of 13 passes through unchanged).
#[derive(Clone, Copy, PartialEq, Eq, Structural, Debug)]
pub struct Date {
    pub year: u16,
    pub month: u8,
    pub day: u8,
}

/// The textual `YYYY-MM-DD` form of a date, each part zero-padded.
pub open spec fn spec_date(d: Date) -> Seq<char> {
    spec_dec4_u16(d.year) + seq!['-'] + spec_dec2_u8(d.month) + seq!['-'] + spec_dec2_u8(d.day)
}

impl Date {
    /// Renders the date as zero-padded `YYYY-MM-DD`.
    fn format(self) -> (r: String)
        ensures
            r@ == spec_date(self),
    {
        let mut out = String::new();
        out.append(dec4_u16(self.year).as_str());
        out.append("-");
        out.append(dec2_u8(self.month).as_str());
        out.append("-");
        out.append(dec2_u8(self.day).as_str());
        proof {
            reveal_strlit("-");
            assert("-"@ =~= seq!['-']);
            assert(out@ =~= spec_date(self));
        }
        out
    }
}

/// The wire text of a label array: the numeric codes in brackets.
pub open spec fn spec_label_array(ls: Seq<LabelId>) -> Seq<char> {
    seq!['['] + spec_csv(ls.map_values(|l: LabelId| spec_dec_u8(l.spec_code()))) + seq![']']
}

/// Renders a label array as the bracketed list of its numeric codes.
fn label_array(ls: &Vec<LabelId>) -> (r: String)
    ensures
        r@ == spec_label_array(ls@),
{
    let mut codes: Vec<String> = Vec::new();
    for i in 0..ls.len()
        invariant
            codes@.len() == i as int,
            forall|k: int| 0 <= k < i as int ==> codes@[k]@ == spec_dec_u8(ls@[k].spec_code()),
    {
        codes.push(dec_u8(ls[i].code()));
    }
    proof {
        assert(codes@.map_values(|s: String| s@) =~= ls@.map_values(
            |l: LabelId| spec_dec_u8(l.spec_code()),
        ));
    }
    let body = join_csv(&codes);
    let mut out = String::new();
    out.append("[");
    out.append(body.as_str());
    out.append("]");
    proof {
        reveal_strlit("[");
        reveal_strlit("]");
        assert("["@ =~= seq!['[']);
        assert("]"@ =~= seq![']']);
        assert(out@ =~= spec_label_array(ls@));
    }
    out
}

/// A sparse partial update of one entry in a user's list.  Unset fields
/// are absent from the wire payload entirely.
pub struct UListPatch {
    /// Vote, within `[10, 100]` when set through the builder.
    pub vote: Option<u8>,
    pub notes: Option<String>,
    /// Start date in `YYYY-MM-DD` form.
    pub started: Option<String>,
    /// Finish date in `YYYY-MM-DD` form.
    pub finished: Option<String>,
    /// Overwrites all labels assigned to the entry.
    pub labels: Option<Vec<LabelId>>,
    /// Labels to add; existing ones are unaffected.
    pub labels_set: Option<Vec<LabelId>>,
    /// Labels to remove.
    pub labels_unset: Option<Vec<LabelId>>,
}

/// The members of the patch body, in wire order: exactly the fields that
/// are set, never a `null`.
pub open spec fn spec_patch_pairs(p: UListPatch) -> Seq<Seq<char>> {
    spec_opt_pair(
        "vote"@,
        match p.vote {
            Option::Some(n) => Option::Some(spec_dec_u8(n)),
            Option::None => Option::None,
        },
    ) + spec_opt_pair(
        "notes"@,
        match p.notes {
            Option::Some(s) => Option::Some(spec_quoted(spec_escaped(s@))),
            Option::None => Option::None,
        },
    ) + spec_opt_pair(
        "started"@,
        match p.started {
            Option::Some(s) => Option::Some(spec_quoted(spec_escaped(s@))),
            Option::None => Option::None,
        },
    ) + spec_opt_pair(
        "finished"@,
        match p.finished {
            Option::Some(s) => Option::Some(spec_quoted(spec_escaped(s@))),
            Option::None => Option::None,
        },
    ) + spec_opt_pair(
        "labels"@,
        match p.labels {
            Option::Some(ls) => Option::Some(spec_label_array(ls@)),
            Option::None => Option::None,
        },
    ) + spec_opt_pair(
        "labels_set"@,
        match p.labels_set {
            Option::Some(ls) => Option::Some(spec_label_array(ls@)),
            Option::None => Option::None,
        },
    ) + spec_opt_pair(
        "labels_unset"@,
        match p.labels_unset {
            Option::Some(ls) => Option::Some(spec_label_array(ls@)),
            Option::None => Option::None,
        },
    )
}

/// The complete JSON patch body.
pub open spec fn spec_patch_wire(p: UListPatch) -> Seq<char> {
    spec_obj(spec_patch_pairs(p))
}

fn push_labels_pair(parts: &mut Vec<String>, prefix: &str, v: &Option<Vec<LabelId>>, Ghost(key): Ghost<
    Seq<char>,
>)
    requires
        prefix@ == spec_quoted(key) + seq![':'],
    ensures
        spec_part_views(final(parts)@) == spec_part_views(old(parts)@) + spec_opt_pair(
            key,
            if v is Some {
                Option::Some(spec_label_array(v->0@))
            } else {
                Option::None
            },
        ),
{
    let ghost oldmap = spec_part_views(parts@);
    if let Some(ref ls) = *v {
        let mut p = String::new();
        p.append(prefix);
        p.append(label_array(ls).as_str());
        proof {
            assert(p@ =~= spec_pair(key, spec_label_array(ls@)));
        }
        parts.push(p);
    }
    proof {
        assert(spec_part_views(parts@) =~= oldmap + spec_opt_pair(
            key,
            if v is Some {
                Option::Some(spec_label_array(v->0@))
            } else {
                Option::None
            },
        ));
    }
}

impl UListPatch {
    /// Renders the patch body: a JSON object holding exactly the fields
    /// that are set, in wire order.
    #[verifier::rlimit(50)]
    pub fn to_json(&self) -> (r: String)
        ensures
            r@ == spec_patch_wire(*self),
    {
        let mut parts: Vec<String> = Vec::new();
        proof {
            assert(spec_part_views(parts@) =~= Seq::<Seq<char>>::empty());
            reveal_strlit("\"vote\":");
            reveal_strlit("vote");
            assert("\"vote\":"@ =~= spec_quoted("vote"@) + seq![':']);
            reveal_strlit("\"notes\":");
            reveal_strlit("notes");
            assert("\"notes\":"@ =~= spec_quoted("notes"@) + seq![':']);
            reveal_strlit("\"started\":");
            reveal_strlit("started");
            assert("\"started\":"@ =~= spec_quoted("started"@) + seq![':']);
            reveal_strlit("\"finished\":");
            reveal_strlit("finished");
            assert("\"finished\":"@ =~= spec_quoted("finished"@) + seq![':']);
            reveal_strlit("\"labels\":");
            reveal_strlit("labels");
            assert("\"labels\":"@ =~= spec_quoted("labels"@) + seq![':']);
            reveal_strlit("\"labels_set\":");
            reveal_strlit("labels_set");
            assert("\"labels_set\":"@ =~= spec_quoted("labels_set"@) + seq![':']);
            reveal_strlit("\"labels_unset\":");
            reveal_strlit("labels_unset");
            assert("\"labels_unset\":"@ =~= spec_quoted("labels_unset"@) + seq![':']);
        }
        push_u8_pair(&mut parts, "\"vote\":", &self.vote, Ghost("vote"@));
        push_string_pair(&mut parts, "\"notes\":", &self.notes, Ghost("notes"@));
        push_string_pair(&mut parts, "\"started\":", &self.started, Ghost("started"@));
        push_string_pair(&mut parts, "\"finished\":", &self.finished, Ghost("finished"@));
        push_labels_pair(&mut parts, "\"labels\":", &self.labels, Ghost("labels"@));
        push_labels_pair(&mut parts, "\"labels_set\":", &self.labels_set, Ghost("labels_set"@));
        push_labels_pair(
            &mut parts,
            "\"labels_unset\":",
            &self.labels_unset,
            Ghost("labels_unset"@),
        );
        proof {
            assert(spec_part_views(parts@) =~= spec_patch_pairs(*self));
        }
        let body = join_csv(&parts);
        let mut out = String::new();
        out.append("{");
        out.append(body.as_str());
        out.append("}");
        proof {
            reveal_strlit("{");
            reveal_strlit("}");
            assert("{"@ =~= seq!['{']);
            assert("}"@ =~= seq!['}']);
            assert(out@ =~= spec_patch_wire(*self));
        }
        out
    }
}

/// A patch with only `notes` set serializes to a JSON object holding
/// solely the `notes` member: no other key appears, not even as `null`.
pub proof fn lemma_patch_notes_only(p: UListPatch)
    requires
        p.vote is None,
        p.started is None,
        p.finished is None,
        p.labels is None,
        p.labels_set is None,
        p.labels_unset is None,
        p.notes is Some,
    ensures
        spec_patch_wire(p) == spec_obj(
            seq![spec_pair("notes"@, spec_quoted(spec_escaped(p.notes->0@)))],
        ),
{
    assert(spec_patch_pairs(p) =~= seq![
        spec_pair("notes"@, spec_quoted(spec_escaped(p.notes->0@))),
    ]);
}

/// The vote a patch stores for a requested vote `v`: clamped into
/// `[10, 100]`, never rejected.
pub open spec fn spec_clamped_vote(v: u8) -> u8 {
    if v < 10 {
        10
    } else if v > 100 {
        100
    } else {
        v
    }
}

/// Chainable staging value for a [`UListPatch`]; every setter is optional
/// and independent, and `build` consumes the builder.
pub struct UListPatchBuilder {
    pub vote: Option<u8>,
    pub notes: Option<String>,
    pub started: Option<String>,
    pub finished: Option<String>,
    pub labels: Option<Vec<LabelId>>,
    pub labels_set: Option<Vec<LabelId>>,
    pub labels_unset: Option<Vec<LabelId>>,
}

impl UListPatchBuilder {
    /// A builder with every field unset.
    pub fn new() -> (r: Self)
        ensures
            r.vote == Option::<u8>::None,
            r.notes == Option::<String>::None,
            r.started == Option::<String>::None,
            r.finished == Option::<String>::None,
            r.labels == Option::<Vec<LabelId>>::None,
            r.labels_set == Option::<Vec<LabelId>>::None,
            r.labels_unset == Option::<Vec<LabelId>>::None,
    {
        UListPatchBuilder {
            vote: None,
            notes: None,
            started: None,
            finished: None,
            labels: None,
            labels_set: None,
            labels_unset: None,
        }
    }

    /// Sets the vote.  The stored value is always within `[10, 100]`: an
    /// out-of-range vote is clamped, never rejected.
    pub fn vote(self, num: u8) -> (r: Self)
        ensures
            r == (UListPatchBuilder { vote: Some(spec_clamped_vote(num)), ..self }),
            r.vote matches Some(v) && 10 <= v <= 100,
    {
        let mut b = self;
        let clamped: u8 = if num < 10 {
            10
        } else if num > 100 {
            100
        } else {
            num
        };
        b.vote = Some(clamped);
        b
    }

    /// Sets the notes text.
    pub fn notes(self, ctx: String) -> (r: Self)
        ensures
            r == (UListPatchBuilder { notes: Some(ctx), ..self }),
    {
        let mut b = self;
        b.notes = Some(ctx);
        b
    }

    /// Sets the start date, stored in `YYYY-MM-DD` form.
    pub fn started(self, start: Date) -> (r: Self)
        ensures
            r.started matches Some(s) && s@ == spec_date(start),
            r.vote == self.vote,
            r.notes == self.notes,
            r.finished == self.finished,
            r.labels == self.labels,
            r.labels_set == self.labels_set,
            r.labels_unset == self.labels_unset,
    {
        let mut b = self;
        b.started = Some(start.format());
        b
    }

    /// Sets the finish date, stored in `YYYY-MM-DD` form.
    pub fn finished(self, finish: Date) -> (r: Self)
        ensures
            r.finished matches Some(s) && s@ == spec_date(finish),
            r.vote == self.vote,
            r.notes == self.notes,
            r.started == self.started,
            r.labels == self.labels,
            r.labels_set == self.labels_set,
            r.labels_unset == self.labels_unset,
    {
        let mut b = self;
        b.finished = Some(finish.format());
        b
    }

    /// Replaces the entry's labels with the given set.
    pub fn labels(self, l: Vec<LabelId>) -> (r: Self)
        ensures
            r == (UListPatchBuilder { labels: Some(l), ..self }),
    {
        let mut b = self;
        b.labels = Some(l);
        b
    }

    /// Adds the given labels, leaving existing ones unaffected.
    pub fn labels_set(self, l: Vec<LabelId>) -> (r: Self)
        ensures
            r == (UListPatchBuilder { labels_set: Some(l), ..self }),
    {
        let mut b = self;
        b.labels_set = Some(l);
        b
    }

    /// Removes the given labels.
    pub fn labels_unset(self, l: Vec<LabelId>) -> (r: Self)
        ensures
            r == (UListPatchBuilder { labels_unset: Some(l), ..self }),
    {
        let mut b = self;
        b.labels_unset = Some(l);
        b
    }

    /// Consumes the builder and produces the sparse patch.
    pub fn build(self) -> (r: UListPatch)
        ensures
            r.vote == self.vote,
            r.notes == self.notes,
            r.started == self.started,
            r.finished == self.finished,
            r.labels == self.labels,
            r.labels_set == self.labels_set,
            r.labels_unset == self.labels_unset,
    {
        UListPatch {
            vote: self.vote,
            notes: self.notes,
            started: self.started,
            finished: self.finished,
            labels: self.labels,
            labels_set: self.labels_set,
            labels_unset: self.labels_unset,
        }
    }
}

} // verus!
