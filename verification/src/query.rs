//! Resource-tagged query values and their builder.
//!
//! A [`Query`] is obtained only through [`QueryBuilder::build`]; the builder
//! is consumed by every setter and by `build`, so a built query can never be
//! produced twice from the same builder state, and the phantom resource tag
//! keeps a query from being submitted to an endpoint for another resource.

use core::marker::PhantomData;

use vstd::prelude::*;

use crate::filter::{spec_filter_wire, Filter};
use crate::wire::{
    join_csv, push_bool_pair, push_string_pair, push_u8_pair, spec_bool, spec_dec_u8,
    spec_escaped, spec_obj, spec_opt_pair, spec_pair, spec_part_views, spec_quoted,
};

verus! {

/// A zero-sized resource tag.  Values exist only inside this crate, so a
/// query or builder can be obtained only through this module's
/// constructors, never assembled field by field.
#[verifier::reject_recursive_types(T)]
pub struct ResourceTag<T> {
    tag: PhantomData<T>,
}

impl<T> ResourceTag<T> {
    pub(crate) fn new() -> Self {
        ResourceTag { tag: PhantomData }
    }
}

/// Tag for visual-novel queries.
pub struct VnQuery {}

/// Tag for release queries.
pub struct ReleaseQuery {}

/// Tag for producer queries.
pub struct ProducerQuery {}

/// Tag for character queries.
pub struct CharacterQuery {}

/// Tag for staff queries.
pub struct StaffQuery {}

/// Tag for tag queries.
pub struct TagQuery {}

/// Tag for trait queries.
pub struct TraitQuery {}

/// Tag for user-list queries.
pub struct UListQuery {}

/// The shared enumeration of sort keys across all resources.  Each
/// resource's builder accepts only a subset of these; see the per-resource
/// `sort` methods.
#[derive(Clone, Copy, PartialEq, Eq, Structural, Debug)]
pub enum SortField {
    Id,
    Title,
    Released,
    Rating,
    Votecount,
    Searchrank,
    Name,
    VnCount,
    CharCount,
    Voted,
    Vote,
    Added,
    Lastmod,
    Started,
    Finished,
}

impl SortField {
    /// The key as it appears on the wire.
    pub open spec fn spec_wire(self) -> Seq<char> {
        match self {
            SortField::Id => "id"@,
            SortField::Title => "title"@,
            SortField::Released => "released"@,
            SortField::Rating => "rating"@,
            SortField::Votecount => "votecount"@,
            SortField::Searchrank => "searchrank"@,
            SortField::Name => "name"@,
            SortField::VnCount => "vn_count"@,
            SortField::CharCount => "char_count"@,
            SortField::Voted => "voted"@,
            SortField::Vote => "vote"@,
            SortField::Added => "added"@,
            SortField::Lastmod => "lastmod"@,
            SortField::Started => "started"@,
            SortField::Finished => "finished"@,
        }
    }

    pub fn wire_name(self) -> (r: &'static str)
        ensures
            r@ == self.spec_wire(),
    {
        match self {
            SortField::Id => "id",
            SortField::Title => "title",
            SortField::Released => "released",
            SortField::Rating => "rating",
            SortField::Votecount => "votecount",
            SortField::Searchrank => "searchrank",
            SortField::Name => "name",
            SortField::VnCount => "vn_count",
            SortField::CharCount => "char_count",
            SortField::Voted => "voted",
            SortField::Vote => "vote",
            SortField::Added => "added",
            SortField::Lastmod => "lastmod",
            SortField::Started => "started",
            SortField::Finished => "finished",
        }
    }
}

/// The sort keys a visual-novel query accepts.
pub open spec fn vn_sort_allowed(s: SortField) -> bool {
    ||| s == SortField::Id
    ||| s == SortField::Title
    ||| s == SortField::Released
    ||| s == SortField::Rating
    ||| s == SortField::Votecount
    ||| s == SortField::Searchrank
}

/// The sort keys a release query accepts.
pub open spec fn release_sort_allowed(s: SortField) -> bool {
    ||| s == SortField::Id
    ||| s == SortField::Title
    ||| s == SortField::Released
    ||| s == SortField::Searchrank
}

/// The sort keys a producer query accepts.
pub open spec fn producer_sort_allowed(s: SortField) -> bool {
    ||| s == SortField::Id
    ||| s == SortField::Name
    ||| s == SortField::Searchrank
}

/// The sort keys a character query accepts.
pub open spec fn character_sort_allowed(s: SortField) -> bool {
    ||| s == SortField::Id
    ||| s == SortField::Name
    ||| s == SortField::Searchrank
}

/// The sort keys a staff query accepts.
pub open spec fn staff_sort_allowed(s: SortField) -> bool {
    ||| s == SortField::Id
    ||| s == SortField::Name
    ||| s == SortField::Searchrank
}

/// The sort keys a tag query accepts.
pub open spec fn tag_sort_allowed(s: SortField) -> bool {
    ||| s == SortField::Id
    ||| s == SortField::Name
    ||| s == SortField::VnCount
    ||| s == SortField::Searchrank
}

/// The sort keys a trait query accepts.
pub open spec fn trait_sort_allowed(s: SortField) -> bool {
    ||| s == SortField::Id
    ||| s == SortField::Name
    ||| s == SortField::CharCount
    ||| s == SortField::Searchrank
}

/// The sort keys a user-list query accepts.
pub open spec fn ulist_sort_allowed(s: SortField) -> bool {
    ||| s == SortField::Id
    ||| s == SortField::Title
    ||| s == SortField::Released
    ||| s == SortField::Rating
    ||| s == SortField::Votecount
    ||| s == SortField::Voted
    ||| s == SortField::Vote
    ||| s == SortField::Added
    ||| s == SortField::Lastmod
    ||| s == SortField::Started
    ||| s == SortField::Finished
    ||| s == SortField::Searchrank
}

/// The page size a builder stores for a requested size `n`: clamped into
/// `[0, 100]`, never rejected.
pub open spec fn spec_clamped_results(n: u8) -> u8 {
    if n > 100 {
        100
    } else {
        n
    }
}

/// An immutable, buildable request for the resource tagged `T`.
///
/// Obtained only from [`QueryBuilder::build`]; the phantom tag has no
/// runtime representation and exists to keep resource-specific field and
/// sort choices apart at compile time.
#[verifier::reject_recursive_types(T)]
pub struct Query<T> {
    /// Which database items to fetch.
    pub filters: Option<Filter>,
    /// CSV of the fields to fetch for each item.
    pub fields: Option<String>,
    /// Field to sort on.
    pub sort: Option<SortField>,
    /// True to sort in descending order.
    pub reverse: Option<bool>,
    /// Number of results per page, at most 100; 0 is allowed.
    pub results: Option<u8>,
    /// Page number, starting from 1.
    pub page: Option<u8>,
    /// User identifier; only meaningful for list queries.
    pub user: Option<String>,
    /// Whether the response should include the `count` field.
    pub count: Option<bool>,
    /// Whether the response should include the `compact_filters` field.
    pub compact_filters: Option<bool>,
    /// Whether the response should include the `normalized_filters` field.
    pub normalized_filters: Option<bool>,
    /// The zero-sized resource tag.
    pub marker: ResourceTag<T>,
}

/// The members of the request body, in wire order; absent options
/// contribute nothing, never a `null`.
pub open spec fn spec_query_pairs<T>(q: Query<T>) -> Seq<Seq<char>> {
    spec_opt_pair(
        "filters"@,
        match q.filters {
            Option::Some(f) => Option::Some(spec_filter_wire(f)),
            Option::None => Option::None,
        },
    ) + spec_opt_pair(
        "fields"@,
        match q.fields {
            Option::Some(s) => Option::Some(spec_quoted(spec_escaped(s@))),
            Option::None => Option::None,
        },
    ) + spec_opt_pair(
        "sort"@,
        match q.sort {
            Option::Some(s) => Option::Some(spec_quoted(s.spec_wire())),
            Option::None => Option::None,
        },
    ) + spec_opt_pair(
        "reverse"@,
        match q.reverse {
            Option::Some(b) => Option::Some(spec_bool(b)),
            Option::None => Option::None,
        },
    ) + spec_opt_pair(
        "results"@,
        match q.results {
            Option::Some(n) => Option::Some(spec_dec_u8(n)),
            Option::None => Option::None,
        },
    ) + spec_opt_pair(
        "page"@,
        match q.page {
            Option::Some(n) => Option::Some(spec_dec_u8(n)),
            Option::None => Option::None,
        },
    ) + spec_opt_pair(
        "user"@,
        match q.user {
            Option::Some(u) => Option::Some(spec_quoted(spec_escaped(u@))),
            Option::None => Option::None,
        },
    ) + spec_opt_pair(
        "count"@,
        match q.count {
            Option::Some(b) => Option::Some(spec_bool(b)),
            Option::None => Option::None,
        },
    ) + spec_opt_pair(
        "compact_filters"@,
        match q.compact_filters {
            Option::Some(b) => Option::Some(spec_bool(b)),
            Option::None => Option::None,
        },
    ) + spec_opt_pair(
        "normalized_filters"@,
        match q.normalized_filters {
            Option::Some(b) => Option::Some(spec_bool(b)),
            Option::None => Option::None,
        },
    )
}

/// The complete JSON request body for `q`.
pub open spec fn spec_query_wire<T>(q: Query<T>) -> Seq<char> {
    spec_obj(spec_query_pairs(q))
}


fn push_filter_pair(parts: &mut Vec<String>, prefix: &str, v: &Option<Filter>, Ghost(key): Ghost<
    Seq<char>,
>)
    requires
        prefix@ == spec_quoted(key) + seq![':'],
    ensures
        spec_part_views(final(parts)@) == spec_part_views(old(parts)@) + spec_opt_pair(
            key,
            if v is Some {
                Option::Some(spec_filter_wire(v->0))
            } else {
                Option::None
            },
        ),
{
    let ghost oldmap = spec_part_views(parts@);
    if let Some(ref f) = *v {
        let mut p = String::new();
        p.append(prefix);
        p.append(f.to_wire().as_str());
        proof {
            assert(p@ =~= spec_pair(key, spec_filter_wire(*f)));
        }
        parts.push(p);
    }
    proof {
        assert(spec_part_views(parts@) =~= oldmap + spec_opt_pair(
            key,
            if v is Some {
                Option::Some(spec_filter_wire(v->0))
            } else {
                Option::None
            },
        ));
    }
}


fn push_sort_pair(parts: &mut Vec<String>, prefix: &str, v: &Option<SortField>, Ghost(key): Ghost<
    Seq<char>,
>)
    requires
        prefix@ == spec_quoted(key) + seq![':'],
    ensures
        spec_part_views(final(parts)@) == spec_part_views(old(parts)@) + spec_opt_pair(
            key,
            if v is Some {
                Option::Some(spec_quoted(v->0.spec_wire()))
            } else {
                Option::None
            },
        ),
{
    let ghost oldmap = spec_part_views(parts@);
    if let Some(ref f) = *v {
        let mut p = String::new();
        p.append(prefix);
        p.append("\"");
        p.append(f.wire_name());
        p.append("\"");
        proof {
            reveal_strlit("\"");
            assert("\""@ =~= seq!['"']);
            assert(p@ =~= spec_pair(key, spec_quoted(f.spec_wire())));
        }
        parts.push(p);
    }
    proof {
        assert(spec_part_views(parts@) =~= oldmap + spec_opt_pair(
            key,
            if v is Some {
                Option::Some(spec_quoted(v->0.spec_wire()))
            } else {
                Option::None
            },
        ));
    }
}



impl<T> Query<T> {
    /// Renders the request body: a JSON object holding exactly the fields
    /// that are set, in wire order.
    #[verifier::rlimit(50)]
    pub fn to_wire(&self) -> (r: String)
        ensures
            r@ == spec_query_wire(*self),
    {
        let mut parts: Vec<String> = Vec::new();
        proof {
            assert(spec_part_views(parts@) =~= Seq::<Seq<char>>::empty());
            reveal_strlit("\"filters\":");
            reveal_strlit("filters");
            assert("\"filters\":"@ =~= spec_quoted("filters"@) + seq![':']);
            reveal_strlit("\"fields\":");
            reveal_strlit("fields");
            assert("\"fields\":"@ =~= spec_quoted("fields"@) + seq![':']);
            reveal_strlit("\"sort\":");
            reveal_strlit("sort");
            assert("\"sort\":"@ =~= spec_quoted("sort"@) + seq![':']);
            reveal_strlit("\"reverse\":");
            reveal_strlit("reverse");
            assert("\"reverse\":"@ =~= spec_quoted("reverse"@) + seq![':']);
            reveal_strlit("\"results\":");
            reveal_strlit("results");
            assert("\"results\":"@ =~= spec_quoted("results"@) + seq![':']);
            reveal_strlit("\"page\":");
            reveal_strlit("page");
            assert("\"page\":"@ =~= spec_quoted("page"@) + seq![':']);
            reveal_strlit("\"user\":");
            reveal_strlit("user");
            assert("\"user\":"@ =~= spec_quoted("user"@) + seq![':']);
            reveal_strlit("\"count\":");
            reveal_strlit("count");
            assert("\"count\":"@ =~= spec_quoted("count"@) + seq![':']);
            reveal_strlit("\"compact_filters\":");
            reveal_strlit("compact_filters");
            assert("\"compact_filters\":"@ =~= spec_quoted("compact_filters"@) + seq![':']);
            reveal_strlit("\"normalized_filters\":");
            reveal_strlit("normalized_filters");
            assert("\"normalized_filters\":"@ =~= spec_quoted("normalized_filters"@) + seq![':']);
        }
        push_filter_pair(&mut parts, "\"filters\":", &self.filters, Ghost("filters"@));
        push_string_pair(&mut parts, "\"fields\":", &self.fields, Ghost("fields"@));
        push_sort_pair(&mut parts, "\"sort\":", &self.sort, Ghost("sort"@));
        push_bool_pair(&mut parts, "\"reverse\":", &self.reverse, Ghost("reverse"@));
        push_u8_pair(&mut parts, "\"results\":", &self.results, Ghost("results"@));
        push_u8_pair(&mut parts, "\"page\":", &self.page, Ghost("page"@));
        push_string_pair(&mut parts, "\"user\":", &self.user, Ghost("user"@));
        push_bool_pair(&mut parts, "\"count\":", &self.count, Ghost("count"@));
        push_bool_pair(&mut parts, "\"compact_filters\":", &self.compact_filters, Ghost("compact_filters"@));
        push_bool_pair(&mut parts, "\"normalized_filters\":", &self.normalized_filters, Ghost("normalized_filters"@));
        proof {
            assert(spec_part_views(parts@) =~= spec_query_pairs(*self));
        }
        let body = join_csv(&parts);
        let mut out = String::new();
        out.append("{");
        out.append(body.as_str());
        out.append("}");
        proof {
            reveal_strlit("{");
            reveal_strlit("}");
            assert("{"@ =~= seq!['{']);
            assert("}"@ =~= seq!['}']);
            assert(out@ =~= spec_query_wire(*self));
        }
        out
    }
}

/// Mutable staging value for a [`Query`].  Every setter consumes the
/// builder and returns it, and `build` consumes it for good, so a consumed
/// builder cannot be reused.
#[verifier::reject_recursive_types(T)]
pub struct QueryBuilder<T> {
    pub filters: Option<Filter>,
    pub fields: Option<String>,
    pub sort: Option<SortField>,
    pub reverse: Option<bool>,
    pub results: Option<u8>,
    pub page: Option<u8>,
    pub user: Option<String>,
    pub count: Option<bool>,
    pub compact_filters: Option<bool>,
    pub normalized_filters: Option<bool>,
    /// The zero-sized resource tag.
    pub marker: ResourceTag<T>,
}

impl<T> QueryBuilder<T> {
    /// A builder with the default settings: sort by identifier, ascending,
    /// ten results, first page, no response-shaping flags.
    pub fn new() -> (r: Self)
        ensures
            r.filters == Option::<Filter>::None,
            r.fields == Option::<String>::None,
            r.sort == Some(SortField::Id),
            r.reverse == Some(false),
            r.results == Some(10u8),
            r.page == Some(1u8),
            r.user == Option::<String>::None,
            r.count == Some(false),
            r.compact_filters == Some(false),
            r.normalized_filters == Some(false),
    {
        QueryBuilder {
            filters: None,
            fields: None,
            sort: Some(SortField::Id),
            reverse: Some(false),
            results: Some(10),
            page: Some(1),
            user: None,
            count: Some(false),
            compact_filters: Some(false),
            normalized_filters: Some(false),
            marker: ResourceTag::new(),
        }
    }

    /// Sets the filter expression.
    pub fn filters(self, filters: Filter) -> (r: Self)
        ensures
            r == (QueryBuilder { filters: Some(filters), ..self }),
    {
        let mut b = self;
        b.filters = Some(filters);
        b
    }

    /// Requests descending order.  Idempotent: calling twice has the same
    /// effect as calling once.
    pub fn reverse(self) -> (r: Self)
        ensures
            r == (QueryBuilder { reverse: Some(true), ..self }),
    {
        let mut b = self;
        b.reverse = Some(true);
        b
    }

    /// Sets the page size.  The stored value is always within `[0, 100]`:
    /// an out-of-range request is clamped, never rejected.
    pub fn results(self, num_results: u8) -> (r: Self)
        ensures
            r == (QueryBuilder { results: Some(spec_clamped_results(num_results)), ..self }),
            r.results matches Some(n) && n <= 100,
    {
        let mut b = self;
        let clamped: u8 = if num_results > 100 {
            100
        } else {
            num_results
        };
        b.results = Some(clamped);
        b
    }

    /// Sets the 1-based page number, accepted as given.
    pub fn page(self, page_num: u8) -> (r: Self)
        ensures
            r == (QueryBuilder { page: Some(page_num), ..self }),
    {
        let mut b = self;
        b.page = Some(page_num);
        b
    }

    /// Sets the user identifier; only meaningful for list queries and
    /// ignored by the server elsewhere.
    pub fn user(self, user_id: &String) -> (r: Self)
        ensures
            r == (QueryBuilder { user: Some(*user_id), ..self }),
    {
        let mut b = self;
        b.user = Some(user_id.clone());
        b
    }

    /// Asks the response to echo the compact filter string.
    pub fn enable_compact_filters(self) -> (r: Self)
        ensures
            r == (QueryBuilder { compact_filters: Some(true), ..self }),
    {
        let mut b = self;
        b.compact_filters = Some(true);
        b
    }

    /// Asks the response to echo the normalized filter tree.
    pub fn enable_normalized_filters(self) -> (r: Self)
        ensures
            r == (QueryBuilder { normalized_filters: Some(true), ..self }),
    {
        let mut b = self;
        b.normalized_filters = Some(true);
        b
    }

    /// Consumes the builder and produces the immutable query; the only way
    /// to obtain one.
    pub fn build(self) -> (r: Query<T>)
        ensures
            r.filters == self.filters,
            r.fields == self.fields,
            r.sort == self.sort,
            r.reverse == self.reverse,
            r.results == self.results,
            r.page == self.page,
            r.user == self.user,
            r.count == self.count,
            r.compact_filters == self.compact_filters,
            r.normalized_filters == self.normalized_filters,
    {
        Query {
            filters: self.filters,
            fields: self.fields,
            sort: self.sort,
            reverse: self.reverse,
            results: self.results,
            page: self.page,
            user: self.user,
            count: self.count,
            compact_filters: self.compact_filters,
            normalized_filters: self.normalized_filters,
            marker: self.marker,
        }
    }
}

} // verus!
