//! JSON:API documents and the query options of listing requests: which
//! related resources to include, how to filter and sort, and which page to
//! return, with the links to the neighbouring pages.
use vstd::prelude::*;
use crate::names::{Named, name_lookup, names, names_of, parse_names, parse_names_spec};
use crate::text::{join_spec, split_spec, str_views};

verus! {

/// The page size of a listing whose request names none.
pub const DEFAULT_PAGE_SIZE: u32 = 10;

/// The largest page a listing request may ask for.
pub const MAX_PAGE_SIZE: u32 = 20;

/// The links a listing carries to other pages.
#[derive(PartialEq, Eq, Structural, Clone, Copy, Debug, Hash)]
pub enum LinkKey {
    Prev,
    Next,
    First,
    Last,
}

/// The primary data of a document: one resource or a list of them.
pub enum DocumentData<R> {
    Single(R),
    Multi(Vec<R>),
}

/// A response document: its primary data, the related resources it
/// includes and its links to other pages.
pub struct Document<R, I> {
    pub data: DocumentData<R>,
    pub included: Vec<I>,
    pub links: Vec<(LinkKey, String)>,
}

/// A request body that creates resources.
pub struct InsertDocument<R> {
    pub data: DocumentData<R>,
}

/// A request body that creates one resource.
pub struct InsertOneDocument<R> {
    pub data: R,
}

/// A request body that adds one relationship.
pub struct InsertOneRelation<R> {
    pub data: R,
}

/// A request body that adds several relationships.
pub struct InsertManyRelation<R> {
    pub data: Vec<R>,
}

/// A request body that updates resources.
pub struct UpdateDocument<R> {
    pub data: DocumentData<R>,
}

/// A request body that updates one resource.
pub struct UpdateOneDocument<R> {
    pub data: R,
}

/// A reference to a resource by its kind and identifier.
pub struct ResourceIdentifier<RT, I, M> {
    pub resource_type: RT,
    pub id: I,
    pub meta: Option<M>,
}

/// A resource: its kind, identifier and attributes, its relationships to
/// other resources (each kind of relationship once) and extra information.
pub struct Resource<RT, I, T, R, M> {
    pub resource_type: RT,
    pub id: I,
    pub attributes: T,
    pub relationships: Vec<(R, Relationship<RT, M>)>,
    pub meta: Option<M>,
}

/// A resource to be created: its kind, attributes, relationships and extra
/// information; the server gives it its identifier.
pub struct InsertResource<RT, T, R, M> {
    pub resource_type: RT,
    pub attributes: T,
    pub relationships: Vec<(R, Relationship<RT, M>)>,
    pub meta: Option<M>,
}

/// The resources a relationship points to.
pub struct Relationship<RT, M> {
    pub data: Relation<RT, M>,
}

/// One related resource or a list of them.
pub enum Relation<RT, M> {
    Single(Related<RT, M>),
    Multi(Vec<Related<RT, M>>),
}

/// A reference to a related resource, by the kind of its identifier.
pub enum Related<RT, M> {
    Uuid(ResourceIdentifier<RT, crate::entity::Uuid, M>),
    String(ResourceIdentifier<RT, String, M>),
    Int(ResourceIdentifier<RT, i64, M>),
    ConnectionProvider(ResourceIdentifier<RT, crate::entity::ConnectionProvider, M>),
}

/// An error as it is sent to the client.
pub struct SerializableError {
    pub status: u16,
    pub title: String,
    pub detail: Option<String>,
}

/// A page of a listing: at most `size` resources, those before or after the
/// given identifiers.
pub struct Page<Id> {
    pub size: u32,
    pub before: Option<Id>,
    pub after: Option<Id>,
}

/// Whether a page asks for no more than the largest page size.
pub open spec fn is_valid_page<Id>(p: Page<Id>) -> bool {
    p.size <= MAX_PAGE_SIZE
}

/// The page size of a listing whose request names none.
pub fn default_page_size() -> (r: u32)
    ensures
        r == DEFAULT_PAGE_SIZE,
{
    DEFAULT_PAGE_SIZE
}

/// The first page of a listing, of the default size.
pub fn default_page<Id>() -> (r: Page<Id>)
    ensures
        r.size == DEFAULT_PAGE_SIZE,
        r.before is None,
        r.after is None,
{
    Page { size: default_page_size(), before: None, after: None }
}

/// The direction in which a listing is sorted by a column.
#[derive(PartialEq, Eq, Structural, Clone, Copy, Debug, Hash)]
pub enum SortOrder {
    Asc,
    Desc,
}

/// The query options of a listing request as they are written in the query
/// string: comma-separated include names, filters, a sort text and a page.
pub struct RawQueryOptions<F, Id> {
    pub includes: Option<String>,
    pub filter: Option<Vec<(F, String)>>,
    pub sort: Option<String>,
    pub page: Option<Page<Id>>,
}

/// The query options of a listing request, parsed.
pub struct QueryOptions<F, C, I, Id> {
    pub includes: Vec<I>,
    pub filter: Vec<(F, String)>,
    pub sort: Vec<(C, SortOrder)>,
    pub page: Page<Id>,
}

/// Why the query options of a request were refused.
#[derive(PartialEq, Eq, Structural, Clone, Copy, Debug)]
pub enum QueryError {
    /// One of the include names names no relationship.
    InvalidInclude,
    /// The page asks for more resources than the largest page holds.
    PageTooLarge(u32),
}

impl QueryError {
    /// The HTTP status a refused query is answered with: a bad request.
    pub fn status(&self) -> (r: u16)
        ensures
            r == 400,
    {
        400
    }
}

/// A kind of filter a listing can be narrowed by.
pub trait FilterKey: Sized + Copy {
    /// Whether two filter kinds are the same.
    fn same_key(&self, other: &Self) -> (r: bool)
        ensures
            r == (*self == *other),
    ;
}

/// The value of the last filter of the given kind, if there is one.
pub open spec fn last_filter_value<F>(raw: Seq<(F, String)>, k: F) -> Option<Seq<char>>
    decreases raw.len(),
{
    if raw.len() == 0 {
        None
    } else if raw.last().0 == k {
        Some(raw.last().1@)
    } else {
        last_filter_value(raw.drop_last(), k)
    }
}

/// Filters collected into a map from kind to value: each kind once, with
/// the value of its last filter; kinds in the order they first appear.
pub open spec fn is_filter_map<F>(out: Seq<(F, String)>, raw: Seq<(F, String)>) -> bool {
    &&& forall|j: int, k: int| 0 <= j < k < out.len() ==> #[trigger] out[j].0 != #[trigger] out[k].0
    &&& forall|j: int| 0 <= j < out.len() ==> last_filter_value(raw, #[trigger] out[j].0) == Some(out[j].1@)
    &&& forall|i: int| 0 <= i < raw.len() ==> exists|j: int| 0 <= j < out.len() && #[trigger] out[j].0 == #[trigger] raw[i].0
}

/// Filters as a map from kind to value: a later filter of a kind replaces
/// the value of an earlier one.
pub fn filter_map<F: FilterKey>(raw: Vec<(F, String)>) -> (r: Vec<(F, String)>)
    ensures
        is_filter_map(r@, raw@),
{
    let mut out: Vec<(F, String)> = Vec::new();
    let mut i: usize = 0;
    assert(raw@.take(0) =~= Seq::<(F, String)>::empty());
    while i < raw.len()
        invariant
            i <= raw.len(),
            is_filter_map(out@, raw@.take(i as int)),
        decreases raw.len() - i,
    {
        let ghost before = raw@.take(i as int);
        let ghost after = raw@.take(i as int + 1);
        assert(after.drop_last() =~= before);
        assert(after.last() == raw@[i as int]);
        let kind = raw[i].0;
        let mut j: usize = 0;
        while j < out.len()
            invariant
                j <= out.len(),
                forall|k: int| 0 <= k < j ==> out@[k].0 != kind,
            ensures
                j <= out.len(),
                forall|k: int| 0 <= k < j ==> out@[k].0 != kind,
                j < out.len() ==> out@[j as int].0 == kind,
            decreases out.len() - j,
        {
            if out[j].0.same_key(&kind) {
                break;
            }
            j = j + 1;
        }
        let ghost old_out = out@;
        if j < out.len() {
            out.set(j, (kind, crate::text::copy_string(&raw[i].1)));
            assert forall|a: int, b: int| 0 <= a < b < out@.len() implies #[trigger] out@[a].0 != #[trigger] out@[b].0 by {
                assert(out@[a].0 == old_out[a].0);
                assert(out@[b].0 == old_out[b].0);
            }
            assert forall|a: int| 0 <= a < out@.len() implies last_filter_value(after, #[trigger] out@[a].0) == Some(out@[a].1@) by {
                if a != j as int {
                    assert(out@[a] == old_out[a]);
                    assert(old_out[a].0 != old_out[j as int].0);
                }
            }
            assert forall|k: int| 0 <= k < after.len() implies exists|a: int| 0 <= a < out@.len() && #[trigger] out@[a].0 == #[trigger] after[k].0 by {
                if k < before.len() {
                    assert(after[k] == before[k]);
                    let a = choose|a: int| 0 <= a < old_out.len() && #[trigger] old_out[a].0 == #[trigger] before[k].0;
                    assert(out@[a].0 == old_out[a].0);
                } else {
                    assert(out@[j as int].0 == after[k].0);
                }
            }
        } else {
            out.push((kind, crate::text::copy_string(&raw[i].1)));
            assert forall|a: int, b: int| 0 <= a < b < out@.len() implies #[trigger] out@[a].0 != #[trigger] out@[b].0 by {
                assert(out@[a] == old_out[a]);
                if b < old_out.len() {
                    assert(out@[b] == old_out[b]);
                }
            }
            assert forall|a: int| 0 <= a < out@.len() implies last_filter_value(after, #[trigger] out@[a].0) == Some(out@[a].1@) by {
                if a < old_out.len() {
                    assert(out@[a] == old_out[a]);
                }
            }
            assert forall|k: int| 0 <= k < after.len() implies exists|a: int| 0 <= a < out@.len() && #[trigger] out@[a].0 == #[trigger] after[k].0 by {
                if k < before.len() {
                    assert(after[k] == before[k]);
                    let a = choose|a: int| 0 <= a < old_out.len() && #[trigger] old_out[a].0 == #[trigger] before[k].0;
                    assert(out@[a] == old_out[a]);
                } else {
                    assert(out@[old_out.len() as int].0 == after[k].0);
                }
            }
        }
        i = i + 1;
    }
    assert(raw@.take(raw.len() as int) =~= raw@);
    out
}

/// The columns of a sort entry list.
pub open spec fn sort_keys<C>(s: Seq<(C, SortOrder)>) -> Seq<C> {
    s.map_values(|e: (C, SortOrder)| e.0)
}

/// Ascending sort entries for the pieces that name a column, each column
/// once, in the order in which the pieces first name it.
pub open spec fn ascending_sort_spec<C: Named>(parts: Seq<Seq<char>>) -> Seq<(C, SortOrder)>
    decreases parts.len(),
{
    if parts.len() == 0 {
        Seq::empty()
    } else {
        let init = ascending_sort_spec::<C>(parts.drop_last());
        match name_lookup::<C>(parts.last()) {
            Some(c) => if sort_keys(init).contains(c) {
                init
            } else {
                init.push((c, SortOrder::Asc))
            },
            None => init,
        }
    }
}

/// The sort entries read from a sort text. A text that starts with a dash
/// sorts descending by the column named by the rest of the text (nothing when
/// that names no column, as when it holds a comma). Otherwise each
/// comma-separated piece that names a column sorts ascending by it; pieces
/// that name no column are left out.
pub open spec fn sort_spec<C: Named>(s: Seq<char>) -> Seq<(C, SortOrder)> {
    if s.len() > 0 && s[0] == '-' {
        match name_lookup::<C>(s.drop_first()) {
            Some(c) => seq![(c, SortOrder::Desc)],
            None => Seq::empty(),
        }
    } else {
        ascending_sort_spec::<C>(split_spec(s, ','))
    }
}

fn contains_key<C: Named>(entries: &Vec<(C, SortOrder)>, c: &C) -> (r: bool)
    ensures
        r == sort_keys(entries@).contains(*c),
{
    let mut i: usize = 0;
    while i < entries.len()
        invariant
            i <= entries.len(),
            forall|j: int| 0 <= j < i ==> entries@[j].0 != *c,
        decreases entries.len() - i,
    {
        if entries[i].0.same(c) {
            assert(sort_keys(entries@)[i as int] == *c);
            return true;
        }
        i = i + 1;
    }
    assert(!sort_keys(entries@).contains(*c)) by {
        if sort_keys(entries@).contains(*c) {
            let j = choose|j: int| 0 <= j < sort_keys(entries@).len() && sort_keys(entries@)[j] == *c;
            assert(entries@[j].0 == *c);
        }
    }
    false
}

/// Reads the sort entries from a sort text.
pub fn parse_sort<C: Named>(s: &str) -> (r: Vec<(C, SortOrder)>)
    ensures
        r@ == sort_spec::<C>(s@),
{
    let n = s.unicode_len();
    if n > 0 && s.get_char(0) == '-' {
        let rest = s.substring_char(1, n);
        assert(rest@ =~= s@.drop_first());
        return match C::from_name(rest) {
            Some(c) => {
                let mut v: Vec<(C, SortOrder)> = Vec::new();
                v.push((c, SortOrder::Desc));
                assert(v@ =~= seq![(c, SortOrder::Desc)]);
                v
            },
            None => Vec::new(),
        };
    }
    let parts = crate::text::split_on(s, ',');
    let ghost views = str_views(parts@);
    let mut out: Vec<(C, SortOrder)> = Vec::new();
    let mut i: usize = 0;
    while i < parts.len()
        invariant
            views == str_views(parts@),
            views == split_spec(s@, ','),
            i <= parts.len(),
            out@ == ascending_sort_spec::<C>(views.take(i as int)),
        decreases parts.len() - i,
    {
        assert(views.take(i as int + 1).drop_last() =~= views.take(i as int));
        if let Some(c) = C::from_name(parts[i]) {
            if !contains_key(&out, &c) {
                out.push((c, SortOrder::Asc));
            }
        }
        i = i + 1;
    }
    assert(views.take(parts.len() as int) =~= views);
    out
}

/// The text of a list of sort entries: each column's name, after a dash
/// when it sorts descending, one after the other.
pub open spec fn sort_text<C: Named>(s: Seq<(C, SortOrder)>) -> Seq<char>
    decreases s.len(),
{
    if s.len() == 0 {
        Seq::empty()
    } else {
        let e = s.last();
        let prefix: Seq<char> = match e.1 {
            SortOrder::Asc => Seq::empty(),
            SortOrder::Desc => seq!['-'],
        };
        sort_text(s.drop_last()) + prefix + e.0.spec_name()
    }
}

/// Writes the sort entries as text.
pub fn render_sort<C: Named>(sort: &Vec<(C, SortOrder)>) -> (r: String)
    ensures
        r@ == sort_text(sort@),
{
    let mut out = String::new();
    let mut i: usize = 0;
    while i < sort.len()
        invariant
            i <= sort.len(),
            out@ == sort_text(sort@.take(i as int)),
        decreases sort.len() - i,
    {
        assert(sort@.take(i as int + 1).drop_last() =~= sort@.take(i as int));
        let (c, order) = sort[i];
        match order {
            SortOrder::Asc => {
                assert(out@ + Seq::<char>::empty() =~= out@);
            },
            SortOrder::Desc => {
                out.append("-");
                proof {
                    reveal_strlit("-");
                }
            },
        }
        out.append(c.name());
        i = i + 1;
        assert(out@ =~= sort_text(sort@.take(i as int)));
    }
    assert(sort@.take(sort.len() as int) =~= sort@);
    out
}

/// The view of an optional string.
pub open spec fn opt_str(s: Option<String>) -> Option<Seq<char>> {
    match s {
        Some(x) => Some(x@),
        None => None,
    }
}

impl<F: FilterKey, C: Named, I: Named, Id> QueryOptions<F, C, I, Id> {
    /// The options of a request without a query string: nothing included,
    /// filtered or sorted, and the first page of the default size.
    pub fn default_options() -> (r: Self)
        ensures
            r.includes@.len() == 0,
            r.filter@.len() == 0,
            r.sort@.len() == 0,
            r.page.size == DEFAULT_PAGE_SIZE,
            r.page.before is None,
            r.page.after is None,
    {
        QueryOptions {
            includes: Vec::new(),
            filter: Vec::new(),
            sort: Vec::new(),
            page: Page { size: DEFAULT_PAGE_SIZE, before: None, after: None },
        }
    }

    /// Parses the options written in a query string. A page larger than the
    /// largest page size is refused first; then an include text that names
    /// an unknown relationship. Filters are kept once per kind (the last
    /// value of each), the sort text is read by `sort_spec`, and a missing
    /// page is the default first page.
    pub fn from_raw(raw: RawQueryOptions<F, Id>) -> (r: Result<Self, QueryError>)
        ensures
            (raw.page matches Some(p) && p.size > MAX_PAGE_SIZE) ==> r == Err::<Self, QueryError>(
                QueryError::PageTooLarge(raw.page->0.size),
            ),
            !(raw.page matches Some(p) && p.size > MAX_PAGE_SIZE) ==> (r is Err <==> (raw.includes is Some
                && parse_names_spec::<I>(raw.includes->0@) is None)),
            !(raw.page matches Some(p) && p.size > MAX_PAGE_SIZE) && r is Err ==> r == Err::<Self, QueryError>(
                QueryError::InvalidInclude,
            ),
            r is Ok ==> {
                let o = r->Ok_0;
                &&& is_valid_page(o.page)
                &&& o.includes@ == match raw.includes {
                    Some(s) => parse_names_spec::<I>(s@)->0,
                    None => Seq::empty(),
                }
                &&& is_filter_map(o.filter@, match raw.filter {
                    Some(f) => f@,
                    None => Seq::empty(),
                })
                &&& o.sort@ == match raw.sort {
                    Some(s) => sort_spec::<C>(s@),
                    None => Seq::empty(),
                }
                &&& match raw.page {
                    Some(p) => o.page == p,
                    None => o.page.size == DEFAULT_PAGE_SIZE && o.page.before is None
                        && o.page.after is None,
                }
            },
    {
        let RawQueryOptions { includes, filter, sort, page } = raw;
        match &page {
            Some(p) => {
                if p.size > MAX_PAGE_SIZE {
                    return Err(QueryError::PageTooLarge(p.size));
                }
            },
            None => {},
        }
        let includes = match includes {
            Some(s) => match parse_names::<I>(s.as_str()) {
                Some(v) => v,
                None => {
                    return Err(QueryError::InvalidInclude);
                },
            },
            None => Vec::new(),
        };
        let filter = match filter {
            Some(f) => filter_map(f),
            None => filter_map(Vec::new()),
        };
        let sort = match sort {
            Some(s) => parse_sort::<C>(s.as_str()),
            None => Vec::new(),
        };
        let page = match page {
            Some(p) => p,
            None => default_page(),
        };
        Ok(QueryOptions { includes, filter, sort, page })
    }

    /// These options with the page moved to the one that ends just before
    /// `first`, of the same size.
    pub fn prev_page(self, first: Id) -> (r: Self)
        ensures
            r.includes == self.includes,
            r.filter == self.filter,
            r.sort == self.sort,
            r.page.size == self.page.size,
            r.page.before == Some(first),
            r.page.after is None,
    {
        let QueryOptions { includes, filter, sort, page } = self;
        QueryOptions { includes, filter, sort, page: Page { size: page.size, before: Some(first), after: None } }
    }

    /// These options with the page moved to the one that starts just after
    /// `last`, of the same size.
    pub fn next_page(self, last: Id) -> (r: Self)
        ensures
            r.includes == self.includes,
            r.filter == self.filter,
            r.sort == self.sort,
            r.page.size == self.page.size,
            r.page.before is None,
            r.page.after == Some(last),
    {
        let QueryOptions { includes, filter, sort, page } = self;
        QueryOptions { includes, filter, sort, page: Page { size: page.size, before: None, after: Some(last) } }
    }
}

impl<F, Id> RawQueryOptions<F, Id> {
    /// Writes parsed options back in query-string form: the include names
    /// joined by commas (none when nothing is included), the filters (none
    /// when there are none), the sort text, always, and the page.
    pub fn from<C: Named, I: Named>(value: QueryOptions<F, C, I, Id>) -> (r: Self)
        ensures
            opt_str(r.includes) == if value.includes@.len() == 0 {
                None::<Seq<char>>
            } else {
                Some(join_spec(names_of(value.includes@), ','))
            },
            r.filter == if value.filter@.len() == 0 {
                None::<Vec<(F, String)>>
            } else {
                Some(value.filter)
            },
            opt_str(r.sort) == Some(sort_text(value.sort@)),
            r.page == Some(value.page),
    {
        let QueryOptions { includes, filter, sort, page } = value;
        proof {
            reveal_strlit(",");
        }
        let include_text = if includes.len() > 0 {
            let ns = names(&includes);
            Some(crate::text::join_with(&ns, ","))
        } else {
            None
        };
        let filter = if filter.len() == 0 {
            None
        } else {
            Some(filter)
        };
        let sort_text = render_sort(&sort);
        RawQueryOptions { includes: include_text, filter, sort: Some(sort_text), page: Some(page) }
    }
}

/// Writing options back in query-string form and reading them again gives
/// the same options, as long as they sort by at most one column.
pub proof fn lemma_query_roundtrip<C: Named, I: Named>(
    includes: Seq<I>,
    filter_len: nat,
    sort: Seq<(C, SortOrder)>,
    include_text: Option<Seq<char>>,
    sort_text_written: Seq<char>,
)
    requires
        sort.len() <= 1,
        include_text == if includes.len() == 0 {
            None::<Seq<char>>
        } else {
            Some(join_spec(names_of(includes), ','))
        },
        sort_text_written == sort_text(sort),
    ensures
        match include_text {
            Some(s) => parse_names_spec::<I>(s) == Some(includes),
            None => includes == Seq::<I>::empty(),
        },
        sort_spec::<C>(sort_text_written) == sort,
{
    if includes.len() > 0 {
        crate::names::lemma_parse_joined_names(includes);
    } else {
        assert(includes =~= Seq::<I>::empty());
    }
    let empty_entries = Seq::<(C, SortOrder)>::empty();
    let empty_parts = Seq::<Seq<char>>::empty();
    assert(sort_text(empty_entries) == Seq::<char>::empty());
    assert(ascending_sort_spec::<C>(empty_parts) == empty_entries);
    assert(sort_keys(empty_entries) =~= Seq::<C>::empty());
    if sort.len() == 0 {
        assert(sort =~= empty_entries);
        assert(sort_text_written =~= Seq::<char>::empty());
        let parts = split_spec(sort_text_written, ',');
        assert(parts == seq![Seq::<char>::empty()]);
        assert(parts.drop_last() =~= empty_parts);
        C::lemma_from_name_named(Seq::<char>::empty());
        if let Some(c) = name_lookup::<C>(Seq::<char>::empty()) {
            C::lemma_name_plain(c);
        }
        assert(ascending_sort_spec::<C>(parts) == empty_entries);
    } else {
        let (c, order) = sort[0];
        C::lemma_name_plain(c);
        C::lemma_name_roundtrip(c);
        assert(sort.drop_last() =~= empty_entries);
        assert(sort =~= seq![(c, order)]);
        match order {
            SortOrder::Asc => {
                assert(sort_text_written =~= Seq::<char>::empty() + Seq::<char>::empty()
                    + c.spec_name());
                assert(sort_text_written =~= c.spec_name());
                crate::text::lemma_split_single(c.spec_name(), ',');
                let parts = split_spec(sort_text_written, ',');
                assert(parts.drop_last() =~= empty_parts);
                assert(parts.last() == c.spec_name());
                assert(ascending_sort_spec::<C>(parts) =~= seq![(c, SortOrder::Asc)]);
            },
            SortOrder::Desc => {
                assert(sort_text_written =~= Seq::<char>::empty() + seq!['-'] + c.spec_name());
                assert(sort_text_written.drop_first() =~= c.spec_name());
            },
        }
    }
}

/// The identifier of a listed resource: written as text in the links of a
/// listing, and copied into the bounds of the neighbouring pages.
pub trait PageId: Sized {
    /// The text the identifier is written as.
    spec fn id_text(&self) -> Seq<char>;

    /// The identifier written as text.
    fn to_text(&self) -> (r: String)
        ensures
            r@ == self.id_text(),
    ;

    /// A copy of the identifier.
    fn copy_id(&self) -> (r: Self)
        ensures
            r.id_text() == self.id_text(),
    ;
}

impl PageId for u128 {
    open spec fn id_text(&self) -> Seq<char> {
        crate::search_result::uuid_text(*self)
    }

    fn to_text(&self) -> (r: String) {
        crate::search_result::uuid_to_string(*self)
    }

    fn copy_id(&self) -> (r: Self) {
        *self
    }
}

impl PageId for i64 {
    open spec fn id_text(&self) -> Seq<char> {
        crate::text::decimal_int(*self as int)
    }

    fn to_text(&self) -> (r: String) {
        crate::text::decimal_string(*self)
    }

    fn copy_id(&self) -> (r: Self) {
        *self
    }
}

impl PageId for String {
    open spec fn id_text(&self) -> Seq<char> {
        self@
    }

    fn to_text(&self) -> (r: String) {
        crate::text::copy_string(self)
    }

    fn copy_id(&self) -> (r: Self) {
        crate::text::copy_string(self)
    }
}

/// The links of a listing page: the first and last identifiers, and the
/// query options of the previous and next pages; the path and the query
/// string written from those options make the links to them.
pub struct Links<F, C, I, Id> {
    pub first: Option<String>,
    pub last: Option<String>,
    pub prev: Option<QueryOptions<F, C, I, Id>>,
    pub next: Option<QueryOptions<F, C, I, Id>>,
}

/// The filters as kinds and value texts.
pub open spec fn filter_views<F>(f: Seq<(F, String)>) -> Seq<(F, Seq<char>)> {
    f.map_values(|p: (F, String)| (p.0, p.1@))
}

/// Whether two query options include, filter and sort alike and ask for
/// pages of the same size.
pub open spec fn same_but_bounds<F, C, I, Id>(a: QueryOptions<F, C, I, Id>, b: QueryOptions<F, C, I, Id>) -> bool {
    &&& a.includes@ == b.includes@
    &&& filter_views(a.filter@) == filter_views(b.filter@)
    &&& a.sort@ == b.sort@
    &&& a.page.size == b.page.size
}

/// A copy of a list of copyable values.
fn copy_vec<T: Copy>(v: &Vec<T>) -> (r: Vec<T>)
    ensures
        r@ == v@,
{
    let mut out: Vec<T> = Vec::new();
    let mut i: usize = 0;
    while i < v.len()
        invariant
            i <= v.len(),
            out@ == v@.take(i as int),
        decreases v.len() - i,
    {
        let x: T = v[i];
        out.push(x);
        assert(v@.take(i as int + 1) =~= v@.take(i as int).push(v@[i as int]));
        i = i + 1;
    }
    assert(v@.take(v.len() as int) =~= v@);
    out
}

/// A copy of a list of filters.
fn copy_filters<F: Copy>(v: &Vec<(F, String)>) -> (r: Vec<(F, String)>)
    ensures
        filter_views(r@) == filter_views(v@),
{
    let mut out: Vec<(F, String)> = Vec::new();
    let mut i: usize = 0;
    while i < v.len()
        invariant
            i <= v.len(),
            filter_views(out@) == filter_views(v@.take(i as int)),
        decreases v.len() - i,
    {
        let pair = (v[i].0, crate::text::copy_string(&v[i].1));
        let ghost before = out@;
        out.push(pair);
        assert(filter_views(out@) =~= filter_views(before).push((pair.0, pair.1@)));
        assert(filter_views(v@.take(i as int + 1)) =~= filter_views(v@.take(i as int)).push((v@[i as int].0, v@[i as int].1@)));
        i = i + 1;
    }
    assert(v@.take(v.len() as int) =~= v@);
    out
}

/// The links of a listing page: where it holds resources, the identifiers
/// of its first and last; where it is full (as many resources as the page
/// asks for), the options of the page that ends just before its first
/// resource and of the page that starts just after its last, alike in all
/// else.
pub fn links_from_resource<RT, T, R, M, F: Copy, C: Copy, I: Copy, Id: PageId>(
    data: &Vec<Resource<RT, Id, T, R, M>>,
    opts: QueryOptions<F, C, I, Id>,
) -> (r: Links<F, C, I, Id>)
    ensures
        data@.len() == 0 ==> r.first is None && r.last is None,
        data@.len() > 0 ==> opt_str(r.first) == Some(data@[0].id.id_text()) && opt_str(r.last) == Some(
            data@[data@.len() - 1].id.id_text(),
        ),
        r.prev is Some <==> (data@.len() > 0 && data@.len() == opts.page.size),
        r.next is Some <==> (data@.len() > 0 && data@.len() == opts.page.size),
        r.prev matches Some(p) ==> {
            &&& same_but_bounds(p, opts)
            &&& p.page.before matches Some(b) && b.id_text() == data@[0].id.id_text()
            &&& p.page.after is None
        },
        r.next matches Some(n) ==> {
            &&& same_but_bounds(n, opts)
            &&& n.page.before is None
            &&& n.page.after matches Some(a) && a.id_text() == data@[data@.len() - 1].id.id_text()
        },
{
    let count = data.len();
    if count == 0 {
        return Links { first: None, last: None, prev: None, next: None };
    }
    let first = data[0].id.to_text();
    let last = data[count - 1].id.to_text();
    if count as u64 != opts.page.size as u64 {
        return Links { first: Some(first), last: Some(last), prev: None, next: None };
    }
    let prev = QueryOptions {
        includes: copy_vec(&opts.includes),
        filter: copy_filters(&opts.filter),
        sort: copy_vec(&opts.sort),
        page: Page { size: opts.page.size, before: Some(data[0].id.copy_id()), after: None },
    };
    let QueryOptions { includes, filter, sort, page } = opts;
    let next = QueryOptions {
        includes,
        filter,
        sort,
        page: Page { size: page.size, before: None, after: Some(data[count - 1].id.copy_id()) },
    };
    Links { first: Some(first), last: Some(last), prev: Some(prev), next: Some(next) }
}

/// The link to a neighbouring page: the request's path, `?`, and the
/// page's options written as a query string.
pub fn link_text(path: &str, query: &str) -> (r: String)
    ensures
        r@ == path@ + "?"@ + query@,
{
    let mut text = crate::text::to_owned_string(path);
    text.append("?");
    text.append(query);
    text
}

/// How many rows a cursor takes, and from which end.
#[derive(PartialEq, Eq, Structural, Clone, Copy, Debug)]
pub enum Take {
    First(u32),
    Last(u32),
}

/// The bounds and the take of a cursor over a listing.
pub struct CursorPlan<Id> {
    pub before: Option<Id>,
    pub after: Option<Id>,
    pub take: Take,
}

/// The cursor for a page: bounded by the page's identifiers, taking the
/// last `size` rows when only `before` is given (the page that ends there)
/// and the first `size` rows otherwise.
pub fn make_cursor<Id>(page: Page<Id>) -> (r: CursorPlan<Id>)
    ensures
        r.before == page.before,
        r.after == page.after,
        r.take == if page.after is None && page.before is Some {
            Take::Last(page.size)
        } else {
            Take::First(page.size)
        },
{
    let take = if page.after.is_none() && page.before.is_some() {
        Take::Last(page.size)
    } else {
        Take::First(page.size)
    };
    CursorPlan { before: page.before, after: page.after, take }
}

} // verus!
