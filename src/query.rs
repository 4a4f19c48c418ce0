use vstd::prelude::*;

verus! {

/// Filters of a package listing. Each field that is set adds one `key=value`
/// segment to the query; a field left `None` adds nothing.
#[derive(Debug, Clone)]
pub struct PackageQueryOptions {
    pub version: Option<String>,
    pub distribution: Option<String>,
    pub architecture: Option<String>,
    pub archive_type: Option<String>,
    pub package_type: Option<String>,
    pub operating_system: Option<String>,
    pub libc_type: Option<String>,
    pub release_status: Option<String>,
    pub term_of_support: Option<String>,
    pub bitness: Option<String>,
    pub javafx_bundled: Option<bool>,
    pub directly_downloadable: Option<bool>,
    pub latest: Option<String>,
}

/// Filters of a major version listing.
#[derive(Debug, Clone)]
pub struct MajorVersionsQueryOptions {
    pub early_access: Option<bool>,
    pub general_availability: Option<bool>,
    pub maintained: Option<bool>,
}

/// A filter field as the query sees it: its key, and its value as text when set.
pub type QueryField = (Seq<char>, Option<Seq<char>>);

pub open spec fn bool_text(b: bool) -> Seq<char> {
    if b {
        "true"@
    } else {
        "false"@
    }
}

pub open spec fn str_field(key: Seq<char>, v: Option<String>) -> QueryField {
    match v {
        Some(s) => (key, Some(s@)),
        None => (key, None),
    }
}

pub open spec fn bool_field(key: Seq<char>, v: Option<bool>) -> QueryField {
    match v {
        Some(b) => (key, Some(bool_text(b))),
        None => (key, None),
    }
}

/// One segment of a query: `key=value`, with the value taken verbatim.
pub open spec fn segment(key: Seq<char>, value: Seq<char>) -> Seq<char> {
    key + "="@ + value
}

/// Adds a segment to a query built so far, with `&` between segments.
pub open spec fn append_segment(acc: Seq<char>, seg: Seq<char>) -> Seq<char> {
    if acc.len() == 0 {
        seg
    } else {
        acc + "&"@ + seg
    }
}

pub open spec fn append_field(acc: Seq<char>, f: QueryField) -> Seq<char> {
    match f.1 {
        Some(v) => append_segment(acc, segment(f.0, v)),
        None => acc,
    }
}

/// The query string of a sequence of fields, read in order.
pub open spec fn query_of(fields: Seq<QueryField>) -> Seq<char>
    decreases fields.len(),
{
    if fields.len() == 0 {
        Seq::empty()
    } else {
        append_field(query_of(fields.drop_last()), fields.last())
    }
}

/// The segments of the fields that are set, in the order of the fields.
pub open spec fn present_segments(fields: Seq<QueryField>) -> Seq<Seq<char>>
    decreases fields.len(),
{
    if fields.len() == 0 {
        Seq::empty()
    } else {
        let rest = present_segments(fields.drop_last());
        match fields.last().1 {
            Some(v) => rest.push(segment(fields.last().0, v)),
            None => rest,
        }
    }
}

/// How many of the fields are set.
pub open spec fn count_present(fields: Seq<QueryField>) -> nat
    decreases fields.len(),
{
    if fields.len() == 0 {
        0
    } else {
        count_present(fields.drop_last()) + if fields.last().1 is Some {
            1nat
        } else {
            0nat
        }
    }
}

/// Segments joined by `&`, with no separator before the first or after the last.
pub open spec fn join_segments(segs: Seq<Seq<char>>) -> Seq<char>
    decreases segs.len(),
{
    if segs.len() == 0 {
        Seq::empty()
    } else if segs.len() == 1 {
        segs[0]
    } else {
        join_segments(segs.drop_last()) + "&"@ + segs.last()
    }
}

impl PackageQueryOptions {
    /// The fields in the order in which the query lists them.
    pub open spec fn fields(&self) -> Seq<QueryField> {
        seq![
            str_field("version"@, self.version),
            str_field("distribution"@, self.distribution),
            str_field("architecture"@, self.architecture),
            str_field("archive_type"@, self.archive_type),
            str_field("package_type"@, self.package_type),
            str_field("operating_system"@, self.operating_system),
            str_field("libc_type"@, self.libc_type),
            str_field("release_status"@, self.release_status),
            str_field("term_of_support"@, self.term_of_support),
            str_field("bitness"@, self.bitness),
            bool_field("javafx_bundled"@, self.javafx_bundled),
            bool_field("directly_downloadable"@, self.directly_downloadable),
            str_field("latest"@, self.latest),
        ]
    }

    pub open spec fn query_spec(&self) -> Seq<char> {
        query_of(self.fields())
    }
}

impl PackageQueryOptions {
    /// The query string of these filters, without a leading `?`: one
    /// `key=value` segment for each field that is set, in declaration order,
    /// joined by `&`. Values are inserted verbatim, not percent-encoded.
    pub fn to_query_string(&self) -> (r: String)
        ensures
            r@ == self.query_spec(),
    {
        let mut q = String::new();
        let ghost mut seen: Seq<QueryField> = Seq::empty();
        push_str_field(&mut q, "version", &self.version, Ghost(seen));
        proof { seen = seen.push(str_field("version"@, self.version)); }
        push_str_field(&mut q, "distribution", &self.distribution, Ghost(seen));
        proof { seen = seen.push(str_field("distribution"@, self.distribution)); }
        push_str_field(&mut q, "architecture", &self.architecture, Ghost(seen));
        proof { seen = seen.push(str_field("architecture"@, self.architecture)); }
        push_str_field(&mut q, "archive_type", &self.archive_type, Ghost(seen));
        proof { seen = seen.push(str_field("archive_type"@, self.archive_type)); }
        push_str_field(&mut q, "package_type", &self.package_type, Ghost(seen));
        proof { seen = seen.push(str_field("package_type"@, self.package_type)); }
        push_str_field(&mut q, "operating_system", &self.operating_system, Ghost(seen));
        proof { seen = seen.push(str_field("operating_system"@, self.operating_system)); }
        push_str_field(&mut q, "libc_type", &self.libc_type, Ghost(seen));
        proof { seen = seen.push(str_field("libc_type"@, self.libc_type)); }
        push_str_field(&mut q, "release_status", &self.release_status, Ghost(seen));
        proof { seen = seen.push(str_field("release_status"@, self.release_status)); }
        push_str_field(&mut q, "term_of_support", &self.term_of_support, Ghost(seen));
        proof { seen = seen.push(str_field("term_of_support"@, self.term_of_support)); }
        push_str_field(&mut q, "bitness", &self.bitness, Ghost(seen));
        proof { seen = seen.push(str_field("bitness"@, self.bitness)); }
        push_bool_field(&mut q, "javafx_bundled", self.javafx_bundled, Ghost(seen));
        proof { seen = seen.push(bool_field("javafx_bundled"@, self.javafx_bundled)); }
        push_bool_field(&mut q, "directly_downloadable", self.directly_downloadable, Ghost(seen));
        proof { seen = seen.push(bool_field("directly_downloadable"@, self.directly_downloadable)); }
        push_str_field(&mut q, "latest", &self.latest, Ghost(seen));
        proof {
            seen = seen.push(str_field("latest"@, self.latest));
            assert(seen =~= self.fields());
        }
        q
    }
}

impl MajorVersionsQueryOptions {
    /// The query string of these filters, without a leading `?`: `ea`, `ga`
    /// and `maintained`, in that order, for the fields that are set.
    pub fn to_query_string(&self) -> (r: String)
        ensures
            r@ == self.query_spec(),
    {
        let mut q = String::new();
        let ghost mut seen: Seq<QueryField> = Seq::empty();
        push_bool_field(&mut q, "ea", self.early_access, Ghost(seen));
        proof { seen = seen.push(bool_field("ea"@, self.early_access)); }
        push_bool_field(&mut q, "ga", self.general_availability, Ghost(seen));
        proof { seen = seen.push(bool_field("ga"@, self.general_availability)); }
        push_bool_field(&mut q, "maintained", self.maintained, Ghost(seen));
        proof {
            seen = seen.push(bool_field("maintained"@, self.maintained));
            assert(seen =~= self.fields());
        }
        q
    }
}

impl MajorVersionsQueryOptions {
    /// The fields in the order in which the query lists them.
    pub open spec fn fields(&self) -> Seq<QueryField> {
        seq![
            bool_field("ea"@, self.early_access),
            bool_field("ga"@, self.general_availability),
            bool_field("maintained"@, self.maintained),
        ]
    }

    pub open spec fn query_spec(&self) -> Seq<char> {
        query_of(self.fields())
    }
}

proof fn lemma_query_of_push(fields: Seq<QueryField>, f: QueryField)
    ensures
        query_of(fields.push(f)) == append_field(query_of(fields), f),
{
    assert(fields.push(f).drop_last() =~= fields);
}

proof fn lemma_present_count(fields: Seq<QueryField>)
    ensures
        present_segments(fields).len() == count_present(fields),
        query_of(fields).len() == 0 <==> count_present(fields) == 0,
    decreases fields.len(),
{
    if fields.len() > 0 {
        lemma_present_count(fields.drop_last());
        if let Some(v) = fields.last().1 {
            let seg = segment(fields.last().0, v);
            assert(seg.len() > 0) by {
                assert(seg.len() == fields.last().0.len() + "="@.len() + v.len());
                reveal_strlit("=");
            }
        }
    }
}

proof fn lemma_query_is_joined_segments(fields: Seq<QueryField>)
    ensures
        query_of(fields) == join_segments(present_segments(fields)),
    decreases fields.len(),
{
    if fields.len() > 0 {
        let rest = fields.drop_last();
        lemma_query_is_joined_segments(rest);
        lemma_present_count(rest);
        if let Some(v) = fields.last().1 {
            let segs = present_segments(fields);
            assert(segs.drop_last() =~= present_segments(rest));
            if present_segments(rest).len() == 0 {
                assert(query_of(rest) =~= Seq::<char>::empty());
            }
        }
    }
}

/// The package query holds exactly one `key=value` segment for each filter
/// that is set, in the declared field order, joined by `&` with no separator
/// before the first segment or after the last.
pub proof fn lemma_package_query_segments(o: PackageQueryOptions)
    ensures
        o.query_spec() == join_segments(present_segments(o.fields())),
        present_segments(o.fields()).len() == count_present(o.fields()),
{
    lemma_query_is_joined_segments(o.fields());
    lemma_present_count(o.fields());
}

/// The same holds of the major version query.
pub proof fn lemma_major_versions_query_segments(o: MajorVersionsQueryOptions)
    ensures
        o.query_spec() == join_segments(present_segments(o.fields())),
        present_segments(o.fields()).len() == count_present(o.fields()),
{
    lemma_query_is_joined_segments(o.fields());
    lemma_present_count(o.fields());
}

/// With no filter set, the query string is empty.
pub proof fn lemma_empty_package_query(o: PackageQueryOptions)
    requires
        o.version is None,
        o.distribution is None,
        o.architecture is None,
        o.archive_type is None,
        o.package_type is None,
        o.operating_system is None,
        o.libc_type is None,
        o.release_status is None,
        o.term_of_support is None,
        o.bitness is None,
        o.javafx_bundled is None,
        o.directly_downloadable is None,
        o.latest is None,
    ensures
        o.query_spec().len() == 0,
{
    reveal_with_fuel(count_present, 14);
    lemma_present_count(o.fields());
}

fn push_str_field(
    q: &mut String,
    key: &str,
    v: &Option<String>,
    Ghost(seen): Ghost<Seq<QueryField>>,
)
    requires
        old(q)@ == query_of(seen),
    ensures
        final(q)@ == query_of(seen.push(str_field(key@, *v))),
{
    proof {
        lemma_query_of_push(seen, str_field(key@, *v));
    }
    if let Some(s) = v {
        push_segment(q, key, s.as_str());
    }
}

fn push_bool_field(
    q: &mut String,
    key: &str,
    v: Option<bool>,
    Ghost(seen): Ghost<Seq<QueryField>>,
)
    requires
        old(q)@ == query_of(seen),
    ensures
        final(q)@ == query_of(seen.push(bool_field(key@, v))),
{
    proof {
        lemma_query_of_push(seen, bool_field(key@, v));
    }
    if let Some(b) = v {
        push_segment(q, key, if b { "true" } else { "false" });
    }
}

fn push_segment(q: &mut String, key: &str, value: &str)
    ensures
        final(q)@ == append_segment(old(q)@, segment(key@, value@)),
{
    if q.as_str().unicode_len() > 0 {
        q.append("&");
    }
    q.append(key);
    q.append("=");
    q.append(value);
    assert(q@ =~= append_segment(old(q)@, segment(key@, value@)));
}

} // verus!
