//! Knowledge base entries: the stored record, its tags and collections, and
//! the listing query with its filters.
use vstd::prelude::*;

use crate::ids::{now_rfc3339, rfc3339_utc_text};
use crate::json::{json_encode_strings, json_string_array, read_strings, strings_in};
use crate::project::{slug_of, slugify};
use crate::text::{concat, opt_view, own};

verus! {

broadcast use vstd::string::group_string_axioms;

/// A stored entry (its vectors live in the vector store).
#[derive(Clone, Debug)]
pub struct EntryRecord {
    /// Unique identifier.
    pub id: String,
    pub title: String,
    /// Short description.
    pub description: Option<String>,
    /// Full content text.
    pub content: Option<String>,
    /// Tags as a JSON array of strings.
    pub tags: Option<String>,
    /// Collection identifiers as a JSON array of strings.
    pub collection_ids: Option<String>,
    /// `"document"`, `"article"`, `"pdf"`, `"code"`, ...
    pub entry_type: String,
    /// `"url"`, `"file_upload"`, `"direct_input"`.
    pub source_type: String,
    /// Original file path or address.
    pub source_path: String,
    /// Domain for filtering (e.g. `"docs.example.com"`).
    pub source_domain: Option<String>,
    /// URL-friendly identifier.
    pub slug: String,
    /// Content hash for deduplication.
    pub source_hash: String,
    pub created_at: String,
    pub updated_at: String,
}

/// Mathematical view of an entry.
pub struct EntryView {
    pub id: Seq<char>,
    pub title: Seq<char>,
    pub description: Option<Seq<char>>,
    pub content: Option<Seq<char>>,
    pub tags: Option<Seq<char>>,
    pub collection_ids: Option<Seq<char>>,
    pub entry_type: Seq<char>,
    pub source_type: Seq<char>,
    pub source_path: Seq<char>,
    pub source_domain: Option<Seq<char>>,
    pub slug: Seq<char>,
    pub source_hash: Seq<char>,
    pub created_at: Seq<char>,
    pub updated_at: Seq<char>,
}

impl View for EntryRecord {
    type V = EntryView;

    open spec fn view(&self) -> EntryView {
        EntryView {
            id: self.id@,
            title: self.title@,
            description: opt_view(self.description),
            content: opt_view(self.content),
            tags: opt_view(self.tags),
            collection_ids: opt_view(self.collection_ids),
            entry_type: self.entry_type@,
            source_type: self.source_type@,
            source_path: self.source_path@,
            source_domain: opt_view(self.source_domain),
            slug: self.slug@,
            source_hash: self.source_hash@,
            created_at: self.created_at@,
            updated_at: self.updated_at@,
        }
    }
}

/// A fresh entry created at time `now`, with the slug of its title.
pub open spec fn fresh_entry(
    id: Seq<char>,
    title: Seq<char>,
    entry_type: Seq<char>,
    source_type: Seq<char>,
    source_path: Seq<char>,
    source_hash: Seq<char>,
    now: Seq<char>,
) -> EntryView {
    EntryView {
        id,
        title,
        description: None,
        content: None,
        tags: None,
        collection_ids: None,
        entry_type,
        source_type,
        source_path,
        source_domain: None,
        slug: slug_of(title),
        source_hash,
        created_at: now,
        updated_at: now,
    }
}

impl EntryRecord {
    /// A new entry, created now, with the slug of its title.
    pub fn new(
        id: &str,
        title: &str,
        entry_type: &str,
        source_type: &str,
        source_path: &str,
        source_hash: &str,
    ) -> (r: EntryRecord)
        ensures
            r@ == fresh_entry(id@, title@, entry_type@, source_type@, source_path@, source_hash@, r@.created_at),
            rfc3339_utc_text(r@.created_at),
    {
        let now = now_rfc3339();
        EntryRecord {
            id: own(id),
            title: own(title),
            description: None,
            content: None,
            tags: None,
            collection_ids: None,
            entry_type: own(entry_type),
            source_type: own(source_type),
            source_path: own(source_path),
            source_domain: None,
            slug: slugify(title),
            source_hash: own(source_hash),
            created_at: now.clone(),
            updated_at: now,
        }
    }

    /// The tags: the JSON array in the tags column, or none.
    pub fn tags_vec(&self) -> (r: Vec<String>)
        ensures
            r.deep_view() == strings_in(self@.tags),
    {
        read_strings(&self.tags)
    }

    /// Store the tags as a JSON array; reading them back gives them again.
    pub fn set_tags(&mut self, tags: Vec<String>)
        ensures
            final(self)@ == (EntryView { tags: Some(json_string_array(tags.deep_view())), ..old(self)@ }),
            strings_in(final(self)@.tags) == tags.deep_view(),
    {
        self.tags = Some(json_encode_strings(&tags));
    }

    /// The collection identifiers: the JSON array in their column, or none.
    pub fn collection_ids_vec(&self) -> (r: Vec<String>)
        ensures
            r.deep_view() == strings_in(self@.collection_ids),
    {
        read_strings(&self.collection_ids)
    }
}

/// The query that lists entries, newest first, with its filters: an entry
/// type matches exactly, a source domain matches itself or any subdomain.
/// The limit and offset are bound after the filter values.
pub open spec fn entry_list_sql(entry_type: Option<Seq<char>>, source_domain: Option<Seq<char>>) -> Seq<char> {
    "SELECT * FROM entries WHERE 1=1"@ + (if entry_type is Some {
        " AND entry_type = ?"@
    } else {
        Seq::empty()
    }) + (if source_domain is Some {
        " AND (source_domain = ? OR source_domain LIKE ?)"@
    } else {
        Seq::empty()
    }) + " ORDER BY created_at DESC LIMIT ? OFFSET ?"@
}

/// The values bound to the filter placeholders of the entry listing.
pub open spec fn entry_list_binds(entry_type: Option<Seq<char>>, source_domain: Option<Seq<char>>) -> Seq<Seq<char>> {
    (match entry_type {
        Some(t) => seq![t],
        None => Seq::empty(),
    }) + (match source_domain {
        Some(d) => seq![d, "%."@ + d],
        None => Seq::empty(),
    })
}

/// The entry listing binds exactly the filter's own values, in the order
/// of its placeholders: the entry type itself, then the domain itself and
/// `%.` before it (any subdomain).
pub proof fn law_entry_list_binds(entry_type: Option<Seq<char>>, source_domain: Option<Seq<char>>)
    ensures
        ({
            let b = entry_list_binds(entry_type, source_domain);
            let e: int = if entry_type is Some { 1 } else { 0 };
            &&& b.len() == e + if source_domain is Some { 2int } else { 0int }
            &&& (entry_type matches Some(t) ==> b[0] == t)
            &&& (source_domain matches Some(d) ==> b[e] == d && b[e + 1] == "%."@ + d)
        }),
{
}

/// The query text that lists entries and the filter values to bind, in
/// order.
pub fn entry_list_query(entry_type: Option<&str>, source_domain: Option<&str>) -> (r: (String, Vec<String>))
    ensures
        r.0@ == entry_list_sql(opt_str(entry_type), opt_str(source_domain)),
        r.1.deep_view() == entry_list_binds(opt_str(entry_type), opt_str(source_domain)),
{
    let mut query = own("SELECT * FROM entries WHERE 1=1");
    let mut binds: Vec<String> = Vec::new();
    let ghost q0 = query@;
    if let Some(et) = entry_type {
        query = concat(query.as_str(), " AND entry_type = ?");
        binds.push(own(et));
    }
    let ghost q1 = query@;
    if let Some(sd) = source_domain {
        query = concat(query.as_str(), " AND (source_domain = ? OR source_domain LIKE ?)");
        binds.push(own(sd));
        binds.push(concat("%.", sd));
    }
    let ghost q2 = query@;
    query = concat(query.as_str(), " ORDER BY created_at DESC LIMIT ? OFFSET ?");
    proof {
        let et = opt_str(entry_type);
        let sd = opt_str(source_domain);
        let a: Seq<char> = if et is Some {
            " AND entry_type = ?"@
        } else {
            Seq::empty()
        };
        let b: Seq<char> = if sd is Some {
            " AND (source_domain = ? OR source_domain LIKE ?)"@
        } else {
            Seq::empty()
        };
        assert(q1 =~= q0 + a);
        assert(q2 =~= q0 + a + b);
        assert(binds.deep_view() =~= entry_list_binds(et, sd));
    }
    (query, binds)
}

/// View of an optional string slice.
pub open spec fn opt_str(o: Option<&str>) -> Option<Seq<char>> {
    match o {
        Some(s) => Some(s@),
        None => None,
    }
}

} // verus!
