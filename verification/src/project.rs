//! Projects: the stored record, its URL slug, and the summaries and details
//! that the project service returns.
use vstd::prelude::*;

use crate::ids::{new_uuid, now_rfc3339, random_uuid_text, rfc3339_utc_text};
use crate::text::{
    ascii_alnum, ascii_lower_char, char_is_alphanumeric, clone_opt, from_chars, is_ascii_char,
    is_ascii_text, opt_view, str_to_lowercase, to_chars, unicode_alphanumeric, unicode_lower,
};

verus! {

broadcast use vstd::string::group_string_axioms;

/// Whether a character belongs to a slug run: alphanumeric, and not the
/// hyphen that joins runs.
pub open spec fn run_char(c: char) -> bool {
    c != '-' && unicode_alphanumeric(c)
}

/// The slug of an already lowercased text, with a flag telling whether a
/// separator is waiting: every maximal run of alphanumeric characters is
/// kept, and runs are joined by single hyphens.
pub open spec fn slug_state(s: Seq<char>) -> (Seq<char>, bool)
    decreases s.len(),
{
    if s.len() == 0 {
        (Seq::empty(), false)
    } else {
        let (out, pending) = slug_state(s.drop_last());
        let c = s.last();
        if run_char(c) {
            if pending {
                (out.push('-').push(c), false)
            } else {
                (out.push(c), false)
            }
        } else {
            (out, out.len() > 0)
        }
    }
}

/// The URL slug of a name: lowercase it, then keep the runs of alphanumeric
/// characters joined by single hyphens.
pub open spec fn slug_of(name: Seq<char>) -> Seq<char> {
    slug_state(unicode_lower(name)).0
}

/// Whether position `i` of a text holds a hyphen followed by another.
pub open spec fn double_hyphen_at(s: Seq<char>, i: int) -> bool {
    s[i] == '-' && s[i + 1] == '-'
}

/// Whether position `i` of a text holds a character allowed in a slug.
pub open spec fn slug_char_at(s: Seq<char>, i: int) -> bool {
    s[i] == '-' || run_char(s[i])
}

/// Whether a text is a well-formed slug: alphanumeric characters and
/// hyphens, no hyphen first or last, and never two hyphens in a row.
pub open spec fn well_formed_slug(s: Seq<char>) -> bool {
    &&& forall|i: int| 0 <= i < s.len() ==> #[trigger] slug_char_at(s, i)
    &&& s.len() > 0 ==> s[0] != '-' && s[s.len() - 1] != '-'
    &&& forall|i: int| 0 <= i < s.len() - 1 ==> !#[trigger] double_hyphen_at(s, i)
}

proof fn lemma_slug_state_well_formed(s: Seq<char>)
    ensures
        well_formed_slug(slug_state(s).0),
        slug_state(s).1 ==> slug_state(s).0.len() > 0,
    decreases s.len(),
{
    if s.len() > 0 {
        lemma_slug_state_well_formed(s.drop_last());
        let (out, pending) = slug_state(s.drop_last());
        let c = s.last();
        if run_char(c) {
            let r = if pending {
                out.push('-').push(c)
            } else {
                out.push(c)
            };
            assert forall|i: int| 0 <= i < r.len() - 1 implies !#[trigger] double_hyphen_at(r, i) by {
                if i < out.len() - 1 {
                    assert(r[i] == out[i] && r[i + 1] == out[i + 1]);
                    assert(!double_hyphen_at(out, i));
                } else if i == out.len() - 1 {
                    assert(r[i] == out[i]);
                }
            }
            assert forall|i: int| 0 <= i < r.len() implies #[trigger] slug_char_at(r, i) by {
                if i < out.len() {
                    assert(r[i] == out[i]);
                    assert(slug_char_at(out, i));
                }
            }
            if out.len() > 0 {
                assert(r[0] == out[0]);
            }
        }
    }
}

/// A slug is always well formed: it holds only alphanumeric characters and
/// single hyphens between them.
pub proof fn law_slug_well_formed(name: Seq<char>)
    ensures
        well_formed_slug(slug_of(name)),
{
    lemma_slug_state_well_formed(unicode_lower(name));
}

/// The slug of an already lowercased ASCII text, with the waiting-separator
/// flag: runs of ASCII letters and digits joined by single hyphens.
pub open spec fn ascii_slug_state(s: Seq<char>) -> (Seq<char>, bool)
    decreases s.len(),
{
    if s.len() == 0 {
        (Seq::empty(), false)
    } else {
        let (out, pending) = ascii_slug_state(s.drop_last());
        let c = s.last();
        if ascii_alnum(c) {
            if pending {
                (out.push('-').push(c), false)
            } else {
                (out.push(c), false)
            }
        } else {
            (out, out.len() > 0)
        }
    }
}

/// The slug of an ASCII name: lowercase its letters, then keep the runs of
/// letters and digits joined by single hyphens.
pub open spec fn ascii_slug(name: Seq<char>) -> Seq<char> {
    ascii_slug_state(name.map_values(|c: char| ascii_lower_char(c))).0
}

/// A character of an ASCII slug: a lowercase letter, a digit or a hyphen.
pub open spec fn ascii_slug_char(c: char) -> bool {
    ('a' <= c && c <= 'z') || ('0' <= c && c <= '9') || c == '-'
}

/// Whether a text is a well-formed ASCII slug: lowercase letters, digits
/// and hyphens, no hyphen first or last, never two hyphens in a row.
pub open spec fn ascii_slug_form(s: Seq<char>) -> bool {
    &&& forall|i: int| 0 <= i < s.len() ==> ascii_slug_char(#[trigger] s[i])
    &&& s.len() > 0 ==> s[0] != '-' && s[s.len() - 1] != '-'
    &&& forall|i: int| 0 <= i < s.len() - 1 ==> !#[trigger] double_hyphen_at(s, i)
}

proof fn lemma_ascii_slug_state_form(s: Seq<char>)
    requires
        forall|i: int| 0 <= i < s.len() ==> !('A' <= #[trigger] s[i] && s[i] <= 'Z'),
    ensures
        ascii_slug_form(ascii_slug_state(s).0),
        ascii_slug_state(s).1 ==> ascii_slug_state(s).0.len() > 0,
    decreases s.len(),
{
    if s.len() > 0 {
        assert forall|i: int| 0 <= i < s.drop_last().len() implies !('A' <= #[trigger] s.drop_last()[i]
            && s.drop_last()[i] <= 'Z') by {
            assert(s.drop_last()[i] == s[i]);
        }
        lemma_ascii_slug_state_form(s.drop_last());
        let (out, pending) = ascii_slug_state(s.drop_last());
        let c = s.last();
        if ascii_alnum(c) {
            let r = if pending {
                out.push('-').push(c)
            } else {
                out.push(c)
            };
            assert forall|i: int| 0 <= i < r.len() - 1 implies !#[trigger] double_hyphen_at(r, i) by {
                if i < out.len() - 1 {
                    assert(r[i] == out[i] && r[i + 1] == out[i + 1]);
                    assert(!double_hyphen_at(out, i));
                } else if i == out.len() - 1 {
                    assert(r[i] == out[i]);
                }
            }
            assert forall|i: int| 0 <= i < r.len() implies ascii_slug_char(#[trigger] r[i]) by {
                if i < out.len() {
                    assert(r[i] == out[i]);
                }
            }
            if out.len() > 0 {
                assert(r[0] == out[0]);
            }
        }
    }
}

proof fn lemma_ascii_slug_fixpoint(t: Seq<char>, i: int)
    requires
        ascii_slug_form(t),
        0 <= i <= t.len(),
    ensures
        ascii_slug_state(t.take(i)) == if i > 0 && t[i - 1] == '-' {
            (t.take(i - 1), true)
        } else {
            (t.take(i), false)
        },
    decreases i,
{
    if i > 0 {
        lemma_ascii_slug_fixpoint(t, i - 1);
        assert(t.take(i).drop_last() =~= t.take(i - 1));
        assert(t.take(i).last() == t[i - 1]);
        assert(ascii_slug_char(t[i - 1]));
        if t[i - 1] != '-' {
            if i >= 2 && t[i - 2] == '-' {
                assert(t.take(i - 2).push('-').push(t[i - 1]) =~= t.take(i));
            } else {
                assert(t.take(i - 1).push(t[i - 1]) =~= t.take(i));
            }
        } else {
            if i >= 2 {
                assert(!double_hyphen_at(t, i - 2));
            }
        }
    } else {
        assert(t.take(0) =~= Seq::<char>::empty());
    }
}

/// On ASCII names a slug is made of lowercase letters, digits and single
/// hyphens inside, and making a slug of a slug gives it back unchanged.
pub proof fn law_ascii_slug(name: Seq<char>)
    ensures
        ascii_slug_form(ascii_slug(name)),
        ascii_slug(ascii_slug(name)) == ascii_slug(name),
{
    let lowered = name.map_values(|c: char| ascii_lower_char(c));
    lemma_ascii_slug_state_form(lowered);
    let t = ascii_slug(name);
    assert(t.map_values(|c: char| ascii_lower_char(c)) =~= t) by {
        assert forall|i: int| 0 <= i < t.len() implies ascii_lower_char(#[trigger] t[i]) == t[i] by {
            assert(ascii_slug_char(t[i]));
        }
    }
    lemma_ascii_slug_fixpoint(t, t.len() as int);
    assert(t.take(t.len() as int) =~= t);
}

/// A slug is its own slug: a text of lowercase ASCII letters, digits and
/// single inner hyphens comes back unchanged.
pub proof fn law_slug_fixed_point(t: Seq<char>)
    requires
        ascii_slug_form(t),
    ensures
        is_ascii_text(t),
        ascii_slug(t) == t,
{
    assert forall|i: int| 0 <= i < t.len() implies is_ascii_char(#[trigger] t[i]) by {
        assert(ascii_slug_char(t[i]));
    }
    assert(t.map_values(|c: char| ascii_lower_char(c)) =~= t) by {
        assert forall|i: int| 0 <= i < t.len() implies ascii_lower_char(#[trigger] t[i]) == t[i] by {
            assert(ascii_slug_char(t[i]));
        }
    }
    lemma_ascii_slug_fixpoint(t, t.len() as int);
    assert(t.take(t.len() as int) =~= t);
}

proof fn lemma_slug_states_agree(s: Seq<char>)
    requires
        forall|i: int| 0 <= i < s.len() ==> run_char(#[trigger] s[i]) == ascii_alnum(s[i]),
    ensures
        slug_state(s) == ascii_slug_state(s),
    decreases s.len(),
{
    if s.len() > 0 {
        assert forall|i: int| 0 <= i < s.drop_last().len() implies run_char(#[trigger] s.drop_last()[i])
            == ascii_alnum(s.drop_last()[i]) by {
            assert(s.drop_last()[i] == s[i]);
        }
        lemma_slug_states_agree(s.drop_last());
    }
}

/// Make a URL-friendly slug from a name: lowercase it, turn every
/// non-alphanumeric character into a separator, drop empty parts and join
/// the rest with hyphens.
pub fn slugify(s: &str) -> (r: String)
    ensures
        r@ == slug_of(s@),
        well_formed_slug(r@),
        is_ascii_text(s@) ==> r@ == ascii_slug(s@),
        ascii_slug_form(s@) ==> r@ == s@,
{
    let lower = str_to_lowercase(s);
    let cs = to_chars(lower.as_str());
    let mut out: Vec<char> = Vec::new();
    let mut pending = false;
    let mut i: usize = 0;
    while i < cs.len()
        invariant
            i <= cs@.len(),
            cs@ == unicode_lower(s@),
            is_ascii_text(s@) ==> cs@ == s@.map_values(|c: char| ascii_lower_char(c)),
            (out@, pending) == slug_state(cs@.take(i as int)),
            is_ascii_text(s@) ==> forall|j: int|
                0 <= j < i ==> run_char(#[trigger] cs@[j]) == ascii_alnum(cs@[j]),
        decreases cs.len() - i,
    {
        let c = cs[i];
        proof {
            assert(cs@.take(i + 1).drop_last() =~= cs@.take(i as int));
            assert(cs@.take(i + 1).last() == c);
            if is_ascii_text(s@) {
                assert(c == ascii_lower_char(s@[i as int]));
                assert(is_ascii_char(s@[i as int]));
            }
        }
        if c != '-' && char_is_alphanumeric(c) {
            if pending {
                out.push('-');
            }
            out.push(c);
            pending = false;
        } else {
            pending = out.len() > 0;
        }
        i = i + 1;
    }
    assert(cs@.take(cs@.len() as int) =~= cs@);
    proof {
        law_slug_well_formed(s@);
        if ascii_slug_form(s@) {
            law_slug_fixed_point(s@);
        }
        if is_ascii_text(s@) {
            lemma_slug_states_agree(cs@);
        }
    }
    from_chars(&out)
}

/// A stored project.
#[derive(Clone, Debug)]
pub struct ProjectRecord {
    /// Unique identifier (UUID).
    pub id: String,
    /// Display name.
    pub name: String,
    /// URL-friendly identifier.
    pub slug: String,
    pub description: Option<String>,
    /// Colour for the interface (e.g. `"#3b82f6"`).
    pub color: Option<String>,
    /// Whether the project is archived (0 or 1).
    pub archived: i64,
    pub created_at: String,
    pub updated_at: String,
}

/// Mathematical view of a project.
pub struct ProjectView {
    pub id: Seq<char>,
    pub name: Seq<char>,
    pub slug: Seq<char>,
    pub description: Option<Seq<char>>,
    pub color: Option<Seq<char>>,
    pub archived: i64,
    pub created_at: Seq<char>,
    pub updated_at: Seq<char>,
}

impl View for ProjectRecord {
    type V = ProjectView;

    open spec fn view(&self) -> ProjectView {
        ProjectView {
            id: self.id@,
            name: self.name@,
            slug: self.slug@,
            description: opt_view(self.description),
            color: opt_view(self.color),
            archived: self.archived,
            created_at: self.created_at@,
            updated_at: self.updated_at@,
        }
    }
}

/// A fresh project with the given identifier and creation time.
pub open spec fn fresh_project(id: Seq<char>, now: Seq<char>, name: Seq<char>) -> ProjectView {
    ProjectView {
        id,
        name,
        slug: slug_of(name),
        description: None,
        color: None,
        archived: 0,
        created_at: now,
        updated_at: now,
    }
}

impl ProjectRecord {
    /// A new project named `name`, with its slug, a fresh identifier and the
    /// current time.
    pub fn new(name: &str) -> (r: ProjectRecord)
        ensures
            random_uuid_text(r@.id),
            r@ == fresh_project(r@.id, r@.created_at, name@),
            rfc3339_utc_text(r@.created_at),
    {
        let slug = slugify(name);
        let now = now_rfc3339();
        ProjectRecord {
            id: new_uuid(),
            name: name.to_string(),
            slug,
            description: None,
            color: None,
            archived: 0,
            created_at: now.clone(),
            updated_at: now,
        }
    }

    /// Whether the project is archived.
    pub fn is_archived(&self) -> (r: bool)
        ensures
            r == (self@.archived != 0),
    {
        self.archived != 0
    }

    /// The project with the given description.
    pub fn with_description(self, description: &str) -> (r: ProjectRecord)
        ensures
            r@ == (ProjectView { description: Some(description@), ..self@ }),
    {
        ProjectRecord { description: Some(description.to_string()), ..self }
    }

    /// The project with the given colour.
    pub fn with_color(self, color: &str) -> (r: ProjectRecord)
        ensures
            r@ == (ProjectView { color: Some(color@), ..self@ }),
    {
        ProjectRecord { color: Some(color.to_string()), ..self }
    }

    /// A copy of the record.
    pub fn duplicate(&self) -> (r: ProjectRecord)
        ensures
            r@ == self@,
    {
        ProjectRecord {
            id: self.id.clone(),
            name: self.name.clone(),
            slug: self.slug.clone(),
            description: clone_opt(&self.description),
            color: clone_opt(&self.color),
            archived: self.archived,
            created_at: self.created_at.clone(),
            updated_at: self.updated_at.clone(),
        }
    }
}

} // verus!
