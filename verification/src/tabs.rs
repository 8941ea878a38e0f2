//! Editor tabs: their identifiers, state record, and default shapes.
//!
//! A tab's identifier is the hex digest of a string derived from the
//! workspace and the title; the digest itself is computed by an outside
//! crate, named here and relied on through one wrapper. File reading and
//! writing stay in the surrounding application.

use vstd::prelude::*;

use sha2::Digest;
use vstd::string::StringExecFns;

use crate::text::{
    bytes_to_hex, char_is_alphanumeric, char_is_whitespace, ends_with_str, is_unicode_alphanumeric,
    is_unicode_whitespace, lower_of, lowercase, spec_ends_with, spec_hex,
};

verus! {

/// One editor tab.
#[derive(Debug, Clone, PartialEq, Eq)]
pub struct Tab {
    /// Identifier, derived from workspace and title.
    pub id: String,
    /// The tab's title: its file name.
    pub title: String,
    /// The tab's text.
    pub content: String,
    /// The language the editor highlights.
    pub language: String,
}

/// The identifier and title of a tab, as the state file stores them.
#[derive(Debug, Clone, PartialEq, Eq)]
pub struct TabMetadata {
    /// The tab's identifier.
    pub id: String,
    /// The tab's title.
    pub title: String,
}

/// The persisted ordering state of a workspace's tabs.
#[derive(Debug, Clone, PartialEq, Eq)]
pub struct TabState {
    /// The identifier of the focused tab, if any.
    pub active_tab: Option<String>,
    /// Tab identifiers in display order.
    pub tab_order: Vec<String>,
    /// The known tabs' identifiers and titles.
    pub tab_metadata: Vec<TabMetadata>,
}

/// One match of a text search over the tabs.
#[derive(Debug, Clone, PartialEq, Eq)]
pub struct SearchResult {
    /// The identifier of the tab the match is in.
    pub tab_id: String,
    /// That tab's title.
    pub title: String,
    /// The matching line's number, counted from one.
    pub line_number: usize,
    /// The matching line, as written.
    pub line_content: String,
    /// Where in the line the match starts, in characters.
    pub column_start: usize,
    /// Where it ends.
    pub column_end: usize,
}

/// The digest the identifier scheme assigns to `s`; a function of the
/// characters alone, the same on every machine.
pub uninterp spec fn sha256_of(s: Seq<char>) -> Seq<u8>;

/// Relies on `sha2::Sha256`: the 32-byte digest of the bytes of `s`,
/// depending on the characters alone.
#[verifier::external_body]
pub(crate) fn sha256_bytes(s: &str) -> (r: Vec<u8>)
    ensures
        r@ == sha256_of(s@),
        r@.len() == 32,
{
    let mut hasher = sha2::Sha256::new();
    hasher.update(s.as_bytes());
    hasher.finalize().to_vec()
}

/// A tab identifier: the digest of the source string, in lowercase hex.
pub open spec fn sha256_hex_of(s: Seq<char>) -> Seq<char> {
    spec_hex(sha256_of(s))
}

/// Compute the identifier assigned to the source string `title`.
pub fn get_tab_id_from_title(title: &str) -> (r: String)
    ensures
        r@ == sha256_hex_of(title@),
{
    let digest = sha256_bytes(title);
    bytes_to_hex(&digest)
}

/// The string a tab's identifier is derived from: the workspace identifier
/// and the title, joined by an underscore.
pub fn tab_id_source(workspace_id: &str, title: &str) -> (r: String)
    ensures
        r@ == workspace_id@ + "_"@ + title@,
{
    let mut s = workspace_id.to_owned();
    s.append("_");
    s.append(title);
    s
}

/// The identifier of the tab titled `title` in workspace `workspace_id`:
/// taken from the recorded metadata when an entry carries the title, and
/// derived from the digest of workspace and title otherwise.
pub fn resolve_tab_id(state: &Option<TabState>, workspace_id: &str, title: &str) -> (r: String)
    ensures
        (state matches Some(st) && exists|i: int|
            0 <= i < st.tab_metadata@.len() && (#[trigger] st.tab_metadata@[i]).title@ == title@)
            ==> exists|i: int|
            {
                &&& 0 <= i < state->0.tab_metadata@.len()
                &&& (#[trigger] state->0.tab_metadata@[i]).title@ == title@
                &&& (forall|j: int|
                    0 <= j < i ==> state->0.tab_metadata@[j].title@ != title@)
                &&& r@ == state->0.tab_metadata@[i].id@
            },
        !(state matches Some(st) && exists|i: int|
            0 <= i < st.tab_metadata@.len() && (#[trigger] st.tab_metadata@[i]).title@ == title@)
            ==> r@ == sha256_hex_of(workspace_id@ + "_"@ + title@),
{
    match state {
        Some(st) => {
            let wanted = title.to_owned();
            let mut i: usize = 0;
            while i < st.tab_metadata.len()
                invariant
                    state is Some,
                    state->0 == *st,
                    i <= st.tab_metadata@.len(),
                    wanted@ == title@,
                    forall|j: int|
                        0 <= j < i ==> (#[trigger] st.tab_metadata@[j]).title@ != title@,
                decreases st.tab_metadata@.len() - i,
            {
                let meta = &st.tab_metadata[i];
                if meta.title == wanted {
                    proof {
                        assert((state->0).tab_metadata@[i as int].title@ == title@);
                        assert(forall|j: int|
                            0 <= j < i ==> (state->0).tab_metadata@[j].title@ != title@);
                    }
                    return meta.id.clone();
                }
                i = i + 1;
            }
            let source = tab_id_source(workspace_id, title);
            get_tab_id_from_title(source.as_str())
        },
        None => {
            let source = tab_id_source(workspace_id, title);
            get_tab_id_from_title(source.as_str())
        },
    }
}

/// Where `id` stands in the recorded tab order: the first position carrying
/// it, or the largest `usize` when the order does not know the identifier,
/// so that unknown tabs sort last.
pub fn tab_position(tab_order: &Vec<String>, id: &String) -> (r: usize)
    ensures
        (exists|i: int| 0 <= i < tab_order@.len() && #[trigger] tab_order@[i]@ == id@) ==> {
            &&& 0 <= r < tab_order@.len()
            &&& tab_order@[r as int]@ == id@
            &&& forall|j: int| 0 <= j < r ==> #[trigger] tab_order@[j]@ != id@
        },
        !(exists|i: int| 0 <= i < tab_order@.len() && #[trigger] tab_order@[i]@ == id@) ==> r
            == usize::MAX,
{
    let mut i: usize = 0;
    while i < tab_order.len()
        invariant
            i <= tab_order@.len(),
            forall|j: int| 0 <= j < i ==> #[trigger] tab_order@[j]@ != id@,
        decreases tab_order@.len() - i,
    {
        let candidate = &tab_order[i];
        if *candidate == *id {
            return i;
        }
        i = i + 1;
    }
    usize::MAX
}

/// `s` with leading Unicode whitespace removed.
pub open spec fn spec_trim_front(s: Seq<char>) -> Seq<char>
    decreases s.len(),
{
    if s.len() > 0 && is_unicode_whitespace(s[0]) {
        spec_trim_front(s.skip(1))
    } else {
        s
    }
}

/// `s` with trailing Unicode whitespace removed.
pub open spec fn spec_trim_back(s: Seq<char>) -> Seq<char>
    decreases s.len(),
{
    if s.len() > 0 && is_unicode_whitespace(s.last()) {
        spec_trim_back(s.drop_last())
    } else {
        s
    }
}

fn trim_chars(s: &str) -> (r: String)
    ensures
        r@ == spec_trim_back(spec_trim_front(s@)),
{
    let n = s.unicode_len();
    let mut a: usize = 0;
    proof {
        assert(s@.skip(0) =~= s@);
    }
    while a < n && char_is_whitespace(s.get_char(a))
        invariant
            a <= n,
            n == s@.len(),
            spec_trim_front(s@) == spec_trim_front(s@.skip(a as int)),
        decreases n - a,
    {
        proof {
            assert(s@.skip(a as int)[0] == s@[a as int]);
            assert(s@.skip(a as int).skip(1) =~= s@.skip(a + 1));
        }
        a = a + 1;
    }
    let ghost t = s@.skip(a as int);
    proof {
        assert(spec_trim_front(s@) == t);
    }
    let mut b: usize = n;
    proof {
        assert(t.take(n - a) =~= t);
    }
    while b > a && char_is_whitespace(s.get_char(b - 1))
        invariant
            a <= b <= n,
            n == s@.len(),
            t == s@.skip(a as int),
            spec_trim_back(t) == spec_trim_back(t.take(b - a)),
        decreases b,
    {
        proof {
            assert(t.take(b - a).last() == s@[b - 1]);
            assert(t.take(b - a).drop_last() =~= t.take(b - a - 1));
        }
        b = b - 1;
    }
    proof {
        assert(s@.subrange(a as int, b as int) =~= t.take(b - a));
    }
    s.substring_char(a, b).to_owned()
}

/// Whether the masking step keeps `c` as it is: a Unicode letter or digit, a
/// space, an underscore, or a hyphen.
pub open spec fn spec_keep_char(c: char) -> bool {
    is_unicode_alphanumeric(c) || c == ' ' || c == '_' || c == '-'
}

/// `s` with every character the masking step does not keep replaced by an
/// underscore.
pub open spec fn spec_masked(s: Seq<char>) -> Seq<char>
    decreases s.len(),
{
    if s.len() == 0 {
        Seq::empty()
    } else {
        (if spec_keep_char(s[0]) {
            seq![s[0]]
        } else {
            seq!['_']
        }) + spec_masked(s.skip(1))
    }
}

fn mask_chars(s: &str) -> (r: String)
    ensures
        r@ == spec_masked(s@),
{
    let n = s.unicode_len();
    let mut out = String::new();
    let mut i: usize = 0;
    proof {
        assert(s@.skip(0) =~= s@);
        assert(Seq::<char>::empty() + spec_masked(s@) =~= spec_masked(s@));
    }
    while i < n
        invariant
            i <= n,
            n == s@.len(),
            spec_masked(s@) == out@ + spec_masked(s@.skip(i as int)),
        decreases n - i,
    {
        let ghost rest = s@.skip(i as int);
        let ghost before = out@;
        proof {
            assert(rest[0] == s@[i as int]);
            assert(rest.skip(1) =~= s@.skip(i + 1));
            reveal_strlit("_");
        }
        let c = s.get_char(i);
        let keep = char_is_alphanumeric(c) || c == ' ' || c == '_' || c == '-';
        if keep {
            let piece = s.substring_char(i, i + 1);
            out.append(piece);
        } else {
            out.append("_");
        }
        proof {
            let piece_seq = if spec_keep_char(s@[i as int]) {
                seq![s@[i as int]]
            } else {
                seq!['_']
            };
            assert("_"@ =~= seq!['_']);
            assert(s@.subrange(i as int, i + 1) =~= seq![s@[i as int]]);
            assert(out@ =~= before + piece_seq);
            assert(spec_masked(rest) == piece_seq + spec_masked(s@.skip(i + 1)));
            assert(before + (piece_seq + spec_masked(s@.skip(i + 1))) =~= (before + piece_seq)
                + spec_masked(s@.skip(i + 1)));
        }
        i = i + 1;
    }
    proof {
        assert(s@.skip(i as int) =~= Seq::<char>::empty());
        assert(spec_masked(Seq::<char>::empty()) == Seq::<char>::empty());
        assert(out@ + Seq::<char>::empty() =~= out@);
    }
    out
}

/// Runs of spaces collapsed into single separators: `started` records
/// whether a word was already written, `pending` whether a separating space
/// is owed before the next word character. Leading and trailing spaces are
/// dropped.
pub open spec fn spec_collapse(s: Seq<char>, started: bool, pending: bool) -> Seq<char>
    decreases s.len(),
{
    if s.len() == 0 {
        Seq::empty()
    } else if s[0] == ' ' {
        spec_collapse(s.skip(1), started, pending || started)
    } else {
        (if pending {
            seq![' ', s[0]]
        } else {
            seq![s[0]]
        }) + spec_collapse(s.skip(1), true, false)
    }
}

fn collapse_spaces(s: &str) -> (r: String)
    ensures
        r@ == spec_collapse(s@, false, false),
{
    let n = s.unicode_len();
    let mut out = String::new();
    let mut started = false;
    let mut pending = false;
    let mut i: usize = 0;
    proof {
        assert(s@.skip(0) =~= s@);
        assert(Seq::<char>::empty() + spec_collapse(s@, false, false) =~= spec_collapse(
            s@,
            false,
            false,
        ));
    }
    while i < n
        invariant
            i <= n,
            n == s@.len(),
            spec_collapse(s@, false, false) == out@ + spec_collapse(
                s@.skip(i as int),
                started,
                pending,
            ),
        decreases n - i,
    {
        let ghost rest = s@.skip(i as int);
        let ghost before = out@;
        proof {
            assert(rest[0] == s@[i as int]);
            assert(rest.skip(1) =~= s@.skip(i + 1));
            reveal_strlit(" ");
        }
        let c = s.get_char(i);
        if c == ' ' {
            pending = pending || started;
        } else {
            let ghost piece_seq = if pending {
                seq![' ', s@[i as int]]
            } else {
                seq![s@[i as int]]
            };
            if pending {
                out.append(" ");
            }
            let piece = s.substring_char(i, i + 1);
            out.append(piece);
            proof {
                assert(" "@ =~= seq![' ']);
                assert(s@.subrange(i as int, i + 1) =~= seq![s@[i as int]]);
                assert(out@ =~= before + piece_seq);
                assert(spec_collapse(rest, started, pending) == piece_seq + spec_collapse(
                    s@.skip(i + 1),
                    true,
                    false,
                ));
                assert(before + (piece_seq + spec_collapse(s@.skip(i + 1), true, false)) =~= (
                before + piece_seq) + spec_collapse(s@.skip(i + 1), true, false));
            }
            started = true;
            pending = false;
        }
        i = i + 1;
    }
    proof {
        assert(s@.skip(i as int) =~= Seq::<char>::empty());
        assert(spec_collapse(Seq::<char>::empty(), started, pending) == Seq::<char>::empty());
        assert(out@ + Seq::<char>::empty() =~= out@);
    }
    out
}

/// `s` with leading spaces removed.
pub open spec fn spec_space_front(s: Seq<char>) -> Seq<char>
    decreases s.len(),
{
    if s.len() > 0 && s[0] == ' ' {
        spec_space_front(s.skip(1))
    } else {
        s
    }
}

/// `s` with trailing spaces removed.
pub open spec fn spec_space_back(s: Seq<char>) -> Seq<char>
    decreases s.len(),
{
    if s.len() > 0 && s.last() == ' ' {
        spec_space_back(s.drop_last())
    } else {
        s
    }
}

fn strip_spaces(s: &str) -> (r: String)
    ensures
        r@ == spec_space_back(spec_space_front(s@)),
{
    let n = s.unicode_len();
    let mut a: usize = 0;
    proof {
        assert(s@.skip(0) =~= s@);
    }
    while a < n && s.get_char(a) == ' '
        invariant
            a <= n,
            n == s@.len(),
            spec_space_front(s@) == spec_space_front(s@.skip(a as int)),
        decreases n - a,
    {
        proof {
            assert(s@.skip(a as int)[0] == s@[a as int]);
            assert(s@.skip(a as int).skip(1) =~= s@.skip(a + 1));
        }
        a = a + 1;
    }
    let ghost t = s@.skip(a as int);
    proof {
        assert(spec_space_front(s@) == t);
    }
    let mut b: usize = n;
    proof {
        assert(t.take(n - a) =~= t);
    }
    while b > a && s.get_char(b - 1) == ' '
        invariant
            a <= b <= n,
            n == s@.len(),
            t == s@.skip(a as int),
            spec_space_back(t) == spec_space_back(t.take(b - a)),
        decreases b,
    {
        proof {
            assert(t.take(b - a).last() == s@[b - 1]);
            assert(t.take(b - a).drop_last() =~= t.take(b - a - 1));
        }
        b = b - 1;
    }
    proof {
        assert(s@.subrange(a as int, b as int) =~= t.take(b - a));
    }
    s.substring_char(a, b).to_owned()
}

/// The file name a tab title is stored under. The title is trimmed; a
/// trailing `.lua` extension — recognized case-insensitively, when the name
/// is long enough to carry one — is stripped; every character that is not a
/// Unicode letter or digit, a space, an underscore or a hyphen becomes an
/// underscore; runs of spaces collapse to one and boundary spaces fall away;
/// at most the first hundred characters are kept, again without boundary
/// spaces; and what remains gets the `.lua` extension, or the whole name
/// defaults to `untitled.lua` when nothing remains.
pub open spec fn spec_sanitized_filename(name: Seq<char>) -> Seq<char> {
    let t = spec_trim_back(spec_trim_front(name));
    let base = if spec_ends_with(lower_of(t), ".lua"@) && t.len() >= 4 {
        t.take(t.len() - 4)
    } else {
        t
    };
    let collapsed = spec_collapse(spec_masked(base), false, false);
    let cut = if collapsed.len() > 100 {
        spec_space_back(spec_space_front(collapsed.take(100)))
    } else {
        spec_space_back(spec_space_front(collapsed))
    };
    if cut.len() == 0 {
        "untitled.lua"@
    } else {
        cut + ".lua"@
    }
}

/// Turn a tab title into the file name it is stored under.
pub fn sanitize_filename(name: &str) -> (r: String)
    ensures
        r@ == spec_sanitized_filename(name@),
{
    let trimmed = trim_chars(name);
    let lower = lowercase(trimmed.as_str());
    let m = trimmed.as_str().unicode_len();
    let base = if ends_with_str(lower.as_str(), ".lua") && m >= 4 {
        proof {
            assert(trimmed@.subrange(0, m - 4) =~= trimmed@.take(m - 4));
        }
        trimmed.as_str().substring_char(0, m - 4).to_owned()
    } else {
        trimmed
    };
    let masked = mask_chars(base.as_str());
    let collapsed = collapse_spaces(masked.as_str());
    let cn = collapsed.as_str().unicode_len();
    let cut = if cn > 100 {
        proof {
            assert(collapsed@.subrange(0, 100) =~= collapsed@.take(100));
        }
        strip_spaces(collapsed.as_str().substring_char(0, 100))
    } else {
        strip_spaces(collapsed.as_str())
    };
    if cut.as_str().unicode_len() == 0 {
        "untitled.lua".to_owned()
    } else {
        let mut s = cut;
        s.append(".lua");
        s
    }
}

/// The path of the tab state file of workspace `workspace_id`, under the
/// configuration directory `base`.
pub fn get_state_file(base: &str, workspace_id: &str) -> (r: String)
    ensures
        r@ == base@ + "/com.comet.dev/workspaces/"@ + workspace_id@ + "/tabs"@ + "/state.json"@,
{
    let mut s = crate::workspace::get_workspace_tabs_dir(base, workspace_id);
    s.append("/state.json");
    s
}

/// Assemble the tab state the caller persists: the given focus and order,
/// and one metadata entry per tab, in tab order.
pub fn build_tab_state(active_tab: Option<String>, tab_order: Vec<String>, tabs: &Vec<Tab>) -> (r:
    TabState)
    ensures
        r.active_tab == active_tab,
        r.tab_order == tab_order,
        r.tab_metadata@.len() == tabs@.len(),
        forall|i: int|
            0 <= i < tabs@.len() ==> (#[trigger] r.tab_metadata@[i]).id@ == tabs@[i].id@
                && r.tab_metadata@[i].title@ == tabs@[i].title@,
{
    let mut tab_metadata: Vec<TabMetadata> = Vec::new();
    let mut i: usize = 0;
    while i < tabs.len()
        invariant
            i <= tabs@.len(),
            tab_metadata@.len() == i,
            forall|k: int|
                0 <= k < i ==> (#[trigger] tab_metadata@[k]).id@ == tabs@[k].id@
                    && tab_metadata@[k].title@ == tabs@[k].title@,
        decreases tabs@.len() - i,
    {
        let tab = &tabs[i];
        tab_metadata.push(TabMetadata { id: tab.id.clone(), title: tab.title.clone() });
        i = i + 1;
    }
    TabState { active_tab, tab_order, tab_metadata }
}

/// Whether `needle` stands in `haystack` at position `i`.
pub open spec fn spec_occurs_at(haystack: Seq<char>, needle: Seq<char>, i: int) -> bool {
    0 <= i && i + needle.len() <= haystack.len() && haystack.subrange(i, i + needle.len())
        == needle
}

/// Where `needle` first stands in `haystack`, character by character;
/// `None` when it stands nowhere. An empty needle stands at the start.
pub fn find_sub(haystack: &str, needle: &str) -> (r: Option<usize>)
    ensures
        r matches Some(i) ==> spec_occurs_at(haystack@, needle@, i as int) && forall|j: int|
            0 <= j < i ==> !spec_occurs_at(haystack@, needle@, j),
        r is None ==> forall|j: int| !spec_occurs_at(haystack@, needle@, j),
{
    let n = haystack.unicode_len();
    let m = needle.unicode_len();
    if m > n {
        return None;
    }
    let mut i: usize = 0;
    while i <= n - m
        invariant
            m <= n,
            i <= n - m + 1,
            n == haystack@.len(),
            m == needle@.len(),
            forall|j: int| 0 <= j < i ==> !spec_occurs_at(haystack@, needle@, j),
        decreases n - m + 1 - i,
    {
        let mut k: usize = 0;
        while k < m && haystack.get_char(i + k) == needle.get_char(k)
            invariant
                k <= m,
                i + m <= n,
                n == haystack@.len(),
                m == needle@.len(),
                forall|t: int| 0 <= t < k ==> haystack@[i + t] == needle@[t],
            decreases m - k,
        {
            k = k + 1;
        }
        if k == m {
            proof {
                assert(haystack@.subrange(i as int, i + m) =~= needle@);
            }
            return Some(i);
        }
        proof {
            assert(haystack@.subrange(i as int, i + m)[k as int] == haystack@[i + k]);
            assert(!spec_occurs_at(haystack@, needle@, i as int));
        }
        i = i + 1;
    }
    proof {
        assert forall|j: int| !spec_occurs_at(haystack@, needle@, j) by {
            if 0 <= j && j + needle@.len() <= haystack@.len() {
                assert(j < i);
            }
        }
    }
    None
}

/// Whether a search query is blank: nothing but Unicode whitespace.
pub fn query_is_blank(query: &str) -> (r: bool)
    ensures
        r == (spec_trim_back(spec_trim_front(query@)).len() == 0),
{
    let trimmed = trim_chars(query);
    trimmed.as_str().unicode_len() == 0
}

/// Search one line of a tab for `query`, case-insensitively: the lowercased
/// query is looked up in the lowercased line, and the first occurrence
/// becomes a [`SearchResult`] carrying the tab, the line as written, and the
/// occurrence's column range in characters.
pub fn search_line(tab: &Tab, line_number: usize, line: &str, query: &str) -> (r: Option<
    SearchResult,
>)
    ensures
        (exists|i: int|
            #[trigger] spec_occurs_at(lower_of(line@), lower_of(query@), i)) <==> r is Some,
        r matches Some(res) ==> {
            &&& res.tab_id@ == tab.id@
            &&& res.title@ == tab.title@
            &&& res.line_number == line_number
            &&& res.line_content@ == line@
            &&& spec_occurs_at(lower_of(line@), lower_of(query@), res.column_start as int)
            &&& (forall|j: int|
                0 <= j < res.column_start ==> !spec_occurs_at(lower_of(line@), lower_of(query@), j))
            &&& res.column_end == res.column_start + lower_of(query@).len()
        },
{
    let line_lower = lowercase(line);
    let query_lower = lowercase(query);
    match find_sub(line_lower.as_str(), query_lower.as_str()) {
        Some(column_start) => {
            let line_chars = line_lower.as_str().unicode_len();
            let query_chars = query_lower.as_str().unicode_len();
            proof {
                assert(column_start + query_chars <= line_chars);
            }
            let column_end = column_start + query_chars;
            Some(
                SearchResult {
                    tab_id: tab.id.clone(),
                    title: tab.title.clone(),
                    line_number,
                    line_content: line.to_owned(),
                    column_start,
                    column_end,
                },
            )
        },
        None => None,
    }
}

/// The tab a fresh workspace shows: an untitled Lua file with a comment line.
pub fn default_tab(workspace_id: &str) -> (r: Tab)
    ensures
        r.id@ == sha256_hex_of(workspace_id@ + "_"@ + "untitled.lua"@),
        r.title@ == "untitled.lua"@,
        r.content@ == "-- New File\n"@,
        r.language@ == "lua"@,
{
    let source = tab_id_source(workspace_id, "untitled.lua");
    let id = get_tab_id_from_title(source.as_str());
    Tab {
        id,
        title: "untitled.lua".to_owned(),
        content: "-- New File\n".to_owned(),
        language: "lua".to_owned(),
    }
}

/// A loaded tab list is never left empty: when no file yielded a tab, the
/// workspace's untitled default is put in, and otherwise nothing changes.
pub fn ensure_nonempty_tabs(tabs: &mut Vec<Tab>, workspace_id: &str)
    ensures
        old(tabs)@.len() > 0 ==> final(tabs)@ == old(tabs)@,
        old(tabs)@.len() == 0 ==> {
            &&& final(tabs)@.len() == 1
            &&& final(tabs)@[0].id@ == sha256_hex_of(workspace_id@ + "_"@ + "untitled.lua"@)
            &&& final(tabs)@[0].title@ == "untitled.lua"@
            &&& final(tabs)@[0].content@ == "-- New File\n"@
            &&& final(tabs)@[0].language@ == "lua"@
        },
{
    if tabs.len() == 0 {
        tabs.push(default_tab(workspace_id));
    }
}

/// The tab state a fresh workspace starts with: one untitled tab, active.
pub fn default_tab_state(workspace_id: &str) -> (r: TabState)
    ensures
        r.active_tab matches Some(a) && a@ == sha256_hex_of(workspace_id@ + "_"@ + "untitled.lua"@),
        r.tab_order@.len() == 1,
        r.tab_order@[0]@ == sha256_hex_of(workspace_id@ + "_"@ + "untitled.lua"@),
        r.tab_metadata@.len() == 1,
        r.tab_metadata@[0].id@ == sha256_hex_of(workspace_id@ + "_"@ + "untitled.lua"@),
        r.tab_metadata@[0].title@ == "untitled.lua"@,
{
    let source = tab_id_source(workspace_id, "untitled.lua");
    let id = get_tab_id_from_title(source.as_str());
    let mut tab_order: Vec<String> = Vec::new();
    tab_order.push(id.clone());
    let mut tab_metadata: Vec<TabMetadata> = Vec::new();
    tab_metadata.push(TabMetadata { id: id.clone(), title: "untitled.lua".to_owned() });
    TabState { active_tab: Some(id), tab_order, tab_metadata }
}

} // verus!
