//! Script catalogue types: editor suggestions, the script search parameters,
//! installer progress, and the built-in fallback script entries used when the
//! catalogue cannot be fetched. All fetching is the surrounding application's
//! job; the library owns the shapes and the pure transformations.

use vstd::prelude::*;

use crate::text::{
    char_to_uppercase, lower_of, lowercase, spec_decimal, u32_to_decimal, upper_of_char,
};
use vstd::string::StringExecFns;

verus! {

/// Where the first underscore of `s` stands, or `s.len()` when it has none.
pub open spec fn spec_first_underscore(s: Seq<char>) -> int
    decreases s.len(),
{
    if s.len() == 0 {
        0
    } else if s[0] == '_' {
        0
    } else {
        1 + spec_first_underscore(s.skip(1))
    }
}

proof fn lemma_first_underscore_is(s: Seq<char>, i: int)
    requires
        0 <= i <= s.len(),
        forall|j: int| 0 <= j < i ==> s[j] != '_',
        i < s.len() ==> s[i] == '_',
    ensures
        spec_first_underscore(s) == i,
    decreases i,
{
    if i > 0 {
        assert forall|j: int| 0 <= j < i - 1 implies s.skip(1)[j] != '_' by {
            assert(s.skip(1)[j] == s[j + 1]);
        }
        assert(i - 1 < s.skip(1).len() ==> s.skip(1)[i - 1] == s[i]);
        lemma_first_underscore_is(s.skip(1), i - 1);
    }
}

/// A word of the script key, title-cased: its first character uppercased,
/// the rest lowercased.
pub open spec fn spec_title_word(w: Seq<char>) -> Seq<char> {
    if w.len() == 0 {
        Seq::empty()
    } else {
        upper_of_char(w[0]) + lower_of(w.skip(1))
    }
}

/// A script key turned into a display name: its underscore-separated words,
/// each title-cased, joined by single spaces.
pub open spec fn spec_format_script_name(s: Seq<char>) -> Seq<char>
    decreases s.len(),
{
    let i = spec_first_underscore(s);
    if i == s.len() {
        spec_title_word(s)
    } else if 0 <= i < s.len() {
        spec_title_word(s.take(i)) + " "@ + spec_format_script_name(s.skip(i + 1))
    } else {
        Seq::empty()
    }
}

fn append_title_word(out: &mut String, key: &str, from: usize, to: usize)
    requires
        from <= to <= old(out)@.len() + key@.len(),
        from <= to <= key@.len(),
    ensures
        final(out)@ == old(out)@ + spec_title_word(key@.subrange(from as int, to as int)),
{
    let ghost word = key@.subrange(from as int, to as int);
    if from == to {
        proof {
            assert(spec_title_word(word) =~= Seq::<char>::empty());
            assert(old(out)@ + Seq::<char>::empty() =~= old(out)@);
        }
        return ;
    }
    let first = char_to_uppercase(key.get_char(from));
    let rest = lowercase(key.substring_char(from + 1, to));
    out.append(first.as_str());
    out.append(rest.as_str());
    proof {
        assert(word[0] == key@[from as int]);
        assert(word.skip(1) =~= key@.subrange(from + 1, to as int));
        assert(out@ =~= old(out)@ + spec_title_word(word));
    }
}

/// Turn a script key into its display name: split on underscores, title-case
/// each word, join with single spaces.
pub fn format_script_name(key: &str) -> (r: String)
    ensures
        r@ == spec_format_script_name(key@),
{
    let n = key.unicode_len();
    let mut out = String::new();
    let mut pos: usize = 0;
    let mut done = false;
    proof {
        assert(key@.skip(0) =~= key@);
        assert(Seq::<char>::empty() + spec_format_script_name(key@) =~= spec_format_script_name(
            key@,
        ));
    }
    while !done
        invariant
            n == key@.len(),
            !done ==> pos <= n && spec_format_script_name(key@) == out@
                + spec_format_script_name(key@.skip(pos as int)),
            done ==> out@ == spec_format_script_name(key@),
        decreases n - pos + (if done { 0int } else { 1int }),
    {
        let ghost rest = key@.skip(pos as int);
        let mut q = pos;
        while q < n && key.get_char(q) != '_'
            invariant
                pos <= q <= n,
                n == key@.len(),
                forall|k: int| pos <= k < q ==> key@[k] != '_',
            decreases n - q,
        {
            q = q + 1;
        }
        proof {
            assert forall|j: int| 0 <= j < q - pos implies rest[j] != '_' by {
                assert(rest[j] == key@[pos + j]);
            }
            assert(q < n ==> rest[q - pos] == key@[q as int]);
            lemma_first_underscore_is(rest, q - pos);
            assert(rest.take(q - pos) =~= key@.subrange(pos as int, q as int));
        }
        let ghost before = out@;
        append_title_word(&mut out, key, pos, q);
        if q < n {
            out.append(" ");
            proof {
                assert(rest.skip(q - pos + 1) =~= key@.skip(q + 1));
                assert(spec_format_script_name(rest) == spec_title_word(rest.take(q - pos))
                    + " "@ + spec_format_script_name(rest.skip(q - pos + 1)));
                assert(before + ((spec_title_word(rest.take(q - pos)) + " "@)
                    + spec_format_script_name(key@.skip(q + 1))) =~= ((before + spec_title_word(
                    rest.take(q - pos),
                )) + " "@) + spec_format_script_name(key@.skip(q + 1)));
                assert(out@ =~= (before + spec_title_word(rest.take(q - pos))) + " "@);
                assert(before + (((spec_title_word(rest.take(q - pos)) + " "@))
                    + spec_format_script_name(key@.skip(q + 1))) == before + spec_format_script_name(rest));
            }
            pos = q + 1;
        } else {
            proof {
                assert(rest.take(q - pos) =~= rest);
                assert(spec_format_script_name(rest) == spec_title_word(rest));
            }
            done = true;
        }
    }
    out
}

/// One editor completion entry, as the catalogue delivers it.
#[derive(Debug, Clone, PartialEq, Eq)]
pub struct Suggestion {
    /// The completed text.
    pub label: String,
    /// Short signature or summary.
    pub detail: String,
    /// Longer documentation.
    pub documentation: String,
}

/// The catalogue's completion entries, one list per kind.
#[derive(Debug, Clone, PartialEq, Eq)]
pub struct SuggestionResponse {
    /// Free functions.
    pub functions: Vec<Suggestion>,
    /// Properties.
    pub property: Vec<Suggestion>,
    /// Classes.
    pub class: Vec<Suggestion>,
    /// Methods.
    pub method: Vec<Suggestion>,
}

/// A completion entry tagged with its kind, the shape the editor consumes.
#[derive(Debug, Clone, PartialEq, Eq)]
pub struct TypedSuggestion {
    /// The completed text.
    pub label: String,
    /// Short signature or summary.
    pub detail: String,
    /// Longer documentation.
    pub documentation: String,
    /// The kind tag: which list the entry came from.
    pub suggestion_type: String,
}

/// Whether `t` is `s` tagged with the kind `ty`.
pub open spec fn spec_typed_as(t: TypedSuggestion, s: Suggestion, ty: Seq<char>) -> bool {
    &&& t.label@ == s.label@
    &&& t.detail@ == s.detail@
    &&& t.documentation@ == s.documentation@
    &&& t.suggestion_type@ == ty
}

fn push_typed(
    out: &mut Vec<TypedSuggestion>,
    list: &Vec<Suggestion>,
    tag: &str,
)
    ensures
        final(out)@.len() == old(out)@.len() + list@.len(),
        forall|i: int| 0 <= i < old(out)@.len() ==> final(out)@[i] == old(out)@[i],
        forall|i: int|
            0 <= i < list@.len() ==> spec_typed_as(
                #[trigger] final(out)@[old(out)@.len() + i],
                list@[i],
                tag@,
            ),
{
    let mut i: usize = 0;
    while i < list.len()
        invariant
            i <= list@.len(),
            out@.len() == old(out)@.len() + i,
            forall|k: int| 0 <= k < old(out)@.len() ==> out@[k] == old(out)@[k],
            forall|k: int|
                0 <= k < i ==> spec_typed_as(
                    #[trigger] out@[old(out)@.len() + k],
                    list@[k],
                    tag@,
                ),
        decreases list@.len() - i,
    {
        let s = &list[i];
        out.push(
            TypedSuggestion {
                label: s.label.clone(),
                detail: s.detail.clone(),
                documentation: s.documentation.clone(),
                suggestion_type: tag.to_owned(),
            },
        );
        i = i + 1;
    }
}

/// Flatten the catalogue's four lists into one, in catalogue order —
/// functions, properties, classes, methods — tagging each entry with its
/// kind.
pub fn flatten_suggestions(resp: &SuggestionResponse) -> (r: Vec<TypedSuggestion>)
    ensures
        r@.len() == resp.functions@.len() + resp.property@.len() + resp.class@.len()
            + resp.method@.len(),
        forall|i: int|
            0 <= i < resp.functions@.len() ==> spec_typed_as(
                #[trigger] r@[i],
                resp.functions@[i],
                "function"@,
            ),
        forall|i: int|
            0 <= i < resp.property@.len() ==> spec_typed_as(
                #[trigger] r@[resp.functions@.len() + i],
                resp.property@[i],
                "property"@,
            ),
        forall|i: int|
            0 <= i < resp.class@.len() ==> spec_typed_as(
                #[trigger] r@[resp.functions@.len() + resp.property@.len() + i],
                resp.class@[i],
                "class"@,
            ),
        forall|i: int|
            0 <= i < resp.method@.len() ==> spec_typed_as(
                #[trigger] r@[resp.functions@.len() + resp.property@.len() + resp.class@.len()
                    + i],
                resp.method@[i],
                "method"@,
            ),
{
    let mut out: Vec<TypedSuggestion> = Vec::new();
    push_typed(&mut out, &resp.functions, "function");
    let ghost after_functions = out@;
    push_typed(&mut out, &resp.property, "property");
    let ghost after_property = out@;
    push_typed(&mut out, &resp.class, "class");
    let ghost after_class = out@;
    push_typed(&mut out, &resp.method, "method");
    proof {
        let f = resp.functions@.len() as int;
        let p = resp.property@.len() as int;
        let c = resp.class@.len() as int;
        assert forall|i: int| 0 <= i < f implies spec_typed_as(
            #[trigger] out@[i],
            resp.functions@[i],
            "function"@,
        ) by {
            assert(spec_typed_as(after_functions[0 + i], resp.functions@[i], "function"@));
            assert(after_property[i] == after_functions[i]);
            assert(after_class[i] == after_property[i]);
            assert(out@[i] == after_class[i]);
        }
        assert forall|i: int| 0 <= i < p implies spec_typed_as(
            #[trigger] out@[f + i],
            resp.property@[i],
            "property"@,
        ) by {
            assert(spec_typed_as(after_property[f + i], resp.property@[i], "property"@));
            assert(after_class[f + i] == after_property[f + i]);
            assert(out@[f + i] == after_class[f + i]);
        }
        assert forall|i: int| 0 <= i < c implies spec_typed_as(
            #[trigger] out@[f + p + i],
            resp.class@[i],
            "class"@,
        ) by {
            assert(spec_typed_as(after_class[(f + p) + i], resp.class@[i], "class"@));
            assert(out@[f + p + i] == after_class[f + p + i]);
        }
        assert forall|i: int| 0 <= i < resp.method@.len() implies spec_typed_as(
            #[trigger] out@[f + p + c + i],
            resp.method@[i],
            "method"@,
        ) by {
            assert(spec_typed_as(out@[(f + p + c) + i], resp.method@[i], "method"@));
        }
    }
    out
}

/// The parameters of a script search request.
#[derive(Debug, Clone, PartialEq, Eq)]
pub struct RScriptSearchParams {
    /// Result page to fetch.
    pub page: Option<u32>,
    /// Field to order by.
    pub order_by: Option<String>,
    /// Sort direction.
    pub sort: Option<String>,
    /// Free-text query.
    pub q: Option<String>,
}

/// The query pairs a search request carries, in fixed order: the page (in
/// decimal), the ordering field, the sort direction, and the query, each only
/// when set.
pub open spec fn spec_rscript_pairs(p: RScriptSearchParams) -> Seq<(Seq<char>, Seq<char>)> {
    (match p.page {
        Some(n) => seq![("page"@, spec_decimal(n as int))],
        None => Seq::empty(),
    }) + (match p.order_by {
        Some(o) => seq![("orderBy"@, o@)],
        None => Seq::empty(),
    }) + (match p.sort {
        Some(s) => seq![("sort"@, s@)],
        None => Seq::empty(),
    }) + (match p.q {
        Some(q) => seq![("q"@, q@)],
        None => Seq::empty(),
    })
}

/// Build the query pairs of a search request.
pub fn rscript_query_pairs(params: &RScriptSearchParams) -> (r: Vec<(String, String)>)
    ensures
        r@.len() == spec_rscript_pairs(*params).len(),
        forall|i: int|
            0 <= i < r@.len() ==> (#[trigger] r@[i]).0@ == spec_rscript_pairs(*params)[i].0
                && r@[i].1@ == spec_rscript_pairs(*params)[i].1,
{
    let mut out: Vec<(String, String)> = Vec::new();
    if let Some(page) = &params.page {
        out.push(("page".to_owned(), u32_to_decimal(*page)));
    }
    if let Some(order_by) = &params.order_by {
        out.push(("orderBy".to_owned(), order_by.clone()));
    }
    if let Some(sort) = &params.sort {
        out.push(("sort".to_owned(), sort.clone()));
    }
    if let Some(q) = &params.q {
        out.push(("q".to_owned(), q.clone()));
    }
    out
}

/// The installer's progress notification.
#[derive(Debug, Clone, PartialEq, Eq)]
pub struct InstallProgress {
    /// Which stage the installation is in.
    pub state: String,
}

/// One entry of the script catalogue: either fetched from a URL or executed
/// from inline content.
#[derive(Debug, Clone, PartialEq, Eq)]
pub struct ScriptConfig {
    /// Whether the script text is fetched from `url`.
    pub fetch: Option<bool>,
    /// Where to fetch the script from.
    pub url: Option<String>,
    /// Whether `content` is executed directly.
    pub execute: Option<bool>,
    /// Inline script text.
    pub content: Option<String>,
    /// Display name shown in menus.
    pub display_name: Option<String>,
}

/// Where a catalogue entry's script text comes from.
#[derive(Debug, Clone, PartialEq, Eq)]
pub enum ScriptSource {
    /// The text is fetched from this URL before execution.
    Fetch(String),
    /// The text is executed as it stands.
    Inline(String),
}

/// Decide how a catalogue entry is executed, as the entry's flags say: a
/// fetched entry needs its URL, an inline entry its content, and an entry
/// claiming neither is invalid. Each refusal names the entry by its display
/// name, derived from the key.
pub fn script_action(key: &str, config: &ScriptConfig) -> (r: Result<ScriptSource, String>)
    ensures
        config.fetch == Some(true) && config.url is Some ==> (r matches Ok(
            ScriptSource::Fetch(u),
        ) && u@ == config.url->0@),
        config.fetch == Some(true) && config.url is None ==> (r matches Err(m) && m@
            == spec_format_script_name(key@) + " URL not found"@),
        config.fetch != Some(true) && config.execute == Some(true) && config.content is Some ==> (
        r matches Ok(ScriptSource::Inline(c)) && c@ == config.content->0@),
        config.fetch != Some(true) && config.execute == Some(true) && config.content is None ==> (
        r matches Err(m) && m@ == spec_format_script_name(key@) + " content not found"@),
        config.fetch != Some(true) && config.execute != Some(true) ==> (r matches Err(m) && m@
            == "Invalid "@ + spec_format_script_name(key@) + " config"@),
{
    let fetch = match &config.fetch {
        Some(b) => *b,
        None => false,
    };
    let execute = match &config.execute {
        Some(b) => *b,
        None => false,
    };
    if fetch {
        match &config.url {
            Some(url) => Ok(ScriptSource::Fetch(url.clone())),
            None => {
                let mut m = format_script_name(key);
                m.append(" URL not found");
                Err(m)
            },
        }
    } else if execute {
        match &config.content {
            Some(content) => Ok(ScriptSource::Inline(content.clone())),
            None => {
                let mut m = format_script_name(key);
                m.append(" content not found");
                Err(m)
            },
        }
    } else {
        let mut m = "Invalid ".to_owned();
        let name = format_script_name(key);
        m.append(name.as_str());
        m.append(" config");
        Err(m)
    }
}

/// Give a catalogue entry a display name when it carries none: the key's
/// words, title-cased.
pub fn ensure_display_name(key: &str, config: &mut ScriptConfig)
    ensures
        old(config).display_name is Some ==> *final(config) == *old(config),
        old(config).display_name is None ==> {
            &&& final(config).display_name matches Some(d) && d@ == spec_format_script_name(key@)
            &&& final(config).fetch == old(config).fetch
            &&& final(config).url == old(config).url
            &&& final(config).execute == old(config).execute
            &&& final(config).content == old(config).content
        },
{
    let absent = match &config.display_name {
        Some(_) => false,
        None => true,
    };
    if absent {
        config.display_name = Some(format_script_name(key));
    }
}

/// The catalogue entry the library falls back to for `key` when the
/// catalogue cannot be fetched: a fetched entry for the infinite-yield and
/// explorer scripts, an inline entry for the hydroxide loader, and nothing
/// for any other key.
pub fn create_fallback_config(key: &str) -> (r: Option<ScriptConfig>)
    ensures
        key@ == "infinite_yield"@ ==> (r matches Some(c) && c.fetch == Some(true) && (
        c.url matches Some(u) && u@
            == "https://raw.githubusercontent.com/EdgeIY/infiniteyield/refs/heads/master/source"@)
            && c.execute is None && c.content is None && (c.display_name matches Some(d) && d@
            == "Infinite Yield"@)),
        key@ == "hydroxide"@ ==> (r matches Some(c) && c.fetch is None && c.url is None
            && c.execute == Some(true) && c.content is Some && (c.display_name matches Some(d)
            && d@ == "Hydroxide"@)),
        key@ == "dex_explorer"@ ==> (r matches Some(c) && c.fetch == Some(true) && (
        c.url matches Some(u) && u@ == "https://cdn.wearedevs.net/scripts/Dex%20Explorer.txt"@)
            && c.execute is None && c.content is None && (c.display_name matches Some(d) && d@
            == "DEX Explorer"@)),
        key@ != "infinite_yield"@ && key@ != "hydroxide"@ && key@ != "dex_explorer"@ ==> r is None,
{
    proof {
        reveal_strlit("infinite_yield");
        reveal_strlit("hydroxide");
        reveal_strlit("dex_explorer");
        assert("infinite_yield"@.len() == 14);
        assert("hydroxide"@.len() == 9);
        assert("dex_explorer"@.len() == 12);
    }
    let owned = key.to_owned();
    if owned == "infinite_yield".to_owned() {
        Some(
            ScriptConfig {
                fetch: Some(true),
                url: Some(
                    "https://raw.githubusercontent.com/EdgeIY/infiniteyield/refs/heads/master/source".to_owned(),
                ),
                execute: None,
                content: None,
                display_name: Some("Infinite Yield".to_owned()),
            },
        )
    } else if owned == "hydroxide".to_owned() {
        Some(
            ScriptConfig {
                fetch: None,
                url: None,
                execute: Some(true),
                content: Some(hydroxide_loader()),
                display_name: Some("Hydroxide".to_owned()),
            },
        )
    } else if owned == "dex_explorer".to_owned() {
        Some(
            ScriptConfig {
                fetch: Some(true),
                url: Some("https://cdn.wearedevs.net/scripts/Dex%20Explorer.txt".to_owned()),
                execute: None,
                content: None,
                display_name: Some("DEX Explorer".to_owned()),
            },
        )
    } else {
        None
    }
}

/// The inline loader script of the hydroxide fallback entry, line by line as
/// the executor receives it.
pub fn hydroxide_loader() -> (r: String)
    ensures
        r@ == "local owner = \"Upbolt\"\n"@ + "local branch = \"revision\"\n"@ + "\n"@
            + "local function webImport(file)\n"@
            + "    return loadstring(game:HttpGetAsync((\"https://raw.githubusercontent.com/%s/Hydroxide/%s/%s.lua\"):format(owner, branch, file)), file .. '.lua')()\n"@
            + "end\n"@ + "\n"@ + "webImport(\"init\")\n"@ + "webImport(\"ui/main\")"@,
{
    let mut s = "local owner = \"Upbolt\"\n".to_owned();
    s.append("local branch = \"revision\"\n");
    s.append("\n");
    s.append("local function webImport(file)\n");
    s.append(
        "    return loadstring(game:HttpGetAsync((\"https://raw.githubusercontent.com/%s/Hydroxide/%s/%s.lua\"):format(owner, branch, file)), file .. '.lua')()\n",
    );
    s.append("end\n");
    s.append("\n");
    s.append("webImport(\"init\")\n");
    s.append("webImport(\"ui/main\")");
    s
}

} // verus!
