//! Fast-flag validation and profile bookkeeping.
//!
//! The two upstream flag lists are fetched by the surrounding application;
//! the library holds them as plain lists and owns the validation rule: a flag
//! is valid when either list contains it, and validation is refused outright
//! while neither list has been fetched.

use vstd::prelude::*;

use vstd::string::StringExecFns;

verus! {

/// The fetched flag lists, each absent until its download succeeded.
#[derive(Debug, Clone, PartialEq, Eq, Default)]
pub struct FlagCache {
    /// Flags of the desktop client's list.
    pub mac: Option<Vec<String>>,
    /// Flags of the tracker's variable list.
    pub client: Option<Vec<String>>,
}

/// Whether `list` contains the flag `flag`.
pub open spec fn spec_list_has(list: Seq<String>, flag: Seq<char>) -> bool {
    exists|i: int| 0 <= i < list.len() && #[trigger] list[i]@ == flag
}

/// Whether the cache knows `flag`: some fetched list contains it.
pub open spec fn spec_flag_known(cache: FlagCache, flag: Seq<char>) -> bool {
    ||| (cache.mac matches Some(m) && spec_list_has(m@, flag))
    ||| (cache.client matches Some(c) && spec_list_has(c@, flag))
}

fn list_has(list: &Vec<String>, flag: &String) -> (r: bool)
    ensures
        r == spec_list_has(list@, flag@),
{
    let mut i: usize = 0;
    while i < list.len()
        invariant
            i <= list@.len(),
            forall|j: int| 0 <= j < i ==> #[trigger] list@[j]@ != flag@,
        decreases list@.len() - i,
    {
        let candidate = &list[i];
        if *candidate == *flag {
            return true;
        }
        i = i + 1;
    }
    false
}

/// Whether the cache knows `flag`.
pub fn flag_known(cache: &FlagCache, flag: &String) -> (r: bool)
    ensures
        r == spec_flag_known(*cache, flag@),
{
    let in_mac = match &cache.mac {
        Some(m) => list_has(m, flag),
        None => false,
    };
    if in_mac {
        return true;
    }
    match &cache.client {
        Some(c) => list_has(c, flag),
        None => false,
    }
}

/// The flags of `flags` the cache does not know, in order.
pub open spec fn spec_invalid_flags(cache: FlagCache, flags: Seq<String>) -> Seq<String>
    decreases flags.len(),
{
    if flags.len() == 0 {
        Seq::empty()
    } else if spec_flag_known(cache, flags[0]@) {
        spec_invalid_flags(cache, flags.skip(1))
    } else {
        seq![flags[0]] + spec_invalid_flags(cache, flags.skip(1))
    }
}

/// Validate `flags` against the cache. Refused — with the message the
/// surrounding application shows — exactly when neither list has been
/// fetched; otherwise the result lists the flags no fetched list contains,
/// in their given order.
pub fn validate_flags(cache: &FlagCache, flags: &Vec<String>) -> (r: Result<Vec<String>, String>)
    ensures
        cache.mac is None && cache.client is None ==> (r matches Err(m) && m@
            == "Could not fetch valid fast flags list"@),
        !(cache.mac is None && cache.client is None) ==> (r matches Ok(invalid) && invalid@
            == spec_invalid_flags(*cache, flags@)),
{
    let no_mac = match &cache.mac {
        Some(_) => false,
        None => true,
    };
    let no_client = match &cache.client {
        Some(_) => false,
        None => true,
    };
    if no_mac && no_client {
        return Err("Could not fetch valid fast flags list".to_owned());
    }
    let mut invalid: Vec<String> = Vec::new();
    let mut i: usize = 0;
    proof {
        assert(flags@.skip(0) =~= flags@);
        assert(Seq::<String>::empty() + spec_invalid_flags(*cache, flags@) =~= spec_invalid_flags(
            *cache,
            flags@,
        ));
    }
    while i < flags.len()
        invariant
            i <= flags@.len(),
            spec_invalid_flags(*cache, flags@) == invalid@ + spec_invalid_flags(
                *cache,
                flags@.skip(i as int),
            ),
        decreases flags@.len() - i,
    {
        let ghost rest = flags@.skip(i as int);
        proof {
            assert(rest[0] == flags@[i as int]);
            assert(rest.skip(1) =~= flags@.skip(i + 1));
        }
        let flag = &flags[i];
        if flag_known(cache, flag) {
            proof {
                assert(spec_invalid_flags(*cache, rest) == spec_invalid_flags(
                    *cache,
                    flags@.skip(i + 1),
                ));
            }
        } else {
            let ghost prev = invalid@;
            invalid.push(flag.clone());
            proof {
                assert(spec_invalid_flags(*cache, rest) == seq![flags@[i as int]]
                    + spec_invalid_flags(*cache, flags@.skip(i + 1)));
                assert(prev + (seq![flags@[i as int]] + spec_invalid_flags(
                    *cache,
                    flags@.skip(i + 1),
                )) =~= (prev + seq![flags@[i as int]]) + spec_invalid_flags(
                    *cache,
                    flags@.skip(i + 1),
                ));
                assert(prev + seq![flags@[i as int]] =~= invalid@);
            }
        }
        i = i + 1;
    }
    proof {
        assert(flags@.skip(i as int) =~= Seq::<String>::empty());
        assert(spec_invalid_flags(*cache, Seq::<String>::empty()) == Seq::<String>::empty());
        assert(invalid@ + Seq::<String>::empty() =~= invalid@);
    }
    Ok(invalid)
}

/// A word character of the flag-list grammar: a letter, a digit, or an
/// underscore.
pub open spec fn spec_is_word_char(c: char) -> bool {
    ||| ('a' <= c && c <= 'z')
    ||| ('A' <= c && c <= 'Z')
    ||| ('0' <= c && c <= '9')
    ||| c == '_'
}

/// A whitespace character of the flag-list grammar.
pub open spec fn spec_is_space_char(c: char) -> bool {
    c == ' ' || c == '\t' || c == '\n' || c == '\r' || c == '\u{000B}' || c == '\u{000C}'
}

/// The length of the origin marker standing at `i` in `s`: 5 when `[C++]`
/// or `[Lua]` stands there, 0 otherwise.
pub open spec fn spec_marker_len_at(s: Seq<char>, i: int) -> int {
    if i + 5 <= s.len() && (s.subrange(i, i + 5) == "[C++]"@ || s.subrange(i, i + 5)
        == "[Lua]"@) {
        5
    } else {
        0
    }
}

/// Whether `w` is where the captured flag name starts, for an entry whose
/// whitespace begins at `j`: at least one whitespace character, then a word
/// character.
pub open spec fn spec_word_start(s: Seq<char>, j: int, w: int) -> bool {
    &&& j < w < s.len()
    &&& forall|k: int| j <= k < w ==> spec_is_space_char(#[trigger] s[k])
    &&& spec_is_word_char(s[w])
}

/// Whether the captured flag name starting at `w` ends at `e`: a run of word
/// characters that no further word character follows.
pub open spec fn spec_word_end(s: Seq<char>, w: int, e: int) -> bool {
    &&& w < e <= s.len()
    &&& forall|k: int| w <= k < e ==> spec_is_word_char(#[trigger] s[k])
    &&& (e == s.len() || !spec_is_word_char(s[e]))
}

/// Whether a flag entry matches at position `i` of `s`: an origin marker,
/// then at least one whitespace character, then at least one word character.
pub open spec fn spec_entry_at(s: Seq<char>, i: int) -> bool {
    &&& spec_marker_len_at(s, i) > 0
    &&& exists|w: int| #[trigger] spec_word_start(s, i + spec_marker_len_at(s, i), w)
}

fn is_space_char(c: char) -> (r: bool)
    ensures
        r == spec_is_space_char(c),
{
    c == ' ' || c == '\t' || c == '\n' || c == '\r' || c == '\u{000B}' || c == '\u{000C}'
}

fn is_word_char(c: char) -> (r: bool)
    ensures
        r == spec_is_word_char(c),
{
    ('a' <= c && c <= 'z') || ('A' <= c && c <= 'Z') || ('0' <= c && c <= '9') || c == '_'
}

fn marker_len_at(line: &str, i: usize) -> (r: usize)
    requires
        i <= line@.len(),
    ensures
        r == spec_marker_len_at(line@, i as int),
{
    proof {
        reveal_strlit("[C++]");
        reveal_strlit("[Lua]");
    }
    let n = line.unicode_len();
    if n - i < 5 {
        return 0;
    }
    if line.get_char(i) != '[' || line.get_char(i + 4) != ']' {
        proof {
            if line@.subrange(i as int, i + 5) == "[C++]"@ {
                assert(line@[i as int] == "[C++]"@[0] && line@[i + 4] == "[C++]"@[4]);
            }
            if line@.subrange(i as int, i + 5) == "[Lua]"@ {
                assert(line@[i as int] == "[Lua]"@[0] && line@[i + 4] == "[Lua]"@[4]);
            }
        }
        return 0;
    }
    let c1 = line.get_char(i + 1);
    let c2 = line.get_char(i + 2);
    let c3 = line.get_char(i + 3);
    if (c1 == 'C' && c2 == '+' && c3 == '+') || (c1 == 'L' && c2 == 'u' && c3 == 'a') {
        proof {
            if c1 == 'C' {
                assert(line@.subrange(i as int, i + 5) =~= "[C++]"@);
            } else {
                assert(line@.subrange(i as int, i + 5) =~= "[Lua]"@);
            }
        }
        5
    } else {
        proof {
            if line@.subrange(i as int, i + 5) == "[C++]"@ {
                assert(line@[i + 1] == "[C++]"@[1] && line@[i + 2] == "[C++]"@[2] && line@[i + 3]
                    == "[C++]"@[3]);
            }
            if line@.subrange(i as int, i + 5) == "[Lua]"@ {
                assert(line@[i + 1] == "[Lua]"@[1] && line@[i + 2] == "[Lua]"@[2] && line@[i + 3]
                    == "[Lua]"@[3]);
            }
        }
        0
    }
}

/// Extract the flag name of the first entry of `line`, scanning left to
/// right: the name is the run of word characters that follows an origin
/// marker — `[C++]` or `[Lua]` — and at least one whitespace character.
/// `None` when no position of the line carries such an entry. This is the
/// per-line grammar of the upstream variable list.
pub fn parse_flag_entry(line: &str) -> (r: Option<String>)
    ensures
        r is None ==> forall|i: int| 0 <= i < line@.len() ==> !spec_entry_at(line@, i),
        r matches Some(f) ==> exists|i: int|
            {
                &&& 0 <= i < line@.len()
                &&& spec_entry_at(line@, i)
                &&& (forall|j: int| 0 <= j < i ==> !spec_entry_at(line@, j))
                &&& exists|w: int, e: int|
                    spec_word_start(line@, i + spec_marker_len_at(line@, i), w) && spec_word_end(
                        line@,
                        w,
                        e,
                    ) && f@ == line@.subrange(w, e)
            },
{
    let n = line.unicode_len();
    let mut i: usize = 0;
    while i < n
        invariant
            i <= n,
            n == line@.len(),
            forall|j: int| 0 <= j < i ==> !spec_entry_at(line@, j),
        decreases n - i,
    {
        let ml = marker_len_at(line, i);
        if ml > 0 {
            let j = i + ml;
            let mut w = j;
            while w < n && is_space_char(line.get_char(w))
                invariant
                    j <= w <= n,
                    n == line@.len(),
                    forall|k: int| j <= k < w ==> spec_is_space_char(#[trigger] line@[k]),
                decreases n - w,
            {
                w = w + 1;
            }
            if w > j && w < n && is_word_char(line.get_char(w)) {
                let mut e = w + 1;
                while e < n && is_word_char(line.get_char(e))
                    invariant
                        w < e <= n,
                        n == line@.len(),
                        forall|k: int| w <= k < e ==> spec_is_word_char(#[trigger] line@[k]),
                    decreases n - e,
                {
                    e = e + 1;
                }
                let f = line.substring_char(w, e).to_owned();
                proof {
                    assert(spec_word_start(line@, i + ml, w as int));
                    assert(spec_word_end(line@, w as int, e as int));
                    assert(spec_entry_at(line@, i as int));
                }
                return Some(f);
            } else {
                proof {
                    assert forall|w2: int| !spec_word_start(line@, j as int, w2) by {
                        if j < w2 < line@.len() {
                            if w == j {
                                if w < n {
                                    assert(!spec_is_space_char(line@[j as int]));
                                }
                            } else if w2 < w {
                                assert(spec_is_space_char(line@[w2]));
                            } else if w2 == w {
                                if w < n {
                                    assert(!spec_is_word_char(line@[w2]));
                                }
                            } else {
                                if w < n {
                                    assert(!spec_is_space_char(line@[w as int]));
                                    assert(!spec_is_word_char(line@[w as int]));
                                }
                            }
                        }
                    }
                    assert(!spec_entry_at(line@, i as int));
                }
            }
        } else {
            proof {
                assert(!spec_entry_at(line@, i as int));
            }
        }
        i = i + 1;
    }
    None
}

/// One choice a flag definition offers.
#[derive(Debug, Clone, PartialEq, Eq)]
pub struct FastFlagOption {
    /// Display label.
    pub label: String,
    /// The value written when the option is picked.
    pub value: String,
    /// Optional explanation.
    pub description: Option<String>,
}

/// The fixed location of the client's flag settings file.
pub fn get_fast_flags_path() -> (r: Result<String, String>)
    ensures
        r matches Ok(p) && p@
            == "/Applications/Roblox.app/Contents/MacOS/ClientSettings/ClientAppSettings.json"@,
{
    Ok("/Applications/Roblox.app/Contents/MacOS/ClientSettings/ClientAppSettings.json".to_owned())
}

/// The path of the file that records the active profile, under the
/// configuration directory `base`.
pub fn get_active_profile_file(base: &str) -> (r: String)
    ensures
        r@ == base@ + "/com.comet.dev/profiles/active_profile.json"@,
{
    let mut s = base.to_owned();
    s.append("/com.comet.dev/profiles/active_profile.json");
    s
}

/// Locates profile files within the profiles directory; reading and writing
/// them is the surrounding application's job.
pub struct FastFlagsProfileManager {
    /// The directory the profile files live in.
    pub profiles_dir: String,
}

impl FastFlagsProfileManager {
    /// A manager over the given profiles directory.
    pub fn new(profiles_dir: String) -> (r: FastFlagsProfileManager)
        ensures
            r.profiles_dir == profiles_dir,
    {
        FastFlagsProfileManager { profiles_dir }
    }

    /// The path of the file that stores the profile with identifier
    /// `profile_id`.
    pub fn profile_path(&self, profile_id: &str) -> (r: String)
        ensures
            r@ == self.profiles_dir@ + "/"@ + profile_id@ + ".json"@,
    {
        let mut s = self.profiles_dir.as_str().to_owned();
        s.append("/");
        s.append(profile_id);
        s.append(".json");
        s
    }
}

} // verus!
