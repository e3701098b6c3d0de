//! Server configuration: `KEY=VALUE` env-format parsing and the settings the
//! server reads from it.

use vstd::prelude::*;
use crate::strmap::{StrMap, upsert};
use crate::text::{
    chars_of, find_char, is_ws, lemma_find_char_at, lemma_find_char_none, lemma_split_on_concat,
    lemma_split_on_no_sep, lemma_split_on_push, lemma_trim_unchanged,
    lowercase, owned, split_on, str_eq, string_of_range, to_lowercase, trim, trim_end_char,
    trim_range,
};

verus! {

/// Declares `std::io::Error` to Verus as an opaque type, so that a
/// configuration error can carry it; nothing inside it is read.
#[verifier::external_type_specification]
#[verifier::external_body]
pub struct ExIoError(std::io::Error);

/// Settings read from an env-format file or from the environment, keyed by
/// variable name.
pub type EnvMap = StrMap<String>;

/// The map with each value taken by its characters.
pub open spec fn text_map(m: Map<Seq<char>, String>) -> Map<Seq<char>, Seq<char>> {
    Map::new(|k: Seq<char>| m.contains_key(k), |k: Seq<char>| m[k]@)
}

/// `s` without one pair of matching surrounding quotes (`"` or `'`); a string
/// shorter than two characters, or not quoted at both ends alike, is unchanged.
pub open spec fn quotes_stripped(s: Seq<char>) -> Seq<char> {
    if s.len() >= 2 && ((s[0] == '"' && s.last() == '"') || (s[0] == '\'' && s.last() == '\'')) {
        s.subrange(1, s.len() - 1)
    } else {
        s
    }
}

/// The setting one line of an env-format file holds: blank lines, lines that
/// start with `#`, lines without `=` and lines with an empty key hold none;
/// otherwise the key is the trimmed text before the first `=` and the value the
/// trimmed text after it, without surrounding quotes.
pub open spec fn env_line(line: Seq<char>) -> Option<(Seq<char>, Seq<char>)> {
    let t = trim(line);
    if t.len() == 0 || t[0] == '#' {
        None
    } else {
        match find_char(t, '=') {
            None => None,
            Some(i) => {
                let key = trim(t.take(i));
                if key.len() == 0 {
                    None
                } else {
                    Some((key, quotes_stripped(trim(t.skip(i + 1)))))
                }
            },
        }
    }
}

/// The settings a sequence of lines holds; a later line wins over an earlier
/// one with the same key.
pub open spec fn env_settings(lines: Seq<Seq<char>>) -> Map<Seq<char>, Seq<char>>
    decreases lines.len(),
{
    if lines.len() == 0 {
        Map::empty()
    } else {
        let m = env_settings(lines.drop_last());
        match env_line(lines.last()) {
            Some(kv) => m.insert(kv.0, kv.1),
            None => m,
        }
    }
}

/// The settings an env-format text holds, line by line.
pub open spec fn env_content(content: Seq<char>) -> Map<Seq<char>, Seq<char>> {
    env_settings(split_on(content, '\n'))
}

/// A setting with a fallback: the stored value when present and non-empty,
/// otherwise `default`.
pub open spec fn setting_or(m: Map<Seq<char>, String>, key: Seq<char>, default: Seq<char>) -> Seq<char> {
    if m.contains_key(key) && m[key]@.len() > 0 {
        m[key]@
    } else {
        default
    }
}

/// A setting that is empty when absent.
pub open spec fn setting(m: Map<Seq<char>, String>, key: Seq<char>) -> Seq<char> {
    if m.contains_key(key) {
        m[key]@
    } else {
        Seq::empty()
    }
}

proof fn lemma_env_settings_concat(xs: Seq<Seq<char>>, ys: Seq<Seq<char>>)
    ensures
        env_settings(xs + ys) == env_settings(xs).union_prefer_right(env_settings(ys)),
    decreases ys.len(),
{
    if ys.len() == 0 {
        assert(xs + ys =~= xs);
        assert(env_settings(xs).union_prefer_right(env_settings(ys)) =~= env_settings(xs));
    } else {
        lemma_env_settings_concat(xs, ys.drop_last());
        assert((xs + ys).drop_last() =~= xs + ys.drop_last());
        assert((xs + ys).last() == ys.last());
        let m = env_settings(xs);
        let n = env_settings(ys.drop_last());
        match env_line(ys.last()) {
            Some(kv) => {
                assert(m.union_prefer_right(n).insert(kv.0, kv.1) =~= m.union_prefer_right(n.insert(kv.0, kv.1)));
            },
            None => {},
        }
    }
}

/// A later part of an env-format text wins: the settings of `a`, a line
/// break, then `b` are those of `a` overridden by those of `b`.
pub proof fn law_env_later_text_wins(a: Seq<char>, b: Seq<char>)
    ensures
        env_content(a + seq!['\n'] + b) == env_content(a).union_prefer_right(env_content(b)),
{
    lemma_split_on_concat(a, b, '\n');
    lemma_env_settings_concat(split_on(a, '\n'), split_on(b, '\n'));
}

/// A blank line or a comment line (one whose first non-blank character is
/// `#`) adds nothing: the settings after it are those of the rest.
pub proof fn law_env_skips_blank_and_comment_lines(line: Seq<char>, rest: Seq<char>)
    requires
        !line.contains('\n'),
        trim(line).len() == 0 || trim(line)[0] == '#',
    ensures
        env_content(line + seq!['\n'] + rest) == env_content(rest),
{
    law_env_later_text_wins(line, rest);
    lemma_split_on_no_sep(line, '\n');
    let ls = split_on(line, '\n');
    assert(ls.drop_last() =~= Seq::<Seq<char>>::empty());
    assert(env_settings(ls.drop_last()) == Map::<Seq<char>, Seq<char>>::empty());
    assert(ls.last() == line);
    assert(env_content(line) == Map::<Seq<char>, Seq<char>>::empty());
    assert(Map::<Seq<char>, Seq<char>>::empty().union_prefer_right(env_content(rest)) =~= env_content(rest));
}

/// A `KEY=VALUE` line reads back as its key and its value: for a key that is
/// non-empty, has no `=`, does not start with `#` and neither begins nor ends
/// with whitespace, and a value that neither begins nor ends with whitespace
/// (neither with a line break in it), the text holds exactly that key, set to
/// the value without surrounding quotes.
pub proof fn law_env_line_reads_back(key: Seq<char>, value: Seq<char>)
    requires
        key.len() > 0,
        !is_ws(key[0]) && !is_ws(key.last()),
        key[0] != '#',
        !key.contains('='),
        !key.contains('\n'),
        !value.contains('\n'),
        value.len() > 0 ==> !is_ws(value[0]) && !is_ws(value.last()),
    ensures
        env_content(key + seq!['='] + value) == Map::<Seq<char>, Seq<char>>::empty().insert(
            key,
            quotes_stripped(value),
        ),
{
    let line = key + seq!['='] + value;
    assert(!line.contains('\n')) by {
        if line.contains('\n') {
            let i = choose|i: int| 0 <= i < line.len() && line[i] == '\n';
            if i < key.len() {
                assert(key[i] == '\n');
            } else if i > key.len() {
                assert(value[i - key.len() - 1] == '\n');
            }
        }
    }
    lemma_split_on_no_sep(line, '\n');
    let ls = split_on(line, '\n');
    assert(ls.drop_last() =~= Seq::<Seq<char>>::empty());
    assert(env_settings(ls.drop_last()) == Map::<Seq<char>, Seq<char>>::empty());
    assert(ls.last() == line);
    assert(line[0] == key[0]);
    assert(line.last() == if value.len() > 0 { value.last() } else { '=' });
    lemma_trim_unchanged(line);
    assert forall|j: int| 0 <= j < key.len() implies line[j] != '=' by {
        assert(line[j] == key[j]);
    }
    lemma_find_char_at(line, '=', key.len() as int);
    assert(line.take(key.len() as int) =~= key);
    assert(line.skip(key.len() as int + 1) =~= value);
    lemma_trim_unchanged(key);
    lemma_trim_unchanged(value);
    assert(env_line(line) == Some((key, quotes_stripped(value))));
}

/// The base URL never ends with a slash, and stripping again changes nothing.
pub proof fn law_base_url_without_trailing_slash(endpoint: Seq<char>)
    ensures
        trim_end_char(endpoint, '/').len() > 0 ==> trim_end_char(endpoint, '/').last() != '/',
        trim_end_char(trim_end_char(endpoint, '/'), '/') == trim_end_char(endpoint, '/'),
    decreases endpoint.len(),
{
    if endpoint.len() > 0 && endpoint.last() == '/' {
        law_base_url_without_trailing_slash(endpoint.drop_last());
    }
}

/// Errors while loading the configuration.
#[derive(Debug)]
pub enum ConfigError {
    /// Reading the config file failed.
    Io(std::io::Error),
}

/// Connection settings of the server.
#[derive(Debug, Clone)]
pub struct Config {
    pub endpoint: String,
    pub api_key: String,
    pub api_key_db: String,
    pub favorites_only: bool,
}

/// Whether a lowercased `FAVORITES_ONLY` value keeps resource browsing
/// restricted to favorites: anything but `false` does.
pub fn favorites_flag(lowered: &str) -> (r: bool)
    ensures
        r == (lowered@ != "false"@),
{
    !str_eq(lowered, "false")
}

impl Config {
    /// Builds the configuration from a map of settings. `STASH_HOST` defaults to
    /// `http://localhost:9999` when missing or empty; the API keys default to
    /// empty; `FAVORITES_ONLY` (default `true`) is off only for a
    /// case-insensitive `false`.
    pub fn from_map(map: EnvMap) -> (r: Result<Config, ConfigError>)
        requires
            map.wf(),
        ensures
            r is Ok,
            r matches Ok(cfg) ==> {
                &&& cfg.endpoint@ == setting_or(map@, "STASH_HOST"@, "http://localhost:9999"@)
                &&& cfg.api_key@ == setting(map@, "STASH_API_KEY"@)
                &&& cfg.api_key_db@ == setting(map@, "STASH_DB_API_KEY"@)
                &&& cfg.favorites_only == (lowercase(setting_or(map@, "FAVORITES_ONLY"@, "true"@)) != "false"@)
            },
    {
        let endpoint = Self::get_or(&map, "STASH_HOST", "http://localhost:9999");
        let api_key = Self::get_or_empty(&map, "STASH_API_KEY");
        let api_key_db = Self::get_or_empty(&map, "STASH_DB_API_KEY");
        let fav = Self::get_or(&map, "FAVORITES_ONLY", "true");
        let lowered = to_lowercase(fav.as_str());
        let favorites_only = favorites_flag(lowered.as_str());
        Ok(Config { endpoint, api_key, api_key_db, favorites_only })
    }

    fn get_or(map: &EnvMap, key: &str, default: &str) -> (r: String)
        requires
            map.wf(),
        ensures
            r@ == setting_or(map@, key@, default@),
    {
        match map.get(key) {
            Some(v) => {
                if v.as_str().is_empty() {
                    owned(default)
                } else {
                    v.clone()
                }
            },
            None => owned(default),
        }
    }

    fn get_or_empty(map: &EnvMap, key: &str) -> (r: String)
        requires
            map.wf(),
        ensures
            r@ == setting(map@, key@),
    {
        match map.get(key) {
            Some(v) => v.clone(),
            None => String::new(),
        }
    }

    /// The endpoint without trailing slashes.
    pub fn base_url(&self) -> (r: String)
        ensures
            r@ == trim_end_char(self.endpoint@, '/'),
    {
        let v = chars_of(self.endpoint.as_str());
        let mut end: usize = v.len();
        assert(v@.take(end as int) =~= v@);
        while end > 0 && v[end - 1] == '/'
            invariant
                end <= v.len(),
                trim_end_char(v@, '/') == trim_end_char(v@.take(end as int), '/'),
            decreases end,
        {
            assert(v@.take(end as int).drop_last() =~= v@.take(end - 1));
            end -= 1;
        }
        assert(v@.take(end as int) =~= v@.subrange(0, end as int));
        string_of_range(&v, 0, end)
    }

    /// The GraphQL endpoint: the base URL followed by `/graphql`.
    pub fn graphql_url(&self) -> (r: String)
        ensures
            r@ == trim_end_char(self.endpoint@, '/') + "/graphql"@,
    {
        let mut r = self.base_url();
        r.append("/graphql");
        r
    }

    /// The web page of the performer with the given id.
    pub fn performer_url(&self, id: &str) -> (r: String)
        ensures
            r@ == trim_end_char(self.endpoint@, '/') + "/performers/"@ + id@,
    {
        let mut r = self.base_url();
        r.append("/performers/");
        r.append(id);
        r
    }

    /// The web page of the scene with the given id.
    pub fn scene_url(&self, id: &str) -> (r: String)
        ensures
            r@ == trim_end_char(self.endpoint@, '/') + "/scenes/"@ + id@,
    {
        let mut r = self.base_url();
        r.append("/scenes/");
        r.append(id);
        r
    }
}

/// Removes one pair of matching surrounding quotes (`"` or `'`).
pub fn strip_quotes(s: &str) -> (r: &str)
    ensures
        r@ == quotes_stripped(s@),
{
    let n = s.unicode_len();
    if n >= 2 {
        let first = s.get_char(0);
        let last = s.get_char(n - 1);
        if (first == '"' && last == '"') || (first == '\'' && last == '\'') {
            return s.substring_char(1, n - 1);
        }
    }
    s
}

/// Adds the setting of the line `chars[lo..hi]`, if it holds one.
fn add_env_line(map: &mut EnvMap, chars: &Vec<char>, lo: usize, hi: usize)
    requires
        old(map).wf(),
        lo <= hi <= chars.len(),
    ensures
        final(map).wf(),
        text_map(final(map)@) == match env_line(chars@.subrange(lo as int, hi as int)) {
            Some(kv) => text_map(old(map)@).insert(kv.0, kv.1),
            None => text_map(old(map)@),
        },
{
    let ghost line = chars@.subrange(lo as int, hi as int);
    let (a, b) = trim_range(chars, lo, hi);
    let ghost t = chars@.subrange(a as int, b as int);
    assert(t == trim(line));
    if a == b || chars[a] == '#' {
        return;
    }
    let mut e: usize = a;
    while e < b && chars[e] != '='
        invariant
            a <= e <= b <= chars.len(),
            t == chars@.subrange(a as int, b as int),
            forall|j: int| 0 <= j < e - a ==> t[j] != '=',
        decreases b - e,
    {
        e += 1;
    }
    if e == b {
        proof {
            lemma_find_char_none(t, '=');
        }
        return;
    }
    proof {
        lemma_find_char_at(t, '=', e - a);
        assert(t.take(e - a) =~= chars@.subrange(a as int, e as int));
        assert(t.skip(e - a + 1) =~= chars@.subrange(e + 1, b as int));
    }
    let (ka, kb) = trim_range(chars, a, e);
    if ka == kb {
        return;
    }
    let (va, vb) = trim_range(chars, e + 1, b);
    let ghost v = chars@.subrange(va as int, vb as int);
    let (qa, qb) = if vb - va >= 2 && ((chars[va] == '"' && chars[vb - 1] == '"') || (chars[va]
        == '\'' && chars[vb - 1] == '\'')) {
        (va + 1, vb - 1)
    } else {
        (va, vb)
    };
    assert(chars@.subrange(qa as int, qb as int) == quotes_stripped(v)) by {
        if vb - va >= 2 && ((v[0] == '"' && v.last() == '"') || (v[0] == '\'' && v.last() == '\'')) {
            assert(v.subrange(1, v.len() - 1) =~= chars@.subrange(qa as int, qb as int));
        }
    }
    let key = string_of_range(chars, ka, kb);
    let value = string_of_range(chars, qa, qb);
    let ghost before = map@;
    map.insert(key, value);
    assert(text_map(map@) =~= text_map(before).insert(key@, value@));
}

/// Parses a `KEY=VALUE` env-format file: blank lines and lines starting with
/// `#` are skipped, keys and values are trimmed, surrounding single or double
/// quotes are removed from values, and only the first `=` splits, so values
/// may contain `=`. A later line wins over an earlier one with the same key.
pub fn parse_env_content(content: &str) -> (r: EnvMap)
    ensures
        r.wf(),
        text_map(r@) == env_content(content@),
{
    let chars = chars_of(content);
    let mut map: EnvMap = StrMap::new();
    let mut ls: usize = 0;
    let mut i: usize = 0;
    let ghost mut done: Seq<Seq<char>> = Seq::empty();
    assert(chars@.take(0) =~= Seq::<char>::empty());
    assert(text_map(map@) =~= env_settings(done));
    assert(split_on(chars@.take(0), '\n') =~= done.push(chars@.subrange(0, 0)));
    while i < chars.len()
        invariant
            ls <= i <= chars.len(),
            map.wf(),
            split_on(chars@.take(i as int), '\n') == done.push(chars@.subrange(ls as int, i as int)),
            text_map(map@) == env_settings(done),
        decreases chars.len() - i,
    {
        proof {
            lemma_split_on_push(chars@.take(i as int), '\n', chars@[i as int]);
            assert(chars@.take(i + 1) =~= chars@.take(i as int).push(chars@[i as int]));
        }
        if chars[i] == '\n' {
            add_env_line(&mut map, &chars, ls, i);
            proof {
                let line = chars@.subrange(ls as int, i as int);
                assert(done.push(line).drop_last() =~= done);
                done = done.push(line);
                assert(chars@.subrange(i + 1, i + 1) =~= Seq::<char>::empty());
            }
            ls = i + 1;
        } else {
            proof {
                let prev = done.push(chars@.subrange(ls as int, i as int));
                assert(chars@.subrange(ls as int, i + 1) =~= chars@.subrange(ls as int, i as int).push(chars@[i as int]));
                assert(prev.update(prev.len() - 1, prev.last().push(chars@[i as int])) =~= done.push(
                    chars@.subrange(ls as int, i + 1),
                ));
            }
        }
        i += 1;
    }
    add_env_line(&mut map, &chars, ls, chars.len());
    proof {
        let line = chars@.subrange(ls as int, chars.len() as int);
        assert(chars@.take(chars.len() as int) =~= chars@);
        assert(done.push(line).drop_last() =~= done);
    }
    map
}

} // verus!
