//! Workspace layout: package identities and the names that manifests give
//! to packages.  Reading manifests from disk and walking the workspace is
//! left to the caller; what is decided from their contents is here.
use vstd::prelude::*;

use crate::coordination::{ids_view, opt_str_view};
use crate::text::{
    chars_of, find_char_from, find_char_in, find_from, find_seq, lemma_find_from_found,
    skip_white_space,
    str_eq, string_of_chars, trim_range, trim_start_view, trim_view,
};

verus! {

/// ASCII letters and digits.
pub open spec fn is_ascii_alnum(c: char) -> bool {
    ('a' <= c && c <= 'z') || ('A' <= c && c <= 'Z') || ('0' <= c && c <= '9')
}

/// `c` with an ASCII capital letter made small; other characters unchanged.
pub open spec fn ascii_lower(c: char) -> char {
    if 'A' <= c && c <= 'Z' {
        ((c as u32) + 32) as char
    } else {
        c
    }
}

pub fn lower_ascii_char(c: char) -> (r: char)
    ensures
        r == ascii_lower(c),
{
    if 'A' <= c && c <= 'Z' {
        let b: u8 = c as u8;
        (b + 32) as char
    } else {
        c
    }
}

fn is_alnum_char(c: char) -> (r: bool)
    ensures
        r == is_ascii_alnum(c),
{
    ('a' <= c && c <= 'z') || ('A' <= c && c <= 'Z') || ('0' <= c && c <= '9')
}

/// The characters of `s` folded into an identifier, and whether it ends in
/// a separator: letters and digits are kept (made small), and every run of
/// other characters becomes one `_`.
pub open spec fn collapsed(s: Seq<char>) -> (Seq<char>, bool)
    decreases s.len(),
{
    if s.len() == 0 {
        (Seq::empty(), false)
    } else {
        let (out, separated) = collapsed(s.drop_last());
        let c = ascii_lower(s.last());
        if is_ascii_alnum(c) {
            (out.push(c), false)
        } else if !separated {
            (out.push('_'), true)
        } else {
            (out, true)
        }
    }
}

/// `s` without its leading `c`s.
pub open spec fn strip_leading(s: Seq<char>, c: char) -> Seq<char>
    decreases s.len(),
{
    if s.len() > 0 && s[0] == c {
        strip_leading(s.drop_first(), c)
    } else {
        s
    }
}

/// `s` without its trailing `c`s.
pub open spec fn strip_trailing(s: Seq<char>, c: char) -> Seq<char>
    decreases s.len(),
{
    if s.len() > 0 && s.last() == c {
        strip_trailing(s.drop_last(), c)
    } else {
        s
    }
}

/// The identifier a package or workspace name normalizes to: the collapsed
/// form without leading or trailing `_`, or `workspace` when nothing is left.
pub open spec fn normalized_identifier(s: Seq<char>) -> Seq<char> {
    let t = strip_trailing(strip_leading(collapsed(s).0, '_'), '_');
    if t.len() == 0 {
        "workspace"@
    } else {
        t
    }
}

/// A character an identifier may hold: `_`, or a small ASCII letter or digit.
pub open spec fn identifier_char(c: char) -> bool {
    c == '_' || (is_ascii_alnum(c) && ascii_lower(c) == c)
}

/// Identifier characters only, and never two `_` in a row.
pub open spec fn identifier_shaped(u: Seq<char>) -> bool {
    &&& forall|i: int| 0 <= i < u.len() ==> identifier_char(#[trigger] u[i])
    &&& forall|i: int| 0 <= i < u.len() - 1 ==> !(#[trigger] u[i] == '_' && u[i + 1] == '_')
}

/// The range `[lo, hi)` of `v` that remains once the leading and trailing
/// `c`s are taken off.
fn strip_bounds(v: &Vec<char>, c: char) -> (r: (usize, usize))
    ensures
        r.0 <= r.1 <= v@.len(),
        v@.subrange(r.0 as int, r.1 as int) == strip_trailing(strip_leading(v@, c), c),
{
    let n = v.len();
    let mut lo: usize = 0;
    assert(v@.subrange(0, n as int) =~= v@);
    while lo < n && v[lo] == c
        invariant
            n == v@.len(),
            lo <= n,
            strip_leading(v@, c) == strip_leading(v@.subrange(lo as int, n as int), c),
        decreases n - lo,
    {
        proof {
            let s = v@.subrange(lo as int, n as int);
            assert(s.drop_first() =~= v@.subrange(lo + 1, n as int));
            assert(s[0] == c);
        }
        lo = lo + 1;
    }
    proof {
        let s = v@.subrange(lo as int, n as int);
        assert(!(s.len() > 0 && s[0] == c));
        assert(strip_leading(s, c) == s);
    }
    let mut hi: usize = n;
    while hi > lo && v[hi - 1] == c
        invariant
            n == v@.len(),
            lo <= hi <= n,
            strip_trailing(strip_leading(v@, c), c) == strip_trailing(
                v@.subrange(lo as int, hi as int),
                c,
            ),
        decreases hi - lo,
    {
        proof {
            let s = v@.subrange(lo as int, hi as int);
            assert(s.drop_last() =~= v@.subrange(lo as int, hi - 1));
            assert(s.last() == c);
        }
        hi = hi - 1;
    }
    proof {
        let s = v@.subrange(lo as int, hi as int);
        assert(!(s.len() > 0 && s.last() == c));
    }
    (lo, hi)
}

/// Normalizes a package or workspace name into an identifier: ASCII letters
/// and digits made small, every run of other characters turned into one
/// `_`, leading and trailing `_` removed, and `workspace` if nothing is left.
pub fn normalize_identifier(value: &str) -> (r: String)
    ensures
        r@ == normalized_identifier(value@),
{
    let chars = chars_of(value);
    let mut normalized: Vec<char> = Vec::new();
    let mut previous_underscore = false;
    let mut i: usize = 0;
    while i < chars.len()
        invariant
            chars@ == value@,
            i <= chars@.len(),
            (normalized@, previous_underscore) == collapsed(chars@.subrange(0, i as int)),
        decreases chars@.len() - i,
    {
        proof {
            assert(chars@.subrange(0, i + 1).drop_last() =~= chars@.subrange(0, i as int));
        }
        let ch = lower_ascii_char(chars[i]);
        if is_alnum_char(ch) {
            normalized.push(ch);
            previous_underscore = false;
        } else if !previous_underscore {
            normalized.push('_');
            previous_underscore = true;
        }
        i = i + 1;
    }
    proof {
        assert(chars@.subrange(0, chars@.len() as int) =~= chars@);
    }
    let (lo, hi) = strip_bounds(&normalized, '_');
    if lo == hi {
        String::from_str("workspace")
    } else {
        string_of_chars(&normalized.as_slice()[lo..hi])
    }
}


// ---------------------------------------------------------------------------
// setup.cfg
// ---------------------------------------------------------------------------
/// Whether `a` equals `b` once ASCII capitals are made small.
pub open spec fn eq_ignore_ascii_case(a: Seq<char>, b: Seq<char>) -> bool {
    a.len() == b.len() && forall|i: int|
        0 <= i < a.len() ==> ascii_lower(#[trigger] a[i]) == ascii_lower(b[i])
}

/// Whether `v[lo..hi]` equals `lit` once ASCII capitals are made small.
fn eq_ignore_ascii_case_range(v: &Vec<char>, lo: usize, hi: usize, lit: &str) -> (r: bool)
    requires
        lo <= hi <= v@.len(),
    ensures
        r == eq_ignore_ascii_case(v@.subrange(lo as int, hi as int), lit@),
{
    let l = chars_of(lit);
    if hi - lo != l.len() {
        return false;
    }
    let ghost t = v@.subrange(lo as int, hi as int);
    let mut i: usize = 0;
    while i < l.len()
        invariant
            lo <= hi <= v@.len(),
            hi - lo == l@.len(),
            l@ == lit@,
            t == v@.subrange(lo as int, hi as int),
            i <= l@.len(),
            forall|j: int| 0 <= j < i ==> ascii_lower(#[trigger] t[j]) == ascii_lower(l@[j]),
        decreases l@.len() - i,
    {
        assert(t[i as int] == v@[lo + i]);
        if lower_ascii_char(v[lo + i]) != lower_ascii_char(l[i]) {
            return false;
        }
        i = i + 1;
    }
    true
}

/// The index of the first newline at or after `i`, or the length of `s`.
pub open spec fn next_newline(s: Seq<char>, i: int) -> int
    decreases s.len() - i,
{
    if i < 0 || i >= s.len() {
        s.len() as int
    } else if s[i] == '\n' {
        i
    } else {
        next_newline(s, i + 1)
    }
}

pub proof fn lemma_next_newline_bounds(s: Seq<char>, i: int)
    requires
        0 <= i <= s.len(),
    ensures
        i <= next_newline(s, i) <= s.len(),
    decreases s.len() - i,
{
    if i < s.len() && s[i] != '\n' {
        lemma_next_newline_bounds(s, i + 1);
    }
}

/// Whether a trimmed line opens a section: `[` first and `]` last.
pub open spec fn is_section_header(t: Seq<char>) -> bool {
    t.len() > 0 && t[0] == '[' && t.last() == ']'
}

/// The name a trimmed `key = value` line gives: its value, trimmed, when the
/// key before the first `=` is `name` in any case and the value is not empty.
pub open spec fn cfg_name_entry(t: Seq<char>) -> Option<Seq<char>> {
    match find_char_from(t, '=', 0) {
        Some(k) => {
            let value = trim_view(t.subrange(k + 1, t.len() as int));
            if eq_ignore_ascii_case(trim_view(t.subrange(0, k)), "name"@) && value.len() > 0 {
                Some(value)
            } else {
                None
            }
        },
        None => None,
    }
}

/// The package name in a `setup.cfg` text, reading its lines from the one
/// that starts at `start`: the first `name` entry inside a `[metadata]`
/// section (the section name in any case).
pub open spec fn cfg_name_scan(s: Seq<char>, start: int, in_metadata: bool) -> Option<Seq<char>>
    decreases s.len() - start,
{
    if start < 0 || start > s.len() {
        None
    } else {
        let end = next_newline(s, start);
        let t = trim_view(s.subrange(start, end));
        let found = if !is_section_header(t) && in_metadata {
            cfg_name_entry(t)
        } else {
            None
        };
        let next_in_metadata = if is_section_header(t) {
            eq_ignore_ascii_case(t, "[metadata]"@)
        } else {
            in_metadata
        };
        if found is Some {
            found
        } else if end >= s.len() {
            None
        } else {
            proof {
                lemma_next_newline_bounds(s, start);
            }
            cfg_name_scan(s, end + 1, next_in_metadata)
        }
    }
}

/// The name given by the trimmed line `v[a..b]`, as `cfg_name_entry` says.
fn cfg_name_entry_range(v: &Vec<char>, a: usize, b: usize) -> (r: Option<String>)
    requires
        a <= b <= v@.len(),
    ensures
        opt_str_view(r) == cfg_name_entry(v@.subrange(a as int, b as int)),
{
    let ghost t = v@.subrange(a as int, b as int);
    match find_char_in(v, '=', a, b) {
        Some(k) => {
            proof {
                assert(t.subrange(0, k - a) =~= v@.subrange(a as int, k as int));
                assert(t.subrange(k - a + 1, t.len() as int) =~= v@.subrange(k + 1, b as int));
            }
            let (ka, kb) = trim_range(v, a, k);
            let (va, vb) = trim_range(v, k + 1, b);
            if eq_ignore_ascii_case_range(v, ka, kb, "name") && va < vb {
                Some(string_of_chars(&v.as_slice()[va..vb]))
            } else {
                None
            }
        },
        None => None,
    }
}

/// The package name a `setup.cfg` gives: the first `name = value` entry with
/// a non-empty value inside a `[metadata]` section (section name and key in
/// any case, both sides trimmed).
pub fn setup_cfg_package_name(config: &str) -> (r: Option<String>)
    ensures
        opt_str_view(r) == cfg_name_scan(config@, 0, false),
{
    let v = chars_of(config);
    let n = v.len();
    let mut start: usize = 0;
    let mut in_metadata = false;
    loop
        invariant
            n == v@.len(),
            v@ == config@,
            start <= n,
            cfg_name_scan(config@, 0, false) == cfg_name_scan(config@, start as int, in_metadata),
        decreases n - start,
    {
        let mut end: usize = start;
        while end < n && v[end] != '\n'
            invariant
                n == v@.len(),
                start <= end <= n,
                next_newline(v@, start as int) == next_newline(v@, end as int),
            decreases n - end,
        {
            end = end + 1;
        }
        let (a, b) = trim_range(&v, start, end);
        let header = a < b && v[a] == '[' && v[b - 1] == ']';
        proof {
            let t = v@.subrange(a as int, b as int);
            if t.len() > 0 {
                assert(t[0] == v@[a as int]);
                assert(t.last() == v@[b - 1]);
            }
        }
        if header {
            in_metadata = eq_ignore_ascii_case_range(&v, a, b, "[metadata]");
        } else if in_metadata {
            match cfg_name_entry_range(&v, a, b) {
                Some(name) => {
                    return Some(name);
                },
                None => {},
            }
        }
        if end >= n {
            return None;
        }
        start = end + 1;
    }
}


// ---------------------------------------------------------------------------
// setup.py
// ---------------------------------------------------------------------------
/// What looking for `pattern` in a `setup.py` source decides: `None` to go
/// on with the next pattern, `Some(r)` to answer `r`.  After the first
/// occurrence of the pattern and any white space must come a quote (`"` or
/// `'`), else the next pattern is tried; the answer is the text up to the
/// matching quote, or nothing when the source ends first.
pub open spec fn keyword_attempt(s: Seq<char>, pattern: Seq<char>) -> Option<Option<Seq<char>>> {
    match find_from(s, pattern, 0) {
        None => None,
        Some(i) => {
            let rem = trim_start_view(s.subrange(i + pattern.len(), s.len() as int));
            if rem.len() == 0 {
                Some(None)
            } else if rem[0] != '"' && rem[0] != '\'' {
                None
            } else {
                let body = rem.subrange(1, rem.len() as int);
                match find_char_from(body, rem[0], 0) {
                    Some(e) => Some(Some(body.subrange(0, e))),
                    None => Some(None),
                }
            }
        },
    }
}

/// The quoted value given to keyword `key` in a `setup.py` source, looked
/// up as `key=` and then as `key =`.
pub open spec fn setup_py_keyword(s: Seq<char>, key: Seq<char>) -> Option<Seq<char>> {
    match keyword_attempt(s, key.push('=')) {
        Some(r) => r,
        None => match keyword_attempt(s, key + seq![' ', '=']) {
            Some(r) => r,
            None => None,
        },
    }
}

fn keyword_attempt_exec(v: &Vec<char>, pattern: &Vec<char>) -> (r: Option<Option<String>>)
    ensures
        match r {
            None => keyword_attempt(v@, pattern@) is None,
            Some(x) => keyword_attempt(v@, pattern@) == Some(opt_str_view(x)),
        },
{
    let n = v.len();
    match find_seq(v, pattern) {
        None => None,
        Some(i) => {
            proof {
                lemma_find_from_found(v@, pattern@, 0, i as int);
            }
            let start = i + pattern.len();
            let a = skip_white_space(v, start, n);
            let ghost rem = v@.subrange(a as int, n as int);
            if a == n {
                return Some(None);
            }
            assert(rem[0] == v@[a as int]);
            let q = v[a];
            if q != '"' && q != '\'' {
                return None;
            }
            proof {
                assert(rem.subrange(1, rem.len() as int) =~= v@.subrange(a + 1, n as int));
            }
            match find_char_in(v, q, a + 1, n) {
                Some(e) => {
                    proof {
                        assert(rem.subrange(1, rem.len() as int).subrange(0, e - (a + 1))
                            =~= v@.subrange(a + 1, e as int));
                    }
                    Some(Some(string_of_chars(&v.as_slice()[a + 1..e])))
                },
                None => Some(None),
            }
        },
    }
}

/// The quoted value given to keyword `key` in a `setup.py` source.
pub fn extract_setup_py_keyword(source: &str, key: &str) -> (r: Option<String>)
    ensures
        opt_str_view(r) == setup_py_keyword(source@, key@),
{
    let v = chars_of(source);
    let mut first = chars_of(key);
    first.push('=');
    match keyword_attempt_exec(&v, &first) {
        Some(r) => {
            return r;
        },
        None => {},
    }
    let mut second = chars_of(key);
    second.push(' ');
    second.push('=');
    assert(second@ =~= key@ + seq![' ', '=']);
    match keyword_attempt_exec(&v, &second) {
        Some(r) => r,
        None => None,
    }
}

/// The package name a `setup.py` gives: its `name` keyword.
pub fn setup_py_package_name(source: &str) -> (r: Option<String>)
    ensures
        opt_str_view(r) == setup_py_keyword(source@, "name"@),
{
    extract_setup_py_keyword(source, "name")
}


// ---------------------------------------------------------------------------
// Manifests
// ---------------------------------------------------------------------------
pub open spec fn opt_name_view(o: Option<&str>) -> Option<Seq<char>> {
    match o {
        Some(s) => Some(s@),
        None => None,
    }
}

/// Whether a file name is that of a Python project manifest.
pub open spec fn python_manifest_name(name: Option<Seq<char>>) -> bool {
    match name {
        Some(n) => n == "pyproject.toml"@ || n == "setup.py"@ || n == "setup.cfg"@,
        None => false,
    }
}

/// Whether a file with this name is a Python project manifest
/// (`pyproject.toml`, `setup.py` or `setup.cfg`).
pub fn is_python_manifest(file_name: Option<&str>) -> (r: bool)
    ensures
        r == python_manifest_name(opt_name_view(file_name)),
{
    match file_name {
        Some(n) => str_eq(n, "pyproject.toml") || str_eq(n, "setup.py") || str_eq(n, "setup.cfg"),
        None => false,
    }
}

/// The kinds of manifest a package name is read from.
#[derive(Debug, Clone, Copy, PartialEq, Eq, Structural)]
pub enum ManifestKind {
    CargoToml,
    PyprojectToml,
    SetupCfg,
    SetupPy,
}

pub open spec fn manifest_kind_of(name: Option<Seq<char>>) -> Option<ManifestKind> {
    match name {
        Some(n) => if n == "Cargo.toml"@ {
            Some(ManifestKind::CargoToml)
        } else if n == "pyproject.toml"@ {
            Some(ManifestKind::PyprojectToml)
        } else if n == "setup.cfg"@ {
            Some(ManifestKind::SetupCfg)
        } else if n == "setup.py"@ {
            Some(ManifestKind::SetupPy)
        } else {
            None
        },
        None => None,
    }
}

/// The kind of manifest a file with this name is, if any.
pub fn manifest_kind(file_name: Option<&str>) -> (r: Option<ManifestKind>)
    ensures
        r == manifest_kind_of(opt_name_view(file_name)),
{
    match file_name {
        Some(n) => if str_eq(n, "Cargo.toml") {
            Some(ManifestKind::CargoToml)
        } else if str_eq(n, "pyproject.toml") {
            Some(ManifestKind::PyprojectToml)
        } else if str_eq(n, "setup.cfg") {
            Some(ManifestKind::SetupCfg)
        } else if str_eq(n, "setup.py") {
            Some(ManifestKind::SetupPy)
        } else {
            None
        },
        None => None,
    }
}

/// The string that `toml::from_str` parsing `text` into a `toml::Value`
/// holds under the keys of `path`, each key looked up in the table the one
/// before it found: `Err` with the parser's message when `text` is no TOML
/// document, `Ok(None)` when a key is missing, leads into no table, or the
/// value found is no string.
pub uninterp spec fn parsed_toml_string(text: Seq<char>, path: Seq<Seq<char>>) -> Result<
    Option<Seq<char>>,
    Seq<char>,
>;

pub open spec fn lookup_view(r: Result<Option<String>, String>) -> Result<
    Option<Seq<char>>,
    Seq<char>,
> {
    match r {
        Ok(o) => Ok(opt_str_view(o)),
        Err(e) => Err(e@),
    }
}

/// Parses `text` with `toml::from_str` into a `toml::Value`, follows the
/// keys of `path` with `toml::Value::get` and reads the value found with
/// `toml::Value::as_str`; the parser's error becomes its message.  The
/// contract claims only that the result is `parsed_toml_string` of the
/// text and the path.
#[verifier::external_body]
fn toml_string_at(text: &str, path: &Vec<String>) -> (r: Result<Option<String>, String>)
    ensures
        lookup_view(r) == parsed_toml_string(text@, ids_view(path@)),
{
    let value: toml::Value = match toml::from_str(text) {
        Ok(value) => value,
        Err(error) => return Err(error.to_string()),
    };
    let mut found: Option<&toml::Value> = Some(&value);
    for key in path.iter() {
        found = match found {
            Some(table) => table.get(key.as_str()),
            None => None,
        };
    }
    Ok(found.and_then(toml::Value::as_str).map(String::from))
}

fn key_path(keys: &[&str]) -> (r: Vec<String>)
    ensures
        r@.len() == keys@.len(),
        forall|i: int| 0 <= i < keys@.len() ==> #[trigger] r@[i]@ == keys@[i]@,
{
    let mut r: Vec<String> = Vec::new();
    let mut i: usize = 0;
    while i < keys.len()
        invariant
            i <= keys@.len(),
            r@.len() == i,
            forall|j: int| 0 <= j < i ==> #[trigger] r@[j]@ == keys@[j]@,
        decreases keys@.len() - i,
    {
        r.push(String::from_str(keys[i]));
        i = i + 1;
    }
    r
}

/// The package name a manifest of kind `kind` with text `text` gives:
/// `package.name` of a Cargo manifest; `project.name`, else
/// `tool.poetry.name`, of a pyproject (a parse error is the error); the
/// metadata name of a `setup.cfg`; the `name` keyword of a `setup.py`.
pub open spec fn manifest_name_from_text(kind: ManifestKind, text: Seq<char>) -> Result<
    Option<Seq<char>>,
    Seq<char>,
> {
    match kind {
        ManifestKind::CargoToml => parsed_toml_string(text, seq!["package"@, "name"@]),
        ManifestKind::PyprojectToml => match parsed_toml_string(text, seq!["project"@, "name"@]) {
            Ok(Some(n)) => Ok(Some(n)),
            Ok(None) => parsed_toml_string(text, seq!["tool"@, "poetry"@, "name"@]),
            Err(e) => Err(e),
        },
        ManifestKind::SetupCfg => Ok(cfg_name_scan(text, 0, false)),
        ManifestKind::SetupPy => Ok(setup_py_keyword(text, "name"@)),
    }
}

/// The package name a manifest of kind `kind` with text `text` gives, as
/// `manifest_name_from_text` says.
pub fn manifest_package_name_from_text(kind: ManifestKind, text: &str) -> (r: Result<
    Option<String>,
    String,
>)
    ensures
        lookup_view(r) == manifest_name_from_text(kind, text@),
{
    match kind {
        ManifestKind::CargoToml => {
            let path = key_path(&["package", "name"]);
            proof {
                assert(ids_view(path@) =~= seq!["package"@, "name"@]);
            }
            toml_string_at(text, &path)
        },
        ManifestKind::PyprojectToml => {
            let project = key_path(&["project", "name"]);
            proof {
                assert(ids_view(project@) =~= seq!["project"@, "name"@]);
            }
            match toml_string_at(text, &project) {
                Ok(Some(name)) => Ok(Some(name)),
                Ok(None) => {
                    let poetry = key_path(&["tool", "poetry", "name"]);
                    proof {
                        assert(ids_view(poetry@) =~= seq!["tool"@, "poetry"@, "name"@]);
                    }
                    toml_string_at(text, &poetry)
                },
                Err(e) => Err(e),
            }
        },
        ManifestKind::SetupCfg => Ok(setup_cfg_package_name(text)),
        ManifestKind::SetupPy => Ok(setup_py_package_name(text)),
    }
}

/// The package name the manifest named `file_name` gives, its text being
/// `text` (none when the file does not exist): none for a file that is no
/// manifest or does not exist, else what `manifest_name_from_text` says.
pub fn package_name_for_manifest(file_name: Option<&str>, text: Option<&str>) -> (r: Result<
    Option<String>,
    String,
>)
    ensures
        lookup_view(r) == match (manifest_kind_of(opt_name_view(file_name)), text) {
            (Some(kind), Some(t)) => manifest_name_from_text(kind, t@),
            _ => Ok(None),
        },
{
    match (manifest_kind(file_name), text) {
        (Some(kind), Some(t)) => manifest_package_name_from_text(kind, t),
        _ => Ok(None),
    }
}

/// The manifest that names a Python workspace: the first of
/// `pyproject.toml`, `setup.py`, `setup.cfg` that exists, else
/// `pyproject.toml`.
pub open spec fn root_manifest_name(pyproject: bool, setup_py: bool, setup_cfg: bool) -> Seq<
    char,
> {
    if pyproject {
        "pyproject.toml"@
    } else if setup_py {
        "setup.py"@
    } else if setup_cfg {
        "setup.cfg"@
    } else {
        "pyproject.toml"@
    }
}

/// The path (by components) of a Python workspace's root manifest, given
/// which candidates exist under `root`.
pub fn root_manifest_path(
    root: &Vec<String>,
    pyproject_exists: bool,
    setup_py_exists: bool,
    setup_cfg_exists: bool,
) -> (r: Vec<String>)
    ensures
        ids_view(r@) == ids_view(root@).push(
            root_manifest_name(pyproject_exists, setup_py_exists, setup_cfg_exists),
        ),
{
    let name = if pyproject_exists {
        "pyproject.toml"
    } else if setup_py_exists {
        "setup.py"
    } else if setup_cfg_exists {
        "setup.cfg"
    } else {
        "pyproject.toml"
    };
    let mut r = root.clone();
    let ghost before = r@;
    r.push(String::from_str(name));
    proof {
        assert(ids_view(before) =~= ids_view(root@));
        assert(ids_view(r@) =~= ids_view(before).push(name@));
    }
    r
}

// ---------------------------------------------------------------------------
// Packages and the workspace layout
// ---------------------------------------------------------------------------
/// The kinds of graph node a layout names.
#[derive(Debug, Clone, Copy, PartialEq, Eq, Structural)]
pub enum NodeKind {
    Workspace,
    Package,
}

/// The graph identity of a workspace or package node.
#[derive(Debug, PartialEq, Eq)]
pub struct NodeId {
    pub crate_name: String,
    pub path: String,
    pub kind: NodeKind,
}

pub struct NodeIdView {
    pub crate_name: Seq<char>,
    pub path: Seq<char>,
    pub kind: NodeKind,
}

impl View for NodeId {
    type V = NodeIdView;

    open spec fn view(&self) -> NodeIdView {
        NodeIdView { crate_name: self.crate_name@, path: self.path@, kind: self.kind }
    }
}

/// A package of the workspace; paths are given by their components.
#[derive(Debug, PartialEq, Eq)]
pub struct PackageInfo {
    pub package_name: String,
    pub crate_name: String,
    pub root: Vec<String>,
    pub manifest_path: Vec<String>,
    pub node_id: NodeId,
}

pub struct PackageView {
    pub package_name: Seq<char>,
    pub crate_name: Seq<char>,
    pub root: Seq<Seq<char>>,
    pub manifest_path: Seq<Seq<char>>,
    pub node_id: NodeIdView,
}

impl View for PackageInfo {
    type V = PackageView;

    open spec fn view(&self) -> PackageView {
        PackageView {
            package_name: self.package_name@,
            crate_name: self.crate_name@,
            root: ids_view(self.root@),
            manifest_path: ids_view(self.manifest_path@),
            node_id: self.node_id@,
        }
    }
}

/// The package named `name` rooted at `root` with manifest `manifest`: its
/// crate name is the normalized name, which also names its package node.
pub open spec fn package_view_of(
    name: Seq<char>,
    root: Seq<Seq<char>>,
    manifest: Seq<Seq<char>>,
) -> PackageView {
    let crate_name = normalized_identifier(name);
    PackageView {
        package_name: name,
        crate_name,
        root,
        manifest_path: manifest,
        node_id: NodeIdView { crate_name, path: crate_name, kind: NodeKind::Package },
    }
}

impl PackageInfo {
    /// A package with the crate name and node that its name gives.
    pub fn new(package_name: String, root: Vec<String>, manifest_path: Vec<String>) -> (r: Self)
        ensures
            r@ == package_view_of(package_name@, ids_view(root@), ids_view(manifest_path@)),
    {
        let crate_name = normalize_identifier(package_name.as_str());
        let node_id = NodeId {
            crate_name: crate_name.clone(),
            path: crate_name.clone(),
            kind: NodeKind::Package,
        };
        PackageInfo { package_name, crate_name, root, manifest_path, node_id }
    }
}

pub open spec fn packages_view(v: Seq<PackageInfo>) -> Seq<PackageView> {
    v.map_values(|p: PackageInfo| p@)
}

/// The workspace and its packages; the first package is the workspace root.
#[derive(Debug, PartialEq, Eq)]
pub struct WorkspaceLayout {
    pub workspace_name: String,
    pub workspace_display_name: String,
    pub workspace_manifest: Vec<String>,
    pub packages: Vec<PackageInfo>,
}

pub struct LayoutView {
    pub workspace_name: Seq<char>,
    pub workspace_display_name: Seq<char>,
    pub workspace_manifest: Seq<Seq<char>>,
    pub packages: Seq<PackageView>,
}

impl View for WorkspaceLayout {
    type V = LayoutView;

    open spec fn view(&self) -> LayoutView {
        LayoutView {
            workspace_name: self.workspace_name@,
            workspace_display_name: self.workspace_display_name@,
            workspace_manifest: ids_view(self.workspace_manifest@),
            packages: packages_view(self.packages@),
        }
    }
}

/// Whether `path` lies under `root`, component by component.
pub open spec fn root_contains(root: Seq<Seq<char>>, path: Seq<Seq<char>>) -> bool {
    root.len() <= path.len() && path.subrange(0, root.len() as int) == root
}

/// The index of the package with the deepest root containing `path` (the
/// last one among equally deep roots), if any.
pub open spec fn deepest_package(pkgs: Seq<PackageView>, path: Seq<Seq<char>>) -> Option<int>
    decreases pkgs.len(),
{
    if pkgs.len() == 0 {
        None
    } else {
        let best = deepest_package(pkgs.drop_last(), path);
        let last = pkgs.last();
        if root_contains(last.root, path) && (best is None || pkgs[best->0].root.len()
            <= last.root.len()) {
            Some(pkgs.len() - 1)
        } else {
            best
        }
    }
}

/// The index of the package a path belongs to: the deepest containing
/// root, or the first package when none contains it.
pub open spec fn package_index_for(pkgs: Seq<PackageView>, path: Seq<Seq<char>>) -> int {
    match deepest_package(pkgs, path) {
        Some(i) => i,
        None => 0,
    }
}

/// Whether two paths have the same components.
pub fn components_eq(a: &Vec<String>, b: &Vec<String>) -> (r: bool)
    ensures
        r == (ids_view(a@) == ids_view(b@)),
{
    if a.len() != b.len() {
        return false;
    }
    let mut i: usize = 0;
    while i < a.len()
        invariant
            a@.len() == b@.len(),
            i <= a@.len(),
            forall|j: int| 0 <= j < i ==> a@[j]@ == b@[j]@,
        decreases a@.len() - i,
    {
        if !a[i].eq(&b[i]) {
            assert(ids_view(a@)[i as int] != ids_view(b@)[i as int]);
            return false;
        }
        i = i + 1;
    }
    assert(ids_view(a@) =~= ids_view(b@));
    true
}

/// Whether `path` lies under `root`, component by component.
pub fn path_starts_with(path: &Vec<String>, root: &Vec<String>) -> (r: bool)
    ensures
        r == root_contains(ids_view(root@), ids_view(path@)),
{
    if root.len() > path.len() {
        return false;
    }
    let mut i: usize = 0;
    while i < root.len()
        invariant
            root@.len() <= path@.len(),
            i <= root@.len(),
            forall|j: int| 0 <= j < i ==> path@[j]@ == root@[j]@,
        decreases root@.len() - i,
    {
        if !path[i].eq(&root[i]) {
            assert(ids_view(path@).subrange(0, root@.len() as int)[i as int] != ids_view(
                root@,
            )[i as int]);
            return false;
        }
        i = i + 1;
    }
    assert(ids_view(path@).subrange(0, root@.len() as int) =~= ids_view(root@));
    true
}

impl WorkspaceLayout {
    /// The package a path belongs to: the one with the deepest root that
    /// contains it (the last of equally deep ones), else the first package.
    pub fn package_for(&self, path: &Vec<String>) -> (r: &PackageInfo)
        requires
            self.packages@.len() > 0,
        ensures
            r@ == self@.packages[package_index_for(self@.packages, ids_view(path@))],
    {
        let ghost pv = packages_view(self.packages@);
        let mut best: Option<usize> = None;
        let mut i: usize = 0;
        while i < self.packages.len()
            invariant
                pv == packages_view(self.packages@),
                i <= self.packages@.len(),
                match best {
                    Some(b) => deepest_package(pv.subrange(0, i as int), ids_view(path@)) == Some(
                        b as int,
                    ) && b < i,
                    None => deepest_package(pv.subrange(0, i as int), ids_view(path@)) is None,
                },
            decreases self.packages@.len() - i,
        {
            proof {
                let pre = pv.subrange(0, i + 1);
                assert(pre.drop_last() =~= pv.subrange(0, i as int));
                assert(pre.last() == self.packages@[i as int]@);
                if let Some(b) = best {
                    assert(pre[b as int] == pv[b as int]);
                }
            }
            let candidate = &self.packages[i];
            if path_starts_with(path, &candidate.root) {
                let deeper = match best {
                    Some(b) => self.packages[b].root.len() <= candidate.root.len(),
                    None => true,
                };
                if deeper {
                    best = Some(i);
                }
            }
            i = i + 1;
        }
        proof {
            assert(pv.subrange(0, self.packages@.len() as int) =~= pv);
        }
        match best {
            Some(b) => &self.packages[b],
            None => &self.packages[0],
        }
    }
}


// ---------------------------------------------------------------------------
// Discovering the layout
// ---------------------------------------------------------------------------
/// The workspace's display name (the root directory's name, else
/// `workspace`) and its normalized name.
pub open spec fn display_name_of(root_file_name: Option<Seq<char>>) -> Seq<char> {
    match root_file_name {
        Some(n) => n,
        None => "workspace"@,
    }
}

/// The workspace's normalized name and display name, from the name of its
/// root directory.
pub fn workspace_names(root_file_name: Option<&str>) -> (r: (String, String))
    ensures
        r.1@ == display_name_of(opt_name_view(root_file_name)),
        r.0@ == normalized_identifier(r.1@),
{
    let display = match root_file_name {
        Some(n) => String::from_str(n),
        None => String::from_str("workspace"),
    };
    let name = normalize_identifier(display.as_str());
    (name, display)
}

/// A file met while walking the workspace, with what was read of it: its
/// path and name, whether it is a regular file, the (canonical) directory it
/// lies in and that directory's name, and the package name its manifest
/// gives, when it was read.
#[derive(Debug, PartialEq, Eq)]
pub struct ManifestEntry {
    pub manifest_path: Vec<String>,
    pub is_file: bool,
    pub file_name: Option<String>,
    pub package_root: Vec<String>,
    pub package_root_name: Option<String>,
    pub package_name: Option<String>,
}

pub struct ManifestEntryView {
    pub manifest_path: Seq<Seq<char>>,
    pub is_file: bool,
    pub file_name: Option<Seq<char>>,
    pub package_root: Seq<Seq<char>>,
    pub package_root_name: Option<Seq<char>>,
    pub package_name: Option<Seq<char>>,
}

impl View for ManifestEntry {
    type V = ManifestEntryView;

    open spec fn view(&self) -> ManifestEntryView {
        ManifestEntryView {
            manifest_path: ids_view(self.manifest_path@),
            is_file: self.is_file,
            file_name: opt_str_view(self.file_name),
            package_root: ids_view(self.package_root@),
            package_root_name: opt_str_view(self.package_root_name),
            package_name: opt_str_view(self.package_name),
        }
    }
}

pub open spec fn entries_view(v: Seq<ManifestEntry>) -> Seq<ManifestEntryView> {
    v.map_values(|e: ManifestEntry| e@)
}

fn clone_components(v: &Vec<String>) -> (r: Vec<String>)
    ensures
        ids_view(r@) == ids_view(v@),
{
    let r = v.clone();
    assert(ids_view(r@) =~= ids_view(v@));
    r
}

/// Whether a walked file is a package manifest of a Cargo workspace other
/// than the workspace's own.
pub open spec fn cargo_candidate(e: ManifestEntryView, workspace_manifest: Seq<Seq<char>>) -> bool {
    e.is_file && e.file_name == Some("Cargo.toml"@) && e.manifest_path != workspace_manifest
}

/// Whether a walked file is to be read as a member manifest of a Cargo
/// workspace.
pub fn is_cargo_manifest_candidate(entry: &ManifestEntry, workspace_manifest: &Vec<String>) -> (r:
    bool)
    ensures
        r == cargo_candidate(entry@, ids_view(workspace_manifest@)),
{
    let named = match &entry.file_name {
        Some(n) => str_eq(n.as_str(), "Cargo.toml"),
        None => false,
    };
    entry.is_file && named && !components_eq(&entry.manifest_path, workspace_manifest)
}

/// The member packages of a Cargo workspace, in walk order: each member
/// manifest that names a package.
pub open spec fn cargo_packages(
    entries: Seq<ManifestEntryView>,
    workspace_manifest: Seq<Seq<char>>,
) -> Seq<PackageView>
    decreases entries.len(),
{
    if entries.len() == 0 {
        Seq::empty()
    } else {
        let rest = cargo_packages(entries.drop_last(), workspace_manifest);
        let e = entries.last();
        if cargo_candidate(e, workspace_manifest) && e.package_name is Some {
            rest.push(package_view_of(e.package_name->0, e.package_root, e.manifest_path))
        } else {
            rest
        }
    }
}

/// The layout of a Cargo workspace: the root package (named by the root
/// manifest, else after the workspace), then the member packages.
pub open spec fn cargo_layout_view(
    workspace_name: Seq<char>,
    workspace_display_name: Seq<char>,
    root: Seq<Seq<char>>,
    root_package_name: Option<Seq<char>>,
    entries: Seq<ManifestEntryView>,
) -> LayoutView {
    let manifest = root.push("Cargo.toml"@);
    let root_name = match root_package_name {
        Some(n) => n,
        None => workspace_display_name,
    };
    LayoutView {
        workspace_name,
        workspace_display_name,
        workspace_manifest: manifest,
        packages: seq![package_view_of(root_name, root, manifest)] + cargo_packages(
            entries,
            manifest,
        ),
    }
}

/// The layout of a Cargo workspace rooted at `root`, from the package name
/// of its root manifest and the files met while walking it.
pub fn discover_cargo_layout(
    workspace_name: String,
    workspace_display_name: String,
    root: Vec<String>,
    root_package_name: Option<String>,
    entries: Vec<ManifestEntry>,
) -> (r: WorkspaceLayout)
    ensures
        r@ == cargo_layout_view(
            workspace_name@,
            workspace_display_name@,
            ids_view(root@),
            opt_str_view(root_package_name),
            entries_view(entries@),
        ),
{
    let mut workspace_manifest = clone_components(&root);
    let ghost rv = ids_view(workspace_manifest@);
    workspace_manifest.push(String::from_str("Cargo.toml"));
    proof {
        assert(ids_view(workspace_manifest@) =~= rv.push("Cargo.toml"@));
    }
    let ghost wm = ids_view(workspace_manifest@);
    let root_name = match root_package_name {
        Some(n) => n,
        None => workspace_display_name.clone(),
    };
    let ghost rn = root_name@;
    let ghost root_view = ids_view(root@);
    let mut packages: Vec<PackageInfo> = Vec::new();
    packages.push(PackageInfo::new(root_name, root, clone_components(&workspace_manifest)));
    let ghost first = packages_view(packages@);
    proof {
        assert(first =~= seq![package_view_of(rn, root_view, wm)]);
    }
    let ghost ev = entries_view(entries@);
    let mut i: usize = 0;
    while i < entries.len()
        invariant
            i <= entries@.len(),
            ev == entries_view(entries@),
            wm == ids_view(workspace_manifest@),
            first.len() == 1,
            packages_view(packages@) == first + cargo_packages(ev.subrange(0, i as int), wm),
        decreases entries@.len() - i,
    {
        proof {
            assert(ev.subrange(0, i + 1).drop_last() =~= ev.subrange(0, i as int));
        }
        let entry = &entries[i];
        if is_cargo_manifest_candidate(entry, &workspace_manifest) {
            match &entry.package_name {
                Some(name) => {
                    let ghost before = packages_view(packages@);
                    let p = PackageInfo::new(
                        name.clone(),
                        clone_components(&entry.package_root),
                        clone_components(&entry.manifest_path),
                    );
                    packages.push(p);
                    proof {
                        assert(packages_view(packages@) =~= before.push(packages@.last()@));
                    }
                },
                None => {},
            }
        }
        i = i + 1;
    }
    proof {
        assert(ev.subrange(0, entries@.len() as int) =~= ev);
    }
    WorkspaceLayout { workspace_name, workspace_display_name, workspace_manifest, packages }
}

/// Whether a walked file is a Python manifest other than the workspace's.
pub open spec fn python_candidate(e: ManifestEntryView, workspace_manifest: Seq<Seq<char>>) -> bool {
    e.is_file && python_manifest_name(e.file_name) && e.manifest_path != workspace_manifest
}

/// Whether a walked file is to be read as a Python package manifest.
pub fn is_python_manifest_candidate(entry: &ManifestEntry, workspace_manifest: &Vec<String>) -> (r:
    bool)
    ensures
        r == python_candidate(entry@, ids_view(workspace_manifest@)),
{
    let named = match &entry.file_name {
        Some(n) => is_python_manifest(Some(n.as_str())),
        None => is_python_manifest(None),
    };
    entry.is_file && named && !components_eq(&entry.manifest_path, workspace_manifest)
}

/// The name of a Python package: what its manifest gives, else its
/// directory's name, else `workspace`.
pub open spec fn python_package_name(e: ManifestEntryView) -> Seq<char> {
    match e.package_name {
        Some(n) => n,
        None => match e.package_root_name {
            Some(n) => n,
            None => "workspace"@,
        },
    }
}

pub open spec fn roots_view(v: Seq<Vec<String>>) -> Seq<Seq<Seq<char>>> {
    v.map_values(|r: Vec<String>| ids_view(r@))
}

/// The packages of a Python workspace found in walk order, and the package
/// roots seen so far (starting with the workspace root): one package per
/// directory, from the first manifest met in it.
pub open spec fn python_scan(
    entries: Seq<ManifestEntryView>,
    workspace_manifest: Seq<Seq<char>>,
    root: Seq<Seq<char>>,
) -> (Seq<PackageView>, Seq<Seq<Seq<char>>>)
    decreases entries.len(),
{
    if entries.len() == 0 {
        (Seq::empty(), seq![root])
    } else {
        let (found, seen) = python_scan(entries.drop_last(), workspace_manifest, root);
        let e = entries.last();
        if python_candidate(e, workspace_manifest) && !seen.contains(e.package_root) {
            (
                found.push(package_view_of(python_package_name(e), e.package_root, e.manifest_path)),
                seen.push(e.package_root),
            )
        } else {
            (found, seen)
        }
    }
}

/// The layout of a Python workspace: the root package (named by the root
/// manifest, else after the workspace), then one package per other
/// directory holding a manifest.
pub open spec fn python_layout_view(
    workspace_name: Seq<char>,
    workspace_display_name: Seq<char>,
    root: Seq<Seq<char>>,
    workspace_manifest: Seq<Seq<char>>,
    root_package_name: Option<Seq<char>>,
    entries: Seq<ManifestEntryView>,
) -> LayoutView {
    let root_name = match root_package_name {
        Some(n) => n,
        None => workspace_display_name,
    };
    LayoutView {
        workspace_name,
        workspace_display_name,
        workspace_manifest,
        packages: seq![package_view_of(root_name, root, workspace_manifest)] + python_scan(
            entries,
            workspace_manifest,
            root,
        ).0,
    }
}

pub fn path_set_contains(seen: &Vec<Vec<String>>, root: &Vec<String>) -> (r: bool)
    ensures
        r == roots_view(seen@).contains(ids_view(root@)),
{
    let mut i: usize = 0;
    while i < seen.len()
        invariant
            i <= seen@.len(),
            forall|j: int| 0 <= j < i ==> roots_view(seen@)[j] != ids_view(root@),
        decreases seen@.len() - i,
    {
        if components_eq(&seen[i], root) {
            assert(roots_view(seen@)[i as int] == ids_view(root@));
            return true;
        }
        i = i + 1;
    }
    false
}

/// The layout of a Python workspace rooted at `root` with root manifest
/// `workspace_manifest`, from the package name of that manifest and the
/// files met while walking the workspace.
pub fn discover_python_layout(
    workspace_name: String,
    workspace_display_name: String,
    root: Vec<String>,
    workspace_manifest: Vec<String>,
    root_package_name: Option<String>,
    entries: Vec<ManifestEntry>,
) -> (r: WorkspaceLayout)
    ensures
        r@ == python_layout_view(
            workspace_name@,
            workspace_display_name@,
            ids_view(root@),
            ids_view(workspace_manifest@),
            opt_str_view(root_package_name),
            entries_view(entries@),
        ),
{
    let ghost wm = ids_view(workspace_manifest@);
    let ghost rv = ids_view(root@);
    let root_name = match root_package_name {
        Some(n) => n,
        None => workspace_display_name.clone(),
    };
    let mut seen: Vec<Vec<String>> = Vec::new();
    seen.push(clone_components(&root));
    proof {
        assert(roots_view(seen@) =~= seq![rv]);
    }
    let ghost rn = root_name@;
    let ghost root_view = ids_view(root@);
    let mut packages: Vec<PackageInfo> = Vec::new();
    packages.push(PackageInfo::new(root_name, root, clone_components(&workspace_manifest)));
    let ghost first = packages_view(packages@);
    proof {
        assert(first =~= seq![package_view_of(rn, root_view, wm)]);
    }
    let ghost ev = entries_view(entries@);
    let mut i: usize = 0;
    while i < entries.len()
        invariant
            i <= entries@.len(),
            ev == entries_view(entries@),
            wm == ids_view(workspace_manifest@),
            first.len() == 1,
            packages_view(packages@) == first + python_scan(ev.subrange(0, i as int), wm, rv).0,
            roots_view(seen@) == python_scan(ev.subrange(0, i as int), wm, rv).1,
        decreases entries@.len() - i,
    {
        proof {
            assert(ev.subrange(0, i + 1).drop_last() =~= ev.subrange(0, i as int));
        }
        let entry = &entries[i];
        if is_python_manifest_candidate(entry, &workspace_manifest) && !path_set_contains(
            &seen,
            &entry.package_root,
        ) {
            let ghost before_seen = roots_view(seen@);
            seen.push(clone_components(&entry.package_root));
            proof {
                assert(roots_view(seen@) =~= before_seen.push(ids_view(entry.package_root@)));
            }
            let name = match &entry.package_name {
                Some(n) => n.clone(),
                None => match &entry.package_root_name {
                    Some(n) => n.clone(),
                    None => String::from_str("workspace"),
                },
            };
            let ghost before = packages_view(packages@);
            let p = PackageInfo::new(
                name,
                clone_components(&entry.package_root),
                clone_components(&entry.manifest_path),
            );
            packages.push(p);
            proof {
                assert(packages_view(packages@) =~= before.push(packages@.last()@));
            }
        }
        i = i + 1;
    }
    proof {
        assert(ev.subrange(0, entries@.len() as int) =~= ev);
    }
    WorkspaceLayout { workspace_name, workspace_display_name, workspace_manifest, packages }
}

} // verus!
