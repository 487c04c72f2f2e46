//! Which language a source file is written in, from an explicit name or
//! from the extension of its path.
use vstd::prelude::*;

verus! {

/// The closed set of languages that have a toolchain.
#[derive(Debug, Clone, Copy, PartialEq, Eq, Structural)]
pub enum Language {
    Rust,
    CPlusPlus,
}

/// The language that an identifier (a name or an extension) stands for.
pub open spec fn language_named(id: Seq<char>) -> Option<Language> {
    if id == "rust"@ || id == "rs"@ {
        Some(Language::Rust)
    } else if id == "cplusplus"@ || id == "cpp"@ || id == "cxx"@ {
        Some(Language::CPlusPlus)
    } else {
        None
    }
}

/// The index of the last `c` in `s`, or -1 when `s` holds none.
pub open spec fn last_index_of(s: Seq<char>, c: char) -> int
    decreases s.len(),
{
    if s.len() == 0 {
        -1
    } else if s.last() == c {
        s.len() - 1
    } else {
        last_index_of(s.drop_last(), c)
    }
}

/// The last component of a path: what follows its last `/`.
pub open spec fn file_name_of(path: Seq<char>) -> Seq<char> {
    path.subrange(last_index_of(path, '/') + 1, path.len() as int)
}

/// The extension of a path: what follows the last `.` of its file name,
/// where that `.` is not the name's first character (`.rs` has none).
pub open spec fn extension_of(path: Seq<char>) -> Option<Seq<char>> {
    let name = file_name_of(path);
    let dot = last_index_of(name, '.');
    if dot > 0 {
        Some(name.subrange(dot + 1, name.len() as int))
    } else {
        None
    }
}

/// The language of a source file, from the extension of its path.
pub open spec fn language_of_path(path: Seq<char>) -> Option<Language> {
    match extension_of(path) {
        Some(ext) => language_named(ext),
        None => None,
    }
}

/// The text of an optional string slice.
pub open spec fn opt_str_text(o: Option<&str>) -> Option<Seq<char>> {
    match o {
        Some(s) => Some(s@),
        None => None,
    }
}

/// The language of a run: the explicit identifier when one is given,
/// otherwise the one the path's extension stands for.
pub open spec fn resolved_language(explicit: Option<Seq<char>>, path: Seq<char>) -> Option<Language> {
    match explicit {
        Some(id) => language_named(id),
        None => language_of_path(path),
    }
}

/// Where `c` last stands in `s`.
fn last_index(s: &str, c: char) -> (r: Option<usize>)
    ensures
        match r {
            Some(k) => k == last_index_of(s@, c) && k < s@.len(),
            None => last_index_of(s@, c) == -1,
        },
{
    let n = s.unicode_len();
    let mut found: Option<usize> = None;
    let mut i: usize = 0;
    while i < n
        invariant
            n == s@.len(),
            i <= n,
            match found {
                Some(k) => k == last_index_of(s@.subrange(0, i as int), c) && k < i,
                None => last_index_of(s@.subrange(0, i as int), c) == -1,
            },
        decreases n - i,
    {
        if s.get_char(i) == c {
            found = Some(i);
        }
        assert(s@.subrange(0, i + 1).drop_last() =~= s@.subrange(0, i as int));
        i = i + 1;
    }
    assert(s@.subrange(0, n as int) =~= s@);
    found
}

/// The extension of `path`, as `extension_of` describes it.
pub fn extension(path: &str) -> (r: Option<&str>)
    ensures
        match r {
            Some(ext) => extension_of(path@) == Some(ext@),
            None => extension_of(path@) is None,
        },
{
    let n = path.unicode_len();
    let start: usize = match last_index(path, '/') {
        Some(k) => k + 1,
        None => 0,
    };
    let name = path.substring_char(start, n);
    assert(name@ == file_name_of(path@));
    match last_index(name, '.') {
        Some(dot) => {
            if dot > 0 {
                Some(name.substring_char(dot + 1, name.unicode_len()))
            } else {
                None
            }
        },
        None => None,
    }
}

/// Whether two strings hold the same characters.
fn same_text(a: &str, b: &str) -> (r: bool)
    ensures
        r == (a@ == b@),
{
    a.to_owned() == b.to_owned()
}

impl Language {
    /// The language that `id` names; `None` for an unknown name.
    pub fn from_name(id: &str) -> (r: Option<Language>)
        ensures
            r == language_named(id@),
    {
        if same_text(id, "rust") || same_text(id, "rs") {
            Some(Language::Rust)
        } else if same_text(id, "cplusplus") || same_text(id, "cpp") || same_text(id, "cxx") {
            Some(Language::CPlusPlus)
        } else {
            None
        }
    }

    /// The language that the extension of `path` stands for.
    pub fn from_path(path: &str) -> (r: Option<Language>)
        ensures
            r == language_of_path(path@),
    {
        match extension(path) {
            Some(ext) => Language::from_name(ext),
            None => None,
        }
    }

    /// Resolves the language of a run: an explicit identifier, when given,
    /// wins outright over the path's extension; there is no fallback.
    pub fn resolve(explicit: Option<&str>, path: &str) -> (r: Option<Language>)
        ensures
            r == resolved_language(
                opt_str_text(explicit),
                path@,
            ),
    {
        match explicit {
            Some(id) => Language::from_name(id),
            None => Language::from_path(path),
        }
    }
}

} // verus!

verus! {

proof fn lemma_last_index_bounds(s: Seq<char>, c: char)
    ensures
        -1 <= last_index_of(s, c) < s.len(),
        last_index_of(s, c) >= 0 ==> s[last_index_of(s, c)] == c,
    decreases s.len(),
{
    if s.len() > 0 && s.last() != c {
        lemma_last_index_bounds(s.drop_last(), c);
    }
}

/// Appending characters other than `c` leaves the last `c` where it was.
proof fn lemma_last_index_append(s: Seq<char>, t: Seq<char>, c: char)
    requires
        forall|i: int| 0 <= i < t.len() ==> t[i] != c,
    ensures
        last_index_of(s + t, c) == last_index_of(s, c),
    decreases t.len(),
{
    if t.len() > 0 {
        assert((s + t).drop_last() =~= s + t.drop_last());
        assert((s + t).last() == t.last());
        lemma_last_index_append(s, t.drop_last(), c);
    } else {
        assert(s + t =~= s);
    }
}

/// Identifiers that name a language hold neither `.` nor `/`.
proof fn lemma_named_is_plain(id: Seq<char>)
    requires
        language_named(id) is Some,
    ensures
        forall|i: int| 0 <= i < id.len() ==> id[i] != '.' && id[i] != '/',
{
    reveal_strlit("rust");
    reveal_strlit("rs");
    reveal_strlit("cplusplus");
    reveal_strlit("cpp");
    reveal_strlit("cxx");
}

/// Every extension that names a language resolves to that language: a path
/// made of a non-empty stem whose last character is not `/`, a `.` and the
/// extension has that language when no identifier is given.
pub proof fn lemma_extension_resolves(stem: Seq<char>, ext: Seq<char>)
    requires
        language_named(ext) is Some,
        stem.len() > 0,
        stem.last() != '/',
    ensures
        extension_of(stem + seq!['.'] + ext) == Some(ext),
        resolved_language(None, stem + seq!['.'] + ext) == language_named(ext),
{
    let path = stem + seq!['.'] + ext;
    lemma_named_is_plain(ext);
    let dot_ext = seq!['.'] + ext;
    assert(path =~= stem + dot_ext);
    assert forall|i: int| 0 <= i < dot_ext.len() implies dot_ext[i] != '/' by {
        if i > 0 {
            assert(dot_ext[i] == ext[i - 1]);
        }
    }
    lemma_last_index_append(stem, dot_ext, '/');
    let slash = last_index_of(stem, '/');
    lemma_last_index_bounds(stem, '/');
    lemma_last_index_bounds(stem.drop_last(), '/');
    assert(slash < stem.len() - 1);
    let base = stem.subrange(slash + 1, stem.len() as int);
    assert(file_name_of(path) =~= base.push('.') + ext);
    lemma_last_index_append(base.push('.'), ext, '.');
    assert(base.push('.').drop_last() =~= base);
    assert(last_index_of(base.push('.'), '.') == base.len());
    assert(file_name_of(path).subrange(base.len() + 1int, file_name_of(path).len() as int) =~= ext);
}

/// An explicit identifier always overrides what the path's extension says.
pub proof fn lemma_explicit_overrides(id: Seq<char>, path: Seq<char>)
    ensures
        resolved_language(Some(id), path) == language_named(id),
{
}

} // verus!

verus! {

/// The result of resolving, in the shape `TryFrom` gives it.
pub open spec fn named_or_unit(l: Option<Language>) -> Result<Language, ()> {
    match l {
        Some(l) => Ok(l),
        None => Err(()),
    }
}

impl<'a> TryFrom<&'a str> for Language {
    type Error = ();

    /// The language named by an identifier.
    fn try_from(value: &'a str) -> (r: Result<Language, ()>) {
        match Language::from_name(value) {
            Some(l) => Ok(l),
            None => Err(()),
        }
    }
}

impl<'a> vstd::std_specs::convert::TryFromSpecImpl<&'a str> for Language {
    open spec fn obeys_try_from_spec() -> bool {
        true
    }

    open spec fn try_from_spec(v: &'a str) -> Result<Language, ()> {
        named_or_unit(language_named(v@))
    }
}

impl<'a, 'b> TryFrom<(Option<&'a str>, &'b str)> for Language {
    type Error = ();

    /// The language of a run, from an explicit identifier and a path.
    fn try_from(value: (Option<&'a str>, &'b str)) -> (r: Result<Language, ()>) {
        match Language::resolve(value.0, value.1) {
            Some(l) => Ok(l),
            None => Err(()),
        }
    }
}

impl<'a, 'b> vstd::std_specs::convert::TryFromSpecImpl<(Option<&'a str>, &'b str)> for Language {
    open spec fn obeys_try_from_spec() -> bool {
        true
    }

    open spec fn try_from_spec(v: (Option<&'a str>, &'b str)) -> Result<Language, ()> {
        named_or_unit(
            resolved_language(
                opt_str_text(v.0),
                v.1@,
            ),
        )
    }
}

} // verus!
