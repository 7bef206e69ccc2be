use vstd::prelude::*;

verus! {

/// `s` without its leading run of `c`.
pub open spec fn trim_leading(s: Seq<char>, c: char) -> Seq<char>
    decreases s.len(),
{
    if s.len() > 0 && s[0] == c {
        trim_leading(s.skip(1), c)
    } else {
        s
    }
}

/// The relative path found by text alone: where `abs` starts with `base`, the
/// rest after that one copy of `base`, then after its leading `/` and then
/// its leading `\`; else `abs` itself.
pub open spec fn lexical_relative(abs: Seq<char>, base: Seq<char>) -> Seq<char> {
    if base.is_prefix_of(abs) {
        trim_leading(trim_leading(abs.skip(base.len() as int), '/'), '\\')
    } else {
        abs
    }
}

/// What `std::path::Path::strip_prefix` leaves of `path` below `base`, compared
/// component by component; `None` where `base` is not a leading part of it.
pub uninterp spec fn path_below(path: Seq<char>, base: Seq<char>) -> Option<Seq<char>>;

/// Relies on `std::path::Path::canonicalize`: the absolute form of a path with
/// links resolved, read from the file system. Nothing is promised of it: it
/// depends on what is on disk. A form that is not valid UTF-8 counts as failed.
#[verifier::external_body]
fn canonical_form(p: &str) -> (r: Option<String>) {
    match std::path::Path::new(p).canonicalize() {
        Ok(c) => c.to_str().map(|s| s.to_string()),
        Err(_) => None,
    }
}

/// Relies on `std::path::Path::strip_prefix`: the part of `path` below `base`,
/// by whole components, or an error where `base` is not a prefix of it.
#[verifier::external_body]
fn strip_path_prefix(path: &str, base: &str) -> (r: Option<String>)
    ensures
        match r {
            Some(s) => path_below(path@, base@) == Some(s@),
            None => path_below(path@, base@).is_none(),
        },
{
    match std::path::Path::new(path).strip_prefix(base) {
        Ok(rest) => Some(rest.to_string_lossy().to_string()),
        Err(_) => None,
    }
}

/// Whether `p` occurs in `s` at char position `pos`.
fn occurs_at(s: &str, p: &str, pos: usize) -> (r: bool)
    requires
        pos <= s@.len(),
    ensures
        r == p@.is_prefix_of(s@.skip(pos as int)),
{
    let slen = s.unicode_len();
    let plen = p.unicode_len();
    if plen > slen - pos {
        return false;
    }
    let mut i: usize = 0;
    while i < plen
        invariant
            slen == s@.len(),
            plen == p@.len(),
            pos + plen <= slen,
            i <= plen,
            forall|k: int| 0 <= k < i ==> s@[pos + k] == p@[k],
        decreases plen - i,
    {
        if s.get_char(pos + i) != p.get_char(i) {
            assert(s@.skip(pos as int)[i as int] != p@[i as int]);
            return false;
        }
        i = i + 1;
    }
    assert(p@ =~= s@.skip(pos as int).subrange(0, plen as int));
    true
}

/// The char position where the run of `c` in `s` that starts at `from` ends.
fn skip_char(s: &str, c: char, from: usize) -> (r: usize)
    requires
        from <= s@.len(),
    ensures
        from <= r <= s@.len(),
        trim_leading(s@.skip(from as int), c) == s@.skip(r as int),
{
    let slen = s.unicode_len();
    let mut pos = from;
    while pos < slen && s.get_char(pos) == c
        invariant
            slen == s@.len(),
            from <= pos <= slen,
            trim_leading(s@.skip(from as int), c) == trim_leading(s@.skip(pos as int), c),
        decreases slen - pos,
    {
        assert(s@.skip(pos as int).skip(1) =~= s@.skip(pos + 1));
        pos = pos + 1;
    }
    pos
}

/// The relative path of `absolute_path` below `base_path` by text alone.
pub fn lexical_relative_path(absolute_path: &str, base_path: &str) -> (r: String)
    ensures
        r@ == lexical_relative(absolute_path@, base_path@),
{
    if !occurs_at(absolute_path, base_path, 0) {
        proof {
            assert(absolute_path@.skip(0) =~= absolute_path@);
        }
        return absolute_path.to_owned();
    }
    proof {
        assert(absolute_path@.skip(0) =~= absolute_path@);
    }
    let len = absolute_path.unicode_len();
    let a = base_path.unicode_len();
    let b = skip_char(absolute_path, '/', a);
    let c = skip_char(absolute_path, '\\', b);
    assert(absolute_path@.skip(c as int) =~= absolute_path@.subrange(c as int, len as int));
    absolute_path.substring_char(c, len).to_owned()
}

/// The relative path from what the file system said: the canonical relative
/// form where one was found, else the text-only form.
pub fn relative_path_from(absolute_path: &str, base_path: &str, canonical: Option<String>) -> (r:
    String)
    ensures
        r@ == match canonical {
            Some(c) => c@,
            None => lexical_relative(absolute_path@, base_path@),
        },
{
    match canonical {
        Some(c) => c,
        None => lexical_relative_path(absolute_path, base_path),
    }
}

/// The path of `absolute_path` relative to `base_path`: both are first
/// resolved on the file system and the base taken off by components; where
/// that fails, the text-only form.
pub fn get_relative_path(absolute_path: &str, base_path: &str) -> (r: String)
    ensures
        r@ == lexical_relative(absolute_path@, base_path@) || exists|a: Seq<char>, b: Seq<char>|
            path_below(a, b) == Some(r@),
{
    let canonical = match (canonical_form(absolute_path), canonical_form(base_path)) {
        (Some(a), Some(b)) => strip_path_prefix(a.as_str(), b.as_str()),
        _ => None,
    };
    relative_path_from(absolute_path, base_path, canonical)
}

} // verus!
