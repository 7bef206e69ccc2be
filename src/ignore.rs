use vstd::prelude::*;

verus! {

/// Whether `glob::Pattern::new` accepts `pattern`.
pub uninterp spec fn glob_valid(pattern: Seq<char>) -> bool;

/// Whether the compiled `pattern` matches `path` under glob's default options.
pub uninterp spec fn glob_matches(pattern: Seq<char>, path: Seq<char>) -> bool;

/// Relies on `glob::Pattern::new`, which compiles a shell pattern or rejects
/// it, and on `glob::Pattern::matches`, which tests a string with the default
/// options. `None` for a rejected pattern.
#[verifier::external_body]
fn glob_check(pattern: &str, path: &str) -> (r: Option<bool>)
    ensures
        r.is_some() == glob_valid(pattern@),
        r matches Some(b) ==> b == glob_matches(pattern@, path@),
{
    match glob::Pattern::new(pattern) {
        Ok(p) => Some(p.matches(path)),
        Err(_) => None,
    }
}

/// Whether `path` is excluded by some pattern of `patterns`; a pattern that
/// does not compile excludes nothing.
pub open spec fn ignored_by(path: Seq<char>, patterns: Seq<String>) -> bool {
    exists|i: int|
        0 <= i < patterns.len() && glob_valid(#[trigger] patterns[i]@) && glob_matches(
            patterns[i]@,
            path,
        )
}

/// Whether the outcomes of testing one path against each pattern (`None`
/// for a pattern that does not compile) exclude the path.
pub fn any_match(outcomes: &[Option<bool>]) -> (r: bool)
    ensures
        r == exists|i: int| 0 <= i < outcomes@.len() && #[trigger] outcomes@[i] == Some(true),
{
    let mut i: usize = 0;
    while i < outcomes.len()
        invariant
            i <= outcomes@.len(),
            forall|k: int| 0 <= k < i ==> #[trigger] outcomes@[k] != Some(true),
        decreases outcomes@.len() - i,
    {
        if let Some(true) = outcomes[i] {
            return true;
        }
        i = i + 1;
    }
    false
}

/// Whether `file_path`, relative to the watched root, matches one of the
/// exclusion patterns.
pub fn should_ignore_file(file_path: &str, ignored_patterns: &[String]) -> (r: bool)
    ensures
        r == ignored_by(file_path@, ignored_patterns@),
{
    let mut outcomes: Vec<Option<bool>> = Vec::new();
    let mut i: usize = 0;
    while i < ignored_patterns.len()
        invariant
            i <= ignored_patterns@.len(),
            outcomes@.len() == i,
            forall|k: int|
                0 <= k < i ==> (#[trigger] outcomes@[k] == Some(true) <==> (glob_valid(
                    ignored_patterns@[k]@,
                ) && glob_matches(ignored_patterns@[k]@, file_path@))),
        decreases ignored_patterns@.len() - i,
    {
        outcomes.push(glob_check(ignored_patterns[i].as_str(), file_path));
        i = i + 1;
    }
    let r = any_match(outcomes.as_slice());
    proof {
        if r {
            let k = choose|k: int| 0 <= k < outcomes@.len() && #[trigger] outcomes@[k] == Some(true);
            assert(glob_valid(ignored_patterns@[k]@));
        } else {
            assert forall|k: int| 0 <= k < ignored_patterns@.len() implies !(glob_valid(
                #[trigger] ignored_patterns@[k]@,
            ) && glob_matches(ignored_patterns@[k]@, file_path@)) by {
                assert(outcomes@[k] != Some(true));
            }
        }
    }
    r
}

} // verus!
