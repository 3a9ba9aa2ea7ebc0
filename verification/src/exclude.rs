//! Which paths are out of scope: those at or below an exclude pattern.
//!
//! A pattern is a plain path, not a glob. It excludes the path equal to it
//! and every path nested below it, component by component; a path that
//! merely begins with the pattern's text is not excluded.
use vstd::prelude::*;
use crate::path::lies_under;
use crate::path::path_components;
use crate::path::path_starts_with;

verus! {

/// Whether any of the patterns excludes the path.
pub open spec fn is_excluded(path: Seq<char>, patterns: Seq<Seq<char>>) -> bool {
    exists|i: int| 0 <= i < patterns.len() && lies_under(path, #[trigger] patterns[i])
}

/// Whether `hit` is the first pattern, in configuration order, that excludes
/// the path.
pub open spec fn is_first_match(path: Seq<char>, patterns: Seq<Seq<char>>, hit: int) -> bool {
    &&& 0 <= hit < patterns.len()
    &&& lies_under(path, patterns[hit])
    &&& forall|i: int| 0 <= i < hit ==> !lies_under(path, #[trigger] patterns[i])
}

/// The index of the first pattern that excludes the path, if one does.
/// Patterns are tried in order and none is tried behind the first hit.
pub fn first_match(path: &str, patterns: &Vec<String>) -> (hit: Option<usize>)
    ensures
        hit is Some <==> is_excluded(path@, patterns.deep_view()),
        hit is Some ==> is_first_match(path@, patterns.deep_view(), hit->0 as int),
{
    let mut i: usize = 0;
    while i < patterns.len()
        invariant
            i <= patterns.len(),
            patterns.deep_view().len() == patterns.len(),
            forall|k: int| 0 <= k < i ==> !lies_under(path@, #[trigger] patterns.deep_view()[k]),
        decreases patterns.len() - i,
    {
        assert(patterns.deep_view()[i as int] == patterns@[i as int]@);
        if path_starts_with(path, patterns[i].as_str()) {
            return Some(i);
        }
        i += 1;
    }
    None
}

/// Whether the path is out of scope for verification.
pub fn excluded(path: &str, patterns: &Vec<String>) -> (hit: bool)
    ensures
        hit == is_excluded(path@, patterns.deep_view()),
{
    first_match(path, patterns).is_some()
}

/// A path equal to a pattern is excluded.
pub proof fn excluded_when_equal_to_pattern(path: Seq<char>, patterns: Seq<Seq<char>>, at: int)
    requires
        0 <= at < patterns.len(),
        patterns[at] == path,
    ensures
        is_excluded(path, patterns),
{
    assert(path_components(path).is_prefix_of(path_components(path)));
    assert(lies_under(path, patterns[at]));
}

/// A path nested under a pattern is excluded: its components are those of
/// the pattern with more behind them.
pub proof fn excluded_when_nested_under_pattern(
    path: Seq<char>,
    patterns: Seq<Seq<char>>,
    at: int,
    below: Seq<Seq<char>>,
)
    requires
        0 <= at < patterns.len(),
        path_components(path) == path_components(patterns[at]) + below,
    ensures
        is_excluded(path, patterns),
{
    assert(path_components(patterns[at]).is_prefix_of(path_components(path)));
    assert(lies_under(path, patterns[at]));
}

/// A pattern does not exclude a path that parts from it in some component,
/// however much text the two share: a sibling whose name only begins like
/// the pattern's last component stays in scope.
pub proof fn not_under_when_a_component_differs(path: Seq<char>, pattern: Seq<char>, at: int)
    requires
        0 <= at < path_components(pattern).len(),
        at >= path_components(path).len() || path_components(path)[at] != path_components(
            pattern,
        )[at],
    ensures
        !lies_under(path, pattern),
{
    if lies_under(path, pattern) {
        let base = path_components(pattern);
        let whole = path_components(path);
        assert(whole.subrange(0, base.len() as int)[at] == whole[at]);
    }
}

/// A path that no pattern lies above is not excluded.
pub proof fn not_excluded_when_under_no_pattern(path: Seq<char>, patterns: Seq<Seq<char>>)
    requires
        forall|i: int| 0 <= i < patterns.len() ==> !lies_under(path, #[trigger] patterns[i]),
    ensures
        !is_excluded(path, patterns),
{
}

} // verus!
