use vstd::prelude::*;

use crate::text::ends_with;

verus! {

/// Why a path could not be expanded: an environment variable it names could
/// not be read.
#[derive(Debug, Clone, PartialEq, Eq)]
pub struct ExpandError {
    /// The report of the expansion, naming the variable and the cause.
    pub message: String,
}

/// `s` begins with a `~` that shell expansion replaces by the home
/// directory: `~` alone, or followed by a path separator.
pub open spec fn home_prefixed(s: Seq<char>) -> bool {
    s.len() > 0 && s[0] == '~' && (s.len() == 1 || s[1] == '/' || s[1] == '\\')
}

/// `t` is a result that shell expansion may give for `s`, whatever the
/// environment and the home directory hold: a text without `$` comes back
/// unchanged, except that a leading `~` (alone or before a separator) may
/// be replaced by a non-empty home directory, the rest being kept. Nothing
/// is said of texts holding `$`.
pub open spec fn may_expand_to(s: Seq<char>, t: Seq<char>) -> bool {
    !s.contains('$') ==> (t == s || (home_prefixed(s) && exists|home: Seq<char>|
        home.len() > 0 && t == home + s.skip(1)))
}

/// Law: a path that begins with `~/` and holds no `$` expands either to
/// itself (where no home directory is known) or to a non-empty home
/// directory followed by the path after its `~`: the result ends with that
/// rest and is never shorter than the path, so the `~` is never merely
/// dropped. A path that does not begin with `~` and holds no `$` expands to
/// itself.
pub proof fn law_expansion_keeps_the_path(s: Seq<char>, t: Seq<char>)
    requires
        may_expand_to(s, t),
        !s.contains('$'),
    ensures
        !(s.len() > 0 && s[0] == '~') ==> t == s,
        t.len() >= s.len(),
        s.len() > 0 ==> ends_with(t, s.skip(1)),
        s.len() > 0 && s[0] == '~' && t != s ==> t != s.skip(1) && exists|home: Seq<char>|
            home.len() > 0 && t == home + s.skip(1),
{
    if t != s {
        let home = choose|home: Seq<char>| home.len() > 0 && t == home + s.skip(1);
        assert(t.subrange(t.len() - s.skip(1).len(), t.len() as int) =~= s.skip(1));
    } else if s.len() > 0 {
        assert(t.subrange(t.len() - s.skip(1).len(), t.len() as int) =~= s.skip(1));
    }
}

/// `shellexpand::full(s)`: expands a leading `~` to the home directory and
/// `$VAR`/`${VAR}` to the values of environment variables. The contract
/// claims what the crate's source shows holds whatever the environment is:
/// a text without `$` always expands, and only a leading `~` of it can
/// change. What a variable or the home directory expands to is not stated
/// (it depends on the environment).
#[verifier::external_body]
pub(crate) fn shell_expand(s: &str) -> (res: Result<String, ExpandError>)
    ensures
        !s@.contains('$') ==> res is Ok,
        res matches Ok(t) ==> may_expand_to(s@, t@),
{
    match shellexpand::full(s) {
        Ok(t) => Ok(t.into_owned()),
        Err(e) => Err(ExpandError { message: e.to_string() }),
    }
}

} // verus!
