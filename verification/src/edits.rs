use vstd::prelude::*;

use crate::text::{
    lemma_lines_have_no_newline, lemma_lines_of_join, rejoinable, strip_cr,
    chars_of, contains_text, has_substring, join, lines, owned, remove_all, same_text, spec_join,
    spec_lines, without_char,
};

verus! {

/// The sudoers rule that lets members of `wheel` run anything without a
/// password.
pub const WHEEL_RULE: &'static str = "%wheel ALL=(ALL:ALL) NOPASSWD: ALL";

/// The characters of [`WHEEL_RULE`].
pub open spec fn wheel_rule() -> Seq<char> {
    WHEEL_RULE@
}

/// `line` mentions one of `names`.
pub open spec fn mentions_any(line: Seq<char>, names: Seq<Seq<char>>) -> bool {
    exists|j: int| 0 <= j < names.len() && has_substring(line, #[trigger] names[j])
}

/// A line of `locale.gen` after uncommenting: every `'#'` is taken out of a
/// line that mentions one of the wanted locales; other lines stay as they are.
pub open spec fn uncomment_line(line: Seq<char>, names: Seq<Seq<char>>) -> Seq<char> {
    if mentions_any(line, names) {
        remove_all(line, '#')
    } else {
        line
    }
}

/// `locale.gen` with the wanted locales uncommented, its lines joined by
/// `'\n'`.
pub open spec fn uncommented_locales(contents: Seq<char>, names: Seq<Seq<char>>) -> Seq<char> {
    spec_join(spec_lines(contents).map_values(|l: Seq<char>| uncomment_line(l, names)), seq!['\n'])
}

/// `sudoers` with every copy of the wheel rule taken out and the rule put
/// back once, as the last line.
pub open spec fn wheel_allowed(contents: Seq<char>) -> Seq<char> {
    spec_join(remove_all(spec_lines(contents), wheel_rule()).push(wheel_rule()), seq!['\n'])
}

/// A change the installer makes to the text of a system file.
#[derive(Debug, Clone, PartialEq, Eq)]
pub enum Edit {
    /// Uncomment, in `/etc/locale.gen`, the lines that mention these locales.
    UncommentLocales(Vec<String>),
    /// Make `/etc/sudoers` end with the wheel rule, held once.
    AllowWheel,
}

/// What an [`Edit`] is, in terms of plain values.
pub enum EditModel {
    UncommentLocales(Seq<Seq<char>>),
    AllowWheel,
}

impl View for Edit {
    type V = EditModel;

    open spec fn view(&self) -> EditModel {
        match self {
            Edit::UncommentLocales(names) => EditModel::UncommentLocales(names.deep_view()),
            Edit::AllowWheel => EditModel::AllowWheel,
        }
    }
}

impl EditModel {
    /// The text that the edit makes of `contents`.
    pub open spec fn result(self, contents: Seq<char>) -> Seq<char> {
        match self {
            EditModel::UncommentLocales(names) => uncommented_locales(contents, names),
            EditModel::AllowWheel => wheel_allowed(contents),
        }
    }
}

impl Edit {
    /// The text that this edit makes of `contents`.
    pub fn apply(&self, contents: &str) -> (res: String)
        ensures
            res@ == self@.result(contents@),
    {
        match self {
            Edit::UncommentLocales(names) => uncomment_locale_text(contents, names),
            Edit::AllowWheel => allow_wheel_text(contents),
        }
    }
}

/// Whether `line` mentions one of `names`.
fn mentions_any_exec(line: &Vec<char>, names: &Vec<Vec<char>>) -> (res: bool)
    ensures
        res == mentions_any(line@, names@.map_values(|v: Vec<char>| v@)),
{
    let ghost ns = names@.map_values(|v: Vec<char>| v@);
    let mut j: usize = 0;
    while j < names.len()
        invariant
            j <= names.len(),
            ns == names@.map_values(|v: Vec<char>| v@),
            forall|k: int| 0 <= k < j ==> !has_substring(line@, #[trigger] ns[k]),
        decreases names.len() - j,
    {
        assert(ns[j as int] == names[j as int]@);
        if contains_text(line, &names[j]) {
            return true;
        }
        j += 1;
    }
    false
}

/// `contents` (the text of `/etc/locale.gen`) with every line that mentions
/// one of `names` uncommented.
pub fn uncomment_locale_text(contents: &str, names: &Vec<String>) -> (res: String)
    ensures
        res@ == uncommented_locales(contents@, names.deep_view()),
{
    let mut wanted: Vec<Vec<char>> = Vec::new();
    let mut j: usize = 0;
    while j < names.len()
        invariant
            j <= names.len(),
            wanted@.map_values(|v: Vec<char>| v@) == names.deep_view().take(j as int),
        decreases names.len() - j,
    {
        let ghost old_dv = wanted@.map_values(|v: Vec<char>| v@);
        wanted.push(chars_of(names[j].as_str()));
        assert(wanted@.map_values(|v: Vec<char>| v@) =~= old_dv.push(names[j as int]@));
        assert(names.deep_view().take(j + 1) =~= names.deep_view().take(j as int).push(
            names[j as int]@,
        ));
        j += 1;
    }
    assert(names.deep_view().take(names.len() as int) == names.deep_view());
    let ls = lines(contents);
    let ghost f = |l: Seq<char>| uncomment_line(l, names.deep_view());
    let mut out: Vec<String> = Vec::new();
    let mut i: usize = 0;
    while i < ls.len()
        invariant
            i <= ls.len(),
            wanted@.map_values(|v: Vec<char>| v@) == names.deep_view(),
            ls.deep_view() == spec_lines(contents@),
            f == (|l: Seq<char>| uncomment_line(l, names.deep_view())),
            out.deep_view() == ls.deep_view().take(i as int).map_values(f),
        decreases ls.len() - i,
    {
        let line = chars_of(ls[i].as_str());
        let new_line = if mentions_any_exec(&line, &wanted) {
            without_char(&line, '#')
        } else {
            owned(ls[i].as_str())
        };
        assert(new_line@ == f(ls[i as int]@));
        let ghost old_dv = out.deep_view();
        out.push(new_line);
        assert(out.deep_view() =~= old_dv.push(f(ls[i as int]@)));
        assert(ls.deep_view().take(i + 1) =~= ls.deep_view().take(i as int).push(ls[i as int]@));
        assert(ls.deep_view().take(i + 1).map_values(f) =~= ls.deep_view().take(i as int).map_values(
            f,
        ).push(f(ls[i as int]@)));
        i += 1;
    }
    assert(ls.deep_view().take(ls.len() as int) == ls.deep_view());
    assert(out.deep_view() =~= spec_lines(contents@).map_values(
        |l: Seq<char>| uncomment_line(l, names.deep_view()),
    ));
    let res = join(&out, "\n");
    proof {
        reveal_strlit("\n");
        assert("\n"@ == seq!['\n']);
    }
    res
}

/// `contents` (the text of `/etc/sudoers`) without any copy of the wheel rule,
/// with the rule appended as the last line.
pub fn allow_wheel_text(contents: &str) -> (res: String)
    ensures
        res@ == wheel_allowed(contents@),
{
    let ls = lines(contents);
    let mut out: Vec<String> = Vec::new();
    let mut i: usize = 0;
    while i < ls.len()
        invariant
            i <= ls.len(),
            ls.deep_view() == spec_lines(contents@),
            out.deep_view() == remove_all(ls.deep_view().take(i as int), wheel_rule()),
        decreases ls.len() - i,
    {
        assert(ls.deep_view().take(i + 1).drop_last() =~= ls.deep_view().take(i as int));
        assert(ls.deep_view().take(i + 1).last() == ls[i as int]@);
        if !same_text(ls[i].as_str(), WHEEL_RULE) {
            let ghost old_dv = out.deep_view();
            out.push(owned(ls[i].as_str()));
            assert(out.deep_view() =~= old_dv.push(ls[i as int]@));
        }
        i += 1;
    }
    assert(ls.deep_view().take(ls.len() as int) == ls.deep_view());
    let ghost old_dv = out.deep_view();
    out.push(owned(WHEEL_RULE));
    assert(out.deep_view() =~= old_dv.push(wheel_rule()));
    let res = join(&out, "\n");
    proof {
        reveal_strlit("\n");
        assert("\n"@ == seq!['\n']);
    }
    res
}


// ---------------------------------------------------------------------------
// Laws of the edits.
// ---------------------------------------------------------------------------

/// Every element left by `remove_all` differs from the removed value and
/// comes from the original sequence.
pub proof fn lemma_remove_all_members<A>(s: Seq<A>, x: A)
    ensures
        forall|i: int|
            0 <= i < remove_all(s, x).len() ==> #[trigger] remove_all(s, x)[i] != x && s.contains(
                remove_all(s, x)[i],
            ),
    decreases s.len(),
{
    if s.len() > 0 {
        lemma_remove_all_members(s.drop_last(), x);
        let r = remove_all(s.drop_last(), x);
        assert forall|i: int| 0 <= i < remove_all(s, x).len() implies #[trigger] remove_all(
            s,
            x,
        )[i] != x && s.contains(remove_all(s, x)[i]) by {
            if i < r.len() {
                assert(remove_all(s, x)[i] == r[i]);
                let k = choose|k: int| 0 <= k < s.drop_last().len() && s.drop_last()[k] == r[i];
                assert(s[k] == r[i]);
            } else {
                assert(remove_all(s, x)[i] == s.last());
                assert(s[s.len() - 1] == s.last());
            }
        }
    }
}

/// Removing a value that does not occur changes nothing.
pub proof fn lemma_remove_all_absent<A>(s: Seq<A>, x: A)
    requires
        !s.contains(x),
    ensures
        remove_all(s, x) == s,
    decreases s.len(),
{
    if s.len() > 0 {
        assert(!s.drop_last().contains(x)) by {
            if s.drop_last().contains(x) {
                let k = choose|k: int| 0 <= k < s.drop_last().len() && s.drop_last()[k] == x;
                assert(s[k] == x);
            }
        }
        lemma_remove_all_absent(s.drop_last(), x);
        assert(s[s.len() - 1] == s.last());
        assert(s.drop_last().push(s.last()) == s);
    }
}

/// Removing a value twice removes no more than removing it once.
pub proof fn lemma_remove_all_idempotent<A>(s: Seq<A>, x: A)
    ensures
        remove_all(remove_all(s, x), x) == remove_all(s, x),
{
    lemma_remove_all_members(s, x);
    let r = remove_all(s, x);
    assert(!r.contains(x)) by {
        if r.contains(x) {
            let k = choose|k: int| 0 <= k < r.len() && r[k] == x;
            assert(r[k] != x);
        }
    }
    lemma_remove_all_absent(r, x);
}

/// Law: uncommenting a line a second time changes nothing more.
pub proof fn lemma_uncomment_line_idempotent(line: Seq<char>, names: Seq<Seq<char>>)
    ensures
        uncomment_line(uncomment_line(line, names), names) == uncomment_line(line, names),
{
    lemma_remove_all_idempotent(line, '#');
}

/// The wheel rule is one non-empty line.
pub proof fn lemma_wheel_rule_is_a_line()
    ensures
        wheel_rule().len() > 0,
        !wheel_rule().contains('\n'),
{
    reveal_strlit("%wheel ALL=(ALL:ALL) NOPASSWD: ALL");
    assert(wheel_rule().len() > 0);
    if wheel_rule().contains('\n') {
        let k = choose|k: int| 0 <= k < wheel_rule().len() && wheel_rule()[k] == '\n';
        assert(false);
    }
}

/// No line of `contents` ends with a carriage return.
pub open spec fn no_line_ends_with_cr(contents: Seq<char>) -> bool {
    forall|i: int|
        0 <= i < spec_lines(contents).len() ==> strip_cr(#[trigger] spec_lines(contents)[i])
            == spec_lines(contents)[i]
}

/// Law: the lines of an edited sudoers file are its former lines other than
/// the wheel rule, in their order, followed by the wheel rule, held once;
/// for files none of whose lines ends with a carriage return.
pub proof fn law_allow_wheel_lines(contents: Seq<char>)
    requires
        no_line_ends_with_cr(contents),
    ensures
        spec_lines(wheel_allowed(contents)) == remove_all(spec_lines(contents), wheel_rule()).push(
            wheel_rule(),
        ),
        forall|i: int|
            0 <= i < spec_lines(wheel_allowed(contents)).len() - 1 ==> #[trigger] spec_lines(
                wheel_allowed(contents),
            )[i] != wheel_rule(),
{
    let ls = spec_lines(contents);
    let r = wheel_rule();
    let kept = remove_all(ls, r);
    let m = kept.push(r);
    lemma_lines_have_no_newline(contents);
    lemma_remove_all_members(ls, r);
    lemma_wheel_rule_is_a_line();
    assert forall|i: int| 0 <= i < m.len() implies !(#[trigger] m[i]).contains('\n') by {
        if i < kept.len() {
            let k = choose|k: int| 0 <= k < ls.len() && ls[k] == kept[i];
            assert(!ls[k].contains('\n'));
        }
    }
    assert forall|i: int| 0 <= i < m.len() - 1 implies strip_cr(#[trigger] m[i]) == m[i] by {
        let k = choose|k: int| 0 <= k < ls.len() && ls[k] == kept[i];
        assert(strip_cr(ls[k]) == ls[k]);
    }
    assert(rejoinable(m));
    lemma_lines_of_join(m);
    assert forall|i: int| 0 <= i < m.len() - 1 implies #[trigger] m[i] != r by {
        assert(m[i] == kept[i]);
    }
}

/// Law: allowing the wheel group in a sudoers file that already allows it
/// changes nothing, for files none of whose lines ends with a carriage
/// return.
pub proof fn law_allow_wheel_idempotent(contents: Seq<char>)
    requires
        no_line_ends_with_cr(contents),
    ensures
        wheel_allowed(wheel_allowed(contents)) == wheel_allowed(contents),
{
    let ls = spec_lines(contents);
    let r = wheel_rule();
    let kept = remove_all(ls, r);
    let m = kept.push(r);
    law_allow_wheel_lines(contents);
    assert(m.drop_last() == kept);
    assert(remove_all(m, r) == remove_all(kept, r));
    lemma_remove_all_idempotent(ls, r);
}

/// Law: the lines of `locale.gen` after the edit are its former lines, in
/// order, each uncommented where it mentions a wanted locale, where these
/// lines can be told apart again once joined (see [`rejoinable`]).
pub proof fn law_uncommented_lines(contents: Seq<char>, names: Seq<Seq<char>>)
    requires
        rejoinable(spec_lines(contents).map_values(|l: Seq<char>| uncomment_line(l, names))),
    ensures
        spec_lines(uncommented_locales(contents, names)) == spec_lines(contents).map_values(
            |l: Seq<char>| uncomment_line(l, names),
        ),
{
    lemma_lines_of_join(spec_lines(contents).map_values(|l: Seq<char>| uncomment_line(l, names)));
}

/// Law: uncommenting the same locales a second time changes nothing, where
/// the uncommented lines can be told apart again once joined (see
/// [`rejoinable`]).
pub proof fn law_uncomment_locales_idempotent(contents: Seq<char>, names: Seq<Seq<char>>)
    requires
        rejoinable(spec_lines(contents).map_values(|l: Seq<char>| uncomment_line(l, names))),
    ensures
        uncommented_locales(uncommented_locales(contents, names), names) == uncommented_locales(
            contents,
            names,
        ),
{
    let m = spec_lines(contents).map_values(|l: Seq<char>| uncomment_line(l, names));
    law_uncommented_lines(contents, names);
    assert forall|i: int| 0 <= i < m.len() implies uncomment_line(#[trigger] m[i], names) == m[i] by {
        lemma_uncomment_line_idempotent(spec_lines(contents)[i], names);
    }
    assert(m.map_values(|l: Seq<char>| uncomment_line(l, names)) =~= m);
}

} // verus!
