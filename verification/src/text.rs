use vstd::prelude::*;

verus! {

// ---------------------------------------------------------------------------
// Specifications of the text operations the installer performs on files and
// command arguments.
// ---------------------------------------------------------------------------

/// The pieces of `s` between occurrences of `c` (always at least one piece).
pub open spec fn split_on(s: Seq<char>, c: char) -> Seq<Seq<char>>
    decreases s.len(),
{
    if s.len() == 0 {
        seq![Seq::<char>::empty()]
    } else {
        let p = split_on(s.drop_last(), c);
        if s.last() == c {
            p.push(Seq::<char>::empty())
        } else {
            p.update(p.len() - 1, p.last().push(s.last()))
        }
    }
}

/// `l` without one trailing carriage return.
pub open spec fn strip_cr(l: Seq<char>) -> Seq<char> {
    if l.len() > 0 && l.last() == '\r' {
        l.drop_last()
    } else {
        l
    }
}

/// The lines of `s` as `str::lines` yields them: `s` is cut at each `'\n'`,
/// a `'\r'` right before a `'\n'` is dropped, and a final line ending is
/// optional (it yields no empty last line).
pub open spec fn spec_lines(s: Seq<char>) -> Seq<Seq<char>> {
    let p = split_on(s, '\n');
    let n = p.len();
    if p[n - 1].len() == 0 {
        Seq::new((n - 1) as nat, |i: int| strip_cr(p[i]))
    } else {
        Seq::new(n, |i: int| if i < n - 1 { strip_cr(p[i]) } else { p[i] })
    }
}

/// The elements of `ls` with `sep` between each two of them.
pub open spec fn spec_join(ls: Seq<Seq<char>>, sep: Seq<char>) -> Seq<char>
    decreases ls.len(),
{
    if ls.len() == 0 {
        Seq::<char>::empty()
    } else if ls.len() == 1 {
        ls[0]
    } else {
        spec_join(ls.drop_last(), sep) + sep + ls.last()
    }
}

/// `s` with every occurrence of `x` taken out.
pub open spec fn remove_all<A>(s: Seq<A>, x: A) -> Seq<A>
    decreases s.len(),
{
    if s.len() == 0 {
        Seq::<A>::empty()
    } else {
        let r = remove_all(s.drop_last(), x);
        if s.last() == x {
            r
        } else {
            r.push(s.last())
        }
    }
}

/// `needle` occurs in `hay` as a contiguous piece.
pub open spec fn has_substring(hay: Seq<char>, needle: Seq<char>) -> bool {
    exists|i: int|
        0 <= i && i + needle.len() <= hay.len() && #[trigger] hay.subrange(i, i + needle.len())
            == needle
}

/// `s` begins with `p`.
pub open spec fn starts_with(s: Seq<char>, p: Seq<char>) -> bool {
    p.len() <= s.len() && s.subrange(0, p.len() as int) == p
}

/// `s` ends with `p`.
pub open spec fn ends_with(s: Seq<char>, p: Seq<char>) -> bool {
    p.len() <= s.len() && s.subrange(s.len() - p.len(), s.len() as int) == p
}

/// `s` without the suffix `p` where it ends with it (`str::strip_suffix`).
pub open spec fn strip_suffix(s: Seq<char>, p: Seq<char>) -> Option<Seq<char>> {
    if ends_with(s, p) {
        Some(s.subrange(0, s.len() - p.len()))
    } else {
        None
    }
}

/// A list of lines that `spec_lines` gives back unchanged once they are
/// joined with `'\n'`: no line holds a line feed, no line but the last ends
/// with a carriage return, and the last line is not empty.
pub open spec fn rejoinable(ls: Seq<Seq<char>>) -> bool {
    &&& forall|i: int| 0 <= i < ls.len() ==> !(#[trigger] ls[i]).contains('\n')
    &&& forall|i: int| 0 <= i < ls.len() - 1 ==> strip_cr(#[trigger] ls[i]) == ls[i]
    &&& ls.len() > 0 ==> ls.last().len() > 0
}

// ---------------------------------------------------------------------------
// Lemmas.
// ---------------------------------------------------------------------------

pub proof fn lemma_split_on_nonempty(s: Seq<char>, c: char)
    ensures
        split_on(s, c).len() >= 1,
    decreases s.len(),
{
    if s.len() > 0 {
        lemma_split_on_nonempty(s.drop_last(), c);
    }
}

/// No piece of `split_on(s, c)` holds `c`.
pub proof fn lemma_split_on_pieces(s: Seq<char>, c: char)
    ensures
        forall|i: int| 0 <= i < split_on(s, c).len() ==> !(#[trigger] split_on(s, c)[i]).contains(c),
    decreases s.len(),
{
    if s.len() > 0 {
        lemma_split_on_nonempty(s.drop_last(), c);
        lemma_split_on_pieces(s.drop_last(), c);
        let p = split_on(s.drop_last(), c);
        if s.last() != c {
            assert forall|i: int| 0 <= i < split_on(s, c).len() implies !(#[trigger] split_on(
                s,
                c,
            )[i]).contains(c) by {
                if i == p.len() - 1 {
                    let q = p.last().push(s.last());
                    assert(split_on(s, c)[i] == q);
                    if q.contains(c) {
                        let k = choose|k: int| 0 <= k < q.len() && q[k] == c;
                        assert(p.last()[k] == c);
                        assert(p[p.len() - 1].contains(c));
                    }
                }
            }
        } else {
            assert forall|i: int| 0 <= i < split_on(s, c).len() implies !(#[trigger] split_on(
                s,
                c,
            )[i]).contains(c) by {
                if i < p.len() {
                    assert(split_on(s, c)[i] == p[i]);
                }
            }
        }
    }
}

/// Appending a piece free of `c` extends the last piece.
pub proof fn lemma_split_on_append(x: Seq<char>, y: Seq<char>, c: char)
    requires
        !y.contains(c),
    ensures
        split_on(x + y, c) == split_on(x, c).update(
            split_on(x, c).len() - 1,
            split_on(x, c).last() + y,
        ),
    decreases y.len(),
{
    lemma_split_on_nonempty(x, c);
    let p = split_on(x, c);
    if y.len() == 0 {
        assert(x + y == x);
        assert(p.last() + y == p.last());
        assert(p.update(p.len() - 1, p.last()) == p);
    } else {
        let y0 = y.drop_last();
        assert(!y0.contains(c)) by {
            if y0.contains(c) {
                let k = choose|k: int| 0 <= k < y0.len() && y0[k] == c;
                assert(y[k] == c);
            }
        }
        lemma_split_on_append(x, y0, c);
        assert((x + y).drop_last() == x + y0);
        assert((x + y).last() == y.last());
        assert(y.last() != c) by {
            assert(y[y.len() - 1] == y.last());
        }
        assert(p.last() + y0 + seq![y.last()] == p.last() + y) by {
            assert(y0.push(y.last()) == y);
        }
        assert((p.last() + y0).push(y.last()) == p.last() + y);
    }
}

/// Joining pieces free of `c` with `c` and splitting again gives them back.
pub proof fn lemma_split_on_join(ls: Seq<Seq<char>>, c: char)
    requires
        ls.len() >= 1,
        forall|i: int| 0 <= i < ls.len() ==> !(#[trigger] ls[i]).contains(c),
    ensures
        split_on(spec_join(ls, seq![c]), c) == ls,
    decreases ls.len(),
{
    if ls.len() == 1 {
        assert(!ls[0].contains(c));
        lemma_split_on_append(Seq::<char>::empty(), ls[0], c);
        assert(Seq::<char>::empty() + ls[0] == ls[0]);
        assert(split_on(Seq::<char>::empty(), c) == seq![Seq::<char>::empty()]);
        assert(split_on(ls[0], c) == ls);
    } else {
        let front = ls.drop_last();
        lemma_split_on_join(front, c);
        let j = spec_join(front, seq![c]);
        assert(spec_join(ls, seq![c]) == j + seq![c] + ls.last());
        assert(j + seq![c] == j.push(c));
        assert(j.push(c).drop_last() == j);
        assert(split_on(j.push(c), c) == front.push(Seq::<char>::empty()));
        assert(!ls.last().contains(c)) by {
            assert(ls[ls.len() - 1] == ls.last());
        }
        lemma_split_on_append(j.push(c), ls.last(), c);
        assert(Seq::<char>::empty() + ls.last() == ls.last());
        assert(front.push(Seq::<char>::empty()).update(front.len() as int, ls.last()) == ls);
    }
}

/// The lines of a text hold no line feed.
pub proof fn lemma_lines_have_no_newline(s: Seq<char>)
    ensures
        forall|i: int| 0 <= i < spec_lines(s).len() ==> !(#[trigger] spec_lines(s)[i]).contains('\n'),
{
    lemma_split_on_nonempty(s, '\n');
    lemma_split_on_pieces(s, '\n');
    let p = split_on(s, '\n');
    assert forall|i: int| 0 <= i < spec_lines(s).len() implies !(#[trigger] spec_lines(
        s,
    )[i]).contains('\n') by {
        assert(!p[i].contains('\n'));
        if spec_lines(s)[i] != p[i] {
            assert(spec_lines(s)[i] == p[i].drop_last());
            if p[i].drop_last().contains('\n') {
                let k = choose|k: int| 0 <= k < p[i].drop_last().len() && p[i].drop_last()[k] == '\n';
                assert(p[i][k] == '\n');
            }
        }
    }
}

/// Law: splitting a text into lines undoes joining rejoinable lines with
/// `'\n'`.
pub proof fn lemma_lines_of_join(ls: Seq<Seq<char>>)
    requires
        rejoinable(ls),
    ensures
        spec_lines(spec_join(ls, seq!['\n'])) == ls,
{
    let s = spec_join(ls, seq!['\n']);
    if ls.len() == 0 {
        assert(s.len() == 0);
        assert(split_on(s, '\n') == seq![Seq::<char>::empty()]);
        assert(spec_lines(s) == ls);
    } else {
        lemma_split_on_join(ls, '\n');
        let n = ls.len();
        assert(ls[n - 1].len() > 0);
        assert(spec_lines(s) == ls);
    }
}


// ---------------------------------------------------------------------------
// Executable text operations.
// ---------------------------------------------------------------------------

/// `String::push`: appends `c` at the end of `s`, as its documentation
/// states; the contract claims exactly that.
#[verifier::external_body]
fn push_char(s: &mut String, c: char)
    ensures
        final(s)@ == old(s)@.push(c),
{
    s.push(c);
}

/// The characters of `s`, in order.
pub fn chars_of(s: &str) -> (res: Vec<char>)
    ensures
        res@ == s@,
{
    let mut res: Vec<char> = Vec::new();
    for c in it: s.chars()
        invariant
            res@ == it.seq().take(it.index() as int),
            it.seq() == s@,
    {
        res.push(c);
    }
    res
}

/// A string made of the characters `v[from..to]`.
pub fn string_of(v: &Vec<char>, from: usize, to: usize) -> (res: String)
    requires
        from <= to <= v.len(),
    ensures
        res@ == v@.subrange(from as int, to as int),
{
    let mut res = String::new();
    let mut i = from;
    while i < to
        invariant
            from <= i <= to <= v.len(),
            res@ == v@.subrange(from as int, i as int),
        decreases to - i,
    {
        push_char(&mut res, v[i]);
        assert(v@.subrange(from as int, i + 1) == v@.subrange(from as int, i as int).push(
            v@[i as int],
        ));
        i += 1;
    }
    res
}

/// A copy of `s` as an owned string.
pub fn owned(s: &str) -> (res: String)
    ensures
        res@ == s@,
{
    s.to_owned()
}

/// Appends the characters of `src` at the end of `dst`.
pub fn append_text(dst: &mut String, src: &str)
    ensures
        final(dst)@ == old(dst)@ + src@,
{
    dst.append(src);
}

/// `a` followed by `b`.
pub fn concat_text(a: &str, b: &str) -> (res: String)
    ensures
        res@ == a@ + b@,
{
    a.to_owned().concat(b)
}

/// Whether `a` and `b` hold the same characters.
pub fn same_text(a: &str, b: &str) -> (res: bool)
    ensures
        res == (a@ == b@),
{
    let va = chars_of(a);
    let vb = chars_of(b);
    if va.len() != vb.len() {
        return false;
    }
    let mut i: usize = 0;
    while i < va.len()
        invariant
            i <= va.len() == vb.len(),
            va@ == a@,
            vb@ == b@,
            forall|k: int| 0 <= k < i ==> va@[k] == vb@[k],
        decreases va.len() - i,
    {
        if va[i] != vb[i] {
            return false;
        }
        i += 1;
    }
    assert(va@ == vb@);
    true
}

/// Whether `needle` occurs in `hay` starting at index `at`.
fn occurs_at(hay: &Vec<char>, needle: &Vec<char>, at: usize) -> (res: bool)
    requires
        at + needle.len() <= hay.len(),
    ensures
        res == (hay@.subrange(at as int, at + needle.len()) == needle@),
{
    let mut k: usize = 0;
    while k < needle.len()
        invariant
            k <= needle.len(),
            at + needle.len() <= hay.len(),
            forall|j: int| 0 <= j < k ==> hay@[at + j] == needle@[j],
        decreases needle.len() - k,
    {
        if hay[at + k] != needle[k] {
            assert(hay@.subrange(at as int, at + needle.len())[k as int] != needle@[k as int]);
            return false;
        }
        k += 1;
    }
    assert(hay@.subrange(at as int, at + needle.len()) == needle@);
    true
}

/// Whether `needle` occurs in `hay` (`str::contains`).
pub fn contains_text(hay: &Vec<char>, needle: &Vec<char>) -> (res: bool)
    ensures
        res == has_substring(hay@, needle@),
{
    if needle.len() > hay.len() {
        return false;
    }
    if needle.len() == 0 {
        assert(hay@.subrange(0int, 0int + needle@.len()) == needle@);
        return true;
    }
    let last = hay.len() - needle.len();
    let mut i: usize = 0;
    while i <= last
        invariant
            last + needle.len() == hay.len(),
            needle.len() >= 1,
            i <= last + 1,
            forall|j: int|
                0 <= j < i ==> #[trigger] hay@.subrange(j, j + needle.len()) != needle@,
        decreases last + 1 - i,
    {
        if occurs_at(hay, needle, i) {
            return true;
        }
        i += 1;
    }
    false
}

/// `s` with every `c` taken out (`str::replace(c, "")`).
pub fn without_char(s: &Vec<char>, c: char) -> (res: String)
    ensures
        res@ == remove_all(s@, c),
{
    let mut res = String::new();
    let mut i: usize = 0;
    while i < s.len()
        invariant
            i <= s.len(),
            res@ == remove_all(s@.take(i as int), c),
        decreases s.len() - i,
    {
        assert(s@.take(i + 1).drop_last() == s@.take(i as int));
        if s[i] != c {
            push_char(&mut res, s[i]);
        }
        i += 1;
    }
    assert(s@.take(s.len() as int) == s@);
    res
}

/// The lines of `s`, as `str::lines` yields them.
pub fn lines(s: &str) -> (res: Vec<String>)
    ensures
        res.deep_view() == spec_lines(s@),
{
    let v = chars_of(s);
    let mut res: Vec<String> = Vec::new();
    let ghost mut done: Seq<Seq<char>> = Seq::empty();
    let mut start: usize = 0;
    let mut i: usize = 0;
    assert(v@.take(0) == Seq::<char>::empty());
    assert(v@.subrange(0, 0) == Seq::<char>::empty());
    assert(res.deep_view() == done.map_values(|l: Seq<char>| strip_cr(l)));
    while i < v.len()
        invariant
            v@ == s@,
            start <= i <= v.len(),
            split_on(v@.take(i as int), '\n') == done.push(v@.subrange(start as int, i as int)),
            res.deep_view() == done.map_values(|l: Seq<char>| strip_cr(l)),
        decreases v.len() - i,
    {
        let ghost t = v@.take(i + 1);
        assert(t.drop_last() == v@.take(i as int));
        assert(t.last() == v@[i as int]);
        if v[i] == '\n' {
            let ghost piece = v@.subrange(start as int, i as int);
            let end = if i > start && v[i - 1] == '\r' { i - 1 } else { i };
            let line = string_of(&v, start, end);
            assert(line@ == strip_cr(piece));
            let ghost old_dv = res.deep_view();
            res.push(line);
            proof {
                assert(res.deep_view() =~= old_dv.push(strip_cr(piece)));
                done = done.push(piece);
                assert(res.deep_view() =~= done.map_values(|l: Seq<char>| strip_cr(l)));
                assert(v@.subrange(i + 1, i + 1) == Seq::<char>::empty());
            }
            start = i + 1;
        } else {
            proof {
                let piece = v@.subrange(start as int, i as int);
                assert(v@.subrange(start as int, i + 1) == piece.push(v@[i as int]));
                let p = done.push(piece);
                assert(p.update(p.len() - 1, p.last().push(v@[i as int])) == done.push(
                    v@.subrange(start as int, i + 1),
                ));
            }
        }
        i += 1;
    }
    assert(v@.take(v@.len() as int) == v@);
    let ghost p = done.push(v@.subrange(start as int, v@.len() as int));
    assert(split_on(s@, '\n') == p);
    if start < v.len() {
        let last = string_of(&v, start, v.len());
        let ghost old_dv = res.deep_view();
        res.push(last);
        assert(res.deep_view() =~= old_dv.push(p.last()));
        assert(res.deep_view() =~= spec_lines(s@));
    } else {
        assert(p.last() =~= Seq::<char>::empty());
        assert(res.deep_view() =~= spec_lines(s@));
    }
    res
}

/// The strings of `parts` with `sep` between each two (`[T]::join`).
pub fn join(parts: &Vec<String>, sep: &str) -> (res: String)
    ensures
        res@ == spec_join(parts.deep_view(), sep@),
{
    let mut res = String::new();
    let mut i: usize = 0;
    while i < parts.len()
        invariant
            i <= parts.len(),
            res@ == spec_join(parts.deep_view().take(i as int), sep@),
        decreases parts.len() - i,
    {
        let ghost ls = parts.deep_view().take(i + 1);
        assert(ls.drop_last() == parts.deep_view().take(i as int));
        assert(ls.last() == parts[i as int]@);
        if i > 0 {
            append_text(&mut res, sep);
        }
        append_text(&mut res, parts[i].as_str());
        i += 1;
    }
    assert(parts.deep_view().take(parts.len() as int) == parts.deep_view());
    res
}

/// Whether `s` begins with `p` (`str::starts_with`).
pub fn text_starts_with(s: &str, p: &str) -> (res: bool)
    ensures
        res == starts_with(s@, p@),
{
    let vs = chars_of(s);
    let vp = chars_of(p);
    if vp.len() > vs.len() {
        return false;
    }
    let r = occurs_at(&vs, &vp, 0);
    r
}

/// `s` without the suffix `p` where it ends with it (`str::strip_suffix`).
pub fn text_strip_suffix(s: &str, p: &str) -> (res: Option<String>)
    ensures
        res.is_some() == strip_suffix(s@, p@).is_some(),
        res is Some ==> res->0@ == strip_suffix(s@, p@)->0,
{
    let vs = chars_of(s);
    let vp = chars_of(p);
    if vp.len() > vs.len() {
        return None;
    }
    let at = vs.len() - vp.len();
    if occurs_at(&vs, &vp, at) {
        Some(string_of(&vs, 0, at))
    } else {
        None
    }
}

} // verus!
