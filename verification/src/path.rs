//! Paths as `/`-separated strings.
//!
//! A path is split into components the way `std::path` does on Unix: empty
//! segments (from repeated or trailing separators) are dropped, `.` is kept
//! only as the first component of a relative path, and an absolute path
//! starts with the root component `/`.
use vstd::prelude::*;

use crate::text;

verus! {

/// The segments of `p` between `sep` characters (always at least one).
pub open spec fn split_on(p: Seq<char>, sep: char) -> Seq<Seq<char>>
    decreases p.len(),
{
    if p.len() == 0 {
        seq![Seq::empty()]
    } else {
        let r = split_on(p.drop_last(), sep);
        if p.last() == sep {
            r.push(Seq::empty())
        } else {
            r.update(r.len() - 1, r.last().push(p.last()))
        }
    }
}

/// Whether the raw segment at index `i` is a component.
pub open spec fn keeps_segment(s: Seq<char>, i: int, absolute: bool) -> bool {
    s.len() > 0 && (s != seq!['.'] || (i == 0 && !absolute))
}

/// The components among the first `n` raw segments.
pub open spec fn kept(raw: Seq<Seq<char>>, n: int, absolute: bool) -> Seq<Seq<char>>
    decreases n,
{
    if n <= 0 {
        Seq::empty()
    } else {
        let r = kept(raw, n - 1, absolute);
        if keeps_segment(raw[n - 1], n - 1, absolute) {
            r.push(raw[n - 1])
        } else {
            r
        }
    }
}

/// Whether a path is absolute (starts with `/`).
pub open spec fn is_absolute(p: Seq<char>) -> bool {
    p.len() > 0 && p[0] == '/'
}

/// The components of a path; an absolute path starts with the component `/`.
pub open spec fn components(p: Seq<char>) -> Seq<Seq<char>> {
    let raw = split_on(p, '/');
    let body = kept(raw, raw.len() as int, is_absolute(p));
    if is_absolute(p) {
        seq![seq!['/']] + body
    } else {
        body
    }
}

/// Components joined by `sep`.
pub open spec fn join_with(cs: Seq<Seq<char>>, sep: Seq<char>) -> Seq<char>
    decreases cs.len(),
{
    if cs.len() == 0 {
        Seq::empty()
    } else if cs.len() == 1 {
        cs[0]
    } else {
        join_with(cs.drop_last(), sep) + sep + cs.last()
    }
}

/// The path text for a list of components.
pub open spec fn render(cs: Seq<Seq<char>>) -> Seq<char> {
    if cs.len() > 0 && cs[0] == seq!['/'] {
        seq!['/'] + join_with(cs.drop_first(), seq!['/'])
    } else {
        join_with(cs, seq!['/'])
    }
}

/// `a` is a prefix of `b` (as sequences of components).
pub open spec fn comps_prefix(a: Seq<Seq<char>>, b: Seq<Seq<char>>) -> bool {
    a.len() <= b.len() && b.take(a.len() as int) == a
}

/// `Path::starts_with`: the components of `base` are a prefix of those of `p`.
pub open spec fn path_starts_with(p: Seq<char>, base: Seq<char>) -> bool {
    comps_prefix(components(base), components(p))
}

/// `Path::strip_prefix`: the rest of `p` after `base`, if `p` starts with `base`.
pub open spec fn strip_prefix_spec(p: Seq<char>, base: Seq<char>) -> Option<Seq<char>> {
    if path_starts_with(p, base) {
        Some(render(components(p).skip(components(base).len() as int)))
    } else {
        None
    }
}

/// `Path::parent`: the path without its last component, if it has one.
pub open spec fn parent_spec(p: Seq<char>) -> Option<Seq<char>> {
    let cs = components(p);
    if cs.len() == 0 || cs.last() == seq!['/'] {
        None
    } else {
        Some(render(cs.drop_last()))
    }
}

/// `Path::file_name`: the last component, if it is a normal one.
pub open spec fn file_name_spec(p: Seq<char>) -> Option<Seq<char>> {
    let cs = components(p);
    if cs.len() == 0 || cs.last() == seq!['/'] || cs.last() == seq!['.'] || cs.last() == seq![
        '.',
        '.',
    ] {
        None
    } else {
        Some(cs.last())
    }
}

/// Index of the last `.` in `s`, if any.
pub open spec fn last_dot(s: Seq<char>) -> Option<int>
    decreases s.len(),
{
    if s.len() == 0 {
        None
    } else if s.last() == '.' {
        Some(s.len() - 1)
    } else {
        last_dot(s.drop_last())
    }
}

/// `Path::file_stem` of a file name: the name without its extension.
pub open spec fn stem_of_name(name: Seq<char>) -> Seq<char> {
    match last_dot(name) {
        Some(i) => if i == 0 {
            name
        } else {
            name.take(i)
        },
        None => name,
    }
}

/// `dir.join(name)` for a relative, separator-free `name`.
pub open spec fn join_spec(dir: Seq<char>, name: Seq<char>) -> Seq<char> {
    if dir.len() == 0 || dir.last() == '/' {
        dir + name
    } else {
        dir + seq!['/'] + name
    }
}

/// Splits a string at a separator character.
pub fn split_exec(p: &Vec<char>, sep: char) -> (r: Vec<Vec<char>>)
    ensures
        r@.len() == split_on(p@, sep).len(),
        forall|i: int| 0 <= i < r@.len() ==> #[trigger] r@[i]@ == split_on(p@, sep)[i],
{
    let mut r: Vec<Vec<char>> = Vec::new();
    r.push(Vec::new());
    let mut i: usize = 0;
    assert(p@.take(0) =~= Seq::<char>::empty());
    while i < p.len()
        invariant
            i <= p.len(),
            r@.len() == split_on(p@.take(i as int), sep).len(),
            r@.len() >= 1,
            forall|k: int| 0 <= k < r@.len() ==> #[trigger] r@[k]@ == split_on(
                p@.take(i as int),
                sep,
            )[k],
        decreases p.len() - i,
    {
        let c = p[i];
        assert(p@.take(i + 1).drop_last() =~= p@.take(i as int));
        if c == sep {
            r.push(Vec::new());
        } else {
            let last = r.len() - 1;
            let mut cur = r.pop().unwrap();
            cur.push(c);
            r.push(cur);
        }
        i = i + 1;
    }
    assert(p@.take(p.len() as int) =~= p@);
    r
}

/// Character-sequence equality with a literal-free two-char check helper.
fn is_dot(s: &Vec<char>) -> (r: bool)
    ensures
        r == (s@ == seq!['.']),
{
    if s.len() == 1 && s[0] == '.' {
        assert(s@ =~= seq!['.']);
        true
    } else {
        false
    }
}

/// The components of a path, as character vectors.
pub fn components_exec(p: &str) -> (r: Vec<Vec<char>>)
    ensures
        r@.len() == components(p@).len(),
        forall|i: int| 0 <= i < r@.len() ==> #[trigger] r@[i]@ == components(p@)[i],
{
    let cs = text::chars_of(p);
    let absolute = cs.len() > 0 && cs[0] == '/';
    let raw = split_exec(&cs, '/');
    let ghost rawv = split_on(p@, '/');
    let mut r: Vec<Vec<char>> = Vec::new();
    if absolute {
        let mut root: Vec<char> = Vec::new();
        root.push('/');
        r.push(root);
    }
    let ghost pre: Seq<Seq<char>> = if absolute {
        seq![seq!['/']]
    } else {
        Seq::empty()
    };
    assert(r@.len() == pre.len());
    let mut i: usize = 0;
    while i < raw.len()
        invariant
            i <= raw@.len(),
            raw@.len() == rawv.len(),
            forall|k: int| 0 <= k < raw@.len() ==> #[trigger] raw@[k]@ == rawv[k],
            absolute == is_absolute(p@),
            rawv == split_on(p@, '/'),
            pre == (if absolute { seq![seq!['/']] } else { Seq::<Seq<char>>::empty() }),
            r@.len() == pre.len() + kept(rawv, i as int, absolute).len(),
            forall|k: int| 0 <= k < r@.len() ==> #[trigger] r@[k]@ == (pre + kept(
                rawv,
                i as int,
                absolute,
            ))[k],
        decreases raw@.len() - i,
    {
        let seg = &raw[i];
        let keep = seg.len() > 0 && (!is_dot(seg) || (i == 0 && !absolute));
        let ghost old_r = r@;
        if keep {
            r.push(copy_chars(seg));
        }
        i = i + 1;
        assert forall|k: int| 0 <= k < r@.len() implies #[trigger] r@[k]@ == (pre + kept(
            rawv,
            i as int,
            absolute,
        ))[k] by {
            if k < old_r.len() {
                assert(r@[k] == old_r[k]);
            }
        }
    }
    r
}

/// Character views of a list of character vectors.
pub open spec fn vviews(v: Seq<Vec<char>>) -> Seq<Seq<char>> {
    v.map_values(|c: Vec<char>| c@)
}

/// Text of a list of components (see [`render`]).
pub fn render_exec(cs: &Vec<Vec<char>>) -> (r: String)
    ensures
        r@ == render(vviews(cs@)),
{
    let ghost cv = vviews(cs@);
    let rooted = cs.len() > 0 && cs[0].len() == 1 && cs[0][0] == '/';
    assert(rooted <==> (cv.len() > 0 && cv[0] == seq!['/'])) by {
        if cv.len() > 0 {
            assert(cv[0] == cs@[0]@);
            if cs@[0]@.len() == 1 && cs@[0]@[0] == '/' {
                assert(cs@[0]@ =~= seq!['/']);
            }
        }
    }
    let first: usize = if rooted { 1 } else { 0 };
    let mut out: Vec<char> = Vec::new();
    if rooted {
        out.push('/');
    }
    let ghost pre = out@;
    assert(pre =~= (if rooted { seq!['/'] } else { Seq::<char>::empty() }));
    let ghost body: Seq<Seq<char>> = cv.skip(first as int);
    assert(!rooted ==> body =~= cv);
    let mut i: usize = first;
    assert(body.take(0) =~= Seq::<Seq<char>>::empty());
    while i < cs.len()
        invariant
            first <= i <= cs@.len(),
            first <= 1,
            cv == vviews(cs@),
            body == cv.skip(first as int),
            out@ == pre + join_with(body.take(i - first), seq!['/']),
        decreases cs@.len() - i,
    {
        let ghost k = i - first;
        if i > first {
            out.push('/');
        }
        let seg = &cs[i];
        let mut j: usize = 0;
        let ghost before = out@;
        while j < seg.len()
            invariant
                j <= seg@.len(),
                out@ == before + seg@.take(j as int),
            decreases seg@.len() - j,
        {
            out.push(seg[j]);
            j = j + 1;
        }
        i = i + 1;
        proof {
            assert(body.take(k + 1).drop_last() =~= body.take(k));
            assert(body[k] == seg@);
            assert(seg@.take(seg@.len() as int) =~= seg@);
            if k == 0 {
                assert(join_with(body.take(1), seq!['/']) == body.take(1)[0]);
            }
        }
    }
    assert(body.take(i - first) =~= body);
    assert(rooted ==> body =~= cv.drop_first());
    text::string_of(&out)
}

/// A copy of a character vector.
pub fn copy_chars(v: &Vec<char>) -> (r: Vec<char>)
    ensures
        r@ == v@,
{
    let mut r: Vec<char> = Vec::new();
    let mut i: usize = 0;
    while i < v.len()
        invariant
            i <= v@.len(),
            r@ == v@.take(i as int),
        decreases v@.len() - i,
    {
        r.push(v[i]);
        i = i + 1;
        assert(r@ =~= v@.take(i as int));
    }
    assert(v@.take(i as int) =~= v@);
    r
}

/// Whether the component list `a` is a prefix of `b`.
fn comps_prefix_exec(a: &Vec<Vec<char>>, b: &Vec<Vec<char>>) -> (r: bool)
    ensures
        r == comps_prefix(vviews(a@), vviews(b@)),
{
    if a.len() > b.len() {
        return false;
    }
    let mut i: usize = 0;
    while i < a.len()
        invariant
            i <= a@.len() <= b@.len(),
            forall|k: int| 0 <= k < i ==> a@[k]@ == b@[k]@,
        decreases a@.len() - i,
    {
        if !text::seq_eq(&a[i], &b[i]) {
            assert(vviews(b@).take(a@.len() as int)[i as int] != vviews(a@)[i as int]);
            return false;
        }
        i = i + 1;
    }
    assert(vviews(b@).take(a@.len() as int) =~= vviews(a@));
    true
}

/// The components from index `start` on.
fn tail_comps(cs: &Vec<Vec<char>>, start: usize) -> (r: Vec<Vec<char>>)
    requires
        start <= cs@.len(),
    ensures
        vviews(r@) == vviews(cs@).skip(start as int),
{
    let mut r: Vec<Vec<char>> = Vec::new();
    let mut i: usize = start;
    while i < cs.len()
        invariant
            start <= i <= cs@.len(),
            vviews(r@) == vviews(cs@).skip(start as int).take(i - start),
        decreases cs@.len() - i,
    {
        let ghost prev = r@;
        let c = copy_chars(&cs[i]);
        r.push(c);
        assert(vviews(r@) =~= vviews(prev).push(c@));
        i = i + 1;
        assert(vviews(r@) =~= vviews(cs@).skip(start as int).take(i - start));
    }
    assert(vviews(cs@).skip(start as int).take(i - start) =~= vviews(cs@).skip(start as int));
    r
}

/// The components before index `end`.
fn head_comps(cs: &Vec<Vec<char>>, end: usize) -> (r: Vec<Vec<char>>)
    requires
        end <= cs@.len(),
    ensures
        vviews(r@) == vviews(cs@).take(end as int),
{
    let mut r: Vec<Vec<char>> = Vec::new();
    let mut i: usize = 0;
    while i < end
        invariant
            i <= end <= cs@.len(),
            vviews(r@) == vviews(cs@).take(i as int),
        decreases end - i,
    {
        let ghost prev = r@;
        let c = copy_chars(&cs[i]);
        r.push(c);
        assert(vviews(r@) =~= vviews(prev).push(c@));
        i = i + 1;
        assert(vviews(r@) =~= vviews(cs@).take(i as int));
    }
    r
}

/// Components of `p` as a vector whose views are `components(p@)`.
fn comps_of(p: &str) -> (r: Vec<Vec<char>>)
    ensures
        vviews(r@) == components(p@),
{
    let r = components_exec(p);
    assert(vviews(r@) =~= components(p@));
    r
}

/// `Path::starts_with` on component boundaries.
pub fn starts_with(p: &str, base: &str) -> (r: bool)
    ensures
        r == path_starts_with(p@, base@),
{
    let a = comps_of(base);
    let b = comps_of(p);
    comps_prefix_exec(&a, &b)
}

/// `Path::strip_prefix`: the rest of `p` relative to `base`.
pub fn strip_prefix(p: &str, base: &str) -> (r: Option<String>)
    ensures
        match r {
            Some(s) => strip_prefix_spec(p@, base@) == Some(s@),
            None => strip_prefix_spec(p@, base@) is None,
        },
{
    let a = comps_of(base);
    let b = comps_of(p);
    if comps_prefix_exec(&a, &b) {
        let rest = tail_comps(&b, a.len());
        Some(render_exec(&rest))
    } else {
        None
    }
}

/// `p` relative to `base` when it lies under it, `p` itself otherwise.
pub fn relative_to(p: &str, base: &str) -> (r: String)
    ensures
        r@ == match strip_prefix_spec(p@, base@) {
            Some(s) => s,
            None => p@,
        },
{
    match strip_prefix(p, base) {
        Some(s) => s,
        None => text::owned(p),
    }
}

/// `Path::parent`.
pub fn parent(p: &str) -> (r: Option<String>)
    ensures
        match r {
            Some(s) => parent_spec(p@) == Some(s@),
            None => parent_spec(p@) is None,
        },
{
    let cs = comps_of(p);
    if cs.len() == 0 {
        return None;
    }
    let last = &cs[cs.len() - 1];
    if last.len() == 1 && last[0] == '/' {
        assert(last@ =~= seq!['/']);
        return None;
    }
    assert(vviews(cs@).last() == last@);
    let head = head_comps(&cs, cs.len() - 1);
    assert(vviews(cs@).take(cs@.len() - 1) =~= vviews(cs@).drop_last());
    Some(render_exec(&head))
}

/// Number of components.
pub fn component_count(p: &str) -> (r: usize)
    ensures
        r == components(p@).len(),
{
    let cs = comps_of(p);
    cs.len()
}

/// `Path::file_name`.
pub fn file_name(p: &str) -> (r: Option<String>)
    ensures
        match r {
            Some(s) => file_name_spec(p@) == Some(s@),
            None => file_name_spec(p@) is None,
        },
{
    let cs = comps_of(p);
    if cs.len() == 0 {
        return None;
    }
    let last = &cs[cs.len() - 1];
    assert(vviews(cs@).last() == last@);
    if (last.len() == 1 && (last[0] == '/' || last[0] == '.')) || (last.len() == 2 && last[0]
        == '.' && last[1] == '.') {
        assert(last@.len() == 1 ==> last@ =~= seq![last@[0]]);
        assert(last@.len() == 2 ==> last@ =~= seq![last@[0], last@[1]]);
        return None;
    }
    assert(last@ != seq!['/'] && last@ != seq!['.'] && last@ != seq!['.', '.']) by {
        if last@ == seq!['/'] || last@ == seq!['.'] {
            assert(last@.len() == 1);
        }
        if last@ == seq!['.', '.'] {
            assert(last@.len() == 2);
        }
    }
    Some(text::string_of(last))
}

/// `Path::file_stem` of a file name.
pub fn stem_of(name: &str) -> (r: String)
    ensures
        r@ == stem_of_name(name@),
{
    let cs = text::chars_of(name);
    let mut i: usize = cs.len();
    assert(name@.take(i as int) =~= name@);
    while i > 0 && cs[i - 1] != '.'
        invariant
            i <= cs@.len(),
            cs@ == name@,
            last_dot(name@) == last_dot(name@.take(i as int)),
        decreases i,
    {
        assert(name@.take(i as int).drop_last() =~= name@.take(i - 1));
        i = i - 1;
    }
    if i <= 1 {
        if i == 1 {
            assert(name@.take(1).last() == '.');
        } else {
            assert(name@.take(0).len() == 0);
        }
        return text::owned(name);
    }
    assert(name@.take(i as int).last() == '.');
    let mut out: Vec<char> = Vec::new();
    let mut j: usize = 0;
    while j < i - 1
        invariant
            j <= i - 1,
            i <= cs@.len(),
            cs@ == name@,
            out@ == name@.take(j as int),
        decreases i - 1 - j,
    {
        out.push(cs[j]);
        j = j + 1;
        assert(out@ =~= name@.take(j as int));
    }
    text::string_of(&out)
}

/// `dir.join(name)` for a relative, separator-free `name`.
pub fn join(dir: &str, name: &str) -> (r: String)
    ensures
        r@ == join_spec(dir@, name@),
{
    let cs = text::chars_of(dir);
    let mut r = text::owned(dir);
    if cs.len() == 0 || cs[cs.len() - 1] == '/' {
        text::push_str(&mut r, name);
    } else {
        text::push_char(&mut r, '/');
        text::push_str(&mut r, name);
    }
    r
}

} // verus!
