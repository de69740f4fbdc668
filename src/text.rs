//! Character-level text operations: whitespace trimming, line splitting,
//! whitespace normalization, joining and URL template filling.
use vstd::prelude::*;
use vstd::std_specs::iter::IteratorSpec;

verus! {

/// The characters that Unicode marks `White_Space`; these are exactly the
/// characters for which `char::is_whitespace` holds.
pub open spec fn is_space(c: char) -> bool {
    let u = c as u32;
    (0x09 <= u && u <= 0x0D) || u == 0x20 || u == 0x85 || u == 0xA0 || u == 0x1680 || (0x2000
        <= u && u <= 0x200A) || u == 0x2028 || u == 0x2029 || u == 0x202F || u == 0x205F || u
        == 0x3000
}

/// `s` without its leading whitespace.
pub open spec fn trim_start(s: Seq<char>) -> Seq<char>
    decreases s.len(),
{
    if s.len() > 0 && is_space(s[0]) {
        trim_start(s.drop_first())
    } else {
        s
    }
}

/// `s` without its trailing whitespace.
pub open spec fn trim_end(s: Seq<char>) -> Seq<char>
    decreases s.len(),
{
    if s.len() > 0 && is_space(s.last()) {
        trim_end(s.drop_last())
    } else {
        s
    }
}

/// `s` without leading and trailing whitespace.
pub open spec fn trim(s: Seq<char>) -> Seq<char> {
    trim_end(trim_start(s))
}

/// The pieces of `s` between line feeds; there is always at least one.
pub open spec fn split_lines(s: Seq<char>) -> Seq<Seq<char>>
    decreases s.len(),
{
    if s.len() == 0 {
        seq![Seq::empty()]
    } else {
        let prev = split_lines(s.drop_last());
        if s.last() == '\n' {
            prev.push(Seq::empty())
        } else {
            prev.update(prev.len() - 1, prev.last().push(s.last()))
        }
    }
}

/// The lines, each trimmed, with the empty ones left out.
pub open spec fn kept_lines(lines: Seq<Seq<char>>) -> Seq<Seq<char>>
    decreases lines.len(),
{
    if lines.len() == 0 {
        Seq::empty()
    } else {
        let prev = kept_lines(lines.drop_last());
        let t = trim(lines.last());
        if t.len() == 0 {
            prev
        } else {
            prev.push(t)
        }
    }
}

/// The parts, with `d` between each two neighbours.
pub open spec fn join(parts: Seq<Seq<char>>, d: Seq<char>) -> Seq<char>
    decreases parts.len(),
{
    if parts.len() == 0 {
        Seq::empty()
    } else if parts.len() == 1 {
        parts[0]
    } else {
        join(parts.drop_last(), d) + d + parts.last()
    }
}

/// The line feed as a one-character sequence.
pub open spec fn newline() -> Seq<char> {
    seq!['\n']
}

/// Whitespace normalization of a field: every line trimmed, blank lines
/// removed, the rest joined by single line feeds.
pub open spec fn normalize(s: Seq<char>) -> Seq<char> {
    join(kept_lines(split_lines(s)), newline())
}

/// The views of a sequence of strings.
pub open spec fn views(v: Seq<String>) -> Seq<Seq<char>> {
    v.map_values(|x: String| x@)
}

/// The characters of `s` in order.
pub(crate) fn chars_of(s: &str) -> (r: Vec<char>)
    ensures
        r@ == s@,
{
    broadcast use vstd::string::group_string_axioms;

    let mut it = s.chars();
    let mut r: Vec<char> = Vec::new();
    loop
        invariant
            r@ + it.remaining() == s@,
            it.decrease() is Some,
        ensures
            r@ + it.remaining() == s@,
            it.remaining().len() == 0,
        decreases it.decrease()->0,
    {
        match it.next() {
            Some(c) => {
                r.push(c);
            },
            None => {
                break ;
            },
        }
    }
    assert(r@ + it.remaining() =~= r@);
    r
}

/// Relies on `Iterator::collect` into `String`: the characters of `v` in order.
#[verifier::external_body]
pub(crate) fn string_of(v: &Vec<char>) -> (r: String)
    ensures
        r@ == v@,
{
    v.iter().collect()
}

/// Whether `c` is whitespace.
pub fn is_space_char(c: char) -> (r: bool)
    ensures
        r == is_space(c),
{
    let u = c as u32;
    (0x09 <= u && u <= 0x0D) || u == 0x20 || u == 0x85 || u == 0xA0 || u == 0x1680 || (0x2000
        <= u && u <= 0x200A) || u == 0x2028 || u == 0x2029 || u == 0x202F || u == 0x205F || u
        == 0x3000
}

proof fn lemma_trim_start_skip(s: Seq<char>, i: int)
    requires
        0 <= i < s.len(),
        is_space(s[i]),
    ensures
        trim_start(s.subrange(i, s.len() as int)) == trim_start(s.subrange(i + 1, s.len() as int)),
{
    assert(s.subrange(i, s.len() as int).drop_first() =~= s.subrange(i + 1, s.len() as int));
}

proof fn lemma_trim_end_skip(s: Seq<char>, j: int)
    requires
        0 < j <= s.len(),
        is_space(s[j - 1]),
    ensures
        trim_end(s.subrange(0, j)) == trim_end(s.subrange(0, j - 1)),
{
    assert(s.subrange(0, j).drop_last() =~= s.subrange(0, j - 1));
}

/// The characters of `v` without leading and trailing whitespace.
pub fn trim_chars(v: &Vec<char>) -> (r: Vec<char>)
    ensures
        r@ == trim(v@),
{
    let n = v.len();
    let mut i: usize = 0;
    assert(v@.subrange(0, n as int) =~= v@);
    while i < n && is_space_char(v[i])
        invariant
            0 <= i <= n,
            n == v@.len(),
            trim_start(v@) == trim_start(v@.subrange(i as int, n as int)),
        decreases n - i,
    {
        proof {
            lemma_trim_start_skip(v@, i as int);
        }
        i = i + 1;
    }
    let ghost rest = v@.subrange(i as int, n as int);
    assert(trim_start(rest) == rest);
    let mut j: usize = n;
    while j > i && is_space_char(v[j - 1])
        invariant
            i <= j <= n,
            n == v@.len(),
            rest == v@.subrange(i as int, n as int),
            trim_end(rest) == trim_end(v@.subrange(i as int, j as int)),
        decreases j,
    {
        proof {
            let w = v@.subrange(i as int, n as int);
            assert(v@.subrange(i as int, j as int) =~= w.subrange(0, j - i));
            assert(v@.subrange(i as int, j - 1) =~= w.subrange(0, j - 1 - i));
            lemma_trim_end_skip(w, j - i);
        }
        j = j - 1;
    }
    let ghost mid = v@.subrange(i as int, j as int);
    assert(trim_end(mid) == mid);
    let mut r: Vec<char> = Vec::new();
    let mut k: usize = i;
    while k < j
        invariant
            i <= k <= j <= n,
            n == v@.len(),
            r@ == v@.subrange(i as int, k as int),
        decreases j - k,
    {
        r.push(v[k]);
        assert(r@ =~= v@.subrange(i as int, k + 1));
        k = k + 1;
    }
    r
}

/// `s` without leading and trailing whitespace.
pub fn trim_text(s: &str) -> (r: String)
    ensures
        r@ == trim(s@),
{
    let v = chars_of(s);
    let t = trim_chars(&v);
    string_of(&t)
}

/// `x` holds no line feed.
pub open spec fn one_line(x: Seq<char>) -> bool {
    forall|j: int| 0 <= j < x.len() ==> x[j] != '\n'
}

/// `x` neither starts nor ends with whitespace.
pub open spec fn tight(x: Seq<char>) -> bool {
    x.len() > 0 ==> !is_space(x[0]) && !is_space(x.last())
}

proof fn lemma_split_len(s: Seq<char>)
    ensures
        split_lines(s).len() >= 1,
    decreases s.len(),
{
    if s.len() > 0 {
        lemma_split_len(s.drop_last());
    }
}

proof fn lemma_split_one_line(s: Seq<char>)
    ensures
        forall|i: int| 0 <= i < split_lines(s).len() ==> one_line(#[trigger] split_lines(s)[i]),
    decreases s.len(),
{
    if s.len() > 0 {
        lemma_split_one_line(s.drop_last());
        lemma_split_len(s.drop_last());
        let prev = split_lines(s.drop_last());
        if s.last() != '\n' {
            assert(one_line(prev.last()));
            assert(one_line(prev.last().push(s.last())));
        } else {
            assert(one_line(Seq::<char>::empty()));
        }
    }
}

proof fn lemma_trim_start_suffix(e: Seq<char>)
    ensures
        trim_start(e).len() <= e.len(),
        trim_start(e) == e.subrange(e.len() - trim_start(e).len(), e.len() as int),
        trim_start(e).len() > 0 ==> !is_space(trim_start(e)[0]),
    decreases e.len(),
{
    if e.len() > 0 && is_space(e[0]) {
        lemma_trim_start_suffix(e.drop_first());
        let t = trim_start(e.drop_first());
        assert(e.drop_first().subrange(e.len() - 1 - t.len(), e.len() - 1) =~= e.subrange(
            e.len() - t.len(),
            e.len() as int,
        ));
    } else {
        assert(e.subrange(0, e.len() as int) =~= e);
    }
}

proof fn lemma_trim_end_prefix(y: Seq<char>)
    ensures
        trim_end(y).len() <= y.len(),
        trim_end(y) == y.subrange(0, trim_end(y).len() as int),
        trim_end(y).len() > 0 ==> !is_space(trim_end(y).last()),
    decreases y.len(),
{
    if y.len() > 0 && is_space(y.last()) {
        lemma_trim_end_prefix(y.drop_last());
        let t = trim_end(y.drop_last());
        assert(y.drop_last().subrange(0, t.len() as int) =~= y.subrange(0, t.len() as int));
    } else {
        assert(y.subrange(0, y.len() as int) =~= y);
    }
}

/// Trimming yields a piece of the input that starts and ends with a
/// character other than whitespace, and trimming it again changes nothing.
proof fn lemma_trim_tight(e: Seq<char>)
    ensures
        tight(trim(e)),
        trim(trim(e)) == trim(e),
        one_line(e) ==> one_line(trim(e)),
{
    lemma_trim_start_suffix(e);
    let a = trim_start(e);
    lemma_trim_end_prefix(a);
    let t = trim_end(a);
    if t.len() > 0 {
        assert(t[0] == a[0]);
    }
    assert(trim_start(t) == t);
    assert(trim_end(t) == t);
    if one_line(e) {
        assert forall|j: int| 0 <= j < t.len() implies t[j] != '\n' by {
            assert(t[j] == a[j]);
            assert(a[j] == e[e.len() - a.len() + j]);
        }
    }
}

proof fn lemma_kept_lines_shape(lines: Seq<Seq<char>>)
    requires
        forall|i: int| 0 <= i < lines.len() ==> one_line(#[trigger] lines[i]),
    ensures
        forall|i: int|
            0 <= i < kept_lines(lines).len() ==> {
                let k = #[trigger] kept_lines(lines)[i];
                k.len() > 0 && one_line(k) && trim(k) == k
            },
    decreases lines.len(),
{
    if lines.len() > 0 {
        let prev = lines.drop_last();
        assert forall|i: int| 0 <= i < prev.len() implies one_line(#[trigger] prev[i]) by {
            assert(prev[i] == lines[i]);
        }
        lemma_kept_lines_shape(prev);
        assert(one_line(lines[lines.len() - 1]));
        lemma_trim_tight(lines.last());
        let t = trim(lines.last());
        let kp = kept_lines(prev);
        if t.len() > 0 {
            assert forall|i: int| 0 <= i < kp.push(t).len() implies {
                let k = #[trigger] kp.push(t)[i];
                k.len() > 0 && one_line(k) && trim(k) == k
            } by {
                if i < kp.len() {
                    assert(kp.push(t)[i] == kp[i]);
                }
            }
        }
    }
}

proof fn lemma_kept_lines_fixed(lines: Seq<Seq<char>>)
    requires
        forall|i: int|
            0 <= i < lines.len() ==> (#[trigger] lines[i]).len() > 0 && trim(lines[i])
                == lines[i],
    ensures
        kept_lines(lines) == lines,
    decreases lines.len(),
{
    if lines.len() > 0 {
        let prev = lines.drop_last();
        assert forall|i: int| 0 <= i < prev.len() implies (#[trigger] prev[i]).len() > 0 && trim(
            prev[i],
        ) == prev[i] by {
            assert(prev[i] == lines[i]);
        }
        lemma_kept_lines_fixed(prev);
        assert(lines[lines.len() - 1].len() > 0);
        assert(lines.drop_last().push(lines.last()) =~= lines);
    }
}

proof fn lemma_split_single(x: Seq<char>)
    requires
        one_line(x),
    ensures
        split_lines(x) == seq![x],
    decreases x.len(),
{
    if x.len() > 0 {
        lemma_split_single(x.drop_last());
        assert(x.drop_last().push(x.last()) =~= x);
        assert(seq![x.drop_last()].update(0, x) =~= seq![x]);
    } else {
        assert(x =~= Seq::<char>::empty());
    }
}

proof fn lemma_split_after_newline(a: Seq<char>, l: Seq<char>)
    requires
        one_line(l),
    ensures
        split_lines(a + newline() + l) == split_lines(a).push(l),
    decreases l.len(),
{
    if l.len() == 0 {
        assert((a + newline() + l).drop_last() =~= a);
        assert(l =~= Seq::<char>::empty());
    } else {
        let l0 = l.drop_last();
        lemma_split_after_newline(a, l0);
        assert((a + newline() + l).drop_last() =~= a + newline() + l0);
        assert(l0.push(l.last()) =~= l);
        assert(split_lines(a).push(l0).update(split_lines(a).len() as int, l)
            =~= split_lines(a).push(l));
    }
}

proof fn lemma_split_join(parts: Seq<Seq<char>>)
    requires
        parts.len() >= 1,
        forall|i: int| 0 <= i < parts.len() ==> one_line(#[trigger] parts[i]),
    ensures
        split_lines(join(parts, newline())) == parts,
    decreases parts.len(),
{
    if parts.len() == 1 {
        assert(one_line(parts[0]));
        lemma_split_single(parts[0]);
        assert(seq![parts[0]] =~= parts);
    } else {
        let prev = parts.drop_last();
        lemma_split_join(prev);
        assert(one_line(parts[parts.len() - 1]));
        lemma_split_after_newline(join(prev, newline()), parts.last());
        assert(prev.push(parts.last()) =~= parts);
    }
}

/// Normalizing a normalized text changes nothing.
pub proof fn lemma_normalize_idempotent(s: Seq<char>)
    ensures
        normalize(normalize(s)) == normalize(s),
{
    let lines = split_lines(s);
    lemma_split_one_line(s);
    lemma_kept_lines_shape(lines);
    let k = kept_lines(lines);
    if k.len() == 0 {
        let e = Seq::<char>::empty();
        assert(split_lines(e) == seq![e]);
        assert(seq![e].drop_last() =~= Seq::<Seq<char>>::empty());
        assert(trim_start(e) == e);
        assert(trim_end(e) == e);
        assert(kept_lines(Seq::<Seq<char>>::empty()) == Seq::<Seq<char>>::empty());
        assert(kept_lines(seq![e]) == Seq::<Seq<char>>::empty());
        assert(normalize(s) == e);
    } else {
        lemma_split_join(k);
        lemma_kept_lines_fixed(k);
    }
}

proof fn lemma_join_push(parts: Seq<Seq<char>>, t: Seq<char>, d: Seq<char>)
    ensures
        join(parts.push(t), d) == if parts.len() == 0 {
            t
        } else {
            join(parts, d) + d + t
        },
{
    assert(parts.push(t).drop_last() =~= parts);
}

fn append_chars(out: &mut Vec<char>, t: &Vec<char>)
    ensures
        final(out)@ == old(out)@ + t@,
{
    let mut k: usize = 0;
    while k < t.len()
        invariant
            k <= t@.len(),
            out@ == old(out)@ + t@.subrange(0, k as int),
        decreases t@.len() - k,
    {
        out.push(t[k]);
        assert(old(out)@ + t@.subrange(0, k + 1) =~= out@);
        k = k + 1;
    }
    assert(t@.subrange(0, t@.len() as int) =~= t@);
}

/// Adds the trimmed `line` to the normalized output, unless it is blank.
fn push_kept_line(out: &mut Vec<char>, any: &mut bool, line: &Vec<char>, Ghost(done): Ghost<
    Seq<Seq<char>>,
>)
    requires
        old(out)@ == join(kept_lines(done), newline()),
        *old(any) == (kept_lines(done).len() > 0),
    ensures
        final(out)@ == join(kept_lines(done.push(line@)), newline()),
        *final(any) == (kept_lines(done.push(line@)).len() > 0),
{
    let t = trim_chars(line);
    assert(done.push(line@).drop_last() =~= done);
    proof {
        lemma_join_push(kept_lines(done), t@, newline());
    }
    if t.len() > 0 {
        if *any {
            out.push('\n');
            assert(old(out)@.push('\n') =~= old(out)@ + newline());
        }
        append_chars(out, &t);
        *any = true;
    }
}

/// The whitespace normalization of `v`.
pub fn normalize_chars(v: &Vec<char>) -> (r: Vec<char>)
    ensures
        r@ == normalize(v@),
{
    let mut out: Vec<char> = Vec::new();
    let mut any = false;
    let mut line: Vec<char> = Vec::new();
    let mut i: usize = 0;
    assert(v@.subrange(0, 0) =~= Seq::<char>::empty());
    while i < v.len()
        invariant
            i <= v@.len(),
            split_lines(v@.subrange(0, i as int)).len() >= 1,
            line@ == split_lines(v@.subrange(0, i as int)).last(),
            out@ == join(kept_lines(split_lines(v@.subrange(0, i as int)).drop_last()), newline()),
            any == (kept_lines(split_lines(v@.subrange(0, i as int)).drop_last()).len() > 0),
        decreases v@.len() - i,
    {
        let ghost p = v@.subrange(0, i as int);
        let ghost q = v@.subrange(0, i + 1);
        assert(q.drop_last() =~= p);
        let c = v[i];
        if c == '\n' {
            push_kept_line(&mut out, &mut any, &line, Ghost(split_lines(p).drop_last()));
            assert(split_lines(p).drop_last().push(line@) =~= split_lines(p));
            assert(split_lines(q).drop_last() =~= split_lines(p));
            line = Vec::new();
        } else {
            line.push(c);
            assert(split_lines(q).drop_last() =~= split_lines(p).drop_last());
        }
        i = i + 1;
    }
    assert(v@.subrange(0, v@.len() as int) =~= v@);
    let ghost lines = split_lines(v@);
    push_kept_line(&mut out, &mut any, &line, Ghost(lines.drop_last()));
    assert(lines.drop_last().push(line@) =~= lines);
    out
}

/// The whitespace normalization of `s`: each line trimmed, blank lines
/// dropped, the rest joined by single line feeds.
pub fn normalize_text(s: &str) -> (r: String)
    ensures
        r@ == normalize(s@),
{
    let v = chars_of(s);
    let n = normalize_chars(&v);
    string_of(&n)
}

/// The parts joined with `d` between each two neighbours.
pub fn join_strings(parts: &Vec<String>, d: &str) -> (r: String)
    ensures
        r@ == join(views(parts@), d@),
{
    let dv = chars_of(d);
    let mut out: Vec<char> = Vec::new();
    let mut k: usize = 0;
    assert(views(parts@).subrange(0, 0) =~= Seq::<Seq<char>>::empty());
    while k < parts.len()
        invariant
            k <= parts@.len(),
            dv@ == d@,
            out@ == join(views(parts@).subrange(0, k as int), d@),
        decreases parts@.len() - k,
    {
        let ghost done = views(parts@).subrange(0, k as int);
        let pv = chars_of(parts[k].as_str());
        proof {
            lemma_join_push(done, pv@, d@);
            assert(done.push(pv@) =~= views(parts@).subrange(0, k + 1));
        }
        if k > 0 {
            append_chars(&mut out, &dv);
        }
        append_chars(&mut out, &pv);
        k = k + 1;
    }
    assert(views(parts@).subrange(0, parts@.len() as int) =~= views(parts@));
    string_of(&out)
}

/// The template with every `{}` replaced by `term`.
pub open spec fn fill_template(t: Seq<char>, term: Seq<char>) -> Seq<char>
    decreases t.len(),
{
    if t.len() == 0 {
        Seq::empty()
    } else if t.len() >= 2 && t[0] == '{' && t[1] == '}' {
        term + fill_template(t.subrange(2, t.len() as int), term)
    } else {
        seq![t[0]] + fill_template(t.drop_first(), term)
    }
}

/// `template` with every `{}` replaced by `term`.
pub fn fill_template_text(template: &str, term: &str) -> (r: String)
    ensures
        r@ == fill_template(template@, term@),
{
    let t = chars_of(template);
    let w = chars_of(term);
    let n = t.len();
    let mut out: Vec<char> = Vec::new();
    let mut i: usize = 0;
    assert(t@.subrange(0, n as int) =~= t@);
    while i < n
        invariant
            i <= n,
            n == t@.len(),
            w@ == term@,
            out@ + fill_template(t@.subrange(i as int, n as int), term@) == fill_template(
                template@,
                term@,
            ),
            t@ == template@,
        decreases n - i,
    {
        let ghost rest = t@.subrange(i as int, n as int);
        if i + 1 < n && t[i] == '{' && t[i + 1] == '}' {
            assert(rest.subrange(2, rest.len() as int) =~= t@.subrange(i + 2, n as int));
            let ghost before = out@;
            append_chars(&mut out, &w);
            assert(before + (w@ + fill_template(t@.subrange(i + 2, n as int), term@)) =~= out@
                + fill_template(t@.subrange(i + 2, n as int), term@));
            i = i + 2;
        } else {
            let ghost before = out@;
            assert(rest.drop_first() =~= t@.subrange(i + 1, n as int));
            out.push(t[i]);
            assert(before + (seq![rest[0]] + fill_template(rest.drop_first(), term@)) =~= out@
                + fill_template(t@.subrange(i + 1, n as int), term@));
            i = i + 1;
        }
    }
    assert(fill_template(t@.subrange(n as int, n as int), term@) == Seq::<char>::empty());
    assert(out@ + Seq::<char>::empty() =~= out@);
    string_of(&out)
}

/// Whether `p` is a prefix of `s`.
pub fn is_prefix_chars(p: &Vec<char>, s: &Vec<char>) -> (r: bool)
    ensures
        r == p@.is_prefix_of(s@),
{
    if p.len() > s.len() {
        return false;
    }
    let mut k: usize = 0;
    while k < p.len()
        invariant
            k <= p@.len() <= s@.len(),
            p@.subrange(0, k as int) =~= s@.subrange(0, k as int),
        decreases p@.len() - k,
    {
        if p[k] != s[k] {
            assert(p@[k as int] != s@.subrange(0, p@.len() as int)[k as int]);
            return false;
        }
        k = k + 1;
    }
    true
}

/// Whether `p` is a prefix of `s`.
pub fn starts_with_text(s: &str, p: &str) -> (r: bool)
    ensures
        r == p@.is_prefix_of(s@),
{
    let sv = chars_of(s);
    let pv = chars_of(p);
    is_prefix_chars(&pv, &sv)
}

/// Whether `a` and `b` hold the same characters.
pub fn same_text(a: &str, b: &str) -> (r: bool)
    ensures
        r == (a@ == b@),
{
    let av = chars_of(a);
    let bv = chars_of(b);
    let r = av.len() == bv.len() && is_prefix_chars(&av, &bv);
    if r {
        assert(av@ =~= bv@.subrange(0, av@.len() as int));
        assert(bv@.subrange(0, bv@.len() as int) =~= bv@);
    }
    r
}

} // verus!
