//! Character-level text helpers with exact specifications: building
//! strings, comparing and searching them, joining and splitting lists, and
//! writing and reading decimal integers.
use vstd::prelude::*;

verus! {

/// Appends one character to a string: std's `String::push`, which is
/// documented to append the given `char` to the end of the string.
#[verifier::external_body]
pub(crate) fn push_char(s: &mut String, c: char)
    ensures
        final(s)@ == old(s)@.push(c),
{
    s.push(c);
}

/// Pushing a string onto a vector pushes its characters onto the vector's
/// deep view.
pub proof fn lemma_deep_view_push(v: Vec<String>, w: Vec<String>, s: String)
    requires
        w@ == v@.push(s),
    ensures
        w.deep_view() == v.deep_view().push(s@),
{
    assert forall|j: int| 0 <= j < w@.len() implies #[trigger] w.deep_view()[j] == v.deep_view().push(s@)[j] by {
        if j < v@.len() {
            assert(w@[j] == v@[j]);
        }
    }
    assert(w.deep_view() =~= v.deep_view().push(s@));
}

/// The characters of a string slice, in order.
pub fn chars_of(s: &str) -> (r: Vec<char>)
    ensures
        r@ == s@,
{
    let mut r: Vec<char> = Vec::new();
    for c in it: s.chars()
        invariant
            r@ == it.seq().take(it.index()),
    {
        r.push(c);
    }
    r
}

/// Appends every character of `chars` to `out`.
pub fn push_chars(out: &mut String, chars: &Vec<char>)
    ensures
        final(out)@ == old(out)@ + chars@,
{
    let ghost start = out@;
    let mut i: usize = 0;
    while i < chars.len()
        invariant
            i <= chars.len(),
            out@ == start + chars@.take(i as int),
        decreases chars.len() - i,
    {
        proof {
            assert(chars@.take(i + 1) == chars@.take(i as int).push(chars@[i as int]));
        }
        push_char(out, chars[i]);
        i = i + 1;
    }
    assert(chars@.take(chars.len() as int) == chars@);
}

/// A new string holding the characters of `chars`.
pub fn string_of(chars: &Vec<char>) -> (r: String)
    ensures
        r@ == chars@,
{
    let mut r = String::new();
    push_chars(&mut r, chars);
    r
}

/// A new string holding the characters of `s`.
pub fn string_from(s: &str) -> (r: String)
    ensures
        r@ == s@,
{
    string_of(&chars_of(s))
}

/// Whether `a` holds exactly the characters of `b`.
pub fn eq_str(a: &Vec<char>, b: &str) -> (r: bool)
    ensures
        r == (a@ == b@),
{
    let bc = chars_of(b);
    if a.len() != bc.len() {
        return false;
    }
    let mut i: usize = 0;
    while i < a.len()
        invariant
            bc@ == b@,
            a.len() == bc.len(),
            i <= a.len(),
            forall|j: int| 0 <= j < i ==> a@[j] == bc@[j],
        decreases a.len() - i,
    {
        if a[i] != bc[i] {
            assert(a@[i as int] != b@[i as int]);
            return false;
        }
        i = i + 1;
    }
    assert(a@ =~= b@);
    true
}

/// `s` begins with `p`.
pub open spec fn starts_with(s: Seq<char>, p: Seq<char>) -> bool {
    p.len() <= s.len() && s.take(p.len() as int) == p
}

/// `s` ends with `p`.
pub open spec fn ends_with(s: Seq<char>, p: Seq<char>) -> bool {
    p.len() <= s.len() && s.skip(s.len() - p.len()) == p
}

/// `p` occurs at position `i` of `s`.
pub open spec fn occurs_at(s: Seq<char>, p: Seq<char>, i: int) -> bool {
    0 <= i && i + p.len() <= s.len() && s.subrange(i, i + p.len()) == p
}

/// `p` occurs somewhere in `s`.
pub open spec fn contains(s: Seq<char>, p: Seq<char>) -> bool {
    exists|i: int| #[trigger] occurs_at(s, p, i)
}

/// Whether `p` occurs in `s` at position `at`.
fn matches_at(s: &Vec<char>, p: &Vec<char>, at: usize) -> (r: bool)
    requires
        at + p.len() <= s.len(),
    ensures
        r == (s@.subrange(at as int, at + p.len()) == p@),
{
    let mut i: usize = 0;
    while i < p.len()
        invariant
            at + p.len() <= s.len(),
            i <= p.len(),
            forall|j: int| 0 <= j < i ==> s@[at + j] == p@[j],
        decreases p.len() - i,
    {
        if s[at + i] != p[i] {
            assert(s@.subrange(at as int, at + p.len())[i as int] != p@[i as int]);
            return false;
        }
        i = i + 1;
    }
    assert(s@.subrange(at as int, at + p.len()) =~= p@);
    true
}

/// Whether `s` begins with the characters of `p`.
pub fn has_prefix(s: &Vec<char>, p: &str) -> (r: bool)
    ensures
        r == starts_with(s@, p@),
{
    let p = chars_of(p);
    if p.len() > s.len() {
        return false;
    }
    let r = matches_at(s, &p, 0);
    assert(s@.subrange(0, p.len() as int) == s@.take(p.len() as int));
    r
}

/// Whether `s` ends with the characters of `p`.
pub fn has_suffix(s: &Vec<char>, p: &str) -> (r: bool)
    ensures
        r == ends_with(s@, p@),
{
    let p = chars_of(p);
    if p.len() > s.len() {
        return false;
    }
    let at = s.len() - p.len();
    let r = matches_at(s, &p, at);
    assert(s@.subrange(at as int, at + p.len()) == s@.skip(at as int));
    r
}

/// Whether the characters of `p` occur somewhere in `s`.
pub fn has_infix(s: &Vec<char>, p: &str) -> (r: bool)
    ensures
        r == contains(s@, p@),
{
    let pc = chars_of(p);
    if pc.len() > s.len() {
        assert forall|i: int| !occurs_at(s@, p@, i) by {}
        return false;
    }
    if pc.len() == 0 {
        assert(s@.subrange(0, 0) =~= p@);
        assert(occurs_at(s@, p@, 0));
        return true;
    }
    let last = s.len() - pc.len();
    let mut at: usize = 0;
    while at <= last
        invariant
            pc@ == p@,
            pc.len() > 0,
            last + pc.len() == s.len(),
            at <= last + 1,
            forall|i: int| 0 <= i < at ==> !occurs_at(s@, p@, i),
        decreases last + 1 - at,
    {
        if matches_at(s, &pc, at) {
            assert(occurs_at(s@, p@, at as int));
            return true;
        }
        at = at + 1;
    }
    assert forall|i: int| !occurs_at(s@, p@, i) by {}
    false
}

/// The parts written one after another with `sep` between each two.
pub open spec fn join(parts: Seq<Seq<char>>, sep: char) -> Seq<char>
    decreases parts.len(),
{
    if parts.len() == 0 {
        Seq::empty()
    } else if parts.len() == 1 {
        parts[0]
    } else {
        join(parts.drop_last(), sep).push(sep) + parts.last()
    }
}

/// The pieces of `s` between occurrences of `sep`, in order; a text without
/// `sep` is one piece, and the empty text is one empty piece.
pub open spec fn split(s: Seq<char>, sep: char) -> Seq<Seq<char>>
    decreases s.len(),
{
    if s.len() == 0 {
        seq![Seq::empty()]
    } else {
        let rest = split(s.drop_last(), sep);
        if s.last() == sep {
            rest.push(Seq::empty())
        } else {
            rest.update(rest.len() - 1, rest.last().push(s.last()))
        }
    }
}

/// `split` never yields an empty list.
pub proof fn lemma_split_nonempty(s: Seq<char>, sep: char)
    ensures
        split(s, sep).len() >= 1,
    decreases s.len(),
{
    if s.len() > 0 {
        lemma_split_nonempty(s.drop_last(), sep);
    }
}

/// Joins the strings of `parts`, putting `sep` between each two.
pub fn join_strings(parts: &Vec<String>, sep: char) -> (r: String)
    ensures
        r@ == join(parts.deep_view(), sep),
{
    let ghost v = parts.deep_view();
    let mut r = String::new();
    let mut i: usize = 0;
    while i < parts.len()
        invariant
            i <= parts.len(),
            v == parts.deep_view(),
            v.len() == parts.len(),
            r@ == join(v.take(i as int), sep),
        decreases parts.len() - i,
    {
        if i > 0 {
            push_char(&mut r, sep);
        }
        r.append(parts[i].as_str());
        proof {
            let t = v.take(i + 1);
            assert(t.drop_last() == v.take(i as int));
            assert(t.last() == parts[i as int]@);
            if i == 0 {
                assert(join(v.take(0), sep) == Seq::<char>::empty());
                assert(r@ =~= t[0]);
            }
        }
        i = i + 1;
    }
    assert(v.take(parts.len() as int) == v);
    r
}

/// The pieces of `s` between occurrences of `sep`.
pub fn split_string(s: &str, sep: char) -> (r: Vec<String>)
    ensures
        r.deep_view() == split(s@, sep),
{
    let chars = chars_of(s);
    let mut done: Vec<String> = Vec::new();
    let mut cur = String::new();
    let mut i: usize = 0;
    while i < chars.len()
        invariant
            i <= chars.len(),
            chars@ == s@,
            done.deep_view().push(cur@) == split(chars@.take(i as int), sep),
        decreases chars.len() - i,
    {
        let c = chars[i];
        proof {
            let t = chars@.take(i + 1);
            assert(t.drop_last() == chars@.take(i as int));
            assert(t.last() == c);
        }
        let ghost prev = done.deep_view();
        let ghost prev_cur = cur@;
        if c == sep {
            let piece = cur;
            done.push(piece);
            cur = String::new();
            assert(done.deep_view() =~= prev.push(prev_cur));
        } else {
            push_char(&mut cur, c);
            assert(done.deep_view().push(cur@) =~= prev.push(prev_cur).update(
                prev.len() as int,
                prev_cur.push(c),
            ));
        }
        i = i + 1;
    }
    done.push(cur);
    assert(chars@.take(chars.len() as int) == chars@);
    done
}

/// `s` begins with `p` exactly when it is `p` followed by something.
pub proof fn law_prefix(s: Seq<char>, p: Seq<char>)
    ensures
        starts_with(s, p) <==> exists|t: Seq<char>| s == p + t,
{
    if starts_with(s, p) {
        assert(s =~= p + s.skip(p.len() as int));
    }
    if exists|t: Seq<char>| s == p + t {
        let t = choose|t: Seq<char>| s == p + t;
        assert(s.take(p.len() as int) =~= p);
    }
}

/// `s` ends with `p` exactly when it is something followed by `p`.
pub proof fn law_suffix(s: Seq<char>, p: Seq<char>)
    ensures
        ends_with(s, p) <==> exists|t: Seq<char>| s == t + p,
{
    if ends_with(s, p) {
        assert(s =~= s.take(s.len() - p.len()) + p);
    }
    if exists|t: Seq<char>| s == t + p {
        let t = choose|t: Seq<char>| s == t + p;
        assert(s.skip(s.len() - p.len()) =~= p);
    }
}

/// `s` contains `p` exactly when it is something, `p`, and something.
pub proof fn law_infix(s: Seq<char>, p: Seq<char>)
    ensures
        contains(s, p) <==> exists|a: Seq<char>, b: Seq<char>| s == a + p + b,
{
    if contains(s, p) {
        let i = choose|i: int| #[trigger] occurs_at(s, p, i);
        assert(s =~= s.take(i) + p + s.skip(i + p.len()));
    }
    if exists|a: Seq<char>, b: Seq<char>| s == a + p + b {
        let (a, b) = choose|a: Seq<char>, b: Seq<char>| s == a + p + b;
        assert(s.subrange(a.len() as int, (a.len() + p.len()) as int) =~= p);
        assert(occurs_at(s, p, a.len() as int));
    }
}

/// Joining puts exactly one separator between neighbouring parts: no parts
/// give nothing, one part gives itself, and one more part adds the
/// separator and that part.
pub proof fn law_join_shape(parts: Seq<Seq<char>>, x: Seq<char>, sep: char)
    ensures
        join(Seq::empty(), sep) == Seq::<char>::empty(),
        join(seq![x], sep) == x,
        parts.len() > 0 ==> join(parts.push(x), sep) == join(parts, sep).push(sep) + x,
{
    assert(seq![x].len() == 1);
    if parts.len() > 0 {
        assert(parts.push(x).drop_last() == parts);
    }
}

} // verus!
