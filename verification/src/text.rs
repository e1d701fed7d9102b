use vstd::prelude::*;

verus! {

// ---------------------------------------------------------------------------
// Conversions between strings and character vectors
// ---------------------------------------------------------------------------

/// The characters of a string slice, collected into a vector.
pub fn chars_of(s: &str) -> (v: Vec<char>)
    ensures
        v@ == s@,
{
    let mut v: Vec<char> = Vec::new();
    for c in it: s.chars()
        invariant
            it.seq() == s@,
            v@ == it.seq().take(it.index() as int),
    {
        v.push(c);
    }
    v
}

/// A string holding exactly the given characters (`FromIterator<&char>` for `String`).
#[verifier::external_body]
pub(crate) fn string_from_chars(v: &Vec<char>) -> (s: String)
    ensures
        s@ == v@,
{
    v.iter().collect()
}

/// An owned copy of a string slice.
pub fn owned(s: &str) -> (r: String)
    ensures
        r@ == s@,
{
    s.to_owned()
}

/// The concatenation of two string slices.
pub fn concat2(a: &str, b: &str) -> (r: String)
    ensures
        r@ == a@ + b@,
{
    let mut r = a.to_owned();
    r.append(b);
    r
}

/// The concatenation of three string slices.
pub fn concat3(a: &str, b: &str, c: &str) -> (r: String)
    ensures
        r@ == a@ + b@ + c@,
{
    let mut r = a.to_owned();
    r.append(b);
    r.append(c);
    r
}

/// The characters of `v` in the index range `[from, to)`, as a string.
pub fn substring(v: &Vec<char>, from: usize, to: usize) -> (s: String)
    requires
        from <= to <= v@.len(),
    ensures
        s@ == v@.subrange(from as int, to as int),
{
    let mut w: Vec<char> = Vec::new();
    let mut i = from;
    while i < to
        invariant
            from <= i <= to <= v@.len(),
            w@ == v@.subrange(from as int, i as int),
        decreases to - i,
    {
        w.push(v[i]);
        i += 1;
    }
    string_from_chars(&w)
}

// ---------------------------------------------------------------------------
// Pattern matching on character sequences
// ---------------------------------------------------------------------------

/// `p` occurs in `s` starting at index `i`.
pub open spec fn matches_at(s: Seq<char>, p: Seq<char>, i: int) -> bool {
    &&& 0 <= i
    &&& i + p.len() <= s.len()
    &&& forall|j: int| 0 <= j < p.len() ==> s[i + j] == p[j]
}

/// `p` occurs somewhere in `s` (what `str::contains` with a string pattern tests).
pub open spec fn has_substring(s: Seq<char>, p: Seq<char>) -> bool {
    exists|i: int| matches_at(s, p, i)
}

/// `s` begins with `p`.
pub open spec fn has_prefix(s: Seq<char>, p: Seq<char>) -> bool {
    matches_at(s, p, 0)
}

/// `s` ends with `p`.
pub open spec fn has_suffix(s: Seq<char>, p: Seq<char>) -> bool {
    p.len() <= s.len() && matches_at(s, p, s.len() - p.len())
}

/// `s` contains the character `c`.
pub open spec fn has_char(s: Seq<char>, c: char) -> bool {
    exists|i: int| 0 <= i < s.len() && s[i] == c
}

/// Whether `p` occurs in `v` at index `i`.
pub fn vec_matches_at(v: &Vec<char>, p: &Vec<char>, i: usize) -> (b: bool)
    ensures
        b == matches_at(v@, p@, i as int),
{
    if i > v.len() || p.len() > v.len() - i {
        return false;
    }
    let mut j: usize = 0;
    while j < p.len()
        invariant
            i + p@.len() <= v@.len(),
            v@.len() <= usize::MAX,
            j <= p@.len(),
            forall|k: int| 0 <= k < j ==> v@[i + k] == p@[k],
        decreases p@.len() - j,
    {
        if v[i + j] != p[j] {
            return false;
        }
        j += 1;
    }
    true
}

/// Whether `p` occurs anywhere in `s` (`str::contains` with a string pattern).
pub fn contains_str(s: &str, p: &str) -> (b: bool)
    ensures
        b == has_substring(s@, p@),
{
    let v = chars_of(s);
    let w = chars_of(p);
    if w.len() > v.len() {
        return false;
    }
    let last = v.len() - w.len();
    let mut i: usize = 0;
    loop
        invariant
            v@ == s@,
            w@ == p@,
            last == v@.len() - w@.len(),
            i <= last,
            forall|k: int| 0 <= k < i ==> !matches_at(s@, p@, k),
        ensures
            forall|k: int| 0 <= k <= last ==> !matches_at(s@, p@, k),
        decreases last - i,
    {
        if vec_matches_at(&v, &w, i) {
            return true;
        }
        if i == last {
            break;
        }
        i += 1;
    }
    assert forall|k: int| !matches_at(s@, p@, k) by {
        if 0 <= k && k + p@.len() <= s@.len() {
            assert(k <= last);
        }
    }
    false
}

/// Whether `s` begins with `p` (`str::starts_with`).
pub fn starts_with(s: &str, p: &str) -> (b: bool)
    ensures
        b == has_prefix(s@, p@),
{
    let v = chars_of(s);
    let w = chars_of(p);
    vec_matches_at(&v, &w, 0)
}

/// Whether `s` ends with `p` (`str::ends_with`).
pub fn ends_with(s: &str, p: &str) -> (b: bool)
    ensures
        b == has_suffix(s@, p@),
{
    let v = chars_of(s);
    let w = chars_of(p);
    if w.len() > v.len() {
        return false;
    }
    vec_matches_at(&v, &w, v.len() - w.len())
}

/// `s` without the prefix `p`, if it has it (`str::strip_prefix`).
pub fn strip_prefix(s: &str, p: &str) -> (r: Option<String>)
    ensures
        has_prefix(s@, p@) ==> (r matches Some(t) && t@ == s@.skip(p@.len() as int)),
        !has_prefix(s@, p@) ==> r is None,
{
    let v = chars_of(s);
    let w = chars_of(p);
    if vec_matches_at(&v, &w, 0) {
        Some(substring(&v, w.len(), v.len()))
    } else {
        None
    }
}

/// Whether a string contains the character `c`.
pub fn contains_char(s: &str, c: char) -> (b: bool)
    ensures
        b == has_char(s@, c),
{
    let v = chars_of(s);
    let mut i: usize = 0;
    while i < v.len()
        invariant
            v@ == s@,
            i <= v@.len(),
            forall|k: int| 0 <= k < i ==> v@[k] != c,
        decreases v@.len() - i,
    {
        if v[i] == c {
            return true;
        }
        i += 1;
    }
    false
}

} // verus!

verus! {

// ---------------------------------------------------------------------------
// Trimming
// ---------------------------------------------------------------------------

/// `s` with every trailing `c` removed (`str::trim_end_matches` with a char).
pub open spec fn trim_end_char(s: Seq<char>, c: char) -> Seq<char>
    decreases s.len(),
{
    if s.len() > 0 && s.last() == c {
        trim_end_char(s.drop_last(), c)
    } else {
        s
    }
}

/// `s` with every leading `c` removed (`str::trim_start_matches` with a char).
pub open spec fn trim_start_char(s: Seq<char>, c: char) -> Seq<char>
    decreases s.len(),
{
    if s.len() > 0 && s[0] == c {
        trim_start_char(s.drop_first(), c)
    } else {
        s
    }
}

/// `s` with every trailing copy of `p` removed (`str::trim_end_matches` with a string).
pub open spec fn trim_end_str(s: Seq<char>, p: Seq<char>) -> Seq<char>
    decreases s.len(),
{
    if p.len() > 0 && has_suffix(s, p) {
        trim_end_str(s.subrange(0, s.len() - p.len()), p)
    } else {
        s
    }
}

/// `s` with every leading copy of `p` removed (`str::trim_start_matches` with a string).
pub open spec fn trim_start_str(s: Seq<char>, p: Seq<char>) -> Seq<char>
    decreases s.len(),
{
    if p.len() > 0 && has_prefix(s, p) {
        trim_start_str(s.skip(p.len() as int), p)
    } else {
        s
    }
}

/// The part of `s` after the last `c`, or all of `s` when it holds no `c`
/// (the first item of `str::rsplit(c)`).
pub open spec fn after_last(s: Seq<char>, c: char) -> Seq<char>
    decreases s.len(),
{
    if s.len() == 0 {
        s
    } else if s.last() == c {
        Seq::empty()
    } else {
        after_last(s.drop_last(), c).push(s.last())
    }
}

/// `s` with every trailing `c` removed.
pub fn trim_end_matches_char(s: &str, c: char) -> (r: String)
    ensures
        r@ == trim_end_char(s@, c),
{
    let v = chars_of(s);
    let mut e = v.len();
    assert(v@.take(e as int) =~= v@);
    while e > 0 && v[e - 1] == c
        invariant
            v@ == s@,
            e <= v@.len(),
            trim_end_char(v@, c) == trim_end_char(v@.take(e as int), c),
        decreases e,
    {
        assert(v@.take(e as int).drop_last() =~= v@.take(e - 1));
        e -= 1;
    }
    assert(v@.take(v@.len() as int) =~= v@);
    assert(v@.take(e as int) =~= v@.subrange(0, e as int));
    substring(&v, 0, e)
}

/// `s` with every leading `c` removed.
pub fn trim_start_matches_char(s: &str, c: char) -> (r: String)
    ensures
        r@ == trim_start_char(s@, c),
{
    let v = chars_of(s);
    let mut b: usize = 0;
    assert(v@.skip(0) =~= v@);
    while b < v.len() && v[b] == c
        invariant
            v@ == s@,
            b <= v@.len(),
            trim_start_char(v@, c) == trim_start_char(v@.skip(b as int), c),
        decreases v@.len() - b,
    {
        assert(v@.skip(b as int).drop_first() =~= v@.skip(b + 1));
        b += 1;
    }
    assert(v@.skip(0) =~= v@);
    assert(v@.skip(b as int) =~= v@.subrange(b as int, v@.len() as int));
    substring(&v, b, v.len())
}

/// `s` with every trailing copy of `p` removed.
pub fn trim_end_matches_str(s: &str, p: &str) -> (r: String)
    ensures
        r@ == trim_end_str(s@, p@),
{
    let v = chars_of(s);
    let w = chars_of(p);
    let mut e = v.len();
    assert(v@.take(e as int) =~= v@);
    while w.len() > 0 && w.len() <= e && vec_matches_at(&v, &w, e - w.len())
        invariant
            v@ == s@,
            w@ == p@,
            e <= v@.len(),
            trim_end_str(v@, w@) == trim_end_str(v@.take(e as int), w@),
        decreases e,
    {
        let ghost t = v@.take(e as int);
        assert(matches_at(t, w@, t.len() - w@.len()));
        assert(t.subrange(0, t.len() - w@.len()) =~= v@.take(e - w.len()));
        e -= w.len();
    }
    let ghost t = v@.take(e as int);
    if w.len() > 0 && w.len() <= e {
        assert(!has_suffix(t, w@)) by {
            if has_suffix(t, w@) {
                assert(matches_at(v@, w@, e - w@.len()));
            }
        }
    }
    assert(v@.take(e as int) =~= v@.subrange(0, e as int));
    substring(&v, 0, e)
}

/// `s` with every leading copy of `p` removed.
pub fn trim_start_matches_str(s: &str, p: &str) -> (r: String)
    ensures
        r@ == trim_start_str(s@, p@),
{
    let v = chars_of(s);
    let w = chars_of(p);
    let mut b: usize = 0;
    let n = v.len();
    assert(v@.skip(0) =~= v@);
    while w.len() > 0 && vec_matches_at(&v, &w, b)
        invariant
            v@ == s@,
            w@ == p@,
            b <= v@.len(),
            n == v@.len(),
            trim_start_str(v@, w@) == trim_start_str(v@.skip(b as int), w@),
        decreases v@.len() - b,
    {
        let ghost t = v@.skip(b as int);
        assert(matches_at(t, w@, 0));
        assert(t.skip(w@.len() as int) =~= v@.skip(b + w.len()));
        b += w.len();
    }
    let ghost t = v@.skip(b as int);
    if w.len() > 0 {
        assert(!has_prefix(t, w@)) by {
            if has_prefix(t, w@) {
                assert(matches_at(v@, w@, b as int));
            }
        }
    }
    assert(v@.skip(b as int) =~= v@.subrange(b as int, v@.len() as int));
    substring(&v, b, v.len())
}

/// The part of `s` after the last `c`, or all of `s` when it holds no `c`.
pub fn after_last_char(s: &str, c: char) -> (r: String)
    ensures
        r@ == after_last(s@, c),
{
    let v = chars_of(s);
    let mut e = v.len();
    assert(v@.subrange(e as int, v@.len() as int) =~= Seq::<char>::empty());
    assert(v@.take(e as int) =~= v@);
    while e > 0 && v[e - 1] != c
        invariant
            v@ == s@,
            e <= v@.len(),
            after_last(v@, c) == after_last(v@.take(e as int), c) + v@.subrange(
                e as int,
                v@.len() as int,
            ),
        decreases e,
    {
        let ghost t = v@.take(e as int);
        assert(t.drop_last() =~= v@.take(e - 1));
        assert(v@.subrange(e - 1, v@.len() as int) =~= seq![t.last()] + v@.subrange(
            e as int,
            v@.len() as int,
        ));
        assert(after_last(v@.take(e - 1), c).push(t.last()) + v@.subrange(e as int, v@.len() as int)
            =~= after_last(v@.take(e - 1), c) + v@.subrange(e - 1, v@.len() as int));
        e -= 1;
    }
    if e > 0 {
        assert(after_last(v@.take(e as int), c) =~= Seq::<char>::empty());
    } else {
        assert(after_last(v@.take(e as int), c) =~= Seq::<char>::empty());
    }
    assert(after_last(v@, c) =~= v@.subrange(e as int, v@.len() as int));
    substring(&v, e, v.len())
}

} // verus!

verus! {

/// Whether two strings hold the same characters.
pub fn same_text(a: &str, b: &str) -> (r: bool)
    ensures
        r == (a@ == b@),
{
    let v = chars_of(a);
    let w = chars_of(b);
    if v.len() != w.len() {
        return false;
    }
    let mut i: usize = 0;
    while i < v.len()
        invariant
            v@ == a@,
            w@ == b@,
            v@.len() == w@.len(),
            i <= v@.len(),
            forall|k: int| 0 <= k < i ==> v@[k] == w@[k],
        decreases v@.len() - i,
    {
        if v[i] != w[i] {
            return false;
        }
        i += 1;
    }
    assert(v@ =~= w@);
    true
}

} // verus!

verus! {

/// The texts of a sequence of strings.
pub open spec fn texts(v: Seq<String>) -> Seq<Seq<char>> {
    v.map_values(|s: String| s@)
}

/// A copy of a vector of strings.
pub fn clone_strings(v: &Vec<String>) -> (r: Vec<String>)
    ensures
        r@ == v@,
{
    let mut r: Vec<String> = Vec::new();
    let mut i: usize = 0;
    while i < v.len()
        invariant
            i <= v@.len(),
            r@ == v@.take(i as int),
        decreases v@.len() - i,
    {
        r.push(v[i].clone());
        assert(v@.take(i + 1) =~= v@.take(i as int).push(v@[i as int]));
        i += 1;
    }
    assert(v@.take(v@.len() as int) =~= v@);
    r
}

/// A copy of an optional string.
pub fn clone_opt_string(o: &Option<String>) -> (r: Option<String>)
    ensures
        r == *o,
{
    match o {
        Some(s) => Some(s.clone()),
        None => None,
    }
}

} // verus!

verus! {

/// The part of `s` after the first `c`, or all of `s` when it holds no `c`
/// (the second half of `str::split_once(c)`, or `s` itself).
pub open spec fn after_first(s: Seq<char>, c: char) -> Seq<char>
    decreases s.len(),
{
    if s.len() == 0 {
        s
    } else if s[0] == c {
        s.drop_first()
    } else {
        after_first(s.drop_first(), c)
    }
}

/// The part of `s` after the first `c`, or all of `s` when it holds no `c`.
pub fn after_first_char(s: &str, c: char) -> (r: String)
    ensures
        r@ == (if has_char(s@, c) {
            after_first(s@, c)
        } else {
            s@
        }),
{
    let v = chars_of(s);
    let mut i: usize = 0;
    assert(v@.skip(0) =~= v@);
    while i < v.len() && v[i] != c
        invariant
            v@ == s@,
            i <= v@.len(),
            after_first(v@, c) == after_first(v@.skip(i as int), c),
            forall|k: int| 0 <= k < i ==> v@[k] != c,
        decreases v@.len() - i,
    {
        assert(v@.skip(i as int).drop_first() =~= v@.skip(i + 1));
        i += 1;
    }
    if i < v.len() {
        assert(v@.skip(i as int).drop_first() =~= v@.subrange(i + 1, v@.len() as int));
        substring(&v, i + 1, v.len())
    } else {
        assert(!has_char(s@, c));
        substring(&v, 0, v.len())
    }
}

} // verus!

verus! {

/// The text of the UTF-8 bytes `b`.
pub open spec fn utf8_text(b: Seq<u8>) -> Seq<char> {
    vstd::utf8::decode_utf8(b)
}

/// The UTF-8 bytes of a text.
pub open spec fn bytes_of(s: Seq<char>) -> Seq<u8> {
    vstd::utf8::encode_utf8(s)
}

/// The first `n` bytes of `s` and the rest, as strings (`str::split_at`).
pub fn split_at_byte(s: &str, n: usize) -> (r: (String, String))
    requires
        vstd::utf8::is_char_boundary(bytes_of(s@), n as int),
    ensures
        r.0@ == utf8_text(bytes_of(s@).subrange(0, n as int)),
        r.1@ == utf8_text(bytes_of(s@).subrange(n as int, bytes_of(s@).len() as int)),
        bytes_of(r.1@) == bytes_of(s@).subrange(n as int, bytes_of(s@).len() as int),
{
    let (a, b) = s.split_at(n);
    proof {
        vstd::utf8::encode_utf8_decode_utf8(a@);
        vstd::utf8::encode_utf8_decode_utf8(b@);
    }
    (a.to_owned(), b.to_owned())
}

} // verus!

verus! {

/// Keeping and mapping the items of `seq![x] + s` keeps and maps `x` first.
pub proof fn lemma_filter_map_prepend<A, B>(x: A, s: Seq<A>, f: spec_fn(A) -> Option<B>)
    ensures
        (seq![x] + s).filter_map(f) == (match f(x) {
            Some(y) => seq![y],
            None => Seq::<B>::empty(),
        }) + s.filter_map(f),
    decreases s.len(),
{
    let head = match f(x) {
        Some(y) => seq![y],
        None => Seq::<B>::empty(),
    };
    let t = seq![x] + s;
    if s.len() == 0 {
        assert(t =~= seq![x]);
        assert(t.drop_last() =~= Seq::<A>::empty());
        assert(t.last() == x);
        assert(Seq::<A>::empty().filter_map(f) =~= Seq::<B>::empty());
        assert(s.filter_map(f) =~= Seq::<B>::empty());
        match f(x) {
            Some(y) => {
                assert(t.filter_map(f) == t.drop_last().filter_map(f) + seq![y]);
                assert(t.filter_map(f) =~= head + s.filter_map(f));
            },
            None => {
                assert(t.filter_map(f) == t.drop_last().filter_map(f));
                assert(t.filter_map(f) =~= head + s.filter_map(f));
            },
        }
    } else {
        assert(t.drop_last() =~= seq![x] + s.drop_last());
        assert(t.last() == s.last());
        lemma_filter_map_prepend(x, s.drop_last(), f);
        match f(s.last()) {
            Some(y) => {
                assert(t.filter_map(f) == t.drop_last().filter_map(f) + seq![y]);
                assert(s.filter_map(f) == s.drop_last().filter_map(f) + seq![y]);
                assert(t.filter_map(f) =~= head + s.filter_map(f));
            },
            None => {
                assert(t.filter_map(f) == t.drop_last().filter_map(f));
                assert(s.filter_map(f) == s.drop_last().filter_map(f));
            },
        }
    }
}

} // verus!
