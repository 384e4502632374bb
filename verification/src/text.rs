//! Text primitives shared by the whole crate.
//!
//! Every function works on the characters of a string (`s@` is a `Seq<char>`),
//! and is stated against a short mathematical definition.
use vstd::prelude::*;

verus! {

broadcast use vstd::seq_lib::group_seq_properties;

/// `String::push`: appends one character to the end of the string.
pub assume_specification[ String::push ](s: &mut String, c: char)
    ensures
        final(s)@ == old(s)@.push(c),
;

// ---------------------------------------------------------------------------
// Characters and strings
// ---------------------------------------------------------------------------

/// The characters of `s`, in order.
pub fn chars_of(s: &str) -> (r: Vec<char>)
    ensures
        r@ == s@,
{
    let mut r: Vec<char> = Vec::new();
    for c in it: s.chars()
        invariant
            it.seq() == s@,
            r@ == s@.take(it.index() as int),
    {
        r.push(c);
        assert(s@.take(it.index() as int + 1) == s@.take(it.index() as int).push(c));
    }
    assert(s@.take(s@.len() as int) == s@);
    r
}

/// The string made of the characters `v[from..to]`.
pub fn string_of(v: &Vec<char>, from: usize, to: usize) -> (r: String)
    requires
        from <= to <= v@.len(),
    ensures
        r@ == v@.subrange(from as int, to as int),
{
    let mut r = String::new();
    let mut i: usize = from;
    while i < to
        invariant
            from <= i <= to <= v@.len(),
            r@ == v@.subrange(from as int, i as int),
        decreases to - i,
    {
        r.push(v[i]);
        i += 1;
        assert(v@.subrange(from as int, i as int) == v@.subrange(from as int, i as int - 1).push(v@[i - 1]));
    }
    r
}

/// Whether two strings hold the same characters.
pub fn same(a: &str, b: &str) -> (r: bool)
    ensures
        r == (a@ == b@),
{
    let x = chars_of(a);
    let y = chars_of(b);
    if x.len() != y.len() {
        return false;
    }
    let mut i: usize = 0;
    while i < x.len()
        invariant
            i <= x.len() == y.len(),
            x@ == a@,
            y@ == b@,
            forall|j: int| 0 <= j < i ==> x@[j] == y@[j],
        decreases x.len() - i,
    {
        if x[i] != y[i] {
            return false;
        }
        i += 1;
    }
    assert(a@ == b@);
    true
}

// ---------------------------------------------------------------------------
// White space
// ---------------------------------------------------------------------------

/// The Unicode `White_Space` property.
pub open spec fn white(c: char) -> bool {
    let u = c as u32;
    9 <= u <= 13 || u == 32 || u == 0x85 || u == 0xA0 || u == 0x1680 || 0x2000 <= u <= 0x200A || u
        == 0x2028 || u == 0x2029 || u == 0x202F || u == 0x205F || u == 0x3000
}

/// `s` without its leading white space.
pub open spec fn trim_front(s: Seq<char>) -> Seq<char>
    decreases s.len(),
{
    if s.len() > 0 && white(s[0]) {
        trim_front(s.drop_first())
    } else {
        s
    }
}

/// `s` without its trailing white space.
pub open spec fn trim_back(s: Seq<char>) -> Seq<char>
    decreases s.len(),
{
    if s.len() > 0 && white(s.last()) {
        trim_back(s.drop_last())
    } else {
        s
    }
}

/// `s` without leading and trailing white space.
pub open spec fn trimmed(s: Seq<char>) -> Seq<char> {
    trim_back(trim_front(s))
}

/// Whether `c` has the `White_Space` property.
pub fn is_white(c: char) -> (r: bool)
    ensures
        r == white(c),
{
    let u: u32 = c as u32;
    (9 <= u && u <= 13) || u == 32 || u == 0x85 || u == 0xA0 || u == 0x1680 || (0x2000 <= u && u
        <= 0x200A) || u == 0x2028 || u == 0x2029 || u == 0x202F || u == 0x205F || u == 0x3000
}

/// Bounds `(i, j)` of the trimmed part of `v`.
fn trim_bounds(v: &Vec<char>) -> (r: (usize, usize))
    ensures
        r.0 <= r.1 <= v@.len(),
        v@.subrange(r.0 as int, r.1 as int) == trimmed(v@),
{
    let n = v.len();
    let mut i: usize = 0;
    assert(v@.subrange(0, n as int) == v@);
    while i < n && is_white(v[i])
        invariant
            i <= n == v@.len(),
            trim_front(v@.subrange(i as int, n as int)) == trim_front(v@),
        decreases n - i,
    {
        assert(v@.subrange(i as int, n as int).drop_first() == v@.subrange(i as int + 1, n as int));
        i += 1;
    }
    assert(trim_front(v@) == v@.subrange(i as int, n as int));
    let mut j: usize = n;
    while j > i && is_white(v[j - 1])
        invariant
            i <= j <= n == v@.len(),
            trim_back(v@.subrange(i as int, j as int)) == trimmed(v@),
        decreases j,
    {
        assert(v@.subrange(i as int, j as int).drop_last() == v@.subrange(i as int, j as int - 1));
        j -= 1;
    }
    (i, j)
}

/// `s` without leading and trailing white space.
pub fn trim(s: &str) -> (r: String)
    ensures
        r@ == trimmed(s@),
{
    let v = chars_of(s);
    let (i, j) = trim_bounds(&v);
    string_of(&v, i, j)
}

/// Whether nothing but white space is in `s`.
pub fn is_blank(s: &str) -> (r: bool)
    ensures
        r == (trimmed(s@).len() == 0),
{
    let v = chars_of(s);
    let (i, j) = trim_bounds(&v);
    i == j
}

// ---------------------------------------------------------------------------
// ASCII case
// ---------------------------------------------------------------------------

/// `c` with an ASCII capital letter made small.
pub open spec fn ascii_lower(c: char) -> char {
    if 'A' <= c <= 'Z' {
        ((c as u32 + 32) as u8) as char
    } else {
        c
    }
}

/// `s` with its ASCII capital letters made small.
pub open spec fn ascii_lowered(s: Seq<char>) -> Seq<char> {
    s.map_values(|c: char| ascii_lower(c))
}

/// Equality up to ASCII case.
pub open spec fn same_ascii_case_folded(a: Seq<char>, b: Seq<char>) -> bool {
    ascii_lowered(a) == ascii_lowered(b)
}

/// `c` with an ASCII capital letter made small.
pub fn lower_char(c: char) -> (r: char)
    ensures
        r == ascii_lower(c),
{
    if 'A' <= c && c <= 'Z' {
        ((c as u32 + 32) as u8) as char
    } else {
        c
    }
}

/// `s` with its ASCII capital letters made small.
pub fn lower_ascii(s: &str) -> (r: String)
    ensures
        r@ == ascii_lowered(s@),
{
    let v = chars_of(s);
    let mut r = String::new();
    let mut i: usize = 0;
    while i < v.len()
        invariant
            i <= v@.len(),
            v@ == s@,
            r@ == ascii_lowered(s@.take(i as int)),
        decreases v@.len() - i,
    {
        r.push(lower_char(v[i]));
        i += 1;
        assert(r@ == ascii_lowered(s@.take(i as int)));
    }
    assert(s@.take(i as int) == s@);
    r
}

/// Whether `a` and `b` are equal up to ASCII case.
pub fn eq_ignore_case(a: &str, b: &str) -> (r: bool)
    ensures
        r == same_ascii_case_folded(a@, b@),
{
    let x = lower_ascii(a);
    let y = lower_ascii(b);
    x == y
}

// ---------------------------------------------------------------------------
// Views of lists of strings
// ---------------------------------------------------------------------------

/// The contents of a list of strings.
pub open spec fn texts(v: Seq<String>) -> Seq<Seq<char>> {
    v.map_values(|s: String| s@)
}

/// The content of an optional string.
pub open spec fn opt_text(o: Option<String>) -> Option<Seq<char>> {
    match o {
        Some(s) => Some(s@),
        None => None,
    }
}

/// The content of an optional string slice.
pub open spec fn opt_str(o: Option<&str>) -> Option<Seq<char>> {
    match o {
        Some(s) => Some(s@),
        None => None,
    }
}

/// The contents of a list of string slices.
pub open spec fn notes_of(v: Seq<&'static str>) -> Seq<Seq<char>> {
    v.map_values(|s: &'static str| s@)
}

/// A copy of a list of strings.
pub fn copy_texts(v: &Vec<String>) -> (r: Vec<String>)
    ensures
        texts(r@) == texts(v@),
        r@.len() == v@.len(),
{
    let mut r: Vec<String> = Vec::new();
    let mut i: usize = 0;
    while i < v.len()
        invariant
            i <= v@.len(),
            r@.len() == i,
            forall|k: int| 0 <= k < i ==> r@[k]@ == v@[k]@,
        decreases v@.len() - i,
    {
        r.push(v[i].clone());
        i += 1;
    }
    assert(texts(r@) == texts(v@));
    r
}

/// A copy of an optional string.
pub fn copy_opt(o: &Option<String>) -> (r: Option<String>)
    ensures
        opt_text(r) == opt_text(*o),
{
    match o {
        Some(s) => Some(s.clone()),
        None => None,
    }
}

// ---------------------------------------------------------------------------
// Splitting and joining
// ---------------------------------------------------------------------------

/// The parts of `s` between the occurrences of `sep`; one part where there is
/// no `sep`.
pub open spec fn split_on(s: Seq<char>, sep: char) -> Seq<Seq<char>>
    decreases s.len(),
{
    if s.len() == 0 {
        seq![Seq::<char>::empty()]
    } else {
        let head = split_on(s.drop_last(), sep);
        if s.last() == sep {
            head.push(Seq::<char>::empty())
        } else {
            head.drop_last().push(head.last().push(s.last()))
        }
    }
}

/// The parts of `s` between the occurrences of `sep`.
pub fn split_char(s: &str, sep: char) -> (r: Vec<String>)
    ensures
        texts(r@) == split_on(s@, sep),
        r@.len() >= 1,
{
    let v = chars_of(s);
    let mut r: Vec<String> = Vec::new();
    let mut cur = String::new();
    let mut i: usize = 0;
    while i < v.len()
        invariant
            i <= v@.len(),
            v@ == s@,
            texts(r@).push(cur@) == split_on(s@.take(i as int), sep),
        decreases v@.len() - i,
    {
        let c = v[i];
        let ghost before = split_on(s@.take(i as int), sep);
        let ghost parts = texts(r@);
        let ghost held = cur@;
        i += 1;
        assert(s@.take(i as int).drop_last() == s@.take(i as int - 1));
        assert(before.last() == held);
        assert(before.drop_last() == parts);
        if c == sep {
            r.push(cur);
            cur = String::new();
            assert(texts(r@) == parts.push(held));
        } else {
            cur.push(c);
        }
    }
    assert(s@.take(i as int) == s@);
    let ghost parts = texts(r@);
    let ghost held = cur@;
    r.push(cur);
    assert(texts(r@) == parts.push(held));
    r
}

/// The parts of `s` between the occurrences of the text `sep`, taken from the
/// left without overlap.
pub open spec fn cut_on(s: Seq<char>, sep: Seq<char>) -> Seq<Seq<char>>
    decreases s.len(),
{
    if s.len() == 0 || sep.len() == 0 {
        seq![s]
    } else if stands_at(s, sep, 0) {
        seq![Seq::<char>::empty()] + cut_on(s.skip(sep.len() as int), sep)
    } else {
        let rest = cut_on(s.drop_first(), sep);
        seq![seq![s[0]] + rest[0]] + rest.drop_first()
    }
}

/// There is always at least one part.
pub proof fn lemma_cut_nonempty(s: Seq<char>, sep: Seq<char>)
    ensures
        cut_on(s, sep).len() >= 1,
    decreases s.len(),
{
    if s.len() > 0 && sep.len() > 0 && !stands_at(s, sep, 0) {
        lemma_cut_nonempty(s.drop_first(), sep);
    }
}

/// Parts that are done, a part that is still open, and the parts of the rest.
spec fn open_parts(done: Seq<Seq<char>>, held: Seq<char>, rest: Seq<Seq<char>>) -> Seq<Seq<char>> {
    done + (seq![held + rest[0]] + rest.drop_first())
}

proof fn lemma_cut_at_separator(
    done: Seq<Seq<char>>,
    held: Seq<char>,
    here: Seq<char>,
    sep: Seq<char>,
)
    requires
        sep.len() > 0,
        stands_at(here, sep, 0),
    ensures
        open_parts(
            done.push(held),
            Seq::empty(),
            cut_on(here.skip(sep.len() as int), sep),
        ) == open_parts(done, held, cut_on(here, sep)),
{
    let after = cut_on(here.skip(sep.len() as int), sep);
    let rest = cut_on(here, sep);
    lemma_cut_nonempty(here.skip(sep.len() as int), sep);
    assert(rest == seq![Seq::<char>::empty()] + after);
    assert(rest[0] =~= Seq::<char>::empty());
    assert(rest.drop_first() =~= after);
    assert(held + rest[0] =~= held);
    assert(Seq::<char>::empty() + after[0] =~= after[0]);
    assert(seq![after[0]] + after.drop_first() =~= after);
    assert(done.push(held) + after =~= done + (seq![held] + after));
}

proof fn lemma_cut_at_char(
    done: Seq<Seq<char>>,
    held: Seq<char>,
    here: Seq<char>,
    sep: Seq<char>,
)
    requires
        sep.len() > 0,
        here.len() > 0,
        !stands_at(here, sep, 0),
    ensures
        open_parts(done, held.push(here[0]), cut_on(here.drop_first(), sep)) == open_parts(
            done,
            held,
            cut_on(here, sep),
        ),
{
    let after = cut_on(here.drop_first(), sep);
    let rest = cut_on(here, sep);
    lemma_cut_nonempty(here.drop_first(), sep);
    assert(rest == seq![seq![here[0]] + after[0]] + after.drop_first());
    assert(rest[0] =~= seq![here[0]] + after[0]);
    assert(rest.drop_first() =~= after.drop_first());
    assert(held.push(here[0]) + after[0] =~= held + rest[0]);
}

/// The parts of `s` between the occurrences of the text `sep`.
pub fn split_text(s: &str, sep: &str) -> (r: Vec<String>)
    requires
        sep@.len() > 0,
    ensures
        texts(r@) == cut_on(s@, sep@),
        r@.len() >= 1,
{
    let v = chars_of(s);
    let p = chars_of(sep);
    let mut r: Vec<String> = Vec::new();
    let mut cur = String::new();
    let mut i: usize = 0;
    proof {
        assert(s@.skip(0) =~= s@);
        lemma_cut_nonempty(s@, sep@);
        let rest = cut_on(s@, sep@);
        assert(cur@ + rest[0] =~= rest[0]);
        assert(open_parts(texts(r@), cur@, rest) =~= rest);
    }
    while i < v.len()
        invariant
            i <= v@.len(),
            v@ == s@,
            p@ == sep@,
            sep@.len() > 0,
            open_parts(texts(r@), cur@, cut_on(s@.skip(i as int), sep@)) == cut_on(s@, sep@),
        decreases v@.len() - i,
    {
        let ghost here = s@.skip(i as int);
        let ghost parts = texts(r@);
        let ghost held = cur@;
        if stands_here(&v, &p, i) {
            r.push(cur);
            cur = String::new();
            proof {
                assert(here.subrange(0, sep@.len() as int) =~= s@.subrange(
                    i as int,
                    i + sep@.len(),
                ));
                lemma_cut_at_separator(parts, held, here, sep@);
                assert(texts(r@) =~= parts.push(held));
                assert(cur@ =~= Seq::<char>::empty());
                assert(here.skip(sep@.len() as int) =~= s@.skip(i + sep@.len()));
            }
            i += p.len();
        } else {
            cur.push(v[i]);
            proof {
                if stands_at(here, sep@, 0) {
                    assert(here.subrange(0, sep@.len() as int) =~= s@.subrange(
                        i as int,
                        i + sep@.len(),
                    ));
                }
                lemma_cut_at_char(parts, held, here, sep@);
                assert(here.drop_first() =~= s@.skip(i + 1));
            }
            i += 1;
        }
    }
    proof {
        let rest = cut_on(s@.skip(i as int), sep@);
        assert(s@.skip(i as int).len() == 0);
        assert(rest[0] =~= Seq::<char>::empty());
        assert(rest.drop_first() =~= Seq::<Seq<char>>::empty());
        assert(cur@ + rest[0] =~= cur@);
    }
    let ghost parts = texts(r@);
    let ghost held = cur@;
    r.push(cur);
    assert(texts(r@) =~= parts + (seq![held] + Seq::<Seq<char>>::empty()));
    r
}

/// The parts joined with `sep` between them.
pub open spec fn joined(parts: Seq<Seq<char>>, sep: Seq<char>) -> Seq<char>
    decreases parts.len(),
{
    if parts.len() == 0 {
        Seq::empty()
    } else if parts.len() == 1 {
        parts[0]
    } else {
        joined(parts.drop_last(), sep) + sep + parts.last()
    }
}

/// The strings of `parts` joined with `sep` between them.
pub fn join(parts: &Vec<String>, sep: &str) -> (r: String)
    ensures
        r@ == joined(texts(parts@), sep@),
{
    let mut r = String::new();
    let mut i: usize = 0;
    while i < parts.len()
        invariant
            i <= parts@.len(),
            r@ == joined(texts(parts@).take(i as int), sep@),
        decreases parts@.len() - i,
    {
        if i > 0 {
            r.append(sep);
        }
        r.append(parts[i].as_str());
        i += 1;
        proof {
            let now = texts(parts@).take(i as int);
            assert(now.drop_last() == texts(parts@).take(i as int - 1));
            assert(now.last() == parts@[i - 1]@);
            assert(Seq::<char>::empty() + parts@[i - 1]@ == parts@[i - 1]@);
        }
    }
    assert(texts(parts@).take(i as int) == texts(parts@));
    r
}

/// The words of `s`: its longest runs without white space.
pub open spec fn words(s: Seq<char>) -> Seq<Seq<char>>
    decreases s.len(),
{
    if s.len() == 0 {
        Seq::empty()
    } else {
        let head = words(s.drop_last());
        if white(s.last()) {
            head
        } else if s.len() == 1 || white(s[s.len() - 2]) {
            head.push(seq![s.last()])
        } else {
            head.drop_last().push(head.last().push(s.last()))
        }
    }
}

/// The words of `s`.
pub fn split_words(s: &str) -> (r: Vec<String>)
    ensures
        texts(r@) == words(s@),
{
    let v = chars_of(s);
    let mut r: Vec<String> = Vec::new();
    let mut cur = String::new();
    let mut open = false;
    let mut i: usize = 0;
    while i < v.len()
        invariant
            i <= v@.len(),
            v@ == s@,
            open == (i > 0 && !white(s@[i - 1])),
            open ==> texts(r@).push(cur@) == words(s@.take(i as int)),
            !open ==> texts(r@) == words(s@.take(i as int)) && cur@.len() == 0,
        decreases v@.len() - i,
    {
        let c = v[i];
        let ghost parts = texts(r@);
        let ghost held = cur@;
        let ghost now = s@.take(i as int + 1);
        proof {
            assert(now.drop_last() =~= s@.take(i as int));
            assert(now.last() == c);
            if i > 0 {
                assert(now[now.len() - 2] == s@[i - 1]);
            }
            assert(parts.push(held).last() == held);
            assert(parts.push(held).drop_last() =~= parts);
        }
        if is_white(c) {
            if open {
                r.push(cur);
                cur = String::new();
                open = false;
                assert(texts(r@) =~= parts.push(held));
            }
        } else {
            cur.push(c);
            open = true;
            assert(held.len() == 0 ==> cur@ =~= seq![c]);
        }
        i += 1;
    }
    assert(s@.take(i as int) =~= s@);
    if open {
        let ghost parts = texts(r@);
        let ghost held = cur@;
        r.push(cur);
        assert(texts(r@) =~= parts.push(held));
    }
    r
}

// ---------------------------------------------------------------------------
// Searching and replacing
// ---------------------------------------------------------------------------

/// Whether `pat` stands at position `i` of `s`.
pub open spec fn stands_at(s: Seq<char>, pat: Seq<char>, i: int) -> bool {
    0 <= i && i + pat.len() <= s.len() && s.subrange(i, i + pat.len()) == pat
}

/// Whether `pat` stands somewhere in `s`.
pub open spec fn has_text(s: Seq<char>, pat: Seq<char>) -> bool {
    exists|i: int| #[trigger] stands_at(s, pat, i)
}

/// Whether `pat` stands at position `i` of `v`.
fn stands_here(v: &Vec<char>, pat: &Vec<char>, i: usize) -> (r: bool)
    requires
        i <= v@.len(),
    ensures
        r == stands_at(v@, pat@, i as int),
{
    let n = v.len();
    if pat.len() > n - i {
        return false;
    }
    let mut k: usize = 0;
    while k < pat.len()
        invariant
            k <= pat@.len(),
            i + pat@.len() <= n == v@.len(),
            forall|m: int| 0 <= m < k ==> v@[i + m] == pat@[m],
        decreases pat@.len() - k,
    {
        if v[i + k] != pat[k] {
            assert(v@.subrange(i as int, i + pat@.len())[k as int] != pat@[k as int]);
            return false;
        }
        k += 1;
    }
    assert(v@.subrange(i as int, i + pat@.len()) == pat@);
    true
}

/// Whether `pat` stands somewhere in `s`.
pub fn contains(s: &str, pat: &str) -> (r: bool)
    ensures
        r == has_text(s@, pat@),
{
    let v = chars_of(s);
    let p = chars_of(pat);
    let mut i: usize = 0;
    loop
        invariant
            i <= v@.len(),
            v@ == s@,
            p@ == pat@,
            forall|k: int| 0 <= k < i ==> !#[trigger] stands_at(s@, pat@, k),
        decreases v@.len() - i,
    {
        if stands_here(&v, &p, i) {
            return true;
        }
        if i == v.len() {
            return false;
        }
        i += 1;
    }
}

/// Whether `s` begins with `pat`.
pub fn starts_with(s: &str, pat: &str) -> (r: bool)
    ensures
        r == stands_at(s@, pat@, 0),
{
    let v = chars_of(s);
    let p = chars_of(pat);
    stands_here(&v, &p, 0)
}

/// Whether `s` ends with `pat`.
pub fn ends_with(s: &str, pat: &str) -> (r: bool)
    ensures
        r == stands_at(s@, pat@, s@.len() - pat@.len()),
{
    let v = chars_of(s);
    let p = chars_of(pat);
    if p.len() > v.len() {
        return false;
    }
    stands_here(&v, &p, v.len() - p.len())
}

/// `s` with every occurrence of `pat`, taken from the left without overlap,
/// replaced by `with`.
pub open spec fn replaced(s: Seq<char>, pat: Seq<char>, with: Seq<char>) -> Seq<char>
    decreases s.len(),
{
    if s.len() == 0 || pat.len() == 0 {
        s
    } else if stands_at(s, pat, 0) {
        with + replaced(s.skip(pat.len() as int), pat, with)
    } else {
        seq![s[0]] + replaced(s.drop_first(), pat, with)
    }
}

/// `s` with every occurrence of `pat` replaced by `with`.
pub fn replace(s: &str, pat: &str, with: &str) -> (r: String)
    requires
        pat@.len() > 0,
    ensures
        r@ == replaced(s@, pat@, with@),
{
    let v = chars_of(s);
    let p = chars_of(pat);
    let mut r = String::new();
    let mut i: usize = 0;
    assert(s@.skip(0) == s@);
    while i < v.len()
        invariant
            i <= v@.len(),
            v@ == s@,
            p@ == pat@,
            pat@.len() > 0,
            r@ + replaced(s@.skip(i as int), pat@, with@) == replaced(s@, pat@, with@),
        decreases v@.len() - i,
    {
        let ghost rest = s@.skip(i as int);
        let ghost done = r@;
        if stands_here(&v, &p, i) {
            assert(rest.subrange(0, pat@.len() as int) == s@.subrange(i as int, i + pat@.len()));
            assert(stands_at(rest, pat@, 0));
            r.append(with);
            i += p.len();
            assert(rest.skip(pat@.len() as int) == s@.skip(i as int));
            assert(r@ + replaced(s@.skip(i as int), pat@, with@) == done + (with@ + replaced(
                s@.skip(i as int),
                pat@,
                with@,
            )));
        } else {
            assert(!stands_at(rest, pat@, 0)) by {
                if stands_at(rest, pat@, 0) {
                    assert(rest.subrange(0, pat@.len() as int) == s@.subrange(
                        i as int,
                        i + pat@.len(),
                    ));
                }
            }
            r.push(v[i]);
            i += 1;
            assert(rest.drop_first() == s@.skip(i as int));
            assert(r@ + replaced(s@.skip(i as int), pat@, with@) == done + (seq![rest[0]] + replaced(
                s@.skip(i as int),
                pat@,
                with@,
            )));
        }
    }
    assert(s@.skip(i as int).len() == 0);
    assert(r@ + replaced(s@.skip(i as int), pat@, with@) == r@);
    r
}

/// Where `pat` does not stand in `s` there is nothing to replace.
pub proof fn lemma_replace_absent(s: Seq<char>, pat: Seq<char>, with: Seq<char>)
    requires
        !has_text(s, pat),
    ensures
        replaced(s, pat, with) == s,
    decreases s.len(),
{
    if s.len() > 0 && pat.len() > 0 {
        assert(!stands_at(s, pat, 0));
        let rest = s.drop_first();
        assert(!has_text(rest, pat)) by {
            if has_text(rest, pat) {
                let i = choose|i: int| #[trigger] stands_at(rest, pat, i);
                assert(rest.subrange(i, i + pat.len()) =~= s.subrange(i + 1, i + 1 + pat.len()));
                assert(stands_at(s, pat, i + 1));
            }
        }
        lemma_replace_absent(rest, pat, with);
        assert(seq![s[0]] + rest =~= s);
    }
}

/// A text without the characters `c` at its end.
pub open spec fn trimmed_end(s: Seq<char>, c: char) -> Seq<char>
    decreases s.len(),
{
    if s.len() > 0 && s.last() == c {
        trimmed_end(s.drop_last(), c)
    } else {
        s
    }
}

/// A text without the characters `c` at its end.
pub fn trim_end_char(s: &str, c: char) -> (r: String)
    ensures
        r@ == trimmed_end(s@, c),
{
    let v = chars_of(s);
    let mut n: usize = v.len();
    assert(v@.take(n as int) =~= s@);
    while n > 0 && v[n - 1] == c
        invariant
            n <= v@.len(),
            trimmed_end(v@.take(n as int), c) == trimmed_end(s@, c),
        decreases n,
    {
        assert(v@.take(n as int).drop_last() =~= v@.take(n as int - 1));
        n -= 1;
    }
    assert(v@.subrange(0, n as int) =~= v@.take(n as int));
    string_of(&v, 0, n)
}

/// At most the first `n` characters of `s`.
pub open spec fn first_chars(s: Seq<char>, n: int) -> Seq<char> {
    if s.len() <= n {
        s
    } else {
        s.take(n)
    }
}

/// At most the first `n` characters of `s`.
pub fn take_chars(s: &str, n: usize) -> (r: String)
    ensures
        r@ == first_chars(s@, n as int),
{
    let v = chars_of(s);
    let m = if v.len() <= n {
        v.len()
    } else {
        n
    };
    assert(v@.subrange(0, m as int) == first_chars(s@, n as int));
    string_of(&v, 0, m)
}

// ---------------------------------------------------------------------------
// Order
// ---------------------------------------------------------------------------

/// The order of two texts: by the first character in which they differ, the
/// shorter first where there is none.
pub open spec fn before(a: Seq<char>, b: Seq<char>) -> bool
    decreases a.len(),
{
    if b.len() == 0 {
        false
    } else if a.len() == 0 {
        true
    } else if a[0] != b[0] {
        a[0] < b[0]
    } else {
        before(a.drop_first(), b.drop_first())
    }
}

/// Where neither of two texts comes before the other they are equal.
pub proof fn lemma_before_total(a: Seq<char>, b: Seq<char>)
    requires
        !before(a, b),
        !before(b, a),
    ensures
        a == b,
    decreases a.len(),
{
    if a.len() > 0 && b.len() > 0 {
        lemma_before_total(a.drop_first(), b.drop_first());
        assert(a =~= seq![a[0]] + a.drop_first());
        assert(b =~= seq![b[0]] + b.drop_first());
    } else {
        assert(a =~= b);
    }
}

/// What comes before another text does not come after it.
pub proof fn lemma_before_asym(a: Seq<char>, b: Seq<char>)
    requires
        before(a, b),
    ensures
        !before(b, a),
    decreases a.len(),
{
    if a.len() > 0 && b.len() > 0 && a[0] == b[0] {
        lemma_before_asym(a.drop_first(), b.drop_first());
    }
}

/// The order is transitive.
pub proof fn lemma_before_trans(a: Seq<char>, b: Seq<char>, c: Seq<char>)
    requires
        before(a, b),
        before(b, c),
    ensures
        before(a, c),
    decreases a.len(),
{
    if a.len() > 0 && b.len() > 0 && c.len() > 0 && a[0] == b[0] && b[0] == c[0] {
        lemma_before_trans(a.drop_first(), b.drop_first(), c.drop_first());
    }
}

/// Whether `a` comes before `b`.
pub fn comes_before(a: &str, b: &str) -> (r: bool)
    ensures
        r == before(a@, b@),
{
    let x = chars_of(a);
    let y = chars_of(b);
    let mut i: usize = 0;
    assert(a@.skip(0) =~= a@);
    assert(b@.skip(0) =~= b@);
    while i < x.len() && i < y.len()
        invariant
            i <= x@.len(),
            i <= y@.len(),
            x@ == a@,
            y@ == b@,
            before(a@, b@) == before(a@.skip(i as int), b@.skip(i as int)),
        decreases x@.len() - i,
    {
        if x[i] != y[i] {
            return x[i] < y[i];
        }
        assert(a@.skip(i as int).drop_first() =~= a@.skip(i as int + 1));
        assert(b@.skip(i as int).drop_first() =~= b@.skip(i as int + 1));
        i += 1;
    }
    i < y.len()
}

// ---------------------------------------------------------------------------
// Numbers
// ---------------------------------------------------------------------------

/// The decimal digit of `d`.
pub open spec fn digit(d: int) -> char {
    ((48 + d) as u8) as char
}

/// The decimal notation of `n`.
pub open spec fn decimal(n: nat) -> Seq<char>
    decreases n,
{
    if n < 10 {
        seq![digit(n as int)]
    } else {
        decimal(n / 10).push(digit((n % 10) as int))
    }
}

/// The decimal notation of `i`, with a minus sign where it is negative.
pub open spec fn int_text(i: int) -> Seq<char> {
    if i < 0 {
        seq!['-'] + decimal((-i) as nat)
    } else {
        decimal(i as nat)
    }
}

/// The decimal notation of `n`.
pub fn u64_text(n: u64) -> (r: String)
    ensures
        r@ == decimal(n as nat),
    decreases n,
{
    let d: char = ((48 + n % 10) as u8) as char;
    if n < 10 {
        let mut r = String::new();
        r.push(d);
        assert(r@ == seq![digit(n as int)]);
        r
    } else {
        let mut r = u64_text(n / 10);
        r.push(d);
        r
    }
}

/// The decimal notation of `n`.
pub fn i64_text(n: i64) -> (r: String)
    ensures
        r@ == int_text(n as int),
{
    if n < 0 {
        let m: u64 = ((-(n + 1)) as u64) + 1;
        let mut r = String::new();
        r.push('-');
        assert(r@ == seq!['-']);
        let t = u64_text(m);
        r.append(t.as_str());
        r
    } else {
        u64_text(n as u64)
    }
}

/// Whether `c` is an ASCII digit.
pub open spec fn is_digit(c: char) -> bool {
    '0' <= c <= '9'
}

/// Whether `s` is one or more digits.
pub open spec fn all_digits(s: Seq<char>) -> bool {
    s.len() > 0 && forall|i: int| 0 <= i < s.len() ==> is_digit(#[trigger] s[i])
}

/// The number that a row of digits stands for.
pub open spec fn digits_value(s: Seq<char>) -> int
    decreases s.len(),
{
    if s.len() == 0 {
        0
    } else {
        digits_value(s.drop_last()) * 10 + (s.last() as u32 - 48)
    }
}

/// The number that `s` stands for: an optional plus sign, then digits.
pub open spec fn parsed_nat(s: Seq<char>) -> Option<int> {
    let body = if s.len() > 0 && s[0] == '+' {
        s.drop_first()
    } else {
        s
    };
    if all_digits(body) {
        Some(digits_value(body))
    } else {
        None
    }
}

/// The number that `s` stands for: an optional sign, then digits.
pub open spec fn parsed_int(s: Seq<char>) -> Option<int> {
    if s.len() > 0 && s[0] == '-' {
        if all_digits(s.drop_first()) {
            Some(-digits_value(s.drop_first()))
        } else {
            None
        }
    } else {
        parsed_nat(s)
    }
}

/// `o` where it lies in `lo..=hi`.
pub open spec fn within(o: Option<int>, lo: int, hi: int) -> Option<int> {
    match o {
        Some(n) => if lo <= n <= hi {
            Some(n)
        } else {
            None
        },
        None => None,
    }
}

proof fn lemma_digits_value_nonneg(s: Seq<char>)
    requires
        forall|i: int| 0 <= i < s.len() ==> is_digit(#[trigger] s[i]),
    ensures
        0 <= digits_value(s),
    decreases s.len(),
{
    if s.len() > 0 {
        lemma_digits_value_nonneg(s.drop_last());
        assert(is_digit(s[s.len() - 1]));
    }
}

/// The value of the digits `v[from..]`, where it fits in 64 bits.
fn digits_from(v: &Vec<char>, from: usize) -> (r: Option<u64>)
    requires
        from <= v@.len(),
    ensures
        match r {
            Some(n) => all_digits(v@.skip(from as int)) && digits_value(v@.skip(from as int)) == n,
            None => !all_digits(v@.skip(from as int)) || digits_value(v@.skip(from as int))
                > u64::MAX,
        },
{
    let ghost body = v@.skip(from as int);
    if from == v.len() {
        return None;
    }
    let mut acc: u64 = 0;
    let mut over = false;
    let mut i: usize = from;
    assert(body.take(0) == Seq::<char>::empty());
    while i < v.len()
        invariant
            from <= i <= v@.len(),
            body == v@.skip(from as int),
            forall|k: int| 0 <= k < i - from ==> is_digit(#[trigger] body[k]),
            !over ==> acc == digits_value(body.take(i - from)),
            over ==> digits_value(body.take(i - from)) > u64::MAX,
        decreases v@.len() - i,
    {
        let c = v[i];
        assert(c == body[i - from]);
        if !('0' <= c && c <= '9') {
            return None;
        }
        let d: u64 = (c as u32 - 48) as u64;
        assert(body.take(i - from + 1).drop_last() == body.take(i - from));
        if !over {
            if acc > (u64::MAX - d) / 10 {
                over = true;
            } else {
                acc = acc * 10 + d;
            }
        }
        i += 1;
    }
    assert(body.take(i - from) == body);
    if over {
        None
    } else {
        Some(acc)
    }
}

/// `s` read as an unsigned number of at most 64 bits.
pub fn parse_u64(s: &str) -> (r: Option<u64>)
    ensures
        match r {
            Some(n) => within(parsed_nat(s@), 0, u64::MAX as int) == Some(n as int),
            None => within(parsed_nat(s@), 0, u64::MAX as int) is None,
        },
{
    let v = chars_of(s);
    let signed = v.len() > 0 && v[0] == '+';
    assert(v@.skip(1) == s@.drop_first());
    assert(v@.skip(0) == s@);
    let r = digits_from(&v, if signed {
        1
    } else {
        0
    });
    proof {
        let body = if signed {
            s@.drop_first()
        } else {
            s@
        };
        if all_digits(body) {
            lemma_digits_value_nonneg(body);
        }
    }
    r
}

/// `s` read as an unsigned number of at most 32 bits.
pub fn parse_u32(s: &str) -> (r: Option<u32>)
    ensures
        match r {
            Some(n) => within(parsed_nat(s@), 0, u32::MAX as int) == Some(n as int),
            None => within(parsed_nat(s@), 0, u32::MAX as int) is None,
        },
{
    match parse_u64(s) {
        Some(n) => if n <= u32::MAX as u64 {
            Some(n as u32)
        } else {
            None
        },
        None => None,
    }
}

/// `s` read as an unsigned number of at most 8 bits.
pub fn parse_u8(s: &str) -> (r: Option<u8>)
    ensures
        match r {
            Some(n) => within(parsed_nat(s@), 0, u8::MAX as int) == Some(n as int),
            None => within(parsed_nat(s@), 0, u8::MAX as int) is None,
        },
{
    match parse_u64(s) {
        Some(n) => if n <= u8::MAX as u64 {
            Some(n as u8)
        } else {
            None
        },
        None => None,
    }
}

/// `s` read as an unsigned number that fits in `usize`.
pub fn parse_usize(s: &str) -> (r: Option<usize>)
    ensures
        match r {
            Some(n) => within(parsed_nat(s@), 0, usize::MAX as int) == Some(n as int),
            None => within(parsed_nat(s@), 0, usize::MAX as int) is None,
        },
{
    match parse_u64(s) {
        Some(n) => if n <= usize::MAX as u64 {
            Some(n as usize)
        } else {
            None
        },
        None => None,
    }
}

/// `s` read as a signed number of at most 64 bits.
pub fn parse_i64(s: &str) -> (r: Option<i64>)
    ensures
        match r {
            Some(n) => within(parsed_int(s@), i64::MIN as int, i64::MAX as int) == Some(n as int),
            None => within(parsed_int(s@), i64::MIN as int, i64::MAX as int) is None,
        },
{
    let v = chars_of(s);
    if v.len() > 0 && v[0] == '-' {
        assert(v@.skip(1) == s@.drop_first());
        match digits_from(&v, 1) {
            Some(n) => if n <= i64::MAX as u64 {
                Some(-(n as i64))
            } else if n == i64::MAX as u64 + 1 {
                Some(i64::MIN)
            } else {
                None
            },
            None => None,
        }
    } else {
        proof {
            if parsed_nat(s@) is Some {
                let body = if s@.len() > 0 && s@[0] == '+' {
                    s@.drop_first()
                } else {
                    s@
                };
                lemma_digits_value_nonneg(body);
            }
        }
        match parse_u64(s) {
            Some(n) => if n <= i64::MAX as u64 {
                Some(n as i64)
            } else {
                None
            },
            None => None,
        }
    }
}

/// Whether `c` can stand in the notation of a number.
pub open spec fn in_number(c: char) -> bool {
    is_digit(c) || c == '-'
}

proof fn lemma_decimal(n: nat)
    ensures
        all_digits(decimal(n)),
        digits_value(decimal(n)) == n,
    decreases n,
{
    let d = digit((n % 10) as int);
    assert(is_digit(d) && d as u32 - 48 == n % 10);
    if n >= 10 {
        lemma_decimal(n / 10);
        let s = decimal(n / 10);
        assert(decimal(n).drop_last() =~= s);
        assert(decimal(n).last() == d);
    } else {
        let e = Seq::<char>::empty();
        assert(decimal(n).drop_last() =~= e);
        assert(digits_value(e) == 0);
        assert(decimal(n).last() == d);
    }
}

/// The notation of a number reads back as the number.
pub proof fn law_numbers_read_back(i: int)
    ensures
        parsed_int(int_text(i)) == Some(i),
{
    if i < 0 {
        lemma_decimal((-i) as nat);
        assert((seq!['-'] + decimal((-i) as nat)).drop_first() =~= decimal((-i) as nat));
    } else {
        lemma_decimal(i as nat);
        assert(is_digit(decimal(i as nat)[0]));
    }
}

/// Two numbers with one notation are one.
pub proof fn law_numbers_are_told_apart(a: int, b: int)
    requires
        int_text(a) == int_text(b),
    ensures
        a == b,
{
    law_numbers_read_back(a);
    law_numbers_read_back(b);
}

/// The notation of a number holds digits and a minus sign only.
pub proof fn lemma_number_chars(i: int, k: int)
    requires
        0 <= k < int_text(i).len(),
    ensures
        in_number(int_text(i)[k]),
{
    if i < 0 {
        lemma_decimal((-i) as nat);
        if k > 0 {
            assert(is_digit(decimal((-i) as nat)[k - 1]));
        }
    } else {
        lemma_decimal(i as nat);
        assert(is_digit(decimal(i as nat)[k]));
    }
}

/// Two pairs of numbers with a colon between them are told apart.
pub proof fn lemma_pairs_are_told_apart(a: int, b: int, c: int, d: int)
    requires
        int_text(a) + seq![':'] + int_text(b) == int_text(c) + seq![':'] + int_text(d),
    ensures
        a == c,
        b == d,
{
    let x = int_text(a);
    let y = int_text(c);
    let s = x + seq![':'] + int_text(b);
    let t = y + seq![':'] + int_text(d);
    if x.len() < y.len() {
        lemma_number_chars(c, x.len() as int);
        assert(s[x.len() as int] == ':');
        assert(t[x.len() as int] == y[x.len() as int]);
    } else if y.len() < x.len() {
        lemma_number_chars(a, y.len() as int);
        assert(t[y.len() as int] == ':');
        assert(s[y.len() as int] == x[y.len() as int]);
    }
    assert(x =~= s.take(x.len() as int));
    assert(y =~= t.take(x.len() as int));
    assert(int_text(b) =~= s.skip(x.len() as int + 1));
    assert(int_text(d) =~= t.skip(x.len() as int + 1));
    law_numbers_are_told_apart(a, c);
    law_numbers_are_told_apart(b, d);
}

// ---------------------------------------------------------------------------
// Laws
// ---------------------------------------------------------------------------

proof fn lemma_trim_front(s: Seq<char>) -> (i: int)
    ensures
        0 <= i <= s.len(),
        trim_front(s) == s.skip(i),
        forall|k: int| 0 <= k < i ==> white(#[trigger] s[k]),
        i < s.len() ==> !white(s[i]),
    decreases s.len(),
{
    if s.len() > 0 && white(s[0]) {
        let j = lemma_trim_front(s.drop_first());
        assert(s.drop_first().skip(j) =~= s.skip(j + 1));
        assert forall|k: int| 0 <= k < j + 1 implies white(#[trigger] s[k]) by {
            if k > 0 {
                assert(s.drop_first()[k - 1] == s[k]);
            }
        }
        if j + 1 < s.len() {
            assert(s.drop_first()[j] == s[j + 1]);
        }
        j + 1
    } else {
        assert(s.skip(0) =~= s);
        0
    }
}

proof fn lemma_trim_back(s: Seq<char>) -> (j: int)
    ensures
        0 <= j <= s.len(),
        trim_back(s) == s.take(j),
        forall|k: int| j <= k < s.len() ==> white(#[trigger] s[k]),
        j > 0 ==> !white(s[j - 1]),
    decreases s.len(),
{
    if s.len() > 0 && white(s.last()) {
        let j = lemma_trim_back(s.drop_last());
        assert(s.drop_last().take(j) =~= s.take(j));
        assert forall|k: int| j <= k < s.len() implies white(#[trigger] s[k]) by {
            if k < s.len() - 1 {
                assert(s.drop_last()[k] == s[k]);
            }
        }
        if j > 0 {
            assert(s.drop_last()[j - 1] == s[j - 1]);
        }
        j
    } else {
        assert(s.take(s.len() as int) =~= s);
        s.len() as int
    }
}

/// Trimming takes white space from both ends and nothing else: what stays is one
/// piece of the text, what goes is white, and neither end of what stays is.
pub proof fn law_trimming_takes_white_ends(s: Seq<char>) -> (r: (int, int))
    ensures
        0 <= r.0 <= r.1 <= s.len(),
        trimmed(s) == s.subrange(r.0, r.1),
        forall|k: int| 0 <= k < s.len() && (k < r.0 || k >= r.1) ==> white(#[trigger] s[k]),
        r.0 < r.1 ==> !white(s[r.0]) && !white(s[r.1 - 1]),
{
    let i = lemma_trim_front(s);
    let f = s.skip(i);
    let j = lemma_trim_back(f);
    assert(f.take(j) =~= s.subrange(i, i + j));
    assert forall|k: int| 0 <= k < s.len() && (k < i || k >= i + j) implies white(#[trigger] s[k]) by {
        if k >= i + j {
            assert(f[k - i] == s[k]);
        }
    }
    if j > 0 {
        assert(f[0] == s[i]);
        assert(f[j - 1] == s[i + j - 1]);
    }
    (i, i + j)
}

/// Nothing is left of a text by trimming just where all of it is white space.
pub proof fn law_blank_means_white_only(s: Seq<char>)
    ensures
        trimmed(s).len() == 0 <==> forall|i: int| 0 <= i < s.len() ==> white(#[trigger] s[i]),
{
    let r = law_trimming_takes_white_ends(s);
    if r.0 < r.1 {
        assert(!white(s[r.0]));
    }
}

/// Blanks, tabs and line ends are white space; the visible characters of ASCII
/// are not.
pub proof fn law_white_space_of_ascii(c: char, r: bool)
    requires
        (c as u32) < 128,
        call_ensures(is_white, (c,), r),
    ensures
        c == ' ' || c == '\t' || c == '\n' || c == '\r' ==> r,
        33 <= (c as u32) < 127 ==> !r,
{
}

/// Folding changes capital letters of ASCII to small ones, each to its own, and
/// nothing else.
pub proof fn law_folding_changes_capitals_only(c: char, r: char)
    requires
        call_ensures(lower_char, (c,), r),
    ensures
        65 <= c as u32 <= 90 ==> r as u32 == c as u32 + 32,
        !(65 <= c as u32 <= 90) ==> r == c,
        ascii_lower(c) == r,
{
}

/// Two texts are equal up to case where they are as long and equal character by
/// character up to case.
pub proof fn law_equal_up_to_case(a: Seq<char>, b: Seq<char>)
    ensures
        same_ascii_case_folded(a, b) <==> a.len() == b.len() && forall|i: int|
            0 <= i < a.len() ==> ascii_lower(#[trigger] a[i]) == ascii_lower(b[i]),
        same_ascii_case_folded(a, b) == same_ascii_case_folded(b, a),
        same_ascii_case_folded(a, a),
{
    let x = ascii_lowered(a);
    let y = ascii_lowered(b);
    if same_ascii_case_folded(a, b) {
        assert(x.len() == a.len() && y.len() == b.len());
        assert forall|i: int| 0 <= i < a.len() implies ascii_lower(#[trigger] a[i]) == ascii_lower(
            b[i],
        ) by {
            assert(x[i] == ascii_lower(a[i]) && y[i] == ascii_lower(b[i]));
        }
    }
    if a.len() == b.len() && forall|i: int|
        0 <= i < a.len() ==> ascii_lower(#[trigger] a[i]) == ascii_lower(b[i]) {
        assert(x =~= y);
    }
}

/// The order of two texts is decided by the first character in which they
/// differ, and a text comes before what it is the beginning of.
pub proof fn law_the_first_difference_decides(a: Seq<char>, b: Seq<char>, k: int)
    requires
        0 <= k <= a.len(),
        k < b.len(),
        forall|i: int| 0 <= i < k ==> a[i] == b[i],
        k < a.len() ==> a[k] < b[k],
    ensures
        before(a, b),
        !before(b, a),
    decreases k,
{
    if k > 0 {
        let x = a.drop_first();
        let y = b.drop_first();
        assert forall|i: int| 0 <= i < k - 1 implies x[i] == y[i] by {
            assert(x[i] == a[i + 1] && y[i] == b[i + 1]);
        }
        law_the_first_difference_decides(x, y, k - 1);
    }
    lemma_before_asym(a, b);
}

/// Splitting a text and joining the parts again gives the text; no part holds the
/// separator.
pub proof fn law_split_parts_join_again(s: Seq<char>, sep: char)
    ensures
        split_on(s, sep).len() >= 1,
        joined(split_on(s, sep), seq![sep]) == s,
        forall|i: int|
            0 <= i < split_on(s, sep).len() ==> !(#[trigger] split_on(s, sep)[i]).contains(sep),
    decreases s.len(),
{
    let parts = split_on(s, sep);
    if s.len() > 0 {
        let t = s.drop_last();
        let head = split_on(t, sep);
        law_split_parts_join_again(t, sep);
        assert(s =~= t.push(s.last()));
        if s.last() == sep {
            assert(parts.drop_last() =~= head);
            assert(joined(parts, seq![sep]) =~= t + seq![sep] + Seq::<char>::empty());
        } else {
            let grown = head.last().push(s.last());
            assert(parts.drop_last() =~= head.drop_last());
            if head.len() > 1 {
                assert(joined(head, seq![sep]) == joined(head.drop_last(), seq![sep]) + seq![sep]
                    + head.last());
                assert(joined(parts, seq![sep]) =~= joined(head, seq![sep]).push(s.last()));
            } else {
                assert(joined(parts, seq![sep]) =~= grown);
                assert(joined(head, seq![sep]) =~= head[0]);
            }
            assert forall|i: int| 0 <= i < parts.len() implies !(#[trigger] parts[i]).contains(
                sep,
            ) by {
                if i < parts.len() - 1 {
                    assert(parts[i] == head[i]);
                } else {
                    assert(!head[i].contains(sep));
                    if grown.contains(sep) {
                        let k = choose|k: int| 0 <= k < grown.len() && grown[k] == sep;
                        assert(head.last()[k] == sep);
                    }
                }
            }
        }
    }
}

/// Replacing puts the new text where the old one stood: it joins the parts
/// between the places of the old text with the new one.
pub proof fn law_replacing_joins_the_parts(s: Seq<char>, pat: Seq<char>, with: Seq<char>)
    ensures
        replaced(s, pat, with) == joined(cut_on(s, pat), with),
        joined(cut_on(s, pat), pat) == s,
    decreases s.len(),
{
    lemma_cut_nonempty(s, pat);
    if s.len() == 0 || pat.len() == 0 {
        assert(cut_on(s, pat) =~= seq![s]);
    } else if stands_at(s, pat, 0) {
        let t = s.skip(pat.len() as int);
        law_replacing_joins_the_parts(t, pat, with);
        lemma_cut_nonempty(t, pat);
        lemma_join_front(Seq::<char>::empty(), cut_on(t, pat), with);
        lemma_join_front(Seq::<char>::empty(), cut_on(t, pat), pat);
        assert(s =~= pat + t);
        assert(Seq::<char>::empty() + with + joined(cut_on(t, pat), with) =~= with + joined(
            cut_on(t, pat),
            with,
        ));
        assert(Seq::<char>::empty() + pat + t =~= pat + t);
    } else {
        let t = s.drop_first();
        law_replacing_joins_the_parts(t, pat, with);
        lemma_cut_nonempty(t, pat);
        lemma_join_grown(seq![s[0]], cut_on(t, pat), with);
        lemma_join_grown(seq![s[0]], cut_on(t, pat), pat);
        assert(s =~= seq![s[0]] + t);
    }
}

/// Joining with one more part in front.
proof fn lemma_join_front(first: Seq<char>, rest: Seq<Seq<char>>, sep: Seq<char>)
    requires
        rest.len() >= 1,
    ensures
        joined(seq![first] + rest, sep) == first + sep + joined(rest, sep),
    decreases rest.len(),
{
    let all = seq![first] + rest;
    assert(all.last() == rest.last());
    assert(all.drop_last() =~= seq![first] + rest.drop_last());
    if rest.len() > 1 {
        lemma_join_front(first, rest.drop_last(), sep);
        assert(first + sep + joined(rest.drop_last(), sep) + sep + rest.last() =~= first + sep + (
        joined(rest.drop_last(), sep) + sep + rest.last()));
    } else {
        assert(all.drop_last() =~= seq![first]);
        assert(joined(all.drop_last(), sep) == first);
        assert(joined(rest, sep) == rest[0]);
    }
}

/// Joining where the first part has more in front.
proof fn lemma_join_grown(head: Seq<char>, rest: Seq<Seq<char>>, sep: Seq<char>)
    requires
        rest.len() >= 1,
    ensures
        joined(seq![head + rest[0]] + rest.drop_first(), sep) == head + joined(rest, sep),
    decreases rest.len(),
{
    let all = seq![head + rest[0]] + rest.drop_first();
    if rest.len() > 1 {
        assert(all.last() == rest.last());
        assert(all.drop_last() =~= seq![head + rest[0]] + rest.drop_last().drop_first());
        lemma_join_grown(head, rest.drop_last(), sep);
        assert(head + joined(rest.drop_last(), sep) + sep + rest.last() =~= head + (joined(
            rest.drop_last(),
            sep,
        ) + sep + rest.last()));
    } else {
        assert(all =~= seq![head + rest[0]]);
    }
}

/// A number is read only from a row of digits, with one sign in front of it at
/// most.
pub proof fn law_only_digits_are_read(s: Seq<char>)
    ensures
        parsed_int(s) is Some ==> s.len() > 0 && is_digit(s.last()) && forall|i: int|
            0 < i < s.len() ==> is_digit(#[trigger] s[i]),
        parsed_int(s) is Some && !is_digit(s[0]) ==> s[0] == '-' || s[0] == '+',
        parsed_nat(s) is Some ==> s[0] != '-',
{
    if s.len() > 0 {
        let t = s.drop_first();
        assert forall|i: int| 0 < i < s.len() implies s[i] == t[i - 1] by {}
        if parsed_int(s) is Some {
            if !is_digit(s[0]) {
                assert(all_digits(t));
                assert(is_digit(t[t.len() - 1]));
                assert forall|i: int| 0 < i < s.len() implies is_digit(#[trigger] s[i]) by {
                    assert(is_digit(t[i - 1]));
                }
            } else {
                assert(all_digits(s));
                assert(is_digit(s[s.len() - 1]));
            }
        }
        if parsed_nat(s) is Some {
            if s[0] != '+' {
                assert(is_digit(s[0]));
            }
        }
    }
}

} // verus!
