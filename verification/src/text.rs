//! Character-level text utilities with exact specifications.

use vstd::prelude::*;
use vstd::string::StringExecFns;

verus! {

/// Appends one character to a string with `String::push`; the contract
/// claims that the text grows by exactly that character at its end.
#[verifier::external_body]
pub(crate) fn push_char(s: &mut String, c: char)
    ensures
        final(s)@ == old(s)@.push(c),
{
    s.push(c);
}

/// The characters of a string slice, in order.
pub fn chars_of(s: &str) -> (v: Vec<char>)
    ensures
        v@ == s@,
{
    let mut v: Vec<char> = Vec::new();
    for c in it: s.chars()
        invariant
            v@ == it.seq().take(it.index() as int),
    {
        v.push(c);
    }
    v
}

/// A string made of the given characters.
pub fn string_from_chars(v: &[char]) -> (s: String)
    ensures
        s@ == v@,
{
    let mut s = String::new();
    let mut i: usize = 0;
    while i < v.len()
        invariant
            i <= v.len(),
            s@ == v@.take(i as int),
        decreases v.len() - i,
    {
        push_char(&mut s, v[i]);
        assert(v@.take(i as int).push(v@[i as int]) =~= v@.take(i + 1));
        i += 1;
    }
    assert(v@.take(v.len() as int) =~= v@);
    s
}


/// The pieces of `s` between occurrences of `sep`, as `str::split` with a
/// character pattern gives them: always at least one piece.
pub open spec fn split_spec(s: Seq<char>, sep: char) -> Seq<Seq<char>>
    decreases s.len(),
{
    if s.len() == 0 {
        seq![Seq::<char>::empty()]
    } else {
        let prev = split_spec(s.drop_last(), sep);
        if s.last() == sep {
            prev.push(Seq::<char>::empty())
        } else {
            prev.update(prev.len() - 1, prev.last().push(s.last()))
        }
    }
}

/// `split_spec` never yields an empty list of pieces.
pub proof fn lemma_split_nonempty(s: Seq<char>, sep: char)
    ensures
        split_spec(s, sep).len() >= 1,
    decreases s.len(),
{
    if s.len() > 0 {
        lemma_split_nonempty(s.drop_last(), sep);
    }
}

/// Splits a character sequence at every `sep`, as `str::split(sep)`.
pub fn split_chars(v: &[char], sep: char) -> (parts: Vec<Vec<char>>)
    ensures
        parts@.len() == split_spec(v@, sep).len(),
        forall|i: int| 0 <= i < parts@.len() ==> #[trigger] parts@[i]@ == split_spec(v@, sep)[i],
{
    let mut parts: Vec<Vec<char>> = Vec::new();
    let mut cur: Vec<char> = Vec::new();
    let mut i: usize = 0;
    while i < v.len()
        invariant
            i <= v.len(),
            parts@.len() + 1 == split_spec(v@.take(i as int), sep).len(),
            forall|k: int| 0 <= k < parts@.len() ==> #[trigger] parts@[k]@ == split_spec(v@.take(i as int), sep)[k],
            cur@ == split_spec(v@.take(i as int), sep).last(),
        decreases v.len() - i,
    {
        proof {
            lemma_split_nonempty(v@.take(i as int), sep);
            assert(v@.take(i + 1).drop_last() =~= v@.take(i as int));
        }
        let c = v[i];
        if c == sep {
            let mut done: Vec<char> = Vec::new();
            std::mem::swap(&mut done, &mut cur);
            parts.push(done);
        } else {
            cur.push(c);
        }
        i += 1;
    }
    assert(v@.take(v.len() as int) =~= v@);
    parts.push(cur);
    parts
}


/// `x` without one trailing carriage return, if it has one.
pub open spec fn strip_cr(x: Seq<char>) -> Seq<char> {
    if x.len() > 0 && x.last() == '\r' {
        x.drop_last()
    } else {
        x
    }
}

/// The lines of `s` as `str::lines` gives them: pieces between `'\n'`, a
/// final empty piece dropped, and a `'\r'` removed from the end of every
/// piece that a `'\n'` ends.
pub open spec fn lines_spec(s: Seq<char>) -> Seq<Seq<char>> {
    let p = split_spec(s, '\n');
    let n = if p.last().len() == 0 { p.len() - 1 } else { p.len() as int };
    Seq::new(n as nat, |i: int| if i < p.len() - 1 { strip_cr(p[i]) } else { p[i] })
}

/// The lines of a text, as `str::lines` gives them.
pub fn lines_of(s: &str) -> (lines: Vec<String>)
    ensures
        lines@.len() == lines_spec(s@).len(),
        forall|i: int| 0 <= i < lines@.len() ==> #[trigger] lines@[i]@ == lines_spec(s@)[i],
{
    let v = chars_of(s);
    let parts = split_chars(&v, '\n');
    proof {
        lemma_split_nonempty(v@, '\n');
    }
    let np = parts.len();
    let n = if parts[np - 1].len() == 0 { np - 1 } else { np };
    let ghost spec_lines = lines_spec(s@);
    let mut lines: Vec<String> = Vec::new();
    let mut i: usize = 0;
    while i < n
        invariant
            v@ == s@,
            np == parts@.len(),
            np == split_spec(v@, '\n').len(),
            forall|k: int| 0 <= k < np ==> #[trigger] parts@[k]@ == split_spec(v@, '\n')[k],
            n as int == spec_lines.len(),
            spec_lines == lines_spec(s@),
            i <= n <= np,
            lines@.len() == i,
            forall|k: int| 0 <= k < i ==> #[trigger] lines@[k]@ == spec_lines[k],
        decreases n - i,
    {
        let piece = &parts[i];
        let len = piece.len();
        let line = if i + 1 < np && len > 0 && piece[len - 1] == '\r' {
            let l = string_from_chars(&piece.as_slice()[0..len - 1]);
            assert(piece@.subrange(0, len - 1) =~= piece@.drop_last());
            l
        } else {
            string_from_chars(piece.as_slice())
        };
        lines.push(line);
        i += 1;
    }
    lines
}


/// Whether `c` has the Unicode `White_Space` property, the test that
/// `char::is_whitespace` and `str::trim` use.
pub open spec fn is_white_space_spec(c: char) -> bool {
    let u = c as u32;
    ||| 0x9 <= u <= 0xd
    ||| u == 0x20
    ||| u == 0x85
    ||| u == 0xa0
    ||| u == 0x1680
    ||| 0x2000 <= u <= 0x200a
    ||| u == 0x2028
    ||| u == 0x2029
    ||| u == 0x202f
    ||| u == 0x205f
    ||| u == 0x3000
}

/// Whether `c` is white space in the sense of `char::is_whitespace`.
pub fn is_white_space(c: char) -> (b: bool)
    ensures
        b == is_white_space_spec(c),
{
    let u = c as u32;
    (0x9 <= u && u <= 0xd) || u == 0x20 || u == 0x85 || u == 0xa0 || u == 0x1680 || (0x2000
        <= u && u <= 0x200a) || u == 0x2028 || u == 0x2029 || u == 0x202f || u == 0x205f || u
        == 0x3000
}

/// `s` without its leading white space.
pub open spec fn trim_start_spec(s: Seq<char>) -> Seq<char>
    decreases s.len(),
{
    if s.len() > 0 && is_white_space_spec(s[0]) {
        trim_start_spec(s.drop_first())
    } else {
        s
    }
}

/// `s` without its trailing white space.
pub open spec fn trim_end_spec(s: Seq<char>) -> Seq<char>
    decreases s.len(),
{
    if s.len() > 0 && is_white_space_spec(s.last()) {
        trim_end_spec(s.drop_last())
    } else {
        s
    }
}

/// `s` without leading and trailing white space, as `str::trim` gives it.
pub open spec fn trim_spec(s: Seq<char>) -> Seq<char> {
    trim_end_spec(trim_start_spec(s))
}

/// Removes leading and trailing white space, as `str::trim`.
pub fn trim_chars(v: &[char]) -> (t: Vec<char>)
    ensures
        t@ == trim_spec(v@),
{
    let n = v.len();
    let mut lo: usize = 0;
    assert(v@.skip(0) =~= v@);
    while lo < n && is_white_space(v[lo])
        invariant
            lo <= n == v@.len(),
            trim_start_spec(v@) == trim_start_spec(v@.skip(lo as int)),
        decreases n - lo,
    {
        assert(v@.skip(lo as int).drop_first() =~= v@.skip(lo + 1));
        lo += 1;
    }
    let ghost t0 = v@.skip(lo as int);
    assert(trim_start_spec(t0) == t0);
    let mut hi: usize = n;
    while hi > lo && is_white_space(v[hi - 1])
        invariant
            lo <= hi <= n == v@.len(),
            t0 == v@.skip(lo as int),
            trim_end_spec(t0) == trim_end_spec(v@.subrange(lo as int, hi as int)),
        decreases hi - lo,
    {
        assert(v@.subrange(lo as int, hi as int).drop_last() =~= v@.subrange(
            lo as int,
            hi - 1,
        ));
        hi -= 1;
    }
    assert(v@.skip(lo as int) =~= v@.subrange(lo as int, n as int));
    let ghost r = v@.subrange(lo as int, hi as int);
    assert(trim_end_spec(r) == r);
    let mut t: Vec<char> = Vec::new();
    let mut i: usize = lo;
    while i < hi
        invariant
            lo <= i <= hi <= n == v@.len(),
            t@ == v@.subrange(lo as int, i as int),
        decreases hi - i,
    {
        t.push(v[i]);
        assert(v@.subrange(lo as int, i as int).push(v@[i as int]) =~= v@.subrange(
            lo as int,
            i + 1,
        ));
        i += 1;
    }
    t
}

/// Whether `p` occurs in `s` starting at index `i`.
pub open spec fn occurs_at(s: Seq<char>, p: Seq<char>, i: int) -> bool {
    0 <= i && i + p.len() <= s.len() && s.subrange(i, i + p.len()) == p
}

/// Whether `p` occurs anywhere in `s`, as `str::contains` tests it.
pub open spec fn contains_spec(s: Seq<char>, p: Seq<char>) -> bool {
    exists|i: int| occurs_at(s, p, i)
}

/// Whether `s` begins with `p`, as `str::starts_with` tests it.
pub open spec fn starts_with_spec(s: Seq<char>, p: Seq<char>) -> bool {
    occurs_at(s, p, 0)
}

/// Whether `p` matches `s` at index `i`.
fn matches_at(s: &[char], p: &[char], i: usize) -> (b: bool)
    requires
        i + p@.len() <= s@.len(),
    ensures
        b == occurs_at(s@, p@, i as int),
{
    let mut k: usize = 0;
    while k < p.len()
        invariant
            i + p.len() <= s.len(),
            k <= p@.len(),
            forall|j: int| 0 <= j < k ==> s@[i + j] == p@[j],
        decreases p.len() - k,
    {
        if s[i + k] != p[k] {
            assert(s@.subrange(i as int, i + p@.len())[k as int] != p@[k as int]);
            return false;
        }
        k += 1;
    }
    assert(s@.subrange(i as int, i + p@.len()) =~= p@);
    true
}

/// Whether `p` occurs in `s`, as `str::contains`.
pub fn contains_chars(s: &[char], p: &[char]) -> (b: bool)
    ensures
        b == contains_spec(s@, p@),
{
    if p.len() > s.len() {
        return false;
    }
    let last = s.len() - p.len();
    let mut i: usize = 0;
    while i < last
        invariant
            last + p@.len() == s@.len(),
            i <= last,
            forall|j: int| 0 <= j < i ==> !occurs_at(s@, p@, j),
        decreases last - i,
    {
        if matches_at(s, p, i) {
            return true;
        }
        i += 1;
    }
    matches_at(s, p, last)
}

/// Whether `s` begins with `p`, as `str::starts_with`.
pub fn starts_with_chars(s: &[char], p: &[char]) -> (b: bool)
    ensures
        b == starts_with_spec(s@, p@),
{
    if p.len() > s.len() {
        false
    } else {
        matches_at(s, p, 0)
    }
}

/// A character with ASCII upper-case letters made lower-case.
pub open spec fn ascii_lower(c: char) -> char {
    if 'A' <= c <= 'Z' {
        ((c as u32) + 32) as char
    } else {
        c
    }
}

/// Whether every character of a text is ASCII.
pub open spec fn is_ascii_text(s: Seq<char>) -> bool {
    forall|i: int| 0 <= i < s.len() ==> (#[trigger] s[i] as u32) < 128
}

/// What `str::to_lowercase` returns for a text: Unicode's default case
/// mapping, which depends on the text alone.
pub uninterp spec fn lowercase(s: Seq<char>) -> Seq<char>;

/// What `str::to_lowercase` makes of a text: for an ASCII text, the text
/// with each of `A`-`Z` made `a`-`z`; for any other, `lowercase` of it.
pub open spec fn lower_text(s: Seq<char>) -> Seq<char> {
    if is_ascii_text(s) {
        s.map_values(|c: char| ascii_lower(c))
    } else {
        lowercase(s)
    }
}

/// Lower-cases a text with `str::to_lowercase`. The contract claims that
/// the result is `lowercase` of the text, a function of the text alone;
/// that it is empty exactly when the text is, since Unicode maps every
/// character to at least one; and that an ASCII text has each of `A`-`Z`
/// made `a`-`z` and every other character kept. What it makes of other
/// characters is left unsaid.
#[verifier::external_body]
pub(crate) fn to_lowercase(s: &str) -> (r: String)
    ensures
        r@ == lowercase(s@),
        (r@.len() == 0) == (s@.len() == 0),
        is_ascii_text(s@) ==> r@ == s@.map_values(|c: char| ascii_lower(c)),
{
    s.to_lowercase()
}


/// Whether two texts are equal, character for character.
pub fn same_text(a: &str, b: &str) -> (r: bool)
    ensures
        r == (a@ == b@),
{
    let x = chars_of(a);
    let y = chars_of(b);
    if x.len() != y.len() {
        return false;
    }
    let mut i: usize = 0;
    while i < x.len()
        invariant
            x@ == a@,
            y@ == b@,
            x@.len() == y@.len(),
            i <= x@.len(),
            forall|j: int| 0 <= j < i ==> x@[j] == y@[j],
        decreases x.len() - i,
    {
        if x[i] != y[i] {
            return false;
        }
        i += 1;
    }
    assert(x@ =~= y@);
    true
}

/// Whether `s` begins with `p`, as `str::starts_with`.
pub fn starts_with(s: &str, p: &str) -> (b: bool)
    ensures
        b == starts_with_spec(s@, p@),
{
    let x = chars_of(s);
    let y = chars_of(p);
    starts_with_chars(&x, &y)
}

/// Whether `p` occurs in `s`, as `str::contains`.
pub fn contains(s: &str, p: &str) -> (b: bool)
    ensures
        b == contains_spec(s@, p@),
{
    let x = chars_of(s);
    let y = chars_of(p);
    contains_chars(&x, &y)
}

/// `s` without leading and trailing white space, as `str::trim`.
pub fn trim(s: &str) -> (t: String)
    ensures
        t@ == trim_spec(s@),
{
    let x = chars_of(s);
    let t = trim_chars(&x);
    string_from_chars(&t)
}


/// The pieces joined with `sep` between neighbours, as `[..].join(sep)`.
pub open spec fn join_spec(parts: Seq<Seq<char>>, sep: Seq<char>) -> Seq<char>
    decreases parts.len(),
{
    if parts.len() == 0 {
        Seq::<char>::empty()
    } else if parts.len() == 1 {
        parts[0]
    } else {
        join_spec(parts.drop_last(), sep) + sep + parts.last()
    }
}

/// The texts of a list of strings.
pub open spec fn texts(v: Seq<String>) -> Seq<Seq<char>> {
    v.map_values(|s: String| s@)
}

/// Joins the pieces with `sep` between neighbours, as `[..].join(sep)`.
pub fn join(parts: &[String], sep: &str) -> (r: String)
    ensures
        r@ == join_spec(texts(parts@), sep@),
{
    let mut r = String::new();
    let mut i: usize = 0;
    while i < parts.len()
        invariant
            i <= parts@.len(),
            r@ == join_spec(texts(parts@).take(i as int), sep@),
        decreases parts.len() - i,
    {
        assert(texts(parts@).take(i + 1).drop_last() =~= texts(parts@).take(i as int));
        if i == 0 {
            r = r.concat(parts[i].as_str());
            assert(r@ =~= join_spec(texts(parts@).take(1), sep@));
        } else {
            r = r.concat(sep).concat(parts[i].as_str());
        }
        i += 1;
    }
    assert(texts(parts@).take(parts@.len() as int) =~= texts(parts@));
    r
}


/// The text that `String::from_utf8_lossy` makes of a byte sequence: its
/// UTF-8 decoding, with each invalid sequence replaced by U+FFFD.
pub uninterp spec fn lossy_utf8(bytes: Seq<u8>) -> Seq<char>;

/// Decodes bytes with `String::from_utf8`; the contract claims that it
/// succeeds exactly on valid UTF-8 and then yields vstd's decoding of it.
#[verifier::external_body]
pub(crate) fn utf8_string(bytes: Vec<u8>) -> (r: Option<String>)
    ensures
        r is Some <==> vstd::utf8::valid_utf8(bytes@),
        r matches Some(s) ==> s@ == vstd::utf8::decode_utf8(bytes@),
{
    String::from_utf8(bytes).ok()
}

/// Decodes bytes with `String::from_utf8_lossy`; the contract claims that
/// the result is `lossy_utf8` of the bytes, and the plain decoding when the
/// bytes are valid UTF-8, as the function's documentation says.
#[verifier::external_body]
pub(crate) fn utf8_lossy(bytes: &[u8]) -> (r: String)
    ensures
        r@ == lossy_utf8(bytes@),
        vstd::utf8::valid_utf8(bytes@) ==> r@ == vstd::utf8::decode_utf8(bytes@),
{
    String::from_utf8_lossy(bytes).into_owned()
}

/// The piece of `pieces` at `i`, or `default` when there are fewer pieces.
pub open spec fn piece_or(pieces: Seq<Seq<char>>, i: int, default: Seq<char>) -> Seq<char> {
    if 0 <= i < pieces.len() {
        pieces[i]
    } else {
        default
    }
}

/// The pieces of `s` split at `sep`, as strings.
pub fn split(s: &str, sep: char) -> (parts: Vec<String>)
    ensures
        texts(parts@) == split_spec(s@, sep),
{
    let v = chars_of(s);
    let pieces = split_chars(&v, sep);
    let mut parts: Vec<String> = Vec::new();
    let mut i: usize = 0;
    while i < pieces.len()
        invariant
            i <= pieces@.len(),
            parts@.len() == i,
            pieces@.len() == split_spec(s@, sep).len(),
            v@ == s@,
            forall|k: int| 0 <= k < pieces@.len() ==> #[trigger] pieces@[k]@ == split_spec(v@, sep)[k],
            forall|k: int| 0 <= k < i ==> #[trigger] parts@[k]@ == split_spec(s@, sep)[k],
        decreases pieces.len() - i,
    {
        parts.push(string_from_chars(pieces[i].as_slice()));
        i += 1;
    }
    assert(texts(parts@) =~= split_spec(s@, sep));
    parts
}


/// The first piece of a split holds no separator and is followed by one
/// when there are more pieces; a split into one piece is the whole text.
pub proof fn lemma_split_first_piece(s: Seq<char>, sep: char)
    ensures
        split_spec(s, sep).len() >= 1,
        split_spec(s, sep)[0].len() <= s.len(),
        s.take(split_spec(s, sep)[0].len() as int) == split_spec(s, sep)[0],
        forall|k: int| 0 <= k < split_spec(s, sep)[0].len() ==> s[k] != sep,
        split_spec(s, sep).len() == 1 ==> split_spec(s, sep)[0] == s,
        split_spec(s, sep).len() >= 2 ==> split_spec(s, sep)[0].len() < s.len() && s[split_spec(
            s,
            sep,
        )[0].len() as int] == sep,
    decreases s.len(),
{
    lemma_split_nonempty(s, sep);
    if s.len() == 0 {
        assert(s.take(0) =~= s);
    } else {
        let t = s.drop_last();
        lemma_split_first_piece(t, sep);
        let p = split_spec(t, sep);
        let q = split_spec(s, sep);
        let c = s.last();
        assert(forall|k: int| 0 <= k < t.len() ==> s[k] == t[k]);
        if c == sep {
            assert(q == p.push(Seq::<char>::empty()));
            assert(q[0] == p[0]);
            assert(s.take(p[0].len() as int) =~= t.take(p[0].len() as int));
            if p.len() == 1 {
                assert(p[0] == t);
            }
        } else {
            if p.len() == 1 {
                assert(q[0] == p[0].push(c));
                assert(s =~= t.push(c));
                assert(q[0] == s);
                assert(s.take(s.len() as int) =~= s);
            } else {
                assert(q[0] == p[0]);
                assert(s.take(p[0].len() as int) =~= t.take(p[0].len() as int));
            }
        }
    }
}

/// Splits `s` at its first `sep`, as `str::split_once`: the text before it
/// and the text after it, or `None` when `s` holds no `sep`.
pub fn split_once(s: &str, sep: char) -> (r: Option<(String, String)>)
    ensures
        match r {
            Some((a, b)) => split_spec(s@, sep).len() >= 2 && a@ == split_spec(s@, sep)[0] && b@
                == s@.skip(split_spec(s@, sep)[0].len() + 1int),
            None => split_spec(s@, sep).len() == 1,
        },
{
    proof {
        lemma_split_first_piece(s@, sep);
    }
    let v = chars_of(s);
    let mut i: usize = 0;
    while i < v.len()
        invariant
            v@ == s@,
            i <= v@.len(),
            forall|k: int| 0 <= k < i ==> v@[k] != sep,
        decreases v.len() - i,
    {
        if v[i] == sep {
            proof {
                lemma_split_first_piece(s@, sep);
            }
            let ghost p0 = split_spec(s@, sep)[0];
            assert(split_spec(s@, sep).len() >= 2) by {
                if split_spec(s@, sep).len() == 1 {
                    assert(s@[i as int] != sep);
                }
            }
            assert(p0.len() == i) by {
                if p0.len() < i {
                    assert(v@[p0.len() as int] == sep);
                } else if p0.len() > i {
                    assert(s@[i as int] != sep);
                }
            }
            let a = string_from_chars(&v.as_slice()[0..i]);
            let b = string_from_chars(&v.as_slice()[i + 1..v.len()]);
            assert(v@.subrange(0, i as int) =~= s@.take(i as int));
            assert(v@.subrange(i + 1, v@.len() as int) =~= s@.skip(i + 1));
            return Some((a, b));
        }
        i += 1;
    }
    assert(split_spec(s@, sep).len() == 1) by {
        lemma_split_first_piece(s@, sep);
        if split_spec(s@, sep).len() >= 2 {
            let k = split_spec(s@, sep)[0].len() as int;
            assert(v@[k] == sep);
        }
    }
    None
}


/// Joining after adding a character to the last piece adds that character
/// to the end of the joined text.
proof fn lemma_join_extend_last(p: Seq<Seq<char>>, sep: Seq<char>, c: char)
    requires
        p.len() >= 1,
    ensures
        join_spec(p.update(p.len() - 1, p.last().push(c)), sep) == join_spec(p, sep).push(c),
{
    let q = p.update(p.len() - 1, p.last().push(c));
    if p.len() >= 2 {
        assert(q.drop_last() =~= p.drop_last());
    }
}

/// Joining the pieces of a split with the separator gives back the text.
pub proof fn lemma_split_join(s: Seq<char>, sep: char)
    ensures
        join_spec(split_spec(s, sep), seq![sep]) == s,
    decreases s.len(),
{
    if s.len() == 0 {
        assert(join_spec(split_spec(s, sep), seq![sep]) =~= s);
    } else {
        let t = s.drop_last();
        lemma_split_join(t, sep);
        lemma_split_nonempty(t, sep);
        let p = split_spec(t, sep);
        if s.last() == sep {
            let q = p.push(Seq::<char>::empty());
            assert(q.drop_last() =~= p);
            assert(join_spec(q, seq![sep]) =~= s);
        } else {
            lemma_join_extend_last(p, seq![sep], s.last());
            assert(t.push(s.last()) =~= s);
        }
    }
}


/// No piece of a split holds the separator.
pub proof fn lemma_split_pieces_lack_separator(s: Seq<char>, sep: char)
    ensures
        forall|i: int| 0 <= i < split_spec(s, sep).len() ==> !(#[trigger] split_spec(s, sep)[i]).contains(sep),
    decreases s.len(),
{
    lemma_split_nonempty(s, sep);
    if s.len() > 0 {
        let t = s.drop_last();
        lemma_split_pieces_lack_separator(t, sep);
        lemma_split_nonempty(t, sep);
        let p = split_spec(t, sep);
        let q = split_spec(s, sep);
        assert forall|i: int| 0 <= i < q.len() implies !(#[trigger] q[i]).contains(sep) by {
            if s.last() == sep {
                if i < p.len() {
                    assert(q[i] == p[i]);
                } else {
                    assert(q[i] =~= Seq::<char>::empty());
                }
            } else if i < p.len() - 1 {
                assert(q[i] == p[i]);
            } else {
                let last = p[p.len() - 1];
                assert(q[i] == last.push(s.last()));
                if q[i].contains(sep) {
                    let k = choose|k: int| 0 <= k < q[i].len() && q[i][k] == sep;
                    if k < last.len() {
                        assert(last[k] == sep);
                        assert(last.contains(sep));
                    }
                }
            }
        }
    }
}

/// No line of a text holds a newline.
pub proof fn lemma_lines_lack_newline(s: Seq<char>)
    ensures
        forall|i: int| 0 <= i < lines_spec(s).len() ==> !(#[trigger] lines_spec(s)[i]).contains('\n'),
{
    lemma_split_pieces_lack_separator(s, '\n');
    lemma_split_nonempty(s, '\n');
    let p = split_spec(s, '\n');
    assert forall|i: int| 0 <= i < lines_spec(s).len() implies !(#[trigger] lines_spec(s)[i]).contains('\n') by {
        let x = p[i];
        assert(!x.contains('\n'));
        if i < p.len() - 1 && x.len() > 0 && x.last() == '\r' {
            let y = x.drop_last();
            if y.contains('\n') {
                let k = choose|k: int| 0 <= k < y.len() && y[k] == '\n';
                assert(x[k] == '\n');
            }
        }
    }
}

} // verus!
