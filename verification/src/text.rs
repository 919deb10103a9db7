//! Text helpers over the character sequences of strings.
use vstd::prelude::*;

verus! {

/// `needle` occurs in `hay` starting at position `i`.
pub open spec fn occurs_at(hay: Seq<char>, needle: Seq<char>, i: int) -> bool {
    0 <= i && i + needle.len() <= hay.len() && hay.subrange(i, i + needle.len()) == needle
}

/// `needle` occurs somewhere in `hay` (the empty needle occurs everywhere).
pub open spec fn contains_seq(hay: Seq<char>, needle: Seq<char>) -> bool {
    exists|i: int| occurs_at(hay, needle, i)
}

/// `s` starts with `prefix`.
pub open spec fn starts_with_seq(s: Seq<char>, prefix: Seq<char>) -> bool {
    prefix.len() <= s.len() && s.subrange(0, prefix.len() as int) == prefix
}

/// Copies the characters of a string slice into a vector.
pub fn chars_of(s: &str) -> (v: Vec<char>)
    ensures
        v@ == s@,
{
    let mut v: Vec<char> = Vec::new();
    for c in it: s.chars()
        invariant
            it.seq() == s@,
            v@ == it.seq().take(it.index() as int),
    {
        v.push(c);
    }
    v
}

/// Whether `needle` occurs in `hay` at position `i`, on character vectors.
fn matches_at(hay: &Vec<char>, needle: &Vec<char>, i: usize) -> (r: bool)
    requires
        i + needle.len() <= hay.len(),
    ensures
        r == occurs_at(hay@, needle@, i as int),
{
    let mut k: usize = 0;
    while k < needle.len()
        invariant
            i + needle.len() <= hay.len(),
            k <= needle@.len(),
            forall|m: int| 0 <= m < k ==> hay@[i + m] == needle@[m],
        decreases needle@.len() - k,
    {
        if hay[i + k] != needle[k] {
            proof {
                assert(hay@.subrange(i as int, i + needle@.len())[k as int] != needle@[k as int]);
            }
            return false;
        }
        k = k + 1;
    }
    proof {
        assert(hay@.subrange(i as int, i + needle@.len()) =~= needle@);
    }
    true
}

/// Whether `needle` occurs in `hay`, on character vectors.
pub fn vec_contains_seq(hay: &Vec<char>, needle: &Vec<char>) -> (r: bool)
    ensures
        r == contains_seq(hay@, needle@),
{
    if needle.len() > hay.len() {
        return false;
    }
    let last = hay.len() - needle.len();
    let mut i: usize = 0;
    while i <= last
        invariant
            last == hay@.len() - needle@.len(),
            needle@.len() <= hay@.len(),
            i <= last + 1,
            forall|j: int| 0 <= j < i ==> !occurs_at(hay@, needle@, j),
        decreases last + 1 - i,
    {
        if matches_at(hay, needle, i) {
            return true;
        }
        if i == last {
            return false;
        }
        i = i + 1;
    }
    false
}

/// Whether `needle` occurs in `hay`.
pub fn str_contains(hay: &str, needle: &str) -> (r: bool)
    ensures
        r == contains_seq(hay@, needle@),
{
    let h = chars_of(hay);
    let n = chars_of(needle);
    vec_contains_seq(&h, &n)
}

/// Whether `s` starts with `prefix`.
pub fn str_starts_with(s: &str, prefix: &str) -> (r: bool)
    ensures
        r == starts_with_seq(s@, prefix@),
{
    let h = chars_of(s);
    let p = chars_of(prefix);
    if p.len() > h.len() {
        return false;
    }
    let r = matches_at(&h, &p, 0);
    proof {
        assert(h@.subrange(0, p@.len() as int) == h@.subrange(0, 0 + p@.len() as int));
    }
    r
}

/// Whether two strings hold the same characters.
pub fn str_eq(a: &str, b: &str) -> (r: bool)
    ensures
        r == (a@ == b@),
{
    let x = chars_of(a);
    let y = chars_of(b);
    if x.len() != y.len() {
        return false;
    }
    let mut k: usize = 0;
    while k < x.len()
        invariant
            x@ == a@,
            y@ == b@,
            x@.len() == y@.len(),
            k <= x@.len(),
            forall|m: int| 0 <= m < k ==> x@[m] == y@[m],
        decreases x@.len() - k,
    {
        if x[k] != y[k] {
            return false;
        }
        k = k + 1;
    }
    proof {
        assert(x@ =~= y@);
    }
    true
}

/// Whether an optional string holds exactly the characters of `b`.
pub fn opt_str_eq(a: &Option<String>, b: &str) -> (r: bool)
    ensures
        r == (a is Some && a->0@ == b@),
{
    match a {
        Some(s) => str_eq(s.as_str(), b),
        None => false,
    }
}

/// Whether the list holds a string equal to `s`.
pub fn strings_contain(v: &Vec<String>, s: &str) -> (r: bool)
    ensures
        r == exists|i: int| 0 <= i < v@.len() && #[trigger] v@[i]@ == s@,
{
    let mut i: usize = 0;
    while i < v.len()
        invariant
            i <= v@.len(),
            forall|j: int| 0 <= j < i ==> #[trigger] v@[j]@ != s@,
        decreases v@.len() - i,
    {
        if str_eq(v[i].as_str(), s) {
            return true;
        }
        i = i + 1;
    }
    false
}

/// Appends one character to a string (`String::push`).
#[verifier::external_body]
pub(crate) fn push_char(s: &mut String, c: char)
    ensures
        final(s)@ == old(s)@.push(c),
{
    s.push(c);
}

/// A new string holding the given characters.
pub fn string_from_chars(v: &Vec<char>) -> (s: String)
    ensures
        s@ == v@,
{
    let mut s = String::new();
    let mut i: usize = 0;
    while i < v.len()
        invariant
            i <= v@.len(),
            s@ == v@.take(i as int),
        decreases v@.len() - i,
    {
        push_char(&mut s, v[i]);
        proof {
            assert(v@.take(i + 1) =~= v@.take(i as int).push(v@[i as int]));
        }
        i = i + 1;
    }
    proof {
        assert(v@.take(v@.len() as int) =~= v@);
    }
    s
}

/// A new string holding the characters of `s`.
pub fn string_of(s: &str) -> (r: String)
    ensures
        r@ == s@,
{
    let v = chars_of(s);
    string_from_chars(&v)
}

/// Appends the characters of `t` to `s`.
pub fn append_str(s: &mut String, t: &str)
    ensures
        final(s)@ == old(s)@ + t@,
{
    let v = chars_of(t);
    let ghost start = s@;
    let mut i: usize = 0;
    while i < v.len()
        invariant
            i <= v@.len(),
            v@ == t@,
            s@ == start + v@.take(i as int),
        decreases v@.len() - i,
    {
        push_char(s, v[i]);
        proof {
            assert(v@.take(i + 1) =~= v@.take(i as int).push(v@[i as int]));
        }
        i = i + 1;
    }
    proof {
        assert(v@.take(v@.len() as int) =~= v@);
    }
}

/// The decimal digit for `d` (0 to 9).
pub open spec fn digit_char(d: nat) -> char {
    if d == 0 {
        '0'
    } else if d == 1 {
        '1'
    } else if d == 2 {
        '2'
    } else if d == 3 {
        '3'
    } else if d == 4 {
        '4'
    } else if d == 5 {
        '5'
    } else if d == 6 {
        '6'
    } else if d == 7 {
        '7'
    } else if d == 8 {
        '8'
    } else {
        '9'
    }
}

/// The decimal representation of `n`, without leading zeros.
pub open spec fn decimal(n: nat) -> Seq<char>
    decreases n,
{
    if n < 10 {
        seq![digit_char(n)]
    } else {
        decimal(n / 10).push(digit_char(n % 10))
    }
}

fn digit_of(d: u64) -> (c: char)
    requires
        d < 10,
    ensures
        c == digit_char(d as nat),
{
    if d == 0 {
        '0'
    } else if d == 1 {
        '1'
    } else if d == 2 {
        '2'
    } else if d == 3 {
        '3'
    } else if d == 4 {
        '4'
    } else if d == 5 {
        '5'
    } else if d == 6 {
        '6'
    } else if d == 7 {
        '7'
    } else if d == 8 {
        '8'
    } else {
        '9'
    }
}

/// Appends the decimal representation of `n`.
pub fn push_decimal(s: &mut String, n: u64)
    ensures
        final(s)@ == old(s)@ + decimal(n as nat),
    decreases n,
{
    if n >= 10 {
        push_decimal(s, n / 10);
    }
    let c = digit_of(n % 10);
    push_char(s, c);
    proof {
        if n >= 10 {
            assert(decimal(n as nat) == decimal((n / 10) as nat).push(digit_char((n % 10) as nat)));
        } else {
            assert(decimal(n as nat) == seq![digit_char(n as nat)]);
        }
        assert(s@ =~= old(s)@ + decimal(n as nat));
    }
}

/// ASCII lower-casing of one character (other characters are kept).
pub open spec fn ascii_lower(c: char) -> char {
    if 'A' <= c && c <= 'Z' {
        ((c as u32) + 32) as char
    } else {
        c
    }
}

/// Equality of two strings up to ASCII case.
pub open spec fn eq_ignore_ascii_case_spec(a: Seq<char>, b: Seq<char>) -> bool {
    a.len() == b.len() && forall|i: int| 0 <= i < a.len() ==> ascii_lower(#[trigger] a[i]) == ascii_lower(b[i])
}

fn ascii_lower_exec(c: char) -> (r: char)
    ensures
        r == ascii_lower(c),
{
    if 'A' <= c && c <= 'Z' {
        let code: u8 = ((c as u32) + 32) as u8;
        code as char
    } else {
        c
    }
}

/// Whether two strings are equal up to ASCII case (`str::eq_ignore_ascii_case`).
pub fn eq_ignore_ascii_case(a: &str, b: &str) -> (r: bool)
    ensures
        r == eq_ignore_ascii_case_spec(a@, b@),
{
    let x = chars_of(a);
    let y = chars_of(b);
    if x.len() != y.len() {
        return false;
    }
    let mut k: usize = 0;
    while k < x.len()
        invariant
            x@ == a@,
            y@ == b@,
            x@.len() == y@.len(),
            k <= x@.len(),
            forall|m: int| 0 <= m < k ==> ascii_lower(#[trigger] x@[m]) == ascii_lower(y@[m]),
        decreases x@.len() - k,
    {
        if ascii_lower_exec(x[k]) != ascii_lower_exec(y[k]) {
            return false;
        }
        k = k + 1;
    }
    true
}

/// ASCII lower-casing of a whole string.
pub open spec fn ascii_lower_seq(s: Seq<char>) -> Seq<char> {
    s.map_values(|c: char| ascii_lower(c))
}

/// The string with ASCII letters lower-cased (`str::to_ascii_lowercase`).
pub fn to_ascii_lowercase(s: &str) -> (r: String)
    ensures
        r@ == ascii_lower_seq(s@),
{
    let v = chars_of(s);
    let mut out: Vec<char> = Vec::new();
    let mut i: usize = 0;
    while i < v.len()
        invariant
            i <= v@.len(),
            v@ == s@,
            out@ == ascii_lower_seq(s@).take(i as int),
        decreases v@.len() - i,
    {
        let c = ascii_lower_exec(v[i]);
        out.push(c);
        proof {
            assert(ascii_lower_seq(s@).take(i + 1) =~= ascii_lower_seq(s@).take(i as int).push(c));
        }
        i = i + 1;
    }
    proof {
        assert(ascii_lower_seq(s@).take(v@.len() as int) =~= ascii_lower_seq(s@));
    }
    string_from_chars(&out)
}

/// Unicode White_Space, the characters `char::is_whitespace` accepts.
pub open spec fn is_white(c: char) -> bool {
    let u = c as u32;
    (0x9 <= u <= 0xD) || u == 0x20 || u == 0x85 || u == 0xA0 || u == 0x1680 || (0x2000 <= u <= 0x200A)
        || u == 0x2028 || u == 0x2029 || u == 0x202F || u == 0x205F || u == 0x3000
}

fn is_white_exec(c: char) -> (r: bool)
    ensures
        r == is_white(c),
{
    let u = c as u32;
    (0x9 <= u && u <= 0xD) || u == 0x20 || u == 0x85 || u == 0xA0 || u == 0x1680 || (0x2000 <= u && u <= 0x200A)
        || u == 0x2028 || u == 0x2029 || u == 0x202F || u == 0x205F || u == 0x3000
}

/// `s` without leading and trailing white space (`str::trim`): the part from the first
/// to the last character that is not white space.
#[verifier::opaque]
pub open spec fn trimmed(s: Seq<char>) -> Seq<char> {
    if exists|i: int| 0 <= i < s.len() && !is_white(#[trigger] s[i]) {
        let a = choose|a: int| 0 <= a < s.len() && !is_white(s[a]) && forall|k: int| 0 <= k < a ==> is_white(#[trigger] s[k]);
        let b = choose|b: int| 0 <= b < s.len() && !is_white(s[b]) && forall|k: int| b < k < s.len() ==> is_white(#[trigger] s[k]);
        s.subrange(a, b + 1)
    } else {
        Seq::empty()
    }
}

/// The string without leading and trailing white space.
pub fn trim(s: &str) -> (r: String)
    ensures
        r@ == trimmed(s@),
        utf8_len(r@) <= utf8_len(s@),
{
    reveal(trimmed);
    let v = chars_of(s);
    let n = v.len();
    let mut a: usize = 0;
    while a < n && is_white_exec(v[a])
        invariant
            a <= n,
            n == v@.len(),
            v@ == s@,
            forall|k: int| 0 <= k < a ==> is_white(#[trigger] v@[k]),
        decreases n - a,
    {
        a = a + 1;
    }
    if a == n {
        proof {
            if exists|i: int| 0 <= i < s@.len() && !is_white(#[trigger] s@[i]) {
                let i = choose|i: int| 0 <= i < s@.len() && !is_white(#[trigger] s@[i]);
                assert(is_white(v@[i]));
            }
        }
        return String::new();
    }
    let mut b: usize = n - 1;
    while is_white_exec(v[b])
        invariant
            a <= b < n,
            n == v@.len(),
            v@ == s@,
            !is_white(v@[a as int]),
            forall|k: int| b < k < n ==> is_white(#[trigger] v@[k]),
        decreases b,
    {
        b = b - 1;
    }
    let mut out: Vec<char> = Vec::new();
    let mut i: usize = a;
    while i <= b
        invariant
            a <= i <= b + 1,
            b < n,
            n == v@.len(),
            out@ == v@.subrange(a as int, i as int),
        decreases b + 1 - i,
    {
        out.push(v[i]);
        proof {
            assert(v@.subrange(a as int, i + 1) =~= v@.subrange(a as int, i as int).push(v@[i as int]));
        }
        i = i + 1;
    }
    proof {
        assert(!is_white(s@[a as int]));
        let ca = choose|x: int| 0 <= x < s@.len() && !is_white(s@[x]) && forall|k: int| 0 <= k < x ==> is_white(#[trigger] s@[k]);
        let cb = choose|x: int| 0 <= x < s@.len() && !is_white(s@[x]) && forall|k: int| x < k < s@.len() ==> is_white(#[trigger] s@[k]);
        assert(forall|k: int| 0 <= k < a ==> is_white(#[trigger] s@[k]));
        assert(forall|k: int| b < k < s@.len() ==> is_white(#[trigger] s@[k]));
        if ca < a {
            assert(is_white(s@[ca]));
        } else if ca > a {
            assert(is_white(s@[a as int]));
        }
        if cb < b {
            assert(is_white(s@[b as int]));
        } else if cb > b {
            assert(is_white(s@[cb]));
        }
        lemma_utf8_len_subrange(s@, a as int, b + 1);
    }
    string_from_chars(&out)
}

/// Bytes of a character in UTF-8.
pub open spec fn utf8_width(c: char) -> nat {
    let u = c as u32;
    if u < 0x80 {
        1
    } else if u < 0x800 {
        2
    } else if u < 0x10000 {
        3
    } else {
        4
    }
}

/// Bytes of a string in UTF-8 (`str::len`).
pub open spec fn utf8_len(s: Seq<char>) -> nat
    decreases s.len(),
{
    if s.len() == 0 {
        0
    } else {
        utf8_len(s.drop_last()) + utf8_width(s.last())
    }
}

/// The UTF-8 length of a concatenation is the sum of the lengths.
pub proof fn lemma_utf8_len_concat(a: Seq<char>, b: Seq<char>)
    ensures
        utf8_len(a + b) == utf8_len(a) + utf8_len(b),
    decreases b.len(),
{
    if b.len() == 0 {
        assert(a + b =~= a);
    } else {
        lemma_utf8_len_concat(a, b.drop_last());
        assert((a + b).drop_last() =~= a + b.drop_last());
        assert((a + b).last() == b.last());
    }
}

/// A part of a string is no longer in UTF-8 than the string.
pub proof fn lemma_utf8_len_subrange(s: Seq<char>, i: int, j: int)
    requires
        0 <= i <= j <= s.len(),
    ensures
        utf8_len(s.subrange(i, j)) <= utf8_len(s),
{
    lemma_utf8_len_concat(s.subrange(0, i), s.subrange(i, j));
    lemma_utf8_len_concat(s.subrange(0, i) + s.subrange(i, j), s.subrange(j, s.len() as int));
    assert(s.subrange(0, i) + s.subrange(i, j) + s.subrange(j, s.len() as int) =~= s);
}

/// Length in bytes of the UTF-8 encoding.
pub fn byte_len(s: &str) -> (n: u128)
    ensures
        n == utf8_len(s@),
{
    let v = chars_of(s);
    let mut n: u128 = 0;
    let mut i: usize = 0;
    while i < v.len()
        invariant
            i <= v@.len(),
            v@ == s@,
            n == utf8_len(s@.take(i as int)),
            n <= 4 * i,
        decreases v@.len() - i,
    {
        proof {
            assert(s@.take(i + 1).drop_last() =~= s@.take(i as int));
        }
        let u = v[i] as u32;
        let w: u128 = if u < 0x80 {
            1
        } else if u < 0x800 {
            2
        } else if u < 0x10000 {
            3
        } else {
            4
        };
        n = n + w;
        i = i + 1;
    }
    proof {
        assert(s@.take(s@.len() as int) =~= s@);
    }
    n
}

/// The lower-case form of a string under Unicode case mapping (`str::to_lowercase`).
pub uninterp spec fn lowercase(s: Seq<char>) -> Seq<char>;

/// Lower-cases a string with `str::to_lowercase`; the result is named `lowercase`.
#[verifier::external_body]
pub(crate) fn to_lowercase(s: &str) -> (r: String)
    ensures
        r@ == lowercase(s@),
{
    s.to_lowercase()
}

/// The pieces of `s` between occurrences of `sep` (at least one, possibly empty).
pub open spec fn split_on(s: Seq<char>, sep: char) -> Seq<Seq<char>>
    decreases s.len(),
{
    if s.len() == 0 {
        seq![Seq::empty()]
    } else {
        let p = split_on(s.drop_last(), sep);
        if s.last() == sep {
            p.push(Seq::empty())
        } else {
            p.update(p.len() - 1, p.last().push(s.last()))
        }
    }
}

proof fn lemma_split_on_nonempty(s: Seq<char>, sep: char)
    ensures
        split_on(s, sep).len() >= 1,
    decreases s.len(),
{
    if s.len() > 0 {
        lemma_split_on_nonempty(s.drop_last(), sep);
    }
}

/// A line without its trailing carriage return.
pub open spec fn strip_cr(l: Seq<char>) -> Seq<char> {
    if l.len() > 0 && l.last() == '\r' {
        l.drop_last()
    } else {
        l
    }
}

/// The lines of `s` as `str::lines` gives them: split at line feeds, a final line
/// feed ends the last line, and a carriage return right before a line feed is
/// dropped with it.
pub open spec fn lines_of(s: Seq<char>) -> Seq<Seq<char>> {
    let p = split_on(s, '\n');
    let ended = p.drop_last().map_values(|l: Seq<char>| strip_cr(l));
    if p.last().len() == 0 {
        ended
    } else {
        ended.push(p.last())
    }
}

/// The lines of a string (`str::lines`).
pub fn lines(s: &str) -> (r: Vec<String>)
    ensures
        r@.map_values(|l: String| l@) == lines_of(s@),
{
    let v = chars_of(s);
    let mut pieces: Vec<Vec<char>> = Vec::new();
    let mut cur: Vec<char> = Vec::new();
    let mut i: usize = 0;
    proof {
        assert(s@.take(0) =~= Seq::<char>::empty());
    }
    while i < v.len()
        invariant
            i <= v@.len(),
            v@ == s@,
            pieces@.map_values(|p: Vec<char>| p@).push(cur@) == split_on(s@.take(i as int), '\n'),
        decreases v@.len() - i,
    {
        let ghost before = split_on(s@.take(i as int), '\n');
        proof {
            assert(s@.take(i + 1).drop_last() =~= s@.take(i as int));
            assert(s@.take(i + 1).last() == v@[i as int]);
            lemma_split_on_nonempty(s@.take(i as int), '\n');
        }
        if v[i] == '\n' {
            let done = cur;
            pieces.push(done);
            cur = Vec::new();
            proof {
                assert(pieces@.map_values(|p: Vec<char>| p@).push(cur@) =~= before.push(Seq::empty()));
            }
        } else {
            cur.push(v[i]);
            proof {
                assert(pieces@.map_values(|p: Vec<char>| p@).push(cur@) =~= before.update(
                    before.len() - 1,
                    before.last().push(v@[i as int]),
                ));
            }
        }
        i = i + 1;
    }
    proof {
        assert(s@.take(v@.len() as int) =~= s@);
    }
    let ghost p = split_on(s@, '\n');
    let ghost q = p.drop_last();
    proof {
        assert(pieces@.map_values(|x: Vec<char>| x@) =~= q);
        assert(cur@ == p.last());
    }
    let mut out: Vec<String> = Vec::new();
    let mut k: usize = 0;
    while k < pieces.len()
        invariant
            k <= pieces@.len(),
            pieces@.map_values(|x: Vec<char>| x@) == q,
            out@.map_values(|l: String| l@) == q.take(k as int).map_values(|l: Seq<char>| strip_cr(l)),
            out@.len() == k,
        decreases pieces@.len() - k,
    {
        let piece = &pieces[k];
        let n = piece.len();
        let mut line: Vec<char> = Vec::new();
        let keep = if n > 0 && piece[n - 1] == '\r' { n - 1 } else { n };
        let mut j: usize = 0;
        while j < keep
            invariant
                j <= keep <= n,
                n == piece@.len(),
                line@ == piece@.take(j as int),
            decreases keep - j,
        {
            line.push(piece[j]);
            proof {
                assert(piece@.take(j + 1) =~= piece@.take(j as int).push(piece@[j as int]));
            }
            j = j + 1;
        }
        proof {
            assert(q[k as int] == piece@);
            assert(line@ =~= strip_cr(piece@));
        }
        let ls = string_from_chars(&line);
        let ghost before = out@;
        let ghost lv = ls@;
        out.push(ls);
        proof {
            assert(lv == strip_cr(q[k as int]));
            assert(out@ == before.push(out@[k as int]));
            assert(out@[k as int]@ == lv);
            assert(q.take(k + 1).map_values(|l: Seq<char>| strip_cr(l)) =~= q.take(k as int).map_values(
                |l: Seq<char>| strip_cr(l),
            ).push(lv));
            assert(out@.map_values(|l: String| l@) =~= before.map_values(|l: String| l@).push(lv));
        }
        k = k + 1;
    }
    proof {
        assert(q.take(pieces@.len() as int) =~= q);
    }
    if cur.len() > 0 {
        let last = string_from_chars(&cur);
        let ghost before = out@;
        out.push(last);
        proof {
            assert(out@ == before.push(out@[before.len() as int]));
            assert(out@.map_values(|l: String| l@) =~= before.map_values(|l: String| l@).push(cur@));
        }
    }
    out
}

/// The words of `s`: the maximal runs of characters that are not white space, in
/// order (`str::split_whitespace`).
pub open spec fn words_of(s: Seq<char>) -> Seq<Seq<char>>
    decreases s.len(),
{
    if s.len() == 0 {
        Seq::empty()
    } else {
        let w = words_of(s.drop_last());
        let c = s.last();
        if is_white(c) {
            w
        } else if s.len() > 1 && !is_white(s[s.len() - 2]) {
            w.update(w.len() - 1, w.last().push(c))
        } else {
            w.push(seq![c])
        }
    }
}

proof fn lemma_words_nonempty(s: Seq<char>)
    requires
        s.len() > 0,
        !is_white(s.last()),
    ensures
        words_of(s).len() >= 1,
    decreases s.len(),
{
    if s.len() > 1 && !is_white(s[s.len() - 2]) {
        assert(s.drop_last().last() == s[s.len() - 2]);
        lemma_words_nonempty(s.drop_last());
    }
}

/// The words of a string (`str::split_whitespace`).
pub fn split_whitespace(s: &str) -> (r: Vec<String>)
    ensures
        r@.map_values(|w: String| w@) == words_of(s@),
{
    let v = chars_of(s);
    let mut words: Vec<Vec<char>> = Vec::new();
    let mut i: usize = 0;
    while i < v.len()
        invariant
            i <= v@.len(),
            v@ == s@,
            words@.map_values(|w: Vec<char>| w@) == words_of(s@.take(i as int)),
        decreases v@.len() - i,
    {
        let ghost pre = s@.take(i as int);
        let ghost before = words_of(pre);
        proof {
            assert(s@.take(i + 1).drop_last() =~= pre);
            assert(s@.take(i + 1).last() == v@[i as int]);
        }
        let c = v[i];
        if is_white_exec(c) {
        } else if i > 0 && !is_white_exec(v[i - 1]) {
            proof {
                assert(pre.last() == v@[i - 1]);
                lemma_words_nonempty(pre);
                assert(s@.take(i + 1)[i - 1] == v@[i - 1]);
            }
            let last = words.len() - 1;
            let mut w = words.remove(last);
            w.push(c);
            words.push(w);
            proof {
                assert(words@.map_values(|w: Vec<char>| w@) =~= before.update(before.len() - 1, before.last().push(c)));
            }
        } else {
            let mut w: Vec<char> = Vec::new();
            w.push(c);
            words.push(w);
            proof {
                if i > 0 {
                    assert(s@.take(i + 1)[i - 1] == v@[i - 1]);
                }
                assert(words@.map_values(|w: Vec<char>| w@) =~= before.push(seq![c]));
            }
        }
        i = i + 1;
    }
    proof {
        assert(s@.take(v@.len() as int) =~= s@);
    }
    let mut out: Vec<String> = Vec::new();
    let mut k: usize = 0;
    while k < words.len()
        invariant
            k <= words@.len(),
            words@.map_values(|w: Vec<char>| w@) == words_of(s@),
            out@.map_values(|w: String| w@) == words_of(s@).take(k as int),
            out@.len() == k,
        decreases words@.len() - k,
    {
        let ws = string_from_chars(&words[k]);
        let ghost before = out@;
        let ghost wv = ws@;
        out.push(ws);
        proof {
            assert(words@.map_values(|w: Vec<char>| w@)[k as int] == words@[k as int]@);
            assert(wv == words_of(s@)[k as int]);
            assert(out@[k as int]@ == wv);
            assert(words_of(s@).take(k + 1) =~= words_of(s@).take(k as int).push(wv));
            assert(out@.map_values(|w: String| w@) =~= before.map_values(|w: String| w@).push(wv));
        }
        k = k + 1;
    }
    proof {
        assert(words_of(s@).take(words@.len() as int) =~= words_of(s@));
    }
    out
}

/// `i` is the first position of `c` in `s`.
pub open spec fn first_at(s: Seq<char>, c: char, i: int) -> bool {
    0 <= i < s.len() && s[i] == c && forall|k: int| 0 <= k < i ==> s[k] != c
}

/// The first position of `c` in `s`, or -1 where `s` holds none.
pub open spec fn index_of(s: Seq<char>, c: char) -> int {
    if exists|i: int| first_at(s, c, i) {
        choose|i: int| first_at(s, c, i)
    } else {
        -1
    }
}

/// The first position, if any, is the one `index_of` gives.
pub proof fn lemma_index_of(s: Seq<char>, c: char, i: int)
    requires
        first_at(s, c, i),
    ensures
        index_of(s, c) == i,
{
    let j = choose|j: int| first_at(s, c, j);
    assert(first_at(s, c, j));
    if j < i {
        assert(s[j] != c);
    } else if i < j {
        assert(s[i] != c);
    }
}

/// Without `c` in `s`, `index_of` gives -1.
pub proof fn lemma_index_of_none(s: Seq<char>, c: char)
    requires
        forall|k: int| 0 <= k < s.len() ==> s[k] != c,
    ensures
        index_of(s, c) == -1,
{
    if exists|i: int| first_at(s, c, i) {
        let i = choose|i: int| first_at(s, c, i);
        assert(s[i] == c);
    }
}

/// The first position of `c` in `v` at or after `from`, counted from `from`.
pub fn char_index_from(v: &Vec<char>, from: usize, c: char) -> (r: Option<usize>)
    requires
        from <= v@.len(),
    ensures
        match r {
            Some(k) => k as int == index_of(v@.subrange(from as int, v@.len() as int), c) && from + k < v@.len(),
            None => index_of(v@.subrange(from as int, v@.len() as int), c) == -1,
        },
{
    let ghost rest = v@.subrange(from as int, v@.len() as int);
    let mut i: usize = from;
    while i < v.len()
        invariant
            from <= i <= v@.len(),
            rest == v@.subrange(from as int, v@.len() as int),
            forall|k: int| 0 <= k < i - from ==> rest[k] != c,
        decreases v@.len() - i,
    {
        if v[i] == c {
            proof {
                lemma_index_of(rest, c, i - from);
            }
            return Some(i - from);
        }
        i = i + 1;
    }
    proof {
        lemma_index_of_none(rest, c);
    }
    None
}

/// The text between the first two double quotes of `s`, if it has two.
pub open spec fn quoted_part(s: Seq<char>) -> Option<Seq<char>> {
    let i = index_of(s, '"');
    if i < 0 {
        None
    } else {
        let rest = s.subrange(i + 1, s.len() as int);
        let j = index_of(rest, '"');
        if j < 0 {
            None
        } else {
            Some(rest.subrange(0, j))
        }
    }
}

/// The characters `v[from..to]` as a string.
pub fn string_from_range(v: &Vec<char>, from: usize, to: usize) -> (s: String)
    requires
        from <= to <= v@.len(),
    ensures
        s@ == v@.subrange(from as int, to as int),
{
    let mut part: Vec<char> = Vec::new();
    let mut i: usize = from;
    while i < to
        invariant
            from <= i <= to <= v@.len(),
            part@ == v@.subrange(from as int, i as int),
        decreases to - i,
    {
        part.push(v[i]);
        proof {
            assert(v@.subrange(from as int, i + 1) =~= v@.subrange(from as int, i as int).push(v@[i as int]));
        }
        i = i + 1;
    }
    string_from_chars(&part)
}

/// The text between the first two double quotes of a line.
pub fn quoted_value(line: &str) -> (r: Option<String>)
    ensures
        match r {
            Some(v) => quoted_part(line@) == Some(v@),
            None => quoted_part(line@) is None,
        },
{
    let v = chars_of(line);
    let n = v.len();
    proof {
        assert(v@.subrange(0, v@.len() as int) =~= v@);
    }
    match char_index_from(&v, 0, '"') {
        None => None,
        Some(i) => {
            let ghost rest = v@.subrange(i + 1, v@.len() as int);
            match char_index_from(&v, i + 1, '"') {
                None => None,
                Some(j) => {
                    proof {
                        assert(rest.subrange(0, j as int) =~= v@.subrange(i + 1, i + 1 + j));
                    }
                    Some(string_from_range(&v, i + 1, i + 1 + j))
                },
            }
        },
    }
}

/// The characters of each string.
pub open spec fn strings_view(v: Seq<String>) -> Seq<Seq<char>> {
    v.map_values(|s: String| s@)
}

/// The strings, owned.
pub fn strings_of(items: &[&str]) -> (v: Vec<String>)
    ensures
        strings_view(v@) == items@.map_values(|s: &str| s@),
{
    let mut v: Vec<String> = Vec::new();
    let mut i: usize = 0;
    while i < items.len()
        invariant
            i <= items@.len(),
            v@.len() == i,
            strings_view(v@) == items@.take(i as int).map_values(|s: &str| s@),
        decreases items@.len() - i,
    {
        let ghost before = v@;
        let item = string_of(items[i]);
        v.push(item);
        proof {
            assert(v@ == before.push(item));
            assert forall|k: int| 0 <= k < i + 1 implies #[trigger] strings_view(v@)[k]
                == items@.take(i + 1).map_values(|s: &str| s@)[k] by {
                if k < i {
                    assert(strings_view(v@)[k] == v@[k]@);
                    assert(v@[k] == before[k]);
                    assert(strings_view(before)[k] == before[k]@);
                } else {
                    assert(v@[k] == item);
                }
            }
            assert(strings_view(v@) =~= items@.take(i + 1).map_values(|s: &str| s@));
        }
        i = i + 1;
    }
    proof {
        assert(items@.take(items@.len() as int) =~= items@);
    }
    v
}

} // verus!
