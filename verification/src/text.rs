//! Character-level text operations shared by the command parser and the
//! discovery resolver: whitespace tokenisation, ASCII case-insensitive
//! matching, and the lexicographic order used to rank API group names.
//!
//! Every specification here is stated over `Seq<char>`, the view of `str`
//! and `String`.

use vstd::prelude::*;
use vstd::string::*;
use vstd::utf8::*;

verus! {

/// The views of a sequence of strings, element by element.
pub open spec fn texts(v: Seq<String>) -> Seq<Seq<char>> {
    Seq::new(v.len(), |i: int| v[i]@)
}

/// The view of an optional string.
pub open spec fn opt_text(o: Option<String>) -> Option<Seq<char>> {
    match o {
        Some(s) => Some(s@),
        None => None,
    }
}

/// The view of an optional string slice.
pub open spec fn opt_str(o: Option<&str>) -> Option<Seq<char>> {
    match o {
        Some(s) => Some(s@),
        None => None,
    }
}

/// Whether `c` carries the Unicode `White_Space` property.
pub open spec fn is_whitespace(c: char) -> bool {
    let u = c as u32;
    (0x09 <= u && u <= 0x0D) || u == 0x20 || u == 0x85 || u == 0xA0 || u == 0x1680 || (0x2000 <= u
        && u <= 0x200A) || u == 0x2028 || u == 0x2029 || u == 0x202F || u == 0x205F || u == 0x3000
}

/// The word in progress, as a list of zero or one finished words.
pub open spec fn flush(word: Seq<char>) -> Seq<Seq<char>> {
    if word.len() > 0 {
        seq![word]
    } else {
        Seq::empty()
    }
}

/// The words found when scanning `s` from position `i` onwards, given that
/// `word` holds the characters of the word that is open at `i`.
pub open spec fn words_from(s: Seq<char>, i: int, word: Seq<char>) -> Seq<Seq<char>>
    decreases s.len() - i,
{
    if i < 0 || i >= s.len() {
        flush(word)
    } else if is_whitespace(s[i]) {
        flush(word) + words_from(s, i + 1, Seq::empty())
    } else {
        words_from(s, i + 1, word.push(s[i]))
    }
}

/// The maximal runs of non-whitespace characters of `s`, in order.
pub open spec fn words(s: Seq<char>) -> Seq<Seq<char>> {
    words_from(s, 0, Seq::empty())
}

/// Whether `w` is a word: not empty, and free of whitespace.
pub open spec fn is_word(w: Seq<char>) -> bool {
    &&& w.len() > 0
    &&& forall|k: int| 0 <= k < w.len() ==> !is_whitespace(#[trigger] w[k])
}

/// Every word found from position `i` on is a word, provided the word open
/// at `i` is free of whitespace.
pub proof fn lemma_words_from(s: Seq<char>, i: int, word: Seq<char>)
    requires
        0 <= i,
        forall|k: int| 0 <= k < word.len() ==> !is_whitespace(#[trigger] word[k]),
    ensures
        forall|w: int|
            0 <= w < words_from(s, i, word).len() ==> is_word(#[trigger] words_from(s, i, word)[w]),
    decreases s.len() - i,
{
    if i < s.len() {
        if is_whitespace(s[i]) {
            lemma_words_from(s, i + 1, Seq::empty());
            let head = flush(word);
            let tail = words_from(s, i + 1, Seq::empty());
            assert(words_from(s, i, word) == head + tail);
            assert forall|w: int| 0 <= w < (head + tail).len() implies is_word(
                #[trigger] (head + tail)[w],
            ) by {
                if w < head.len() {
                    assert((head + tail)[w] == word);
                } else {
                    assert((head + tail)[w] == tail[w - head.len()]);
                }
            }
        } else {
            let longer = word.push(s[i]);
            assert forall|k: int| 0 <= k < longer.len() implies !is_whitespace(
                #[trigger] longer[k],
            ) by {
                if k < word.len() {
                    assert(longer[k] == word[k]);
                }
            }
            lemma_words_from(s, i + 1, longer);
            assert(words_from(s, i, word) == words_from(s, i + 1, longer));
        }
    } else {
        assert forall|w: int| 0 <= w < flush(word).len() implies is_word(
            #[trigger] flush(word)[w],
        ) by {
            assert(flush(word)[w] == word);
        }
    }
}

/// Every word of a text is a word: the split never yields an empty word or
/// one with whitespace in it.
pub proof fn lemma_words(s: Seq<char>)
    ensures
        forall|w: int| 0 <= w < words(s).len() ==> is_word(#[trigger] words(s)[w]),
{
    lemma_words_from(s, 0, Seq::empty());
}

/// The decimal digit of value `d`.
pub open spec fn digit(d: int) -> char {
    "0123456789"@[d]
}

/// The decimal numeral of `n`, without leading zeros.
pub open spec fn decimal(n: nat) -> Seq<char>
    decreases n,
{
    if n < 10 {
        seq![digit(n as int)]
    } else {
        decimal(n / 10).push(digit((n % 10) as int))
    }
}

/// The lines joined by line feeds, with none after the last.
pub open spec fn joined(lines: Seq<Seq<char>>) -> Seq<char>
    decreases lines.len(),
{
    if lines.len() == 0 {
        Seq::empty()
    } else if lines.len() == 1 {
        lines[0]
    } else {
        joined(lines.drop_last()) + seq!['\n'] + lines.last()
    }
}

/// The code point of `c` with the ASCII capitals mapped onto the ASCII
/// small letters.
pub open spec fn fold_ascii(c: char) -> u32 {
    let u = c as u32;
    if 0x41 <= u && u <= 0x5A {
        (u + 0x20) as u32
    } else {
        u
    }
}

/// Equality of two texts up to the case of their ASCII letters.
pub open spec fn eq_ignore_ascii_case(a: Seq<char>, b: Seq<char>) -> bool {
    &&& a.len() == b.len()
    &&& forall|i: int| 0 <= i < a.len() ==> fold_ascii(#[trigger] a[i]) == fold_ascii(b[i])
}

/// Lexicographic comparison by code point of the parts of `a` and `b` from
/// position `i` onwards, given that they agree before `i`.
pub open spec fn lex_lt_from(a: Seq<char>, b: Seq<char>, i: int) -> bool
    decreases a.len() - i,
{
    if i < 0 || i >= b.len() {
        false
    } else if i >= a.len() {
        true
    } else if a[i] != b[i] {
        (a[i] as u32) < (b[i] as u32)
    } else {
        lex_lt_from(a, b, i + 1)
    }
}

/// Strict lexicographic order by code point. For UTF-8 strings this is the
/// order of their bytes, the order `str` itself has.
pub open spec fn lex_lt(a: Seq<char>, b: Seq<char>) -> bool {
    lex_lt_from(a, b, 0)
}

/// Where `a` and `b` agree before `i` and on to `j`, comparing from `i` is
/// comparing from `j`.
pub proof fn lemma_lex_lt_skip(a: Seq<char>, b: Seq<char>, i: int, j: int)
    requires
        0 <= i <= j,
        j <= a.len(),
        j <= b.len(),
        forall|k: int| i <= k < j ==> a[k] == b[k],
    ensures
        lex_lt_from(a, b, i) == lex_lt_from(a, b, j),
    decreases j - i,
{
    if i < j {
        lemma_lex_lt_skip(a, b, i + 1, j);
    }
}

/// No text sorts before itself.
pub proof fn lemma_lex_lt_irreflexive(a: Seq<char>)
    ensures
        !lex_lt(a, a),
{
    lemma_lex_lt_skip(a, a, 0, a.len() as int);
}

proof fn lemma_lex_lt_transitive_from(a: Seq<char>, b: Seq<char>, c: Seq<char>, i: int)
    requires
        0 <= i,
        lex_lt_from(a, b, i),
        lex_lt_from(b, c, i),
    ensures
        lex_lt_from(a, c, i),
    decreases b.len() - i,
{
    if i < a.len() && i < b.len() && i < c.len() && a[i] == b[i] && b[i] == c[i] {
        lemma_lex_lt_transitive_from(a, b, c, i + 1);
    }
}

/// The order is transitive.
pub proof fn lemma_lex_lt_transitive(a: Seq<char>, b: Seq<char>, c: Seq<char>)
    requires
        lex_lt(a, b),
        lex_lt(b, c),
    ensures
        lex_lt(a, c),
{
    lemma_lex_lt_transitive_from(a, b, c, 0);
}

proof fn lemma_lex_lt_total_from(a: Seq<char>, b: Seq<char>, i: int)
    requires
        0 <= i,
        i <= a.len(),
        i <= b.len(),
        a.take(i) == b.take(i),
        !lex_lt_from(a, b, i),
        !lex_lt_from(b, a, i),
    ensures
        a == b,
    decreases a.len() - i,
{
    if i < a.len() && i < b.len() {
        assert(a[i] == b[i]) by {
            char_u32_cast(a[i], a[i] as u32);
            char_u32_cast(b[i], b[i] as u32);
        }
        assert(a.take(i + 1) =~= a.take(i).push(a[i]));
        assert(b.take(i + 1) =~= b.take(i).push(b[i]));
        lemma_lex_lt_total_from(a, b, i + 1);
    } else {
        assert(a =~= a.take(i));
        assert(b =~= b.take(i));
    }
}

/// Two texts of which neither sorts before the other are the same text.
pub proof fn lemma_lex_lt_total(a: Seq<char>, b: Seq<char>)
    requires
        !lex_lt(a, b),
        !lex_lt(b, a),
    ensures
        a == b,
{
    assert(a.take(0) =~= b.take(0));
    lemma_lex_lt_total_from(a, b, 0);
}

/// A copy of an optional string.
pub fn clone_opt(o: &Option<String>) -> (copy: Option<String>)
    ensures
        opt_text(copy) == opt_text(*o),
{
    match o {
        Some(s) => Some(s.clone()),
        None => None,
    }
}

/// The characters of `s`, in order.
pub fn to_chars(s: &str) -> (v: Vec<char>)
    ensures
        v@ == s@,
{
    let mut v: Vec<char> = Vec::new();
    for c in it: s.chars()
        invariant
            it.seq() == s@,
            v@ == s@.take(it.index() as int),
    {
        assert(s@.take(it.index() + 1) == s@.take(it.index() as int).push(c));
        v.push(c);
    }
    v
}

/// Whether two string slices hold the same text.
pub fn str_eq(a: &str, b: &str) -> (same: bool)
    ensures
        same == (a@ == b@),
{
    let x = a.as_bytes();
    let y = b.as_bytes();
    let n: usize = x.len();
    let mut same: bool = n == y.len();
    let mut i: usize = 0;
    while same && i < n
        invariant
            i <= n,
            n == x@.len(),
            same ==> n == y@.len(),
            same ==> forall|k: int| 0 <= k < i ==> x@[k] == y@[k],
            !same ==> x@ != y@,
        decreases n - i,
    {
        if x[i] != y[i] {
            same = false;
        }
        i += 1;
    }
    proof {
        encode_utf8_decode_utf8(a@);
        encode_utf8_decode_utf8(b@);
        if same {
            assert(x@ =~= y@);
        }
    }
    same
}

/// Whether `c` carries the Unicode `White_Space` property.
pub fn char_is_whitespace(c: char) -> (b: bool)
    ensures
        b == is_whitespace(c),
{
    let u: u32 = c as u32;
    (0x09 <= u && u <= 0x0D) || u == 0x20 || u == 0x85 || u == 0xA0 || u == 0x1680 || (0x2000 <= u
        && u <= 0x200A) || u == 0x2028 || u == 0x2029 || u == 0x202F || u == 0x205F || u == 0x3000
}

/// Splits `line` into its whitespace-separated words. Quoting is not
/// interpreted: a quote is a character of the word it stands in.
pub fn split_whitespace(line: &str) -> (out: Vec<String>)
    ensures
        texts(out@) == words(line@),
{
    let chars = to_chars(line);
    let n: usize = chars.len();
    let mut out: Vec<String> = Vec::new();
    let mut start: usize = 0;
    let mut i: usize = 0;
    assert(line@.subrange(0, 0) =~= Seq::<char>::empty());
    assert(texts(out@) + words(line@) =~= words(line@));
    while i < n
        invariant
            chars@ == line@,
            n == chars.len(),
            start <= i <= n,
            texts(out@) + words_from(line@, i as int, line@.subrange(start as int, i as int))
                == words(line@),
        decreases n - i,
    {
        let ghost before = texts(out@);
        let ghost word = line@.subrange(start as int, i as int);
        if char_is_whitespace(chars[i]) {
            if start < i {
                out.push(line.substring_char(start, i).to_owned());
                assert(texts(out@) =~= before + flush(word));
            }
            start = i + 1;
            assert(line@.subrange(start as int, i + 1) =~= Seq::<char>::empty());
            assert(before + (flush(word) + words_from(line@, i + 1, Seq::empty())) =~= (before
                + flush(word)) + words_from(line@, i + 1, Seq::empty()));
        } else {
            assert(line@.subrange(start as int, i + 1) =~= word.push(line@[i as int]));
        }
        i += 1;
    }
    if start < n {
        let ghost before = texts(out@);
        out.push(line.substring_char(start, n).to_owned());
        assert(texts(out@) =~= before + flush(line@.subrange(start as int, n as int)));
    } else {
        assert(line@.subrange(start as int, n as int) =~= Seq::<char>::empty());
        assert(texts(out@) + Seq::<Seq<char>>::empty() =~= texts(out@));
    }
    out
}

/// The code point of `c` with the ASCII capitals mapped onto the ASCII
/// small letters.
pub fn char_fold_ascii(c: char) -> (u: u32)
    ensures
        u == fold_ascii(c),
{
    let u: u32 = c as u32;
    if 0x41 <= u && u <= 0x5A {
        u + 0x20
    } else {
        u
    }
}

/// Whether two character slices are equal up to the case of their ASCII
/// letters.
pub fn chars_eq_ignore_ascii_case(a: &[char], b: &[char]) -> (same: bool)
    ensures
        same == eq_ignore_ascii_case(a@, b@),
{
    let n: usize = a.len();
    if n != b.len() {
        return false;
    }
    let mut i: usize = 0;
    while i < n
        invariant
            i <= n,
            n == a@.len(),
            n == b@.len(),
            forall|k: int| 0 <= k < i ==> fold_ascii(#[trigger] a@[k]) == fold_ascii(b@[k]),
        decreases n - i,
    {
        if char_fold_ascii(a[i]) != char_fold_ascii(b[i]) {
            return false;
        }
        i += 1;
    }
    true
}

/// Whether `a` sorts strictly before `b`, character by character.
pub fn chars_lex_lt(a: &[char], b: &[char]) -> (before: bool)
    ensures
        before == lex_lt(a@, b@),
{
    let n: usize = a.len();
    let m: usize = b.len();
    let mut i: usize = 0;
    while i < n && i < m
        invariant
            i <= n,
            i <= m,
            n == a@.len(),
            m == b@.len(),
            lex_lt(a@, b@) == lex_lt_from(a@, b@, i as int),
        decreases n - i,
    {
        if a[i] != b[i] {
            return (a[i] as u32) < (b[i] as u32);
        }
        i += 1;
    }
    i < m
}

/// Whether two strings are equal up to the case of their ASCII letters.
pub fn str_eq_ignore_ascii_case(a: &str, b: &str) -> (same: bool)
    ensures
        same == eq_ignore_ascii_case(a@, b@),
{
    let x = to_chars(a);
    let y = to_chars(b);
    chars_eq_ignore_ascii_case(x.as_slice(), y.as_slice())
}

/// Whether `a` sorts strictly before `b`.
pub fn str_lex_lt(a: &str, b: &str) -> (before: bool)
    ensures
        before == lex_lt(a@, b@),
{
    let x = to_chars(a);
    let y = to_chars(b);
    chars_lex_lt(x.as_slice(), y.as_slice())
}

/// `before`, then `word`, then `after`.
pub fn enclose(before: &str, word: &str, after: &str) -> (out: String)
    ensures
        out@ == before@ + word@ + after@,
{
    let mut out = String::from_str(before);
    out.append(word);
    out.append(after);
    out
}

/// The decimal numeral of `n`.
pub fn decimal_text(n: u64) -> (out: String)
    ensures
        out@ == decimal(n as nat),
{
    let digits = "0123456789";
    proof {
        reveal_strlit("0123456789");
    }
    let last: usize = (n % 10) as usize;
    let mut out = digits.substring_char(last, last + 1).to_owned();
    let mut rest: u64 = n / 10;
    assert(out@ =~= seq![digit(last as int)]);
    while rest > 0
        invariant
            digits@ == "0123456789"@,
            digits@.len() == 10,
            rest > 0 ==> decimal(n as nat) == decimal(rest as nat) + out@,
            rest == 0 ==> decimal(n as nat) == out@,
        decreases rest,
    {
        let d: usize = (rest % 10) as usize;
        let ghost tail = out@;
        out = digits.substring_char(d, d + 1).to_owned().concat(out.as_str());
        assert(out@ =~= seq![digit(d as int)] + tail);
        assert(decimal(rest as nat) + tail =~= if rest < 10 {
            out@
        } else {
            decimal((rest / 10) as nat) + out@
        });
        rest = rest / 10;
    }
    out
}

/// Joins `lines` with line feeds.
pub fn join_lines(lines: &Vec<String>) -> (out: String)
    ensures
        out@ == joined(texts(lines@)),
{
    let mut out = String::new();
    let n: usize = lines.len();
    let mut i: usize = 0;
    while i < n
        invariant
            i <= n,
            n == lines@.len(),
            out@ == joined(texts(lines@).take(i as int)),
        decreases n - i,
    {
        let ghost sofar = texts(lines@).take(i as int);
        let ghost next = texts(lines@).take(i + 1);
        assert(next.drop_last() =~= sofar);
        assert(next.last() == lines@[i as int]@);
        if i > 0 {
            out.append("\n");
            proof {
                reveal_strlit("\n");
                assert("\n"@ =~= seq!['\n']);
            }
        } else {
            assert(out@ + lines@[i as int]@ =~= lines@[i as int]@);
        }
        out.append(lines[i].as_str());
        i += 1;
    }
    assert(texts(lines@).take(n as int) =~= texts(lines@));
    out
}

} // verus!
