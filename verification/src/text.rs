//! Text as sequences of characters: trimming, splitting, replacing, comparing.

use vstd::prelude::*;
use vstd::string::*;
use vstd::utf8::*;

verus! {

/// The characters with the Unicode property `White_Space`.
pub open spec fn unicode_whitespace(c: char) -> bool {
    ||| '\u{9}' <= c && c <= '\u{D}'
    ||| c == '\u{20}'
    ||| c == '\u{85}'
    ||| c == '\u{A0}'
    ||| c == '\u{1680}'
    ||| '\u{2000}' <= c && c <= '\u{200A}'
    ||| c == '\u{2028}'
    ||| c == '\u{2029}'
    ||| c == '\u{202F}'
    ||| c == '\u{205F}'
    ||| c == '\u{3000}'
}

/// `char::is_whitespace`: whether the character has the Unicode property
/// `White_Space`.
pub assume_specification[ char::is_whitespace ](c: char) -> (b: bool)
    ensures
        b == unicode_whitespace(c),
;

/// A character of ASCII.
pub open spec fn ascii(c: char) -> bool {
    c as u32 <= 127
}

/// A letter of ASCII.
pub open spec fn ascii_letter(c: char) -> bool {
    ('a' <= c && c <= 'z') || ('A' <= c && c <= 'Z')
}

/// Whether a character from outside ASCII has the Unicode property `Alphabetic`.
pub uninterp spec fn alphabetic_beyond_ascii(c: char) -> bool;

/// Whether a character has the Unicode property `Alphabetic`.
pub open spec fn unicode_alphabetic(c: char) -> bool {
    if ascii(c) {
        ascii_letter(c)
    } else {
        alphabetic_beyond_ascii(c)
    }
}

/// `char::is_alphabetic`: whether the character has the Unicode property
/// `Alphabetic`. In ASCII these are the letters; elsewhere the answer depends on
/// the character alone.
pub assume_specification[ char::is_alphabetic ](c: char) -> (b: bool)
    ensures
        b == if ascii(c) {
            ascii_letter(c)
        } else {
            alphabetic_beyond_ascii(c)
        },
;

/// Nothing but characters of ASCII.
pub open spec fn ascii_text(s: Seq<char>) -> bool {
    forall|i: int| 0 <= i < s.len() ==> ascii(#[trigger] s[i])
}

/// The text with `a` to `z` in place of `A` to `Z`.
pub open spec fn ascii_lowercase(s: Seq<char>) -> Seq<char> {
    s.map_values(
        |c: char|
            if 'A' <= c && c <= 'Z' {
                (c as int + 32) as char
            } else {
                c
            },
    )
}

/// The text with `A` to `Z` in place of `a` to `z`.
pub open spec fn ascii_uppercase(s: Seq<char>) -> Seq<char> {
    s.map_values(
        |c: char|
            if 'a' <= c && c <= 'z' {
                (c as int - 32) as char
            } else {
                c
            },
    )
}

/// The lower case of a text that is not in ASCII alone, by Unicode's mapping of
/// whole texts.
pub uninterp spec fn lowercase_beyond_ascii(s: Seq<char>) -> Seq<char>;

/// The upper case of a text that is not in ASCII alone, by Unicode's mapping of
/// whole texts.
pub uninterp spec fn uppercase_beyond_ascii(s: Seq<char>) -> Seq<char>;

/// The lower case of a text.
pub open spec fn unicode_lowercase(s: Seq<char>) -> Seq<char> {
    if ascii_text(s) {
        ascii_lowercase(s)
    } else {
        lowercase_beyond_ascii(s)
    }
}

/// The upper case of a text.
pub open spec fn unicode_uppercase(s: Seq<char>) -> Seq<char> {
    if ascii_text(s) {
        ascii_uppercase(s)
    } else {
        uppercase_beyond_ascii(s)
    }
}

/// `str::to_lowercase`: in a text of ASCII alone `A` to `Z` become `a` to `z`;
/// the result for any other text depends on the text alone.
pub assume_specification[ str::to_lowercase ](s: &str) -> (r: String)
    ensures
        r@ == if ascii_text(s@) {
            ascii_lowercase(s@)
        } else {
            lowercase_beyond_ascii(s@)
        },
;

/// `str::to_uppercase`: in a text of ASCII alone `a` to `z` become `A` to `Z`;
/// the result for any other text depends on the text alone.
pub assume_specification[ str::to_uppercase ](s: &str) -> (r: String)
    ensures
        r@ == if ascii_text(s@) {
            ascii_uppercase(s@)
        } else {
            uppercase_beyond_ascii(s@)
        },
;

/// `String::push` appends one character at the end.
pub assume_specification[ String::push ](s: &mut String, c: char)
    ensures
        final(s)@ == old(s)@.push(c),
;

/// The text without its longest leading run of characters that satisfy `p`.
pub open spec fn strip_start(s: Seq<char>, p: spec_fn(char) -> bool) -> Seq<char>
    decreases s.len(),
{
    if s.len() > 0 && p(s[0]) {
        strip_start(s.drop_first(), p)
    } else {
        s
    }
}

/// The text without its longest trailing run of characters that satisfy `p`.
pub open spec fn strip_end(s: Seq<char>, p: spec_fn(char) -> bool) -> Seq<char>
    decreases s.len(),
{
    if s.len() > 0 && p(s.last()) {
        strip_end(s.drop_last(), p)
    } else {
        s
    }
}

/// The text without leading and trailing characters that satisfy `p`.
pub open spec fn strip(s: Seq<char>, p: spec_fn(char) -> bool) -> Seq<char> {
    strip_end(strip_start(s, p), p)
}

/// The text without leading and trailing whitespace.
pub open spec fn trimmed(s: Seq<char>) -> Seq<char> {
    strip(s, |c: char| unicode_whitespace(c))
}

/// The text without leading and trailing characters that are not letters.
pub open spec fn letters_core(s: Seq<char>) -> Seq<char> {
    strip(s, |c: char| !unicode_alphabetic(c))
}

/// Nothing but whitespace, or nothing at all.
pub open spec fn blank(s: Seq<char>) -> bool {
    trimmed(s).len() == 0
}

/// The texts that a sequence of strings holds.
pub open spec fn texts(v: Seq<String>) -> Seq<Seq<char>> {
    v.map_values(|s: String| s@)
}

/// The text inside an optional string.
pub open spec fn optional_text(s: Option<String>) -> Option<Seq<char>> {
    match s {
        Some(t) => Some(t@),
        None => None,
    }
}

/// The finished words of a text, and the word that is still open at its end.
pub open spec fn word_scan(s: Seq<char>) -> (Seq<Seq<char>>, Seq<char>)
    decreases s.len(),
{
    if s.len() == 0 {
        (Seq::empty(), Seq::empty())
    } else {
        let (done, open_word) = word_scan(s.drop_last());
        if !unicode_whitespace(s.last()) {
            (done, open_word.push(s.last()))
        } else if open_word.len() > 0 {
            (done.push(open_word), Seq::empty())
        } else {
            (done, open_word)
        }
    }
}

/// The maximal runs of characters that are not whitespace, in order.
pub open spec fn words(s: Seq<char>) -> Seq<Seq<char>> {
    let (done, open_word) = word_scan(s);
    if open_word.len() > 0 {
        done.push(open_word)
    } else {
        done
    }
}

/// The pieces of a text between the occurrences of `separator`.
pub open spec fn pieces(s: Seq<char>, separator: char) -> Seq<Seq<char>>
    decreases s.len(),
{
    if s.len() == 0 {
        seq![Seq::empty()]
    } else {
        let before = pieces(s.drop_last(), separator);
        if s.last() == separator {
            before.push(Seq::empty())
        } else {
            before.drop_last().push(before.last().push(s.last()))
        }
    }
}

/// The text with every occurrence of `pattern`, found from left to right,
/// replaced by `with`.
pub open spec fn replaced(s: Seq<char>, pattern: Seq<char>, with: Seq<char>) -> Seq<char>
    decreases s.len(),
{
    if pattern.len() == 0 || s.len() < pattern.len() {
        s
    } else if s.take(pattern.len() as int) == pattern {
        with + replaced(s.skip(pattern.len() as int), pattern, with)
    } else {
        seq![s[0]] + replaced(s.drop_first(), pattern, with)
    }
}

/// `pattern` occurs somewhere in `s`.
pub open spec fn occurs(s: Seq<char>, pattern: Seq<char>) -> bool {
    exists|i: int|
        0 <= i && i + pattern.len() <= s.len() && #[trigger] s.subrange(i, i + pattern.len()) == pattern
}

/// An ASCII decimal digit.
pub open spec fn decimal_digit(c: char) -> bool {
    '0' <= c && c <= '9'
}

/// The number that a row of decimal digits denotes.
pub open spec fn decimal_value(s: Seq<char>) -> nat
    decreases s.len(),
{
    if s.len() == 0 {
        0
    } else {
        10 * decimal_value(s.drop_last()) + (s.last() as nat - '0' as nat) as nat
    }
}

/// One or more decimal digits and nothing else.
pub open spec fn all_digits(s: Seq<char>) -> bool {
    s.len() > 0 && forall|i: int| 0 <= i < s.len() ==> decimal_digit(#[trigger] s[i])
}

/// The unsigned number below `limit + 1` that a text denotes: an optional plus
/// sign, then decimal digits.
pub open spec fn unsigned_value(s: Seq<char>, limit: nat) -> Option<nat> {
    let digits = if s.len() > 0 && s[0] == '+' {
        s.drop_first()
    } else {
        s
    };
    if all_digits(digits) && decimal_value(digits) <= limit {
        Some(decimal_value(digits))
    } else {
        None
    }
}

/// The `i32` that a text denotes: an optional sign, then decimal digits.
pub open spec fn i32_value(s: Seq<char>) -> Option<int> {
    if s.len() > 0 && s[0] == '-' {
        let digits = s.drop_first();
        if all_digits(digits) && decimal_value(digits) <= 0x8000_0000 {
            Some(-(decimal_value(digits) as int))
        } else {
            None
        }
    } else {
        match unsigned_value(s, 0x7fff_ffff) {
            Some(n) => Some(n as int),
            None => None,
        }
    }
}

proof fn lemma_strip_start(s: Seq<char>, p: spec_fn(char) -> bool, i: int)
    requires
        0 <= i <= s.len(),
        forall|k: int| 0 <= k < i ==> p(#[trigger] s[k]),
        i == s.len() || !p(s[i]),
    ensures
        strip_start(s, p) == s.skip(i),
    decreases s.len(),
{
    if i == 0 {
        assert(s.skip(0) =~= s);
    } else {
        let rest = s.drop_first();
        assert forall|k: int| 0 <= k < i - 1 implies p(#[trigger] rest[k]) by {
            assert(rest[k] == s[k + 1]);
        }
        lemma_strip_start(rest, p, i - 1);
        assert(rest.skip(i - 1) =~= s.skip(i));
    }
}

proof fn lemma_strip_end(s: Seq<char>, p: spec_fn(char) -> bool, j: int)
    requires
        0 <= j <= s.len(),
        forall|k: int| j <= k < s.len() ==> p(#[trigger] s[k]),
        j == 0 || !p(s[j - 1]),
    ensures
        strip_end(s, p) == s.take(j),
    decreases s.len(),
{
    if j == s.len() {
        assert(s.take(j) =~= s);
    } else {
        lemma_strip_end(s.drop_last(), p, j);
        assert(s.drop_last().take(j) =~= s.take(j));
    }
}

proof fn lemma_strip(s: Seq<char>, p: spec_fn(char) -> bool, i: int, j: int)
    requires
        0 <= i <= j <= s.len(),
        forall|k: int| 0 <= k < i ==> p(#[trigger] s[k]),
        forall|k: int| j <= k < s.len() ==> p(#[trigger] s[k]),
        i == j ==> i == s.len(),
        i < j ==> !p(s[i]) && !p(s[j - 1]),
    ensures
        strip(s, p) == s.subrange(i, j),
{
    lemma_strip_start(s, p, i);
    let rest = s.skip(i);
    assert forall|k: int| j - i <= k < rest.len() implies p(#[trigger] rest[k]) by {
        assert(rest[k] == s[k + i]);
    }
    lemma_strip_end(rest, p, j - i);
    assert(rest.take(j - i) =~= s.subrange(i, j));
}

/// The characters of a text, in order.
pub fn chars_of(s: &str) -> (v: Vec<char>)
    ensures
        v@ == s@,
{
    let mut v: Vec<char> = Vec::new();
    for c in it: s.chars()
        invariant
            v@ == it.seq().take(it.index()),
            it.seq() == s@,
    {
        v.push(c);
    }
    proof {
        assert(s@.take(s@.len() as int) =~= s@);
    }
    v
}

/// A text of the characters `v[from..to]`.
pub fn string_of(v: &[char], from: usize, to: usize) -> (s: String)
    requires
        from <= to <= v@.len(),
    ensures
        s@ == v@.subrange(from as int, to as int),
{
    let mut s = String::new();
    let mut i: usize = from;
    while i < to
        invariant
            from <= i <= to <= v@.len(),
            s@ == v@.subrange(from as int, i as int),
        decreases to - i,
    {
        s.push(v[i]);
        i = i + 1;
    }
    s
}

/// Whether two texts are the same.
pub fn same(a: &str, b: &str) -> (r: bool)
    ensures
        r == (a@ == b@),
{
    let x = a.as_bytes();
    let y = b.as_bytes();
    proof {
        encode_utf8_decode_utf8(a@);
        encode_utf8_decode_utf8(b@);
    }
    if x.len() != y.len() {
        return false;
    }
    let mut i: usize = 0;
    while i < x.len()
        invariant
            i <= x@.len(),
            x@.len() == y@.len(),
            x@ == a.spec_bytes(),
            y@ == b.spec_bytes(),
            forall|k: int| 0 <= k < i ==> x@[k] == y@[k],
        decreases x.len() - i,
    {
        if x[i] != y[i] {
            return false;
        }
        i = i + 1;
    }
    proof {
        assert(x@ =~= y@);
    }
    true
}

/// The text without leading and trailing whitespace.
pub fn trim(s: &str) -> (r: String)
    ensures
        r@ == trimmed(s@),
{
    let v = chars_of(s);
    let mut i: usize = 0;
    while i < v.len() && v[i].is_whitespace()
        invariant
            i <= v.len(),
            forall|k: int| 0 <= k < i ==> unicode_whitespace(#[trigger] v@[k]),
        decreases v.len() - i,
    {
        i = i + 1;
    }
    let mut j: usize = v.len();
    while i < j && v[j - 1].is_whitespace()
        invariant
            i <= j <= v.len(),
            i < v.len() ==> !unicode_whitespace(v@[i as int]),
            forall|k: int| j <= k < v.len() ==> unicode_whitespace(#[trigger] v@[k]),
        decreases j,
    {
        j = j - 1;
    }
    proof {
        lemma_strip(s@, |c: char| unicode_whitespace(c), i as int, j as int);
    }
    string_of(v.as_slice(), i, j)
}

/// The text without leading and trailing characters that are not letters.
pub fn trim_to_letters(s: &str) -> (r: String)
    ensures
        r@ == letters_core(s@),
{
    let v = chars_of(s);
    let mut i: usize = 0;
    while i < v.len() && !v[i].is_alphabetic()
        invariant
            i <= v.len(),
            forall|k: int| 0 <= k < i ==> !unicode_alphabetic(#[trigger] v@[k]),
        decreases v.len() - i,
    {
        i = i + 1;
    }
    let mut j: usize = v.len();
    while i < j && !v[j - 1].is_alphabetic()
        invariant
            i <= j <= v.len(),
            i < v.len() ==> unicode_alphabetic(v@[i as int]),
            forall|k: int| j <= k < v.len() ==> !unicode_alphabetic(#[trigger] v@[k]),
        decreases j,
    {
        j = j - 1;
    }
    proof {
        lemma_strip(s@, |c: char| !unicode_alphabetic(c), i as int, j as int);
    }
    string_of(v.as_slice(), i, j)
}

/// Whether a text holds nothing but whitespace.
pub fn is_blank(s: &str) -> (b: bool)
    ensures
        b == blank(s@),
{
    trim(s).as_str().is_empty()
}

/// The words of a text, split at whitespace.
pub fn split_words(s: &str) -> (r: Vec<String>)
    ensures
        texts(r@) == words(s@),
{
    let v = chars_of(s);
    let mut done: Vec<String> = Vec::new();
    let mut open_word = String::new();
    let mut i: usize = 0;
    while i < v.len()
        invariant
            i <= v.len(),
            word_scan(v@.take(i as int)) == (texts(done@), open_word@),
        decreases v.len() - i,
    {
        proof {
            assert(v@.take(i + 1).drop_last() =~= v@.take(i as int));
            assert(v@.take(i + 1).last() == v@[i as int]);
        }
        if v[i].is_whitespace() {
            if !open_word.as_str().is_empty() {
                let ghost before = done@;
                done.push(open_word);
                open_word = String::new();
                proof {
                    assert(texts(done@) =~= texts(before).push(done@.last()@));
                }
            }
        } else {
            open_word.push(v[i]);
        }
        i = i + 1;
    }
    proof {
        assert(v@.take(v@.len() as int) =~= s@);
    }
    if !open_word.as_str().is_empty() {
        let ghost before = done@;
        done.push(open_word);
        proof {
            assert(texts(done@) =~= texts(before).push(done@.last()@));
        }
    }
    done
}

/// The pieces of a text between the occurrences of `separator`.
pub fn split_at_char(s: &str, separator: char) -> (r: Vec<String>)
    ensures
        texts(r@) == pieces(s@, separator),
{
    let v = chars_of(s);
    let mut done: Vec<String> = Vec::new();
    let mut piece = String::new();
    let mut i: usize = 0;
    while i < v.len()
        invariant
            i <= v.len(),
            pieces(v@.take(i as int), separator) == texts(done@).push(piece@),
        decreases v.len() - i,
    {
        proof {
            assert(v@.take(i + 1).drop_last() =~= v@.take(i as int));
            assert(v@.take(i + 1).last() == v@[i as int]);
            assert(texts(done@).push(piece@).drop_last() =~= texts(done@));
        }
        if v[i] == separator {
            let ghost before = done@;
            done.push(piece);
            piece = String::new();
            proof {
                assert(texts(done@) =~= texts(before).push(done@.last()@));
            }
        } else {
            piece.push(v[i]);
        }
        i = i + 1;
    }
    proof {
        assert(v@.take(v@.len() as int) =~= s@);
    }
    let ghost before = done@;
    done.push(piece);
    proof {
        assert(texts(done@) =~= texts(before).push(done@.last()@));
    }
    done
}

/// Whether `pattern` stands in `v` at position `at`.
fn stands_at(v: &Vec<char>, pattern: &Vec<char>, at: usize) -> (b: bool)
    requires
        at + pattern@.len() <= v@.len(),
    ensures
        b == (v@.subrange(at as int, at + pattern@.len()) == pattern@),
{
    let len = v.len();
    let mut k: usize = 0;
    while k < pattern.len()
        invariant
            k <= pattern@.len(),
            len == v@.len(),
            at + pattern@.len() <= v@.len(),
            forall|m: int| 0 <= m < k ==> v@[at + m] == #[trigger] pattern@[m],
        decreases pattern.len() - k,
    {
        if v[at + k] != pattern[k] {
            proof {
                assert(v@.subrange(at as int, at + pattern@.len())[k as int] == v@[at + k]);
            }
            return false;
        }
        k = k + 1;
    }
    proof {
        assert(v@.subrange(at as int, at + pattern@.len()) =~= pattern@);
    }
    true
}

/// The text with every occurrence of `pattern` replaced by `with`.
pub fn replace_all(s: &str, pattern: &str, with: &str) -> (r: String)
    requires
        pattern@.len() > 0,
    ensures
        r@ == replaced(s@, pattern@, with@),
{
    let v = chars_of(s);
    let pat = chars_of(pattern);
    let mut out = String::new();
    let mut i: usize = 0;
    proof {
        assert(s@.skip(0) =~= s@);
        assert(out@ + replaced(s@.skip(0), pattern@, with@) =~= replaced(s@, pattern@, with@));
    }
    while pat.len() <= v.len() - i
        invariant
            i <= v@.len(),
            v@ == s@,
            pat@ == pattern@,
            pat@.len() > 0,
            out@ + replaced(s@.skip(i as int), pattern@, with@) == replaced(s@, pattern@, with@),
        decreases v.len() - i,
    {
        let ghost rest = s@.skip(i as int);
        let ghost before = out@;
        proof {
            assert(rest.take(pat@.len() as int) =~= v@.subrange(i as int, i + pat@.len()));
        }
        if stands_at(&v, &pat, i) {
            out.append(with);
            i = i + pat.len();
            proof {
                assert(rest.skip(pat@.len() as int) =~= s@.skip(i as int));
                assert(before + (with@ + replaced(s@.skip(i as int), pattern@, with@)) =~= out@
                    + replaced(s@.skip(i as int), pattern@, with@));
            }
        } else {
            out.push(v[i]);
            i = i + 1;
            proof {
                assert(rest.drop_first() =~= s@.skip(i as int));
                assert(before + (seq![rest[0]] + replaced(s@.skip(i as int), pattern@, with@))
                    =~= out@ + replaced(s@.skip(i as int), pattern@, with@));
            }
        }
    }
    let tail = string_of(v.as_slice(), i, v.len());
    proof {
        assert(s@.skip(i as int) =~= v@.subrange(i as int, v@.len() as int));
    }
    out.append(tail.as_str());
    out
}

/// Whether `pattern` occurs in the text.
pub fn contains(s: &str, pattern: &str) -> (b: bool)
    ensures
        b == occurs(s@, pattern@),
{
    let v = chars_of(s);
    let pat = chars_of(pattern);
    if pat.len() > v.len() {
        return false;
    }
    let last = v.len() - pat.len();
    let mut i: usize = 0;
    while i < last
        invariant
            i <= last,
            last + pat@.len() == v@.len(),
            v@ == s@,
            pat@ == pattern@,
            forall|k: int| 0 <= k < i ==> #[trigger] v@.subrange(k, k + pat@.len()) != pat@,
        decreases last - i,
    {
        if stands_at(&v, &pat, i) {
            return true;
        }
        i = i + 1;
    }
    stands_at(&v, &pat, last)
}

/// Whether the text begins with `prefix`.
pub fn begins_with(s: &str, prefix: &str) -> (b: bool)
    ensures
        b == prefix@.is_prefix_of(s@),
{
    let v = chars_of(s);
    let pre = chars_of(prefix);
    if pre.len() > v.len() {
        return false;
    }
    let b = stands_at(&v, &pre, 0);
    proof {
        assert(v@.subrange(0, pre@.len() as int) == pre@ <==> prefix@.is_prefix_of(s@));
    }
    b
}

/// The number that the digits `v[from..]` denote, when it is at most `limit`.
fn digits_value(v: &Vec<char>, from: usize, limit: u64) -> (r: Option<u64>)
    requires
        from <= v@.len(),
        limit <= 0xffff_ffff,
    ensures
        r == if all_digits(v@.skip(from as int)) && decimal_value(v@.skip(from as int)) <= limit {
            Some(decimal_value(v@.skip(from as int)) as u64)
        } else {
            None
        },
{
    let ghost digits = v@.skip(from as int);
    if from == v.len() {
        return None;
    }
    let mut value: u64 = 0;
    let mut over: bool = false;
    let mut i: usize = from;
    while i < v.len()
        invariant
            from <= i <= v@.len(),
            limit <= 0xffff_ffff,
            digits == v@.skip(from as int),
            forall|k: int| 0 <= k < i - from ==> decimal_digit(#[trigger] digits[k]),
            over ==> decimal_value(digits.take(i - from)) > limit,
            !over ==> value == decimal_value(digits.take(i - from)) && value <= limit,
        decreases v.len() - i,
    {
        let c = v[i];
        proof {
            assert(digits[i - from] == c);
            assert(digits.take(i - from + 1).drop_last() =~= digits.take(i - from));
            assert(digits.take(i - from + 1).last() == c);
        }
        if c < '0' || c > '9' {
            return None;
        }
        if !over {
            let digit: u64 = c as u64 - '0' as u64;
            value = 10 * value + digit;
            if value > limit {
                over = true;
            }
        }
        i = i + 1;
    }
    proof {
        assert(digits.take(v@.len() - from) =~= digits);
    }
    if over {
        None
    } else {
        Some(value)
    }
}

/// The `u32` that a text denotes.
pub fn parse_u32(s: &str) -> (r: Option<u32>)
    ensures
        r == match unsigned_value(s@, u32::MAX as nat) {
            Some(n) => Some(n as u32),
            None => None::<u32>,
        },
{
    let v = chars_of(s);
    let from: usize = if v.len() > 0 && v[0] == '+' {
        1
    } else {
        0
    };
    proof {
        assert(v@.skip(0) =~= v@);
        assert(v@.len() > 0 ==> v@.skip(1) =~= v@.drop_first());
    }
    match digits_value(&v, from, 0xffff_ffff) {
        Some(n) => Some(n as u32),
        None => None,
    }
}

/// The `i32` that a text denotes.
pub fn parse_i32(s: &str) -> (r: Option<i32>)
    ensures
        r == match i32_value(s@) {
            Some(n) => Some(n as i32),
            None => None::<i32>,
        },
{
    let v = chars_of(s);
    proof {
        assert(v@.skip(0) =~= v@);
        assert(v@.len() > 0 ==> v@.skip(1) =~= v@.drop_first());
    }
    if v.len() > 0 && v[0] == '-' {
        match digits_value(&v, 1, 0x8000_0000) {
            Some(n) => Some((-(n as i64)) as i32),
            None => None,
        }
    } else {
        let from: usize = if v.len() > 0 && v[0] == '+' {
            1
        } else {
            0
        };
        match digits_value(&v, from, 0x7fff_ffff) {
            Some(n) => Some(n as i32),
            None => None,
        }
    }
}

/// A text in which the pattern does not occur stays as it is.
pub proof fn law_replacing_needs_the_pattern(s: Seq<char>, pattern: Seq<char>, with: Seq<char>)
    requires
        !occurs(s, pattern),
    ensures
        replaced(s, pattern, with) == s,
    decreases s.len(),
{
    if pattern.len() > 0 && s.len() >= pattern.len() {
        let n = pattern.len() as int;
        assert(s.take(n) =~= s.subrange(0, 0 + n));
        let rest = s.drop_first();
        assert forall|i: int| 0 <= i && i + n <= rest.len() implies #[trigger] rest.subrange(
            i,
            i + n,
        ) != pattern by {
            assert(rest.subrange(i, i + n) =~= s.subrange(i + 1, i + 1 + n));
        }
        law_replacing_needs_the_pattern(rest, pattern, with);
        assert(seq![s[0]] + rest =~= s);
    }
}

} // verus!
