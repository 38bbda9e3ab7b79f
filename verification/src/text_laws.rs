//! What trimming, splitting, replacing and reading numbers mean for texts that
//! are put together from parts.

use vstd::prelude::*;

use crate::text::{
    blank, decimal_digit, decimal_value, i32_value, letters_core, occurs, pieces, replaced, strip,
    strip_end, strip_start, trimmed, unicode_alphabetic, unicode_whitespace, unsigned_value,
    word_scan, words,
};

verus! {

proof fn lemma_strip_start_of(lead: Seq<char>, rest: Seq<char>, p: spec_fn(char) -> bool)
    requires
        forall|i: int| 0 <= i < lead.len() ==> p(#[trigger] lead[i]),
        rest.len() == 0 || !p(rest[0]),
    ensures
        strip_start(lead + rest, p) == rest,
    decreases lead.len(),
{
    if lead.len() == 0 {
        assert(lead + rest =~= rest);
    } else {
        assert((lead + rest).drop_first() =~= lead.drop_first() + rest);
        assert forall|i: int| 0 <= i < lead.drop_first().len() implies p(
            #[trigger] lead.drop_first()[i],
        ) by {
            assert(lead.drop_first()[i] == lead[i + 1]);
        }
        lemma_strip_start_of(lead.drop_first(), rest, p);
        assert(p((lead + rest)[0]));
    }
}

proof fn lemma_strip_end_of(rest: Seq<char>, trail: Seq<char>, p: spec_fn(char) -> bool)
    requires
        forall|i: int| 0 <= i < trail.len() ==> p(#[trigger] trail[i]),
        rest.len() == 0 || !p(rest.last()),
    ensures
        strip_end(rest + trail, p) == rest,
    decreases trail.len(),
{
    if trail.len() == 0 {
        assert(rest + trail =~= rest);
    } else {
        assert((rest + trail).drop_last() =~= rest + trail.drop_last());
        lemma_strip_end_of(rest, trail.drop_last(), p);
        assert(p((rest + trail).last()));
    }
}

proof fn lemma_strip_of(
    lead: Seq<char>,
    core: Seq<char>,
    trail: Seq<char>,
    p: spec_fn(char) -> bool,
)
    requires
        forall|i: int| 0 <= i < lead.len() ==> p(#[trigger] lead[i]),
        forall|i: int| 0 <= i < trail.len() ==> p(#[trigger] trail[i]),
        core.len() > 0 ==> !p(core[0]) && !p(core.last()),
    ensures
        strip(lead + core + trail, p) == core,
{
    if core.len() == 0 {
        let all = lead + core + trail;
        assert(all =~= all + Seq::empty());
        assert(forall|i: int| 0 <= i < all.len() ==> p(#[trigger] all[i]));
        lemma_strip_start_of(all, Seq::empty(), p);
        assert(core =~= Seq::empty());
    } else {
        assert(lead + core + trail =~= lead + (core + trail));
        lemma_strip_start_of(lead, core + trail, p);
        lemma_strip_end_of(core, trail, p);
    }
}

/// Nothing but whitespace.
pub open spec fn all_whitespace(s: Seq<char>) -> bool {
    forall|i: int| 0 <= i < s.len() ==> unicode_whitespace(#[trigger] s[i])
}

/// Trimming takes away the whitespace at both ends and nothing else, and a text
/// is blank exactly if there is nothing else in it.
pub proof fn law_trimming(lead: Seq<char>, core: Seq<char>, trail: Seq<char>)
    requires
        all_whitespace(lead),
        all_whitespace(trail),
        core.len() > 0 ==> !unicode_whitespace(core[0]) && !unicode_whitespace(core.last()),
    ensures
        trimmed(lead + core + trail) == core,
        blank(lead + core + trail) <==> core.len() == 0,
{
    lemma_strip_of(lead, core, trail, |c: char| unicode_whitespace(c));
}

/// The letters of a word begin with its first letter and end with its last;
/// whatever stands around them goes.
pub proof fn law_trimming_to_letters(lead: Seq<char>, core: Seq<char>, trail: Seq<char>)
    requires
        forall|i: int| 0 <= i < lead.len() ==> !unicode_alphabetic(#[trigger] lead[i]),
        forall|i: int| 0 <= i < trail.len() ==> !unicode_alphabetic(#[trigger] trail[i]),
        core.len() > 0 ==> unicode_alphabetic(core[0]) && unicode_alphabetic(core.last()),
    ensures
        letters_core(lead + core + trail) == core,
{
    lemma_strip_of(lead, core, trail, |c: char| !unicode_alphabetic(c));
}

proof fn lemma_scan_after_space(a: Seq<char>, c: char, b: Seq<char>)
    requires
        unicode_whitespace(c),
    ensures
        word_scan(a.push(c) + b) == (words(a) + word_scan(b).0, word_scan(b).1),
    decreases b.len(),
{
    if b.len() == 0 {
        assert(a.push(c) + b =~= a.push(c));
        assert(a.push(c).drop_last() =~= a);
        assert(words(a) + word_scan(b).0 =~= words(a));
        assert(word_scan(a.push(c)).1 =~= Seq::empty());
        assert(word_scan(a.push(c)).0 =~= words(a));
    } else {
        lemma_scan_after_space(a, c, b.drop_last());
        assert((a.push(c) + b).drop_last() =~= a.push(c) + b.drop_last());
        assert((a.push(c) + b).last() == b.last());
        let (done, open_word) = word_scan(b.drop_last());
        assert(words(a) + done.push(open_word) =~= (words(a) + done).push(open_word));
    }
}

proof fn lemma_scan_without_space(w: Seq<char>)
    requires
        forall|i: int| 0 <= i < w.len() ==> !unicode_whitespace(#[trigger] w[i]),
    ensures
        word_scan(w) == (Seq::<Seq<char>>::empty(), w),
    decreases w.len(),
{
    if w.len() > 0 {
        lemma_scan_without_space(w.drop_last());
        assert(w.drop_last().push(w.last()) =~= w);
    } else {
        assert(w =~= Seq::empty());
    }
}

/// Whitespace parts a text into words, and nothing else does: the words around a
/// character of whitespace are those before it and those after it, and a text
/// without any is a single word, or none if it is empty.
pub proof fn law_words_are_parted_by_whitespace(a: Seq<char>, c: char, b: Seq<char>)
    ensures
        unicode_whitespace(c) ==> words(a.push(c) + b) == words(a) + words(b),
        (forall|i: int| 0 <= i < a.len() ==> !unicode_whitespace(#[trigger] a[i])) ==> words(a)
            == if a.len() == 0 {
            Seq::<Seq<char>>::empty()
        } else {
            seq![a]
        },
{
    if unicode_whitespace(c) {
        lemma_scan_after_space(a, c, b);
        let (done, open_word) = word_scan(b);
        assert(words(a) + done.push(open_word) =~= (words(a) + done).push(open_word));
        assert(words(a.push(c) + b) =~= words(a) + words(b));
    }
    if forall|i: int| 0 <= i < a.len() ==> !unicode_whitespace(#[trigger] a[i]) {
        lemma_scan_without_space(a);
        assert(Seq::<Seq<char>>::empty().push(a) =~= seq![a]);
    }
}

/// The separator parts a text into pieces, and nothing else does: the pieces
/// around a separator are those before it and those after it, and a text without
/// any is a single piece.
pub proof fn law_pieces_are_parted_by_the_separator(a: Seq<char>, separator: char, b: Seq<char>)
    ensures
        pieces(a.push(separator) + b, separator) == pieces(a, separator) + pieces(b, separator),
        (forall|i: int| 0 <= i < a.len() ==> #[trigger] a[i] != separator) ==> pieces(a, separator)
            == seq![a],
{
    lemma_pieces_around(a, separator, b);
    if forall|i: int| 0 <= i < a.len() ==> #[trigger] a[i] != separator {
        lemma_single_piece(a, separator);
    }
}

proof fn lemma_some_piece(s: Seq<char>, separator: char)
    ensures
        pieces(s, separator).len() > 0,
    decreases s.len(),
{
    if s.len() > 0 {
        lemma_some_piece(s.drop_last(), separator);
    }
}

proof fn lemma_pieces_around(a: Seq<char>, separator: char, b: Seq<char>)
    ensures
        pieces(a.push(separator) + b, separator) == pieces(a, separator) + pieces(b, separator),
    decreases b.len(),
{
    let before = pieces(a, separator);
    if b.len() == 0 {
        assert(a.push(separator) + b =~= a.push(separator));
        assert(a.push(separator).drop_last() =~= a);
        assert(before.push(Seq::empty()) =~= before + seq![Seq::empty()]);
    } else {
        let shorter = b.drop_last();
        lemma_pieces_around(a, separator, shorter);
        lemma_some_piece(shorter, separator);
        assert((a.push(separator) + b).drop_last() =~= a.push(separator) + shorter);
        let late = pieces(shorter, separator);
        assert((before + late).push(Seq::empty()) =~= before + late.push(Seq::empty()));
        assert((before + late).drop_last().push((before + late).last().push(b.last())) =~= before
            + late.drop_last().push(late.last().push(b.last())));
    }
}

proof fn lemma_single_piece(s: Seq<char>, separator: char)
    requires
        forall|i: int| 0 <= i < s.len() ==> #[trigger] s[i] != separator,
    ensures
        pieces(s, separator) == seq![s],
    decreases s.len(),
{
    if s.len() == 0 {
        assert(s =~= Seq::empty());
    } else {
        lemma_single_piece(s.drop_last(), separator);
        assert(s.last() == s[s.len() - 1]);
        assert(s.drop_last().push(s.last()) =~= s);
        assert(seq![s.drop_last()].drop_last().push(s) =~= seq![s]);
    }
}

/// The first occurrence of the pattern is replaced, what stands before it stays,
/// and what stands behind it is treated in the same way.
pub proof fn law_replacing_the_first_occurrence(
    s: Seq<char>,
    pattern: Seq<char>,
    with: Seq<char>,
    i: int,
)
    requires
        pattern.len() > 0,
        0 <= i,
        i + pattern.len() <= s.len(),
        s.subrange(i, i + pattern.len()) == pattern,
        forall|k: int| 0 <= k < i ==> #[trigger] s.subrange(k, k + pattern.len()) != pattern,
    ensures
        replaced(s, pattern, with) == s.take(i) + with + replaced(
            s.skip(i + pattern.len()),
            pattern,
            with,
        ),
    decreases i,
{
    let n = pattern.len() as int;
    assert(s.take(n) =~= s.subrange(0, 0 + n));
    if i == 0 {
        assert(s.take(0) + with =~= with);
    } else {
        let rest = s.drop_first();
        assert(rest.subrange(i - 1, i - 1 + n) =~= s.subrange(i, i + n));
        assert forall|k: int| 0 <= k < i - 1 implies #[trigger] rest.subrange(k, k + n) != pattern by {
            assert(rest.subrange(k, k + n) =~= s.subrange(k + 1, k + 1 + n));
        }
        law_replacing_the_first_occurrence(rest, pattern, with, i - 1);
        assert(rest.skip(i - 1 + n) =~= s.skip(i + n));
        assert(seq![s[0]] + rest.take(i - 1) =~= s.take(i));
        assert(replaced(s, pattern, with) =~= s.take(i) + with + replaced(
            s.skip(i + n),
            pattern,
            with,
        ));
    }
}

/// A pattern occurs in a text exactly if the text is the pattern with something
/// before and something behind it.
pub proof fn law_occurrence(s: Seq<char>, pattern: Seq<char>)
    ensures
        occurs(s, pattern) <==> exists|a: Seq<char>, b: Seq<char>| #[trigger]
            (a + pattern + b) == s,
{
    if occurs(s, pattern) {
        let i = choose|i: int|
            0 <= i && i + pattern.len() <= s.len() && #[trigger] s.subrange(i, i + pattern.len())
                == pattern;
        assert(s.take(i) + pattern + s.skip(i + pattern.len()) =~= s);
    }
    if exists|a: Seq<char>, b: Seq<char>| #[trigger] (a + pattern + b) == s {
        let (a, b) = choose|a: Seq<char>, b: Seq<char>| #[trigger] (a + pattern + b) == s;
        let i = a.len() as int;
        assert(s.subrange(i, i + pattern.len()) =~= pattern);
    }
}

/// The decimal digits of a number.
pub open spec fn digits(n: nat) -> Seq<char>
    decreases n,
{
    let last = (('0' as int) + (n % 10) as int) as char;
    if n < 10 {
        seq![last]
    } else {
        digits(n / 10).push(last)
    }
}

proof fn lemma_digits(n: nat)
    ensures
        digits(n).len() > 0,
        forall|i: int| 0 <= i < digits(n).len() ==> decimal_digit(#[trigger] digits(n)[i]),
        decimal_value(digits(n)) == n,
    decreases n,
{
    let last = (('0' as int) + (n % 10) as int) as char;
    assert(last as int == '0' as int + n % 10);
    if n < 10 {
        assert(digits(n).drop_last() =~= Seq::empty());
        assert(decimal_value(Seq::<char>::empty()) == 0);
    } else {
        lemma_digits(n / 10);
        assert(digits(n).drop_last() =~= digits(n / 10));
    }
}

/// A number is read back from its decimal digits, with or without a plus sign,
/// and as its negative with a minus sign, where it is not too large.
pub proof fn law_numbers_are_read_back(n: nat, limit: nat)
    ensures
        unsigned_value(digits(n), limit) == if n <= limit {
            Some(n)
        } else {
            None
        },
        unsigned_value(seq!['+'] + digits(n), limit) == unsigned_value(digits(n), limit),
        i32_value(digits(n)) == if n <= 0x7fff_ffff {
            Some(n as int)
        } else {
            None
        },
        i32_value(seq!['+'] + digits(n)) == i32_value(digits(n)),
        i32_value(seq!['-'] + digits(n)) == if n <= 0x8000_0000 {
            Some(-(n as int))
        } else {
            None
        },
{
    lemma_digits(n);
    assert(decimal_digit(digits(n)[0]));
    assert((seq!['+'] + digits(n)).drop_first() =~= digits(n));
    assert((seq!['-'] + digits(n)).drop_first() =~= digits(n));
}

/// A text that is empty, or that holds anything but decimal digits behind its
/// first character, is no number; and no sign stands alone.
pub proof fn law_anything_else_is_no_number(s: Seq<char>, limit: nat, i: int)
    requires
        s.len() == 0 || (0 < i < s.len() && !('0' <= s[i] && s[i] <= '9')) || (s.len() == 1 && !(
        '0' <= s[0] && s[0] <= '9')),
    ensures
        unsigned_value(s, limit) is None,
        i32_value(s) is None,
{
    if s.len() > 1 {
        assert(s.drop_first()[i - 1] == s[i]);
        assert(!decimal_digit(s.drop_first()[i - 1]));
        assert(!decimal_digit(s[i]));
    } else if s.len() == 1 {
        assert(!decimal_digit(s[0]));
        assert(s.drop_first().len() == 0);
    }
}

/// A text whose first character is neither a digit nor a sign is no number, and
/// a minus sign makes no unsigned number.
pub proof fn law_numbers_begin_with_a_digit_or_a_sign(s: Seq<char>, limit: nat)
    requires
        s.len() > 0,
        !('0' <= s[0] && s[0] <= '9'),
    ensures
        s[0] != '+' ==> unsigned_value(s, limit) is None,
        s[0] != '+' && s[0] != '-' ==> i32_value(s) is None,
{
    assert(!decimal_digit(s[0]));
}

} // verus!
