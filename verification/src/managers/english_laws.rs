//! What the words of a text mean for the test whether it is English: their order
//! and the spacing between them mean nothing, and a further stop word never
//! speaks against it.

use vstd::prelude::*;
use vstd::string::*;

use crate::managers::streaming_translator::{
    english_word, foreign_character, likely_english, stop_word,
};
use crate::text::{
    ascii_lowercase, ascii_text, letters_core, pieces, strip_end, strip_start, unicode_alphabetic,
    unicode_lowercase, unicode_whitespace, word_scan, words,
};

verus! {

/// The sum of a weight over words.
spec fn tally(ws: Seq<Seq<char>>, weight: spec_fn(Seq<char>) -> nat) -> nat
    decreases ws.len(),
{
    if ws.len() == 0 {
        0
    } else {
        tally(ws.drop_last(), weight) + weight(ws.last())
    }
}

/// The number of characters of a word.
spec fn visible_weight() -> spec_fn(Seq<char>) -> nat {
    |w: Seq<char>| w.len()
}

/// The number of characters of a word from outside ASCII.
spec fn foreign_weight() -> spec_fn(Seq<char>) -> nat {
    |w: Seq<char>| w.filter(|c: char| foreign_character(c)).len()
}

/// One for a word with a letter in it.
spec fn spoken_weight() -> spec_fn(Seq<char>) -> nat {
    |w: Seq<char>|
        if letters_core(w).len() > 0 {
            1
        } else {
            0
        }
}

/// One for a word that counts as English.
spec fn english_weight() -> spec_fn(Seq<char>) -> nat {
    |w: Seq<char>|
        if letters_core(w).len() > 0 && english_word(letters_core(w)) {
            1
        } else {
            0
        }
}

proof fn lemma_tally_push(ws: Seq<Seq<char>>, w: Seq<char>, weight: spec_fn(Seq<char>) -> nat)
    ensures
        tally(ws.push(w), weight) == tally(ws, weight) + weight(w),
{
    assert(ws.push(w).drop_last() =~= ws);
}

proof fn lemma_tally_remove(ws: Seq<Seq<char>>, i: int, weight: spec_fn(Seq<char>) -> nat)
    requires
        0 <= i < ws.len(),
    ensures
        tally(ws, weight) == tally(ws.remove(i), weight) + weight(ws[i]),
    decreases ws.len(),
{
    if i == ws.len() - 1 {
        assert(ws.remove(i) =~= ws.drop_last());
    } else {
        lemma_tally_remove(ws.drop_last(), i, weight);
        assert(ws.remove(i).drop_last() =~= ws.drop_last().remove(i));
    }
}

/// A sum over words does not depend on their order.
proof fn lemma_tally_unordered(
    a: Seq<Seq<char>>,
    b: Seq<Seq<char>>,
    weight: spec_fn(Seq<char>) -> nat,
)
    requires
        a.to_multiset() == b.to_multiset(),
    ensures
        tally(a, weight) == tally(b, weight),
    decreases a.len(),
{
    a.to_multiset_ensures();
    b.to_multiset_ensures();
    if a.len() > 0 {
        let last = a.len() - 1;
        assert(a.contains(a[last]));
        assert(b.to_multiset().count(a[last]) > 0);
        assert(b.contains(a[last]));
        let i = choose|i: int| 0 <= i < b.len() && b[i] == a[last];
        vstd::seq_lib::to_multiset_remove(a, last);
        vstd::seq_lib::to_multiset_remove(b, i);
        lemma_tally_unordered(a.remove(last), b.remove(i), weight);
        lemma_tally_remove(a, last, weight);
        lemma_tally_remove(b, i, weight);
    }
}

/// The visible characters of a text are those of its finished words and of the
/// word that is open at its end.
proof fn lemma_scan_counts(s: Seq<char>)
    ensures
        ({
            let visible = |c: char| !unicode_whitespace(c);
            let foreign = |c: char| foreign_character(c);
            let (done, open_word) = word_scan(s);
            &&& s.filter(visible).len() == tally(done, visible_weight()) + open_word.len()
            &&& s.filter(foreign).len() == tally(done, foreign_weight()) + open_word.filter(
                foreign,
            ).len()
            &&& s.filter(foreign).len() <= s.filter(visible).len()
        }),
    decreases s.len(),
{
    let visible = |c: char| !unicode_whitespace(c);
    let foreign = |c: char| foreign_character(c);
    if s.len() == 0 {
        reveal(Seq::filter);
    } else {
        let before = s.drop_last();
        let (done, open_word) = word_scan(before);
        lemma_scan_counts(before);
        assert(s =~= before.push(s.last()));
        before.lemma_filter_len_push(visible, s.last());
        before.lemma_filter_len_push(foreign, s.last());
        open_word.lemma_filter_len_push(foreign, s.last());
        lemma_tally_push(done, open_word, visible_weight());
        lemma_tally_push(done, open_word, foreign_weight());
        assert(Seq::<char>::empty().filter(foreign).len() == 0) by {
            reveal(Seq::filter);
        }
        if open_word.len() == 0 {
            assert(open_word =~= Seq::empty());
        }
    }
}

/// The visible characters of a text are those of its words.
proof fn lemma_text_counts(s: Seq<char>)
    ensures
        s.filter(|c: char| !unicode_whitespace(c)).len() == tally(words(s), visible_weight()),
        s.filter(|c: char| foreign_character(c)).len() == tally(words(s), foreign_weight()),
        tally(words(s), foreign_weight()) <= tally(words(s), visible_weight()),
{
    let (done, open_word) = word_scan(s);
    lemma_scan_counts(s);
    if open_word.len() > 0 {
        lemma_tally_push(done, open_word, visible_weight());
        lemma_tally_push(done, open_word, foreign_weight());
    } else {
        reveal(Seq::filter);
    }
}

proof fn lemma_word_counts(ws: Seq<Seq<char>>)
    ensures
        ({
            let spoken = ws.map_values(|w: Seq<char>| letters_core(w)).filter(
                |w: Seq<char>| w.len() > 0,
            );
            &&& spoken.len() == tally(ws, spoken_weight())
            &&& spoken.filter(|w: Seq<char>| english_word(w)).len() == tally(ws, english_weight())
        }),
    decreases ws.len(),
{
    let core = |w: Seq<char>| letters_core(w);
    let some = |w: Seq<char>| w.len() > 0;
    let english = |w: Seq<char>| english_word(w);
    if ws.len() == 0 {
        assert(ws.map_values(core) =~= Seq::empty());
        reveal(Seq::filter);
    } else {
        let before = ws.drop_last();
        lemma_word_counts(before);
        assert(ws.map_values(core) =~= before.map_values(core).push(core(ws.last())));
        before.map_values(core).lemma_filter_push(core(ws.last()), some);
        before.map_values(core).filter(some).lemma_filter_len_push(english, core(ws.last()));
    }
}

/// The verdict on a text by four sums over its words.
proof fn lemma_verdict(s: Seq<char>)
    ensures
        ({
            let visible = tally(words(s), visible_weight());
            let foreign = tally(words(s), foreign_weight());
            let spoken = tally(words(s), spoken_weight());
            let english = tally(words(s), english_weight());
            &&& foreign <= visible
            &&& likely_english(s) == (100 * foreign <= 15 * visible && (spoken < 3 || 4 * english
                > spoken))
        }),
{
    lemma_text_counts(s);
    lemma_word_counts(words(s));
}

/// Texts with the same words get the same verdict, whatever the order of the
/// words and the whitespace around them.
pub proof fn law_the_order_of_words_does_not_matter(a: Seq<char>, b: Seq<char>)
    requires
        words(a).to_multiset() == words(b).to_multiset(),
    ensures
        likely_english(a) == likely_english(b),
{
    lemma_verdict(a);
    lemma_verdict(b);
    lemma_tally_unordered(words(a), words(b), visible_weight());
    lemma_tally_unordered(words(a), words(b), foreign_weight());
    lemma_tally_unordered(words(a), words(b), spoken_weight());
    lemma_tally_unordered(words(a), words(b), english_weight());
}

/// A word of the letters `a` to `z`.
spec fn plain_word(w: Seq<char>) -> bool {
    w.len() > 0 && forall|i: int| 0 <= i < w.len() ==> 'a' <= #[trigger] w[i] && w[i] <= 'z'
}

proof fn lemma_stop_words_are_plain(w: Seq<char>)
    requires
        stop_word(w),
    ensures
        plain_word(w),
{
    assert(plain_word("the"@)) by {
        reveal_strlit("the");
    }
    assert(plain_word("is"@)) by {
        reveal_strlit("is");
    }
    assert(plain_word("are"@)) by {
        reveal_strlit("are");
    }
    assert(plain_word("was"@)) by {
        reveal_strlit("was");
    }
    assert(plain_word("were"@)) by {
        reveal_strlit("were");
    }
    assert(plain_word("am"@)) by {
        reveal_strlit("am");
    }
    assert(plain_word("be"@)) by {
        reveal_strlit("be");
    }
    assert(plain_word("been"@)) by {
        reveal_strlit("been");
    }
    assert(plain_word("being"@)) by {
        reveal_strlit("being");
    }
    assert(plain_word("have"@)) by {
        reveal_strlit("have");
    }
    assert(plain_word("has"@)) by {
        reveal_strlit("has");
    }
    assert(plain_word("had"@)) by {
        reveal_strlit("had");
    }
    assert(plain_word("do"@)) by {
        reveal_strlit("do");
    }
    assert(plain_word("does"@)) by {
        reveal_strlit("does");
    }
    assert(plain_word("did"@)) by {
        reveal_strlit("did");
    }
    assert(plain_word("this"@)) by {
        reveal_strlit("this");
    }
    assert(plain_word("that"@)) by {
        reveal_strlit("that");
    }
    assert(plain_word("these"@)) by {
        reveal_strlit("these");
    }
    assert(plain_word("those"@)) by {
        reveal_strlit("those");
    }
    assert(plain_word("not"@)) by {
        reveal_strlit("not");
    }
    assert(plain_word("but"@)) by {
        reveal_strlit("but");
    }
    assert(plain_word("and"@)) by {
        reveal_strlit("and");
    }
    assert(plain_word("or"@)) by {
        reveal_strlit("or");
    }
    assert(plain_word("if"@)) by {
        reveal_strlit("if");
    }
    assert(plain_word("so"@)) by {
        reveal_strlit("so");
    }
    assert(plain_word("they"@)) by {
        reveal_strlit("they");
    }
    assert(plain_word("them"@)) by {
        reveal_strlit("them");
    }
    assert(plain_word("their"@)) by {
        reveal_strlit("their");
    }
    assert(plain_word("he"@)) by {
        reveal_strlit("he");
    }
    assert(plain_word("she"@)) by {
        reveal_strlit("she");
    }
    assert(plain_word("it"@)) by {
        reveal_strlit("it");
    }
    assert(plain_word("we"@)) by {
        reveal_strlit("we");
    }
    assert(plain_word("you"@)) by {
        reveal_strlit("you");
    }
    assert(plain_word("i"@)) by {
        reveal_strlit("i");
    }
    assert(plain_word("would"@)) by {
        reveal_strlit("would");
    }
    assert(plain_word("could"@)) by {
        reveal_strlit("could");
    }
    assert(plain_word("should"@)) by {
        reveal_strlit("should");
    }
    assert(plain_word("will"@)) by {
        reveal_strlit("will");
    }
    assert(plain_word("shall"@)) by {
        reveal_strlit("shall");
    }
    assert(plain_word("may"@)) by {
        reveal_strlit("may");
    }
    assert(plain_word("might"@)) by {
        reveal_strlit("might");
    }
    assert(plain_word("can"@)) by {
        reveal_strlit("can");
    }
    assert(plain_word("which"@)) by {
        reveal_strlit("which");
    }
    assert(plain_word("what"@)) by {
        reveal_strlit("what");
    }
    assert(plain_word("where"@)) by {
        reveal_strlit("where");
    }
    assert(plain_word("when"@)) by {
        reveal_strlit("when");
    }
    assert(plain_word("who"@)) by {
        reveal_strlit("who");
    }
    assert(plain_word("how"@)) by {
        reveal_strlit("how");
    }
    assert(plain_word("there"@)) by {
        reveal_strlit("there");
    }
    assert(plain_word("here"@)) by {
        reveal_strlit("here");
    }
    assert(plain_word("very"@)) by {
        reveal_strlit("very");
    }
    assert(plain_word("just"@)) by {
        reveal_strlit("just");
    }
    assert(plain_word("also"@)) by {
        reveal_strlit("also");
    }
    assert(plain_word("some"@)) by {
        reveal_strlit("some");
    }
    assert(plain_word("any"@)) by {
        reveal_strlit("any");
    }
    assert(plain_word("my"@)) by {
        reveal_strlit("my");
    }
    assert(plain_word("your"@)) by {
        reveal_strlit("your");
    }
    assert(plain_word("his"@)) by {
        reveal_strlit("his");
    }
    assert(plain_word("her"@)) by {
        reveal_strlit("her");
    }
    assert(plain_word("its"@)) by {
        reveal_strlit("its");
    }
    assert(plain_word("our"@)) by {
        reveal_strlit("our");
    }
    assert(plain_word("a"@)) by {
        reveal_strlit("a");
    }
    assert(plain_word("an"@)) by {
        reveal_strlit("an");
    }
    assert(plain_word("of"@)) by {
        reveal_strlit("of");
    }
    assert(plain_word("in"@)) by {
        reveal_strlit("in");
    }
    assert(plain_word("to"@)) by {
        reveal_strlit("to");
    }
    assert(plain_word("for"@)) by {
        reveal_strlit("for");
    }
    assert(plain_word("on"@)) by {
        reveal_strlit("on");
    }
    assert(plain_word("with"@)) by {
        reveal_strlit("with");
    }
    assert(plain_word("at"@)) by {
        reveal_strlit("at");
    }
    assert(plain_word("by"@)) by {
        reveal_strlit("by");
    }
    assert(plain_word("from"@)) by {
        reveal_strlit("from");
    }
    assert(plain_word("hello"@)) by {
        reveal_strlit("hello");
    }
    assert(plain_word("now"@)) by {
        reveal_strlit("now");
    }
    assert(plain_word("about"@)) by {
        reveal_strlit("about");
    }
    assert(plain_word("out"@)) by {
        reveal_strlit("out");
    }
    assert(plain_word("up"@)) by {
        reveal_strlit("up");
    }
    assert(plain_word("because"@)) by {
        reveal_strlit("because");
    }
    assert(plain_word("going"@)) by {
        reveal_strlit("going");
    }
    assert(plain_word("thing"@)) by {
        reveal_strlit("thing");
    }
    assert(plain_word("know"@)) by {
        reveal_strlit("know");
    }
    assert(plain_word("want"@)) by {
        reveal_strlit("want");
    }
    assert(plain_word("think"@)) by {
        reveal_strlit("think");
    }
    assert(plain_word("getting"@)) by {
        reveal_strlit("getting");
    }
    assert(plain_word("actually"@)) by {
        reveal_strlit("actually");
    }
    assert(plain_word("really"@)) by {
        reveal_strlit("really");
    }
}

/// A stop word counts as a word and as English, and none of its characters is
/// foreign.
proof fn lemma_weights_of_stop_word(w: Seq<char>)
    requires
        stop_word(w),
    ensures
        w.len() > 0,
        forall|i: int| 0 <= i < w.len() ==> !unicode_whitespace(#[trigger] w[i]),
        foreign_weight()(w) == 0,
        spoken_weight()(w) == 1,
        english_weight()(w) == 1,
{
    lemma_stop_words_are_plain(w);
    let outside = |c: char| !unicode_alphabetic(c);
    assert(unicode_alphabetic(w[0]) && unicode_alphabetic(w.last()));
    assert(strip_start(w, outside) == w);
    assert(strip_end(w, outside) == w);
    assert(letters_core(w) == w);
    assert(ascii_text(w));
    assert(ascii_lowercase(w) =~= w);
    assert(unicode_lowercase(w) == w);
    lemma_nothing_kept(w, |c: char| foreign_character(c));
}

proof fn lemma_nothing_kept(s: Seq<char>, p: spec_fn(char) -> bool)
    requires
        forall|i: int| 0 <= i < s.len() ==> !p(#[trigger] s[i]),
    ensures
        s.filter(p).len() == 0,
    decreases s.len(),
{
    reveal(Seq::filter);
    if s.len() > 0 {
        lemma_nothing_kept(s.drop_last(), p);
    }
}

/// A word after a space is one word more.
proof fn lemma_scan_of_word(s: Seq<char>, w: Seq<char>)
    requires
        word_scan(s).1.len() == 0,
        forall|i: int| 0 <= i < w.len() ==> !unicode_whitespace(#[trigger] w[i]),
    ensures
        word_scan(s + w) == (word_scan(s).0, w),
    decreases w.len(),
{
    if w.len() == 0 {
        assert(s + w =~= s);
        assert(word_scan(s).1 =~= w);
    } else {
        lemma_scan_of_word(s, w.drop_last());
        assert((s + w).drop_last() =~= s + w.drop_last());
        assert(w.drop_last().push(w.last()) =~= w);
    }
}

/// A text that is taken for English still is with a space and a stop word
/// behind it.
pub proof fn law_a_stop_word_keeps_the_verdict(s: Seq<char>, w: Seq<char>)
    requires
        likely_english(s),
        stop_word(w),
    ensures
        likely_english(s.push(' ') + w),
{
    let spaced = s.push(' ');
    assert(spaced.drop_last() =~= s);
    assert(word_scan(spaced).0 =~= words(s) && word_scan(spaced).1.len() == 0);
    lemma_weights_of_stop_word(w);
    lemma_scan_of_word(spaced, w);
    assert(words(spaced + w) == words(s).push(w));
    lemma_verdict(s);
    lemma_verdict(spaced + w);
    lemma_tally_push(words(s), w, visible_weight());
    lemma_tally_push(words(s), w, foreign_weight());
    lemma_tally_push(words(s), w, spoken_weight());
    lemma_tally_push(words(s), w, english_weight());
}

/// How many of the numbers below `n` satisfy `p`.
pub open spec fn count(n: nat, p: spec_fn(int) -> bool) -> nat
    decreases n,
{
    if n == 0 {
        0
    } else {
        count((n - 1) as nat, p) + if p(n - 1) {
            1nat
        } else {
            0nat
        }
    }
}

proof fn lemma_kept_is_count<A>(s: Seq<A>, p: spec_fn(A) -> bool, q: spec_fn(int) -> bool)
    requires
        forall|i: int| 0 <= i < s.len() ==> #[trigger] q(i) == p(s[i]),
    ensures
        s.filter(p).len() == count(s.len(), q),
    decreases s.len(),
{
    reveal(Seq::filter);
    if s.len() > 0 {
        let before = s.drop_last();
        assert forall|i: int| 0 <= i < before.len() implies #[trigger] q(i) == p(before[i]) by {
            assert(before[i] == s[i]);
        }
        lemma_kept_is_count(before, p, q);
        assert(q(s.len() - 1) == p(s.last()));
    }
}

proof fn lemma_tally_is_count(
    ws: Seq<Seq<char>>,
    weight: spec_fn(Seq<char>) -> nat,
    q: spec_fn(int) -> bool,
)
    requires
        forall|i: int|
            0 <= i < ws.len() ==> weight(ws[i]) == if #[trigger] q(i) {
                1nat
            } else {
                0nat
            },
    ensures
        tally(ws, weight) == count(ws.len(), q),
    decreases ws.len(),
{
    if ws.len() > 0 {
        let before = ws.drop_last();
        assert forall|i: int| 0 <= i < before.len() implies weight(before[i]) == if #[trigger] q(i) {
            1nat
        } else {
            0nat
        } by {
            assert(before[i] == ws[i]);
        }
        lemma_tally_is_count(before, weight, q);
        assert(q(ws.len() - 1) || !q(ws.len() - 1));
    }
}

/// In lower case the word, or a part of it between apostrophes, is a stop word.
pub open spec fn names_stop_word(w: Seq<char>) -> bool {
    ||| stop_word(unicode_lowercase(w))
    ||| exists|k: int|
        0 <= k < pieces(unicode_lowercase(w), '\'').len() && stop_word(
            #[trigger] pieces(unicode_lowercase(w), '\'')[k],
        )
}

/// The verdict by counting. Of the characters that are not whitespace at most 15
/// in a hundred are anything but visible ASCII; and of the words, which are
/// those with a letter in them, there are fewer than three, or more than one in
/// four names a stop word.
pub proof fn law_the_verdict_by_counting(s: Seq<char>)
    ensures
        ({
            let ws = words(s);
            let visible = count(s.len(), |i: int| !unicode_whitespace(s[i]));
            let foreign = count(
                s.len(),
                |i: int| !unicode_whitespace(s[i]) && !('!' <= s[i] && s[i] <= '~'),
            );
            let spoken = count(ws.len(), |i: int| letters_core(ws[i]).len() > 0);
            let english = count(
                ws.len(),
                |i: int| letters_core(ws[i]).len() > 0 && names_stop_word(letters_core(ws[i])),
            );
            likely_english(s) <==> 100 * foreign <= 15 * visible && (spoken < 3 || 4 * english
                > spoken)
        }),
{
    let ws = words(s);
    lemma_verdict(s);
    lemma_text_counts(s);
    lemma_kept_is_count(
        s,
        |c: char| !unicode_whitespace(c),
        |i: int| !unicode_whitespace(s[i]),
    );
    lemma_kept_is_count(
        s,
        |c: char| foreign_character(c),
        |i: int| !unicode_whitespace(s[i]) && !('!' <= s[i] && s[i] <= '~'),
    );
    lemma_tally_is_count(ws, spoken_weight(), |i: int| letters_core(ws[i]).len() > 0);
    assert(forall|w: Seq<char>| #[trigger] english_word(w) == names_stop_word(w));
    lemma_tally_is_count(
        ws,
        english_weight(),
        |i: int| letters_core(ws[i]).len() > 0 && names_stop_word(letters_core(ws[i])),
    );
}

proof fn lemma_counted(n: nat, p: spec_fn(int) -> bool, i: int)
    requires
        0 <= i < n,
        p(i),
    ensures
        count(n, p) >= 1 + count(i as nat, p),
    decreases n,
{
    if i < n - 1 {
        lemma_counted((n - 1) as nat, p, i);
    }
}

proof fn lemma_none_counted(n: nat, p: spec_fn(int) -> bool)
    requires
        forall|i: int| 0 <= i < n ==> !#[trigger] p(i),
    ensures
        count(n, p) == 0,
    decreases n,
{
    if n > 0 {
        lemma_none_counted((n - 1) as nat, p);
        assert(!p(n - 1));
    }
}

/// A text of three words or more is not taken for English where none of its
/// words names a stop word.
pub proof fn law_text_without_stop_words_is_not_english(s: Seq<char>, i: int, j: int, k: int)
    requires
        0 <= i < j < k < words(s).len(),
        letters_core(words(s)[i]).len() > 0,
        letters_core(words(s)[j]).len() > 0,
        letters_core(words(s)[k]).len() > 0,
        forall|n: int| 0 <= n < words(s).len() ==> !names_stop_word(letters_core(#[trigger] words(s)[n])),
    ensures
        !likely_english(s),
{
    let ws = words(s);
    let spoken = |i: int| letters_core(ws[i]).len() > 0;
    let english = |i: int| letters_core(ws[i]).len() > 0 && names_stop_word(letters_core(ws[i]));
    law_the_verdict_by_counting(s);
    lemma_counted(ws.len(), spoken, k);
    lemma_counted(k as nat, spoken, j);
    lemma_counted(j as nat, spoken, i);
    lemma_none_counted(ws.len(), english);
}

/// The stop words.
pub open spec fn stop_words() -> Seq<Seq<char>> {
    seq![
        "the"@,
        "is"@,
        "are"@,
        "was"@,
        "were"@,
        "am"@,
        "be"@,
        "been"@,
        "being"@,
        "have"@,
        "has"@,
        "had"@,
        "do"@,
        "does"@,
        "did"@,
        "this"@,
        "that"@,
        "these"@,
        "those"@,
        "not"@,
        "but"@,
        "and"@,
        "or"@,
        "if"@,
        "so"@,
        "they"@,
        "them"@,
        "their"@,
        "he"@,
        "she"@,
        "it"@,
        "we"@,
        "you"@,
        "i"@,
        "would"@,
        "could"@,
        "should"@,
        "will"@,
        "shall"@,
        "may"@,
        "might"@,
        "can"@,
        "which"@,
        "what"@,
        "where"@,
        "when"@,
        "who"@,
        "how"@,
        "there"@,
        "here"@,
        "very"@,
        "just"@,
        "also"@,
        "some"@,
        "any"@,
        "my"@,
        "your"@,
        "his"@,
        "her"@,
        "its"@,
        "our"@,
        "a"@,
        "an"@,
        "of"@,
        "in"@,
        "to"@,
        "for"@,
        "on"@,
        "with"@,
        "at"@,
        "by"@,
        "from"@,
        "hello"@,
        "now"@,
        "about"@,
        "out"@,
        "up"@,
        "because"@,
        "going"@,
        "thing"@,
        "know"@,
        "want"@,
        "think"@,
        "getting"@,
        "actually"@,
        "really"@,
    ]
}

/// A word is a stop word exactly if it is one of these.
pub proof fn law_there_are_no_other_stop_words(w: Seq<char>)
    ensures
        stop_word(w) <==> stop_words().contains(w),
{
    assert(stop_words()[0] == "the"@);
    assert(stop_words()[1] == "is"@);
    assert(stop_words()[2] == "are"@);
    assert(stop_words()[3] == "was"@);
    assert(stop_words()[4] == "were"@);
    assert(stop_words()[5] == "am"@);
    assert(stop_words()[6] == "be"@);
    assert(stop_words()[7] == "been"@);
    assert(stop_words()[8] == "being"@);
    assert(stop_words()[9] == "have"@);
    assert(stop_words()[10] == "has"@);
    assert(stop_words()[11] == "had"@);
    assert(stop_words()[12] == "do"@);
    assert(stop_words()[13] == "does"@);
    assert(stop_words()[14] == "did"@);
    assert(stop_words()[15] == "this"@);
    assert(stop_words()[16] == "that"@);
    assert(stop_words()[17] == "these"@);
    assert(stop_words()[18] == "those"@);
    assert(stop_words()[19] == "not"@);
    assert(stop_words()[20] == "but"@);
    assert(stop_words()[21] == "and"@);
    assert(stop_words()[22] == "or"@);
    assert(stop_words()[23] == "if"@);
    assert(stop_words()[24] == "so"@);
    assert(stop_words()[25] == "they"@);
    assert(stop_words()[26] == "them"@);
    assert(stop_words()[27] == "their"@);
    assert(stop_words()[28] == "he"@);
    assert(stop_words()[29] == "she"@);
    assert(stop_words()[30] == "it"@);
    assert(stop_words()[31] == "we"@);
    assert(stop_words()[32] == "you"@);
    assert(stop_words()[33] == "i"@);
    assert(stop_words()[34] == "would"@);
    assert(stop_words()[35] == "could"@);
    assert(stop_words()[36] == "should"@);
    assert(stop_words()[37] == "will"@);
    assert(stop_words()[38] == "shall"@);
    assert(stop_words()[39] == "may"@);
    assert(stop_words()[40] == "might"@);
    assert(stop_words()[41] == "can"@);
    assert(stop_words()[42] == "which"@);
    assert(stop_words()[43] == "what"@);
    assert(stop_words()[44] == "where"@);
    assert(stop_words()[45] == "when"@);
    assert(stop_words()[46] == "who"@);
    assert(stop_words()[47] == "how"@);
    assert(stop_words()[48] == "there"@);
    assert(stop_words()[49] == "here"@);
    assert(stop_words()[50] == "very"@);
    assert(stop_words()[51] == "just"@);
    assert(stop_words()[52] == "also"@);
    assert(stop_words()[53] == "some"@);
    assert(stop_words()[54] == "any"@);
    assert(stop_words()[55] == "my"@);
    assert(stop_words()[56] == "your"@);
    assert(stop_words()[57] == "his"@);
    assert(stop_words()[58] == "her"@);
    assert(stop_words()[59] == "its"@);
    assert(stop_words()[60] == "our"@);
    assert(stop_words()[61] == "a"@);
    assert(stop_words()[62] == "an"@);
    assert(stop_words()[63] == "of"@);
    assert(stop_words()[64] == "in"@);
    assert(stop_words()[65] == "to"@);
    assert(stop_words()[66] == "for"@);
    assert(stop_words()[67] == "on"@);
    assert(stop_words()[68] == "with"@);
    assert(stop_words()[69] == "at"@);
    assert(stop_words()[70] == "by"@);
    assert(stop_words()[71] == "from"@);
    assert(stop_words()[72] == "hello"@);
    assert(stop_words()[73] == "now"@);
    assert(stop_words()[74] == "about"@);
    assert(stop_words()[75] == "out"@);
    assert(stop_words()[76] == "up"@);
    assert(stop_words()[77] == "because"@);
    assert(stop_words()[78] == "going"@);
    assert(stop_words()[79] == "thing"@);
    assert(stop_words()[80] == "know"@);
    assert(stop_words()[81] == "want"@);
    assert(stop_words()[82] == "think"@);
    assert(stop_words()[83] == "getting"@);
    assert(stop_words()[84] == "actually"@);
    assert(stop_words()[85] == "really"@);
}

} // verus!
