//! Splitting text at white space.

use vstd::prelude::*;
use vstd::string::StrSliceExecFns;

verus! {

/// Whether `c` has the Unicode property `White_Space`.
pub open spec fn is_space(c: char) -> bool {
    let point = c as u32;
    ||| 0x09 <= point <= 0x0D
    ||| point == 0x20
    ||| point == 0x85
    ||| point == 0xA0
    ||| point == 0x1680
    ||| 0x2000 <= point <= 0x200A
    ||| point == 0x2028
    ||| point == 0x2029
    ||| point == 0x202F
    ||| point == 0x205F
    ||| point == 0x3000
}

/// Decides [`is_space`].
pub fn is_whitespace(c: char) -> (space: bool)
    ensures
        space == is_space(c),
{
    let point = c as u32;
    (0x09 <= point && point <= 0x0D) || point == 0x20 || point == 0x85 || point == 0xA0 || point
        == 0x1680 || (0x2000 <= point && point <= 0x200A) || point == 0x2028 || point == 0x2029
        || point == 0x202F || point == 0x205F || point == 0x3000
}

/// The words of `rest`, read after a run `word` of characters that are not
/// white space and that no white space has closed yet.
pub open spec fn words_after(word: Seq<char>, rest: Seq<char>) -> Seq<Seq<char>>
    decreases rest.len(),
{
    let closed = if word.len() > 0 {
        seq![word]
    } else {
        seq![]
    };
    if rest.len() == 0 {
        closed
    } else if is_space(rest[0]) {
        closed + words_after(seq![], rest.drop_first())
    } else {
        words_after(word.push(rest[0]), rest.drop_first())
    }
}

/// The words of `text`: its maximal runs of characters that are not white
/// space, in order. Text of white space alone has none.
pub open spec fn words(text: Seq<char>) -> Seq<Seq<char>> {
    words_after(seq![], text)
}

/// Whether no character of `run` is white space.
pub open spec fn is_solid(run: Seq<char>) -> bool {
    forall|i: int| 0 <= i < run.len() ==> !is_space(#[trigger] run[i])
}

/// Whether every character of `gap` is white space.
pub open spec fn is_blank(gap: Seq<char>) -> bool {
    forall|i: int| 0 <= i < gap.len() ==> is_space(#[trigger] gap[i])
}

/// Reading on through characters that are not white space only lengthens
/// the word that is open.
pub proof fn lemma_words_after_run(word: Seq<char>, run: Seq<char>, rest: Seq<char>)
    requires
        is_solid(run),
    ensures
        words_after(word, run + rest) == words_after(word + run, rest),
    decreases run.len(),
{
    if run.len() == 0 {
        assert(run + rest =~= rest);
        assert(word + run =~= word);
    } else {
        assert((run + rest)[0] == run[0]);
        assert(!is_space(run[0]));
        assert((run + rest).drop_first() =~= run.drop_first() + rest);
        assert forall|i: int| 0 <= i < run.drop_first().len() implies !is_space(
            #[trigger] run.drop_first()[i],
        ) by {
            assert(run.drop_first()[i] == run[i + 1]);
        }
        lemma_words_after_run(word.push(run[0]), run.drop_first(), rest);
        assert(word.push(run[0]) + run.drop_first() =~= word + run);
    }
}

/// Reading on through white space closes the word that is open, if there is
/// one, and opens none.
pub proof fn lemma_words_after_gap(word: Seq<char>, gap: Seq<char>, rest: Seq<char>)
    requires
        is_blank(gap),
        gap.len() > 0,
    ensures
        words_after(word, gap + rest) == if word.len() > 0 {
            seq![word] + words_after(seq![], rest)
        } else {
            words_after(seq![], rest)
        },
    decreases gap.len(),
{
    let empty = Seq::<char>::empty();
    assert((gap + rest)[0] == gap[0]);
    assert(is_space(gap[0]));
    assert((gap + rest).drop_first() =~= gap.drop_first() + rest);
    if gap.len() == 1 {
        assert(gap.drop_first() + rest =~= rest);
    } else {
        assert forall|i: int| 0 <= i < gap.drop_first().len() implies is_space(
            #[trigger] gap.drop_first()[i],
        ) by {
            assert(gap.drop_first()[i] == gap[i + 1]);
        }
        lemma_words_after_gap(empty, gap.drop_first(), rest);
    }
    assert(Seq::<Seq<char>>::empty() + words_after(empty, rest) =~= words_after(empty, rest));
}

/// Text without white space is one word, and empty text is none.
pub proof fn lemma_words_of_run(run: Seq<char>)
    requires
        is_solid(run),
    ensures
        words(run) == if run.len() > 0 {
            seq![run]
        } else {
            Seq::<Seq<char>>::empty()
        },
{
    let empty = Seq::<char>::empty();
    lemma_words_after_run(empty, run, empty);
    assert(run + empty =~= run);
    assert(empty + run =~= run);
}

/// Two runs without white space, parted by white space, are two words.
pub proof fn lemma_words_of_pair(first: Seq<char>, gap: Seq<char>, second: Seq<char>)
    requires
        is_solid(first),
        first.len() > 0,
        is_blank(gap),
        gap.len() > 0,
        is_solid(second),
        second.len() > 0,
    ensures
        words(first + gap + second) == seq![first, second],
{
    let empty = Seq::<char>::empty();
    assert(first + gap + second =~= first + (gap + second));
    lemma_words_after_run(empty, first, gap + second);
    assert(empty + first =~= first);
    lemma_words_after_gap(first, gap, second);
    lemma_words_of_run(second);
    assert(seq![first] + seq![second] =~= seq![first, second]);
}

/// Splits `text` at white space, as `str::split_whitespace` does, and hands
/// the words out as owned strings.
pub fn split_whitespace(text: &str) -> (found: Vec<String>)
    ensures
        found.deep_view() == words(text@),
{
    let mut found: Vec<String> = Vec::new();
    let total = text.unicode_len();
    let mut start: usize = 0;
    let mut at: usize = 0;
    assert(text@.subrange(0, 0) =~= seq![]);
    assert(text@.skip(0) =~= text@);
    assert(found.deep_view() =~= seq![]);
    for c in it: text.chars()
        invariant
            it.seq() == text@,
            total == text@.len(),
            at == it.index(),
            start <= at <= total,
            words(text@) == found.deep_view() + words_after(
                text@.subrange(start as int, at as int),
                text@.skip(at as int),
            ),
    {
        let ghost word = text@.subrange(start as int, at as int);
        let ghost rest = text@.skip(at as int);
        let ghost before = found.deep_view();
        assert(rest.len() > 0 && rest[0] == c);
        assert(rest.drop_first() =~= text@.skip(at + 1));
        if is_whitespace(c) {
            if start < at {
                found.push(String::from_str(text.substring_char(start, at)));
                assert(found.deep_view() =~= before + seq![word]);
            }
            start = at + 1;
            assert(text@.subrange(start as int, at + 1) =~= seq![]);
        } else {
            assert(text@.subrange(start as int, at + 1) =~= word.push(c));
        }
        at += 1;
    }
    let ghost before = found.deep_view();
    assert(text@.skip(at as int).len() == 0);
    if start < at {
        found.push(String::from_str(text.substring_char(start, at)));
        assert(found.deep_view() =~= before + seq![text@.subrange(start as int, at as int)]);
    }
    found
}

} // verus!
