//! What holds of the phonetic code of every word.

use crate::fuzzy::soundex::{
    class_digit, consonant_class, digits_of, is_class_digit, is_digit, is_flanked,
    is_soft_separator, is_vowel, reduce, reduce_step, retain, retain_step, same_ignoring_case,
    soundex, to_upper,
};
use vstd::prelude::*;

verus! {

/// The intermediate sequence has a symbol for the leading character and at
/// most one for each of the others.
pub proof fn lemma_reduce_len(word: Seq<char>)
    ensures
        reduce(word).len() <= word.len(),
        word.len() > 0 ==> reduce(word).len() >= 1 && reduce(word)[0] == to_upper(word[0]),
    decreases word.len(),
{
    if word.len() > 1 {
        lemma_reduce_len(word.drop_last());
    }
}

/// A code has four characters: the leading character of the word in upper
/// case, then three decimal digits.
pub proof fn lemma_code_shape(word: Seq<char>)
    requires
        word.len() > 0,
    ensures
        soundex(word).len() == 4,
        soundex(word)[0] == to_upper(word[0]),
        forall|i: int| 1 <= i < 4 ==> is_digit(#[trigger] soundex(word)[i]),
{
    let digit = |c: char| is_digit(c);
    let kept = retain(reduce(word).skip(1));
    let digits = kept.filter(digit);
    assert forall|i: int| 1 <= i < 4 implies is_digit(#[trigger] soundex(word)[i]) by {
        if i - 1 < digits.len() {
            kept.lemma_filter_pred(digit, i - 1);
        }
    }
}

/// The first pass does not see the case of a letter.
proof fn lemma_reduce_ignores_case(a: Seq<char>, b: Seq<char>)
    requires
        same_ignoring_case(a, b),
    ensures
        reduce(a) == reduce(b),
    decreases a.len(),
{
    if a.len() > 1 {
        assert(same_ignoring_case(a.drop_last(), b.drop_last())) by {
            assert forall|i: int| 0 <= i < a.len() - 1 implies to_upper(
                #[trigger] a.drop_last()[i],
            ) == to_upper(b.drop_last()[i]) by {
                assert(a.drop_last()[i] == a[i]);
            }
        }
        lemma_reduce_ignores_case(a.drop_last(), b.drop_last());
    }
}

/// Words that are the same but for the case of their ASCII letters, and so
/// any two equal words, have the same code.
pub proof fn lemma_same_letters_same_code(a: Seq<char>, b: Seq<char>)
    requires
        a.len() > 0,
        same_ignoring_case(a, b),
    ensures
        soundex(a) == soundex(b),
{
    lemma_reduce_ignores_case(a, b);
}

/// The second pass brings in no digit: if no symbol is one, none is retained.
proof fn lemma_retain_no_digit(symbols: Seq<char>)
    requires
        forall|i: int| 0 <= i < symbols.len() ==> !is_digit(#[trigger] symbols[i]),
    ensures
        forall|i: int|
            0 <= i < retain(symbols).len() ==> !is_digit(#[trigger] retain(symbols)[i]),
    decreases symbols.len(),
{
    if symbols.len() > 0 {
        let kept = retain(symbols.drop_last());
        assert forall|i: int| 0 <= i < symbols.len() - 1 implies !is_digit(
            #[trigger] symbols.drop_last()[i],
        ) by {
            assert(symbols.drop_last()[i] == symbols[i]);
        }
        lemma_retain_no_digit(symbols.drop_last());
        assert forall|i: int| 0 <= i < retain(symbols).len() implies !is_digit(
            #[trigger] retain(symbols)[i],
        ) by {
            assert(i < kept.len() && retain(symbols)[i] == kept[i] || retain(symbols)[i]
                == symbols.last());
        }
    }
}

/// Where no character after the leading one is a consonant with a class or
/// a digit, no symbol after the leading one is a digit.
proof fn lemma_reduce_no_digit(word: Seq<char>)
    requires
        forall|i: int|
            1 <= i < word.len() ==> consonant_class(#[trigger] word[i]) is None && !is_digit(
                word[i],
            ),
    ensures
        forall|i: int| 1 <= i < reduce(word).len() ==> !is_digit(#[trigger] reduce(word)[i]),
    decreases word.len(),
{
    if word.len() > 1 {
        let mid = reduce(word.drop_last());
        assert forall|i: int| 1 <= i < word.len() - 1 implies consonant_class(
            #[trigger] word.drop_last()[i],
        ) is None && !is_digit(word.drop_last()[i]) by {
            assert(word.drop_last()[i] == word[i]);
        }
        lemma_reduce_no_digit(word.drop_last());
        assert(reduce(word) == mid.push(to_upper(word.last())));
    }
}

/// A word in which no character after the leading one is a consonant with a
/// class or a digit has three zeros behind its leading letter.
pub proof fn lemma_no_consonant_no_digit(word: Seq<char>)
    requires
        word.len() > 0,
        forall|i: int|
            1 <= i < word.len() ==> consonant_class(#[trigger] word[i]) is None && !is_digit(
                word[i],
            ),
    ensures
        soundex(word) == seq![to_upper(word[0]), '0', '0', '0'],
{
    let digit = |c: char| is_digit(c);
    let symbols = reduce(word).skip(1);
    lemma_reduce_no_digit(word);
    assert forall|i: int| 0 <= i < symbols.len() implies !is_digit(#[trigger] symbols[i]) by {
        assert(symbols[i] == reduce(word)[i + 1]);
    }
    lemma_retain_no_digit(symbols);
    retain(symbols).lemma_all_neg_filter_empty(digit);
}

/// A word of one letter has three zeros behind that letter.
pub proof fn lemma_single_letter(letter: char)
    ensures
        soundex(seq![letter]) == seq![to_upper(letter), '0', '0', '0'],
{
    lemma_no_consonant_no_digit(seq![letter]);
}

/// A word of vowels alone has three zeros behind its leading vowel.
pub proof fn lemma_vowels_only(word: Seq<char>)
    requires
        word.len() > 0,
        forall|i: int| 0 <= i < word.len() ==> is_vowel(to_upper(#[trigger] word[i])),
    ensures
        soundex(word) == seq![to_upper(word[0]), '0', '0', '0'],
{
    assert forall|i: int| 1 <= i < word.len() implies consonant_class(#[trigger] word[i])
        is None && !is_digit(word[i]) by {
        assert(is_vowel(to_upper(word[i])));
    }
    lemma_no_consonant_no_digit(word);
}

/// What the two passes make of a word that is one character longer: the
/// first pass goes one step on, and where it emits a symbol, so does the
/// second.
proof fn lemma_one_more(word: Seq<char>, c: char)
    requires
        word.len() > 0,
    ensures
        reduce(word.push(c)) == reduce_step(reduce(word), c),
        forall|symbol: char|
            reduce(word.push(c)) == reduce(word).push(symbol) ==> retain(
                reduce(word.push(c)).skip(1),
            ) == retain_step(retain(reduce(word).skip(1)), symbol),
{
    let longer = word.push(c);
    assert(longer.drop_last() == word);
    lemma_reduce_len(word);
    let mid = reduce(word);
    assert forall|symbol: char| reduce(longer) == mid.push(symbol) implies retain(
        reduce(longer).skip(1),
    ) == retain_step(retain(mid.skip(1)), symbol) by {
        let tail = mid.push(symbol).skip(1);
        assert(tail.drop_last() == mid.skip(1));
    }
}

/// The digits of a word begin with the digits of the word without its last
/// character, and have one more at most.
pub proof fn lemma_digits_grow(word: Seq<char>, c: char)
    requires
        word.len() > 0,
    ensures
        digits_of(word).is_prefix_of(digits_of(word.push(c))),
        digits_of(word.push(c)).len() <= digits_of(word).len() + 1,
{
    let digit = |c: char| is_digit(c);
    let mid = reduce(word);
    let kept = retain(mid.skip(1));
    lemma_one_more(word, c);
    if reduce(word.push(c)) != mid {
        let symbol = reduce(word.push(c)).last();
        if is_flanked(kept, symbol) {
            assert(kept.drop_last().filter(digit) == kept.filter(digit)) by {
                reveal(Seq::filter);
            }
            kept.drop_last().lemma_filter_push(symbol, digit);
        } else {
            kept.lemma_filter_push(symbol, digit);
        }
    }
}

/// Once a word has three digits, what follows does not change its code.
pub proof fn lemma_three_digits_are_final(word: Seq<char>, c: char)
    requires
        word.len() > 0,
        digits_of(word).len() >= 3,
    ensures
        soundex(word.push(c)) == soundex(word),
{
    lemma_digits_grow(word, c);
}

/// Behind a vowel a consonant is never left out: the first pass emits its
/// digit, and the second pass retains it.
proof fn lemma_behind_a_vowel(word: Seq<char>, vowel: char, consonant: char)
    requires
        word.len() > 0,
        is_vowel(to_upper(vowel)),
        consonant_class(consonant) is Some,
    ensures
        reduce(word.push(vowel).push(consonant)) == reduce(word.push(vowel)).push(
            class_digit(consonant_class(consonant)->0),
        ),
        retain(reduce(word.push(vowel).push(consonant)).skip(1)) == retain(
            reduce(word.push(vowel)).skip(1),
        ).push(class_digit(consonant_class(consonant)->0)),
{
    let kept = retain(reduce(word.push(vowel)).skip(1));
    lemma_one_more(word, vowel);
    lemma_one_more(word.push(vowel), consonant);
    assert(kept.last() == to_upper(vowel));
}

/// A vowel keeps two consonants apart: a consonant that follows a vowel
/// adds the digit of its class to the digits of the word, whatever came
/// before the vowel.
pub proof fn lemma_vowel_separates(word: Seq<char>, vowel: char, consonant: char)
    requires
        word.len() > 0,
        is_vowel(to_upper(vowel)),
        consonant_class(consonant) is Some,
    ensures
        digits_of(word.push(vowel).push(consonant)) == digits_of(word.push(vowel)).push(
            class_digit(consonant_class(consonant)->0),
        ),
{
    let kept = retain(reduce(word.push(vowel)).skip(1));
    lemma_behind_a_vowel(word, vowel, consonant);
    kept.lemma_filter_push(class_digit(consonant_class(consonant)->0), |c: char| is_digit(c));
}

/// `H` and `W` do not keep two consonants of one class apart: behind a
/// vowel, a consonant, an `H` or `W`, and a second consonant of the class of
/// the first add one digit, not two.
pub proof fn lemma_soft_separator_joins(
    word: Seq<char>,
    vowel: char,
    first: char,
    separator: char,
    second: char,
)
    requires
        word.len() > 0,
        is_vowel(to_upper(vowel)),
        consonant_class(first) is Some,
        consonant_class(second) == consonant_class(first),
        is_soft_separator(to_upper(separator)),
    ensures
        digits_of(word.push(vowel).push(first).push(separator).push(second)) == digits_of(
            word.push(vowel).push(first),
        ),
        digits_of(word.push(vowel).push(first).push(separator).push(second)) == digits_of(
            word.push(vowel),
        ).push(class_digit(consonant_class(first)->0)),
{
    let s = to_upper(separator);
    let d = class_digit(consonant_class(first)->0);
    let two = word.push(vowel).push(first);
    let three = two.push(separator);
    let kept = retain(reduce(word.push(vowel)).skip(1));
    lemma_vowel_separates(word, vowel, first);
    lemma_behind_a_vowel(word, vowel, first);
    lemma_one_more(two, separator);
    assert(retain(reduce(three).skip(1)) == kept.push(d).push(s));
    lemma_one_more(three, second);
    assert(is_flanked(kept.push(d).push(s), d) && is_class_digit(d));
    assert(kept.push(d).push(s).drop_last() == kept.push(d));
}

} // verus!
