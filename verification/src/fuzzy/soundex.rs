//! A phonetic code for words: one upper-case letter and three digits, the
//! same for words that sound alike ("stewart" and "stuart").
//!
//! The code is computed in two passes. The first replaces every consonant
//! after the leading letter by the digit of its class and leaves out a
//! consonant whose class the symbol before it already stands for. The second
//! leaves out an `H` or `W` that stands between two equal symbols, and the
//! second of two equal digits with it, so that the two letters do not
//! separate two consonants of one class, while a vowel does. The digits that
//! remain, cut or padded with zeros to three, follow the leading letter.
//!
//! A word is meant to consist of ASCII letters. Any other character is taken
//! as it is: it has no class, it stands where a letter would, and a decimal
//! digit among them counts as a digit of the code. The empty word has no
//! code.

use crate::fuzzy::laws::{lemma_code_shape, lemma_reduce_len};
use vstd::prelude::*;

verus! {

/// The ASCII upper-case form of a character. Only `a` to `z` change.
pub open spec fn to_upper(c: char) -> char {
    if 'a' <= c && c <= 'z' {
        ((c as u8) - 32) as char
    } else {
        c
    }
}

/// The class, 1 to 6, of a consonant, in either case. Vowels, `H`, `W` and
/// everything that is no ASCII letter have none.
pub open spec fn consonant_class(c: char) -> Option<u8> {
    let u = to_upper(c);
    if u == 'B' || u == 'F' || u == 'P' || u == 'V' {
        Some(1u8)
    } else if u == 'C' || u == 'G' || u == 'J' || u == 'K' || u == 'Q' || u == 'S' || u == 'X'
        || u == 'Z' {
        Some(2u8)
    } else if u == 'D' || u == 'T' {
        Some(3u8)
    } else if u == 'L' {
        Some(4u8)
    } else if u == 'M' || u == 'N' {
        Some(5u8)
    } else if u == 'R' {
        Some(6u8)
    } else {
        None
    }
}

/// The digit character that a class is written as.
pub open spec fn class_digit(class: u8) -> char
    recommends
        1 <= class <= 6,
{
    (48 + class) as char
}

/// Whether a symbol of the intermediate sequence stands for a class: it is
/// the digit of the class, or (the leading letter) a consonant of the class.
pub open spec fn stands_for(symbol: char, class: u8) -> bool {
    symbol == class_digit(class) || consonant_class(symbol) == Some(class)
}

/// A vowel, in upper case. `Y` counts as one.
pub open spec fn is_vowel(c: char) -> bool {
    c == 'A' || c == 'E' || c == 'I' || c == 'O' || c == 'U' || c == 'Y'
}

/// `H` and `W`, the letters that do not keep two consonants of one class apart.
pub open spec fn is_soft_separator(c: char) -> bool {
    c == 'H' || c == 'W'
}

/// An ASCII decimal digit.
pub open spec fn is_digit(c: char) -> bool {
    '0' <= c && c <= '9'
}

/// The first pass, one character on: `mid` is the intermediate sequence so
/// far, which is not empty, and `c` the next character of the word.
pub open spec fn reduce_step(mid: Seq<char>, c: char) -> Seq<char>
    recommends
        mid.len() > 0,
{
    match consonant_class(c) {
        Some(class) => if stands_for(mid.last(), class) {
            mid
        } else {
            mid.push(class_digit(class))
        },
        None => mid.push(to_upper(c)),
    }
}

/// The intermediate sequence of a word: its leading character in upper
/// case, then what the first pass makes of the others from left to right.
pub open spec fn reduce(word: Seq<char>) -> Seq<char>
    decreases word.len(),
{
    if word.len() == 0 {
        Seq::empty()
    } else if word.len() == 1 {
        seq![to_upper(word[0])]
    } else {
        reduce_step(reduce(word.drop_last()), word.last())
    }
}

/// The digit of a class, `1` to `6`.
pub open spec fn is_class_digit(c: char) -> bool {
    '1' <= c && c <= '6'
}

/// Whether the last retained symbol is an `H` or `W` between two equal
/// symbols: the one retained before it, and the one that comes next.
pub open spec fn is_flanked(kept: Seq<char>, next: char) -> bool {
    kept.len() >= 2 && is_soft_separator(kept[kept.len() - 1]) && kept[kept.len() - 2] == next
}

/// The second pass, one symbol on: `kept` is what has been retained so far.
/// An `H` or `W` between two equal symbols is left out, and if the two are
/// the digit of a class, the second of them is left out as a repetition.
/// Every other symbol is retained: a vowel, an `H` or `W` between two
/// symbols that differ, and the rest.
pub open spec fn retain_step(kept: Seq<char>, symbol: char) -> Seq<char> {
    if !is_flanked(kept, symbol) {
        kept.push(symbol)
    } else if is_class_digit(symbol) {
        kept.drop_last()
    } else {
        kept.drop_last().push(symbol)
    }
}

/// What the second pass retains of a sequence of symbols, from left to right.
pub open spec fn retain(symbols: Seq<char>) -> Seq<char>
    decreases symbols.len(),
{
    if symbols.len() == 0 {
        Seq::empty()
    } else {
        retain_step(retain(symbols.drop_last()), symbols.last())
    }
}

/// The digits of a word: those that the second pass retains of its
/// intermediate sequence without the leading character.
pub open spec fn digits_of(word: Seq<char>) -> Seq<char> {
    retain(reduce(word).skip(1)).filter(|c: char| is_digit(c))
}

/// The first three of the digits, with zeros where there are fewer.
pub open spec fn pad3(digits: Seq<char>) -> Seq<char> {
    Seq::new(
        3,
        |i: int|
            if i < digits.len() {
                digits[i]
            } else {
                '0'
            },
    )
}

/// The phonetic code of a word that is not empty.
pub open spec fn soundex(word: Seq<char>) -> Seq<char>
    recommends
        word.len() > 0,
{
    seq![to_upper(word[0])] + pad3(digits_of(word))
}

/// Two words are the same but for the case of their ASCII letters.
pub open spec fn same_ignoring_case(a: Seq<char>, b: Seq<char>) -> bool {
    &&& a.len() == b.len()
    &&& forall|i: int| 0 <= i < a.len() ==> to_upper(#[trigger] a[i]) == to_upper(b[i])
}

/// The ASCII upper-case form of `c`.
pub fn upper(c: char) -> (u: char)
    ensures
        u == to_upper(c),
{
    if 'a' <= c && c <= 'z' {
        ((c as u8) - 32) as char
    } else {
        c
    }
}

/// The class of `c`, where it is a consonant that has one.
pub fn classify(c: char) -> (class: Option<u8>)
    ensures
        class == consonant_class(c),
        class matches Some(k) ==> 1 <= k <= 6,
{
    match upper(c) {
        'B' | 'F' | 'P' | 'V' => Some(1),
        'C' | 'G' | 'J' | 'K' | 'Q' | 'S' | 'X' | 'Z' => Some(2),
        'D' | 'T' => Some(3),
        'L' => Some(4),
        'M' | 'N' => Some(5),
        'R' => Some(6),
        _ => None,
    }
}

/// The first pass over `word`.
fn reduce_letters(word: &str) -> (mid: Vec<char>)
    ensures
        mid@ == reduce(word@),
{
    let mut mid: Vec<char> = Vec::new();
    for c in it: word.chars()
        invariant
            it.seq() == word@,
            mid@ == reduce(word@.take(it.index())),
    {
        proof {
            let before = word@.take(it.index());
            let now = word@.take(it.index() + 1);
            assert(now.drop_last() == before);
            lemma_reduce_len(before);
        }
        if mid.len() == 0 {
            mid.push(upper(c));
        } else {
            match classify(c) {
                Some(class) => {
                    let previous = mid[mid.len() - 1];
                    let digit = (48 + class) as char;
                    if !(previous == digit || classify(previous) == Some(class)) {
                        mid.push(digit);
                    }
                },
                None => {
                    mid.push(upper(c));
                },
            }
        }
    }
    proof {
        assert(word@.take(word@.len() as int) == word@);
    }
    mid
}

/// The second pass over the intermediate sequence `mid`, and the digits of
/// what it retains.
fn retained_digits(mid: &Vec<char>) -> (digits: Vec<char>)
    requires
        mid@.len() > 0,
    ensures
        digits@ == retain(mid@.skip(1)).filter(|c: char| is_digit(c)),
{
    let ghost symbols = mid@.skip(1);
    let mut kept: Vec<char> = Vec::new();
    let mut i: usize = 1;
    while i < mid.len()
        invariant
            1 <= i <= mid@.len(),
            symbols == mid@.skip(1),
            kept@ == retain(symbols.take(i - 1)),
        decreases mid@.len() - i,
    {
        let symbol = mid[i];
        proof {
            let now = symbols.take(i as int);
            assert(now.drop_last() == symbols.take(i - 1));
        }
        let count = kept.len();
        let flanked = count >= 2 && (kept[count - 1] == 'H' || kept[count - 1] == 'W')
            && kept[count - 2] == symbol;
        if flanked {
            kept.pop();
        }
        if !flanked || !('1' <= symbol && symbol <= '6') {
            kept.push(symbol);
        }
        i += 1;
    }
    proof {
        assert(symbols.take(symbols.len() as int) == symbols);
    }
    let ghost digit = |c: char| is_digit(c);
    let mut digits: Vec<char> = Vec::new();
    let mut j: usize = 0;
    proof {
        reveal(Seq::filter);
    }
    while j < kept.len()
        invariant
            j <= kept@.len(),
            digit == (|c: char| is_digit(c)),
            digits@ == kept@.take(j as int).filter(digit),
        decreases kept@.len() - j,
    {
        let symbol = kept[j];
        proof {
            assert(kept@.take(j + 1) == kept@.take(j as int).push(symbol));
            kept@.take(j as int).lemma_filter_push(symbol, digit);
        }
        if '0' <= symbol && symbol <= '9' {
            digits.push(symbol);
        }
        j += 1;
    }
    proof {
        assert(kept@.take(kept@.len() as int) == kept@);
    }
    digits
}

/// The phonetic code of `word`, or `None` for the empty word, which has no
/// code.
pub fn try_phoneme_encode(word: &str) -> (code: Option<String>)
    ensures
        code is None <==> word@.len() == 0,
        code matches Some(c) ==> c@ == soundex(word@),
{
    let mid = reduce_letters(word);
    proof {
        lemma_reduce_len(word@);
    }
    if mid.len() == 0 {
        return None;
    }
    let digits = retained_digits(&mid);
    let first = if digits.len() > 0 {
        digits[0]
    } else {
        '0'
    };
    let second = if digits.len() > 1 {
        digits[1]
    } else {
        '0'
    };
    let third = if digits.len() > 2 {
        digits[2]
    } else {
        '0'
    };
    let mut code = String::new();
    code.push(mid[0]);
    code.push(first);
    code.push(second);
    code.push(third);
    Some(code)
}

/// The phonetic code of `word`: its leading letter in upper case, followed by
/// three digits. The code depends on the characters of the word alone, so
/// that two calls on one word return the same code.
///
/// The word must not be empty. A caller that cannot promise this uses
/// [`try_phoneme_encode`]; one that breaks the promise outside verified code
/// gets the empty string.
pub fn phoneme_encode(word: &str) -> (code: String)
    requires
        word@.len() > 0,
    ensures
        code@ == soundex(word@),
        code@.len() == 4,
        code@[0] == to_upper(word@[0]),
        forall|i: int| 1 <= i < 4 ==> is_digit(#[trigger] code@[i]),
{
    proof {
        lemma_code_shape(word@);
    }
    match try_phoneme_encode(word) {
        Some(code) => code,
        None => String::new(),
    }
}

} // verus!
