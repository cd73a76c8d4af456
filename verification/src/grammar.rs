//! Theorems about how a line is read: what a word of digits is worth,
//! what white space and a plus sign do, and what spoils a line.
use vstd::prelude::*;
use crate::input::{
    Reading, Word, all_digits, all_space, decimal, is_digit, is_space, numbers_of,
};

verus! {

/// A line of white space alone holds no number.
pub proof fn blank_line_holds_nothing(line: Seq<u8>)
    requires
        all_space(line),
    ensures
        Reading::of(line) == Reading::start(),
        numbers_of(line) == Some(Seq::<usize>::empty()),
    decreases line.len(),
{
    if line.len() > 0 {
        blank_line_holds_nothing(line.drop_last());
    }
}

/// A word of digits reads as the number that it spells in base ten,
/// provided that number fits a `usize`; one that does not fit spoils the
/// line.
pub proof fn digits_read_as_their_number(word: Seq<u8>)
    requires
        word.len() > 0,
        all_digits(word),
    ensures
        decimal(word) <= usize::MAX ==> Reading::of(word) == (Reading {
            numbers: Seq::empty(),
            word: Word::Number(decimal(word) as usize),
            failed: false,
        }),
        decimal(word) <= usize::MAX ==> numbers_of(word) == Some(seq![decimal(word) as usize]),
        decimal(word) > usize::MAX ==> Reading::of(word).failed,
        decimal(word) > usize::MAX ==> numbers_of(word) is None,
    decreases word.len(),
{
    let front = word.drop_last();
    assert(is_digit(word.last()));
    if front.len() == 0 {
        assert(Reading::of(front) == Reading::start());
        assert(decimal(front) == 0);
    } else {
        assert forall|i: int| 0 <= i < front.len() implies is_digit(#[trigger] front[i]) by {
            assert(front[i] == word[i]);
        }
        digits_read_as_their_number(front);
    }
    if decimal(word) <= usize::MAX {
        assert(Seq::<usize>::empty().push(decimal(word) as usize) =~= seq![
            decimal(word) as usize,
        ]);
    }
}

/// A plus sign in front of a word of digits changes nothing.
pub proof fn plus_sign_changes_nothing(word: Seq<u8>)
    requires
        word.len() > 0,
        all_digits(word),
    ensures
        Reading::of(seq![43u8] + word) == Reading::of(word),
        numbers_of(seq![43u8] + word) == numbers_of(word),
    decreases word.len(),
{
    let signed = seq![43u8] + word;
    let front = word.drop_last();
    assert(signed.drop_last() =~= seq![43u8] + front);
    assert(signed.last() == word.last());
    assert(is_digit(word.last()));
    if front.len() == 0 {
        assert(seq![43u8] + front =~= seq![43u8]);
        assert(seq![43u8].drop_last() =~= Seq::<u8>::empty());
        assert(Reading::of(Seq::<u8>::empty()) == Reading::start());
        assert(Reading::of(seq![43u8]) == Reading::start().fed(43));
        assert(Reading::of(front) == Reading::start());
    } else {
        assert forall|i: int| 0 <= i < front.len() implies is_digit(#[trigger] front[i]) by {
            assert(front[i] == word[i]);
        }
        plus_sign_changes_nothing(front);
    }
}

/// Once a word has spoiled a line, nothing that follows mends it.
pub proof fn spoiled_stays_spoiled(line: Seq<u8>, upto: int)
    requires
        0 <= upto <= line.len(),
        Reading::of(line.take(upto)).failed,
    ensures
        Reading::of(line).failed,
        numbers_of(line) is None,
    decreases line.len() - upto,
{
    if upto < line.len() {
        assert(line.take(upto + 1).drop_last() =~= line.take(upto));
        spoiled_stays_spoiled(line, upto + 1);
    } else {
        assert(line.take(upto) =~= line);
    }
}

/// A byte that is neither white space nor a digit nor a plus sign spoils
/// the line that holds it.
pub proof fn stray_byte_spoils_the_line(line: Seq<u8>, at: int)
    requires
        0 <= at < line.len(),
        !is_space(line[at]),
        !is_digit(line[at]),
        line[at] != 43,
    ensures
        numbers_of(line) is None,
{
    assert(line.take(at + 1).drop_last() =~= line.take(at));
    spoiled_stays_spoiled(line, at + 1);
}

/// What has been read up to a white space is kept, and what follows is
/// read as if the line began there.
pub proof fn reading_resumes_after_space(head: Seq<u8>, space: u8, rest: Seq<u8>)
    requires
        is_space(space),
    ensures
        Reading::of(head).fed(space).failed ==> Reading::of(head + seq![space] + rest).failed,
        !Reading::of(head).fed(space).failed ==> Reading::of(head + seq![space] + rest) == (Reading {
            numbers: Reading::of(head).fed(space).numbers + Reading::of(rest).numbers,
            ..Reading::of(rest)
        }),
    decreases rest.len(),
{
    let line = head + seq![space] + rest;
    let kept = Reading::of(head).fed(space);
    if rest.len() == 0 {
        assert(line.drop_last() =~= head);
        assert(line.last() == space);
        assert(kept.numbers + Reading::of(rest).numbers =~= kept.numbers);
    } else {
        assert(line.drop_last() =~= head + seq![space] + rest.drop_last());
        assert(line.last() == rest.last());
        reading_resumes_after_space(head, space, rest.drop_last());
        if !kept.failed {
            let before = Reading::of(rest.drop_last());
            match before.word {
                Word::Number(n) => {
                    assert((kept.numbers + before.numbers).push(n) =~= kept.numbers
                        + before.numbers.push(n));
                },
                _ => {},
            }
        }
    }
}

/// White space separates: a line made of two parts with a white space
/// between them holds the numbers of the first part and then those of the
/// second, and it is spoiled exactly if one of the parts is.
pub proof fn white_space_separates(head: Seq<u8>, space: u8, rest: Seq<u8>)
    requires
        is_space(space),
    ensures
        numbers_of(head + seq![space] + rest) == match (numbers_of(head), numbers_of(rest)) {
            (Some(first), Some(second)) => Some(first + second),
            _ => None::<Seq<usize>>,
        },
{
    reading_resumes_after_space(head, space, rest);
    let kept = Reading::of(head).fed(space);
    assert(kept == Reading::of(head).fed(32));
    if !kept.failed {
        let after = Reading::of(rest);
        match after.word {
            Word::Number(n) => {
                assert((kept.numbers + after.numbers).push(n) =~= kept.numbers
                    + after.numbers.push(n));
            },
            _ => {},
        }
    }
}

} // verus!
