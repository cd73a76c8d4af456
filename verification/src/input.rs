//! Reading a submitted line: decimal numbers separated by white space.
use vstd::prelude::*;

verus! {

/// Whether `b` is white space: a blank, a tab, a line feed, a vertical
/// tab, a form feed or a carriage return.
pub open spec fn is_space(b: u8) -> bool {
    b == 32 || 9 <= b <= 13
}

/// Whether `b` is one of the digits `0` to `9`.
pub open spec fn is_digit(b: u8) -> bool {
    48 <= b <= 57
}

/// Whether `word` is made of digits only.
pub open spec fn all_digits(word: Seq<u8>) -> bool {
    forall|i: int| 0 <= i < word.len() ==> is_digit(#[trigger] word[i])
}

/// Whether `line` is made of white space only.
pub open spec fn all_space(line: Seq<u8>) -> bool {
    forall|i: int| 0 <= i < line.len() ==> is_space(#[trigger] line[i])
}

/// The number that the digits of `word` spell in base ten.
pub open spec fn decimal(word: Seq<u8>) -> nat
    decreases word.len(),
{
    if word.len() == 0 {
        0
    } else {
        decimal(word.drop_last()) * 10 + (word.last() - 48) as nat
    }
}

/// The word that is being read.
#[derive(Clone, Copy, Debug, PartialEq, Eq, Structural)]
pub enum Word {
    /// No word has begun since the last white space.
    Between,
    /// A plus sign has been read and no digit yet.
    Sign,
    /// The digits read so far make this number.
    Number(usize),
}

/// What has been read of a line.
pub struct Reading {
    /// The numbers of the words that have ended.
    pub numbers: Seq<usize>,
    /// The word that has not ended yet.
    pub word: Word,
    /// Whether a word has turned out to be no number.
    pub failed: bool,
}

impl Reading {
    /// Nothing read yet.
    pub open spec fn start() -> Reading {
        Reading { numbers: Seq::empty(), word: Word::Between, failed: false }
    }

    /// This reading after one more byte. White space ends a word, which
    /// must then hold a digit; a plus sign may only begin a word; a digit
    /// appends to the number as long as that fits a `usize`; any other byte
    /// spoils the line.
    pub open spec fn fed(self, b: u8) -> Reading {
        if self.failed {
            self
        } else if is_space(b) {
            match self.word {
                Word::Between => self,
                Word::Sign => Reading { failed: true, ..self },
                Word::Number(n) => Reading { numbers: self.numbers.push(n), word: Word::Between, ..self },
            }
        } else if b == 43 {
            match self.word {
                Word::Between => Reading { word: Word::Sign, ..self },
                _ => Reading { failed: true, ..self },
            }
        } else if is_digit(b) {
            match self.word {
                Word::Number(n) => if n * 10 + (b - 48) <= usize::MAX {
                    Reading { word: Word::Number((n * 10 + (b - 48)) as usize), ..self }
                } else {
                    Reading { failed: true, ..self }
                },
                _ => Reading { word: Word::Number((b - 48) as usize), ..self },
            }
        } else {
            Reading { failed: true, ..self }
        }
    }

    /// The reading of all of `line`.
    pub open spec fn of(line: Seq<u8>) -> Reading
        decreases line.len(),
    {
        if line.len() == 0 {
            Reading::start()
        } else {
            Reading::of(line.drop_last()).fed(line.last())
        }
    }
}

/// The numbers that `line` holds, in order, if it is made of nothing but
/// white space and words that are decimal numbers within `usize`, each
/// with or without a plus sign in front.
pub open spec fn numbers_of(line: Seq<u8>) -> Option<Seq<usize>> {
    let end = Reading::of(line).fed(32);
    if end.failed {
        None
    } else {
        Some(end.numbers)
    }
}

/// The numbers of a list that may be missing.
pub open spec fn as_numbers(read: Option<Vec<usize>>) -> Option<Seq<usize>> {
    match read {
        Some(numbers) => Some(numbers@),
        None => None,
    }
}

/// Reads the numbers off a line: words of decimal digits, each with or
/// without a plus sign in front, separated and surrounded by any amount of
/// white space. Nothing is returned when a word is no such number or does
/// not fit a `usize`.
pub fn read_numbers(line: &[u8]) -> (read: Option<Vec<usize>>)
    ensures
        as_numbers(read) == numbers_of(line@),
{
    let mut numbers: Vec<usize> = Vec::new();
    let mut word = Word::Between;
    let mut failed = false;
    for i in 0..line.len()
        invariant
            Reading::of(line@.take(i as int)) == (Reading { numbers: numbers@, word, failed }),
    {
        proof {
            assert(line@.take(i + 1).drop_last() =~= line@.take(i as int));
        }
        let b = line[i];
        if failed {
        } else if b == 32 || (9 <= b && b <= 13) {
            match word {
                Word::Between => {},
                Word::Sign => {
                    failed = true;
                },
                Word::Number(n) => {
                    numbers.push(n);
                    word = Word::Between;
                },
            }
        } else if b == 43 {
            match word {
                Word::Between => {
                    word = Word::Sign;
                },
                _ => {
                    failed = true;
                },
            }
        } else if 48 <= b && b <= 57 {
            let digit: usize = (b - 48) as usize;
            match word {
                Word::Number(n) => {
                    if n <= (usize::MAX - digit) / 10 {
                        word = Word::Number(n * 10 + digit);
                    } else {
                        failed = true;
                    }
                },
                _ => {
                    word = Word::Number(digit);
                },
            }
        } else {
            failed = true;
        }
    }
    proof {
        assert(line@.take(line@.len() as int) =~= line@);
    }
    if failed {
        return None;
    }
    match word {
        Word::Between => Some(numbers),
        Word::Sign => None,
        Word::Number(n) => {
            numbers.push(n);
            Some(numbers)
        },
    }
}

} // verus!
