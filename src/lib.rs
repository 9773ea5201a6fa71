//! A FizzBuzz sequence over a range of integers, produced one element at a
//! time, with every step proved to classify its index correctly.

mod classification;
mod numeric;
mod sequence;

pub use classification::{
    classifies, decimal, decimal_text, digit_text, digits, lemma_classification, lemma_fifteen,
    text_of, FizzOrBuzz,
};
pub use numeric::{Five, Inc, Numeric, Three, Zero};
pub use sequence::{
    lemma_ascending, lemma_length, lemma_produced_classification, produces, remaining, FizzBuzz,
};
