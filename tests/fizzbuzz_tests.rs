use fizzbuzz::{decimal_text, FizzBuzz, FizzOrBuzz};

#[test]
fn test_fizzbuzz() {
    let mut fb = FizzBuzz::new(1, 15);
    let fb15 = vec![
        FizzOrBuzz::Number(1),
        FizzOrBuzz::Number(2),
        FizzOrBuzz::Fizz,
        FizzOrBuzz::Number(4),
        FizzOrBuzz::Buzz,
        FizzOrBuzz::Fizz,
        FizzOrBuzz::Number(7),
        FizzOrBuzz::Number(8),
        FizzOrBuzz::Fizz,
        FizzOrBuzz::Buzz,
        FizzOrBuzz::Number(11),
        FizzOrBuzz::Fizz,
        FizzOrBuzz::Number(13),
        FizzOrBuzz::Number(14),
        FizzOrBuzz::FizzBuzz,
    ];
    assert_eq!(fb.to_vec(), fb15);
}

#[test]
fn length_is_inclusive_range() {
    assert_eq!(FizzBuzz::new(3, 10).to_vec().len(), 8);
    assert_eq!(FizzBuzz::new(7u64, 7u64).to_vec().len(), 1);
    assert_eq!(FizzBuzz::new(0usize, 99usize).to_vec().len(), 100);
}

#[test]
fn empty_range_yields_nothing() {
    let mut fb = FizzBuzz::new(5, 4);
    assert_eq!(fb.to_vec(), Vec::new());
    let mut fb = FizzBuzz::new(5, 4);
    assert_eq!(fb.next(), None);
}

#[test]
fn classification_follows_divisibility() {
    let v = FizzBuzz::new(1i64, 90i64).to_vec();
    for (k, c) in v.iter().enumerate() {
        let i = k as i64 + 1;
        let expected = if i % 15 == 0 {
            FizzOrBuzz::FizzBuzz
        } else if i % 3 == 0 {
            FizzOrBuzz::Fizz
        } else if i % 5 == 0 {
            FizzOrBuzz::Buzz
        } else {
            FizzOrBuzz::Number(i)
        };
        assert_eq!(*c, expected);
    }
}

#[test]
fn numbers_ascend_without_gaps() {
    let v = FizzBuzz::new(-10i32, 20i32).to_vec();
    assert_eq!(v.len(), 31);
    let mut last: Option<i32> = None;
    for (k, c) in v.iter().enumerate() {
        if let FizzOrBuzz::Number(n) = c {
            assert_eq!(*n, -10 + k as i32);
            if let Some(p) = last {
                assert!(p < *n);
            }
            last = Some(*n);
        }
    }
}

#[test]
fn negative_indices() {
    let v = FizzBuzz::new(-5i16, 0i16).to_vec();
    assert_eq!(
        v,
        vec![
            FizzOrBuzz::Buzz,
            FizzOrBuzz::Number(-4),
            FizzOrBuzz::Fizz,
            FizzOrBuzz::Number(-2),
            FizzOrBuzz::Number(-1),
            FizzOrBuzz::FizzBuzz,
        ]
    );
}

#[test]
fn next_steps_then_stops() {
    let mut fb = FizzBuzz::new(9u32, 10u32);
    assert_eq!(fb.next(), Some(FizzOrBuzz::Fizz));
    assert_eq!(fb.next(), Some(FizzOrBuzz::Buzz));
    assert_eq!(fb.next(), None);
    assert_eq!(fb.next(), None);
    assert_eq!(fb.to_vec(), Vec::new());
}

#[test]
fn range_near_largest_value() {
    let v = FizzBuzz::new(250u8, 254u8).to_vec();
    assert_eq!(
        v,
        vec![
            FizzOrBuzz::Buzz,
            FizzOrBuzz::Number(251),
            FizzOrBuzz::Fizz,
            FizzOrBuzz::Number(253),
            FizzOrBuzz::Number(254),
        ]
    );
    assert_eq!(FizzBuzz::new(isize::MAX - 2, isize::MAX - 1).to_vec().len(), 2);
}

#[test]
fn number_renders_decimal() {
    assert_eq!(FizzOrBuzz::Number(7).to_text(), "7");
    assert_eq!(FizzOrBuzz::Number(1234u64).to_text(), "1234");
    assert_eq!(FizzOrBuzz::Number(-98i32).to_text(), "-98");
    assert_eq!(FizzOrBuzz::Number(0u8).to_text(), "0");
}

#[test]
fn names_render_literally() {
    assert_eq!(FizzOrBuzz::<i32>::Fizz.to_text(), "Fizz");
    assert_eq!(FizzOrBuzz::<i32>::Buzz.to_text(), "Buzz");
    assert_eq!(FizzOrBuzz::<i32>::FizzBuzz.to_text(), "FizzBuzz");
}

#[test]
fn decimal_text_extremes() {
    assert_eq!(decimal_text(0), "0");
    assert_eq!(decimal_text(10), "10");
    assert_eq!(decimal_text(-120), "-120");
    assert_eq!(decimal_text(i128::MAX), i128::MAX.to_string());
    assert_eq!(decimal_text(i128::MIN), i128::MIN.to_string());
    assert_eq!(decimal_text(u64::MAX as i128), "18446744073709551615");
}
