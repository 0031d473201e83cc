use grant_program::decimal::decimal_string;
use grant_program::runner::{input_text, output_text};
use grant_program::{run, GrantProgramError};

#[test]
fn run_without_input_puts_out_the_summary_of_one_item() {
    assert_eq!(run(false, None).unwrap(), "{\"processed_count\":1,\"verbose\":false}");
}

#[test]
fn run_with_text_puts_out_the_summary_of_one_item() {
    let input = String::from("first line\nsecond line\nthird line\n");
    assert_eq!(run(false, Some(input)).unwrap(), "{\"processed_count\":1,\"verbose\":false}");
}

#[test]
fn run_keeps_the_flag() {
    assert_eq!(run(true, None).unwrap(), "{\"processed_count\":1,\"verbose\":true}");
    assert_eq!(
        run(true, Some(String::from("text"))).unwrap(),
        "{\"processed_count\":1,\"verbose\":true}"
    );
}

#[test]
fn run_starts_afresh_each_time() {
    let first = run(false, Some(String::from("a"))).unwrap();
    let second = run(false, Some(String::from("b"))).unwrap();
    assert_eq!(first, second);
}

#[test]
fn output_of_run_reads_back_as_count_and_flag() {
    let text = run(true, Some(String::from("abc"))).unwrap();
    let read: serde_json::Value = serde_json::from_str(&text).unwrap();
    let fields = read.as_object().unwrap();
    assert_eq!(fields.len(), 2);
    assert_eq!(fields["processed_count"].as_u64(), Some(1));
    assert_eq!(fields["verbose"].as_bool(), Some(true));
}

#[test]
fn input_text_is_what_was_read_or_nothing() {
    assert_eq!(input_text(None), "");
    assert_eq!(input_text(Some(String::new())), "");
    assert_eq!(input_text(Some(String::from("some text"))), "some text");
}

#[test]
fn output_text_hands_the_text_on() {
    let output = output_text(Ok(String::from("{}")));
    assert_eq!(output.unwrap(), "{}");
}

#[test]
fn output_text_fails_as_the_serialiser_did() {
    let cause = serde_json::from_str::<serde_json::Value>("{").unwrap_err();
    let words = cause.to_string();
    match output_text(Err(cause)) {
        Err(GrantProgramError::Json(kept)) => assert_eq!(kept.to_string(), words),
        Ok(_) => panic!("a failed serialisation gave an output"),
    }
}

#[test]
fn decimal_string_of_single_digits() {
    let expected = ["0", "1", "2", "3", "4", "5", "6", "7", "8", "9"];
    for (n, digits) in expected.iter().enumerate() {
        assert_eq!(decimal_string(n), *digits);
    }
}

#[test]
fn decimal_string_of_longer_numbers() {
    assert_eq!(decimal_string(10), "10");
    assert_eq!(decimal_string(99), "99");
    assert_eq!(decimal_string(100), "100");
    assert_eq!(decimal_string(1020), "1020");
    assert_eq!(decimal_string(9876543210), "9876543210");
    assert_eq!(decimal_string(usize::MAX), usize::MAX.to_string());
}
