use lindos_core::{
    compose_reply, debug_line, error_message, generate_reply, process_message,
    process_message_safe, str_from_handle, validate_message, ProcessingError, RustResult,
    MAX_MESSAGE_CHARS, process_outcome, reply_or_message, text_code_of,
};

fn checked(text: &str) -> RustResult {
    process_message_safe(Some(text.as_bytes()))
}

#[test]
fn scenario_hi_is_echoed() {
    let r = checked("hi");
    assert!(r.success);
    assert_eq!(r.data, "You said: hi");
    assert_eq!(r.error_code, 0);
}

#[test]
fn scenario_spaces_are_greeted() {
    let r = checked("   ");
    assert!(r.success);
    assert_eq!(r.data, "Hello from Rust core!");
    assert_eq!(r.error_code, 0);
}

#[test]
fn scenario_limit_and_one_over() {
    let at_limit = "a".repeat(1000);
    let r = checked(&at_limit);
    assert!(r.success);
    assert_eq!(r.error_code, 0);
    assert_eq!(r.data, format!("You said: {}", at_limit));

    let over = "a".repeat(1001);
    let r = checked(&over);
    assert!(!r.success);
    assert_eq!(r.error_code, 4);
    assert_eq!(r.data, "Error: Failed to process message");
}

#[test]
fn scenario_null_handle() {
    let r = process_message_safe(None);
    assert!(!r.success);
    assert_eq!(r.error_code, 1);
    assert_eq!(r.data, "Error: No message provided");
    assert_eq!(validate_message(None), 1);
    assert_eq!(process_message(None), "Error: No message provided");
}

#[test]
fn scenario_catalog_entries() {
    assert_eq!(error_message(1), "No message provided");
    assert_eq!(error_message(2), "Message contains invalid characters");
    assert_eq!(error_message(3), "Message cannot be empty");
    assert_eq!(error_message(4), "Failed to process message");
    assert_eq!(error_message(0), "Unknown error");
    assert_eq!(error_message(-1), "Unknown error");
    assert_eq!(error_message(5), "Unknown error");
}

#[test]
fn user_messages_extend_catalog() {
    let failures = [
        ProcessingError::NullPointer,
        ProcessingError::EmptyMessage,
        ProcessingError::ProcessingFailure("detail".to_string()),
    ];
    for e in failures.iter() {
        let expected = format!("Error: {}", error_message(e.code()));
        assert_eq!(e.to_user_message(), expected);
    }
    let bad = [0xffu8];
    let e = str_from_handle(Some(&bad)).unwrap_err();
    assert_eq!(e.code(), 2);
    assert_eq!(e.to_user_message(), format!("Error: {}", error_message(2)));
}

#[test]
fn invalid_bytes_give_code_two() {
    let bad = [b'h', 0xc3u8, b'i'];
    let r = process_message_safe(Some(&bad));
    assert!(!r.success);
    assert_eq!(r.error_code, 2);
    assert_eq!(r.data, "Error: Message contains invalid characters");
    assert_eq!(validate_message(Some(&bad)), 2);
    assert_eq!(process_message(Some(&bad)), "Error: Message contains invalid characters");
}

#[test]
fn decoded_text_is_the_input() {
    let bytes = "h\u{e9}llo".as_bytes();
    assert_eq!(str_from_handle(Some(bytes)).unwrap(), "h\u{e9}llo");
}

#[test]
fn length_limit_counts_characters() {
    let wide = "\u{e9}".repeat(MAX_MESSAGE_CHARS);
    assert_eq!(wide.len(), 2 * MAX_MESSAGE_CHARS);
    let r = checked(&wide);
    assert!(r.success);
    assert_eq!(validate_message(Some(wide.as_bytes())), 0);

    let wider = "\u{e9}".repeat(MAX_MESSAGE_CHARS + 1);
    assert_eq!(checked(&wider).error_code, 4);
}

#[test]
fn blank_text_over_limit_is_greeted_and_passes_precheck() {
    let spaces = " ".repeat(1001);
    let r = checked(&spaces);
    assert!(r.success);
    assert_eq!(r.data, "Hello from Rust core!");
    assert_eq!(validate_message(Some(spaces.as_bytes())), 0);
}

#[test]
fn text_code_uses_given_trimmed_form() {
    let long = "b".repeat(1001);
    assert_eq!(text_code_of(&long, &long), 4);
    assert_eq!(text_code_of(&long, ""), 0);
    assert_eq!(text_code_of("hi", "hi"), 0);
    let at_limit = "b".repeat(1000);
    assert_eq!(text_code_of(&at_limit, &at_limit), 0);
}

#[test]
fn precheck_agrees_with_checked_call() {
    let long = "a".repeat(1001);
    let padded = format!("  {}  ", "c".repeat(999));
    let inputs: Vec<Vec<u8>> = vec![
        b"hi".to_vec(),
        b"   ".to_vec(),
        b"".to_vec(),
        vec![0xffu8],
        long.into_bytes(),
        padded.into_bytes(),
        " \t".repeat(600).into_bytes(),
    ];
    for bytes in inputs.iter() {
        let r = process_message_safe(Some(bytes));
        assert_eq!(validate_message(Some(bytes)), r.error_code);
    }
    assert_eq!(validate_message(None), process_message_safe(None).error_code);
}

#[test]
fn outcome_feeds_both_forms() {
    match process_outcome(None) {
        Err(ProcessingError::NullPointer) => {}
        _ => panic!("expected the null handle failure"),
    }
    let ok = process_outcome(Some(b"yo")).unwrap();
    assert_eq!(ok, "You said: yo");
    let r = RustResult::from_outcome(process_outcome(Some(&[0xc3u8])));
    assert_eq!(r.error_code, 2);
    assert_eq!(reply_or_message(process_outcome(None)), "Error: No message provided");
    assert_eq!(reply_or_message(Ok("kept".to_string())), "kept");
}

#[test]
fn surrounding_space_is_kept_in_echo() {
    assert_eq!(generate_reply("  hi \n").unwrap(), "You said:   hi \n");
    assert_eq!(generate_reply("\u{3000}\u{a0}").unwrap(), "Hello from Rust core!");
}

#[test]
fn compose_reply_uses_given_trimmed_form() {
    assert_eq!(compose_reply("  x  ", "").unwrap(), "Hello from Rust core!");
    assert_eq!(compose_reply("  x  ", "x").unwrap(), "You said:   x  ");
    let long = "b".repeat(1001);
    match compose_reply(&long, &long) {
        Err(ProcessingError::ProcessingFailure(detail)) => assert_eq!(detail, "Message too long"),
        _ => panic!("expected a processing failure"),
    }
    assert!(compose_reply(&long, "").is_ok());
}

#[test]
fn validation_is_repeatable() {
    let inputs: [Option<&[u8]>; 4] = [None, Some(b"hello"), Some(&[0xffu8]), Some(b"")];
    for input in inputs.iter() {
        let first = validate_message(*input);
        let second = validate_message(*input);
        assert_eq!(first, second);
    }
    let long = "a".repeat(1001);
    assert_eq!(validate_message(Some(long.as_bytes())), validate_message(Some(long.as_bytes())));
}

#[test]
fn legacy_matches_checked_data() {
    for text in ["", "hi", "   ", "ok then"].iter() {
        assert_eq!(process_message(Some(text.as_bytes())), checked(text).data);
    }
}

#[test]
fn debug_lines_follow_flag() {
    assert_eq!(debug_line(true, "step"), Some("[LINDOS DEBUG] step".to_string()));
    assert_eq!(debug_line(false, "step"), None);
}

#[test]
fn envelope_constructors() {
    let ok = RustResult::success("done".to_string());
    assert!(ok.success);
    assert_eq!(ok.data, "done");
    assert_eq!(ok.error_code, 0);
    let failed = RustResult::error(ProcessingError::ProcessingFailure("x".to_string()));
    assert!(!failed.success);
    assert_eq!(failed.data, "Error: Failed to process message");
    assert_eq!(failed.error_code, 4);
}
