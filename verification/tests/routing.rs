use rustbot::routing::{result_file_name, route_output, BotEvent, Delivery};
use rustbot::text::u64_dec;

#[test]
fn short_output_is_posted_fenced() {
    match route_output(BotEvent::OnMessage, "hi".to_string(), 7) {
        Delivery::Post { content } => assert_eq!(content, "```\nhi```"),
        _ => panic!("expected a post"),
    }
}

#[test]
fn short_output_on_edit_updates_reply() {
    match route_output(BotEvent::OnEdit, "hi".to_string(), 7) {
        Delivery::Edit { content } => assert_eq!(content, "```\nhi```"),
        _ => panic!("expected an edit"),
    }
}

#[test]
fn empty_output_is_posted_fenced() {
    match route_output(BotEvent::OnMessage, String::new(), 7) {
        Delivery::Post { content } => assert_eq!(content, "```\n```"),
        _ => panic!("expected a post"),
    }
}

#[test]
fn output_of_1999_bytes_is_posted() {
    match route_output(BotEvent::OnMessage, "a".repeat(1999), 7) {
        Delivery::Post { content } => assert_eq!(content.len(), 1999 + 7),
        _ => panic!("expected a post"),
    }
}

#[test]
fn output_of_2000_bytes_is_uploaded() {
    let body = "a".repeat(2000);
    match route_output(BotEvent::OnMessage, body.clone(), 42) {
        Delivery::Upload { file_name, file_body } => {
            assert_eq!(file_name, "Result-42.txt");
            assert_eq!(file_body, body);
        },
        _ => panic!("expected an upload"),
    }
}

#[test]
fn upload_on_edit_keeps_the_asking_message_name() {
    match route_output(BotEvent::OnEdit, "b".repeat(2000), 9) {
        Delivery::Upload { file_name, .. } => assert_eq!(file_name, "Result-9.txt"),
        _ => panic!("expected an upload"),
    }
}

#[test]
fn output_of_7999999_bytes_is_uploaded() {
    match route_output(BotEvent::OnMessage, "a".repeat(7_999_999), 7) {
        Delivery::Upload { .. } => {},
        _ => panic!("expected an upload"),
    }
}

#[test]
fn output_of_8000000_bytes_is_refused() {
    match route_output(BotEvent::OnMessage, "a".repeat(8_000_000), 7) {
        Delivery::Post { content } => {
            assert_eq!(content, "Response exceeded 8MB limit, please manually evaluate!")
        },
        _ => panic!("expected the refusal note"),
    }
}

#[test]
fn refusal_on_edit_is_posted_not_edited() {
    match route_output(BotEvent::OnEdit, "a".repeat(8_000_000), 7) {
        Delivery::Post { content } => {
            assert_eq!(content, "Response exceeded 8MB limit, please manually evaluate!")
        },
        _ => panic!("expected the refusal note"),
    }
}

#[test]
fn size_is_measured_in_bytes_not_characters() {
    // 1000 two-byte characters: 2000 bytes, so an upload although only 1000
    // characters long.
    match route_output(BotEvent::OnMessage, "é".repeat(1000), 7) {
        Delivery::Upload { .. } => {},
        _ => panic!("expected an upload"),
    }
}

#[test]
fn file_name_holds_decimal_identifier() {
    assert_eq!(result_file_name(0), "Result-0.txt");
    assert_eq!(result_file_name(123), "Result-123.txt");
    assert_eq!(result_file_name(u64::MAX), "Result-18446744073709551615.txt");
}

#[test]
fn decimal_rendering_matches() {
    assert_eq!(u64_dec(0), "0");
    assert_eq!(u64_dec(7), "7");
    assert_eq!(u64_dec(10), "10");
    assert_eq!(u64_dec(12345), "12345");
    assert_eq!(u64_dec(u64::MAX), "18446744073709551615");
}
