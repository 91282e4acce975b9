use nsticky::cli::request_line;
use nsticky::error::{EngineError, Malformed};
use nsticky::protocol::{
    decimal_text, format_response, id_list_text, one_line_text, parse_request, Request, Response,
    StageArgs, UnstageArgs,
};

fn fault(kind: Malformed) -> Result<Request, EngineError> {
    Err(EngineError::ProtocolError(kind))
}

fn stage(window_id: Option<u64>, all: bool, list: bool, active: bool) -> Request {
    Request::Stage(StageArgs { window_id, all, list, active })
}

fn unstage(window_id: Option<u64>, all: bool, active: bool) -> Request {
    Request::Unstage(UnstageArgs { window_id, all, active })
}

#[test]
fn parses_every_command() {
    assert_eq!(parse_request("add 42"), Ok(Request::Add { window_id: 42 }));
    assert_eq!(parse_request("remove 7"), Ok(Request::Remove { window_id: 7 }));
    assert_eq!(parse_request("list"), Ok(Request::List));
    assert_eq!(parse_request("toggle_active"), Ok(Request::ToggleActive));
    assert_eq!(parse_request("stage 3"), Ok(stage(Some(3), false, false, false)));
    assert_eq!(parse_request("stage --all"), Ok(stage(None, true, false, false)));
    assert_eq!(parse_request("stage --list"), Ok(stage(None, false, true, false)));
    assert_eq!(parse_request("stage --active"), Ok(stage(None, false, false, true)));
    assert_eq!(parse_request("unstage 3"), Ok(unstage(Some(3), false, false)));
    assert_eq!(parse_request("unstage --all"), Ok(unstage(None, true, false)));
    assert_eq!(parse_request("unstage --active"), Ok(unstage(None, false, true)));
}

#[test]
fn white_space_around_and_between_words_does_not_matter() {
    assert_eq!(parse_request("  add   42  \n"), Ok(Request::Add { window_id: 42 }));
    assert_eq!(parse_request("\tremove\t7\r\n"), Ok(Request::Remove { window_id: 7 }));
    assert_eq!(parse_request("stage\u{3000}--all"), Ok(stage(None, true, false, false)));
    assert_eq!(parse_request("\u{a0}list\u{2003}"), Ok(Request::List));
}

#[test]
fn words_after_the_argument_are_ignored() {
    assert_eq!(parse_request("add 1 2 3"), Ok(Request::Add { window_id: 1 }));
    assert_eq!(parse_request("list now"), Ok(Request::List));
    assert_eq!(parse_request("toggle_active 5"), Ok(Request::ToggleActive));
    assert_eq!(parse_request("stage --all --list"), Ok(stage(None, true, false, false)));
}

#[test]
fn unknown_commands_are_refused() {
    assert_eq!(parse_request(""), fault(Malformed::UnknownCommand));
    assert_eq!(parse_request("   "), fault(Malformed::UnknownCommand));
    assert_eq!(parse_request("ADD 1"), fault(Malformed::UnknownCommand));
    assert_eq!(parse_request("adds 1"), fault(Malformed::UnknownCommand));
    assert_eq!(parse_request("ad"), fault(Malformed::UnknownCommand));
    assert_eq!(parse_request("toggle"), fault(Malformed::UnknownCommand));
    assert_eq!(parse_request("staging 1"), fault(Malformed::UnknownCommand));
}

#[test]
fn missing_arguments_are_refused() {
    assert_eq!(parse_request("add"), fault(Malformed::MissingWindowId));
    assert_eq!(parse_request("remove  "), fault(Malformed::MissingWindowId));
    assert_eq!(parse_request("stage"), fault(Malformed::MissingStageArgument));
    assert_eq!(parse_request("unstage\n"), fault(Malformed::MissingUnstageArgument));
}

#[test]
fn window_ids_that_are_not_numbers_are_refused() {
    for line in ["add x", "add -1", "add 1.5", "add 0x10", "add 12a", "add +", "add ++1", "add １２"] {
        assert_eq!(parse_request(line), fault(Malformed::InvalidWindowId), "{}", line);
    }
    assert_eq!(parse_request("remove seven"), fault(Malformed::InvalidWindowId));
    assert_eq!(parse_request("stage --every"), fault(Malformed::InvalidWindowId));
    assert_eq!(parse_request("unstage --list"), fault(Malformed::InvalidWindowId));
    assert_eq!(parse_request("unstage -3"), fault(Malformed::InvalidWindowId));
}

#[test]
fn window_ids_cover_sixty_four_bits() {
    assert_eq!(parse_request("add 0"), Ok(Request::Add { window_id: 0 }));
    assert_eq!(parse_request("add 007"), Ok(Request::Add { window_id: 7 }));
    assert_eq!(parse_request("add +5"), Ok(Request::Add { window_id: 5 }));
    assert_eq!(
        parse_request("add 18446744073709551615"),
        Ok(Request::Add { window_id: u64::MAX })
    );
    assert_eq!(
        parse_request("add 000018446744073709551615"),
        Ok(Request::Add { window_id: u64::MAX })
    );
    assert_eq!(parse_request("add 18446744073709551616"), fault(Malformed::InvalidWindowId));
    assert_eq!(parse_request("add 99999999999999999999999"), fault(Malformed::InvalidWindowId));
}

#[test]
fn window_ids_are_read_as_the_standard_library_reads_them() {
    let words = [
        "0", "1", "+1", "-1", "+", "", "10", "0010", "18446744073709551615",
        "18446744073709551616", "184467440737095516150", "1_000", "1e3", " 1", "٣", "+-1", "9",
        "12345678901234567890", "+18446744073709551615", "+18446744073709551616",
    ];
    for word in words {
        if word.is_empty() || word.contains(' ') {
            continue;
        }
        let expected = match word.parse::<u64>() {
            Ok(window_id) => Ok(Request::Add { window_id }),
            Err(_) => fault(Malformed::InvalidWindowId),
        };
        assert_eq!(parse_request(&format!("add {}", word)), expected, "{}", word);
    }
}

#[test]
fn words_are_split_where_the_standard_library_splits_them() {
    for code in 0..=0x10FFFFu32 {
        let Some(c) = char::from_u32(code) else {
            continue;
        };
        let line = format!("list{}x", c);
        let expected = if c.is_whitespace() { Ok(Request::List) } else { fault(Malformed::UnknownCommand) };
        assert_eq!(parse_request(&line), expected, "U+{:04X}", code);
    }
}

#[test]
fn protocol_faults_have_their_messages() {
    assert_eq!(Malformed::UnknownCommand.message(), "Unknown command");
    assert_eq!(Malformed::MissingWindowId.message(), "Missing window id");
    assert_eq!(Malformed::InvalidWindowId.message(), "Invalid window id");
    assert_eq!(Malformed::MissingStageArgument.message(), "Missing argument for stage");
    assert_eq!(Malformed::MissingUnstageArgument.message(), "Missing argument for unstage");
    assert_eq!(Malformed::InvalidStageCommand.message(), "Invalid stage command");
    assert_eq!(Malformed::InvalidUnstageCommand.message(), "Invalid unstage command");
    assert_eq!(EngineError::ProtocolError(Malformed::UnknownCommand).message(), "Unknown command");
}

#[test]
fn responses_are_rendered() {
    assert_eq!(format_response(Response::Success("Added\n".to_string())), "Added\n");
    assert_eq!(format_response(Response::Data("[1, 2]\n".to_string())), "[1, 2]\n");
    assert_eq!(format_response(Response::Error("Window not found in Niri".to_string())), "Error: Window not found in Niri");
    assert_eq!(format_response(Response::Error(String::new())), "Error: ");
}

#[test]
fn numbers_are_written_in_decimal() {
    for number in [0u64, 1, 9, 10, 11, 99, 100, 101, 12345, 1 << 32, u64::MAX - 1, u64::MAX] {
        assert_eq!(decimal_text(number), number.to_string());
    }
    assert_eq!(decimal_text(18446744073709551615), "18446744073709551615");
}

#[test]
fn lists_of_windows_are_written_in_brackets() {
    assert_eq!(id_list_text(&vec![]), "[]");
    assert_eq!(id_list_text(&vec![7]), "[7]");
    assert_eq!(id_list_text(&vec![3, 17]), "[3, 17]");
    for ids in [vec![], vec![0], vec![5, 4, 3], vec![u64::MAX, 0, 10, 100]] {
        assert_eq!(id_list_text(&ids), format!("{:?}", ids));
    }
}

#[test]
fn request_lines_are_written() {
    assert_eq!(request_line(&Request::Add { window_id: 42 }), Some("add 42\n".to_string()));
    assert_eq!(request_line(&Request::Remove { window_id: 0 }), Some("remove 0\n".to_string()));
    assert_eq!(request_line(&Request::List), Some("list\n".to_string()));
    assert_eq!(request_line(&Request::ToggleActive), Some("toggle_active\n".to_string()));
    assert_eq!(request_line(&stage(None, true, false, false)), Some("stage --all\n".to_string()));
    assert_eq!(request_line(&stage(None, false, true, false)), Some("stage --list\n".to_string()));
    assert_eq!(request_line(&stage(None, false, false, true)), Some("stage --active\n".to_string()));
    assert_eq!(request_line(&stage(Some(9), false, false, false)), Some("stage 9\n".to_string()));
    assert_eq!(request_line(&unstage(None, true, false)), Some("unstage --all\n".to_string()));
    assert_eq!(request_line(&unstage(None, false, true)), Some("unstage --active\n".to_string()));
    assert_eq!(request_line(&unstage(Some(u64::MAX), false, false)), Some("unstage 18446744073709551615\n".to_string()));
}

#[test]
fn request_lines_follow_the_precedence_of_the_flags() {
    assert_eq!(request_line(&stage(Some(9), true, true, true)), Some("stage --all\n".to_string()));
    assert_eq!(request_line(&stage(Some(9), false, true, true)), Some("stage --list\n".to_string()));
    assert_eq!(request_line(&stage(Some(9), false, false, true)), Some("stage --active\n".to_string()));
    assert_eq!(request_line(&unstage(Some(9), true, true)), Some("unstage --all\n".to_string()));
    assert_eq!(request_line(&unstage(Some(9), false, true)), Some("unstage --active\n".to_string()));
}

#[test]
fn requests_that_name_nothing_have_no_line() {
    assert_eq!(request_line(&stage(None, false, false, false)), None);
    assert_eq!(request_line(&unstage(None, false, false)), None);
}

#[test]
fn what_the_client_writes_the_daemon_reads() {
    let requests = vec![
        Request::Add { window_id: 42 },
        Request::Remove { window_id: u64::MAX },
        Request::List,
        Request::ToggleActive,
        stage(None, true, false, false),
        stage(None, false, true, false),
        stage(None, false, false, true),
        stage(Some(0), false, false, false),
        unstage(None, true, false),
        unstage(None, false, true),
        unstage(Some(1234567890), false, false),
    ];
    for request in requests {
        let line = request_line(&request).unwrap();
        assert_eq!(parse_request(&line), Ok(request));
    }
}

#[test]
fn a_text_is_put_on_one_line() {
    assert_eq!(one_line_text(""), "");
    assert_eq!(one_line_text("no focus"), "no focus");
    assert_eq!(one_line_text("\n"), " ");
    assert_eq!(one_line_text("a\nb"), "a b");
    assert_eq!(one_line_text("\na\n\nb\n"), " a  b ");
    assert_eq!(one_line_text("tab\there\r\n"), "tab\there\r ");
    assert_eq!(one_line_text("fenêtre\n窓\n"), "fenêtre 窓 ");
}
