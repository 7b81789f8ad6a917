use fog_space::errors::{decimal_string, status_line, FogSpaceError, BAD_REQUEST, INTERNAL_SERVER_ERROR};
use fog_space::routers::cancel_task::{parse_task_id, task_id_from_parsed};

#[test]
fn missing_task_id_is_bad_request() {
    let e = FogSpaceError::missing_task_id();
    assert_eq!(e.code(), BAD_REQUEST);
    assert_eq!(e.message(), "Missing task_id");
}

#[test]
fn invalid_task_id_is_bad_request() {
    let e = FogSpaceError::invalid_task_id();
    assert_eq!(e.code(), 400);
    assert_eq!(e.message(), "Invalid task_id");
}

#[test]
fn context_unavailable_is_internal_error() {
    let e = FogSpaceError::context_unavailable();
    assert_eq!(e.code(), INTERNAL_SERVER_ERROR);
    assert_eq!(e.message(), "failed to obtain FogSpaceCtx");
}

#[test]
fn calculate_thread_failure_is_internal_error() {
    let e = FogSpaceError::calculate_thread_failed();
    assert_eq!(e.code(), 500);
    assert_eq!(e.message(), "calculate_thread Join Error!");
}

#[test]
fn invalid_body_carries_detail() {
    let e = FogSpaceError::invalid_body("missing field `directories`");
    assert_eq!(e.code(), 400);
    assert_eq!(e.message(), "invalid body: missing field `directories`");
}

#[test]
fn display_text_of_bad_request() {
    let e = FogSpaceError::missing_task_id();
    assert_eq!(
        e.display_text(),
        "FogSpaceError! code:400 Bad Request, err:Missing task_id"
    );
}

#[test]
fn display_text_of_internal_error() {
    let e = FogSpaceError::context_unavailable();
    assert_eq!(
        e.display_text(),
        "FogSpaceError! code:500 Internal Server Error, err:failed to obtain FogSpaceCtx"
    );
}

#[test]
fn display_text_of_code_without_reason() {
    let e = FogSpaceError::new(299, "odd".to_string());
    assert_eq!(e.display_text(), "FogSpaceError! code:299 <unknown status code>, err:odd");
}

#[test]
fn status_lines() {
    assert_eq!(status_line(404), "404 Not Found");
    assert_eq!(status_line(100), "100 Continue");
    assert_eq!(status_line(999), "999 <unknown status code>");
}

#[test]
fn decimal_strings() {
    assert_eq!(decimal_string(0), "0");
    assert_eq!(decimal_string(7), "7");
    assert_eq!(decimal_string(10), "10");
    assert_eq!(decimal_string(400), "400");
    assert_eq!(decimal_string(18446744073709551615), "18446744073709551615");
}

#[test]
fn task_id_missing() {
    let r = parse_task_id(None);
    let e = r.unwrap_err();
    assert_eq!(e.code(), 400);
    assert_eq!(e.message(), "Missing task_id");
}

#[test]
fn task_id_not_a_uuid() {
    for text in ["", "42", "not-a-uuid", "a1a2a3a4-b1b2-c1c2-d1d2-d3d4d5d6d7dz"] {
        let e = parse_task_id(Some(text)).unwrap_err();
        assert_eq!(e.code(), 400);
        assert_eq!(e.message(), "Invalid task_id");
    }
}

#[test]
fn task_id_hyphenated() {
    let id = parse_task_id(Some("a1a2a3a4-b1b2-c1c2-d1d2-d3d4d5d6d7d8")).unwrap();
    assert_eq!(id, 0xa1a2a3a4b1b2c1c2d1d2d3d4d5d6d7d8u128);
}

#[test]
fn task_id_simple_and_braced() {
    let simple = parse_task_id(Some("67e5504410b1426f9247bb680e5fe0c8")).unwrap();
    let braced = parse_task_id(Some("{67e55044-10b1-426f-9247-bb680e5fe0c8}")).unwrap();
    assert_eq!(simple, 0x67e5504410b1426f9247bb680e5fe0c8u128);
    assert_eq!(simple, braced);
}

#[test]
fn task_id_from_parse_results() {
    assert_eq!(task_id_from_parsed(Some(5)).unwrap(), 5);
    let e = task_id_from_parsed(None).unwrap_err();
    assert_eq!(e.code(), 400);
    assert_eq!(e.message(), "Invalid task_id");
}

#[test]
fn decimal_strings_read_back() {
    for n in [0u64, 9, 10, 99, 100, 404, 65535, 1_000_000_007, u64::MAX] {
        assert_eq!(decimal_string(n).parse::<u64>().unwrap(), n);
    }
}
