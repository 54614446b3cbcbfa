use session_handshake::message::{
    decode_envelope, decode_header, parse_header, validate_header, MessageAction, MessageHeader,
    MessageHeaderJson, ParseMessageError, ResponseJsonString, ResponseMessageJson,
};

fn valid_payload() -> String {
    String::from(
        r#"{"action":"create_session","session_id":"ECTO-1","user_id":"683d711e-fe25-443c-8102-43d4245a6884"}"#,
    )
}

fn expected_header() -> MessageHeader {
    MessageHeader {
        action: MessageAction::CreateSession,
        session_id: String::from("ECTO-1"),
        user_id: uuid::Uuid::parse_str("683d711e-fe25-443c-8102-43d4245a6884")
            .unwrap()
            .as_u128(),
    }
}

/// Tests the "happy path" with a valid request body
#[test]
fn test_parse_header() {
    let message = valid_payload();

    let expected = expected_header();
    let actual = parse_header(&message).unwrap();
    assert_eq!(expected, actual);
}

/// Tests that the method still works with extra keys in the JSON body
#[test]
fn test_parse_header_extra_keys() {
    let message_instance_string = String::from(
        r#"
            {
                "action": "create_session",
                "session_id": "ECTO-1",
                "user_id": "683d711e-fe25-443c-8102-43d4245a6884",
                "unrelated_key": "unused_value"
            }"#,
    );

    let expected = expected_header();
    let actual = parse_header(&message_instance_string).unwrap();
    assert_eq!(expected, actual);
}

/// Tests that we get the appropriate Error from a malformed JSON String
#[test]
fn test_parse_header_bad_json() {
    let message = String::from("{ bad json");
    match parse_header(&message) {
        Ok(_) => assert!(false),
        Err(e) => println!("{}", e.get_message()),
    }
    // Pass if it reaches here
}

/// Tests that we get the appropriate Error from a malformed UUID for user_id
#[test]
fn test_parse_header_bad_user_id() {
    let message =
        String::from(r#"{"action":"create_session","session_id":"ECTO-1","user_id":"baduuid"}"#);
    match parse_header(&message) {
        Ok(_) => assert!(false),
        Err(e) => println!("{}", e.get_message()),
    }
    // Pass if it reaches here
}

/// Tests that returning
#[test]
fn test_get_response_json_string() {
    let error_message = ParseMessageError {
        message: String::from("Placeholder Error Message"),
    };
    let expected = ResponseMessageJson {
        status_code: 400,
        status: String::from("bad_request"),
        message: String::from("Error parsing message: Placeholder Error Message"),
    };
    let err_msg_string = error_message.get_response_json_string();
    let actual: ResponseMessageJson = match decode_envelope(&err_msg_string) {
        Some(rmj) => rmj,
        None => {
            assert!(false);
            return;
        }
    };
    assert_eq!(expected, actual);
}

#[test]
fn test_parse_header_unrecognized_action() {
    let message =
        String::from(r#"{"action":"delete_session","session_id":"ECTO-1","user_id":"683d711e-fe25-443c-8102-43d4245a6884"}"#);
    match parse_header(&message) {
        Ok(_) => assert!(false),
        Err(e) => {
            let text = e.get_message();
            assert!(text.contains("delete_session"));
            assert_eq!(
                text,
                String::from("Error parsing message: Invalid action received: delete_session")
            );
        }
    }
}

#[test]
fn test_parse_header_bad_user_id_message() {
    let message =
        String::from(r#"{"action":"create_session","session_id":"ECTO-1","user_id":"baduuid"}"#);
    let e = parse_header(&message).unwrap_err();
    assert_eq!(
        e.get_message(),
        String::from(
            "Error parsing message: we could not parse string provided for 'user_id' into a valid UUID."
        )
    );
}

#[test]
fn test_parse_header_missing_field() {
    let message = String::from(r#"{"action":"create_session","session_id":"ECTO-1"}"#);
    let e = parse_header(&message).unwrap_err();
    assert_eq!(
        e.get_message(),
        String::from(
            "Error parsing message: we could not parse string provided into a valid JSON Object. Check for syntax errors."
        )
    );
}

#[test]
fn test_parse_header_wrong_typed_field() {
    let message =
        String::from(r#"{"action":"create_session","session_id":"ECTO-1","user_id":7}"#);
    assert!(parse_header(&message).is_err());
}

#[test]
fn test_parse_header_non_object_json() {
    let message = String::from("5");
    assert!(parse_header(&message).is_err());
}

#[test]
fn test_parse_header_join_session() {
    let message =
        String::from(r#"{"action":"join_session","session_id":"","user_id":"683d711e-fe25-443c-8102-43d4245a6884"}"#);
    let actual = parse_header(&message).unwrap();
    assert_eq!(actual.action, MessageAction::JoinSession);
    assert_eq!(actual.session_id, String::new());
}

#[test]
fn test_parse_header_simple_uuid_form() {
    let message =
        String::from(r#"{"action":"create_session","session_id":"ECTO-1","user_id":"683d711efe25443c810243d4245a6884"}"#);
    let actual = parse_header(&message).unwrap();
    assert_eq!(actual.user_id, expected_header().user_id);
}

#[test]
fn test_parse_header_idempotent() {
    let valid = valid_payload();
    let first = parse_header(&valid).unwrap();
    let second = parse_header(&valid).unwrap();
    assert_eq!(first, second);

    let invalid = String::from("{ bad json");
    let e1 = parse_header(&invalid).unwrap_err();
    let e2 = parse_header(&invalid).unwrap_err();
    assert_eq!(e1.message, e2.message);
    assert_eq!(e1.get_response_json_string(), e2.get_response_json_string());
}

#[test]
fn test_decode_header_fields() {
    let j: MessageHeaderJson = decode_header(&valid_payload()).unwrap();
    assert_eq!(j.action, String::from("create_session"));
    assert_eq!(j.session_id, String::from("ECTO-1"));
    assert_eq!(j.user_id, String::from("683d711e-fe25-443c-8102-43d4245a6884"));
}

#[test]
fn test_validate_header_direct() {
    let j = MessageHeaderJson {
        action: String::from("join_session"),
        session_id: String::from("ECTO-1"),
        user_id: String::from("683d711e-fe25-443c-8102-43d4245a6884"),
    };
    let h = validate_header(j).unwrap();
    assert_eq!(h.action, MessageAction::JoinSession);
    assert_eq!(h.session_id, String::from("ECTO-1"));
    assert_eq!(h.user_id, expected_header().user_id);
}

#[test]
fn test_display_string() {
    let j = MessageHeaderJson {
        action: String::from("create_session"),
        session_id: String::from("ECTO-1"),
        user_id: String::from("683d711e-fe25-443c-8102-43d4245a6884"),
    };
    assert_eq!(
        j.display_string(),
        String::from(
            "action=create_session;session_id=ECTO-1;user_id=683d711e-fe25-443c-8102-43d4245a6884;"
        )
    );
}

/// The envelope's shape and constants, checked with an independent JSON
/// reader rather than the crate's own decoder.
#[test]
fn test_envelope_shape_independent() {
    let error_message = ParseMessageError {
        message: String::from("some cause"),
    };
    let text = error_message.get_response_json_string();
    let v: serde_json::Value = serde_json::from_str(&text).unwrap();
    assert_eq!(v["status_code"].as_u64().unwrap(), 400);
    assert_eq!(v["status"].as_str().unwrap(), "bad_request");
    assert_eq!(
        v["message"].as_str().unwrap(),
        "Error parsing message: some cause"
    );
}

/// An envelope is produced, decodes back losslessly, and its fixed fields do
/// not vary with the failure cause.
#[test]
fn test_envelope_round_trip_all_causes() {
    let causes = vec![
        parse_header("{ bad json").unwrap_err(),
        parse_header(r#"{"action":"create_session","session_id":"s","user_id":"baduuid"}"#)
            .unwrap_err(),
        parse_header(
            r#"{"action":"delete_session","session_id":"s","user_id":"683d711e-fe25-443c-8102-43d4245a6884"}"#,
        )
        .unwrap_err(),
    ];
    for e in causes {
        let text = e.get_response_json_string();
        let env = decode_envelope(&text).unwrap();
        assert_eq!(env.status_code, 400);
        assert_eq!(env.status, String::from("bad_request"));
        assert_eq!(env.message, e.get_message());
    }
}
