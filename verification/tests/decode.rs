use socket_mode::message::decode;
use socket_mode::message::decode_document;
use socket_mode::message::interpret;
use socket_mode::message::read_command;
use socket_mode::message::read_fields;
use socket_mode::message::DecodeError;
use socket_mode::message::FrameFields;
use socket_mode::message::SocketModeMessage;
use socket_mode::message::SocketModeMessagePayload;

const COMMAND_FRAME: &str = "{\"type\":\"slash_commands\",\"envelope_id\":\"E1\",\"accepts_response_payload\":true,\"payload\":{\"token\":\"tok\",\"team_id\":\"T1\",\"team_domain\":\"acme\",\"channel_id\":\"C1\",\"channel_name\":\"general\",\"user_id\":\"U1\",\"user_name\":\"ada\",\"command\":\"/test\",\"text\":\"hi there\",\"api_app_id\":\"A1\",\"is_enterprise_install\":\"false\",\"response_url\":\"https://hooks.example.com/r\",\"trigger_id\":\"9.9\"}}";

fn sample_command() -> SocketModeMessagePayload {
    SocketModeMessagePayload {
        token: "tok".to_string(),
        team_id: "T1".to_string(),
        team_domain: "acme".to_string(),
        channel_id: "C1".to_string(),
        channel_name: "general".to_string(),
        user_id: "U1".to_string(),
        user_name: "ada".to_string(),
        command: "/test".to_string(),
        text: "hi there".to_string(),
        api_app_id: "A1".to_string(),
        is_enterprise_install: "false".to_string(),
        response_url: "https://hooks.example.com/r".to_string(),
        trigger_id: "9.9".to_string(),
    }
}

#[test]
fn decode_hello() {
    assert_eq!(decode("{\"type\":\"hello\"}"), Ok(SocketModeMessage::Hello {}));
}

#[test]
fn decode_hello_ignores_other_members() {
    let frame = "{\"num_connections\":1,\"type\":\"hello\",\"connection_info\":{\"app_id\":\"A1\"}}";
    assert_eq!(decode(frame), Ok(SocketModeMessage::Hello {}));
}

#[test]
fn decode_disconnect() {
    assert_eq!(
        decode("{\"type\":\"disconnect\",\"reason\":\"refresh_requested\"}"),
        Ok(SocketModeMessage::Disconnect { reason: "refresh_requested".to_string() })
    );
}

#[test]
fn decode_disconnect_without_reason_is_incomplete() {
    assert_eq!(decode("{\"type\":\"disconnect\"}"), Err(DecodeError::Incomplete));
    assert_eq!(decode("{\"type\":\"disconnect\",\"reason\":7}"), Err(DecodeError::Incomplete));
}

#[test]
fn decode_slash_command() {
    assert_eq!(
        decode(COMMAND_FRAME),
        Ok(SocketModeMessage::SlashCommands {
            envelope_id: "E1".to_string(),
            payload: sample_command(),
        })
    );
}

#[test]
fn decode_slash_command_with_a_member_missing_is_incomplete() {
    let frame = COMMAND_FRAME.replace("\"trigger_id\":\"9.9\"", "\"trigger\":\"9.9\"");
    assert_eq!(decode(&frame), Err(DecodeError::Incomplete));
    let frame = COMMAND_FRAME.replace("\"envelope_id\":\"E1\",", "");
    assert_eq!(decode(&frame), Err(DecodeError::Incomplete));
    let frame = "{\"type\":\"slash_commands\",\"envelope_id\":\"E1\",\"payload\":\"none\"}";
    assert_eq!(decode(frame), Err(DecodeError::Incomplete));
    let frame = "{\"type\":\"slash_commands\",\"envelope_id\":\"E1\"}";
    assert_eq!(decode(frame), Err(DecodeError::Incomplete));
}

#[test]
fn decode_slash_command_with_a_number_for_a_string_is_incomplete() {
    let frame = COMMAND_FRAME.replace("\"team_id\":\"T1\"", "\"team_id\":1");
    assert_eq!(decode(&frame), Err(DecodeError::Incomplete));
}

#[test]
fn decode_interactive() {
    let frame = "{\"envelope_id\":\"abc-123\",\"payload\":{\"type\":\"block_actions\"},\"type\":\"interactive\"}";
    assert_eq!(
        decode(frame),
        Ok(SocketModeMessage::Interactive { envelope_id: "abc-123".to_string() })
    );
}

#[test]
fn decode_interactive_without_id_is_incomplete() {
    assert_eq!(decode("{\"type\":\"interactive\"}"), Err(DecodeError::Incomplete));
    assert_eq!(
        decode("{\"type\":\"interactive\",\"envelope_id\":null}"),
        Err(DecodeError::Incomplete)
    );
}

#[test]
fn decode_keeps_the_envelope_id_as_it_came() {
    let frame = "{\"type\":\"interactive\",\"envelope_id\":\" a\\\"b\\\\c\\u00e9\\n \"}";
    assert_eq!(
        decode(frame),
        Ok(SocketModeMessage::Interactive { envelope_id: " a\"b\\c\u{e9}\n ".to_string() })
    );
}

#[test]
fn decode_unknown_kind() {
    assert_eq!(decode("{\"type\":\"events_api\",\"envelope_id\":\"E9\"}"), Err(DecodeError::UnknownKind));
    assert_eq!(decode("{\"type\":\"Hello\"}"), Err(DecodeError::UnknownKind));
    assert_eq!(decode("{\"type\":\"\"}"), Err(DecodeError::UnknownKind));
}

#[test]
fn decode_untagged() {
    assert_eq!(decode("{}"), Err(DecodeError::Untagged));
    assert_eq!(decode("{\"reason\":\"x\"}"), Err(DecodeError::Untagged));
    assert_eq!(decode("{\"type\":5}"), Err(DecodeError::Untagged));
    assert_eq!(decode("[\"hello\"]"), Err(DecodeError::Untagged));
    assert_eq!(decode("\"hello\""), Err(DecodeError::Untagged));
    assert_eq!(decode("null"), Err(DecodeError::Untagged));
}

#[test]
fn decode_malformed() {
    assert_eq!(decode(""), Err(DecodeError::Malformed));
    assert_eq!(decode("hello"), Err(DecodeError::Malformed));
    assert_eq!(decode("{\"type\":\"hello\""), Err(DecodeError::Malformed));
    assert_eq!(decode("{\"type\":\"hello\"} trailing"), Err(DecodeError::Malformed));
}

#[test]
fn decode_document_reads_a_parsed_frame() {
    let doc: serde_json::Value = serde_json::from_str(COMMAND_FRAME).unwrap();
    assert_eq!(
        decode_document(&doc),
        Ok(SocketModeMessage::SlashCommands {
            envelope_id: "E1".to_string(),
            payload: sample_command(),
        })
    );
    let doc: serde_json::Value = serde_json::from_str("[1,2]").unwrap();
    assert_eq!(decode_document(&doc), Err(DecodeError::Untagged));
}

#[test]
fn read_fields_finds_what_is_there() {
    let doc: serde_json::Value =
        serde_json::from_str("{\"type\":\"disconnect\",\"reason\":\"warning\",\"envelope_id\":3}")
            .unwrap();
    assert_eq!(
        read_fields(&doc),
        FrameFields {
            kind: Some("disconnect".to_string()),
            reason: Some("warning".to_string()),
            envelope_id: None,
            payload: None,
        }
    );
    let doc: serde_json::Value = serde_json::from_str(COMMAND_FRAME).unwrap();
    assert_eq!(
        read_fields(&doc),
        FrameFields {
            kind: Some("slash_commands".to_string()),
            reason: None,
            envelope_id: Some("E1".to_string()),
            payload: Some(sample_command()),
        }
    );
}

#[test]
fn read_command_wants_every_member() {
    let doc: serde_json::Value = serde_json::from_str(COMMAND_FRAME).unwrap();
    assert_eq!(read_command(&doc["payload"]), Some(sample_command()));
    assert_eq!(read_command(&doc), None);
    let doc: serde_json::Value = serde_json::from_str("{\"token\":\"tok\"}").unwrap();
    assert_eq!(read_command(&doc), None);
}

#[test]
fn interpret_follows_the_kind() {
    let fields = FrameFields {
        kind: Some("interactive".to_string()),
        reason: Some("ignored".to_string()),
        envelope_id: Some("E7".to_string()),
        payload: Some(sample_command()),
    };
    assert_eq!(
        interpret(fields.clone()),
        Ok(SocketModeMessage::Interactive { envelope_id: "E7".to_string() })
    );
    let fields = FrameFields { kind: Some("slash_commands".to_string()), ..fields };
    assert_eq!(
        interpret(fields.clone()),
        Ok(SocketModeMessage::SlashCommands {
            envelope_id: "E7".to_string(),
            payload: sample_command(),
        })
    );
    let fields = FrameFields { kind: Some("disconnect".to_string()), ..fields };
    assert_eq!(
        interpret(fields.clone()),
        Ok(SocketModeMessage::Disconnect { reason: "ignored".to_string() })
    );
    let fields = FrameFields { kind: Some("hello".to_string()), ..fields };
    assert_eq!(interpret(fields.clone()), Ok(SocketModeMessage::Hello {}));
    let fields = FrameFields { kind: Some("goodbye".to_string()), ..fields };
    assert_eq!(interpret(fields.clone()), Err(DecodeError::UnknownKind));
    let fields = FrameFields { kind: None, ..fields };
    assert_eq!(interpret(fields), Err(DecodeError::Untagged));
}

#[test]
fn interpret_reports_what_is_missing() {
    let bare = FrameFields { kind: None, reason: None, envelope_id: None, payload: None };
    let fields = FrameFields { kind: Some("disconnect".to_string()), ..bare.clone() };
    assert_eq!(interpret(fields), Err(DecodeError::Incomplete));
    let fields = FrameFields { kind: Some("interactive".to_string()), ..bare.clone() };
    assert_eq!(interpret(fields), Err(DecodeError::Incomplete));
    let fields = FrameFields {
        kind: Some("slash_commands".to_string()),
        envelope_id: Some("E1".to_string()),
        ..bare.clone()
    };
    assert_eq!(interpret(fields), Err(DecodeError::Incomplete));
    let fields = FrameFields {
        kind: Some("slash_commands".to_string()),
        payload: Some(sample_command()),
        ..bare
    };
    assert_eq!(interpret(fields), Err(DecodeError::Incomplete));
}
