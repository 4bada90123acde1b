use socket_mode::ack::acknowledgement;
use socket_mode::ack::encode;
use socket_mode::ack::SocketModeAcknowledgeMessage;
use socket_mode::message::SocketModeMessage;
use socket_mode::message::SocketModeMessagePayload;
use socket_mode::response::build_response;
use socket_mode::response::Accessory;
use socket_mode::response::Block;
use socket_mode::response::Payload;
use socket_mode::response::Text;

const DEMO_PAYLOAD_JSON: &str = "{\"text\":\"\",\"response_type\":\"ephemeral\",\"blocks\":[{\"text\":{\"type\":\"mrkdwn\",\"text\":\"hogehoge\"},\"type\":\"section\",\"accessory\":{\"type\":\"button\",\"text\":{\"type\":\"plain_text\",\"text\":\"Click Me.\"},\"value\":\"click-me\",\"action_id\":\"button-action\"}}]}";

fn command(text: &str) -> SocketModeMessagePayload {
    SocketModeMessagePayload {
        token: "tok".to_string(),
        team_id: "T1".to_string(),
        team_domain: "acme".to_string(),
        channel_id: "C1".to_string(),
        channel_name: "general".to_string(),
        user_id: "U1".to_string(),
        user_name: "ada".to_string(),
        command: text.to_string(),
        text: "".to_string(),
        api_app_id: "A1".to_string(),
        is_enterprise_install: "false".to_string(),
        response_url: "https://hooks.example.com/r".to_string(),
        trigger_id: "9.9".to_string(),
    }
}

fn demo_payload() -> Payload {
    Payload {
        text: "".to_string(),
        response_type: "ephemeral".to_string(),
        blocks: vec![Block {
            text: Text { kind: "mrkdwn".to_string(), text: "hogehoge".to_string() },
            kind: "section".to_string(),
            accessory: Some(Accessory {
                kind: "button".to_string(),
                text: Text { kind: "plain_text".to_string(), text: "Click Me.".to_string() },
                value: "click-me".to_string(),
                action_id: "button-action".to_string(),
            }),
        }],
    }
}

#[test]
fn build_response_gives_the_demonstration_payload() {
    assert_eq!(build_response(&command("/test")), demo_payload());
    assert_eq!(build_response(&command("/anything else")), demo_payload());
}

#[test]
fn build_response_has_a_block_and_a_response_type() {
    let payload = build_response(&command("/test"));
    assert_eq!(payload.blocks.len(), 1);
    assert_eq!(payload.response_type, "ephemeral");
    assert_eq!(payload.blocks[0].accessory.as_ref().unwrap().action_id, "button-action");
}

#[test]
fn acknowledgement_of_a_command_carries_its_id_and_a_payload() {
    let message = SocketModeMessage::SlashCommands {
        envelope_id: "E1".to_string(),
        payload: command("/test"),
    };
    assert_eq!(
        acknowledgement(&message),
        Some(SocketModeAcknowledgeMessage {
            envelope_id: "E1".to_string(),
            payload: Some(demo_payload()),
        })
    );
}

#[test]
fn acknowledgement_of_an_interaction_carries_its_id_alone() {
    let message = SocketModeMessage::Interactive { envelope_id: "57d6a792-4d35".to_string() };
    assert_eq!(
        acknowledgement(&message),
        Some(SocketModeAcknowledgeMessage {
            envelope_id: "57d6a792-4d35".to_string(),
            payload: None,
        })
    );
}

#[test]
fn acknowledgement_is_not_owed_to_hello_or_disconnect() {
    assert_eq!(acknowledgement(&SocketModeMessage::Hello {}), None);
    let message = SocketModeMessage::Disconnect { reason: "warning".to_string() };
    assert_eq!(acknowledgement(&message), None);
}

#[test]
fn encode_without_payload() {
    let ack = SocketModeAcknowledgeMessage { envelope_id: "E2".to_string(), payload: None };
    assert_eq!(encode(&ack), "{\"envelope_id\":\"E2\"}");
}

#[test]
fn encode_without_payload_has_no_payload_member() {
    let ack = SocketModeAcknowledgeMessage { envelope_id: "E2".to_string(), payload: None };
    let parsed: serde_json::Value = serde_json::from_str(&encode(&ack)).unwrap();
    let members = parsed.as_object().unwrap();
    assert_eq!(members.len(), 1);
    assert!(!members.contains_key("payload"));
    assert_eq!(members["envelope_id"], serde_json::Value::String("E2".to_string()));
}

#[test]
fn encode_with_the_demonstration_payload() {
    let ack = SocketModeAcknowledgeMessage {
        envelope_id: "E1".to_string(),
        payload: Some(demo_payload()),
    };
    let expected = format!("{{\"envelope_id\":\"E1\",\"payload\":{}}}", DEMO_PAYLOAD_JSON);
    assert_eq!(encode(&ack), expected);
}

#[test]
fn encode_escapes_what_json_asks_for() {
    let ack = SocketModeAcknowledgeMessage {
        envelope_id: "a\"b\\c\n\u{1}\u{e9}".to_string(),
        payload: None,
    };
    assert_eq!(encode(&ack), "{\"envelope_id\":\"a\\\"b\\\\c\\n\\u0001\u{e9}\"}");
    let parsed: serde_json::Value = serde_json::from_str(&encode(&ack)).unwrap();
    assert_eq!(parsed["envelope_id"].as_str(), Some("a\"b\\c\n\u{1}\u{e9}"));
}

#[test]
fn encode_without_blocks() {
    let ack = SocketModeAcknowledgeMessage {
        envelope_id: "E3".to_string(),
        payload: Some(Payload {
            text: "done".to_string(),
            response_type: "in_channel".to_string(),
            blocks: vec![],
        }),
    };
    assert_eq!(
        encode(&ack),
        "{\"envelope_id\":\"E3\",\"payload\":{\"text\":\"done\",\"response_type\":\"in_channel\",\"blocks\":[]}}"
    );
}

#[test]
fn encode_separates_blocks_and_writes_null_for_no_accessory() {
    let plain = |text: &str| Block {
        text: Text { kind: "mrkdwn".to_string(), text: text.to_string() },
        kind: "section".to_string(),
        accessory: None,
    };
    let ack = SocketModeAcknowledgeMessage {
        envelope_id: "E4".to_string(),
        payload: Some(Payload {
            text: "".to_string(),
            response_type: "ephemeral".to_string(),
            blocks: vec![plain("one"), plain("two"), plain("three")],
        }),
    };
    let block = |text: &str| {
        format!(
            "{{\"text\":{{\"type\":\"mrkdwn\",\"text\":\"{}\"}},\"type\":\"section\",\"accessory\":null}}",
            text
        )
    };
    let expected = format!(
        "{{\"envelope_id\":\"E4\",\"payload\":{{\"text\":\"\",\"response_type\":\"ephemeral\",\"blocks\":[{},{},{}]}}}}",
        block("one"),
        block("two"),
        block("three")
    );
    assert_eq!(encode(&ack), expected);
    let parsed: serde_json::Value = serde_json::from_str(&encode(&ack)).unwrap();
    assert_eq!(parsed["payload"]["blocks"].as_array().unwrap().len(), 3);
    assert_eq!(parsed["payload"]["blocks"][1]["text"]["text"].as_str(), Some("two"));
    assert!(parsed["payload"]["blocks"][2]["accessory"].is_null());
}

#[test]
fn encode_of_a_command_ack_parses_back() {
    let message = SocketModeMessage::SlashCommands {
        envelope_id: "E1".to_string(),
        payload: command("/test"),
    };
    let ack = acknowledgement(&message).unwrap();
    let parsed: serde_json::Value = serde_json::from_str(&encode(&ack)).unwrap();
    assert_eq!(parsed["envelope_id"].as_str(), Some("E1"));
    assert_eq!(parsed["payload"]["response_type"].as_str(), Some("ephemeral"));
    let blocks = parsed["payload"]["blocks"].as_array().unwrap();
    assert!(!blocks.is_empty());
    assert_eq!(blocks[0]["accessory"]["action_id"].as_str(), Some("button-action"));
    assert_eq!(parsed.as_object().unwrap().len(), 2);
}
