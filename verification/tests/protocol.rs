use runixeer::protocol::{ControlMessage, ProtocolError};

#[test]
fn wire_text_of_each_message() {
    assert_eq!(ControlMessage::FetchList.encode(), "FetchList");
    assert_eq!(ControlMessage::Refresh.encode(), "Refresh");
    assert_eq!(ControlMessage::Terminate.encode(), "Terminate");
}

#[test]
fn decode_reads_each_wire_text() {
    assert!(matches!(ControlMessage::decode("FetchList"), Ok(ControlMessage::FetchList)));
    assert!(matches!(ControlMessage::decode("Refresh"), Ok(ControlMessage::Refresh)));
    assert!(matches!(ControlMessage::decode("Terminate"), Ok(ControlMessage::Terminate)));
}

#[test]
fn decode_reads_the_aliases() {
    assert!(matches!(ControlMessage::decode("GetList"), Ok(ControlMessage::FetchList)));
    assert!(matches!(ControlMessage::decode("Exit"), Ok(ControlMessage::Terminate)));
}

#[test]
fn decode_after_encode_gives_the_message_back() {
    for message in [ControlMessage::FetchList, ControlMessage::Refresh, ControlMessage::Terminate] {
        let text = message.encode();
        match ControlMessage::decode(&text) {
            Ok(decoded) => assert_eq!(decoded, message),
            Err(e) => panic!("unexpected: {:?}", e),
        }
    }
}

#[test]
fn decode_rejects_what_is_no_message() {
    for payload in ["", "Quit", "terminate", "Terminate ", "FetchListRefresh", "Exit\n"] {
        match ControlMessage::decode(payload) {
            Err(ProtocolError::Decode(cause)) => assert_eq!(cause, payload),
            Ok(message) => panic!("{:?} read as {:?}", payload, message),
        }
    }
}
