use wasmbed::device::{check_heartbeat_answer, heartbeat_response, Client, ClientError};
use wasmbed::protocol::MessageId;

#[test]
fn heartbeat_request_frames_and_advances() {
    let mut c = Client::new();
    let (id, frame) = c.heartbeat_request();
    assert_eq!(id, MessageId(0));
    assert_eq!(frame, vec![0, 0, 0, 5, 0x83, 0x00, 0x00, 0x81, 0x00]);
    let (id, frame) = c.heartbeat_request();
    assert_eq!(id, MessageId(1));
    assert_eq!(frame, vec![0, 0, 0, 5, 0x83, 0x00, 0x01, 0x81, 0x00]);
}

#[test]
fn heartbeat_answer_is_checked() {
    let ack = [0, 0, 0, 5, 0x83, 0x00, 0x01, 0x81, 0x01];
    assert_eq!(heartbeat_response(MessageId(1), &ack), Ok(()));
    assert_eq!(heartbeat_response(MessageId(2), &ack), Err(ClientError::UnexpectedResponse));
    assert_eq!(heartbeat_response(MessageId(1), &ack[..8]), Err(ClientError::InvalidResponse));
    assert_eq!(heartbeat_response(MessageId(1), &ack[..3]), Err(ClientError::InvalidResponse));
    assert_eq!(
        heartbeat_response(MessageId(1), &[0x01, 0, 0, 1, 0x83]),
        Err(ClientError::InvalidResponse)
    );
    assert_eq!(
        check_heartbeat_answer(MessageId(1), &[0x83, 0x00, 0x01, 0x81, 0x02]),
        Err(ClientError::InvalidResponse)
    );
    assert_eq!(check_heartbeat_answer(MessageId(1), &[0x83, 0x00, 0x01, 0x81, 0x01]), Ok(()));
}
