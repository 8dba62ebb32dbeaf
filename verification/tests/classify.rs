use levin::msg::{Msg, MsgData, MsgError, MsgType};
use levin::raw_header::{RawHeader, SIGNATURE, VERSION};

fn header(expect_response: u8, return_code: u32, flags: u32) -> RawHeader {
    RawHeader {
        signature: SIGNATURE,
        length: 0,
        expect_response,
        command: 2001,
        return_code,
        flags,
        version: VERSION,
    }
}

#[test]
fn classifies_notification() {
    assert_eq!(MsgType::from_header(&header(0, 0, 1)).unwrap(), MsgType::Notification);
}

#[test]
fn classifies_request() {
    assert_eq!(MsgType::from_header(&header(1, 0, 1)).unwrap(), MsgType::Request);
    assert_eq!(MsgType::from_header(&header(200, 0, 1)).unwrap(), MsgType::Request);
}

#[test]
fn classifies_response() {
    assert_eq!(
        MsgType::from_header(&header(0, 7, 2)).unwrap(),
        MsgType::Response { return_code: 7 }
    );
    assert_eq!(
        MsgType::from_header(&header(0, 0, 2)).unwrap(),
        MsgType::Response { return_code: 0 }
    );
}

#[test]
fn response_that_expects_a_response_is_invalid() {
    let h = header(1, 0, 2);
    let r = MsgType::from_header(&h);
    assert!(matches!(r, Err(MsgError::InvalidResponse(got)) if got == h));
}

#[test]
fn request_with_a_return_code_is_invalid() {
    let h = header(0, 5, 1);
    let r = MsgType::from_header(&h);
    assert!(matches!(r, Err(MsgError::InvalidRequest(got)) if got == h));
    let h = header(1, 5, 1);
    assert!(matches!(MsgType::from_header(&h), Err(MsgError::InvalidRequest(_))));
}

#[test]
fn other_flags_are_unknown() {
    assert_eq!(
        MsgType::from_header(&header(3, 4, 99)).unwrap(),
        MsgType::Unknown { expect_response: 3, return_code: 4, flags: 99 }
    );
    assert_eq!(
        MsgType::from_header(&header(0, 0, 0)).unwrap(),
        MsgType::Unknown { expect_response: 0, return_code: 0, flags: 0 }
    );
}

#[test]
fn kinds_are_written_as_their_triple() {
    assert_eq!(MsgType::Notification.to_triple(), (0, 0, 1));
    assert_eq!(MsgType::Request.to_triple(), (1, 0, 1));
    assert_eq!(MsgType::Response { return_code: 7 }.to_triple(), (0, 7, 2));
    assert_eq!(
        MsgType::Unknown { expect_response: 3, return_code: 4, flags: 99 }.to_triple(),
        (3, 4, 99)
    );
}

#[test]
fn written_triple_classifies_as_the_same_kind() {
    let kinds = [
        MsgType::Notification,
        MsgType::Request,
        MsgType::Response { return_code: 0xffff_ffff },
        MsgType::Unknown { expect_response: 9, return_code: 8, flags: 3 },
    ];
    for kind in kinds {
        let (e, r, f) = kind.to_triple();
        assert_eq!(MsgType::from_header(&header(e, r, f)).unwrap(), kind);
    }
}

#[test]
fn outgoing_kind_follows_the_return_code() {
    assert_eq!(MsgType::for_return_code(None), MsgType::Request);
    assert_eq!(MsgType::for_return_code(Some(1)), MsgType::Response { return_code: 1 });
}

#[test]
fn invalid_kind_is_reported_before_the_payload() {
    let mut h = header(0, 5, 1);
    h.command = 1001;
    let r = Msg::from_raw_parts(h, vec![0xff, 0xff]);
    assert!(matches!(r, Err(MsgError::InvalidRequest(_))));
    let mut h = header(1, 0, 2);
    h.command = 1002;
    let r = Msg::from_raw_parts(h, vec![]);
    assert!(matches!(r, Err(MsgError::InvalidResponse(_))));
}

#[test]
fn new_block_and_new_transactions_are_tags_only() {
    let mut h = header(0, 0, 1);
    h.command = 2001;
    let msg = Msg::from_raw_parts(h, vec![1, 2, 3]).unwrap();
    assert_eq!(msg.msg_type, MsgType::Notification);
    assert!(matches!(msg.msg_data, MsgData::NewBlock));
    assert_eq!(msg.msg_data.command(), 2001);
    h.command = 2002;
    let msg = Msg::from_raw_parts(h, vec![]).unwrap();
    assert!(matches!(msg.msg_data, MsgData::NewTransactions));
    assert_eq!(msg.msg_data.command(), 2002);
}

#[test]
fn unknown_command_keeps_its_bytes() {
    let payload = vec![0xde, 0xad, 0xbe, 0xef, 0x00, 0x01];
    let mut h = header(1, 0, 1);
    h.command = 9999;
    h.length = payload.len() as u64;
    let mut wire: Vec<u8> = h.to_vec();
    wire.extend_from_slice(&payload);

    let msg = Msg::from_raw_parts(h, payload.clone()).unwrap();
    assert_eq!(msg.msg_type, MsgType::Request);
    match &msg.msg_data {
        MsgData::Unknown { command, data } => {
            assert_eq!(*command, 9999);
            assert_eq!(data, &payload);
        }
        other => panic!("decoded as {:?}", other),
    }
    assert_eq!(msg.to_bytes().unwrap(), wire);
}

#[test]
fn unknown_command_with_empty_payload() {
    let msg = Msg {
        msg_type: MsgType::Response { return_code: 3 },
        msg_data: MsgData::Unknown { command: 0, data: vec![] },
    };
    let bytes = msg.to_bytes().unwrap();
    assert_eq!(bytes.len(), 33);
    let expected = RawHeader {
        signature: SIGNATURE,
        length: 0,
        expect_response: 0,
        command: 0,
        return_code: 3,
        flags: 2,
        version: VERSION,
    };
    assert_eq!(bytes, expected.to_vec());
}

#[test]
fn frame_puts_the_header_before_the_payload() {
    let bytes = Msg::frame(MsgType::Notification, 2001, vec![7, 8, 9]);
    let expected = RawHeader {
        signature: SIGNATURE,
        length: 3,
        expect_response: 0,
        command: 2001,
        return_code: 0,
        flags: 1,
        version: VERSION,
    };
    assert_eq!(&bytes[..33], expected.to_vec().as_slice());
    assert_eq!(&bytes[33..], &[7, 8, 9]);
}

#[test]
fn requests_of_the_three_commands_are_answered() {
    let reply = Msg::reply_to(&Msg::cmd_handshake(None).msg_data).unwrap();
    assert_eq!(reply.msg_type, MsgType::Response { return_code: 1 });
    assert!(matches!(reply.msg_data, MsgData::Handshake(_)));
    let reply = Msg::reply_to(&Msg::cmd_timed_sync(None).msg_data).unwrap();
    assert_eq!(reply.msg_type, MsgType::Response { return_code: 1 });
    assert!(matches!(reply.msg_data, MsgData::TimedSync(_)));
    let reply = Msg::reply_to(&Msg::cmd_support_flags(None).msg_data).unwrap();
    assert_eq!(reply.msg_type, MsgType::Response { return_code: 1 });
    assert!(matches!(reply.msg_data, MsgData::SupportFlags(_)));
}

#[test]
fn other_requests_get_no_reply() {
    assert!(Msg::reply_to(&MsgData::NewBlock).is_none());
    assert!(Msg::reply_to(&MsgData::NewTransactions).is_none());
    assert!(Msg::reply_to(&MsgData::Unknown { command: 9999, data: vec![1] }).is_none());
}
