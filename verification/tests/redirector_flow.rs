use pocket_relay_plugin::constants::{LOOPBACK_IP, MAIN_PORT};
use pocket_relay_plugin::fields::{decode_fields, Field, FieldValue};
use pocket_relay_plugin::packet::{Packet, PacketHeader};
use pocket_relay_plugin::redirector::{
    redirector_step, RedirectorAction, RedirectorEvent, RedirectorState, ServerInstanceResponse,
    COMMAND_GET_SERVER_INSTANCE, COMPONENT_REDIRECTOR, MSG_TYPE_RESPONSE, TAG_ADDR, TAG_IP,
    TAG_PORT, TAG_SECU, TAG_VALU, TAG_XDNS,
};

fn request(component: u16, command: u16) -> Packet {
    Packet { header: PacketHeader { component, command, ty: 0 }, body: Vec::new() }
}

fn find_field<'a>(fields: &'a [Field], tag: u32) -> &'a Field {
    fields.iter().find(|f| f.tag == tag).expect("field present")
}

/// Walks the serialized descriptor down to its advertised address and
/// flags, checking every value.
fn assert_descriptor_advertises_loopback(body: &Vec<u8>) {
    let fields = decode_fields(body).expect("descriptor body decodes");
    assert_eq!(fields.len(), 3);

    let addr = find_field(&fields, TAG_ADDR);
    let (key, payload) = match &addr.value {
        FieldValue::Union(key, payload) => (*key, payload),
        _ => panic!("ADDR must be a union"),
    };
    assert_eq!(key, 0);

    let valu_fields = decode_fields(payload).expect("union payload decodes");
    assert_eq!(valu_fields.len(), 1);
    assert_eq!(valu_fields[0].tag, TAG_VALU);
    let group = match &valu_fields[0].value {
        FieldValue::Group(group) => group,
        _ => panic!("VALU must be a group"),
    };

    let address = decode_fields(group).expect("group payload decodes");
    assert_eq!(address.len(), 2);
    assert_eq!(address[0].tag, TAG_IP);
    assert!(matches!(address[0].value, FieldValue::UInt(ip) if ip == LOOPBACK_IP));
    assert_eq!(address[1].tag, TAG_PORT);
    assert!(matches!(address[1].value, FieldValue::UInt(port) if port == MAIN_PORT as u32));

    // The secure-transport flag must be cleared: the client reconnects
    // in plaintext. The re-resolve flag is cleared too.
    let secu = find_field(&fields, TAG_SECU);
    assert!(matches!(secu.value, FieldValue::Boolean(false)));
    let xdns = find_field(&fields, TAG_XDNS);
    assert!(matches!(xdns.value, FieldValue::Boolean(false)));
}

#[test]
fn serialized_descriptor_advertises_loopback_main_port() {
    let body = ServerInstanceResponse.serialize();
    assert_descriptor_advertises_loopback(&body);
}

#[test]
fn instance_request_gets_one_descriptor_then_close() {
    // Handshake first: no frame is served before it completes.
    let (s, a) = redirector_step(
        RedirectorState::AwaitingSecureHandshake,
        RedirectorEvent::HandshakeCompleted,
    );
    assert_eq!(s, RedirectorState::AwaitingFrame);
    assert!(matches!(a, RedirectorAction::AwaitInput));

    // The matching request gets the descriptor, and the connection is
    // terminal afterwards.
    let (s, a) = redirector_step(
        s,
        RedirectorEvent::FrameReceived(request(COMPONENT_REDIRECTOR, COMMAND_GET_SERVER_INSTANCE)),
    );
    assert_eq!(s, RedirectorState::Closed);
    let response = match a {
        RedirectorAction::SendInstanceResponse(response) => response,
        _ => panic!("expected the instance response"),
    };
    assert_eq!(response.header.component, COMPONENT_REDIRECTOR);
    assert_eq!(response.header.command, COMMAND_GET_SERVER_INSTANCE);
    assert_eq!(response.header.ty, MSG_TYPE_RESPONSE);
    assert_descriptor_advertises_loopback(&response.body);

    // Once closed, nothing more is ever sent.
    let (s, a) = redirector_step(
        s,
        RedirectorEvent::FrameReceived(request(COMPONENT_REDIRECTOR, COMMAND_GET_SERVER_INSTANCE)),
    );
    assert_eq!(s, RedirectorState::Closed);
    assert!(matches!(a, RedirectorAction::CloseConnection));
}

#[test]
fn other_requests_get_empty_ack_and_connection_stays_open() {
    let mut state = RedirectorState::AwaitingFrame;
    // Any number of non-matching requests are acknowledged in turn.
    for command in [2u16, 3, 4] {
        let (s, a) = redirector_step(state, RedirectorEvent::FrameReceived(request(9, command)));
        state = s;
        assert_eq!(state, RedirectorState::AwaitingFrame);
        let response = match a {
            RedirectorAction::SendEmptyResponse(response) => response,
            _ => panic!("expected the empty acknowledgement"),
        };
        assert_eq!(response.header.component, 9);
        assert_eq!(response.header.command, command);
        assert_eq!(response.header.ty, MSG_TYPE_RESPONSE);
        assert!(response.body.is_empty());
    }

    // With no further traffic the idle timeout closes the connection.
    let (s, a) = redirector_step(state, RedirectorEvent::IdleTimeout);
    assert_eq!(s, RedirectorState::TimedOut);
    assert!(matches!(a, RedirectorAction::CloseConnection));
}

#[test]
fn handshake_failure_closes_only_this_connection() {
    let (s, a) = redirector_step(
        RedirectorState::AwaitingSecureHandshake,
        RedirectorEvent::HandshakeFailed,
    );
    assert_eq!(s, RedirectorState::Closed);
    assert!(matches!(a, RedirectorAction::CloseConnection));
}

#[test]
fn framing_failure_closes_the_connection() {
    let (s, a) = redirector_step(RedirectorState::AwaitingFrame, RedirectorEvent::FramingFailed);
    assert_eq!(s, RedirectorState::Closed);
    assert!(matches!(a, RedirectorAction::CloseConnection));
}

#[test]
fn peer_close_ends_the_connection() {
    let (s, a) = redirector_step(RedirectorState::AwaitingFrame, RedirectorEvent::PeerClosed);
    assert_eq!(s, RedirectorState::Closed);
    assert!(matches!(a, RedirectorAction::CloseConnection));
}
