//! Responder for the legacy discovery protocol.
//!
//! Each accepted connection runs a small state machine: a secure
//! handshake must finish before any frame is read; then frames are
//! answered one by one. A request for the server instance gets exactly
//! one descriptor response advertising the loopback main-tunnel address
//! — with the secure-transport flag cleared — after which the connection
//! closes; any other request gets an empty response carrying the same
//! correlation metadata and the connection stays open until an idle
//! timeout or the peer closes it.

use vstd::prelude::*;
use crate::constants::{LOOPBACK_IP, MAIN_PORT};
use crate::fields::{
    Field, FieldModel, FieldValue, FieldValueModel, encode_field, encode_fields, fields_view,
    lemma_fields_round_trip, spec_decode_fields, spec_encode_field, spec_encode_fields,
    valid_field, valid_fields,
};
use crate::packet::{FrameModel, Packet, PacketHeader, valid_frame, MAX_BODY_LEN};

verus! {

/// Component id of the redirector service.
pub const COMPONENT_REDIRECTOR: u16 = 0x5;

/// Command id of the instance-discovery request.
pub const COMMAND_GET_SERVER_INSTANCE: u16 = 0x1;

/// Message-type byte marking a response frame.
pub const MSG_TYPE_RESPONSE: u8 = 0x1;

/// Field tag "ADDR" (ASCII, padded to four bytes): the advertised address.
pub const TAG_ADDR: u32 = 0x4144_4452;

/// Field tag "VALU": the group carrying the address fields.
pub const TAG_VALU: u32 = 0x5641_4C55;

/// Field tag "IP": the advertised IPv4 address.
pub const TAG_IP: u32 = 0x4950_0000;

/// Field tag "PORT": the advertised port.
pub const TAG_PORT: u32 = 0x504F_5254;

/// Field tag "SECU": whether the client should reconnect over the
/// secure legacy transport.
pub const TAG_SECU: u32 = 0x5345_4355;

/// Field tag "XDNS": whether the client should re-resolve the host.
pub const TAG_XDNS: u32 = 0x5844_4E53;

/// A frame asking the redirector for the server instance.
pub open spec fn is_instance_request(h: PacketHeader) -> bool {
    h.component == COMPONENT_REDIRECTOR && h.command == COMMAND_GET_SERVER_INSTANCE
}

/// The address fields inside the descriptor: loopback, main-tunnel port.
pub open spec fn instance_address_fields() -> Seq<FieldModel> {
    seq![
        FieldModel { tag: TAG_IP, value: FieldValueModel::UInt(LOOPBACK_IP) },
        FieldModel { tag: TAG_PORT, value: FieldValueModel::UInt(MAIN_PORT as u32) },
    ]
}

/// The fields of the instance-descriptor body: the address union, and
/// the secure-transport and re-resolve flags both cleared, instructing
/// the client to reconnect in plaintext to the loopback tunnel.
pub open spec fn instance_fields() -> Seq<FieldModel> {
    seq![
        FieldModel {
            tag: TAG_ADDR,
            value: FieldValueModel::Union(
                0,
                spec_encode_field(
                    FieldModel {
                        tag: TAG_VALU,
                        value: FieldValueModel::Group(
                            spec_encode_fields(instance_address_fields()),
                        ),
                    },
                ),
            ),
        },
        FieldModel { tag: TAG_SECU, value: FieldValueModel::Boolean(false) },
        FieldModel { tag: TAG_XDNS, value: FieldValueModel::Boolean(false) },
    ]
}

/// Body contents of the redirection response: the loopback instance
/// descriptor.
pub struct ServerInstanceResponse;

impl ServerInstanceResponse {
    /// Serialises the descriptor to tagged-field bytes whose decoding is
    /// exactly `instance_fields`.
    pub fn serialize(&self) -> (r: Vec<u8>)
        ensures
            r@ == spec_encode_fields(instance_fields()),
            spec_decode_fields(r@) == Some(instance_fields()),
            r@.len() <= MAX_BODY_LEN,
    {
        let mut address: Vec<Field> = Vec::new();
        address.push(Field { tag: TAG_IP, value: FieldValue::UInt(LOOPBACK_IP) });
        address.push(Field { tag: TAG_PORT, value: FieldValue::UInt(MAIN_PORT as u32) });
        proof {
            assert(fields_view(address@) =~= instance_address_fields());
            assert(valid_fields(instance_address_fields()));
        }
        let group_bytes = encode_fields(&address);
        proof {
            assert(spec_encode_fields(instance_address_fields()).len() == 18) by {
                reveal_with_fuel(spec_encode_fields, 4);
                assert(instance_address_fields().skip(1) =~= seq![
                    FieldModel { tag: TAG_PORT, value: FieldValueModel::UInt(MAIN_PORT as u32) },
                ]);
                assert(instance_address_fields().skip(1).skip(1)
                    =~= Seq::<FieldModel>::empty());
            }
        }
        let mut valu_bytes: Vec<u8> = Vec::new();
        encode_field(
            &mut valu_bytes,
            &Field { tag: TAG_VALU, value: FieldValue::Group(group_bytes) },
        );
        let mut fields: Vec<Field> = Vec::new();
        fields.push(Field { tag: TAG_ADDR, value: FieldValue::Union(0, valu_bytes) });
        fields.push(Field { tag: TAG_SECU, value: FieldValue::Boolean(false) });
        fields.push(Field { tag: TAG_XDNS, value: FieldValue::Boolean(false) });
        proof {
            assert(fields_view(fields@) =~= instance_fields());
            assert(valid_fields(instance_fields()));
        }
        let body = encode_fields(&fields);
        proof {
            lemma_fields_round_trip(instance_fields());
            assert(spec_encode_fields(instance_fields()).len() <= MAX_BODY_LEN) by {
                reveal_with_fuel(spec_encode_fields, 5);
                assert(instance_fields().skip(1) =~= seq![
                    FieldModel { tag: TAG_SECU, value: FieldValueModel::Boolean(false) },
                    FieldModel { tag: TAG_XDNS, value: FieldValueModel::Boolean(false) },
                ]);
                assert(instance_fields().skip(1).skip(1) =~= seq![
                    FieldModel { tag: TAG_XDNS, value: FieldValueModel::Boolean(false) },
                ]);
                assert(instance_fields().skip(1).skip(1).skip(1)
                    =~= Seq::<FieldModel>::empty());
            }
        }
        body
    }
}

/// A response carries the request's correlation metadata: the same
/// component and command, with the response message type.
pub open spec fn correlated(req: FrameModel, resp: FrameModel) -> bool {
    &&& resp.header.component == req.header.component
    &&& resp.header.command == req.header.command
    &&& resp.header.ty == MSG_TYPE_RESPONSE
}

/// The empty acknowledgement owed to a request the redirector does not
/// serve.
pub open spec fn is_empty_response_to(req: FrameModel, resp: FrameModel) -> bool {
    &&& correlated(req, resp)
    &&& resp.body.len() == 0
}

/// The one descriptor response owed to an instance request.
pub open spec fn is_instance_response_to(req: FrameModel, resp: FrameModel) -> bool {
    &&& correlated(req, resp)
    &&& spec_decode_fields(resp.body) == Some(instance_fields())
    &&& valid_frame(resp)
}

impl Packet {
    /// Builds the empty response acknowledging `req`.
    pub fn response_empty(req: &Packet) -> (r: Packet)
        ensures
            is_empty_response_to(req@, r@),
            valid_frame(r@),
    {
        Packet {
            header: PacketHeader {
                component: req.header.component,
                command: req.header.command,
                ty: MSG_TYPE_RESPONSE,
            },
            body: Vec::new(),
        }
    }

    /// Builds the response to `req` carrying `body`.
    pub fn response_with_body(req: &Packet, body: Vec<u8>) -> (r: Packet)
        requires
            body@.len() <= MAX_BODY_LEN,
        ensures
            correlated(req@, r@),
            r@.body == body@,
            valid_frame(r@),
    {
        Packet {
            header: PacketHeader {
                component: req.header.component,
                command: req.header.command,
                ty: MSG_TYPE_RESPONSE,
            },
            body,
        }
    }
}

/// Phase of one redirector connection.
#[derive(Clone, Copy, PartialEq, Eq, Structural, Debug)]
pub enum RedirectorState {
    /// The secure legacy handshake has not finished yet; no frame may be
    /// read before it does.
    AwaitingSecureHandshake,
    /// Handshake done; racing the next frame against the idle timeout.
    AwaitingFrame,
    /// The idle timeout fired; the connection is being closed.
    TimedOut,
    /// The connection is finished, successfully or not.
    Closed,
}

/// Something that happened on the connection, handed in by the reader.
#[derive(Debug)]
pub enum RedirectorEvent {
    HandshakeCompleted,
    HandshakeFailed,
    FrameReceived(Packet),
    FramingFailed,
    IdleTimeout,
    PeerClosed,
}

/// Mathematical model of a connection event.
pub enum EventModel {
    HandshakeCompleted,
    HandshakeFailed,
    FrameReceived(FrameModel),
    FramingFailed,
    IdleTimeout,
    PeerClosed,
}

impl View for RedirectorEvent {
    type V = EventModel;

    open spec fn view(&self) -> EventModel {
        match self {
            RedirectorEvent::HandshakeCompleted => EventModel::HandshakeCompleted,
            RedirectorEvent::HandshakeFailed => EventModel::HandshakeFailed,
            RedirectorEvent::FrameReceived(p) => EventModel::FrameReceived(p@),
            RedirectorEvent::FramingFailed => EventModel::FramingFailed,
            RedirectorEvent::IdleTimeout => EventModel::IdleTimeout,
            RedirectorEvent::PeerClosed => EventModel::PeerClosed,
        }
    }
}

/// What the connection driver must do after a step.
#[derive(Debug)]
pub enum RedirectorAction {
    /// Keep reading: race the next frame against the idle timeout.
    AwaitInput,
    /// Send this empty acknowledgement, then keep reading.
    SendEmptyResponse(Packet),
    /// Send this instance descriptor, then close: terminal success.
    SendInstanceResponse(Packet),
    /// Close the connection without sending anything.
    CloseConnection,
}

/// Next state of the connection machine on an event.
pub open spec fn spec_next_state(s: RedirectorState, e: EventModel) -> RedirectorState {
    match s {
        RedirectorState::AwaitingSecureHandshake => match e {
            EventModel::HandshakeCompleted => RedirectorState::AwaitingFrame,
            _ => RedirectorState::Closed,
        },
        RedirectorState::AwaitingFrame => match e {
            EventModel::FrameReceived(p) => if is_instance_request(p.header) {
                RedirectorState::Closed
            } else {
                RedirectorState::AwaitingFrame
            },
            EventModel::IdleTimeout => RedirectorState::TimedOut,
            _ => RedirectorState::Closed,
        },
        RedirectorState::TimedOut => RedirectorState::TimedOut,
        RedirectorState::Closed => RedirectorState::Closed,
    }
}

/// Whether a step answers with the instance descriptor.
pub open spec fn spec_sends_instance(s: RedirectorState, e: EventModel) -> bool {
    &&& s is AwaitingFrame
    &&& e matches EventModel::FrameReceived(p) && is_instance_request(p.header)
}

/// Advances one redirector connection by one event. This is the whole
/// decision logic of the responder; the driver only performs the
/// returned action and feeds the next event back in.
pub fn redirector_step(state: RedirectorState, event: RedirectorEvent) -> (r: (
    RedirectorState,
    RedirectorAction,
))
    ensures
        r.0 == spec_next_state(state, event@),
        r.1 is SendInstanceResponse <==> spec_sends_instance(state, event@),
        match event@ {
            EventModel::FrameReceived(p) => {
                &&& state is AwaitingFrame && is_instance_request(p.header)
                    ==> (r.1 matches RedirectorAction::SendInstanceResponse(resp)
                        && is_instance_response_to(p, resp@))
                &&& state is AwaitingFrame && !is_instance_request(p.header)
                    ==> (r.1 matches RedirectorAction::SendEmptyResponse(resp)
                        && is_empty_response_to(p, resp@) && valid_frame(resp@))
            },
            _ => true,
        },
        state is AwaitingSecureHandshake && event@ is HandshakeCompleted
            ==> r.1 is AwaitInput,
        state is AwaitingSecureHandshake && !(event@ is HandshakeCompleted)
            ==> r.1 is CloseConnection,
        state is AwaitingFrame && !(event@ is FrameReceived) ==> r.1 is CloseConnection,
        state is TimedOut || state is Closed ==> r.1 is CloseConnection,
{
    match state {
        RedirectorState::AwaitingSecureHandshake => match event {
            RedirectorEvent::HandshakeCompleted => (
                RedirectorState::AwaitingFrame,
                RedirectorAction::AwaitInput,
            ),
            _ => (RedirectorState::Closed, RedirectorAction::CloseConnection),
        },
        RedirectorState::AwaitingFrame => match event {
            RedirectorEvent::FrameReceived(packet) => {
                if packet.header.component == COMPONENT_REDIRECTOR
                    && packet.header.command == COMMAND_GET_SERVER_INSTANCE {
                    let body = ServerInstanceResponse.serialize();
                    let response = Packet::response_with_body(&packet, body);
                    (
                        RedirectorState::Closed,
                        RedirectorAction::SendInstanceResponse(response),
                    )
                } else {
                    let response = Packet::response_empty(&packet);
                    (
                        RedirectorState::AwaitingFrame,
                        RedirectorAction::SendEmptyResponse(response),
                    )
                }
            },
            RedirectorEvent::IdleTimeout => (
                RedirectorState::TimedOut,
                RedirectorAction::CloseConnection,
            ),
            _ => (RedirectorState::Closed, RedirectorAction::CloseConnection),
        },
        RedirectorState::TimedOut => (
            RedirectorState::TimedOut,
            RedirectorAction::CloseConnection,
        ),
        RedirectorState::Closed => (RedirectorState::Closed, RedirectorAction::CloseConnection),
    }
}

/// State after a whole run of events.
pub open spec fn spec_run_state(s: RedirectorState, events: Seq<EventModel>) -> RedirectorState
    decreases events.len(),
{
    if events.len() == 0 {
        s
    } else {
        spec_run_state(spec_next_state(s, events[0]), events.skip(1))
    }
}

/// How many instance descriptors a run of events makes the responder
/// send.
pub open spec fn spec_instance_responses(s: RedirectorState, events: Seq<EventModel>) -> nat
    decreases events.len(),
{
    if events.len() == 0 {
        0
    } else {
        (if spec_sends_instance(s, events[0]) { 1nat } else { 0nat })
            + spec_instance_responses(spec_next_state(s, events[0]), events.skip(1))
    }
}

/// A finished connection never answers again: no event run from the
/// terminal states makes the responder send an instance descriptor.
pub proof fn lemma_terminal_states_silent(s: RedirectorState, events: Seq<EventModel>)
    requires
        s is Closed || s is TimedOut,
    ensures
        spec_instance_responses(s, events) == 0,
        spec_run_state(s, events) == s,
    decreases events.len(),
{
    if events.len() > 0 {
        lemma_terminal_states_silent(s, events.skip(1));
    }
}

/// Law behind "exactly one descriptor per connection": whatever events a
/// connection sees, in whatever order, the responder sends the instance
/// descriptor at most once — the step that sends it closes the
/// connection, and a closed connection never answers again.
pub proof fn lemma_at_most_one_instance_response(s: RedirectorState, events: Seq<EventModel>)
    ensures
        spec_instance_responses(s, events) <= 1,
    decreases events.len(),
{
    if events.len() > 0 {
        let s2 = spec_next_state(s, events[0]);
        if spec_sends_instance(s, events[0]) {
            lemma_terminal_states_silent(s2, events.skip(1));
        } else {
            lemma_at_most_one_instance_response(s2, events.skip(1));
        }
    }
}

/// A connection that completes its handshake and then receives one
/// instance request answers it exactly once and ends closed.
pub proof fn lemma_instance_request_answered(frame: FrameModel, events: Seq<EventModel>)
    requires
        is_instance_request(frame.header),
    ensures
        spec_instance_responses(
            RedirectorState::AwaitingSecureHandshake,
            seq![EventModel::HandshakeCompleted, EventModel::FrameReceived(frame)] + events,
        ) == 1,
        spec_run_state(
            RedirectorState::AwaitingSecureHandshake,
            seq![EventModel::HandshakeCompleted, EventModel::FrameReceived(frame)] + events,
        ) is Closed,
{
    let run = seq![EventModel::HandshakeCompleted, EventModel::FrameReceived(frame)] + events;
    let r1 = run.skip(1);
    let r2 = r1.skip(1);
    assert(run[0] == EventModel::HandshakeCompleted);
    assert(r1[0] == EventModel::FrameReceived(frame));
    assert(r2 =~= events);
    lemma_terminal_states_silent(RedirectorState::Closed, r2);
    assert(spec_instance_responses(RedirectorState::AwaitingFrame, r1)
        == 1 + spec_instance_responses(RedirectorState::Closed, r2));
    assert(spec_instance_responses(RedirectorState::AwaitingSecureHandshake, run)
        == spec_instance_responses(RedirectorState::AwaitingFrame, r1));
    assert(spec_run_state(RedirectorState::AwaitingFrame, r1)
        == spec_run_state(RedirectorState::Closed, r2));
    assert(spec_run_state(RedirectorState::AwaitingSecureHandshake, run)
        == spec_run_state(RedirectorState::AwaitingFrame, r1));
}

} // verus!
