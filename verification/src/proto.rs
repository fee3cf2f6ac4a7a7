//! Message registry for the connection core: the numeric type id of every
//! known message kind, the canonical-payload encoder, and the inbound
//! dispatch. Message bodies use the field-tagged binary encoding, which
//! the registry consumes as an opaque per-field capability.

use vstd::prelude::*;

use crate::decimal::{dec_str, u16_dec_str};
use crate::error::{ClientError, ProtocolError, StreamError};
use crate::client::plain::canonical_payload;

verus! {

/// Major half of the compiled-in API version.
pub const API_VERSION_MAJOR: u32 = 1;

/// Minor half of the compiled-in API version.
pub const API_VERSION_MINOR: u32 = 10;

/// Opens the hello exchange; the first message of connection setup.
#[derive(Debug, Clone, PartialEq)]
pub struct HelloRequest {
    pub client_info: String,
    pub api_version_major: u32,
    pub api_version_minor: u32,
}

/// The server's answer to `HelloRequest`, carrying its API version.
#[derive(Debug, Clone, PartialEq)]
pub struct HelloResponse {
    pub api_version_major: u32,
    pub api_version_minor: u32,
    pub server_info: String,
    pub name: String,
}

/// Authenticates with the legacy password, empty when unset.
#[derive(Debug, Clone, PartialEq)]
pub struct ConnectRequest {
    pub password: String,
}

/// The server's answer to `ConnectRequest`.
#[derive(Debug, Clone, PartialEq)]
pub struct ConnectResponse {
    pub invalid_password: bool,
}

/// Announces a graceful disconnect.
#[derive(Debug, Clone, PartialEq, Eq, Structural)]
pub struct DisconnectRequest {}

/// Acknowledges a disconnect request.
#[derive(Debug, Clone, PartialEq, Eq, Structural)]
pub struct DisconnectResponse {}

/// The server's keep-alive probe.
#[derive(Debug, Clone, PartialEq, Eq, Structural)]
pub struct PingRequest {}

/// The client's answer to a keep-alive probe.
#[derive(Debug, Clone, PartialEq, Eq, Structural)]
pub struct PingResponse {}

/// Tagged union over the known message kinds of the connection core.
#[derive(Debug, Clone, PartialEq)]
pub enum EspHomeMessage {
    HelloRequest(HelloRequest),
    HelloResponse(HelloResponse),
    ConnectRequest(ConnectRequest),
    ConnectResponse(ConnectResponse),
    DisconnectRequest(DisconnectRequest),
    DisconnectResponse(DisconnectResponse),
    PingRequest(PingRequest),
    PingResponse(PingResponse),
}

impl EspHomeMessage {
    /// Numeric type id of this message kind on the wire.
    pub open spec fn type_id_spec(&self) -> u16 {
        match self {
            EspHomeMessage::HelloRequest(_) => 1,
            EspHomeMessage::HelloResponse(_) => 2,
            EspHomeMessage::ConnectRequest(_) => 3,
            EspHomeMessage::ConnectResponse(_) => 4,
            EspHomeMessage::DisconnectRequest(_) => 5,
            EspHomeMessage::DisconnectResponse(_) => 6,
            EspHomeMessage::PingRequest(_) => 7,
            EspHomeMessage::PingResponse(_) => 8,
        }
    }

    /// Numeric type id of this message kind on the wire.
    pub fn get_message_type(&self) -> (r: u16)
        ensures
            r == self.type_id_spec(),
    {
        match self {
            EspHomeMessage::HelloRequest(_) => 1,
            EspHomeMessage::HelloResponse(_) => 2,
            EspHomeMessage::ConnectRequest(_) => 3,
            EspHomeMessage::ConnectResponse(_) => 4,
            EspHomeMessage::DisconnectRequest(_) => 5,
            EspHomeMessage::DisconnectResponse(_) => 6,
            EspHomeMessage::PingRequest(_) => 7,
            EspHomeMessage::PingResponse(_) => 8,
        }
    }
}

/// The registry knows this type id: the reverse of `type_id_spec`.
pub open spec fn known_type_id(id: u16) -> bool {
    1 <= id <= 8
}

/// The registry is total in one direction: every message kind has a known
/// type id. The reverse is partial, as `decode_message` states: unknown
/// inbound ids are a decode error.
pub proof fn lemma_registry_total(msg: EspHomeMessage)
    ensures
        known_type_id(msg.type_id_spec()),
{
}

impl From<HelloRequest> for EspHomeMessage {
    fn from(msg: HelloRequest) -> (r: EspHomeMessage) {
        EspHomeMessage::HelloRequest(msg)
    }
}

impl vstd::std_specs::convert::FromSpecImpl<HelloRequest> for EspHomeMessage {
    open spec fn obeys_from_spec() -> bool {
        true
    }

    open spec fn from_spec(v: HelloRequest) -> EspHomeMessage {
        EspHomeMessage::HelloRequest(v)
    }
}

impl From<HelloResponse> for EspHomeMessage {
    fn from(msg: HelloResponse) -> (r: EspHomeMessage) {
        EspHomeMessage::HelloResponse(msg)
    }
}

impl vstd::std_specs::convert::FromSpecImpl<HelloResponse> for EspHomeMessage {
    open spec fn obeys_from_spec() -> bool {
        true
    }

    open spec fn from_spec(v: HelloResponse) -> EspHomeMessage {
        EspHomeMessage::HelloResponse(v)
    }
}

impl From<ConnectRequest> for EspHomeMessage {
    fn from(msg: ConnectRequest) -> (r: EspHomeMessage) {
        EspHomeMessage::ConnectRequest(msg)
    }
}

impl vstd::std_specs::convert::FromSpecImpl<ConnectRequest> for EspHomeMessage {
    open spec fn obeys_from_spec() -> bool {
        true
    }

    open spec fn from_spec(v: ConnectRequest) -> EspHomeMessage {
        EspHomeMessage::ConnectRequest(v)
    }
}

impl From<ConnectResponse> for EspHomeMessage {
    fn from(msg: ConnectResponse) -> (r: EspHomeMessage) {
        EspHomeMessage::ConnectResponse(msg)
    }
}

impl vstd::std_specs::convert::FromSpecImpl<ConnectResponse> for EspHomeMessage {
    open spec fn obeys_from_spec() -> bool {
        true
    }

    open spec fn from_spec(v: ConnectResponse) -> EspHomeMessage {
        EspHomeMessage::ConnectResponse(v)
    }
}

impl From<DisconnectRequest> for EspHomeMessage {
    fn from(msg: DisconnectRequest) -> (r: EspHomeMessage) {
        EspHomeMessage::DisconnectRequest(msg)
    }
}

impl vstd::std_specs::convert::FromSpecImpl<DisconnectRequest> for EspHomeMessage {
    open spec fn obeys_from_spec() -> bool {
        true
    }

    open spec fn from_spec(v: DisconnectRequest) -> EspHomeMessage {
        EspHomeMessage::DisconnectRequest(v)
    }
}

impl From<DisconnectResponse> for EspHomeMessage {
    fn from(msg: DisconnectResponse) -> (r: EspHomeMessage) {
        EspHomeMessage::DisconnectResponse(msg)
    }
}

impl vstd::std_specs::convert::FromSpecImpl<DisconnectResponse> for EspHomeMessage {
    open spec fn obeys_from_spec() -> bool {
        true
    }

    open spec fn from_spec(v: DisconnectResponse) -> EspHomeMessage {
        EspHomeMessage::DisconnectResponse(v)
    }
}

impl From<PingRequest> for EspHomeMessage {
    fn from(msg: PingRequest) -> (r: EspHomeMessage) {
        EspHomeMessage::PingRequest(msg)
    }
}

impl vstd::std_specs::convert::FromSpecImpl<PingRequest> for EspHomeMessage {
    open spec fn obeys_from_spec() -> bool {
        true
    }

    open spec fn from_spec(v: PingRequest) -> EspHomeMessage {
        EspHomeMessage::PingRequest(v)
    }
}

impl From<PingResponse> for EspHomeMessage {
    fn from(msg: PingResponse) -> (r: EspHomeMessage) {
        EspHomeMessage::PingResponse(msg)
    }
}

impl vstd::std_specs::convert::FromSpecImpl<PingResponse> for EspHomeMessage {
    open spec fn obeys_from_spec() -> bool {
        true
    }

    open spec fn from_spec(v: PingResponse) -> EspHomeMessage {
        EspHomeMessage::PingResponse(v)
    }
}

/// What the field-tagged encoding makes of a string field with this tag
/// and value.
pub uninterp spec fn pb_string_field_bytes(tag: u32, value: Seq<char>) -> Seq<u8>;

/// Relies on prost's string field encoder: a field key for the tag, a
/// length varint, then the UTF-8 bytes; a function of tag and value alone.
#[verifier::external_body]
fn pb_string_field(tag: u32, value: &String) -> (r: Vec<u8>)
    requires
        1 <= tag <= 536870911,
    ensures
        r@ == pb_string_field_bytes(tag, value@),
{
    let mut buf: Vec<u8> = Vec::new();
    prost::encoding::string::encode(tag, value, &mut buf);
    buf
}

/// A base-128 varint: seven value bits per byte, least-significant group
/// first, continuation flag at bit 7.
pub open spec fn pb_varint(n: nat) -> Seq<u8>
    decreases n,
{
    if n < 128 {
        seq![n as u8]
    } else {
        seq![(n % 128 + 128) as u8] + pb_varint((n / 128) as nat)
    }
}

/// Bytes of a uint32 field: the key varint (the tag, wire type 0 in the
/// low three bits), then the value varint.
pub open spec fn pb_uint32_field_bytes(tag: u32, value: u32) -> Seq<u8> {
    pb_varint(8 * (tag as nat)) + pb_varint(value as nat)
}

/// Relies on prost's uint32 field encoder: emits exactly the key varint
/// followed by the value varint.
#[verifier::external_body]
fn pb_uint32_field(tag: u32, value: u32) -> (r: Vec<u8>)
    requires
        1 <= tag <= 536870911,
    ensures
        r@ == pb_uint32_field_bytes(tag, value),
{
    let mut buf: Vec<u8> = Vec::new();
    prost::encoding::uint32::encode(tag, &value, &mut buf);
    buf
}

/// Bytes of a bool field: the key varint, then a one-byte varint holding
/// zero or one.
pub open spec fn pb_bool_field_bytes(tag: u32, value: bool) -> Seq<u8> {
    pb_varint(8 * (tag as nat)) + pb_varint(
        if value {
            1nat
        } else {
            0nat
        },
    )
}

/// Relies on prost's bool field encoder: emits exactly the key varint
/// followed by a one-byte varint holding zero or one.
#[verifier::external_body]
fn pb_bool_field(tag: u32, value: bool) -> (r: Vec<u8>)
    requires
        1 <= tag <= 536870911,
    ensures
        r@ == pb_bool_field_bytes(tag, value),
{
    let mut buf: Vec<u8> = Vec::new();
    prost::encoding::bool::encode(tag, &value, &mut buf);
    buf
}

/// Body bytes of a `HelloRequest`: fields in tag order, fields holding
/// their default value left out.
pub open spec fn hello_request_body(m: HelloRequest) -> Seq<u8> {
    (if m.client_info@.len() > 0 {
        pb_string_field_bytes(1, m.client_info@)
    } else {
        Seq::<u8>::empty()
    }) + (if m.api_version_major != 0 {
        pb_uint32_field_bytes(2, m.api_version_major)
    } else {
        Seq::<u8>::empty()
    }) + (if m.api_version_minor != 0 {
        pb_uint32_field_bytes(3, m.api_version_minor)
    } else {
        Seq::<u8>::empty()
    })
}

/// Body bytes of a `HelloResponse`, by the same field rules.
pub open spec fn hello_response_body(m: HelloResponse) -> Seq<u8> {
    (if m.api_version_major != 0 {
        pb_uint32_field_bytes(1, m.api_version_major)
    } else {
        Seq::<u8>::empty()
    }) + (if m.api_version_minor != 0 {
        pb_uint32_field_bytes(2, m.api_version_minor)
    } else {
        Seq::<u8>::empty()
    }) + (if m.server_info@.len() > 0 {
        pb_string_field_bytes(3, m.server_info@)
    } else {
        Seq::<u8>::empty()
    }) + (if m.name@.len() > 0 {
        pb_string_field_bytes(4, m.name@)
    } else {
        Seq::<u8>::empty()
    })
}

/// Body bytes of a `ConnectRequest`, by the same field rules.
pub open spec fn connect_request_body(m: ConnectRequest) -> Seq<u8> {
    if m.password@.len() > 0 {
        pb_string_field_bytes(1, m.password@)
    } else {
        Seq::<u8>::empty()
    }
}

/// Body bytes of a `ConnectResponse`, by the same field rules.
pub open spec fn connect_response_body(m: ConnectResponse) -> Seq<u8> {
    if m.invalid_password {
        pb_bool_field_bytes(1, m.invalid_password)
    } else {
        Seq::<u8>::empty()
    }
}

/// Body bytes of any known message; the field-less kinds have empty
/// bodies.
pub open spec fn message_body(msg: EspHomeMessage) -> Seq<u8> {
    match msg {
        EspHomeMessage::HelloRequest(m) => hello_request_body(m),
        EspHomeMessage::HelloResponse(m) => hello_response_body(m),
        EspHomeMessage::ConnectRequest(m) => connect_request_body(m),
        EspHomeMessage::ConnectResponse(m) => connect_response_body(m),
        EspHomeMessage::DisconnectRequest(_) => Seq::<u8>::empty(),
        EspHomeMessage::DisconnectResponse(_) => Seq::<u8>::empty(),
        EspHomeMessage::PingRequest(_) => Seq::<u8>::empty(),
        EspHomeMessage::PingResponse(_) => Seq::<u8>::empty(),
    }
}

/// Serializes a message into its canonical payload: type id (u16 BE),
/// body length (u16 BE), then the body bytes. A body over 65535 bytes
/// cannot be framed and is an encode error.
pub fn encode_message(msg: &EspHomeMessage) -> (r: Result<Vec<u8>, ClientError>)
    ensures
        message_body(*msg).len() <= 65535 ==> (r matches Ok(f) && f@ == canonical_payload(
            msg.type_id_spec(),
            message_body(*msg).len() as u16,
            message_body(*msg),
        )),
        message_body(*msg).len() > 65535 ==> r == Err::<Vec<u8>, ClientError>(
            ClientError::Stream(StreamError::FrameTooLarge { size: message_body(*msg).len() as usize, max_size: 65535 }),
        ),
{
    let type_id = msg.get_message_type();
    let mut body: Vec<u8> = Vec::new();
    match msg {
        EspHomeMessage::HelloRequest(m) => {
            if !m.client_info.as_str().is_empty() {
                let mut f = pb_string_field(1, &m.client_info);
                body.append(&mut f);
            }
            if m.api_version_major != 0 {
                let mut f = pb_uint32_field(2, m.api_version_major);
                body.append(&mut f);
            }
            if m.api_version_minor != 0 {
                let mut f = pb_uint32_field(3, m.api_version_minor);
                body.append(&mut f);
            }
            proof {
                assert(body@ =~= hello_request_body(*m));
            }
        },
        EspHomeMessage::HelloResponse(m) => {
            if m.api_version_major != 0 {
                let mut f = pb_uint32_field(1, m.api_version_major);
                body.append(&mut f);
            }
            if m.api_version_minor != 0 {
                let mut f = pb_uint32_field(2, m.api_version_minor);
                body.append(&mut f);
            }
            if !m.server_info.as_str().is_empty() {
                let mut f = pb_string_field(3, &m.server_info);
                body.append(&mut f);
            }
            if !m.name.as_str().is_empty() {
                let mut f = pb_string_field(4, &m.name);
                body.append(&mut f);
            }
            proof {
                assert(body@ =~= hello_response_body(*m));
            }
        },
        EspHomeMessage::ConnectRequest(m) => {
            if !m.password.as_str().is_empty() {
                let mut f = pb_string_field(1, &m.password);
                body.append(&mut f);
            }
            proof {
                assert(body@ =~= connect_request_body(*m));
            }
        },
        EspHomeMessage::ConnectResponse(m) => {
            if m.invalid_password {
                let mut f = pb_bool_field(1, m.invalid_password);
                body.append(&mut f);
            }
            proof {
                assert(body@ =~= connect_response_body(*m));
            }
        },
        EspHomeMessage::DisconnectRequest(_) => {},
        EspHomeMessage::DisconnectResponse(_) => {},
        EspHomeMessage::PingRequest(_) => {},
        EspHomeMessage::PingResponse(_) => {},
    }
    if body.len() > 65535 {
        return Err(
            ClientError::Stream(StreamError::FrameTooLarge { size: body.len(), max_size: 65535 }),
        );
    }
    let body_len: u16 = body.len() as u16;
    let mut out: Vec<u8> = Vec::new();
    out.push((type_id / 256) as u8);
    out.push((type_id % 256) as u8);
    out.push((body_len / 256) as u8);
    out.push((body_len % 256) as u8);
    let ghost body_view = body@;
    let mut tail = body;
    out.append(&mut tail);
    proof {
        assert(out@ =~= canonical_payload(msg.type_id_spec(), body_len, body_view));
    }
    Ok(out)
}

/// An inbound frame sorted by the registry: either a kind the registry
/// decodes whole (the field-less ones), or the body bytes of a kind whose
/// fields the field-tagged decoder of the schema must read.
#[derive(Debug, Clone, PartialEq)]
pub enum DecodedFrame {
    /// A message the registry decodes without looking at the body.
    Complete(EspHomeMessage),
    /// Type id and body bytes of a message with fields to decode.
    NeedsFieldDecode(u16, Vec<u8>),
}

/// Dispatches one canonical payload: reads the type id out of the first
/// two bytes, rejects payloads under four bytes and unknown ids, and
/// sorts known ids by whether their bodies carry fields. The redundant
/// inner length is not consulted.
pub fn decode_message(bytes: &[u8]) -> (r: Result<DecodedFrame, ClientError>)
    ensures
        bytes@.len() < 4 ==> (r matches Err(ClientError::Protocol(
            ProtocolError::ValidationFailed { reason },
        )) && reason@ == "Message too short"@),
        bytes@.len() >= 4 ==> {
            let id = (256 * (bytes@[0] as int) + (bytes@[1] as int)) as u16;
            &&& !known_type_id(id) ==> (r matches Err(ClientError::Protocol(
                ProtocolError::ValidationFailed { reason },
            )) && reason@ == "Unknown message type: "@ + dec_str(id as int))
            &&& id == 1 || id == 2 || id == 3 || id == 4 ==> (r matches Ok(
                DecodedFrame::NeedsFieldDecode(rid, body),
            ) && rid == id && body@ == bytes@.skip(4))
            &&& id == 5 ==> r == Ok::<DecodedFrame, ClientError>(DecodedFrame::Complete(
                EspHomeMessage::DisconnectRequest(DisconnectRequest {  }),
            ))
            &&& id == 6 ==> r == Ok::<DecodedFrame, ClientError>(DecodedFrame::Complete(
                EspHomeMessage::DisconnectResponse(DisconnectResponse {  }),
            ))
            &&& id == 7 ==> r == Ok::<DecodedFrame, ClientError>(DecodedFrame::Complete(
                EspHomeMessage::PingRequest(PingRequest {  }),
            ))
            &&& id == 8 ==> r == Ok::<DecodedFrame, ClientError>(DecodedFrame::Complete(
                EspHomeMessage::PingResponse(PingResponse {  }),
            ))
        },
{
    if bytes.len() < 4 {
        return Err(
            ClientError::Protocol(
                ProtocolError::ValidationFailed {
                    reason: String::from_str("Message too short"),
                },
            ),
        );
    }
    let type_id: u16 = 256 * (bytes[0] as u16) + (bytes[1] as u16);
    if type_id == 5 {
        return Ok(DecodedFrame::Complete(EspHomeMessage::DisconnectRequest(DisconnectRequest {  })));
    }
    if type_id == 6 {
        return Ok(
            DecodedFrame::Complete(EspHomeMessage::DisconnectResponse(DisconnectResponse {  })),
        );
    }
    if type_id == 7 {
        return Ok(DecodedFrame::Complete(EspHomeMessage::PingRequest(PingRequest {  })));
    }
    if type_id == 8 {
        return Ok(DecodedFrame::Complete(EspHomeMessage::PingResponse(PingResponse {  })));
    }
    if type_id >= 1 && type_id <= 4 {
        let mut body: Vec<u8> = Vec::new();
        body.extend_from_slice(&bytes[4..bytes.len()]);
        proof {
            assert(body@ =~= bytes@.skip(4));
        }
        return Ok(DecodedFrame::NeedsFieldDecode(type_id, body));
    }
    Err(
        ClientError::Protocol(
            ProtocolError::ValidationFailed {
                reason: String::from_str("Unknown message type: ").concat(
                    u16_dec_str(type_id).as_str(),
                ),
            },
        ),
    )
}

} // verus!
