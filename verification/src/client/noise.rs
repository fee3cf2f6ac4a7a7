//! Noise wire envelope and handshake: the outer frame is `0x01`, a u16
//! big-endian length, then that many payload bytes. The handshake follows
//! the `NNpsk0` pattern with the `25519_ChaChaPoly_SHA256` suite and the
//! prologue `NoiseAPIInit\x00\x00`; the pre-shared key comes base64-encoded
//! and must decode to exactly 32 bytes.

use vstd::prelude::*;
use vstd::string::StringExecFns;
use vstd::arithmetic::div_mod::lemma_fundamental_div_mod;
use base64::Engine;

use crate::decimal::{dec_str, u16_dec_str};
use crate::error::{ClientError, ConnectionError, NoiseError, ProtocolError, StreamError};
use crate::client::plain::be16_bytes;

verus! {

/// Preamble byte of a Noise frame.
pub const NOISE_PREAMBLE: u8 = 0x01;

/// Declares snow::HandshakeState, the in-progress Noise handshake, as an
/// opaque outside type.
#[verifier::external_type_specification]
#[verifier::external_body]
pub struct ExHandshakeState(snow::HandshakeState);

/// Declares snow::TransportState, the post-handshake symmetric session,
/// as an opaque outside type.
#[verifier::external_type_specification]
#[verifier::external_body]
pub struct ExTransportState(snow::TransportState);

/// Declares snow::Error as an opaque outside type; a wrapper sorts its
/// variants into the library's own categories.
#[verifier::external_type_specification]
#[verifier::external_body]
pub struct ExSnowError(snow::Error);

/// What standard base64 decodes a string to, when it is well-formed.
pub uninterp spec fn base64_decode_of(s: Seq<char>) -> Option<Seq<u8>>;

/// Relies on base64's standard-alphabet engine: decoding succeeds exactly
/// on well-formed standard base64, and is a function of the input alone.
#[verifier::external_body]
fn base64_decode(key: &str) -> (r: Result<Vec<u8>, String>)
    ensures
        r matches Ok(v) ==> base64_decode_of(key@) == Some(v@),
        r is Err ==> base64_decode_of(key@) is None,
{
    base64::engine::general_purpose::STANDARD.decode(key).map_err(|e| e.to_string())
}

/// Relies on snow's Builder: parses the `Noise_NNpsk0_25519_ChaChaPoly_SHA256`
/// pattern, installs the prologue and the 32-byte PSK at index 0, and
/// builds the initiator handshake state.
#[verifier::external_body]
fn snow_build_initiator(key: &[u8]) -> (r: Result<snow::HandshakeState, snow::Error>)
    requires
        key@.len() == 32,
{
    let params = match "Noise_NNpsk0_25519_ChaChaPoly_SHA256".parse() {
        Ok(p) => p,
        Err(e) => return Err(e),
    };
    let mut psk = [0u8; 32];
    psk.copy_from_slice(key);
    snow::Builder::new(params).prologue(b"NoiseAPIInit\x00\x00")?.psk(0, &psk)?.build_initiator()
}

/// Relies on snow's HandshakeState::write_message: produces the next
/// initiator handshake message for an empty payload; errors rather than
/// overrunning the scratch buffer.
#[verifier::external_body]
fn snow_handshake_write(st: &mut snow::HandshakeState) -> (r: Result<Vec<u8>, snow::Error>)
    ensures
        r matches Ok(v) ==> v@.len() <= 65535,
{
    let mut buf = vec![0u8; 65535];
    let size = st.write_message(&[], &mut buf)?;
    buf.truncate(size);
    Ok(buf)
}

/// Relies on snow's HandshakeState::read_message: consumes the responder's
/// handshake message, advancing the handshake state; errors rather than
/// overrunning the scratch buffer.
#[verifier::external_body]
fn snow_handshake_read(st: &mut snow::HandshakeState, data: &[u8]) -> (r: Result<
    (),
    snow::Error,
>) {
    let mut buf = vec![0u8; 65535];
    st.read_message(data, &mut buf)?;
    Ok(())
}

/// Relies on snow's HandshakeState::into_transport_mode: promotes a
/// finished handshake to the symmetric transport state.
#[verifier::external_body]
fn snow_into_transport(st: snow::HandshakeState) -> (r: Result<
    snow::TransportState,
    snow::Error,
>) {
    st.into_transport_mode()
}

/// Relies on snow's TransportState::write_message: encrypts the payload
/// under the sending key, appending the cipher suite's 16-byte tag, and
/// errors rather than exceeding the 65535-byte message cap.
#[verifier::external_body]
fn snow_transport_write(st: &mut snow::TransportState, payload: &[u8]) -> (r: Result<
    Vec<u8>,
    snow::Error,
>)
    ensures
        r matches Ok(v) ==> v@.len() == payload@.len() + 16 && payload@.len() + 16 <= 65535,
{
    let mut buf = vec![0u8; 65535];
    let size = st.write_message(payload, &mut buf)?;
    buf.truncate(size);
    Ok(buf)
}

/// Relies on snow's TransportState::read_message: decrypts and
/// authenticates a transport message, stripping the cipher suite's
/// 16-byte tag, and errors on messages over the 65535-byte cap.
#[verifier::external_body]
fn snow_transport_read(st: &mut snow::TransportState, payload: &[u8]) -> (r: Result<
    Vec<u8>,
    snow::Error,
>)
    ensures
        r matches Ok(v) ==> payload@.len() >= 16 && v@.len() + 16 == payload@.len()
            && payload@.len() <= 65535,
{
    let mut buf = vec![0u8; 65535];
    let size = st.read_message(payload, &mut buf)?;
    buf.truncate(size);
    Ok(buf)
}

/// Relies on snow::Error's variants and Display rendering: initialization
/// errors count as handshake failures, decryption failures as crypto
/// failures, anything else as transport failures.
#[verifier::external_body]
fn classify_snow_error(e: &snow::Error) -> (r: NoiseError)
    ensures
        r is Handshake || r is CryptoOperation || r is Transport,
{
    match e {
        snow::Error::Init(_) => NoiseError::Handshake { reason: format!("{e}") },
        snow::Error::Decrypt => NoiseError::CryptoOperation {
            reason: "Decryption failed".to_owned(),
        },
        _ => NoiseError::Transport { reason: format!("{e}") },
    }
}

/// Relies on snow::Error's Display rendering: every variant renders as a
/// snow category ("pattern error: ...", "state error: ...", "input
/// error", and so on), so no rendering equals the library's own
/// PSK-length rejection reason.
#[verifier::external_body]
fn snow_error_message(e: &snow::Error) -> (r: String)
    ensures
        r@ != "Invalid PSK length"@,
{
    format!("{e}")
}

/// Relies on core's Debug rendering of Option<u8>.
#[verifier::external_body]
fn debug_option_u8(p: &Option<u8>) -> (r: String) {
    format!("{p:?}")
}

/// What lossy UTF-8 decoding turns a byte string into; a function of the
/// bytes alone.
pub uninterp spec fn utf8_lossy_of(bytes: Seq<u8>) -> Seq<char>;

/// Relies on String::from_utf8_lossy: decodes UTF-8, substituting the
/// replacement character for ill-formed sequences.
#[verifier::external_body]
fn utf8_lossy(bytes: &[u8]) -> (r: String)
    ensures
        r@ == utf8_lossy_of(bytes@),
{
    String::from_utf8_lossy(bytes).to_string()
}

/// What strict UTF-8 decoding turns a byte string into, when it is
/// well-formed; a function of the bytes alone.
pub uninterp spec fn utf8_of(bytes: Seq<u8>) -> Option<Seq<char>>;

/// Relies on str::from_utf8: succeeds exactly on well-formed UTF-8.
#[verifier::external_body]
fn utf8_strict(bytes: &[u8]) -> (r: Option<String>)
    ensures
        r matches Some(s) ==> utf8_of(bytes@) == Some(s@),
        r is None ==> utf8_of(bytes@) is None,
{
    match core::str::from_utf8(bytes) {
        Ok(s) => Some(s.to_string()),
        Err(_) => None,
    }
}

/// A whole Noise frame around `payload`:
/// `0x01 + length (u16 BE) + payload`.
pub open spec fn noise_frame(payload: Seq<u8>) -> Seq<u8> {
    seq![NOISE_PREAMBLE] + be16_bytes(payload.len() as u16) + payload
}

/// The initial three bytes that announce the Noise envelope. This is the
/// only frame whose body length really is zero, and the first bytes the
/// client ever sends.
pub fn noise_hello() -> (r: Vec<u8>)
    ensures
        r@ == seq![0x01u8, 0x00u8, 0x00u8],
{
    let mut hello: Vec<u8> = Vec::new();
    hello.push(0x01);
    hello.push(0x00);
    hello.push(0x00);
    proof {
        assert(hello@ =~= seq![0x01u8, 0x00u8, 0x00u8]);
    }
    hello
}

/// Wraps a payload in the Noise envelope: preamble, u16 BE length, bytes.
pub fn create_noise_frame(payload: Vec<u8>) -> (r: Vec<u8>)
    requires
        payload@.len() <= 65535,
    ensures
        r@ == noise_frame(payload@),
{
    let ghost payload0 = payload@;
    let frame_len: u16 = payload.len() as u16;
    let mut frame: Vec<u8> = Vec::new();
    frame.push(NOISE_PREAMBLE);
    frame.push((frame_len / 256) as u8);
    frame.push((frame_len % 256) as u8);
    let mut body = payload;
    frame.append(&mut body);
    proof {
        assert(frame@ =~= noise_frame(payload0));
    }
    frame
}

/// Length field of the Noise frame at the head of `b`.
pub open spec fn noise_frame_len(b: Seq<u8>) -> int {
    256 * (b[1] as int) + (b[2] as int)
}

/// A whole Noise frame sits at the head of `b`.
pub open spec fn noise_frame_ready(b: Seq<u8>) -> bool {
    b.len() >= 3 && b[0] == NOISE_PREAMBLE && b.len() >= 3 + noise_frame_len(b)
}

/// Payload of the Noise frame at the head of `b`.
pub open spec fn noise_frame_payload(b: Seq<u8>) -> Seq<u8> {
    b.subrange(3, 3 + noise_frame_len(b))
}

/// Drains one whole Noise frame from the head of the buffer and returns
/// its payload. When fewer bytes than a whole frame are present, returns
/// `None` and leaves the buffer untouched.
pub fn read_frame_from_buffer(buffer: &mut Vec<u8>) -> (r: Result<Option<Vec<u8>>, ClientError>)
    ensures
        old(buffer)@.len() < 3 ==> r == Ok::<Option<Vec<u8>>, ClientError>(None)
            && final(buffer)@ == old(buffer)@,
        old(buffer)@.len() >= 3 && old(buffer)@[0] == 0x00 ==> r == Err::<
            Option<Vec<u8>>,
            ClientError,
        >(ClientError::Protocol(ProtocolError::UnexpectedPlain)) && final(buffer)@ == old(
            buffer,
        )@,
        old(buffer)@.len() >= 3 && old(buffer)@[0] != 0x00 && old(buffer)@[0] != 0x01 ==> (
        r matches Err(ClientError::Stream(StreamError::InvalidFrame { .. }))) && final(buffer)@
            == old(buffer)@,
        old(buffer)@.len() >= 3 && old(buffer)@[0] == 0x01 && !noise_frame_ready(old(buffer)@)
            ==> r == Ok::<Option<Vec<u8>>, ClientError>(None) && final(buffer)@ == old(buffer)@,
        noise_frame_ready(old(buffer)@) ==> (r matches Ok(Some(f)) && f@ == noise_frame_payload(
            old(buffer)@,
        ) && final(buffer)@ == old(buffer)@.skip(3 + noise_frame_len(old(buffer)@))),
{
    if buffer.len() < 3 {
        return Ok(None);
    }
    let preamble = buffer[0];
    if preamble == 0x00 {
        return Err(ClientError::Protocol(ProtocolError::UnexpectedPlain));
    }
    if preamble != NOISE_PREAMBLE {
        return Err(
            ClientError::Stream(
                StreamError::InvalidFrame {
                    reason: String::from_str("Invalid preamble: ").concat(
                        u16_dec_str(preamble as u16).as_str(),
                    ),
                },
            ),
        );
    }
    let frame_len: usize = 256 * (buffer[1] as usize) + (buffer[2] as usize);
    if buffer.len() - 3 < frame_len {
        return Ok(None);
    }
    let mut out: Vec<u8> = Vec::new();
    out.extend_from_slice(&buffer.as_slice()[3..3 + frame_len]);
    let tail = buffer.split_off(3 + frame_len);
    *buffer = tail;
    proof {
        let b = old(buffer)@;
        assert(out@ =~= noise_frame_payload(b));
        assert(final(buffer)@ =~= b.skip(3 + noise_frame_len(b)));
    }
    Ok(Some(out))
}

/// Noise envelope round trip: a frame built around any payload of at most
/// 65535 bytes decodes back to that payload, consuming the whole frame.
pub proof fn lemma_noise_frame_round_trip(payload: Seq<u8>)
    requires
        payload.len() <= 65535,
    ensures
        ({
            let f = noise_frame(payload);
            &&& f.len() == 3 + payload.len()
            &&& f[0] == 0x01
            &&& noise_frame_ready(f)
            &&& noise_frame_payload(f) == payload
            &&& f.skip(3 + noise_frame_len(f)) == Seq::<u8>::empty()
        }),
{
    let f = noise_frame(payload);
    let len = payload.len() as u16;
    lemma_fundamental_div_mod(len as int, 256);
    assert(noise_frame_len(f) == payload.len());
    assert(noise_frame_payload(f) =~= payload);
    assert(f.skip(3 + noise_frame_len(f)) =~= Seq::<u8>::empty());
}

/// Builds the initiator handshake state from the base64 PSK. Any base64
/// error, and any decoded length other than 32 bytes, is an invalid-key
/// error.
pub fn create_noise_client(key: &str) -> (r: Result<snow::HandshakeState, ClientError>)
    ensures
        base64_decode_of(key@) is None ==> (r matches Err(ClientError::Connection(
            ConnectionError::NoiseHandshake { .. },
        ))),
        (base64_decode_of(key@) matches Some(k) && k.len() != 32) ==> (r matches Err(
            ClientError::Connection(ConnectionError::NoiseHandshake { reason }),
        ) && reason@ == "Invalid noise key: Invalid PSK length"@),
        (base64_decode_of(key@) matches Some(k) && k.len() == 32) ==> (r matches Err(
            ClientError::Connection(ConnectionError::NoiseHandshake { reason }),
        ) ==> reason@ != "Invalid noise key: Invalid PSK length"@),
        r is Err ==> (r matches Err(ClientError::Connection(ConnectionError::NoiseHandshake {
            ..
        }))),
{
    let key_bytes = match base64_decode(key) {
        Ok(v) => v,
        Err(msg) => {
            return Err(ClientError::from_noise(&NoiseError::InvalidKey { reason: msg }));
        },
    };
    if key_bytes.len() != 32 {
        proof {
            reveal_strlit("Invalid noise key: ");
            reveal_strlit("Invalid PSK length");
            reveal_strlit("Invalid noise key: Invalid PSK length");
            assert("Invalid noise key: "@ + "Invalid PSK length"@
                =~= "Invalid noise key: Invalid PSK length"@);
        }
        return Err(
            ClientError::from_noise(
                &NoiseError::InvalidKey { reason: String::from_str("Invalid PSK length") },
            ),
        );
    }
    match snow_build_initiator(key_bytes.as_slice()) {
        Ok(st) => Ok(st),
        Err(e) => {
            let msg = snow_error_message(&e);
            proof {
                reveal_strlit("Invalid noise key: ");
                reveal_strlit("Invalid PSK length");
                reveal_strlit("Invalid noise key: Invalid PSK length");
                assert("Invalid noise key: Invalid PSK length"@ =~= "Invalid noise key: "@
                    + "Invalid PSK length"@);
                assert(("Invalid noise key: "@ + msg@).skip(19) =~= msg@);
                assert(("Invalid noise key: "@ + "Invalid PSK length"@).skip(19)
                    =~= "Invalid PSK length"@);
            }
            Err(ClientError::from_noise(&NoiseError::InvalidKey { reason: msg }))
        },
    }
}

/// Frames an initiator handshake message: a zero marker byte, then the
/// message, inside the Noise envelope. A message over 65534 bytes cannot
/// fit the envelope's u16 length field once the marker is added.
pub fn frame_initiator_msg(msg: Vec<u8>) -> (r: Result<Vec<u8>, ClientError>)
    ensures
        msg@.len() <= 65534 ==> (r matches Ok(f) && f@ == noise_frame(seq![0x00u8] + msg@)),
        msg@.len() > 65534 ==> (r matches Err(ClientError::Connection(
            ConnectionError::NoiseHandshake { reason },
        )) && reason@ == "Noise handshake error: Handshake message does not fit a frame"@),
{
    if msg.len() > 65534 {
        proof {
            reveal_strlit("Noise handshake error: ");
            reveal_strlit("Handshake message does not fit a frame");
            reveal_strlit("Noise handshake error: Handshake message does not fit a frame");
            assert("Noise handshake error: "@ + "Handshake message does not fit a frame"@
                =~= "Noise handshake error: Handshake message does not fit a frame"@);
        }
        return Err(
            ClientError::from_noise(
                &NoiseError::Handshake {
                    reason: String::from_str("Handshake message does not fit a frame"),
                },
            ),
        );
    }
    let ghost msg0 = msg@;
    let mut payload: Vec<u8> = Vec::new();
    payload.push(0x00);
    let mut tail = msg;
    payload.append(&mut tail);
    proof {
        assert(payload@ =~= seq![0x00u8] + msg0);
    }
    Ok(create_noise_frame(payload))
}

/// Builds the framed initiator handshake message: the Noise envelope
/// around a zero byte followed by the handshake bytes the Noise state
/// produces. Every failure reason names a Noise category, never the
/// PSK-length rejection of key validation.
pub fn noise_handshake(noise_client: &mut snow::HandshakeState) -> (r: Result<
    Vec<u8>,
    ClientError,
>)
    ensures
        r matches Ok(f) ==> f@.len() >= 4 && f@[0] == 0x01 && f@[3] == 0x00 && f@.len() == 3
            + 256 * (f@[1] as int) + (f@[2] as int),
        r matches Err(ClientError::Connection(ConnectionError::NoiseHandshake { reason }))
            ==> reason@ != "Invalid noise key: Invalid PSK length"@,
        r is Err ==> (r matches Err(ClientError::Connection(ConnectionError::NoiseHandshake {
            ..
        }))),
{
    proof {
        reveal_strlit("Noise handshake error: ");
        reveal_strlit("Noise transport error: ");
        reveal_strlit("Noise crypto operation failed: ");
        reveal_strlit("Noise handshake error: Handshake message does not fit a frame");
        reveal_strlit("Invalid noise key: Invalid PSK length");
    }
    let msg = match snow_handshake_write(noise_client) {
        Ok(m) => m,
        Err(e) => {
            let ne = classify_snow_error(&e);
            proof {
                assert(ne.message_spec()[0] == 'N');
                assert("Invalid noise key: Invalid PSK length"@[0] == 'I');
            }
            return Err(ClientError::from_noise(&ne));
        },
    };
    let frame = match frame_initiator_msg(msg) {
        Ok(f) => f,
        Err(e) => {
            proof {
                assert("Noise handshake error: Handshake message does not fit a frame"@[0]
                    == 'N');
                assert("Invalid noise key: Invalid PSK length"@[0] == 'I');
            }
            return Err(e);
        },
    };
    proof {
        lemma_fundamental_div_mod(frame@.len() - 3, 256);
    }
    Ok(frame)
}

/// Least index at or after `from` holding a zero byte; the length of `s`
/// when there is none.
pub open spec fn first_zero(s: Seq<u8>, from: int) -> int
    decreases s.len() - from,
{
    if from < 0 || from >= s.len() {
        s.len() as int
    } else if s[from] == 0 {
        from
    } else {
        first_zero(s, from + 1)
    }
}

proof fn lemma_first_zero_is(s: Seq<u8>, from: int, i: int)
    requires
        0 <= from <= i <= s.len(),
        forall|j: int| from <= j < i ==> s[j] != 0,
        i < s.len() ==> s[i] == 0,
    ensures
        first_zero(s, from) == if i < s.len() {
            i
        } else {
            s.len() as int
        },
    decreases i - from,
{
    if from < i {
        lemma_first_zero_is(s, from + 1, i);
    }
}

/// Reads the server identity payload of the Noise handshake: after the
/// `0x01` opening byte come two NUL-terminated strings, the server name
/// and its MAC address. A missing terminator leaves the corresponding
/// field `None`; a wrong opening byte is a handshake error.
pub fn parse_server_and_mac(data: Vec<u8>) -> (r: Result<
    (Option<String>, Option<String>),
    ClientError,
>)
    ensures
        data@.len() == 0 || data@[0] != 0x01 ==> (r matches Err(ClientError::Connection(
            ConnectionError::NoiseHandshake { reason },
        )) && reason@ == "Noise handshake error: Invalid server identity preamble"@),
        data@.len() >= 1 && data@[0] == 0x01 ==> (r matches Ok((server, mac)) && {
            let z1 = first_zero(data@, 1);
            &&& (z1 < data@.len() ==> (server matches Some(s) && s@ == utf8_lossy_of(
                data@.subrange(1, z1),
            )))
            &&& (z1 == data@.len() ==> server is None && mac is None)
            &&& (z1 < data@.len() ==> {
                let z2 = first_zero(data@, z1 + 1);
                &&& (z2 < data@.len() ==> (mac matches Some(m) && m@ == utf8_lossy_of(
                    data@.subrange(z1 + 1, z2),
                )))
                &&& (z2 == data@.len() ==> mac is None)
            })
        }),
{
    let n = data.len();
    if n == 0 || data[0] != NOISE_PREAMBLE {
        proof {
            reveal_strlit("Noise handshake error: ");
            reveal_strlit("Invalid server identity preamble");
            reveal_strlit("Noise handshake error: Invalid server identity preamble");
            assert("Noise handshake error: "@ + "Invalid server identity preamble"@
                =~= "Noise handshake error: Invalid server identity preamble"@);
        }
        return Err(
            ClientError::from_noise(
                &NoiseError::Handshake {
                    reason: String::from_str("Invalid server identity preamble"),
                },
            ),
        );
    }
    let mut i: usize = 1;
    while i < n && data[i] != 0
        invariant
            1 <= i <= n == data@.len(),
            forall|j: int| 1 <= j < i ==> data@[j] != 0,
        decreases n - i,
    {
        i = i + 1;
    }
    proof {
        lemma_first_zero_is(data@, 1, i as int);
    }
    if i >= n {
        return Ok((None, None));
    }
    let server_name = utf8_lossy(&data.as_slice()[1..i]);
    let mut k: usize = i + 1;
    while k < n && data[k] != 0
        invariant
            i + 1 <= k <= n == data@.len(),
            forall|j: int| i + 1 <= j < k ==> data@[j] != 0,
        decreases n - k,
    {
        k = k + 1;
    }
    proof {
        lemma_first_zero_is(data@, i + 1, k as int);
    }
    if k >= n {
        return Ok((Some(server_name), None));
    }
    let mac_address = utf8_lossy(&data.as_slice()[i + 1..k]);
    Ok((Some(server_name), Some(mac_address)))
}

/// Feeds the responder's handshake message to the Noise state. The payload
/// must open with a zero byte; any other opening byte fails with a
/// handshake error whose reason carries the rest of the payload as text,
/// best effort.
/// `suffix` closes `s`.
pub open spec fn ends_with(s: Seq<char>, suffix: Seq<char>) -> bool {
    s.len() >= suffix.len() && s.subrange(s.len() - suffix.len(), s.len() as int) == suffix
}

pub fn parse_noise_response(data: Vec<u8>, noise_client: &mut snow::HandshakeState) -> (r: Result<
    (),
    ClientError,
>)
    ensures
        data@.len() == 0 || data@[0] != 0x00 ==> ((r matches Err(ClientError::Connection(
            ConnectionError::NoiseHandshake { reason },
        )) && reason@.len() >= 20 && reason@.subrange(0, 20) == "Incorrect preamble: "@ && (
        data@.len() < 3 ==> ends_with(reason@, "Unknown reason"@)) && (data@.len() >= 3 ==> (
        utf8_of(data@.skip(1)) matches Some(t) ==> ends_with(reason@, t))) && (data@.len() >= 3
            && utf8_of(data@.skip(1)) is None ==> ends_with(reason@, "Reason not decodable"@)))
            && *final(noise_client) == *old(noise_client)),
        data@.len() >= 1 && data@[0] == 0x00 ==> (r matches Err(ClientError::Connection(
            ConnectionError::NoiseHandshake { reason },
        )) ==> !(reason@.len() >= 20 && reason@.subrange(0, 20) == "Incorrect preamble: "@)),
        r is Err ==> (r matches Err(ClientError::Connection(ConnectionError::NoiseHandshake {
            ..
        }))),
{
    let n = data.len();
    if n == 0 || data[0] != 0x00 {
        let preamble: Option<u8> = if n == 0 {
            None
        } else {
            Some(data[0])
        };
        let detail: String = if n >= 3 {
            proof {
                assert(data@.subrange(1, n as int) =~= data@.skip(1));
            }
            match utf8_strict(&data.as_slice()[1..n]) {
                Some(s) => s,
                None => String::from_str("Reason not decodable"),
            }
        } else {
            String::from_str("Unknown reason")
        };
        let reason = String::from_str("Incorrect preamble: ").concat(
            debug_option_u8(&preamble).as_str(),
        ).concat(", ").concat(detail.as_str());
        proof {
            reveal_strlit("Incorrect preamble: ");
            assert(reason@.subrange(0, 20) =~= "Incorrect preamble: "@);
            assert(reason@.subrange(
                reason@.len() - detail@.len(),
                reason@.len() as int,
            ) =~= detail@);
        }
        return Err(ClientError::Connection(ConnectionError::NoiseHandshake { reason }));
    }
    match snow_handshake_read(noise_client, &data.as_slice()[1..n]) {
        Ok(()) => Ok(()),
        Err(e) => {
            let ne = classify_snow_error(&e);
            proof {
                reveal_strlit("Noise handshake error: ");
                reveal_strlit("Noise transport error: ");
                reveal_strlit("Noise crypto operation failed: ");
                reveal_strlit("Incorrect preamble: ");
                let m = ne.message_spec();
                assert(m[0] == 'N');
                assert(m.len() >= 20 ==> m.subrange(0, 20)[0] == m[0]);
                assert("Incorrect preamble: "@[0] == 'I');
            }
            Err(ClientError::from_noise(&ne))
        },
    }
}

/// Promotes a finished handshake into the transport-state codec.
pub fn into_noise_coder(noise_client: snow::HandshakeState) -> (r: Result<
    NoiseCoder,
    ClientError,
>)
    ensures
        r is Err ==> (r matches Err(ClientError::Connection(ConnectionError::NoiseHandshake {
            ..
        }))),
{
    match snow_into_transport(noise_client) {
        Ok(t) => Ok(NoiseCoder::new(t)),
        Err(e) => Err(ClientError::from_noise(&classify_snow_error(&e))),
    }
}

/// Which inbound frame the handshake awaits next.
#[derive(Debug, Clone, Copy, PartialEq, Eq, Structural)]
pub enum HandshakePhase {
    /// The hello and the initiator message are out; the server identity
    /// frame comes next.
    AwaitingServerInfo,
    /// The identity frame was read; the responder's handshake message
    /// comes next.
    AwaitingResponse,
}

/// What one handshake step produced.
pub enum HandshakeProgress {
    /// More frames are needed; keep feeding the driver.
    Continue(HandshakeDriver),
    /// The handshake finished: the transport codec to install on both
    /// halves.
    Complete(NoiseCoder),
}

impl HandshakeProgress {
    /// Phase of the driver inside `Continue`.
    pub open spec fn continue_phase(&self) -> HandshakePhase
        recommends
            self is Continue,
    {
        match self {
            HandshakeProgress::Continue(d) => d.phase(),
            HandshakeProgress::Complete(_) => HandshakePhase::AwaitingServerInfo,
        }
    }
}

/// Drives the client side of the handshake:
/// hello and initiator message out, then one inbound frame per phase,
/// ending in the transport codec.
pub struct HandshakeDriver {
    state: snow::HandshakeState,
    awaiting: HandshakePhase,
}

impl HandshakeDriver {
    /// Which inbound frame the driver awaits.
    pub closed spec fn phase(&self) -> HandshakePhase {
        self.awaiting
    }

    /// Opens the handshake: builds the initiator out of the base64 PSK
    /// and returns the two frames to send, the hello bytes and the framed
    /// initiator message, with the driver awaiting the server identity.
    pub fn start(key: &str) -> (r: Result<(Vec<u8>, Vec<u8>, HandshakeDriver), ClientError>)
        ensures
            r matches Ok((hello, frame, d)) ==> hello@ == seq![0x01u8, 0x00u8, 0x00u8]
                && frame@.len() >= 4 && frame@[0] == 0x01 && frame@[3] == 0x00 && d.phase()
                is AwaitingServerInfo,
            r is Err ==> (r matches Err(ClientError::Connection(
                ConnectionError::NoiseHandshake { .. },
            ))),
            (base64_decode_of(key@) matches Some(k) && k.len() != 32) ==> (r matches Err(
                ClientError::Connection(ConnectionError::NoiseHandshake { reason }),
            ) && reason@ == "Invalid noise key: Invalid PSK length"@),
            (base64_decode_of(key@) matches Some(k) && k.len() == 32) ==> (r matches Err(
                ClientError::Connection(ConnectionError::NoiseHandshake { reason }),
            ) ==> reason@ != "Invalid noise key: Invalid PSK length"@),
    {
        let mut state = match create_noise_client(key) {
            Ok(s) => s,
            Err(e) => {
                return Err(e);
            },
        };
        let frame = match noise_handshake(&mut state) {
            Ok(f) => f,
            Err(e) => {
                return Err(e);
            },
        };
        let hello = noise_hello();
        Ok((hello, frame, HandshakeDriver { state, awaiting: HandshakePhase::AwaitingServerInfo }))
    }

    /// Feeds the driver one inbound frame payload. In the first phase it
    /// must be the server identity; in the second, the responder's
    /// handshake message, after which the session is promoted to
    /// transport mode.
    pub fn on_frame(self, payload: Vec<u8>) -> (r: Result<HandshakeProgress, ClientError>)
        ensures
            self.phase() is AwaitingServerInfo ==> {
                &&& (payload@.len() == 0 || payload@[0] != 0x01) ==> (r matches Err(
                    ClientError::Connection(ConnectionError::NoiseHandshake { reason }),
                ) && reason@ == "Noise handshake error: Invalid server identity preamble"@)
                &&& (r matches Ok(p) ==> p is Continue && p.continue_phase()
                    is AwaitingResponse)
            },
            self.phase() is AwaitingResponse ==> {
                &&& (payload@.len() == 0 || payload@[0] != 0x00) ==> (r matches Err(
                    ClientError::Connection(ConnectionError::NoiseHandshake { .. }),
                ))
                &&& (r matches Ok(p) ==> p is Complete)
            },
    {
        let HandshakeDriver { mut state, awaiting } = self;
        match awaiting {
            HandshakePhase::AwaitingServerInfo => {
                match parse_server_and_mac(payload) {
                    Ok(_) => Ok(
                        HandshakeProgress::Continue(
                            HandshakeDriver { state, awaiting: HandshakePhase::AwaitingResponse },
                        ),
                    ),
                    Err(e) => Err(e),
                }
            },
            HandshakePhase::AwaitingResponse => {
                match parse_noise_response(payload, &mut state) {
                    Ok(()) => {},
                    Err(e) => {
                        return Err(e);
                    },
                }
                match into_noise_coder(state) {
                    Ok(coder) => Ok(HandshakeProgress::Complete(coder)),
                    Err(e) => Err(e),
                }
            },
        }
    }
}

/// Encoder and decoder for Noise transport frames. The one value is shared
/// by the read and the write half of a connection, under the caller's
/// mutual exclusion, so that nonces stay in step with the wire.
pub struct NoiseCoder {
    noise: snow::TransportState,
}

impl NoiseCoder {
    /// Wraps a transport state.
    pub fn new(noise: snow::TransportState) -> NoiseCoder {
        NoiseCoder { noise }
    }

    /// Decrypts one transport payload, stripping the 16-byte tag.
    pub fn decrypt(&mut self, payload: &[u8]) -> (r: Result<Vec<u8>, ClientError>)
        ensures
            r matches Ok(v) ==> payload@.len() >= 16 && v@.len() + 16 == payload@.len()
                && payload@.len() <= 65535,
            r is Err ==> (r matches Err(ClientError::Connection(
                ConnectionError::NoiseHandshake { .. },
            ))),
    {
        match snow_transport_read(&mut self.noise, payload) {
            Ok(v) => Ok(v),
            Err(e) => Err(ClientError::from_noise(&classify_snow_error(&e))),
        }
    }

    /// Encrypts one transport payload, appending the 16-byte tag.
    pub fn encrypt(&mut self, payload: &[u8]) -> (r: Result<Vec<u8>, ClientError>)
        ensures
            r matches Ok(v) ==> v@.len() == payload@.len() + 16 && payload@.len() + 16
                <= 65535,
            r is Err ==> (r matches Err(ClientError::Connection(
                ConnectionError::NoiseHandshake { .. },
            ))),
    {
        match snow_transport_write(&mut self.noise, payload) {
            Ok(v) => Ok(v),
            Err(e) => Err(ClientError::from_noise(&classify_snow_error(&e))),
        }
    }

    /// Drains one whole Noise frame from the buffer and decrypts it.
    /// Framing outcomes mirror `read_frame_from_buffer`; a whole frame is
    /// consumed from the buffer whether or not decryption succeeds.
    pub fn decode(&mut self, buffer: &mut Vec<u8>) -> (r: Result<Option<Vec<u8>>, ClientError>)
        ensures
            old(buffer)@.len() < 3 ==> r == Ok::<Option<Vec<u8>>, ClientError>(None)
                && final(buffer)@ == old(buffer)@,
            old(buffer)@.len() >= 3 && old(buffer)@[0] == 0x00 ==> r == Err::<
                Option<Vec<u8>>,
                ClientError,
            >(ClientError::Protocol(ProtocolError::UnexpectedPlain)) && final(buffer)@ == old(
                buffer,
            )@,
            old(buffer)@.len() >= 3 && old(buffer)@[0] != 0x00 && old(buffer)@[0] != 0x01 ==> (
            r matches Err(ClientError::Stream(StreamError::InvalidFrame { .. })))
                && final(buffer)@ == old(buffer)@,
            old(buffer)@.len() >= 3 && old(buffer)@[0] == 0x01 && !noise_frame_ready(old(buffer)@)
                ==> r == Ok::<Option<Vec<u8>>, ClientError>(None) && final(buffer)@ == old(
                buffer,
            )@,
            noise_frame_ready(old(buffer)@) ==> final(buffer)@ == old(buffer)@.skip(
                3 + noise_frame_len(old(buffer)@),
            ) && (r matches Ok(o) ==> o matches Some(p) && p@.len() + 16 == noise_frame_len(
                old(buffer)@,
            )) && (r is Err ==> (r matches Err(ClientError::Connection(
                ConnectionError::NoiseHandshake { .. },
            )))),
    {
        match read_frame_from_buffer(buffer) {
            Ok(Some(data)) => match self.decrypt(data.as_slice()) {
                Ok(p) => Ok(Some(p)),
                Err(e) => Err(e),
            },
            Ok(None) => Ok(None),
            Err(e) => Err(e),
        }
    }

    /// Encrypts one payload and wraps it in the Noise envelope: the frame
    /// carries the ciphertext, 16 bytes longer than the payload.
    pub fn encode(&mut self, payload: Vec<u8>) -> (r: Result<Vec<u8>, ClientError>)
        ensures
            r matches Ok(f) ==> f@.len() == 3 + payload@.len() + 16 && f@[0] == 0x01 && 256 * (
            f@[1] as int) + (f@[2] as int) == payload@.len() + 16,
            r is Err ==> (r matches Err(ClientError::Connection(
                ConnectionError::NoiseHandshake { .. },
            ))),
    {
        let encrypted = match self.encrypt(payload.as_slice()) {
            Ok(v) => v,
            Err(e) => {
                return Err(e);
            },
        };
        let frame = create_noise_frame(encrypted);
        proof {
            lemma_fundamental_div_mod(frame@.len() - 3, 256);
        }
        Ok(frame)
    }
}

} // verus!
