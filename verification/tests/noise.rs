use base64::Engine;
use esphome_client::client::noise::{
    create_noise_client, create_noise_frame, noise_handshake, noise_hello, parse_noise_response,
    parse_server_and_mac, read_frame_from_buffer, NoiseCoder, NOISE_PREAMBLE,
};

const ZERO_BYTE: u8 = 0x00;
const NOISE_PROLOGUE: &[u8; 14] = b"NoiseAPIInit\x00\x00";

fn create_key(seed: u8) -> String {
    let key = vec![seed; 32];
    base64::engine::general_purpose::STANDARD.encode(key)
}

fn create_noise_server(key: &str) -> snow::HandshakeState {
    let key_bytes = base64::engine::general_purpose::STANDARD
        .decode(key)
        .expect("valid base64");
    assert_eq!(key_bytes.len(), 32, "Invalid PSK length");
    snow::Builder::new(
        "Noise_NNpsk0_25519_ChaChaPoly_SHA256"
            .parse()
            .expect("Valid encryption protocol"),
    )
    .prologue(NOISE_PROLOGUE)
    .expect("prologue")
    .psk(0, key_bytes.as_slice().try_into().expect("32 bytes"))
    .expect("psk")
    .build_responder()
    .expect("responder")
}

#[test]
fn test_create_noise_frame_and_read_frame_from_buffer() {
    let payload = vec![1, 2, 3, 4, 5];
    let frame = create_noise_frame(payload.clone());
    assert_eq!(frame[0], NOISE_PREAMBLE);
    let len = usize::from(u16::from_be_bytes([frame[1], frame[2]]));
    assert_eq!(len, payload.len());
    let mut buffer = frame;
    let decoded = read_frame_from_buffer(&mut buffer).unwrap();
    assert_eq!(decoded, Some(payload));
    assert!(buffer.is_empty());
}

#[test]
fn test_read_frame_from_buffer_with_insufficient_data() {
    let mut buffer = vec![NOISE_PREAMBLE, 0x00];
    let result = read_frame_from_buffer(&mut buffer);
    assert!(matches!(result, Ok(None)));
}

#[test]
fn test_read_frame_from_buffer_with_unknown_preamble() {
    let mut buffer = vec![0xFF, 0x00, 0x05, 1, 2, 3, 4, 5];
    let result = read_frame_from_buffer(&mut buffer);
    result.unwrap_err();
}

#[test]
fn test_parse_server_and_mac_valid() {
    let mut data = vec![NOISE_PREAMBLE];
    data.extend(b"server_name");
    data.push(ZERO_BYTE);
    data.extend(b"aa:bb:cc:dd:ee:ff");
    data.push(ZERO_BYTE);
    let (server, mac) = parse_server_and_mac(data).unwrap();
    assert_eq!(server, Some("server_name".to_owned()));
    assert_eq!(mac, Some("aa:bb:cc:dd:ee:ff".to_owned()));
}

#[test]
fn test_parse_server_and_mac_invalid_preamble() {
    let mut data = vec![0xFF];
    data.extend(b"server_name");
    data.push(ZERO_BYTE);
    let result = parse_server_and_mac(data);
    result.unwrap_err();
}

#[test]
fn test_noise_hello() {
    let hello = noise_hello();
    assert_eq!(hello, vec![0x01, 0x00, 0x00]);
}

#[test]
fn test_create_noise_client_invalid_key_length() {
    let key = base64::engine::general_purpose::STANDARD.encode([0u8; 16]);
    let result = create_noise_client(&key);
    result.unwrap_err();
}

#[test]
fn test_create_noise_client_valid_key() {
    let key = create_key(1u8);
    let result = create_noise_client(&key);
    result.unwrap();
}

#[test]
fn test_noise_handshake_frame_structure() {
    let key = create_key(2u8);
    let mut client = create_noise_client(&key).unwrap();
    let frame = noise_handshake(&mut client).unwrap();
    assert_eq!(frame[0], NOISE_PREAMBLE);
    // Length field is 2 bytes
    assert_eq!(
        u16::try_from(frame.len()).unwrap(),
        u16::from_be_bytes([frame[1], frame[2]]) + 3
    );
    assert_eq!(frame[3], ZERO_BYTE);
}

#[test]
fn test_parse_noise_response_valid() {
    // Prepare a valid handshake state and message
    let key = create_key(3u8);
    let mut client = create_noise_client(&key).unwrap();
    let mut server = create_noise_server(&key);

    // Simulate handshake
    let mut payload = vec![0u8; 65535];
    let payload_size = client.write_message(&[], &mut payload).unwrap();
    payload.truncate(payload_size);
    let mut read_data = vec![0u8; 65535];
    server.read_message(&payload, &mut read_data).unwrap();

    // Generate simulated response
    let mut write_data = vec![0u8; 65535];
    let size = server.write_message(&[], &mut write_data).unwrap();
    write_data.truncate(size);
    write_data.insert(0, ZERO_BYTE);
    parse_noise_response(write_data, &mut client).expect("Should parse valid response");
}

#[test]
fn test_parse_noise_response_invalid_preamble() {
    let key = create_key(4u8);
    let mut client = create_noise_client(&key).unwrap();
    let data = vec![0xFF, 0x01, 0x02];
    let result = parse_noise_response(data, &mut client);
    assert!(result.is_err());
    let err = result.unwrap_err();
    assert!(err
        .message()
        .contains("Connection error: Noise handshake failed: Incorrect preamble:"));
}

#[test]
fn test_parse_noise_response_invalid_handshake_message() {
    let key = create_key(5u8);
    let mut client = create_noise_client(&key).unwrap();
    // Valid preamble, but invalid handshake message (random bytes)
    let data = vec![ZERO_BYTE, 0xAA, 0xBB, 0xCC];
    let result = parse_noise_response(data, &mut client);
    assert!(result.is_err());
    let err = result.unwrap_err();
    assert_eq!(
        err.message(),
        "Connection error: Noise handshake failed: Noise transport error: state error: NotTurnToRead"
    );
}

#[test]
fn test_create_noise_client_malformed_base64() {
    let result = create_noise_client("not//valid==base64!!");
    result.unwrap_err();
}

#[test]
fn test_create_noise_client_invalid_key_reason() {
    let key = base64::engine::general_purpose::STANDARD.encode([0u8; 16]);
    let err = create_noise_client(&key).unwrap_err();
    assert_eq!(
        err.message(),
        "Connection error: Noise handshake failed: Invalid noise key: Invalid PSK length"
    );
}

/// Runs the whole NNpsk0 handshake between the library's initiator and a
/// snow responder, promoting both sides to transport mode.
fn paired_transports(seed: u8) -> (NoiseCoder, snow::TransportState) {
    let key = create_key(seed);
    let mut client = create_noise_client(&key).unwrap();
    let mut server = create_noise_server(&key);

    let frame = noise_handshake(&mut client).unwrap();
    // Strip the outer envelope and the zero marker byte.
    let mut read_data = vec![0u8; 65535];
    server.read_message(&frame[4..], &mut read_data).unwrap();

    let mut response = vec![0u8; 65535];
    let size = server.write_message(&[], &mut response).unwrap();
    response.truncate(size);
    response.insert(0, ZERO_BYTE);
    parse_noise_response(response, &mut client).unwrap();

    let client_coder = esphome_client::client::noise::into_noise_coder(client).unwrap();
    let server_transport = server.into_transport_mode().unwrap();
    (client_coder, server_transport)
}

#[test]
fn test_noise_transport_round_trip() {
    let (mut client, mut server) = paired_transports(6u8);
    for round in 0..3u8 {
        let payload = vec![round; 64];
        let frame = client.encode(payload.clone()).unwrap();
        assert_eq!(frame[0], NOISE_PREAMBLE);
        let mut read_buf = vec![0u8; 65535];
        let inner_len = usize::from(u16::from_be_bytes([frame[1], frame[2]]));
        assert_eq!(inner_len, frame.len() - 3);
        let size = server.read_message(&frame[3..], &mut read_buf).unwrap();
        read_buf.truncate(size);
        assert_eq!(read_buf, payload);
    }
}

#[test]
fn test_noise_transport_decode_round_trip() {
    let (mut client, mut server) = paired_transports(7u8);
    // Server encrypts; the library's decoder drains and decrypts.
    let payload = vec![0xAB; 100];
    let mut ciphertext = vec![0u8; 65535];
    let size = server.write_message(&payload, &mut ciphertext).unwrap();
    ciphertext.truncate(size);
    let mut buffer = create_noise_frame(ciphertext);
    let decoded = client.decode(&mut buffer).unwrap().unwrap();
    assert_eq!(decoded, payload);
    assert!(buffer.is_empty());
}

#[test]
fn test_noise_decoder_rejects_plain_preamble() {
    let (mut client, _server) = paired_transports(8u8);
    let mut buffer = vec![0x00, 0x00, 0x05, 1, 2, 3, 4, 5];
    let err = client.decode(&mut buffer).unwrap_err();
    assert_eq!(
        err.message(),
        "Protocol error: Unexpected plain data: Device is not using noise encryption protocol"
    );
}

#[test]
fn test_plain_decoder_rejects_noise_preamble_reason() {
    let mut buffer = vec![0x01, 0x00, 0x05, 1, 2, 3, 4, 5];
    let err = esphome_client::client::plain::read_frame_from_buffer(&mut buffer).unwrap_err();
    assert_eq!(
        err.message(),
        "Protocol error: Unexpected encryption: Device is using noise encryption protocol"
    );
}

#[test]
fn test_parse_server_and_mac_without_terminators() {
    // No NUL after the opening byte: neither field is present.
    let data = vec![NOISE_PREAMBLE, b'a', b'b', b'c'];
    let (server, mac) = parse_server_and_mac(data).unwrap();
    assert_eq!(server, None);
    assert_eq!(mac, None);

    // One NUL: the server name ends, the MAC never does.
    let mut data = vec![NOISE_PREAMBLE];
    data.extend(b"srv");
    data.push(ZERO_BYTE);
    data.extend(b"aa:bb");
    let (server, mac) = parse_server_and_mac(data).unwrap();
    assert_eq!(server, Some("srv".to_owned()));
    assert_eq!(mac, None);
}

#[test]
fn test_handshake_driver_full_sequence() {
    let key = create_key(9u8);
    let mut server = create_noise_server(&key);

    let (hello, frame, driver) = esphome_client::client::noise::HandshakeDriver::start(&key).unwrap();
    assert_eq!(hello, vec![0x01, 0x00, 0x00]);
    assert_eq!(frame[0], NOISE_PREAMBLE);
    assert_eq!(frame[3], ZERO_BYTE);

    let mut read_data = vec![0u8; 65535];
    server.read_message(&frame[4..], &mut read_data).unwrap();

    // Server identity frame payload: 0x01, name, NUL, MAC, NUL.
    let mut identity = vec![NOISE_PREAMBLE];
    identity.extend(b"mock-server");
    identity.push(ZERO_BYTE);
    identity.extend(b"abcdef012345");
    identity.push(ZERO_BYTE);
    let driver = match driver.on_frame(identity).unwrap() {
        esphome_client::client::noise::HandshakeProgress::Continue(d) => d,
        esphome_client::client::noise::HandshakeProgress::Complete(_) => {
            panic!("handshake cannot finish on the identity frame")
        }
    };

    let mut response = vec![0u8; 65535];
    let size = server.write_message(&[], &mut response).unwrap();
    response.truncate(size);
    response.insert(0, ZERO_BYTE);
    let mut coder = match driver.on_frame(response).unwrap() {
        esphome_client::client::noise::HandshakeProgress::Complete(c) => c,
        esphome_client::client::noise::HandshakeProgress::Continue(_) => {
            panic!("handshake must finish on the responder message")
        }
    };

    // The promoted codec interoperates with the server transport.
    let mut server = server.into_transport_mode().unwrap();
    let frame = coder.encode(vec![9, 9, 9]).unwrap();
    let mut out = vec![0u8; 65535];
    let n = server.read_message(&frame[3..], &mut out).unwrap();
    assert_eq!(&out[..n], &[9, 9, 9]);
}

#[test]
fn test_handshake_driver_rejects_plain_identity() {
    let key = create_key(10u8);
    let (_, _, driver) = esphome_client::client::noise::HandshakeDriver::start(&key).unwrap();
    let err = match driver.on_frame(vec![0x00, 0x41, 0x42]) {
        Err(e) => e,
        Ok(_) => panic!("a plaintext identity frame must be rejected"),
    };
    assert_eq!(
        err.message(),
        "Connection error: Noise handshake failed: Noise handshake error: Invalid server identity preamble"
    );
}

#[test]
fn test_read_frame_from_buffer_partial_payload() {
    // Header says four payload bytes, only three are in: not ready, and
    // nothing is consumed.
    let mut buffer = vec![NOISE_PREAMBLE, 0x00, 0x04, 1, 2, 3];
    let result = read_frame_from_buffer(&mut buffer);
    assert!(matches!(result, Ok(None)));
    assert_eq!(buffer.len(), 6);
}

#[test]
fn test_parse_server_and_mac_invalid_preamble_reason() {
    let err = parse_server_and_mac(vec![0xFF, 0x41, 0x00]).unwrap_err();
    assert_eq!(
        err.message(),
        "Connection error: Noise handshake failed: Noise handshake error: Invalid server identity preamble"
    );
}

#[test]
fn test_noise_invalid_preamble_reason_text() {
    let mut buffer = vec![0xFF, 0x00, 0x05, 1, 2, 3, 4, 5];
    let err = read_frame_from_buffer(&mut buffer).unwrap_err();
    assert_eq!(
        err.message(),
        "Stream error: Invalid frame format: Invalid preamble: 255"
    );
}

#[test]
fn test_transport_lengths_carry_the_tag() {
    let (mut client, _server) = paired_transports(11u8);
    let payload = vec![7u8; 40];
    let ciphertext = client.encrypt(&payload).unwrap();
    assert_eq!(ciphertext.len(), payload.len() + 16);
    let frame = client.encode(vec![1u8; 25]).unwrap();
    assert_eq!(frame.len(), 3 + 25 + 16);
    assert_eq!(
        usize::from(u16::from_be_bytes([frame[1], frame[2]])),
        25 + 16
    );
}

#[test]
fn test_parse_noise_response_reason_carries_server_text() {
    let key = create_key(12u8);
    let mut client = create_noise_client(&key).unwrap();
    // A refusing server may put a readable reason after the bad preamble.
    let mut data = vec![0x01u8];
    data.extend(b"Handshake MAC failure");
    let err = parse_noise_response(data, &mut client).unwrap_err();
    let msg = err.message();
    assert!(msg.contains("Incorrect preamble:"));
    assert!(msg.ends_with("Handshake MAC failure"));
}
