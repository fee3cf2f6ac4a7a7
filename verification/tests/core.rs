use esphome_client::client::{
    hello_request, read_step, setup_handle_message, EspHomeClientBuilder, ReadAction, SetupState,
    SetupStep,
};
use esphome_client::convert_gatt_uuid;
use esphome_client::error::{ClientError, DiscoveryError, StreamError};
use esphome_client::proto::{
    decode_message, encode_message, ConnectResponse, DecodedFrame, EspHomeMessage, HelloRequest,
    HelloResponse, PingRequest, PingResponse, API_VERSION_MAJOR, API_VERSION_MINOR,
};

#[test]
fn test_convert_gatt_uuid_valid() {
    let uuid = [0x1122_3344_5566_7788, 0x99aa_bbcc_ddee_ff00];
    let result = convert_gatt_uuid(&uuid).unwrap();
    let expected = [
        0x11, 0x22, 0x33, 0x44, 0x55, 0x66, 0x77, 0x88, 0x99, 0xaa, 0xbb, 0xcc, 0xdd, 0xee, 0xff,
        0x00,
    ];
    assert_eq!(result, expected);
}

#[test]
fn test_convert_gatt_uuid_invalid_length_empty() {
    let uuid: [u64; 0] = [];
    assert_eq!(
        convert_gatt_uuid(&uuid),
        Err("UUID must be exactly 2 u64 values")
    );
}

#[test]
fn test_convert_gatt_uuid_invalid_length_one() {
    let uuid = [0x1234_5678_9abc_def0];
    assert_eq!(
        convert_gatt_uuid(&uuid),
        Err("UUID must be exactly 2 u64 values")
    );
}

#[test]
fn test_convert_gatt_uuid_invalid_length_three() {
    let uuid = [1, 2, 3];
    assert_eq!(
        convert_gatt_uuid(&uuid),
        Err("UUID must be exactly 2 u64 values")
    );
}

#[test]
fn test_error_display() {
    let init_err = DiscoveryError::InitializationError {
        reason: "fail".to_owned(),
    };
    let abort_err = DiscoveryError::Aborted;
    assert_eq!(init_err.message(), "Initialization error: fail");
    assert_eq!(abort_err.message(), "Discovery aborted");
}

#[test]
fn test_builder_defaults_and_options() {
    let b = EspHomeClientBuilder::new();
    assert!(b.addr.is_none());
    assert!(b.key.is_none());
    assert!(b.password.is_none());
    assert_eq!(b.timeout_ms, 30_000);
    assert!(b.connection_setup);
    assert!(b.handle_ping);

    let b = b
        .address("127.0.0.1:6053")
        .key("c2VjcmV0")
        .password("pw")
        .client_info("integration-test")
        .timeout(5_000)
        .without_connection_setup()
        .without_ping_handling();
    assert_eq!(b.addr.as_deref(), Some("127.0.0.1:6053"));
    assert_eq!(b.key.as_deref(), Some("c2VjcmV0"));
    assert_eq!(b.password.as_deref(), Some("pw"));
    assert_eq!(b.client_info, "integration-test");
    assert_eq!(b.timeout_ms, 5_000);
    assert!(!b.connection_setup);
    assert!(!b.handle_ping);
}

#[test]
fn test_read_step_answers_ping() {
    let action = read_step(EspHomeMessage::PingRequest(PingRequest {}), true);
    assert_eq!(action, ReadAction::RespondPing);
}

#[test]
fn test_read_step_delivers_ping_when_handling_off() {
    let action = read_step(EspHomeMessage::PingRequest(PingRequest {}), false);
    assert_eq!(
        action,
        ReadAction::Deliver(EspHomeMessage::PingRequest(PingRequest {}))
    );
}

#[test]
fn test_read_step_delivers_other_messages() {
    let msg = EspHomeMessage::PingResponse(PingResponse {});
    let action = read_step(msg.clone(), true);
    assert_eq!(action, ReadAction::Deliver(msg));
}

#[test]
fn test_setup_version_mismatch() {
    let response = EspHomeMessage::HelloResponse(HelloResponse {
        api_version_major: API_VERSION_MAJOR + 1,
        api_version_minor: API_VERSION_MINOR,
        server_info: "mock-server".to_owned(),
        name: "mock-server".to_owned(),
    });
    let step = setup_handle_message(SetupState::AwaitingHello, &response, &None);
    match step {
        SetupStep::Failed(ClientError::ProtocolMismatch {
            expected_major,
            actual_major,
            ..
        }) => {
            assert_eq!(expected_major, API_VERSION_MAJOR);
            assert_eq!(actual_major, API_VERSION_MAJOR + 1);
        }
        other => panic!("expected protocol mismatch, got {other:?}"),
    }
}

#[test]
fn test_setup_minor_difference_continues() {
    let response = EspHomeMessage::HelloResponse(HelloResponse {
        api_version_major: API_VERSION_MAJOR,
        api_version_minor: API_VERSION_MINOR + 1,
        server_info: "mock-server".to_owned(),
        name: "mock-server".to_owned(),
    });
    let step = setup_handle_message(SetupState::AwaitingHello, &response, &Some("pw".to_owned()));
    match step {
        SetupStep::SendConnect(req, SetupState::AwaitingConnect) => {
            assert_eq!(req.password, "pw");
        }
        other => panic!("expected connect request, got {other:?}"),
    }
}

#[test]
fn test_setup_auth_failure() {
    let response = EspHomeMessage::ConnectResponse(ConnectResponse {
        invalid_password: true,
    });
    let step = setup_handle_message(SetupState::AwaitingConnect, &response, &None);
    match step {
        SetupStep::Failed(ClientError::Authentication { reason }) => {
            assert_eq!(reason, "Invalid password");
        }
        other => panic!("expected authentication failure, got {other:?}"),
    }
}

#[test]
fn test_setup_success_and_skipped_messages() {
    // An unrelated message while awaiting the hello response is read past.
    let ping = EspHomeMessage::PingResponse(PingResponse {});
    assert_eq!(
        setup_handle_message(SetupState::AwaitingHello, &ping, &None),
        SetupStep::Continue(SetupState::AwaitingHello)
    );
    let ok = EspHomeMessage::ConnectResponse(ConnectResponse {
        invalid_password: false,
    });
    assert_eq!(
        setup_handle_message(SetupState::AwaitingConnect, &ok, &None),
        SetupStep::Finished
    );
}

#[test]
fn test_encode_hello_request_matches_field_encoding() {
    let msg = EspHomeMessage::HelloRequest(HelloRequest {
        client_info: "integration-test".to_owned(),
        api_version_major: 1,
        api_version_minor: 10,
    });
    let payload = encode_message(&msg).unwrap();

    let mut expected_body: Vec<u8> = Vec::new();
    prost::encoding::string::encode(1, &"integration-test".to_owned(), &mut expected_body);
    prost::encoding::uint32::encode(2, &1u32, &mut expected_body);
    prost::encoding::uint32::encode(3, &10u32, &mut expected_body);

    assert_eq!(&payload[0..2], &1u16.to_be_bytes());
    assert_eq!(
        &payload[2..4],
        &u16::try_from(expected_body.len()).unwrap().to_be_bytes()
    );
    assert_eq!(&payload[4..], &expected_body);
}

#[test]
fn test_encode_empty_bodied_messages() {
    let payload = encode_message(&EspHomeMessage::PingResponse(PingResponse {})).unwrap();
    assert_eq!(payload, vec![0x00, 0x08, 0x00, 0x00]);
    let payload = encode_message(&EspHomeMessage::DisconnectRequest(
        esphome_client::proto::DisconnectRequest {},
    ))
    .unwrap();
    assert_eq!(payload, vec![0x00, 0x05, 0x00, 0x00]);
}

#[test]
fn test_hello_request_carries_api_version() {
    let req = hello_request("integration-test");
    assert_eq!(req.client_info, "integration-test");
    assert_eq!(req.api_version_major, API_VERSION_MAJOR);
    assert_eq!(req.api_version_minor, API_VERSION_MINOR);
}

#[test]
fn test_decode_message_unknown_id() {
    // A frame with type id 65535 matches no variant.
    let bytes = [0xFFu8, 0xFF, 0x00, 0x00];
    let err = decode_message(&bytes).unwrap_err();
    assert_eq!(
        err.message(),
        "Protocol error: Message validation failed: Unknown message type: 65535"
    );
}

#[test]
fn test_decode_message_too_short() {
    let err = decode_message(&[0x00, 0x08]).unwrap_err();
    assert_eq!(
        err.message(),
        "Protocol error: Message validation failed: Message too short"
    );
}

#[test]
fn test_decode_message_ping_request() {
    let bytes = [0x00u8, 0x07, 0x00, 0x00];
    let decoded = decode_message(&bytes).unwrap();
    assert_eq!(
        decoded,
        DecodedFrame::Complete(EspHomeMessage::PingRequest(PingRequest {}))
    );
}

#[test]
fn test_decode_message_hands_fielded_bodies_on() {
    let mut bytes = vec![0x00u8, 0x02, 0x00, 0x04];
    prost::encoding::uint32::encode(1, &1u32, &mut bytes);
    let decoded = decode_message(&bytes).unwrap();
    match decoded {
        DecodedFrame::NeedsFieldDecode(2, body) => assert_eq!(body, bytes[4..].to_vec()),
        other => panic!("expected fielded body, got {other:?}"),
    }
}

#[test]
fn test_plain_hello_wire_shape() {
    // The first bytes of a plaintext hello: preamble 0x00, then the body
    // length and type id 1 as varints.
    let msg = EspHomeMessage::HelloRequest(hello_request("integration-test"));
    let payload = encode_message(&msg).unwrap();
    let frame = esphome_client::client::plain::create_frame(&payload).unwrap();
    assert_eq!(frame[0], 0x00);
    let body_len = payload.len() - 4;
    let (len, after_len) =
        esphome_client::client::plain::convert_from_leb128(&frame, 1).unwrap();
    assert_eq!(usize::from(len), body_len);
    let (type_id, _) =
        esphome_client::client::plain::convert_from_leb128(&frame, after_len).unwrap();
    assert_eq!(type_id, 1);
}

#[test]
fn test_encode_rejects_oversized_body() {
    let msg = EspHomeMessage::HelloRequest(HelloRequest {
        client_info: "x".repeat(70_000),
        api_version_major: 1,
        api_version_minor: 10,
    });
    let err = encode_message(&msg).unwrap_err();
    assert!(matches!(
        err,
        ClientError::Stream(StreamError::FrameTooLarge { max_size: 65535, .. })
    ));
}

#[test]
fn test_timeout_message_rendering() {
    let err = ClientError::Timeout { timeout_ms: 30_000 };
    assert_eq!(err.message(), "Operation timed out after 30000ms");
    let err = ClientError::ProtocolMismatch {
        expected_major: 1,
        expected_minor: 10,
        actual_major: 2,
        actual_minor: 3,
    };
    assert_eq!(err.message(), "Protocol mismatch: expected 1.10, actual 2.3");
}
