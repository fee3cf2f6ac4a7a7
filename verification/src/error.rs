//! Error taxonomy of the client: connection, stream, protocol, noise,
//! discovery, timeout, configuration and mismatch categories.

use vstd::prelude::*;
use vstd::string::StringExecFns;

verus! {

/// Connection-specific errors.
#[derive(Debug, Clone, PartialEq, Eq)]
pub enum ConnectionError {
    /// Failed to establish the TCP connection.
    TcpConnect { address: String, message: String },
    /// The Noise protocol handshake failed.
    NoiseHandshake { reason: String },
}

impl ConnectionError {
    /// The message that describes this error.
    pub open spec fn message_spec(&self) -> Seq<char> {
        match self {
            ConnectionError::TcpConnect { address, message } => "Failed to connect to "@
                + address@ + ": "@ + message@,
            ConnectionError::NoiseHandshake { reason } => "Noise handshake failed: "@ + reason@,
        }
    }

    /// Renders the error as text.
    pub fn message(&self) -> (r: String)
        ensures
            r@ == self.message_spec(),
    {
        match self {
            ConnectionError::TcpConnect { address, message } => String::from_str(
                "Failed to connect to ",
            ).concat(address.as_str()).concat(": ").concat(message.as_str()),
            ConnectionError::NoiseHandshake { reason } => String::from_str(
                "Noise handshake failed: ",
            ).concat(reason.as_str()),
        }
    }
}

/// Stream-related errors.
#[derive(Debug, Clone, PartialEq, Eq)]
pub enum StreamError {
    /// An invalid frame format was received.
    InvalidFrame { reason: String },
    /// A frame exceeded the maximum allowed size.
    FrameTooLarge { size: usize, max_size: usize },
    /// Reading from the stream failed.
    Read { message: String },
    /// Writing to the stream failed.
    Write { message: String },
}

impl StreamError {
    /// Renders the error as text.
    pub fn message(&self) -> (r: String)
        ensures
            self matches StreamError::InvalidFrame { reason } ==> r@ == "Invalid frame format: "@
                + reason@,
            self matches StreamError::Read { message } ==> r@ == "Read error: "@ + message@,
            self matches StreamError::Write { message } ==> r@ == "Write error: "@ + message@,
    {
        match self {
            StreamError::InvalidFrame { reason } => String::from_str(
                "Invalid frame format: ",
            ).concat(reason.as_str()),
            StreamError::FrameTooLarge { size, max_size } => String::from_str(
                "Frame too large: ",
            ).concat(size.to_string().as_str()).concat(" bytes (max: ").concat(
                max_size.to_string().as_str(),
            ).concat(")"),
            StreamError::Read { message } => String::from_str("Read error: ").concat(
                message.as_str(),
            ),
            StreamError::Write { message } => String::from_str("Write error: ").concat(
                message.as_str(),
            ),
        }
    }
}

/// Protocol-related errors.
#[derive(Debug, Clone, PartialEq, Eq)]
pub enum ProtocolError {
    /// Decoding a field-tagged message body failed.
    ProtobufParse { message: String },
    /// Encoding a field-tagged message body failed.
    ProtobufEncode { message: String },
    /// Plaintext data arrived although the Noise envelope was negotiated.
    UnexpectedPlain,
    /// Encrypted data arrived although the plaintext envelope was negotiated.
    UnexpectedEncryption,
    /// A message failed validation.
    ValidationFailed { reason: String },
}

impl ProtocolError {
    /// Renders the error as text.
    pub fn message(&self) -> (r: String)
        ensures
            self is UnexpectedPlain ==> r@
                == "Unexpected plain data: Device is not using noise encryption protocol"@,
            self is UnexpectedEncryption ==> r@
                == "Unexpected encryption: Device is using noise encryption protocol"@,
            self matches ProtocolError::ValidationFailed { reason } ==> r@
                == "Message validation failed: "@ + reason@,
    {
        match self {
            ProtocolError::ProtobufParse { message } => String::from_str(
                "Protobuf parsing failed: ",
            ).concat(message.as_str()),
            ProtocolError::ProtobufEncode { message } => String::from_str(
                "Protobuf encoding failed: ",
            ).concat(message.as_str()),
            ProtocolError::UnexpectedPlain => String::from_str(
                "Unexpected plain data: Device is not using noise encryption protocol",
            ),
            ProtocolError::UnexpectedEncryption => String::from_str(
                "Unexpected encryption: Device is using noise encryption protocol",
            ),
            ProtocolError::ValidationFailed { reason } => String::from_str(
                "Message validation failed: ",
            ).concat(reason.as_str()),
        }
    }
}

/// Discovery-related errors.
#[derive(Debug, Clone, PartialEq, Eq)]
pub enum DiscoveryError {
    /// The discovery client could not be initialized.
    InitializationError { reason: String },
    /// Discovery was aborted, for example by a shutdown signal.
    Aborted,
}

impl DiscoveryError {
    /// Renders the error as text.
    pub fn message(&self) -> (r: String)
        ensures
            self matches DiscoveryError::InitializationError { reason } ==> r@
                == "Initialization error: "@ + reason@,
            self is Aborted ==> r@ == "Discovery aborted"@,
    {
        match self {
            DiscoveryError::InitializationError { reason } => String::from_str(
                "Initialization error: ",
            ).concat(reason.as_str()),
            DiscoveryError::Aborted => String::from_str("Discovery aborted"),
        }
    }
}

/// Noise protocol specific errors.
#[derive(Debug, Clone, PartialEq, Eq)]
pub enum NoiseError {
    /// The Noise handshake state reported an error.
    Handshake { reason: String },
    /// The Noise transport state reported an error.
    Transport { reason: String },
    /// The supplied noise key is not usable.
    InvalidKey { reason: String },
    /// A Noise encryption or decryption operation failed.
    CryptoOperation { reason: String },
}

impl NoiseError {
    /// The message that describes this error.
    pub open spec fn message_spec(&self) -> Seq<char> {
        match self {
            NoiseError::Handshake { reason } => "Noise handshake error: "@ + reason@,
            NoiseError::Transport { reason } => "Noise transport error: "@ + reason@,
            NoiseError::InvalidKey { reason } => "Invalid noise key: "@ + reason@,
            NoiseError::CryptoOperation { reason } => "Noise crypto operation failed: "@
                + reason@,
        }
    }

    /// Renders the error as text.
    pub fn message(&self) -> (r: String)
        ensures
            r@ == self.message_spec(),
    {
        match self {
            NoiseError::Handshake { reason } => String::from_str(
                "Noise handshake error: ",
            ).concat(reason.as_str()),
            NoiseError::Transport { reason } => String::from_str(
                "Noise transport error: ",
            ).concat(reason.as_str()),
            NoiseError::InvalidKey { reason } => String::from_str("Invalid noise key: ").concat(
                reason.as_str(),
            ),
            NoiseError::CryptoOperation { reason } => String::from_str(
                "Noise crypto operation failed: ",
            ).concat(reason.as_str()),
        }
    }
}

/// Main error type for client operations.
#[derive(Debug, Clone, PartialEq, Eq)]
pub enum ClientError {
    /// Connection-related errors.
    Connection(ConnectionError),
    /// Authentication failed during connection setup.
    Authentication { reason: String },
    /// Stream-related errors.
    Stream(StreamError),
    /// Protocol parsing errors.
    Protocol(ProtocolError),
    /// The connect phase exceeded its time budget.
    Timeout { timeout_ms: u64 },
    /// The client was configured incorrectly.
    Configuration { message: String },
    /// The major API version of the server differs from the client's.
    ProtocolMismatch {
        expected_major: u32,
        expected_minor: u32,
        actual_major: u32,
        actual_minor: u32,
    },
    /// A shared internal state was unusable.
    InvalidInternalState { reason: String },
}

impl ClientError {
    /// Renders the error as text.
    pub fn message(&self) -> (r: String)
        ensures
            self matches ClientError::Connection(c) ==> r@ == "Connection error: "@
                + c.message_spec(),
            self matches ClientError::Authentication { reason } ==> r@
                == "Authentication failed: "@ + reason@,
            self matches ClientError::Configuration { message } ==> r@
                == "Configuration error: "@ + message@,
            self matches ClientError::InvalidInternalState { reason } ==> r@
                == "Invalid internal state: "@ + reason@,
    {
        match self {
            ClientError::Connection(c) => String::from_str("Connection error: ").concat(
                c.message().as_str(),
            ),
            ClientError::Authentication { reason } => String::from_str(
                "Authentication failed: ",
            ).concat(reason.as_str()),
            ClientError::Stream(s) => String::from_str("Stream error: ").concat(
                s.message().as_str(),
            ),
            ClientError::Protocol(p) => String::from_str("Protocol error: ").concat(
                p.message().as_str(),
            ),
            ClientError::Timeout { timeout_ms } => String::from_str(
                "Operation timed out after ",
            ).concat(timeout_ms.to_string().as_str()).concat("ms"),
            ClientError::Configuration { message } => String::from_str(
                "Configuration error: ",
            ).concat(message.as_str()),
            ClientError::ProtocolMismatch {
                expected_major,
                expected_minor,
                actual_major,
                actual_minor,
            } => String::from_str("Protocol mismatch: expected ").concat(
                expected_major.to_string().as_str(),
            ).concat(".").concat(expected_minor.to_string().as_str()).concat(", actual ").concat(
                actual_major.to_string().as_str(),
            ).concat(".").concat(actual_minor.to_string().as_str()),
            ClientError::InvalidInternalState { reason } => String::from_str(
                "Invalid internal state: ",
            ).concat(reason.as_str()),
        }
    }

    /// Wraps a Noise error in the connection category, as the handshake
    /// is the only place where one can arise.
    pub fn from_noise(e: &NoiseError) -> (r: ClientError)
        ensures
            r matches ClientError::Connection(c) && c matches ConnectionError::NoiseHandshake {
                reason,
            } && reason@ == e.message_spec(),
    {
        ClientError::Connection(ConnectionError::NoiseHandshake { reason: e.message() })
    }
}

} // verus!
