//! Client core: the connection builder, the connection-setup state
//! machine, and the read-path decision that answers keep-alive pings.

pub mod noise;
pub mod plain;

use vstd::prelude::*;
use vstd::string::StringExecFns;

use crate::error::ClientError;
use crate::proto::{
    ConnectRequest, EspHomeMessage, HelloRequest, API_VERSION_MAJOR, API_VERSION_MINOR,
};

verus! {

/// Configuration for a connection, consumed by the connect phase. The
/// presence of `key` selects the Noise envelope; its absence selects the
/// plaintext envelope.
#[derive(Debug)]
pub struct EspHomeClientBuilder {
    pub addr: Option<String>,
    pub key: Option<String>,
    pub password: Option<String>,
    pub client_info: String,
    pub timeout_ms: u64,
    pub connection_setup: bool,
    pub handle_ping: bool,
}

impl EspHomeClientBuilder {
    /// A builder with the defaults: no address, plaintext envelope, no
    /// password, a thirty-second connect budget, connection setup and
    /// ping handling on.
    pub fn new() -> (r: EspHomeClientBuilder)
        ensures
            r.addr is None,
            r.key is None,
            r.password is None,
            r.client_info@ == "esphome-client:0.1.0"@,
            r.timeout_ms == 30000,
            r.connection_setup,
            r.handle_ping,
    {
        EspHomeClientBuilder {
            addr: None,
            key: None,
            password: None,
            client_info: String::from_str("esphome-client:0.1.0"),
            timeout_ms: 30000,
            connection_setup: true,
            handle_ping: true,
        }
    }

    /// Sets the `host:port` address of the server to connect to.
    pub fn address(self, addr: &str) -> (r: EspHomeClientBuilder)
        ensures
            r.addr matches Some(a) && a@ == addr@,
            r.key == self.key,
            r.password == self.password,
            r.client_info == self.client_info,
            r.timeout_ms == self.timeout_ms,
            r.connection_setup == self.connection_setup,
            r.handle_ping == self.handle_ping,
    {
        EspHomeClientBuilder { addr: Some(addr.to_owned()), ..self }
    }

    /// Selects the Noise envelope, keyed by a base64-encoded 32-byte PSK.
    pub fn key(self, key: &str) -> (r: EspHomeClientBuilder)
        ensures
            r.key matches Some(k) && k@ == key@,
            r.addr == self.addr,
            r.password == self.password,
            r.client_info == self.client_info,
            r.timeout_ms == self.timeout_ms,
            r.connection_setup == self.connection_setup,
            r.handle_ping == self.handle_ping,
    {
        EspHomeClientBuilder { key: Some(key.to_owned()), ..self }
    }

    /// Sets the legacy password sent in the connect request; only used
    /// when connection setup is on.
    pub fn password(self, password: &str) -> (r: EspHomeClientBuilder)
        ensures
            r.password matches Some(p) && p@ == password@,
            r.addr == self.addr,
            r.key == self.key,
            r.client_info == self.client_info,
            r.timeout_ms == self.timeout_ms,
            r.connection_setup == self.connection_setup,
            r.handle_ping == self.handle_ping,
    {
        EspHomeClientBuilder { password: Some(password.to_owned()), ..self }
    }

    /// Sets the time budget, in milliseconds, for the connect phase.
    pub fn timeout(self, timeout_ms: u64) -> (r: EspHomeClientBuilder)
        ensures
            r.timeout_ms == timeout_ms,
            r.addr == self.addr,
            r.key == self.key,
            r.password == self.password,
            r.client_info == self.client_info,
            r.connection_setup == self.connection_setup,
            r.handle_ping == self.handle_ping,
    {
        EspHomeClientBuilder { timeout_ms, ..self }
    }

    /// Sets the client description sent in the hello request; only used
    /// when connection setup is on.
    pub fn client_info(self, client_info: &str) -> (r: EspHomeClientBuilder)
        ensures
            r.client_info@ == client_info@,
            r.addr == self.addr,
            r.key == self.key,
            r.password == self.password,
            r.timeout_ms == self.timeout_ms,
            r.connection_setup == self.connection_setup,
            r.handle_ping == self.handle_ping,
    {
        EspHomeClientBuilder { client_info: client_info.to_owned(), ..self }
    }

    /// Turns the hello/connect exchange off: the connection is usable
    /// right after the envelope handshake.
    pub fn without_connection_setup(self) -> (r: EspHomeClientBuilder)
        ensures
            !r.connection_setup,
            r.addr == self.addr,
            r.key == self.key,
            r.password == self.password,
            r.client_info == self.client_info,
            r.timeout_ms == self.timeout_ms,
            r.handle_ping == self.handle_ping,
    {
        EspHomeClientBuilder { connection_setup: false, ..self }
    }

    /// Turns the automatic answer to keep-alive pings off.
    pub fn without_ping_handling(self) -> (r: EspHomeClientBuilder)
        ensures
            !r.handle_ping,
            r.addr == self.addr,
            r.key == self.key,
            r.password == self.password,
            r.client_info == self.client_info,
            r.timeout_ms == self.timeout_ms,
            r.connection_setup == self.connection_setup,
    {
        EspHomeClientBuilder { handle_ping: false, ..self }
    }
}

/// The hello request that opens connection setup, carrying the
/// compiled-in API version.
pub fn hello_request(client_info: &str) -> (r: HelloRequest)
    ensures
        r.client_info@ == client_info@,
        r.api_version_major == API_VERSION_MAJOR,
        r.api_version_minor == API_VERSION_MINOR,
{
    HelloRequest {
        client_info: client_info.to_owned(),
        api_version_major: API_VERSION_MAJOR,
        api_version_minor: API_VERSION_MINOR,
    }
}

/// Where the hello/connect exchange stands.
#[derive(Debug, Clone, Copy, PartialEq, Eq, Structural)]
pub enum SetupState {
    /// The hello request is out; awaiting the hello response.
    AwaitingHello,
    /// The connect request is out; awaiting the connect response.
    AwaitingConnect,
    /// The exchange is over.
    Ready,
}

/// What to do next in the hello/connect exchange.
#[derive(Debug, Clone, PartialEq)]
pub enum SetupStep {
    /// The message is not the awaited answer: keep reading in this state.
    Continue(SetupState),
    /// Send this connect request, then await its response.
    SendConnect(ConnectRequest, SetupState),
    /// The exchange finished; the connection is ready.
    Finished,
    /// The exchange failed; surface this error.
    Failed(ClientError),
}

/// One step of the hello/connect exchange: given where it stands and one
/// inbound message, decides what to send, when it is over, and when it
/// has failed. A hello response whose major API version differs from the
/// client's is a protocol mismatch; a connect response flagging the
/// password is an authentication failure; any other message is read past.
pub fn setup_handle_message(
    state: SetupState,
    msg: &EspHomeMessage,
    password: &Option<String>,
) -> (r: SetupStep)
    ensures
        state is AwaitingHello && !(msg is HelloResponse) ==> r == SetupStep::Continue(state),
        msg matches EspHomeMessage::HelloResponse(h) ==> (state is AwaitingHello
            && h.api_version_major != API_VERSION_MAJOR ==> r == SetupStep::Failed(
            ClientError::ProtocolMismatch {
                expected_major: API_VERSION_MAJOR,
                expected_minor: API_VERSION_MINOR,
                actual_major: h.api_version_major,
                actual_minor: h.api_version_minor,
            },
        )),
        msg matches EspHomeMessage::HelloResponse(h) ==> (state is AwaitingHello
            && h.api_version_major == API_VERSION_MAJOR ==> (r matches SetupStep::SendConnect(
            req,
            next,
        ) && next is AwaitingConnect && (password matches Some(p) ==> req.password == p) && (
        password is None ==> req.password@ == Seq::<char>::empty()))),
        state is AwaitingConnect && !(msg is ConnectResponse) ==> r == SetupStep::Continue(state),
        msg matches EspHomeMessage::ConnectResponse(c) ==> (state is AwaitingConnect
            && c.invalid_password ==> (r matches SetupStep::Failed(ClientError::Authentication {
            reason,
        }) && reason@ == "Invalid password"@)),
        msg matches EspHomeMessage::ConnectResponse(c) ==> (state is AwaitingConnect
            && !c.invalid_password ==> r == SetupStep::Finished),
        state is Ready ==> r == SetupStep::Finished,
{
    match state {
        SetupState::AwaitingHello => {
            match msg {
                EspHomeMessage::HelloResponse(h) => {
                    if h.api_version_major != API_VERSION_MAJOR {
                        SetupStep::Failed(
                            ClientError::ProtocolMismatch {
                                expected_major: API_VERSION_MAJOR,
                                expected_minor: API_VERSION_MINOR,
                                actual_major: h.api_version_major,
                                actual_minor: h.api_version_minor,
                            },
                        )
                    } else {
                        let pw: String = match password {
                            Some(p) => p.clone(),
                            None => String::new(),
                        };
                        SetupStep::SendConnect(
                            ConnectRequest { password: pw },
                            SetupState::AwaitingConnect,
                        )
                    }
                },
                _ => SetupStep::Continue(state),
            }
        },
        SetupState::AwaitingConnect => {
            match msg {
                EspHomeMessage::ConnectResponse(c) => {
                    if c.invalid_password {
                        SetupStep::Failed(
                            ClientError::Authentication {
                                reason: String::from_str("Invalid password"),
                            },
                        )
                    } else {
                        SetupStep::Finished
                    }
                },
                _ => SetupStep::Continue(state),
            }
        },
        SetupState::Ready => SetupStep::Finished,
    }
}

/// What the read path does with one inbound message.
#[derive(Debug, Clone, PartialEq)]
pub enum ReadAction {
    /// Answer with one ping response and read on; the message is not
    /// handed to the caller.
    RespondPing,
    /// Hand the message to the caller.
    Deliver(EspHomeMessage),
}

/// The read-path decision: a keep-alive ping is answered, and answered
/// only, while ping handling is on; every other message, and every
/// message while ping handling is off, goes to the caller unchanged.
pub fn read_step(msg: EspHomeMessage, handle_ping: bool) -> (r: ReadAction)
    ensures
        (msg is PingRequest && handle_ping) <==> r is RespondPing,
        !(msg is PingRequest && handle_ping) ==> r == ReadAction::Deliver(msg),
{
    match msg {
        EspHomeMessage::PingRequest(p) => {
            if handle_ping {
                ReadAction::RespondPing
            } else {
                ReadAction::Deliver(EspHomeMessage::PingRequest(p))
            }
        },
        other => ReadAction::Deliver(other),
    }
}

} // verus!
