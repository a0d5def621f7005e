//! The errors that the library reports.
use vstd::prelude::*;

verus! {

/// A field of a request schema is not in the required format.
#[derive(Clone, Copy, Debug, PartialEq, Eq, Structural, Hash)]
pub enum FieldFormatError {
    PasswordError,
    UsernameError,
    EmailError,
    ConsentError,
}

/// Registration was refused before any request was made.
#[derive(Clone, Copy, Debug, PartialEq, Eq, Structural, Hash)]
pub enum RegistrationError {
    /// Consent must be given to register.
    Consent,
}

/// A user-supplied value is not acceptable.
#[derive(Clone, Copy, Debug, PartialEq, Eq, Structural, Hash)]
pub enum UserError {
    /// The e-mail address is not valid.
    InvalidEmail,
}

/// Errors of requests to an instance.
#[derive(Clone, Debug, PartialEq, Eq, Hash)]
pub enum ChorusError {
    /// Server did not respond.
    NoResponse,
    /// The request could not be sent or no response was received.
    RequestFailed { url: String, error: String },
    /// Response received, however, it was not of the successful responses type.
    ReceivedErrorCode { error_code: u16, error: String },
    /// Used when there is likely something wrong with the instance the request was directed to.
    CantGetInformation { error: String },
    /// The request's form body was malformed or invalid.
    InvalidFormBody { error_type: String, error: String },
    /// The request was not processed because a rate-limit bucket is exhausted.
    RateLimited { bucket: String },
    /// The multipart form could not be created.
    MultipartCreation { error: String },
    /// The regular form could not be created.
    FormCreation { error: String },
    /// The token is invalid.
    TokenExpired,
    /// The user lacks the permissions needed to perform this action.
    NoPermission,
    /// Resource not found.
    NotFound { error: String },
    /// The current password is needed to authenticate this action.
    PasswordRequired,
    /// Malformed or unexpected response.
    InvalidResponse { error: String },
    /// Invalid, insufficient or too many arguments provided.
    InvalidArguments { error: String },
}

/// Errors received from the gateway, and errors when connecting to it.
#[derive(Clone, Debug, PartialEq, Eq, Default)]
pub enum GatewayError {
    /// We're not sure what went wrong. Try reconnecting?
    #[default]
    Unknown,
    /// An invalid opcode or an invalid payload for an opcode was sent.
    UnknownOpcode,
    /// The gateway server couldn't decode the payload.
    Decode,
    /// A payload was sent prior to identifying.
    NotAuthenticated,
    /// The account token sent with the identify payload is invalid.
    AuthenticationFailed,
    /// More than one identify payload was sent.
    AlreadyAuthenticated,
    /// The sequence number sent when resuming the session was invalid.
    InvalidSequenceNumber,
    /// The client is being rate limited.
    RateLimited,
    /// The session timed out.
    SessionTimedOut,
    /// An invalid shard was sent when identifying.
    InvalidShard,
    /// Sharding is required to connect.
    ShardingRequired,
    /// An invalid gateway version was sent.
    InvalidAPIVersion,
    /// An invalid intent was sent.
    InvalidIntents,
    /// A disallowed intent was sent.
    DisallowedIntents,
    /// The connection could not be made.
    CannotConnect { error: String },
    /// The first message on a new connection was not a hello.
    NonHelloOnInitiate { opcode: u8 },
    /// An opcode that the server never sends was received.
    UnexpectedOpcodeReceived { opcode: u8 },
}

/// Voice gateway errors.
#[derive(Clone, Debug, PartialEq, Eq, Default)]
pub enum VoiceGatewayError {
    /// An invalid opcode was sent.
    #[default]
    UnknownOpcode,
    /// The server failed to decode the identify payload.
    FailedToDecodePayload,
    /// A payload was sent before identifying.
    NotAuthenticated,
    /// The token in the identify payload is incorrect.
    AuthenticationFailed,
    /// More than one identify payload was sent.
    AlreadyAuthenticated,
    /// The session is no longer valid.
    SessionNoLongerValid,
    /// The session timed out.
    SessionTimeout,
    /// The desired server could not be found.
    ServerNotFound,
    /// The server did not recognise the protocol.
    UnknownProtocol,
    /// Disconnected from voice; should not attempt to reconnect.
    Disconnected,
    /// The voice server crashed; try resuming.
    VoiceServerCrashed,
    /// The server failed to decrypt data.
    UnknownEncryptionMode,
    /// The connection could not be made.
    CannotConnect { error: String },
    /// The first message on a new connection was not a hello.
    NonHelloOnInitiate { opcode: u8 },
    /// An opcode that the server never sends was received.
    UnexpectedOpcodeReceived { opcode: u8 },
}

/// Voice UDP errors.
#[derive(Clone, Debug, PartialEq, Eq)]
pub enum VoiceUdpError {
    /// The socket could not be written to or read from.
    BrokenSocket { error: String },
    /// The necessary data has not been received yet.
    NoData,
    /// The voice encryption mode is not implemented.
    EncryptionModeNotImplemented { encryption_mode: String },
    /// No key has been received yet.
    NoKey,
    /// Encryption failed.
    FailedEncryption,
    /// Decryption failed.
    FailedDecryption,
    /// No nonce could be generated.
    FailedNonceGeneration { error: String },
    /// The socket could not be bound.
    CannotBind { error: String },
    /// The UDP connection could not be opened.
    CannotConnect { error: String },
}

} // verus!
