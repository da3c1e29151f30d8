//! The errors that the endpoint operations report.
use vstd::prelude::*;

verus! {

/// Why an endpoint operation failed.
#[derive(Debug, Clone, Copy, PartialEq, Eq, Structural)]
pub enum CoreError {
    /// No endpoint is registered for the pair of devices.
    EndpointNotExists,
    /// The message could not be handed to the endpoint in time.
    MessageSendFailed,
    /// No reply came back in time.
    ResponseTimeout,
    /// The reply channel closed before a reply came.
    ResponseChannelClosed,
    /// The passive device could not provide its desktop parameters.
    NegotiateDesktopParamsFailed,
    /// The monitor chosen for capture is not among the active monitors.
    MonitorNotFound,
    /// No graphics driver type produced a device.
    DeviceCreationFailed,
    /// The remote device is already connected.
    AlreadyConnected,
    /// This device has no identifier yet.
    LocalDeviceIdNotSet,
    /// The remote device is not connected.
    RemoteDeviceNotConnected,
    /// The key with which to encrypt the password is not (or no longer) there.
    PasswordVerifyPublicKeyNotExists,
    /// The remote device sent a public key that cannot be used.
    InvalidPasswordVerifyPublicKey,
    /// The password could not be encrypted.
    EncryptPasswordFailed,
    /// No ephemeral private key could be generated.
    GenerateEphemeralKeyFailed,
    /// The ephemeral public key could not be computed.
    ComputePublicKeyFailed,
    /// No exchange salt could be drawn.
    GenerateExchangeSaltFailed,
    /// The keys for the session could not be agreed on.
    KeyAgreementFailed,
}

/// The result of an endpoint operation.
pub type CoreResult<T> = Result<T, CoreError>;

} // verus!
