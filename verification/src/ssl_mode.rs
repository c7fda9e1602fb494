use vstd::prelude::*;

verus! {

/// How the connection is to be encrypted.
#[derive(Clone, Copy, Debug, PartialEq, Eq, Structural)]
pub enum SslMode {
    /// Plain connection.
    Disabled,
    /// Encrypted where the server offers it.
    IfAvailable,
    /// Encrypted, or no connection.
    Require,
    /// Encrypted, with a certificate of a trusted authority.
    RequireVerifyCa,
    /// Encrypted, with a certificate for the server's host name.
    RequireVerifyFull,
}

} // verus!
