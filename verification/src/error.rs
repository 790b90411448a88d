use vstd::prelude::*;

verus! {

#[verifier::external_type_specification]
#[verifier::external_body]
pub struct ExCurlError(curl::Error);

#[verifier::external_type_specification]
#[verifier::external_body]
pub struct ExCurlFormError(curl::FormError);

/// The failure a request or a configuration call can end in; the underlying
/// transport's error is wrapped, not reinterpreted
#[derive(Debug)]
pub enum HttpError {
    /// A transport-level error: network, TLS, protocol or a rejected
    /// configuration string
    Transport(curl::Error),
    /// The transport rejected a multipart form part
    Form(curl::FormError),
}

} // verus!
