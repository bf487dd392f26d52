use vstd::prelude::*;

verus! {

/// Closed taxonomy of failures across the pipeline. Every step reports the
/// kind of failure together with the step's own message, so callers can
/// branch on the kind instead of matching message substrings.
#[derive(Debug, Clone, PartialEq, Eq)]
pub enum NearError {
    /// Bad or missing endpoint / contract configuration.
    ConfigError(String),
    /// Malformed account id or method arguments, rejected before any network call.
    InvalidInput(String),
    /// Signing-key material that cannot be parsed into a usable key.
    InvalidKeyMaterial(String),
    /// Transport failure (connection refusal, timeout) outside the broadcast phase.
    NetworkError(String),
    /// The access key is unknown to the node; distinct from a transport failure.
    AccessKeyNotFound(String),
    /// A transaction field that cannot be canonically encoded.
    EncodingError(String),
    /// A contract-level failure reported by the node.
    ContractError(String),
    /// A response that is neither a structured payload nor raw text.
    ParseError(String),
}

impl NearError {
    /// The message carried by the error, whichever kind it is.
    pub fn message(&self) -> (r: &String)
        ensures
            (match self {
                NearError::ConfigError(m) => m,
                NearError::InvalidInput(m) => m,
                NearError::InvalidKeyMaterial(m) => m,
                NearError::NetworkError(m) => m,
                NearError::AccessKeyNotFound(m) => m,
                NearError::EncodingError(m) => m,
                NearError::ContractError(m) => m,
                NearError::ParseError(m) => m,
            })@ == r@,
    {
        match self {
            NearError::ConfigError(m) => m,
            NearError::InvalidInput(m) => m,
            NearError::InvalidKeyMaterial(m) => m,
            NearError::NetworkError(m) => m,
            NearError::AccessKeyNotFound(m) => m,
            NearError::EncodingError(m) => m,
            NearError::ContractError(m) => m,
            NearError::ParseError(m) => m,
        }
    }

    /// A human-readable rendering: a kind prefix followed by the message.
    pub fn describe(&self) -> (r: String)
        ensures
            self matches NearError::ConfigError(m) ==> r@ == "Configuration error: "@ + m@,
            self matches NearError::InvalidInput(m) ==> r@ == "Invalid input: "@ + m@,
            self matches NearError::InvalidKeyMaterial(m) ==> r@ == "Invalid key material: "@ + m@,
            self matches NearError::NetworkError(m) ==> r@ == "Network error: "@ + m@,
            self matches NearError::AccessKeyNotFound(m) ==> r@ == "Access key not found: "@ + m@,
            self matches NearError::EncodingError(m) ==> r@ == "Encoding error: "@ + m@,
            self matches NearError::ContractError(m) ==> r@ == "Contract error: "@ + m@,
            self matches NearError::ParseError(m) ==> r@ == "Parse error: "@ + m@,
    {
        match self {
            NearError::ConfigError(m) => String::from_str("Configuration error: ").concat(m.as_str()),
            NearError::InvalidInput(m) => String::from_str("Invalid input: ").concat(m.as_str()),
            NearError::InvalidKeyMaterial(m) => String::from_str("Invalid key material: ").concat(
                m.as_str(),
            ),
            NearError::NetworkError(m) => String::from_str("Network error: ").concat(m.as_str()),
            NearError::AccessKeyNotFound(m) => String::from_str("Access key not found: ").concat(
                m.as_str(),
            ),
            NearError::EncodingError(m) => String::from_str("Encoding error: ").concat(m.as_str()),
            NearError::ContractError(m) => String::from_str("Contract error: ").concat(m.as_str()),
            NearError::ParseError(m) => String::from_str("Parse error: ").concat(m.as_str()),
        }
    }
}

} // verus!
