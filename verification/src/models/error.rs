use vstd::prelude::*;

use crate::decimal_text::{text_between, text_with};
use crate::models::gas::Gas;

verus! {

/// All errors which can occur during the estimation of the gas cost of a
/// transaction.
#[derive(Debug, Clone, PartialEq)]
pub enum Error {
    /// Gas usage of transaction exceeds specified gas limit.
    GasExceedsLimit { estimated_cost: Option<Gas>, gas_limit: Gas },
    /// Failed to decode a string as hex.
    StringNotHex { bad_value: String },
    /// Failed to parse command line arguments.
    FailedParseCliArgs { underlying: String },
    /// Unable to acquire cache lock.
    UnableToAcquireCacheLock,
    /// Unable to start the server.
    UnableToStartServer { underlying: String },
    /// Unable to bind to address.
    UnableToBind(String),
    /// Both remote and local estimate failed.
    FailedToCalculateGasEstimate,
    /// Local simulation failed.
    LocalSimulationFailed(String),
    /// Remote gas estimate failed.
    RemoteGasEstimateFailed(String),
    /// Unable to get address of bound socket.
    UnableToGetBoundAddress(String),
    /// Failed to signal readiness.
    FailedToSignalReadiness,
    /// No API key provided for the remote estimator.
    NoAlchemyApiKey,
    /// Failed to send a request to the remote estimator.
    AlchemySendRequest { method: String },
    /// Failed to read the bytes of the remote estimator's response.
    AlchemyReadBytesOfResponse { underlying: String },
    /// Failed to parse the remote estimator's response to some type.
    AlchemyParseToResponseToType { kind: String, underlying: String },
    /// Failed to parse the remote estimator's answer as a number.
    AlchemyParseAsU32,
    /// Failed to parse the remote estimator's answer as bytes.
    AlchemyParseAsBytes,
    /// A 256-bit number does not fit in 64 bits.
    UInt256LargerThanU64,
    /// Failed to decode bytes into an unsigned EIP-1559 transaction.
    DecodeRlpFailedBytesIntoEip1559Tx { underlying: String },
    /// Failed to decode bytes into a signed EIP-1559 transaction.
    DecodeRlpFailedBytesIntoSignedEip1559Tx { underlying: String },
}

impl Error {
    /// A failure of the local simulation, with the message of its cause.
    pub fn local_simulation_failed(message: String) -> (e: Error)
        ensures
            e == Error::LocalSimulationFailed(message),
    {
        Error::LocalSimulationFailed(message)
    }

    /// A failure of the remote estimate, with the message of its cause.
    pub fn remote_gas_estimate_failed(message: String) -> (e: Error)
        ensures
            e == Error::RemoteGasEstimateFailed(message),
    {
        Error::RemoteGasEstimateFailed(message)
    }

    /// A failure to read the bytes of a response, with the message of its
    /// cause.
    pub fn alchemy_read_bytes_of_response(message: String) -> (e: Error)
        ensures
            e == (Error::AlchemyReadBytesOfResponse { underlying: message }),
    {
        Error::AlchemyReadBytesOfResponse { underlying: message }
    }

    /// A failure to decode an unsigned transaction, with the decoder's
    /// message.
    pub fn decode_rlp_decode_bytes_into_eip1559(message: String) -> (e: Error)
        ensures
            e == (Error::DecodeRlpFailedBytesIntoEip1559Tx { underlying: message }),
    {
        Error::DecodeRlpFailedBytesIntoEip1559Tx { underlying: message }
    }

    /// A failure to decode a signed transaction, with the decoder's message.
    pub fn decode_rlp_decode_bytes_into_signed_eip1559(message: String) -> (e: Error)
        ensures
            e == (Error::DecodeRlpFailedBytesIntoSignedEip1559Tx { underlying: message }),
    {
        Error::DecodeRlpFailedBytesIntoSignedEip1559Tx { underlying: message }
    }

    /// A failure to start the server, with the message of its cause.
    pub fn start(message: String) -> (e: Error)
        ensures
            e == (Error::UnableToStartServer { underlying: message }),
    {
        Error::UnableToStartServer { underlying: message }
    }

    /// A failure to bind to an address, with the message of its cause.
    pub fn bind(message: String) -> (e: Error)
        ensures
            e == Error::UnableToBind(message),
    {
        Error::UnableToBind(message)
    }

    /// A failure to read the bound address, with the message of its cause.
    pub fn get_bound_address(message: String) -> (e: Error)
        ensures
            e == Error::UnableToGetBoundAddress(message),
    {
        Error::UnableToGetBoundAddress(message)
    }

    /// The error in words.
    pub open spec fn message(self) -> Seq<char> {
        match self {
            Error::GasExceedsLimit { .. } => "Gas exceeds limit"@,
            Error::StringNotHex { bad_value } => "String not hex: "@ + bad_value@,
            Error::FailedParseCliArgs { underlying } => "Failed to parse CLI arguments: "@
                + underlying@,
            Error::UnableToAcquireCacheLock => "Unable to acquire cache lock"@,
            Error::UnableToStartServer { underlying } => "Unable to start server: "@ + underlying@,
            Error::UnableToBind(address) => "Unable to bind to address: "@ + address@,
            Error::FailedToCalculateGasEstimate => "Failed to calculate gas"@,
            Error::LocalSimulationFailed(cause) => "Local TX simulation failed: "@ + cause@,
            Error::RemoteGasEstimateFailed(cause) => "Remote gas estimate failed: "@ + cause@,
            Error::UnableToGetBoundAddress(cause) => "Failed to get bound address: "@ + cause@,
            Error::FailedToSignalReadiness => "Failed to signal readiness"@,
            Error::NoAlchemyApiKey => "No Alchemy API Key provided, unable to start server. Set the `ALCHEMY_API_KEY` environment variable, e.g. `export ALCHEMY_API_KEY=your_key`, or export it in an `.envrc.secrets` file (`.envrc` already tries to load it with `direnv`)."@,
            Error::AlchemySendRequest { method } => "Failed to make alchemy request, method: `"@
                + method@ + "`"@,
            Error::AlchemyReadBytesOfResponse { underlying } => "Failed to read Alchemy response Bytes, underlying error: `"@
                + underlying@ + "`"@,
            Error::AlchemyParseToResponseToType { kind, underlying } => "Failed to parse Alchemy response to type `"@
                + kind@ + "`, underlying error: `"@ + underlying@ + "`"@,
            Error::AlchemyParseAsU32 => "Failed to parse Alchemy String response as u32"@,
            Error::AlchemyParseAsBytes => "Failed to parse Alchemy String response as Bytes"@,
            Error::UInt256LargerThanU64 => "UInt256 larger than u64"@,
            Error::DecodeRlpFailedBytesIntoEip1559Tx { underlying } => "Failed to RLP decode bytes into EIP1559 transaction, underlying error: `"@
                + underlying@ + "`"@,
            Error::DecodeRlpFailedBytesIntoSignedEip1559Tx { underlying } => "Failed to RLP decode bytes into a Signed EIP1559 transaction, underlying error: `"@
                + underlying@ + "`"@,
        }
    }

    /// The error in words.
    pub fn to_string(&self) -> (text: String)
        ensures
            text@ == self.message(),
    {
        match self {
            Error::GasExceedsLimit { .. } => "Gas exceeds limit".to_owned(),
            Error::StringNotHex { bad_value } => text_with("String not hex: ", bad_value.as_str()),
            Error::FailedParseCliArgs { underlying } => text_with(
                "Failed to parse CLI arguments: ",
                underlying.as_str(),
            ),
            Error::UnableToAcquireCacheLock => "Unable to acquire cache lock".to_owned(),
            Error::UnableToStartServer { underlying } => text_with(
                "Unable to start server: ",
                underlying.as_str(),
            ),
            Error::UnableToBind(address) => text_with("Unable to bind to address: ", address.as_str()),
            Error::FailedToCalculateGasEstimate => "Failed to calculate gas".to_owned(),
            Error::LocalSimulationFailed(cause) => text_with(
                "Local TX simulation failed: ",
                cause.as_str(),
            ),
            Error::RemoteGasEstimateFailed(cause) => text_with(
                "Remote gas estimate failed: ",
                cause.as_str(),
            ),
            Error::UnableToGetBoundAddress(cause) => text_with(
                "Failed to get bound address: ",
                cause.as_str(),
            ),
            Error::FailedToSignalReadiness => "Failed to signal readiness".to_owned(),
            Error::NoAlchemyApiKey => "No Alchemy API Key provided, unable to start server. Set the `ALCHEMY_API_KEY` environment variable, e.g. `export ALCHEMY_API_KEY=your_key`, or export it in an `.envrc.secrets` file (`.envrc` already tries to load it with `direnv`).".to_owned(),
            Error::AlchemySendRequest { method } => text_between(
                "Failed to make alchemy request, method: `",
                method.as_str(),
                "`",
            ),
            Error::AlchemyReadBytesOfResponse { underlying } => text_between(
                "Failed to read Alchemy response Bytes, underlying error: `",
                underlying.as_str(),
                "`",
            ),
            Error::AlchemyParseToResponseToType { kind, underlying } => {
                let head = text_between(
                    "Failed to parse Alchemy response to type `",
                    kind.as_str(),
                    "`, underlying error: `",
                );
                text_between(head.as_str(), underlying.as_str(), "`")
            },
            Error::AlchemyParseAsU32 => "Failed to parse Alchemy String response as u32".to_owned(),
            Error::AlchemyParseAsBytes => "Failed to parse Alchemy String response as Bytes".to_owned(),
            Error::UInt256LargerThanU64 => "UInt256 larger than u64".to_owned(),
            Error::DecodeRlpFailedBytesIntoEip1559Tx { underlying } => text_between(
                "Failed to RLP decode bytes into EIP1559 transaction, underlying error: `",
                underlying.as_str(),
                "`",
            ),
            Error::DecodeRlpFailedBytesIntoSignedEip1559Tx { underlying } => text_between(
                "Failed to RLP decode bytes into a Signed EIP1559 transaction, underlying error: `",
                underlying.as_str(),
                "`",
            ),
        }
    }

    /// Whether the error says that the declared gas limit is too low.
    pub fn is_gas_exceeds_limit(&self) -> (r: bool)
        ensures
            r == (*self is GasExceedsLimit),
    {
        match self {
            Error::GasExceedsLimit { .. } => true,
            _ => false,
        }
    }
}

} // verus!
