use vstd::prelude::*;
use vstd::string::StringSliceAdditionalSpecFns;

use crate::alchemy_rpc::id_stepper::IdStepper;
use crate::alchemy_rpc::is_rpc_request::IsRpcRequest;
use crate::alchemy_rpc::request_estimate_gas_input::AlchemyEstimateGasInput;
use crate::alchemy_rpc::rpc_request::RpcRequest;
use crate::alchemy_rpc::rpc_response::{strip_0x, RpcResponse};
use crate::hex_text::parsed_hex_u64;
use crate::models::error::Error;
use crate::models::gas::Gas;
use crate::models::primitives::{lemma_from_u64_value, U256};
use crate::models::transaction::Transaction;
use crate::traits::ty_eq::TyEq;

verus! {

/// Whether `needle` stands in `haystack` at position `at`.
pub open spec fn occurs_at(haystack: Seq<u8>, needle: Seq<u8>, at: int) -> bool {
    &&& 0 <= at
    &&& at + needle.len() <= haystack.len()
    &&& haystack.subrange(at, at + needle.len()) == needle
}

/// Whether `needle` stands anywhere in `haystack`.
pub open spec fn contains_bytes(haystack: Seq<u8>, needle: Seq<u8>) -> bool {
    exists|at: int| occurs_at(haystack, needle, at)
}

/// The text by which the remote estimator says that the declared gas limit
/// is too low. It sends no error code for this, only the message.
pub open spec fn gas_limit_exceeded_marker() -> Seq<u8> {
    "gas required exceeds allowance".spec_bytes()
}

/// Whether the raw body of a reply says that the declared gas limit is too
/// low: the marker stands somewhere in it.
pub open spec fn reports_gas_limit_exceeded(body: Seq<u8>) -> bool {
    contains_bytes(body, gas_limit_exceeded_marker())
}

/// `u64::from_str_radix` with radix 16, its error dropped. As documented,
/// the text is an optional `+` sign followed by digits only, the digits of
/// base 16 being `0-9`, `a-f` and `A-F`; an empty text, a sign alone, any
/// other character and a value that does not fit are errors.
#[verifier::external_body]
fn u64_from_hex(text: &str) -> (value: Option<u64>)
    ensures
        value == parsed_hex_u64(text@),
{
    u64::from_str_radix(text, 16).ok()
}

/// Whether `needle` stands anywhere in `haystack`.
pub fn bytes_contain(haystack: &[u8], needle: &[u8]) -> (found: bool)
    ensures
        found == contains_bytes(haystack@, needle@),
{
    if needle.len() > haystack.len() {
        assert forall|at: int| !occurs_at(haystack@, needle@, at) by {}
        return false;
    }
    let last = haystack.len() - needle.len();
    let mut start: usize = 0;
    while start <= last
        invariant
            last == haystack.len() - needle.len(),
            needle.len() <= haystack.len(),
            start <= last + 1,
            forall|at: int| 0 <= at < start ==> !occurs_at(haystack@, needle@, at),
        decreases last + 1 - start,
    {
        let mut matched: usize = 0;
        while matched < needle.len() && haystack[start + matched] == needle[matched]
            invariant
                last == haystack.len() - needle.len(),
                needle.len() <= haystack.len(),
                start <= last,
                matched <= needle.len(),
                forall|k: int| 0 <= k < matched ==> haystack@[start + k] == needle@[k],
            decreases needle.len() - matched,
        {
            matched = matched + 1;
        }
        if matched == needle.len() {
            proof {
                assert(haystack@.subrange(start as int, start + needle.len()) =~= needle@);
                assert(occurs_at(haystack@, needle@, start as int));
            }
            return true;
        }
        proof {
            assert(haystack@.subrange(start as int, start + needle.len())[matched as int]
                == haystack@[start + matched]);
            assert(!occurs_at(haystack@, needle@, start as int));
        }
        start = start + 1;
    }
    proof {
        assert forall|at: int| !occurs_at(haystack@, needle@, at) by {}
    }
    false
}

/// The base address of the remote estimator.
pub open spec fn base_url() -> Seq<char> {
    "https://eth-mainnet.g.alchemy.com/v2"@
}

/// The gas that the result of a reply stands for: a hexadecimal number,
/// with or without the prefix `0x`.
pub open spec fn gas_of_result(result: Seq<char>) -> Result<Gas, Error> {
    match parsed_hex_u64(strip_0x(result)) {
        Some(gas) => Ok(Gas(gas)),
        None => Err(Error::AlchemyParseAsU32),
    }
}

/// What a reply without the marker means: a failure to parse it stands,
/// and a parsed reply gives the gas in its result.
pub open spec fn gas_of_parsed_reply(parsed: Result<RpcResponse, Error>) -> Result<Gas, Error> {
    match parsed {
        Err(e) => Err(e),
        Ok(response) => gas_of_result(response.result@),
    }
}

/// What the reply to a request for a gas estimate means.
///
/// The body is tested for the marker before anything that was parsed from
/// it is looked at: with the marker in it, the declared limit is too low,
/// and the cost is not known. Without it, the reply is read as parsed.
pub open spec fn gas_estimate_of_reply(
    gas_limit: Option<U256>,
    body: Seq<u8>,
    parsed: Result<RpcResponse, Error>,
) -> Result<Gas, Error> {
    if reports_gas_limit_exceeded(body) {
        Err(Error::GasExceedsLimit { estimated_cost: None, gas_limit: Gas(gas_limit.unwrap()@ as u64) })
    } else {
        gas_of_parsed_reply(parsed)
    }
}

/// The client of the remote estimator, as far as it computes: it frames
/// requests and reads replies. Sending a request is left to the caller.
#[derive(Debug)]
pub struct AlchemyRpcClient {
    /// The key that gives access to the remote estimator.
    api_key: String,
    /// Generates the identifiers of the requests.
    id_stepper: IdStepper,
}

impl AlchemyRpcClient {
    /// The key that the client was made with.
    pub closed spec fn api_key(&self) -> Seq<char> {
        self.api_key@
    }

    /// The identifier of the last request that was framed; zero before the
    /// first.
    pub closed spec fn last_id(&self) -> u64 {
        self.id_stepper@
    }

    /// Creates a new client with the given key. Its first request will
    /// have the identifier 1.
    pub fn new(api_key: &str) -> (client: AlchemyRpcClient)
        ensures
            client.api_key() == api_key@,
            client.last_id() == 0,
    {
        AlchemyRpcClient { api_key: api_key.to_owned(), id_stepper: IdStepper::new() }
    }

    /// The identifier of the last request that was framed; zero before the
    /// first.
    pub fn last_request_id(&self) -> (id: u64)
        ensures
            id == self.last_id(),
    {
        self.id_stepper.last()
    }

    /// Whether the raw body of a reply says that the declared gas limit is
    /// too low.
    pub fn body_reports_gas_limit_exceeded(body: &[u8]) -> (reported: bool)
        ensures
            reported == reports_gas_limit_exceeded(body@),
    {
        bytes_contain(body, "gas required exceeds allowance".as_bytes())
    }

    /// The address that requests are sent to: the base address, a slash
    /// and the key.
    pub fn url(&self) -> (url: String)
        ensures
            url@ == base_url() + "/"@ + self.api_key(),
    {
        let mut url = "https://eth-mainnet.g.alchemy.com/v2".to_owned();
        url.append("/");
        url.append(self.api_key.as_str());
        url
    }

    /// Frames the call of the method of `Req` with a single parameter.
    pub fn call_single<Req: IsRpcRequest + TyEq<Req::Param>>(&mut self, param: Req) -> (request:
        RpcRequest<Req::Param>)
        requires
            old(self).last_id() < u64::MAX,
        ensures
            request.id == old(self).last_id() + 1,
            final(self).last_id() == request.id,
            final(self).api_key() == old(self).api_key(),
            request.jsonrpc@ == "2.0"@,
            request.method@ == Req::spec_method(),
            request.params@ == seq![param.spec_cast()],
    {
        let mut params = Vec::new();
        params.push(param.cast());
        self.call::<Req>(params)
    }

    /// Frames the call of the method of `Req` with the given parameters:
    /// the request carries the next identifier and the name of the method.
    pub fn call<Req: IsRpcRequest>(&mut self, params: Vec<Req::Param>) -> (request: RpcRequest<
        Req::Param,
    >)
        requires
            old(self).last_id() < u64::MAX,
        ensures
            request.id == old(self).last_id() + 1,
            final(self).last_id() == request.id,
            final(self).api_key() == old(self).api_key(),
            request.jsonrpc@ == "2.0"@,
            request.method@ == Req::spec_method(),
            request.params == params,
    {
        let id = self.id_stepper.next();
        let method = Req::method();
        RpcRequest::new(method, params, id)
    }

    /// What a reply means, where the caller may have intercepted its body
    /// before it was parsed: an interception stands, whatever was parsed.
    pub fn conclude_call<Res>(
        intercepted: Option<Result<Res, Error>>,
        parsed: Result<Res, Error>,
    ) -> (result: Result<Res, Error>)
        ensures
            result == match intercepted {
                Some(outcome) => outcome,
                None => parsed,
            },
    {
        match intercepted {
            Some(outcome) => outcome,
            None => parsed,
        }
    }

    /// Intercepts the body of a reply to a request for a gas estimate: a
    /// body that holds the marker means that the declared limit is too
    /// low, any other body is left to be parsed. An estimator that reports
    /// a limit as exceeded was given one, and one that fits in 64 bits.
    pub fn intercept_gas_limit_exceeded(gas_limit: Option<U256>, body: &[u8]) -> (intercepted:
        Option<Result<RpcResponse, Error>>)
        requires
            reports_gas_limit_exceeded(body@) ==> gas_limit is Some && gas_limit.unwrap()@ <= u64::MAX,
        ensures
            intercepted == if reports_gas_limit_exceeded(body@) {
                Some(
                    Err::<RpcResponse, Error>(
                        Error::GasExceedsLimit {
                            estimated_cost: None,
                            gas_limit: Gas(gas_limit.unwrap()@ as u64),
                        },
                    ),
                )
            } else {
                None
            },
    {
        if Self::body_reports_gas_limit_exceeded(body) {
            let gas_limit = Gas(gas_limit.unwrap().try_into_u64().unwrap());
            Some(Err(Error::GasExceedsLimit { estimated_cost: None, gas_limit }))
        } else {
            None
        }
    }

    /// The gas that a parsed reply reports: its result, read as a
    /// hexadecimal number with or without the prefix `0x`.
    pub fn gas_of_response(response: &RpcResponse) -> (result: Result<Gas, Error>)
        ensures
            result == gas_of_result(response.result@),
    {
        let stripped = response.result_strip_0x();
        match u64_from_hex(stripped.as_str()) {
            Some(gas_used) => Ok(Gas(gas_used)),
            None => Err(Error::AlchemyParseAsU32),
        }
    }

    /// The gas estimate that a reply gives for the input it answers, from
    /// the raw body of the reply and from what was parsed from it.
    pub fn get_gas_estimate(
        input: &AlchemyEstimateGasInput,
        body: &[u8],
        parsed: Result<RpcResponse, Error>,
    ) -> (result: Result<Gas, Error>)
        requires
            reports_gas_limit_exceeded(body@) ==> input@.gas is Some && input@.gas.unwrap()@
                <= u64::MAX,
        ensures
            result == gas_estimate_of_reply(input@.gas, body@, parsed),
    {
        let gas_limit = *input.gas();
        let response = match Self::conclude_call(
            Self::intercept_gas_limit_exceeded(gas_limit, body),
            parsed,
        ) {
            Ok(response) => response,
            Err(e) => {
                return Err(e);
            },
        };
        Self::gas_of_response(&response)
    }

    /// The gas estimate that a reply gives for the input it answers, if
    /// the reply can be one to that input: a reply that reports the gas
    /// limit as exceeded answers no input without a gas limit, and none
    /// whose limit does not fit in 64 bits.
    pub fn get_gas_estimate_if_consistent(
        input: &AlchemyEstimateGasInput,
        body: &[u8],
        parsed: Result<RpcResponse, Error>,
    ) -> (result: Option<Result<Gas, Error>>)
        ensures
            result == if reports_gas_limit_exceeded(body@) && !(input@.gas is Some
                && input@.gas.unwrap()@ <= u64::MAX) {
                None
            } else {
                Some(gas_estimate_of_reply(input@.gas, body@, parsed))
            },
    {
        if Self::body_reports_gas_limit_exceeded(body) {
            match input.gas() {
                Some(limit) => {
                    if limit.try_into_u64().is_err() {
                        return None;
                    }
                },
                None => {
                    return None;
                },
            }
        }
        Some(Self::get_gas_estimate(input, body, parsed))
    }

    /// The gas estimate that a reply gives for a transaction, if the reply
    /// can be one to that transaction: a reply that reports the gas limit
    /// as exceeded answers no transaction without a gas limit.
    pub fn estimate_gas(tx: &Transaction, body: &[u8], parsed: Result<RpcResponse, Error>) -> (result:
        Option<Result<Gas, Error>>)
        ensures
            result == if reports_gas_limit_exceeded(body@) {
                match tx@.gas_limit {
                    Some(limit) => Some(
                        Err::<Gas, Error>(
                            Error::GasExceedsLimit { estimated_cost: None, gas_limit: limit },
                        ),
                    ),
                    None => None,
                }
            } else {
                Some(gas_of_parsed_reply(parsed))
            },
    {
        let input = AlchemyEstimateGasInput::from(tx.clone());
        proof {
            if tx@.gas_limit is Some {
                lemma_from_u64_value(tx@.gas_limit.unwrap().0);
            }
        }
        Self::get_gas_estimate_if_consistent(&input, body, parsed)
    }

    /// Frames the call of the method of `Req` with a single parameter,
    /// unless the identifiers are used up.
    pub fn call_single_if_able<Req: IsRpcRequest + TyEq<Req::Param>>(&mut self, param: Req) -> (request:
        Option<RpcRequest<Req::Param>>)
        ensures
            match request {
                Some(request) => {
                    &&& old(self).last_id() < u64::MAX
                    &&& request.id == old(self).last_id() + 1
                    &&& final(self).last_id() == request.id
                    &&& request.jsonrpc@ == "2.0"@
                    &&& request.method@ == Req::spec_method()
                    &&& request.params@ == seq![param.spec_cast()]
                },
                None => old(self).last_id() == u64::MAX && final(self).last_id() == u64::MAX,
            },
            final(self).api_key() == old(self).api_key(),
    {
        if self.last_request_id() == u64::MAX {
            None
        } else {
            Some(self.call_single::<Req>(param))
        }
    }
}

} // verus!
