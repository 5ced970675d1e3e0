use vstd::prelude::*;

verus! {

/// The envelope of a request: protocol version, method, parameters and the
/// identifier of the request.
#[derive(Debug)]
pub struct RpcRequest<Params> {
    pub jsonrpc: String,
    pub method: String,
    pub params: Vec<Params>,
    pub id: u64,
}

impl<Params> RpcRequest<Params> {
    /// A request of protocol version 2.0.
    pub fn new(method: String, params: Vec<Params>, id: u64) -> (request: Self)
        ensures
            request.jsonrpc@ == "2.0"@,
            request.method == method,
            request.params == params,
            request.id == id,
    {
        RpcRequest { jsonrpc: "2.0".to_owned(), method, params, id }
    }
}

} // verus!
