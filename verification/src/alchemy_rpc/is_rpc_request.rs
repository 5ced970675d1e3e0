use vstd::prelude::*;

verus! {

/// A type that can be used as a request to a remote procedure: it names
/// the method and the type of the method's parameter.
pub trait IsRpcRequest {
    /// The input parameter type of the method.
    type Param;

    /// The name of the method.
    spec fn spec_method() -> Seq<char>;

    /// The name of the method.
    fn method() -> (name: String)
        ensures
            name@ == Self::spec_method(),
    ;
}

} // verus!
