use vstd::prelude::*;

verus! {

/// Why preparing a service client failed.
#[derive(Debug, Clone, PartialEq, Eq)]
pub struct NodeError {
    pub message: String,
}

/// The result of an operation of a node.
pub type NodeResult<T> = Result<T, NodeError>;

/// A component that can build the client it uses to reach a service.
pub trait ServiceClient<C> {
    fn prepare_service_client(&self) -> NodeResult<C>;
}

} // verus!
