//! The routes of the service: which request leads to which operation,
//! and which operations stand behind the gateway.

use vstd::prelude::*;

verus! {

#[derive(Debug, Clone, Copy, PartialEq, Eq, Structural)]
pub enum Method {
    Get,
    Post,
    Put,
    Delete,
}

/// An operation of the service.
#[derive(Debug, Clone, Copy, PartialEq, Eq, Structural)]
pub enum Operation {
    Register,
    Login,
    ListClients,
    CreateClient,
    GetClient,
    UpdateClient,
    DeleteClient,
    ListContracts,
    CreateContract,
    GetContract,
    UpdateContract,
    DeleteContract,
    ListInvoices,
    CreateInvoice,
    GetInvoice,
    UpdateInvoiceStatus,
    ListProjects,
    CreateProject,
    GetProject,
    UpdateProject,
    DeleteProject,
    ListResumes,
    CreateResume,
    GetResume,
    DeleteResume,
    OptimizeResume,
    ListTimeEntries,
    CreateTimeEntry,
    GetTimeEntry,
    StopTimeEntry,
    UpdateTimeEntry,
    DeleteTimeEntry,
}

/// One route: a method and a path, below the prefix of its group, and
/// the operation they lead to.
#[derive(Debug, Clone, Copy, PartialEq, Eq)]
pub struct Route {
    pub method: Method,
    pub path: &'static str,
    pub operation: Operation,
}

impl Operation {
    /// The operation is open to everyone. Registration and login are,
    /// for they are how a token is had; nothing else is.
    pub open spec fn is_public(self) -> bool {
        self == Operation::Register || self == Operation::Login
    }

    /// The operation stands behind the gateway: it runs only for a
    /// request whose owner the gateway has resolved.
    pub fn needs_token(self) -> (b: bool)
        ensures
            b == !self.is_public(),
    {
        match self {
            Operation::Register => false,
            Operation::Login => false,
            _ => true,
        }
    }
}

/// Every route of the list leads to an operation behind the gateway.
pub open spec fn all_behind_gateway(routes: Seq<Route>) -> bool {
    forall|i: int| 0 <= i < routes.len() ==> !(#[trigger] routes[i]).operation.is_public()
}

} // verus!
