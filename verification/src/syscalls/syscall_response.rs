//! What a running contract gets back for a request.

use crate::felt::{copy_felts, Address, Felt};
use vstd::prelude::*;

verus! {

/// The part of a response that depends on the kind of request.
#[derive(Debug, PartialEq, Eq)]
pub enum ResponseBody {
    /// The value read from the storage cell.
    StorageRead { value: Felt },
    /// The cell has been written.
    StorageWrite,
    /// What the called entry point returned.
    CallContract { retdata: Vec<Felt> },
    /// The call of a class did not run to its end; nothing of it was kept.
    Failure,
    /// The address at which the contract has been deployed.
    Deploy { contract_address: Address },
    /// The event has been recorded.
    EmitEvent,
    /// The address of the caller.
    GetCallerAddress { address: Address },
}

/// The response to one request.
#[derive(Debug, PartialEq, Eq)]
pub struct SyscallResponse {
    /// The amount of gas left after the syscall execution.
    gas: u64,
    /// Syscall specific response fields.
    body: ResponseBody,
}

impl SyscallResponse {
    /// The gas left after the request has been paid for, in specifications.
    pub closed spec fn spec_gas(&self) -> u64 {
        self.gas
    }

    /// The body of the response, in specifications.
    pub closed spec fn spec_body(&self) -> ResponseBody {
        self.body
    }

    /// A response with the given gas left and body.
    pub fn new(gas: u64, body: ResponseBody) -> (r: Self)
        ensures
            r.spec_gas() == gas,
            r.spec_body() == body,
    {
        SyscallResponse { gas, body }
    }

    /// The gas left after the request has been paid for.
    pub fn gas(&self) -> (r: u64)
        ensures
            r == self.spec_gas(),
    {
        self.gas
    }

    /// The body of the response.
    pub fn body(&self) -> (r: &ResponseBody)
        ensures
            *r == self.spec_body(),
    {
        &self.body
    }
}

/// One cell of an encoded response: a value, or a pointer to an array that
/// is laid out in a segment of its own.
#[derive(Debug, PartialEq, Eq)]
pub enum ResponseCell {
    Value(Felt),
    Array(Vec<Felt>),
}

/// A cell of an encoded response as specifications see it.
pub enum ResponseCellView {
    Value(Felt),
    Array(Seq<Felt>),
}

impl View for ResponseCell {
    type V = ResponseCellView;

    open spec fn view(&self) -> ResponseCellView {
        match *self {
            ResponseCell::Value(value) => ResponseCellView::Value(value),
            ResponseCell::Array(values) => ResponseCellView::Array(values@),
        }
    }
}

/// The value that stands for a 64-bit number.
pub open spec fn felt_of_u64(n: u64) -> Felt {
    Felt { hi: 0, lo: n as u128 }
}

/// The cells that a response is written as: the gas left, a flag that is one
/// for a failure and zero otherwise, and then what the body holds.  The
/// data that a call returned is written as its length and the array.
pub open spec fn encoding(gas: u64, body: ResponseBody) -> Seq<ResponseCellView> {
    let head = seq![
        ResponseCellView::Value(felt_of_u64(gas)),
        ResponseCellView::Value(felt_of_u64(if body is Failure { 1 } else { 0 })),
    ];
    match body {
        ResponseBody::StorageRead { value } => head.push(ResponseCellView::Value(value)),
        ResponseBody::CallContract { retdata } => head.push(
            ResponseCellView::Value(felt_of_u64(retdata@.len() as u64)),
        ).push(ResponseCellView::Array(retdata@)),
        ResponseBody::GetCallerAddress { address } => head.push(ResponseCellView::Value(address.0)),
        ResponseBody::Deploy { contract_address } => head.push(ResponseCellView::Value(contract_address.0)),
        ResponseBody::StorageWrite => head,
        ResponseBody::EmitEvent => head,
        ResponseBody::Failure => head,
    }
}

/// The views of the cells, in order.
pub open spec fn cell_views(cells: Seq<ResponseCell>) -> Seq<ResponseCellView> {
    cells.map_values(|cell: ResponseCell| cell@)
}

impl SyscallResponse {
    /// The cells that the response is written as, in order.
    pub fn encode(&self) -> (r: Vec<ResponseCell>)
        ensures
            cell_views(r@) == encoding(self.spec_gas(), self.spec_body()),
    {
        let mut cells: Vec<ResponseCell> = Vec::new();
        cells.push(ResponseCell::Value(Felt::from_u64(self.gas)));
        let failed: u64 = match &self.body {
            ResponseBody::Failure => 1,
            _ => 0,
        };
        cells.push(ResponseCell::Value(Felt::from_u64(failed)));
        match &self.body {
            ResponseBody::StorageRead { value } => {
                cells.push(ResponseCell::Value(*value));
            },
            ResponseBody::CallContract { retdata } => {
                cells.push(ResponseCell::Value(Felt::from_u64(retdata.len() as u64)));
                cells.push(ResponseCell::Array(copy_felts(retdata)));
            },
            ResponseBody::GetCallerAddress { address } => {
                cells.push(ResponseCell::Value(address.0));
            },
            ResponseBody::Deploy { contract_address } => {
                cells.push(ResponseCell::Value(contract_address.0));
            },
            ResponseBody::StorageWrite => {},
            ResponseBody::EmitEvent => {},
            ResponseBody::Failure => {},
        }
        assert(cell_views(cells@) =~= encoding(self.spec_gas(), self.spec_body()));
        cells
    }
}

} // verus!
