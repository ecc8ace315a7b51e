//! The response envelope and the inbound parameter payload shapes.
//!
//! Every caller-facing outcome crosses the process boundary as the
//! two-variant `IpcResponse`; no error is ever an unhandled fault. The
//! parameter structs mirror what the dispatch collaborator hands over per
//! call.

use vstd::prelude::*;

verus! {

use crate::error::{spec_kind, spec_message, Error, ErrorKind};

/// Parameters of a get call: the target id.
pub struct GetParams {
    pub id: String,
}

/// Parameters of a create call: the typed create payload.
pub struct CreateParams<D> {
    pub data: D,
}

/// Parameters of an update call: the target id and the partial payload.
pub struct UpdateParams<D> {
    pub id: String,
    pub data: D,
}

/// Parameters of a delete call: the target id.
pub struct DeleteParams {
    pub id: String,
}

/// Parameters of a list call: an optional typed filter.
pub struct ListParams<F> {
    pub filter: Option<F>,
}

/// The two-variant envelope a caller across the process boundary receives.
pub enum IpcResponse<D> {
    Success { data: D },
    Failure { kind: ErrorKind, message: String },
}

impl<D> IpcResponse<D> {
    /// Wraps an outcome: success carries the data unchanged, failure the
    /// error's kind and message.
    pub fn from_result(r: Result<D, Error>) -> (resp: IpcResponse<D>)
        ensures
            match r {
                Ok(data) => resp == (IpcResponse::Success { data }),
                Err(e) => resp matches IpcResponse::Failure { kind, message } && kind == spec_kind(e@)
                    && message@ == spec_message(e@),
            },
    {
        match r {
            Ok(data) => IpcResponse::Success { data },
            Err(e) => {
                let kind = e.kind();
                let message = e.message();
                IpcResponse::Failure { kind, message }
            },
        }
    }
}

} // verus!
