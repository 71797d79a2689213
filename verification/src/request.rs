//! Structured requests of the JSON protocol.
use vstd::prelude::*;
use vstd::string::*;

use crate::error::{ErrorCode, RipsedError};
use crate::operation::{Op, OpOptions};
use crate::schema::is_supported_version;
use crate::text::owned;

verus! {

/// A structured JSON request from an agent.
#[derive(Debug, Clone)]
pub struct JsonRequest {
    pub version: String,
    pub operations: Vec<JsonOp>,
    pub options: OpOptions,
    /// Undo request (mutually exclusive with operations).
    pub undo: Option<UndoRequest>,
}

/// A single operation in a JSON request, with per-operation glob.
#[derive(Debug, Clone)]
pub struct JsonOp {
    pub op: Op,
    pub glob: Option<String>,
}

/// An undo request.
#[derive(Debug, Clone, Copy, PartialEq, Eq, Structural)]
pub struct UndoRequest {
    pub last: usize,
}

/// The protocol version a request has when it names none.
pub fn default_version() -> (r: String)
    ensures
        r@ == "1"@,
{
    owned("1")
}

/// The view of an optional string.
pub open spec fn opt_view(o: Option<String>) -> Option<Seq<char>> {
    match o {
        Some(s) => Some(s@),
        None => None,
    }
}

/// The reason a request is refused, if it is: an unknown version, both
/// operations and an undo request, or neither.
pub enum RequestProblem {
    UnknownVersion,
    BothOperationsAndUndo,
    NothingToDo,
}

impl JsonRequest {
    /// What is wrong with the request, checked in this order.
    pub open spec fn spec_problem(&self) -> Option<RequestProblem> {
        if self.version@ != "1"@ {
            Some(RequestProblem::UnknownVersion)
        } else if self.undo is Some && self.operations@.len() > 0 {
            Some(RequestProblem::BothOperationsAndUndo)
        } else if self.undo is None && self.operations@.len() == 0 {
            Some(RequestProblem::NothingToDo)
        } else {
            None
        }
    }

    /// Validate the request after parsing: the version must be supported,
    /// and the request must hold operations or an undo request, not both.
    pub fn validate(&self) -> (r: Result<(), RipsedError>)
        ensures
            self.spec_problem() is None <==> r is Ok,
            r matches Err(e) ==> e.code == ErrorCode::InvalidRequest && e.operation_index is None,
            self.spec_problem() == Some(RequestProblem::UnknownVersion) ==> (r matches Err(e)
                && e.message@ == "Unknown version '"@ + self.version@
                + "'. Supported versions: 1"@ && e.hint@
                == "Set \"version\": \"1\" in your request."@),
            self.spec_problem() == Some(RequestProblem::BothOperationsAndUndo) ==> (r matches Err(
                e,
            ) && e.message@ == "Request cannot contain both 'operations' and 'undo'."@ && e.hint@
                == "Send undo and operations as separate requests."@),
            self.spec_problem() == Some(RequestProblem::NothingToDo) ==> (r matches Err(e)
                && e.message@ == "Request must contain 'operations' or 'undo'."@ && e.hint@
                == "Add at least one operation or an undo request."@),
    {
        if !is_supported_version(self.version.as_str()) {
            let mut message = owned("Unknown version '");
            message.append(self.version.as_str());
            message.append("'. Supported versions: 1");
            return Err(
                RipsedError::invalid_request(
                    message.as_str(),
                    "Set \"version\": \"1\" in your request.",
                ),
            );
        }
        if self.undo.is_some() && self.operations.len() > 0 {
            return Err(
                RipsedError::invalid_request(
                    "Request cannot contain both 'operations' and 'undo'.",
                    "Send undo and operations as separate requests.",
                ),
            );
        }
        if self.undo.is_none() && self.operations.len() == 0 {
            return Err(
                RipsedError::invalid_request(
                    "Request must contain 'operations' or 'undo'.",
                    "Add at least one operation or an undo request.",
                ),
            );
        }
        Ok(())
    }

    /// Extract the list of operations with their effective globs: each
    /// operation's own glob, or else the request-wide one.
    pub fn into_ops(self) -> (r: (Vec<(Op, Option<String>)>, OpOptions))
        ensures
            r.0@.len() == self.operations@.len(),
            forall|i: int|
                0 <= i < r.0@.len() ==> {
                    &&& #[trigger] r.0@[i].0 == self.operations@[i].op
                    &&& opt_view(r.0@[i].1) == match self.operations@[i].glob {
                        Some(g) => Some(g@),
                        None => opt_view(self.options.glob),
                    }
                },
            r.1 == self.options,
    {
        let JsonRequest { version: _, operations, options, undo: _ } = self;
        let ghost ops = operations@;
        let mut out: Vec<(Op, Option<String>)> = Vec::new();
        for json_op in it: operations
            invariant
                it.seq() == ops,
                out@.len() == it.index(),
                forall|i: int|
                    0 <= i < out@.len() ==> {
                        &&& #[trigger] out@[i].0 == ops[i].op
                        &&& opt_view(out@[i].1) == match ops[i].glob {
                            Some(g) => Some(g@),
                            None => opt_view(options.glob),
                        }
                    },
        {
            let JsonOp { op, glob } = json_op;
            let effective = match glob {
                Some(g) => Some(g),
                None => match &options.glob {
                    Some(g) => Some(g.clone()),
                    None => None,
                },
            };
            out.push((op, effective));
        }
        (out, options)
    }
}

} // verus!
