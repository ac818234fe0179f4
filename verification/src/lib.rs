//! Reconciles a native call-stack trace with a separately captured managed
//! (interpreter) trace into one interleaved, order-preserving trace.
//!
//! The native unwinder sees the interpreter's evaluation loop but not the
//! managed frames that it runs; the managed unwinder sees only those. The
//! merge puts each managed frame in the place of the evaluation-loop frame
//! that stands for it, and loses no frame of either trace when the two do not
//! agree in number.
//!
//! - [`boundary`]: which frames are evaluation-loop frames.
//! - [`stack_trace`]: the merge, and what the merged trace is.
//! - [`laws`]: what holds of every merged trace.
//! - [`record`]: frames in the record form in which a host hands them over.
//! - [`text`]: the string tests that the boundary rules are made of.

use std::collections::HashMap;
use vstd::prelude::*;

pub mod boundary;
pub mod laws;
pub mod record;
pub mod stack_trace;
pub mod text;

pub use crate::stack_trace::SignalTracer;

verus! {

/// A captured value of a managed-frame local variable.
#[derive(Clone, Debug, PartialEq, Eq)]
pub enum Value {
    String(String),
    Int(i64),
    /// A decimal number kept as its text, so that equality is exact.
    Float(String),
    Bool(bool),
    Null,
}

/// One entry of a call stack.
#[derive(Clone, Debug, PartialEq, Eq)]
pub enum CallFrame {
    /// A frame captured by the native unwinder.
    CFrame { ip: String, file: String, func: String, lineno: i64 },
    /// A frame captured by the managed-language unwinder.
    PyFrame { file: String, func: String, lineno: i64, locals: HashMap<String, Value> },
}

impl CallFrame {
    /// The function name of the frame as a sequence of characters.
    pub open spec fn func_name(self) -> Seq<char> {
        match self {
            CallFrame::CFrame { func, .. } => func@,
            CallFrame::PyFrame { func, .. } => func@,
        }
    }

    /// The function name of the frame, whichever variant it is.
    pub fn function(&self) -> (name: &str)
        ensures
            name@ == self.func_name(),
    {
        match self {
            CallFrame::CFrame { func, .. } => func.as_str(),
            CallFrame::PyFrame { func, .. } => func.as_str(),
        }
    }
}

} // verus!
