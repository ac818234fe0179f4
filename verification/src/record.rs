//! Frames in record form: the neutral key-and-value shape in which a frame
//! crosses a language boundary.
//!
//! A record names its variant in a tag and holds the other fields as optional
//! entries. Reading a record checks the tag and the presence of every field
//! that the variant requires; writing one keeps every field as it is, so that
//! a frame written and read again is the same frame.

use crate::boundary::standard_rules;
use crate::stack_trace::{merged_trace, SignalTracer};
use crate::{CallFrame, Value};
use std::collections::HashMap;
use vstd::prelude::*;

verus! {

/// Why a record or one of its values is rejected.
#[derive(Clone, Copy, Debug, PartialEq, Eq, Structural)]
pub enum RecordError {
    /// The tag, or a field that the variant requires, is missing.
    InvalidFrameShape,
    /// The tag names no variant of a frame.
    UnknownVariantTag,
    /// A local value is of a kind that no variant of [`Value`] stands for.
    UnsupportedValueType,
}

/// A local value as the host hands it over, before it is typed.
#[derive(Clone, Debug, PartialEq, Eq)]
pub enum RawValue {
    Text(String),
    Integer(i64),
    /// A decimal number as its text.
    Decimal(String),
    Flag(bool),
    Nothing,
    /// A value of any other kind.
    Unsupported,
}

/// The typed value that a raw value stands for.
pub open spec fn typed(raw: RawValue) -> Result<Value, RecordError> {
    match raw {
        RawValue::Text(text) => Ok(Value::String(text)),
        RawValue::Integer(number) => Ok(Value::Int(number)),
        RawValue::Decimal(text) => Ok(Value::Float(text)),
        RawValue::Flag(flag) => Ok(Value::Bool(flag)),
        RawValue::Nothing => Ok(Value::Null),
        RawValue::Unsupported => Err(RecordError::UnsupportedValueType),
    }
}

/// The raw value that stands for a typed value.
pub open spec fn untyped(value: Value) -> RawValue {
    match value {
        Value::String(text) => RawValue::Text(text),
        Value::Int(number) => RawValue::Integer(number),
        Value::Float(text) => RawValue::Decimal(text),
        Value::Bool(flag) => RawValue::Flag(flag),
        Value::Null => RawValue::Nothing,
    }
}

impl Value {
    /// Types a raw value; a value of an unsupported kind is rejected.
    pub fn from_raw(raw: RawValue) -> (value: Result<Value, RecordError>)
        ensures
            value == typed(raw),
    {
        match raw {
            RawValue::Text(text) => Ok(Value::String(text)),
            RawValue::Integer(number) => Ok(Value::Int(number)),
            RawValue::Decimal(text) => Ok(Value::Float(text)),
            RawValue::Flag(flag) => Ok(Value::Bool(flag)),
            RawValue::Nothing => Ok(Value::Null),
            RawValue::Unsupported => Err(RecordError::UnsupportedValueType),
        }
    }

    /// The raw form of a typed value.
    pub fn into_raw(self) -> (raw: RawValue)
        ensures
            raw == untyped(self),
    {
        match self {
            Value::String(text) => RawValue::Text(text),
            Value::Int(number) => RawValue::Integer(number),
            Value::Float(text) => RawValue::Decimal(text),
            Value::Bool(flag) => RawValue::Flag(flag),
            Value::Null => RawValue::Nothing,
        }
    }
}

/// A value written and read again is the same value, with its variant.
pub proof fn value_survives_raw_form(value: Value)
    ensures
        typed(untyped(value)) == Ok::<Value, RecordError>(value),
{
}

/// A frame in record form. The tag and the plain fields may be absent: a
/// record is what was handed over, not yet a frame.
#[derive(Clone, Debug, PartialEq, Eq)]
pub struct FrameRecord {
    /// The variant tag: `CFrame` or `PyFrame`.
    pub tag: Option<String>,
    pub ip: Option<String>,
    pub file: Option<String>,
    pub func: Option<String>,
    pub lineno: Option<i64>,
    /// The local bindings; empty where none were handed over.
    pub locals: HashMap<String, Value>,
}

/// The tag of a native frame.
pub open spec fn native_tag() -> Seq<char> {
    "CFrame"@
}

/// The tag of a managed frame.
pub open spec fn managed_tag() -> Seq<char> {
    "PyFrame"@
}

/// The two tags differ, so a record says a frame of one variant only.
pub proof fn tags_differ()
    ensures
        native_tag() != managed_tag(),
{
    reveal_strlit("CFrame");
    reveal_strlit("PyFrame");
    assert("CFrame"@.len() == 6);
    assert("PyFrame"@.len() == 7);
}

/// The record holds every field that a native frame requires.
pub open spec fn native_shape(record: FrameRecord) -> bool {
    record.ip is Some && record.file is Some && record.func is Some && record.lineno is Some
}

/// The record holds every field that a managed frame requires.
pub open spec fn managed_shape(record: FrameRecord) -> bool {
    record.file is Some && record.func is Some && record.lineno is Some
}

/// What reading a record gives: the frame, or why the record is rejected.
/// The tag is looked at first, then the fields that its variant requires. An
/// entry that the variant does not have is passed over.
pub open spec fn decoded(record: FrameRecord) -> Result<CallFrame, RecordError> {
    match record.tag {
        None => Err(RecordError::InvalidFrameShape),
        Some(tag) => if tag@ == native_tag() {
            if native_shape(record) {
                Ok(
                    CallFrame::CFrame {
                        ip: record.ip->0,
                        file: record.file->0,
                        func: record.func->0,
                        lineno: record.lineno->0,
                    },
                )
            } else {
                Err(RecordError::InvalidFrameShape)
            }
        } else if tag@ == managed_tag() {
            if managed_shape(record) {
                Ok(
                    CallFrame::PyFrame {
                        file: record.file->0,
                        func: record.func->0,
                        lineno: record.lineno->0,
                        locals: record.locals,
                    },
                )
            } else {
                Err(RecordError::InvalidFrameShape)
            }
        } else {
            Err(RecordError::UnknownVariantTag)
        },
    }
}

/// The record is `frame` written out: the tag names the variant of `frame`,
/// every field of `frame` is the entry of that name, and no other entry is
/// filled.
pub open spec fn written(frame: CallFrame, record: FrameRecord) -> bool {
    match frame {
        CallFrame::CFrame { ip, file, func, lineno } => {
            &&& record.tag matches Some(tag)
            &&& tag@ == native_tag()
            &&& record.ip == Some(ip)
            &&& record.file == Some(file)
            &&& record.func == Some(func)
            &&& record.lineno == Some(lineno)
            &&& record.locals@ == Map::<String, Value>::empty()
        },
        CallFrame::PyFrame { file, func, lineno, locals } => {
            &&& record.tag matches Some(tag)
            &&& tag@ == managed_tag()
            &&& record.ip is None
            &&& record.file == Some(file)
            &&& record.func == Some(func)
            &&& record.lineno == Some(lineno)
            &&& record.locals == locals
        },
    }
}

impl FrameRecord {
    /// Whether the record is tagged as a managed frame, the variant that
    /// carries local bindings.
    pub fn is_managed(&self) -> (yes: bool)
        ensures
            yes == (self.tag matches Some(tag) && tag@ == managed_tag()),
    {
        match &self.tag {
            Some(tag) => *tag == "PyFrame".to_owned(),
            None => false,
        }
    }

    /// Reads the record as a frame.
    pub fn into_frame(self) -> (outcome: Result<CallFrame, RecordError>)
        ensures
            outcome == decoded(self),
    {
        let tag = match self.tag {
            Some(tag) => tag,
            None => {
                return Err(RecordError::InvalidFrameShape);
            },
        };
        if tag == "CFrame".to_owned() {
            match (self.ip, self.file, self.func, self.lineno) {
                (Some(ip), Some(file), Some(func), Some(lineno)) => Ok(
                    CallFrame::CFrame { ip, file, func, lineno },
                ),
                _ => Err(RecordError::InvalidFrameShape),
            }
        } else if tag == "PyFrame".to_owned() {
            match (self.file, self.func, self.lineno) {
                (Some(file), Some(func), Some(lineno)) => Ok(
                    CallFrame::PyFrame { file, func, lineno, locals: self.locals },
                ),
                _ => Err(RecordError::InvalidFrameShape),
            }
        } else {
            Err(RecordError::UnknownVariantTag)
        }
    }

    /// Writes a frame as a record.
    pub fn from_frame(frame: CallFrame) -> (record: FrameRecord)
        ensures
            written(frame, record),
    {
        match frame {
            CallFrame::CFrame { ip, file, func, lineno } => FrameRecord {
                tag: Some("CFrame".to_owned()),
                ip: Some(ip),
                file: Some(file),
                func: Some(func),
                lineno: Some(lineno),
                locals: HashMap::new(),
            },
            CallFrame::PyFrame { file, func, lineno, locals } => FrameRecord {
                tag: Some("PyFrame".to_owned()),
                ip: None,
                file: Some(file),
                func: Some(func),
                lineno: Some(lineno),
                locals,
            },
        }
    }
}

/// A frame written and read again is the same frame, with its variant, every
/// field and its local bindings.
pub proof fn frame_survives_record_form(frame: CallFrame, record: FrameRecord)
    requires
        written(frame, record),
    ensures
        decoded(record) == Ok::<CallFrame, RecordError>(frame),
{
    tags_differ();
}

/// Why the first rejected record among the first `upto` of a trace is
/// rejected, if one is.
pub open spec fn rejected_before(records: Seq<FrameRecord>, upto: int) -> Option<RecordError>
    decreases upto,
{
    if upto <= 0 {
        None
    } else {
        match rejected_before(records, upto - 1) {
            Some(error) => Some(error),
            None => match decoded(records[upto - 1]) {
                Err(error) => Some(error),
                Ok(_) => None,
            },
        }
    }
}

/// What reading a trace of records gives: the frames in the order of their
/// records, or why the first rejected record is rejected.
pub open spec fn decoded_trace(records: Seq<FrameRecord>) -> Result<Seq<CallFrame>, RecordError> {
    match rejected_before(records, records.len() as int) {
        Some(error) => Err(error),
        None => Ok(Seq::new(records.len(), |at: int| decoded(records[at])->Ok_0)),
    }
}

/// `records` is `frames` written out, frame by frame.
pub open spec fn trace_written(frames: Seq<CallFrame>, records: Seq<FrameRecord>) -> bool {
    &&& records.len() == frames.len()
    &&& forall|at: int| 0 <= at < frames.len() ==> written(frames[at], #[trigger] records[at])
}

/// A trace is read whole or not at all: where no record is rejected, every
/// record reads as a frame; where one is, the error is that of the first
/// record that does not.
pub proof fn first_rejection_decides(records: Seq<FrameRecord>, upto: int)
    requires
        0 <= upto <= records.len(),
    ensures
        match rejected_before(records, upto) {
            None => forall|at: int| 0 <= at < upto ==> (#[trigger] decoded(records[at])) is Ok,
            Some(error) => exists|first: int|
                {
                    &&& 0 <= first < upto
                    &&& #[trigger] decoded(records[first]) == Err::<CallFrame, RecordError>(error)
                    &&& forall|at: int| 0 <= at < first ==> (#[trigger] decoded(records[at])) is Ok
                },
        },
    decreases upto,
{
    if upto > 0 {
        first_rejection_decides(records, upto - 1);
        match rejected_before(records, upto - 1) {
            Some(error) => {},
            None => {
                match decoded(records[upto - 1]) {
                    Err(error) => {
                        assert(decoded(records[upto - 1]) == Err::<CallFrame, RecordError>(error));
                    },
                    Ok(_) => {},
                }
            },
        }
    }
}

/// A trace written and read again is the same trace.
pub proof fn trace_survives_record_form(frames: Seq<CallFrame>, records: Seq<FrameRecord>)
    requires
        trace_written(frames, records),
    ensures
        decoded_trace(records) == Ok::<Seq<CallFrame>, RecordError>(frames),
{
    assert forall|at: int| 0 <= at < records.len() implies decoded(records[at]) == Ok::<
        CallFrame,
        RecordError,
    >(frames[at]) by {
        frame_survives_record_form(frames[at], records[at]);
    }
    none_rejected(records, records.len() as int);
    assert(decoded_trace(records)->Ok_0 =~= frames);
}

/// Where every record reads as a frame, none is rejected.
proof fn none_rejected(records: Seq<FrameRecord>, upto: int)
    requires
        0 <= upto <= records.len(),
        forall|at: int| 0 <= at < upto ==> (#[trigger] decoded(records[at])) is Ok,
    ensures
        rejected_before(records, upto) is None,
    decreases upto,
{
    if upto > 0 {
        none_rejected(records, upto - 1);
    }
}

/// Reads a trace of records, in order, and stops at the first rejected one.
pub fn read_trace(records: Vec<FrameRecord>) -> (outcome: Result<Vec<CallFrame>, RecordError>)
    ensures
        match outcome {
            Ok(frames) => decoded_trace(records@) == Ok::<Seq<CallFrame>, RecordError>(frames@),
            Err(error) => decoded_trace(records@) == Err::<Seq<CallFrame>, RecordError>(error),
        },
{
    let ghost given = records@;
    let mut frames: Vec<CallFrame> = Vec::new();
    for record in walk: records
        invariant
            walk.seq() == given,
            rejected_before(given, walk.index()) is None,
            frames@.len() == walk.index(),
            forall|at: int| 0 <= at < walk.index() ==> decoded(given[at]) == Ok::<
                CallFrame,
                RecordError,
            >(#[trigger] frames@[at]),
    {
        let ghost at = walk.index();
        assert(record == given[at]);
        match record.into_frame() {
            Ok(frame) => {
                frames.push(frame);
            },
            Err(error) => {
                proof {
                    rejection_stays(given, at + 1, given.len() as int);
                }
                return Err(error);
            },
        }
    }
    assert(frames@ =~= decoded_trace(given)->Ok_0);
    Ok(frames)
}

/// Once a record is rejected, the records behind it do not change the error.
proof fn rejection_stays(records: Seq<FrameRecord>, upto: int, later: int)
    requires
        0 <= upto <= later,
        rejected_before(records, upto) is Some,
    ensures
        rejected_before(records, later) == rejected_before(records, upto),
    decreases later - upto,
{
    if upto < later {
        rejection_stays(records, upto, later - 1);
    }
}

/// Writes a trace of frames, frame by frame.
pub fn write_trace(frames: Vec<CallFrame>) -> (records: Vec<FrameRecord>)
    ensures
        trace_written(frames@, records@),
{
    let ghost given = frames@;
    let mut records: Vec<FrameRecord> = Vec::new();
    for frame in walk: frames
        invariant
            walk.seq() == given,
            trace_written(given.take(walk.index()), records@),
    {
        let ghost at = walk.index();
        assert(frame == given[at]);
        let record = FrameRecord::from_frame(frame);
        records.push(record);
        assert forall|k: int| 0 <= k < at + 1 implies written(
            given.take(at + 1)[k],
            #[trigger] records@[k],
        ) by {
            if k < at {
                assert(given.take(at)[k] == given.take(at + 1)[k]);
            }
        }
    }
    assert(given.take(given.len() as int) == given);
    records
}

/// Merges two traces given as records: reads the managed trace, then the
/// native trace, merges them under the standard boundary table and writes the
/// merged trace. Nothing is merged when a record is rejected.
pub fn merge_records(python_stacks: Vec<FrameRecord>, native_stacks: Vec<FrameRecord>) -> (outcome:
    Result<Vec<FrameRecord>, RecordError>)
    ensures
        match decoded_trace(python_stacks@) {
            Err(error) => outcome == Err::<Vec<FrameRecord>, RecordError>(error),
            Ok(managed) => match decoded_trace(native_stacks@) {
                Err(error) => outcome == Err::<Vec<FrameRecord>, RecordError>(error),
                Ok(native) => {
                    &&& outcome matches Ok(records)
                    &&& trace_written(merged_trace(standard_rules(), managed, native), records@)
                },
            },
        },
{
    let managed = match read_trace(python_stacks) {
        Ok(frames) => frames,
        Err(error) => {
            return Err(error);
        },
    };
    let native = match read_trace(native_stacks) {
        Ok(frames) => frames,
        Err(error) => {
            return Err(error);
        },
    };
    let merged = SignalTracer::merge_python_native_stacks(managed, native);
    Ok(write_trace(merged))
}

} // verus!
