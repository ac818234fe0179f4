//! The boundary predicate: which frames mark the point where the native stack
//! hands control to managed code.
//!
//! The predicate is a table of name matchers. A frame is a boundary when any
//! matcher of the table accepts its function name. The match is deliberately
//! generous: a user function whose name happens to hold one of the patterns is
//! classified as a boundary too.

use crate::text::{begins_with, contains, occurs_in, starts_with};
use crate::CallFrame;
use vstd::prelude::*;

verus! {

/// One rule of the boundary table.
#[derive(Clone, Debug, PartialEq, Eq)]
pub enum Matcher {
    /// Accepts a name that holds the pattern anywhere.
    Contains(String),
    /// Accepts a name that starts with the pattern.
    StartsWith(String),
}

/// What a [`Matcher`] is in specifications.
pub enum MatcherModel {
    Contains(Seq<char>),
    StartsWith(Seq<char>),
}

impl MatcherModel {
    /// The rule accepts the function name `name`.
    pub open spec fn accepts(self, name: Seq<char>) -> bool {
        match self {
            MatcherModel::Contains(pattern) => occurs_in(pattern, name),
            MatcherModel::StartsWith(pattern) => begins_with(pattern, name),
        }
    }
}

impl DeepView for Matcher {
    type V = MatcherModel;

    open spec fn deep_view(&self) -> MatcherModel {
        match self {
            Matcher::Contains(pattern) => MatcherModel::Contains(pattern@),
            Matcher::StartsWith(pattern) => MatcherModel::StartsWith(pattern@),
        }
    }
}

impl Matcher {
    /// Tests one function name against this rule.
    pub fn accepts(&self, name: &str) -> (hit: bool)
        ensures
            hit == self.deep_view().accepts(name@),
    {
        match self {
            Matcher::Contains(pattern) => contains(name, pattern.as_str()),
            Matcher::StartsWith(pattern) => starts_with(name, pattern.as_str()),
        }
    }
}

/// Some rule of the table accepts `name`.
pub open spec fn any_accepts(rules: Seq<MatcherModel>, name: Seq<char>) -> bool {
    exists|k: int| 0 <= k < rules.len() && #[trigger] rules[k].accepts(name)
}

/// Tests one function name against every rule of a table.
pub fn matches_any(rules: &Vec<Matcher>, name: &str) -> (hit: bool)
    ensures
        hit == any_accepts(rules.deep_view(), name@),
{
    let mut k: usize = 0;
    while k < rules.len()
        invariant
            k <= rules.len(),
            forall|j: int| 0 <= j < k ==> !(#[trigger] rules.deep_view()[j]).accepts(name@),
        decreases rules.len() - k,
    {
        if rules[k].accepts(name) {
            assert(rules.deep_view()[k as int].accepts(name@));
            return true;
        }
        k += 1;
    }
    false
}

/// The names that mark an interpreter frame-evaluation entry point: the known
/// historical names of the evaluation loop, matched as a superset.
pub open spec fn is_interpreter_entry(name: Seq<char>) -> bool {
    ||| occurs_in("PyEval_EvalFrame"@, name)
    ||| occurs_in("PyEval_EvalCode"@, name)
    ||| begins_with("PyEval"@, name)
    ||| occurs_in("EvalFrameDefault"@, name)
    ||| occurs_in("EvalFrameEx"@, name)
}

/// The standard boundary table, one rule for each clause of
/// [`is_interpreter_entry`].
pub open spec fn standard_rules() -> Seq<MatcherModel> {
    seq![
        MatcherModel::Contains("PyEval_EvalFrame"@),
        MatcherModel::Contains("PyEval_EvalCode"@),
        MatcherModel::StartsWith("PyEval"@),
        MatcherModel::Contains("EvalFrameDefault"@),
        MatcherModel::Contains("EvalFrameEx"@),
    ]
}

/// The standard table accepts exactly the interpreter entry names.
pub proof fn standard_rules_accept_entries(name: Seq<char>)
    ensures
        any_accepts(standard_rules(), name) == is_interpreter_entry(name),
{
    let rules = standard_rules();
    if is_interpreter_entry(name) {
        if occurs_in("PyEval_EvalFrame"@, name) {
            assert(rules[0].accepts(name));
        } else if occurs_in("PyEval_EvalCode"@, name) {
            assert(rules[1].accepts(name));
        } else if begins_with("PyEval"@, name) {
            assert(rules[2].accepts(name));
        } else if occurs_in("EvalFrameDefault"@, name) {
            assert(rules[3].accepts(name));
        } else {
            assert(rules[4].accepts(name));
        }
    }
}

/// Builds the standard boundary table.
pub fn standard_matchers() -> (rules: Vec<Matcher>)
    ensures
        rules.deep_view() == standard_rules(),
{
    let mut rules: Vec<Matcher> = Vec::new();
    rules.push(Matcher::Contains("PyEval_EvalFrame".to_owned()));
    rules.push(Matcher::Contains("PyEval_EvalCode".to_owned()));
    rules.push(Matcher::StartsWith("PyEval".to_owned()));
    rules.push(Matcher::Contains("EvalFrameDefault".to_owned()));
    rules.push(Matcher::Contains("EvalFrameEx".to_owned()));
    assert(rules.deep_view() =~= standard_rules());
    rules
}

/// What a frame is to the merge.
#[derive(Clone, Copy, Debug, PartialEq, Eq, Structural)]
pub enum FrameKind {
    /// An interpreter-evaluation boundary: managed code runs below it.
    Boundary,
    /// Any other frame.
    Ordinary,
}

/// The frame is a boundary under the table `rules`: some rule accepts its
/// function name. Nothing else of the frame is looked at.
pub open spec fn is_boundary(rules: Seq<MatcherModel>, frame: CallFrame) -> bool {
    any_accepts(rules, frame.func_name())
}

/// The kind of a frame under the table `rules`.
pub open spec fn kind_under(rules: Seq<MatcherModel>, frame: CallFrame) -> FrameKind {
    if is_boundary(rules, frame) {
        FrameKind::Boundary
    } else {
        FrameKind::Ordinary
    }
}

/// The kind of a frame under the standard table.
pub open spec fn kind_of(frame: CallFrame) -> FrameKind {
    if is_interpreter_entry(frame.func_name()) {
        FrameKind::Boundary
    } else {
        FrameKind::Ordinary
    }
}

/// Classifies a frame under a table of the caller's choice.
pub fn classify_with(rules: &Vec<Matcher>, frame: &CallFrame) -> (kind: FrameKind)
    ensures
        kind == kind_under(rules.deep_view(), *frame),
{
    if matches_any(rules, frame.function()) {
        FrameKind::Boundary
    } else {
        FrameKind::Ordinary
    }
}

/// Classifies a frame under the standard table.
pub fn classify(frame: &CallFrame) -> (kind: FrameKind)
    ensures
        kind == kind_of(*frame),
        kind == kind_under(standard_rules(), *frame),
{
    let name = frame.function();
    proof {
        standard_rules_accept_entries(name@);
    }
    if contains(name, "PyEval_EvalFrame") || contains(name, "PyEval_EvalCode") || starts_with(
        name,
        "PyEval",
    ) || contains(name, "EvalFrameDefault") || contains(name, "EvalFrameEx") {
        FrameKind::Boundary
    } else {
        FrameKind::Ordinary
    }
}

} // verus!
