use mixed_stack_tracer::stack_trace::SignalTracer;
use mixed_stack_tracer::CallFrame;
use std::collections::HashMap;

fn cframe(name: &str) -> CallFrame {
    CallFrame::CFrame {
        ip: "0x0".to_string(),
        file: "".to_string(),
        func: name.to_string(),
        lineno: 0,
    }
}

fn pyframe(name: &str) -> CallFrame {
    CallFrame::PyFrame {
        file: "".to_string(),
        func: name.to_string(),
        lineno: 0,
        locals: HashMap::new(),
    }
}

fn funcs(frames: &[CallFrame]) -> Vec<String> {
    frames
        .iter()
        .map(|f| match f {
            CallFrame::CFrame { func, .. } => func.clone(),
            CallFrame::PyFrame { func, .. } => func.clone(),
        })
        .collect()
}

#[test]
fn test_simple_insert() {
    // native: A -> PyEval -> B
    // python: py1 -> py2
    let native = vec![cframe("A"), cframe("PyEval_EvalFrameDefault"), cframe("B")];
    let python = vec![pyframe("py1"), pyframe("py2")];

    let merged = SignalTracer::merge_python_native_stacks(python, native);
    let got = funcs(&merged);

    // Expect: A, py1, B, py2
    assert_eq!(got, vec!["A", "py1", "B", "py2"]);
}

#[test]
fn test_python_shortage() {
    // native: PyEval, PyEval, C
    // python: only py1
    let native = vec![
        cframe("PyEval_EvalFrameDefault"),
        cframe("PyEval_EvalFrameDefault"),
        cframe("C"),
    ];
    let python = vec![pyframe("py1")];

    let merged = SignalTracer::merge_python_native_stacks(python, native);
    let got = funcs(&merged);

    // first PyEval -> py1
    // second PyEval -> no python left, keep native PyEval
    // then C
    assert_eq!(got, vec!["py1", "PyEval_EvalFrameDefault", "C"]);
}

#[test]
fn test_python_extra() {
    // native has no PyEval, python has frames => all python frames appended
    let native = vec![cframe("A"), cframe("B")];
    let python = vec![pyframe("py1"), pyframe("py2")];

    let merged = SignalTracer::merge_python_native_stacks(python, native);
    let got = funcs(&merged);

    // Expect: A, B, py1, py2
    assert_eq!(got, vec!["A", "B", "py1", "py2"]);
}

#[test]
fn test_no_python_frames() {
    // native has PyEval markers, but no python frames at all
    let native = vec![cframe("X"), cframe("PyEval_EvalFrameDefault"), cframe("Y")];
    let python: Vec<CallFrame> = vec![];

    let merged = SignalTracer::merge_python_native_stacks(python, native);
    let got = funcs(&merged);

    // Expect: preserve native PyEval since no python frames to insert
    assert_eq!(got, vec!["X", "PyEval_EvalFrameDefault", "Y"]);
}

fn located(name: &str, ip: &str, file: &str, lineno: i64) -> CallFrame {
    CallFrame::CFrame {
        ip: ip.to_string(),
        file: file.to_string(),
        func: name.to_string(),
        lineno,
    }
}

fn bound(name: &str, file: &str, lineno: i64, locals: Vec<(&str, mixed_stack_tracer::Value)>) -> CallFrame {
    let mut map = HashMap::new();
    for (key, value) in locals {
        map.insert(key.to_string(), value);
    }
    CallFrame::PyFrame { file: file.to_string(), func: name.to_string(), lineno, locals: map }
}

#[test]
fn merge_of_two_empty_traces_is_empty() {
    let merged = SignalTracer::merge_python_native_stacks(vec![], vec![]);
    assert_eq!(merged, Vec::<CallFrame>::new());
}

#[test]
fn merge_with_empty_native_trace_is_the_managed_trace() {
    let python = vec![pyframe("py1"), pyframe("py2"), pyframe("py3")];
    let merged = SignalTracer::merge_python_native_stacks(python.clone(), vec![]);
    assert_eq!(merged, python);
}

#[test]
fn merge_without_boundaries_and_managed_frames_is_the_native_trace() {
    let native = vec![cframe("main"), cframe("run"), cframe("work")];
    let merged = SignalTracer::merge_python_native_stacks(vec![], native.clone());
    assert_eq!(merged, native);
}

#[test]
fn merged_frames_are_the_given_frames_with_every_field() {
    let a = located("main", "0x401000", "main.c", 10);
    let eval = located("_PyEval_EvalFrameDefault", "0x7f12", "ceval.c", 4321);
    let b = located("write", "0x7f99", "io.c", 77);
    let py1 = bound(
        "handler",
        "app.py",
        12,
        vec![
            ("name", mixed_stack_tracer::Value::String("x".to_string())),
            ("count", mixed_stack_tracer::Value::Int(-3)),
            ("ratio", mixed_stack_tracer::Value::Float("0.25".to_string())),
            ("ready", mixed_stack_tracer::Value::Bool(true)),
            ("last", mixed_stack_tracer::Value::Null),
        ],
    );
    let py2 = bound("inner", "lib.py", 99, vec![]);
    let merged = SignalTracer::merge_python_native_stacks(
        vec![py1.clone(), py2.clone()],
        vec![a.clone(), eval, b.clone()],
    );
    assert_eq!(merged, vec![a, py1, b, py2]);
}

#[test]
fn each_boundary_takes_one_managed_frame_in_order() {
    let native = vec![
        cframe("main"),
        cframe("PyEval_EvalCode"),
        cframe("call"),
        cframe("_PyEval_EvalFrameDefault"),
        cframe("PyEval_EvalFrameEx"),
        cframe("leaf"),
    ];
    let python = vec![pyframe("py1"), pyframe("py2"), pyframe("py3")];
    let merged = SignalTracer::merge_python_native_stacks(python, native);
    assert_eq!(funcs(&merged), vec!["main", "py1", "call", "py2", "py3", "leaf"]);
}

#[test]
fn boundary_after_the_managed_trace_ran_out_keeps_its_place() {
    let native = vec![
        cframe("PyEval_EvalFrameDefault"),
        cframe("a"),
        cframe("EvalFrameEx"),
        cframe("b"),
        cframe("PyEval_EvalCode"),
    ];
    let python = vec![pyframe("py1"), pyframe("py2")];
    let merged = SignalTracer::merge_python_native_stacks(python, native);
    assert_eq!(funcs(&merged), vec!["py1", "a", "py2", "b", "PyEval_EvalCode"]);
}

#[test]
fn surplus_managed_frames_follow_as_one_suffix() {
    let native = vec![cframe("a"), cframe("PyEval_EvalFrameDefault"), cframe("b")];
    let python = vec![pyframe("py1"), pyframe("py2"), pyframe("py3"), pyframe("py4")];
    let merged = SignalTracer::merge_python_native_stacks(python, native);
    assert_eq!(funcs(&merged), vec!["a", "py1", "b", "py2", "py3", "py4"]);
}

#[test]
fn managed_frame_on_the_native_side_is_classified_by_name() {
    let native = vec![pyframe("PyEval_EvalFrameDefault"), pyframe("plain")];
    let python = vec![cframe("from_managed_side")];
    let merged = SignalTracer::merge_python_native_stacks(python, native);
    assert_eq!(funcs(&merged), vec!["from_managed_side", "plain"]);
}

#[test]
fn substituted_managed_frame_is_not_looked_at_again() {
    // A managed frame with a boundary name takes a place and stays there.
    let native = vec![cframe("PyEval_EvalFrameDefault"), cframe("x")];
    let python = vec![pyframe("PyEval_EvalFrameDefault"), pyframe("py2")];
    let merged = SignalTracer::merge_python_native_stacks(python.clone(), native);
    assert_eq!(merged, vec![python[0].clone(), cframe("x"), python[1].clone()]);
}

#[test]
fn merged_length_is_native_plus_managed_less_substituted() {
    // 3 boundaries, 5 managed frames: 3 substituted.
    let native = vec![
        cframe("PyEval_EvalCode"),
        cframe("a"),
        cframe("EvalFrameEx"),
        cframe("EvalFrameDefault"),
    ];
    let python: Vec<CallFrame> = (0..5).map(|i| pyframe(&format!("py{}", i))).collect();
    let merged = SignalTracer::merge_python_native_stacks(python, native);
    assert_eq!(merged.len(), 4 + 5 - 3);

    // 3 boundaries, 2 managed frames: 2 substituted.
    let native = vec![
        cframe("PyEval_EvalCode"),
        cframe("a"),
        cframe("EvalFrameEx"),
        cframe("EvalFrameDefault"),
    ];
    let python: Vec<CallFrame> = (0..2).map(|i| pyframe(&format!("py{}", i))).collect();
    let merged = SignalTracer::merge_python_native_stacks(python, native);
    assert_eq!(merged.len(), 4 + 2 - 2);
}

#[test]
fn no_frame_is_lost() {
    let native = vec![
        cframe("a"),
        cframe("PyEval_EvalFrameDefault"),
        cframe("b"),
        cframe("PyEval_EvalFrameDefault"),
        cframe("c"),
    ];
    let python = vec![pyframe("py1"), pyframe("py2"), pyframe("py3")];
    let merged = SignalTracer::merge_python_native_stacks(python.clone(), native.clone());
    assert!(merged.len() >= python.len());
    assert!(merged.len() >= 3);
    for frame in &python {
        assert_eq!(merged.iter().filter(|m| *m == frame).count(), 1);
    }
    for frame in [&native[0], &native[2], &native[4]] {
        assert_eq!(merged.iter().filter(|m| *m == frame).count(), 1);
    }
}

#[test]
fn order_of_both_traces_is_kept() {
    let native = vec![
        cframe("n1"),
        cframe("PyEval_EvalFrameDefault"),
        cframe("n2"),
        cframe("n3"),
        cframe("PyEval_EvalFrameDefault"),
    ];
    let python = vec![pyframe("py1"), pyframe("py2"), pyframe("py3"), pyframe("py4")];
    let merged = SignalTracer::merge_python_native_stacks(python, native);
    let names = funcs(&merged);
    let ordinary: Vec<&String> = names.iter().filter(|n| n.starts_with('n')).collect();
    assert_eq!(ordinary, vec!["n1", "n2", "n3"]);
    let managed: Vec<&String> = names.iter().filter(|n| n.starts_with("py")).collect();
    assert_eq!(managed, vec!["py1", "py2", "py3", "py4"]);
    assert_eq!(names[names.len() - 2..].to_vec(), vec!["py3", "py4"]);
}

#[test]
fn substituted_count_is_the_smaller_of_boundaries_and_managed_frames() {
    for (boundaries, managed) in [(0usize, 0usize), (0, 3), (3, 0), (2, 5), (5, 2), (4, 4)] {
        let mut native = vec![cframe("first")];
        for _ in 0..boundaries {
            native.push(cframe("PyEval_EvalFrameDefault"));
        }
        let python: Vec<CallFrame> = (0..managed).map(|i| pyframe(&format!("py{}", i))).collect();
        let merged = SignalTracer::merge_python_native_stacks(python, native.clone());
        let substituted = merged[..native.len()]
            .iter()
            .filter(|frame| matches!(frame, CallFrame::PyFrame { .. }))
            .count();
        assert_eq!(substituted, boundaries.min(managed));
    }
}

#[test]
fn merge_with_a_custom_table() {
    let rules = vec![mixed_stack_tracer::boundary::Matcher::StartsWith("vm_".to_string())];
    let native = vec![cframe("main"), cframe("vm_run"), cframe("PyEval_EvalFrameDefault")];
    let python = vec![pyframe("script"), pyframe("helper")];
    let merged = SignalTracer::merge_with(&rules, python, native);
    assert_eq!(
        funcs(&merged),
        vec!["main", "script", "PyEval_EvalFrameDefault", "helper"]
    );
}

#[test]
fn merge_with_the_standard_table_is_the_plain_merge() {
    let rules = mixed_stack_tracer::boundary::standard_matchers();
    let native = vec![cframe("A"), cframe("PyEval_EvalFrameDefault"), cframe("B")];
    let python = vec![pyframe("py1"), pyframe("py2")];
    assert_eq!(
        SignalTracer::merge_with(&rules, python.clone(), native.clone()),
        SignalTracer::merge_python_native_stacks(python, native)
    );
}

#[test]
fn tracer_is_reached_from_the_crate_root() {
    let merged = mixed_stack_tracer::SignalTracer::merge_python_native_stacks(
        vec![pyframe("py1")],
        vec![cframe("EvalFrameEx")],
    );
    assert_eq!(funcs(&merged), vec!["py1"]);
}
