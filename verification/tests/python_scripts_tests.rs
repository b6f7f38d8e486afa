use envision_gpu_core::error::CoreError;
use envision_gpu_core::python_scripts::{
    compile_unit, invoke_frame_begin, invoke_update, load_scripts, lookup_hook, notify_frame_begin,
    notify_update,
};
use envision_gpu_core::script_host::{HookLookup, ScriptSource};
use pyo3::{IntoPy, PyObject, Python};

fn source(name: &str, text: &str) -> ScriptSource {
    ScriptSource {
        module_name: name.to_string(),
        source: text.to_string(),
        path: format!("scripts/{}.py", name),
    }
}

/// A script that appends `entry` to the list `builtins.<log>` in each of the
/// callbacks named in `hooks`.
fn recording(log: &str, entry: &str, hooks: &[&str]) -> String {
    let mut text = String::from("import builtins\n");
    for hook in hooks {
        let argument = if *hook == "on_update" { "delta" } else { "" };
        let suffix = if *hook == "on_update" { " + ':' + repr(delta)" } else { "" };
        text.push_str(&format!(
            "def {hook}({argument}):\n    builtins.{log} = getattr(builtins, '{log}', []) + ['{entry}:{hook}'{suffix}]\n"
        ));
    }
    text
}

fn recorded(log: &str) -> Vec<String> {
    Python::with_gil(|py| {
        let builtins = py.import("builtins").unwrap();
        match builtins.getattr(log) {
            Ok(entries) => entries.extract().unwrap(),
            Err(_) => Vec::new(),
        }
    })
}

fn seconds(value: f64) -> PyObject {
    Python::with_gil(|py| value.into_py(py))
}

#[test]
fn python_load_of_nothing_is_an_empty_host() {
    let mut host = load_scripts(Vec::new()).unwrap();
    assert_eq!(host.len(), 0);
    assert_eq!(notify_frame_begin(&host), Ok(()));
    assert_eq!(notify_update(&mut host, &seconds(0.5)), Ok(()));
}

#[test]
fn python_load_resolves_the_callbacks_each_unit_defines() {
    let host = load_scripts(vec![
        source("both", &recording("log_a", "both", &["on_frame_begin", "on_update"])),
        source("begin", &recording("log_a", "begin", &["on_frame_begin"])),
        source("update", &recording("log_a", "update", &["on_update"])),
        source("none", "x = 1\n"),
    ])
    .unwrap();
    assert_eq!(host.len(), 4);
    let expected = [
        ("both", true, true),
        ("begin", true, false),
        ("update", false, true),
        ("none", false, false),
    ];
    for (index, (name, begins, updates)) in expected.iter().enumerate() {
        let unit = host.unit(index).unwrap();
        assert_eq!(unit.module_name, *name);
        assert_eq!(unit.on_frame_begin.is_some(), *begins);
        assert_eq!(unit.on_update.is_some(), *updates);
    }
}

#[test]
fn python_units_have_namespaces_of_their_own() {
    let mut host = load_scripts(vec![
        source(
            "one",
            "import builtins\nname = 'one'\ndef on_update(delta):\n    builtins.log_n = getattr(builtins, 'log_n', []) + [name]\n",
        ),
        source(
            "two",
            "import builtins\nname = 'two'\ndef on_update(delta):\n    builtins.log_n = getattr(builtins, 'log_n', []) + [name]\n",
        ),
    ])
    .unwrap();
    assert_eq!(notify_update(&mut host, &seconds(1.0)), Ok(()));
    assert_eq!(recorded("log_n"), vec!["one".to_string(), "two".to_string()]);
}

#[test]
fn python_load_fails_on_a_unit_that_does_not_compile() {
    let loaded = load_scripts(vec![
        source("good", &recording("log_b", "good", &["on_update"])),
        source("bad", "def on_update(delta:\n"),
        source("later", "import builtins\nbuiltins.log_b = ['later was run']\n"),
    ]);
    match loaded {
        Err(CoreError::ScriptLoadError { unit, reason }) => {
            assert_eq!(unit, "bad");
            assert!(reason.starts_with("SyntaxError"), "unexpected reason: {}", reason);
        }
        Err(other) => panic!("unexpected error: {:?}", other),
        Ok(_) => panic!("a unit that does not compile fails the whole load"),
    }
    assert!(recorded("log_b").is_empty());
}

#[test]
fn python_load_fails_on_a_unit_that_raises_when_run() {
    let loaded = load_scripts(vec![source("angry", "raise RuntimeError('not today')\n")]);
    assert_eq!(
        loaded.err(),
        Some(CoreError::ScriptLoadError {
            unit: "angry".to_string(),
            reason: "RuntimeError: not today".to_string(),
        })
    );
}

#[test]
fn python_load_fails_on_a_lookup_that_raises() {
    let loaded = load_scripts(vec![source(
        "odd",
        "def __getattr__(name):\n    raise ValueError('no ' + name)\n",
    )]);
    assert_eq!(
        loaded.err(),
        Some(CoreError::ScriptLoadError {
            unit: "odd".to_string(),
            reason: "ValueError: no on_frame_begin".to_string(),
        })
    );
}

#[test]
fn python_frame_begin_runs_in_discovery_order() {
    let host = load_scripts(vec![
        source("a", &recording("log_c", "a", &["on_frame_begin", "on_update"])),
        source("b", &recording("log_c", "b", &["on_update"])),
        source("c", &recording("log_c", "c", &["on_frame_begin"])),
    ])
    .unwrap();
    assert_eq!(notify_frame_begin(&host), Ok(()));
    assert_eq!(
        recorded("log_c"),
        vec!["a:on_frame_begin".to_string(), "c:on_frame_begin".to_string()]
    );
}

#[test]
fn python_update_hands_the_elapsed_seconds_to_each_callback() {
    let mut host = load_scripts(vec![
        source("a", &recording("log_d", "a", &["on_frame_begin", "on_update"])),
        source("b", &recording("log_d", "b", &["on_update"])),
    ])
    .unwrap();
    assert_eq!(notify_update(&mut host, &seconds(0.25)), Ok(()));
    assert_eq!(
        recorded("log_d"),
        vec!["a:on_update:0.25".to_string(), "b:on_update:0.25".to_string()]
    );
    assert_eq!(host.len(), 2);
}

#[test]
fn python_failing_update_stops_the_round_and_names_its_unit() {
    let mut host = load_scripts(vec![
        source(
            "first",
            "import builtins\ndef on_update(delta):\n    builtins.log_e = getattr(builtins, 'log_e', []) + ['first']\n    raise ValueError('boom')\n",
        ),
        source("second", &recording("log_e", "second", &["on_update"])),
    ])
    .unwrap();
    assert_eq!(
        notify_update(&mut host, &seconds(0.016)),
        Err(CoreError::ScriptHookError {
            unit: "first".to_string(),
            reason: "ValueError: boom".to_string(),
        })
    );
    assert_eq!(recorded("log_e"), vec!["first".to_string()]);
}

#[test]
fn python_failing_frame_begin_stops_the_round_and_names_its_unit() {
    let host = load_scripts(vec![
        source("fine", &recording("log_f", "fine", &["on_frame_begin"])),
        source("faulty", "def on_frame_begin():\n    raise KeyError('missing')\n"),
        source("never", &recording("log_f", "never", &["on_frame_begin"])),
    ])
    .unwrap();
    assert_eq!(
        notify_frame_begin(&host),
        Err(CoreError::ScriptHookError {
            unit: "faulty".to_string(),
            reason: "KeyError: 'missing'".to_string(),
        })
    );
    assert_eq!(recorded("log_f"), vec!["fine:on_frame_begin".to_string()]);
}

#[test]
fn python_callback_with_the_wrong_arity_is_a_hook_error() {
    let mut host = load_scripts(vec![source("narrow", "def on_update():\n    pass\n")]).unwrap();
    match notify_update(&mut host, &seconds(1.0)) {
        Err(CoreError::ScriptHookError { unit, reason }) => {
            assert_eq!(unit, "narrow");
            assert!(reason.starts_with("TypeError"), "unexpected reason: {}", reason);
        }
        other => panic!("unexpected outcome: {:?}", other),
    }
}

#[test]
fn python_exception_that_cannot_be_shown_is_still_reported() {
    let text = "class Odd(Exception):\n    pass\nOdd.__qualname__ = '\\udc80'\ndef on_update(delta):\n    raise Odd('hidden')\n";
    let mut host = load_scripts(vec![source("odd", text)]).unwrap();
    assert_eq!(
        notify_update(&mut host, &seconds(1.0)),
        Err(CoreError::ScriptHookError {
            unit: "odd".to_string(),
            reason: "Python exception that cannot be shown".to_string(),
        })
    );
}

#[test]
fn python_load_reports_an_exception_that_cannot_be_shown() {
    let text = "class Odd(Exception):\n    pass\nOdd.__qualname__ = '\\udc80'\nraise Odd('hidden')\n";
    assert_eq!(
        load_scripts(vec![source("odd", text)]).err(),
        Some(CoreError::ScriptLoadError {
            unit: "odd".to_string(),
            reason: "Python exception that cannot be shown".to_string(),
        })
    );
}

#[test]
fn python_forwarders_answer_as_the_runtime_does() {
    let module = compile_unit(&source("m", "def on_frame_begin():\n    pass\ndef on_update(delta):\n    raise ValueError(delta)\n")).unwrap();
    let begin = match lookup_hook(&module, "on_frame_begin") {
        HookLookup::Found(callback) => callback,
        _ => panic!("the module defines on_frame_begin"),
    };
    let update = match lookup_hook(&module, "on_update") {
        HookLookup::Found(callback) => callback,
        _ => panic!("the module defines on_update"),
    };
    assert!(matches!(lookup_hook(&module, "on_nothing"), HookLookup::Missing));
    assert_eq!(invoke_frame_begin(&begin), Ok(()));
    assert_eq!(invoke_update(&update, &seconds(2.0)), Err("ValueError: 2.0".to_string()));
    assert_eq!(
        compile_unit(&source("bad", "raise KeyError('k')\n")).err(),
        Some("KeyError: 'k'".to_string())
    );
}
