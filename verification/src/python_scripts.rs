//! The script coordinator on the Python runtime, through `pyo3`.
//!
//! Every call into the runtime takes the interpreter lock for its own
//! duration. The crate builds `pyo3` with `auto-initialize`, so the first
//! such call starts the interpreter if the process has none yet.

use std::fmt::Write;
use vstd::prelude::*;
use crate::error::CoreError;
use crate::script_host::{
    blames_frame_begin_subscriber, blames_source, blames_update_subscriber, frame_begin_round,
    lemma_frame_begin_round_blames_subscriber, lemma_unit_outcome_names_source,
    lemma_update_round_blames_subscriber, update_round, HookLookup, ScriptHooks, ScriptHost,
    ScriptSource,
};

verus! {

/// `pyo3::Py`, an owned reference to a Python object; nothing is known of what
/// it refers to.
#[verifier::external_type_specification]
#[verifier::external_body]
#[verifier::reject_recursive_types(T)]
pub struct ExPy<T>(pyo3::Py<T>);

/// `pyo3::PyAny`, the type of any Python object.
#[verifier::external_type_specification]
#[verifier::external_body]
pub struct ExPyAny(pyo3::PyAny);

/// `pyo3::PyErr`, a Python exception that was raised; nothing is known of
/// what it holds.
#[verifier::external_type_specification]
#[verifier::external_body]
pub struct ExPyErr(pyo3::PyErr);

/// Compiles and runs the text of a unit as a Python module of its own, with
/// `pyo3::types::PyModule::from_code` under `pyo3::Python::with_gil`: the
/// module on success, the exception Python raised otherwise. Nothing is
/// claimed of which of the two comes back.
#[verifier::external_body]
fn compile_module(unit: &ScriptSource) -> (compiled: Result<pyo3::Py<pyo3::PyAny>, pyo3::PyErr>) {
    pyo3::Python::with_gil(
        |py|
            pyo3::types::PyModule::from_code(
                py,
                unit.source.as_str(),
                unit.path.as_str(),
                unit.module_name.as_str(),
            ).map(|module| pyo3::IntoPy::into_py(module, py)),
    )
}

/// Asks a Python object for the attribute `name` with `pyo3::Py::getattr`
/// under `pyo3::Python::with_gil`: the attribute, or the exception Python
/// raised. Nothing is claimed of which of the two comes back.
#[verifier::external_body]
fn get_attribute(object: &pyo3::Py<pyo3::PyAny>, name: &str) -> (found: Result<
    pyo3::Py<pyo3::PyAny>,
    pyo3::PyErr,
>) {
    pyo3::Python::with_gil(|py| object.getattr(py, name))
}

/// Whether a Python exception is an `AttributeError`, by
/// `pyo3::PyErr::is_instance_of` under `pyo3::Python::with_gil`. Nothing is
/// claimed of the answer.
#[verifier::external_body]
fn is_attribute_error(error: &pyo3::PyErr) -> (missing: bool) {
    pyo3::Python::with_gil(|py| error.is_instance_of::<pyo3::exceptions::PyAttributeError>(py))
}

/// Calls a Python object without arguments with `pyo3::Py::call0` under
/// `pyo3::Python::with_gil`; what it returns is dropped, an exception it
/// raises comes back. Nothing is claimed of which of the two happens.
#[verifier::external_body]
fn call_without_arguments(callback: &pyo3::Py<pyo3::PyAny>) -> (answer: Result<(), pyo3::PyErr>) {
    pyo3::Python::with_gil(|py| callback.call0(py).map(|_| ()))
}

/// Calls a Python object on one argument with `pyo3::Py::call1` under
/// `pyo3::Python::with_gil`; what it returns is dropped, an exception it
/// raises comes back. Nothing is claimed of which of the two happens.
#[verifier::external_body]
fn call_with_argument(
    callback: &pyo3::Py<pyo3::PyAny>,
    argument: &pyo3::Py<pyo3::PyAny>,
) -> (answer: Result<(), pyo3::PyErr>) {
    pyo3::Python::with_gil(|py| callback.call1(py, (argument,)).map(|_| ()))
}

/// The text of a Python exception as `pyo3::PyErr` displays it, written with
/// `write!` so that an exception which cannot be displayed gives `None` and
/// nothing panics. Nothing is claimed of the text.
#[verifier::external_body]
fn exception_text(error: &pyo3::PyErr) -> (text: Option<String>) {
    let mut text = String::new();
    match write!(text, "{}", error) {
        Ok(_) => Some(text),
        Err(_) => None,
    }
}

/// The reason to report for a Python exception: its text, or a fixed text
/// where Python cannot show the exception.
fn reason_of(error: &pyo3::PyErr) -> (reason: String) {
    match exception_text(error) {
        Some(text) => text,
        None => "Python exception that cannot be shown".to_owned(),
    }
}

/// Compiles and runs a unit as a Python module of its own, named after the
/// unit: the module, or the text of the exception that Python raised.
///
/// This is the compiler `load_scripts` loads with; whether a unit compiles is
/// for Python to decide.
pub fn compile_unit(unit: &ScriptSource) -> (compiled: Result<pyo3::Py<pyo3::PyAny>, String>) {
    match compile_module(unit) {
        Ok(module) => Ok(module),
        Err(error) => Err(reason_of(&error)),
    }
}

/// Asks a module for the callback called `name`: found where the module has
/// such an attribute, missing where Python raised `AttributeError`, failed
/// with the text of the exception where it raised anything else.
///
/// This is the lookup `load_scripts` loads with; what a module answers is
/// for Python to decide.
pub fn lookup_hook(module: &pyo3::Py<pyo3::PyAny>, name: &str) -> (found: HookLookup<
    pyo3::Py<pyo3::PyAny>,
>) {
    match get_attribute(module, name) {
        Ok(callback) => HookLookup::Found(callback),
        Err(error) => {
            if is_attribute_error(&error) {
                HookLookup::Missing
            } else {
                HookLookup::Failed { reason: reason_of(&error) }
            }
        },
    }
}

/// Calls a frame-begin callback, without arguments: what it returns is
/// dropped, and an exception it raises comes back as its text.
///
/// This is the invocation `notify_frame_begin` runs its round with; whether
/// a callback raises is for Python to decide.
pub fn invoke_frame_begin(callback: &pyo3::Py<pyo3::PyAny>) -> (answer: Result<(), String>) {
    match call_without_arguments(callback) {
        Ok(_) => Ok(()),
        Err(error) => Err(reason_of(&error)),
    }
}

/// Calls an update callback on the elapsed seconds: what it returns is
/// dropped, and an exception it raises comes back as its text.
///
/// This is the invocation `notify_update` runs its round with; whether a
/// callback raises is for Python to decide.
pub fn invoke_update(
    callback: &pyo3::Py<pyo3::PyAny>,
    delta_seconds: &pyo3::Py<pyo3::PyAny>,
) -> (answer: Result<(), String>) {
    match call_with_argument(callback, delta_seconds) {
        Ok(_) => Ok(()),
        Err(error) => Err(reason_of(&error)),
    }
}

/// Loads the units of `sources` into the Python runtime, in the order given.
///
/// Each source is compiled and run with `compile_unit` as a module of its
/// own, named after the unit, and the module is asked through `lookup_hook`
/// for "on_frame_begin" and "on_update"; a unit need not define either. The
/// host that comes back has one unit per source, in the same order and under
/// the same names. The first unit that Python cannot compile, or whose lookup
/// raises anything but `AttributeError`, ends the load with a
/// `ScriptLoadError` carrying its name; sources behind it are not touched.
///
/// What Python answers is for Python to decide. The result follows from its
/// answers as `ScriptHost::new` says; whatever they are, a load of no sources
/// succeeds and a load that fails blames one of the sources.
pub fn load_scripts(sources: Vec<ScriptSource>) -> (loaded: Result<
    ScriptHost<pyo3::Py<pyo3::PyAny>>,
    CoreError,
>)
    ensures
        ScriptHost::load_outcome(sources@, compile_unit, lookup_hook, loaded),
        match loaded {
            Ok(host) => {
                &&& host.units().len() == sources@.len()
                &&& forall|i: int|
                    0 <= i < sources@.len() ==> (#[trigger] host.units()[i]).module_name@
                        == sources@[i].module_name@
            },
            Err(error) => blames_source(sources@, error),
        },
{
    let loaded = ScriptHost::new(sources, compile_unit, lookup_hook);
    let ghost result = loaded;
    proof {
        match result {
            Ok(host) => {
                assert forall|i: int| 0 <= i < sources@.len() implies (#[trigger] host.units()[i]).module_name@
                    == sources@[i].module_name@ by {
                    lemma_unit_outcome_names_source(
                        sources@[i],
                        compile_unit,
                        lookup_hook,
                        Ok(host.units()[i]),
                    );
                }
            },
            Err(error) => {
                let earlier = choose|earlier: Seq<ScriptHooks<pyo3::Py<pyo3::PyAny>>>| #[trigger]
                    ScriptHost::load_failed_after(
                        sources@,
                        earlier,
                        compile_unit,
                        lookup_hook,
                        error,
                    );
                lemma_unit_outcome_names_source(
                    sources@[earlier.len() as int],
                    compile_unit,
                    lookup_hook,
                    Err::<ScriptHooks<pyo3::Py<pyo3::PyAny>>, CoreError>(error),
                );
            },
        }
    }
    loaded
}

/// Tells every unit that a frame begins, on the Python runtime.
///
/// The frame-begin callbacks are called with `invoke_frame_begin` in
/// discovery order. The round stops at the first callback that raises: the
/// result is a `ScriptHookError` with the name of its unit and the text of
/// the exception, and no callback behind it is called.
///
/// Whether a callback raises is for Python to decide. The outcome follows
/// from its answers as `ScriptHost::notify_frame_begin` says; whatever they
/// are, a round over units none of which subscribes succeeds, and a round
/// that fails blames a unit that subscribes.
pub fn notify_frame_begin(host: &ScriptHost<pyo3::Py<pyo3::PyAny>>) -> (outcome: Result<
    (),
    CoreError,
>)
    ensures
        frame_begin_round(host.units(), invoke_frame_begin, outcome),
        (forall|k: int|
            0 <= k < host.units().len() ==> (#[trigger] host.units()[k]).on_frame_begin is None)
            ==> outcome is Ok,
        outcome matches Err(error) ==> blames_frame_begin_subscriber(host.units(), error),
{
    let outcome = host.notify_frame_begin(invoke_frame_begin);
    proof {
        lemma_frame_begin_round_blames_subscriber(host.units(), invoke_frame_begin, outcome);
    }
    outcome
}

/// Tells every unit how much time has passed since the last frame, on the
/// Python runtime.
///
/// The update callbacks are called with `invoke_update` on `delta_seconds`,
/// the elapsed seconds as a Python number, in discovery order. The round
/// stops at the first callback that raises: the result is a
/// `ScriptHookError` with the name of its unit and the text of the
/// exception, and no callback behind it is called. The host is left as it
/// was.
///
/// Whether a callback raises is for Python to decide. The outcome follows
/// from its answers as `ScriptHost::notify_update` says; whatever they are,
/// a round over units none of which subscribes succeeds, and a round that
/// fails blames a unit that subscribes.
pub fn notify_update(
    host: &mut ScriptHost<pyo3::Py<pyo3::PyAny>>,
    delta_seconds: &pyo3::Py<pyo3::PyAny>,
) -> (outcome: Result<(), CoreError>)
    ensures
        *final(host) == *old(host),
        update_round(old(host).units(), delta_seconds, invoke_update, outcome),
        (forall|k: int|
            0 <= k < old(host).units().len() ==> (#[trigger] old(host).units()[k]).on_update
                is None) ==> outcome is Ok,
        outcome matches Err(error) ==> blames_update_subscriber(old(host).units(), error),
{
    let outcome = host.notify_update(delta_seconds, invoke_update);
    proof {
        lemma_update_round_blames_subscriber(
            old(host).units(),
            delta_seconds,
            invoke_update,
            outcome,
        );
    }
    outcome
}

} // verus!
