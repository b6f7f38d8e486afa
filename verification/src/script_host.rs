//! The script coordinator: the loaded script units and the two per-frame
//! notification rounds over them.
//!
//! The coordinator is written against any scripting runtime: it is given the
//! means to compile a unit, to look a callback up and to invoke one, and its
//! contracts say what it makes of their answers. `python_scripts` binds it to
//! the Python runtime.

use vstd::prelude::*;
use crate::error::CoreError;

verus! {

/// One loaded script unit: its name and the callbacks it subscribes with.
///
/// A callback is whatever handle the scripting runtime gave for it; the host
/// stores it and hands it back for invocation, nothing more.
pub struct ScriptHooks<H> {
    pub module_name: String,
    pub on_frame_begin: Option<H>,
    pub on_update: Option<H>,
}

/// The text of one script unit as it was discovered.
pub struct ScriptSource {
    pub module_name: String,
    pub source: String,
    pub path: String,
}

/// What the scripting runtime answered when a unit was asked for a callback.
pub enum HookLookup<H> {
    /// The unit defines the callback.
    Found(H),
    /// The unit has no attribute of that name.
    Missing,
    /// The lookup itself raised something other than a missing attribute.
    Failed { reason: String },
}

/// The script units of a session, in discovery order.
pub struct ScriptHost<H> {
    scripts: Vec<ScriptHooks<H>>,
}

/// Whether `extension` spells "py" in any mix of upper and lower case.
pub open spec fn is_python_extension(extension: Seq<char>) -> bool {
    &&& extension.len() == 2
    &&& (extension[0] == 'p' || extension[0] == 'P')
    &&& (extension[1] == 'y' || extension[1] == 'Y')
}

/// Whether a file with this extension (none, or the text after the last dot
/// of its name) is a script unit.
pub fn is_python_file(extension: Option<&str>) -> (is_script: bool)
    ensures
        is_script == (extension matches Some(text) && is_python_extension(text@)),
{
    match extension {
        Some(text) => {
            if text.unicode_len() != 2 {
                return false;
            }
            let first = text.get_char(0);
            let second = text.get_char(1);
            (first == 'p' || first == 'P') && (second == 'y' || second == 'Y')
        },
        None => false,
    }
}

/// The name a unit is loaded under: the stem of its file name, or "script"
/// where the stem cannot be read as text.
pub fn module_name(stem: Option<&str>) -> (name: String)
    ensures
        name@ == (match stem {
            Some(text) => text@,
            None => "script"@,
        }),
{
    match stem {
        Some(text) => text.to_owned(),
        None => "script".to_owned(),
    }
}

/// Settles one callback lookup for the unit named `unit`: a callback that was
/// found is subscribed, a missing one is not, and any other failure of the
/// lookup is a load error of that unit.
pub fn resolve_hook<H>(found: HookLookup<H>, unit: &str) -> (resolved: Result<Option<H>, CoreError>)
    ensures
        match found {
            HookLookup::Found(callback) => resolved == Ok::<Option<H>, CoreError>(Some(callback)),
            HookLookup::Missing => resolved == Ok::<Option<H>, CoreError>(None),
            HookLookup::Failed { reason } => resolved matches Err(
                CoreError::ScriptLoadError { unit: named, reason: told },
            ) && named@ == unit@ && told == reason,
        },
{
    match found {
        HookLookup::Found(callback) => Ok(Some(callback)),
        HookLookup::Missing => Ok(None),
        HookLookup::Failed { reason } => Err(
            CoreError::ScriptLoadError { unit: unit.to_owned(), reason },
        ),
    }
}

/// For every unit among the first `upto` that subscribes to frame begin,
/// coming back without an error is something `invoke` can do on its callback.
/// A round that has got past these units has seen all of them do so.
pub open spec fn frame_begin_passed<H, I: Fn(&H) -> Result<(), String>>(
    units: Seq<ScriptHooks<H>>,
    upto: int,
    invoke: I,
) -> bool {
    forall|j: int|
        0 <= j < upto && (#[trigger] units[j]).on_frame_begin is Some ==> invoke.ensures(
            (&units[j].on_frame_begin->0,),
            Ok::<(), String>(()),
        )
}

/// For every unit among the first `upto` that subscribes to updates, coming
/// back without an error is something `invoke` can do on its callback and
/// `delta`. A round that has got past these units has seen all of them do so.
pub open spec fn update_passed<H, T, I: Fn(&H, T) -> Result<(), String>>(
    units: Seq<ScriptHooks<H>>,
    upto: int,
    delta: T,
    invoke: I,
) -> bool {
    forall|j: int|
        0 <= j < upto && (#[trigger] units[j]).on_update is Some ==> invoke.ensures(
            (&units[j].on_update->0, delta),
            Ok::<(), String>(()),
        )
}

/// Whether `found` is something `lookup` can answer when `module` is asked for
/// the callback called `name`.
pub open spec fn hook_resolved<M, H, L: Fn(&M, &str) -> HookLookup<H>>(
    lookup: L,
    module: &M,
    name: Seq<char>,
    found: HookLookup<H>,
) -> bool {
    exists|text: &str| text@ == name && #[trigger] lookup.ensures((module, text), found)
}

/// Whether `lookup` may be asked for both callbacks of `module`.
pub open spec fn may_look_up<M, H, L: Fn(&M, &str) -> HookLookup<H>>(lookup: L, module: &M) -> bool {
    forall|text: &str|
        text@ == "on_frame_begin"@ || text@ == "on_update"@ ==> #[trigger] lookup.requires(
            (module, text),
        )
}

/// The subscription a lookup that did not fail stands for.
pub open spec fn subscription<H>(found: HookLookup<H>) -> Option<H> {
    match found {
        HookLookup::Found(callback) => Some(callback),
        _ => None,
    }
}

/// What loading the unit called `name` comes to once its module is compiled
/// and the lookups `begin` and `update` are in: the first lookup that failed
/// makes it a load error of that unit with the lookup's reason (a failed
/// `begin` leaves `update` unasked); else the unit carries the name and the
/// two subscriptions.
pub open spec fn assembled<H>(
    name: Seq<char>,
    begin: HookLookup<H>,
    update: HookLookup<H>,
    loaded: Result<ScriptHooks<H>, CoreError>,
) -> bool {
    match begin {
        HookLookup::Failed { reason } => loaded matches Err(
            CoreError::ScriptLoadError { unit, reason: told },
        ) && unit@ == name && told == reason,
        _ => match update {
            HookLookup::Failed { reason } => loaded matches Err(
                CoreError::ScriptLoadError { unit, reason: told },
            ) && unit@ == name && told == reason,
            _ => loaded matches Ok(hooks) && hooks.module_name@ == name && hooks.on_frame_begin
                == subscription(begin) && hooks.on_update == subscription(update),
        },
    }
}

/// How the result of loading one unit follows from what `compile` and `lookup`
/// answered: a compile error is a load error of the unit with the same reason;
/// else the module is asked for "on_frame_begin" and then for "on_update", and
/// the result is assembled from the answers.
pub open spec fn unit_outcome<M, H, C: Fn(&ScriptSource) -> Result<M, String>, L: Fn(
    &M,
    &str,
) -> HookLookup<H>>(
    source: ScriptSource,
    compile: C,
    lookup: L,
    loaded: Result<ScriptHooks<H>, CoreError>,
) -> bool {
    ||| loaded matches Err(CoreError::ScriptLoadError { unit, reason }) && unit@
        == source.module_name@ && compile.ensures((&source,), Err::<M, String>(reason))
    ||| exists|module: M, begin: HookLookup<H>, update: HookLookup<H>|
        {
            &&& #[trigger] compile.ensures((&source,), Ok::<M, String>(module))
            &&& hook_resolved(lookup, &module, "on_frame_begin"@, begin)
            &&& begin is Failed || hook_resolved(lookup, &module, "on_update"@, update)
            &&& #[trigger] assembled(source.module_name@, begin, update, loaded)
        }
}

/// Whether the unit of `source` can load: some unit is a possible result of
/// compiling it and looking its callbacks up.
pub open spec fn can_load<M, H, C: Fn(&ScriptSource) -> Result<M, String>, L: Fn(
    &M,
    &str,
) -> HookLookup<H>>(source: ScriptSource, compile: C, lookup: L) -> bool {
    exists|hooks: ScriptHooks<H>| #[trigger]
        unit_outcome(source, compile, lookup, Ok::<ScriptHooks<H>, CoreError>(hooks))
}

/// Whether each of the first `upto` sources can load.
pub open spec fn all_can_load<M, H, C: Fn(&ScriptSource) -> Result<M, String>, L: Fn(
    &M,
    &str,
) -> HookLookup<H>>(sources: Seq<ScriptSource>, upto: int, compile: C, lookup: L) -> bool {
    forall|j: int| 0 <= j < upto ==> can_load(#[trigger] sources[j], compile, lookup)
}

/// Whether unit `k` ended a frame-begin round with `error`: it subscribes,
/// every subscriber before it came back without an error, its own invocation
/// reported `reason`, and `error` carries its name and that reason.
pub open spec fn frame_begin_failed_at<H, I: Fn(&H) -> Result<(), String>>(
    units: Seq<ScriptHooks<H>>,
    k: int,
    invoke: I,
    error: CoreError,
) -> bool {
    &&& 0 <= k < units.len()
    &&& units[k].on_frame_begin is Some
    &&& frame_begin_passed(units, k, invoke)
    &&& error matches CoreError::ScriptHookError { unit, reason }
    &&& unit@ == units[k].module_name@
    &&& invoke.ensures((&units[k].on_frame_begin->0,), Err::<(), String>(reason))
}

/// What a frame-begin round over `units` comes to: every subscriber came back
/// without an error, or the round ended at the first that reported one.
pub open spec fn frame_begin_round<H, I: Fn(&H) -> Result<(), String>>(
    units: Seq<ScriptHooks<H>>,
    invoke: I,
    outcome: Result<(), CoreError>,
) -> bool {
    match outcome {
        Ok(_) => frame_begin_passed(units, units.len() as int, invoke),
        Err(error) => exists|k: int| #[trigger] frame_begin_failed_at(units, k, invoke, error),
    }
}

/// Whether unit `k` ended an update round with `error`: it subscribes, every
/// subscriber before it came back without an error, its own invocation
/// reported `reason`, and `error` carries its name and that reason.
pub open spec fn update_failed_at<H, T, I: Fn(&H, T) -> Result<(), String>>(
    units: Seq<ScriptHooks<H>>,
    k: int,
    delta: T,
    invoke: I,
    error: CoreError,
) -> bool {
    &&& 0 <= k < units.len()
    &&& units[k].on_update is Some
    &&& update_passed(units, k, delta, invoke)
    &&& error matches CoreError::ScriptHookError { unit, reason }
    &&& unit@ == units[k].module_name@
    &&& invoke.ensures((&units[k].on_update->0, delta), Err::<(), String>(reason))
}

/// What an update round over `units` comes to: every subscriber came back
/// without an error, or the round ended at the first that reported one.
pub open spec fn update_round<H, T, I: Fn(&H, T) -> Result<(), String>>(
    units: Seq<ScriptHooks<H>>,
    delta: T,
    invoke: I,
    outcome: Result<(), CoreError>,
) -> bool {
    match outcome {
        Ok(_) => update_passed(units, units.len() as int, delta, invoke),
        Err(error) => exists|k: int| #[trigger] update_failed_at(units, k, delta, invoke, error),
    }
}

impl<H> ScriptHost<H> {
    /// The units, in discovery order.
    pub closed spec fn units(&self) -> Seq<ScriptHooks<H>> {
        self.scripts@
    }

    /// A host for units that are loaded already, in the order given.
    pub fn from_units(units: Vec<ScriptHooks<H>>) -> (host: Self)
        ensures
            host.units() == units@,
    {
        ScriptHost { scripts: units }
    }

    /// Number of units.
    pub fn len(&self) -> (count: usize)
        ensures
            count == self.units().len(),
    {
        self.scripts.len()
    }

    /// The unit at `index` in discovery order, if there is one.
    pub fn unit(&self, index: usize) -> (unit: Option<&ScriptHooks<H>>)
        ensures
            unit == (if index < self.units().len() {
                Some(&self.units()[index as int])
            } else {
                None
            }),
    {
        if index < self.scripts.len() {
            Some(&self.scripts[index])
        } else {
            None
        }
    }

    /// Tells every unit that a frame begins.
    ///
    /// The units are visited in discovery order and `invoke` is called on the
    /// frame-begin callback of each unit that has one. The round stops at the
    /// first invocation that reports an error: units after it are not
    /// visited, and the result is a `ScriptHookError` with that unit's name
    /// and the reported reason. So `invoke` has to be callable only on the
    /// callbacks the round can reach: those that stand behind callbacks which
    /// can all come back without an error.
    pub fn notify_frame_begin<I>(&self, invoke: I) -> (outcome: Result<(), CoreError>) where
        I: Fn(&H) -> Result<(), String>,

        requires
            forall|j: int|
                0 <= j < self.units().len() && (#[trigger] self.units()[j]).on_frame_begin is Some
                    && frame_begin_passed(self.units(), j, invoke) ==> invoke.requires(
                    (&self.units()[j].on_frame_begin->0,),
                ),
        ensures
            frame_begin_round(self.units(), invoke, outcome),
    {
        let mut i: usize = 0;
        while i < self.scripts.len()
            invariant
                i <= self.units().len(),
                self.units() == self.scripts@,
                frame_begin_passed(self.units(), i as int, invoke),
                forall|j: int|
                    0 <= j < self.units().len() && (#[trigger] self.units()[j]).on_frame_begin
                        is Some && frame_begin_passed(self.units(), j, invoke)
                        ==> invoke.requires((&self.units()[j].on_frame_begin->0,)),
            decreases self.units().len() - i,
        {
            let script = &self.scripts[i];
            match &script.on_frame_begin {
                Some(callback) => {
                    let answer = invoke(callback);
                    assert(answer is Ok ==> answer == Ok::<(), String>(())) by {
                        if answer is Ok {
                            assert(answer->Ok_0 == ());
                        }
                    }
                    match answer {
                        Ok(_) => {},
                        Err(reason) => {
                            let error = CoreError::ScriptHookError {
                                unit: script.module_name.clone(),
                                reason,
                            };
                            assert(frame_begin_failed_at(self.units(), i as int, invoke, error));
                            return Err(error);
                        },
                    }
                },
                None => {},
            }
            i += 1;
        }
        Ok(())
    }

    /// Tells every unit how much time has passed since the last frame.
    ///
    /// The units are visited in discovery order and `invoke` is called with
    /// `delta_seconds` on the update callback of each unit that has one. The
    /// round stops at the first invocation that reports an error: units after
    /// it are not visited, and the result is a `ScriptHookError` with that
    /// unit's name and the reported reason. So `invoke` has to be callable
    /// only on the callbacks the round can reach: those that stand behind
    /// callbacks which can all come back without an error. The host itself
    /// is left as it was.
    pub fn notify_update<T, I>(&mut self, delta_seconds: T, invoke: I) -> (outcome: Result<
        (),
        CoreError,
    >) where T: Copy, I: Fn(&H, T) -> Result<(), String>
        requires
            forall|j: int|
                0 <= j < old(self).units().len() && (#[trigger] old(self).units()[j]).on_update
                    is Some && update_passed(old(self).units(), j, delta_seconds, invoke)
                    ==> invoke.requires((&old(self).units()[j].on_update->0, delta_seconds)),
        ensures
            *final(self) == *old(self),
            update_round(old(self).units(), delta_seconds, invoke, outcome),
    {
        let mut i: usize = 0;
        while i < self.scripts.len()
            invariant
                i <= self.units().len(),
                self.units() == self.scripts@,
                *self == *old(self),
                update_passed(self.units(), i as int, delta_seconds, invoke),
                forall|j: int|
                    0 <= j < self.units().len() && (#[trigger] self.units()[j]).on_update is Some
                        && update_passed(self.units(), j, delta_seconds, invoke)
                        ==> invoke.requires((&self.units()[j].on_update->0, delta_seconds)),
            decreases self.units().len() - i,
        {
            let script = &self.scripts[i];
            match &script.on_update {
                Some(callback) => {
                    let answer = invoke(callback, delta_seconds);
                    assert(answer is Ok ==> answer == Ok::<(), String>(())) by {
                        if answer is Ok {
                            assert(answer->Ok_0 == ());
                        }
                    }
                    match answer {
                        Ok(_) => {},
                        Err(reason) => {
                            let error = CoreError::ScriptHookError {
                                unit: script.module_name.clone(),
                                reason,
                            };
                            assert(update_failed_at(
                                self.units(),
                                i as int,
                                delta_seconds,
                                invoke,
                                error,
                            ));
                            return Err(error);
                        },
                    }
                },
                None => {},
            }
            i += 1;
        }
        Ok(())
    }

    /// Whether `earlier` are units that the sources before the one at
    /// `earlier.len()` can load as, and that source fails to load with
    /// `error`.
    pub open spec fn load_failed_after<M, C: Fn(&ScriptSource) -> Result<M, String>, L: Fn(
        &M,
        &str,
    ) -> HookLookup<H>>(
        sources: Seq<ScriptSource>,
        earlier: Seq<ScriptHooks<H>>,
        compile: C,
        lookup: L,
        error: CoreError,
    ) -> bool {
        &&& earlier.len() < sources.len()
        &&& forall|i: int|
            0 <= i < earlier.len() ==> unit_outcome(
                sources[i],
                compile,
                lookup,
                Ok(#[trigger] earlier[i]),
            )
        &&& unit_outcome(sources[earlier.len() as int], compile, lookup, Err(error))
    }

    /// What loading `sources` comes to: a host with one unit per source, each
    /// loaded from its source, in the same order; or the error of the first
    /// source that fails to load, every source before it having loaded.
    pub open spec fn load_outcome<M, C: Fn(&ScriptSource) -> Result<M, String>, L: Fn(
        &M,
        &str,
    ) -> HookLookup<H>>(
        sources: Seq<ScriptSource>,
        compile: C,
        lookup: L,
        loaded: Result<Self, CoreError>,
    ) -> bool {
        match loaded {
            Ok(host) => {
                &&& host.units().len() == sources.len()
                &&& forall|i: int|
                    0 <= i < sources.len() ==> unit_outcome(
                        sources[i],
                        compile,
                        lookup,
                        Ok(#[trigger] host.units()[i]),
                    )
            },
            Err(error) => exists|earlier: Seq<ScriptHooks<H>>| #[trigger]
                Self::load_failed_after(sources, earlier, compile, lookup, error),
        }
    }

    /// Loads one unit: compiles it, asks the module for its two callbacks and
    /// settles the answers.
    fn load_unit<M, C, L>(source: &ScriptSource, compile: &C, lookup: &L) -> (loaded: Result<
        ScriptHooks<H>,
        CoreError,
    >) where C: Fn(&ScriptSource) -> Result<M, String>, L: Fn(&M, &str) -> HookLookup<H>
        requires
            compile.requires((source,)),
            forall|module: M|
                compile.ensures((source,), Ok::<M, String>(module)) ==> may_look_up(
                    *lookup,
                    &module,
                ),
        ensures
            unit_outcome(*source, *compile, *lookup, loaded),
    {
        let module = match compile(source) {
            Ok(module) => module,
            Err(reason) => {
                return Err(
                    CoreError::ScriptLoadError { unit: source.module_name.clone(), reason },
                );
            },
        };
        assert(may_look_up(*lookup, &module));
        let begin = lookup(&module, "on_frame_begin");
        let ghost begin_answer = begin;
        assert(hook_resolved(*lookup, &module, "on_frame_begin"@, begin_answer));
        let on_frame_begin = match resolve_hook(begin, source.module_name.as_str()) {
            Ok(resolved) => resolved,
            Err(error) => {
                assert(assembled(source.module_name@, begin_answer, begin_answer, Err(error)));
                return Err(error);
            },
        };
        let update = lookup(&module, "on_update");
        let ghost update_answer = update;
        assert(hook_resolved(*lookup, &module, "on_update"@, update_answer));
        let on_update = match resolve_hook(update, source.module_name.as_str()) {
            Ok(resolved) => resolved,
            Err(error) => {
                assert(assembled(source.module_name@, begin_answer, update_answer, Err(error)));
                return Err(error);
            },
        };
        let hooks = ScriptHooks {
            module_name: source.module_name.clone(),
            on_frame_begin,
            on_update,
        };
        assert(assembled(source.module_name@, begin_answer, update_answer, Ok(hooks)));
        Ok(hooks)
    }

    /// Loads the units of `sources` in the order given.
    ///
    /// Each source is compiled with `compile` and its module asked through
    /// `lookup` for the callbacks "on_frame_begin" and "on_update"; a unit
    /// need not define either. The first unit that fails to compile, or whose
    /// lookup fails for another reason than a missing callback, ends the load
    /// with a `ScriptLoadError` naming it: sources after it are not touched
    /// and no host is made, so `compile` has to be callable only on sources
    /// that stand behind sources which can all load. No sources at all give
    /// a host without units.
    pub fn new<M, C, L>(sources: Vec<ScriptSource>, compile: C, lookup: L) -> (loaded: Result<
        Self,
        CoreError,
    >) where C: Fn(&ScriptSource) -> Result<M, String>, L: Fn(&M, &str) -> HookLookup<H>
        requires
            forall|i: int|
                0 <= i < sources@.len() && all_can_load(sources@, i, compile, lookup)
                    ==> #[trigger] compile.requires((&sources@[i],)),
            forall|i: int, module: M|
                0 <= i < sources@.len() && #[trigger] compile.ensures(
                    (&sources@[i],),
                    Ok::<M, String>(module),
                ) ==> may_look_up(lookup, &module),
        ensures
            Self::load_outcome(sources@, compile, lookup, loaded),
    {
        let mut scripts: Vec<ScriptHooks<H>> = Vec::new();
        let mut i: usize = 0;
        while i < sources.len()
            invariant
                i <= sources@.len(),
                scripts@.len() == i,
                forall|j: int|
                    0 <= j < i ==> unit_outcome(
                        sources@[j],
                        compile,
                        lookup,
                        Ok(#[trigger] scripts@[j]),
                    ),
                forall|j: int|
                    0 <= j < sources@.len() && all_can_load(sources@, j, compile, lookup)
                        ==> #[trigger] compile.requires((&sources@[j],)),
                forall|j: int, module: M|
                    0 <= j < sources@.len() && #[trigger] compile.ensures(
                        (&sources@[j],),
                        Ok::<M, String>(module),
                    ) ==> may_look_up(lookup, &module),
            decreases sources@.len() - i,
        {
            assert(all_can_load(sources@, i as int, compile, lookup)) by {
                assert forall|j: int| 0 <= j < i implies can_load(
                    #[trigger] sources@[j],
                    compile,
                    lookup,
                ) by {
                    assert(unit_outcome(sources@[j], compile, lookup, Ok(scripts@[j])));
                }
            }
            match Self::load_unit(&sources[i], &compile, &lookup) {
                Ok(hooks) => {
                    scripts.push(hooks);
                },
                Err(error) => {
                    assert(Self::load_failed_after(sources@, scripts@, compile, lookup, error));
                    return Err(error);
                },
            }
            i += 1;
        }
        Ok(ScriptHost { scripts })
    }
}

/// A frame-begin callback that cannot come back without an error ends the
/// round: the round fails, the error names a subscriber at or before that
/// unit (that unit itself where no unit before it subscribes), and no unit
/// behind it is ever reached.
pub proof fn lemma_frame_begin_round_stops_at_failure<H, I>(
    units: Seq<ScriptHooks<H>>,
    invoke: I,
    failing: int,
    outcome: Result<(), CoreError>,
) where I: Fn(&H) -> Result<(), String>
    requires
        0 <= failing < units.len(),
        units[failing].on_frame_begin is Some,
        forall|answer: Result<(), String>|
            invoke.ensures((&units[failing].on_frame_begin->0,), answer) ==> answer is Err,
        frame_begin_round(units, invoke, outcome),
    ensures
        forall|later: int| failing < later ==> !frame_begin_passed(units, later, invoke),
        outcome matches Err(error) && exists|k: int|
            0 <= k <= failing && #[trigger] frame_begin_failed_at(units, k, invoke, error),
        (forall|j: int| 0 <= j < failing ==> (#[trigger] units[j]).on_frame_begin is None)
            ==> (outcome matches Err(CoreError::ScriptHookError { unit, .. }) && unit@
            == units[failing].module_name@),
{
    assert forall|later: int| failing < later implies !frame_begin_passed(
        units,
        later,
        invoke,
    ) by {
        if frame_begin_passed(units, later, invoke) {
            assert(units[failing].on_frame_begin is Some);
            assert(invoke.ensures((&units[failing].on_frame_begin->0,), Ok::<(), String>(())));
        }
    }
    match outcome {
        Ok(_) => {
            assert(!frame_begin_passed(units, units.len() as int, invoke));
        },
        Err(error) => {
            let k = choose|k: int| #[trigger] frame_begin_failed_at(units, k, invoke, error);
            assert(k <= failing);
            if forall|j: int| 0 <= j < failing ==> (#[trigger] units[j]).on_frame_begin is None {
                assert(k == failing);
            }
        },
    }
}

/// An update callback that cannot come back without an error ends the round:
/// the round fails, the error names a subscriber at or before that unit (that
/// unit itself where no unit before it subscribes), and no unit behind it is
/// ever reached.
pub proof fn lemma_update_round_stops_at_failure<H, T, I>(
    units: Seq<ScriptHooks<H>>,
    delta: T,
    invoke: I,
    failing: int,
    outcome: Result<(), CoreError>,
) where I: Fn(&H, T) -> Result<(), String>
    requires
        0 <= failing < units.len(),
        units[failing].on_update is Some,
        forall|answer: Result<(), String>|
            invoke.ensures((&units[failing].on_update->0, delta), answer) ==> answer is Err,
        update_round(units, delta, invoke, outcome),
    ensures
        forall|later: int| failing < later ==> !update_passed(units, later, delta, invoke),
        outcome matches Err(error) && exists|k: int|
            0 <= k <= failing && #[trigger] update_failed_at(units, k, delta, invoke, error),
        (forall|j: int| 0 <= j < failing ==> (#[trigger] units[j]).on_update is None)
            ==> (outcome matches Err(CoreError::ScriptHookError { unit, .. }) && unit@
            == units[failing].module_name@),
{
    assert forall|later: int| failing < later implies !update_passed(
        units,
        later,
        delta,
        invoke,
    ) by {
        if update_passed(units, later, delta, invoke) {
            assert(units[failing].on_update is Some);
            assert(invoke.ensures((&units[failing].on_update->0, delta), Ok::<(), String>(())));
        }
    }
    match outcome {
        Ok(_) => {
            assert(!update_passed(units, units.len() as int, delta, invoke));
        },
        Err(error) => {
            let k = choose|k: int| #[trigger] update_failed_at(units, k, delta, invoke, error);
            assert(k <= failing);
            if forall|j: int| 0 <= j < failing ==> (#[trigger] units[j]).on_update is None {
                assert(k == failing);
            }
        },
    }
}

/// Whether `error` is a hook error that carries the name of a unit of `units`
/// which subscribes to frame begin.
pub open spec fn blames_frame_begin_subscriber<H>(
    units: Seq<ScriptHooks<H>>,
    error: CoreError,
) -> bool {
    exists|k: int|
        0 <= k < units.len() && (#[trigger] units[k]).on_frame_begin is Some && (error matches CoreError::ScriptHookError {
            unit,
            ..
        } && unit@ == units[k].module_name@)
}

/// Whether `error` is a hook error that carries the name of a unit of `units`
/// which subscribes to updates.
pub open spec fn blames_update_subscriber<H>(units: Seq<ScriptHooks<H>>, error: CoreError) -> bool {
    exists|k: int|
        0 <= k < units.len() && (#[trigger] units[k]).on_update is Some && (error matches CoreError::ScriptHookError {
            unit,
            ..
        } && unit@ == units[k].module_name@)
}

/// Whether `error` is a load error that carries the name of one of `sources`.
pub open spec fn blames_source(sources: Seq<ScriptSource>, error: CoreError) -> bool {
    exists|k: int|
        0 <= k < sources.len() && (error matches CoreError::ScriptLoadError { unit, .. } && unit@
            == (#[trigger] sources[k]).module_name@)
}

/// Whatever the callbacks do, a frame-begin round that fails blames a unit
/// that subscribes to frame begin.
pub proof fn lemma_frame_begin_round_blames_subscriber<H, I>(
    units: Seq<ScriptHooks<H>>,
    invoke: I,
    outcome: Result<(), CoreError>,
) where I: Fn(&H) -> Result<(), String>
    requires
        frame_begin_round(units, invoke, outcome),
    ensures
        outcome matches Err(error) ==> blames_frame_begin_subscriber(units, error),
{
    if let Err(error) = outcome {
        let k = choose|k: int| #[trigger] frame_begin_failed_at(units, k, invoke, error);
        assert(units[k].on_frame_begin is Some);
    }
}

/// Whatever the callbacks do, an update round that fails blames a unit that
/// subscribes to updates.
pub proof fn lemma_update_round_blames_subscriber<H, T, I>(
    units: Seq<ScriptHooks<H>>,
    delta: T,
    invoke: I,
    outcome: Result<(), CoreError>,
) where I: Fn(&H, T) -> Result<(), String>
    requires
        update_round(units, delta, invoke, outcome),
    ensures
        outcome matches Err(error) ==> blames_update_subscriber(units, error),
{
    if let Err(error) = outcome {
        let k = choose|k: int| #[trigger] update_failed_at(units, k, delta, invoke, error);
        assert(units[k].on_update is Some);
    }
}

/// Whatever compiling and looking up do, a unit that loads carries the name of
/// its source, and a unit that does not load fails with a load error that
/// carries that name.
pub proof fn lemma_unit_outcome_names_source<M, H, C, L>(
    source: ScriptSource,
    compile: C,
    lookup: L,
    loaded: Result<ScriptHooks<H>, CoreError>,
) where C: Fn(&ScriptSource) -> Result<M, String>, L: Fn(&M, &str) -> HookLookup<H>
    requires
        unit_outcome(source, compile, lookup, loaded),
    ensures
        match loaded {
            Ok(hooks) => hooks.module_name@ == source.module_name@,
            Err(error) => error matches CoreError::ScriptLoadError { unit, .. } && unit@
                == source.module_name@,
        },
{
}

} // verus!
