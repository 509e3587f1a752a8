//! What holds of whole launches: the order in which the actions come, where a
//! launch ends, and what can no longer happen once a step has failed.

use crate::abi::{PyPreConfig, PyStatusView, Symbol};
use crate::error::ErrorView;
use crate::launcher::{spec_first_action, spec_no_user_site, spec_step, StageView};
use crate::protocol::{ActionView, EventView, LaunchRequestView};
use crate::wide::{spec_all_representable, spec_payload, spec_representable};
use vstd::prelude::*;

verus! {

/// How far a launch has come: every step leads to a stage further on.
pub open spec fn spec_progress(stage: StageView) -> nat {
    match stage {
        StageView::OpeningLibrary => 0,
        StageView::SettingEnvironment => 1,
        StageView::BindingInitConfig => 2,
        StageView::InitializingConfig => 3,
        StageView::BindingPreInitialize(_) => 4,
        StageView::PreInitializing => 5,
        StageView::BindingStatusException(_) => 6,
        StageView::BindingExitStatusException(_) => 7,
        StageView::CheckingStatus(_) => 8,
        StageView::BindingSetPythonHome => 9,
        StageView::SettingHome => 10,
        StageView::CheckingExecutable => 11,
        StageView::BindingSetProgramName => 12,
        StageView::SettingProgramName => 13,
        StageView::BindingInitialize => 14,
        StageView::Initializing => 15,
        StageView::BindingMain => 16,
        StageView::Running => 17,
        StageView::ExitingOnStatus => 18,
        StageView::Finished => 18,
    }
}

/// The actions that the launcher hands out, one per event, when the events
/// from index `at` on come in while it is in `stage`. The first event that is
/// no answer to the pending action ends the sequence.
pub open spec fn spec_actions_from(
    request: LaunchRequestView,
    stage: StageView,
    events: Seq<EventView>,
    at: int,
) -> Seq<ActionView>
    decreases events.len() - at,
{
    if at < 0 || at >= events.len() || !stage.answered_by(events[at]) {
        Seq::empty()
    } else {
        let next = spec_step(request, stage, events[at]);
        seq![next.1] + spec_actions_from(request, next.0, events, at + 1)
    }
}

/// All actions of a launch that is answered by `events`: the opening action,
/// then one action per event.
pub open spec fn spec_launch_actions(request: LaunchRequestView, events: Seq<EventView>) -> Seq<
    ActionView,
> {
    seq![spec_first_action(request)] + spec_actions_from(
        request,
        StageView::OpeningLibrary,
        events,
        0,
    )
}

/// Whether an action registers the program name, or is a step that only
/// comes after that: looking the registration up, initialising, running.
pub open spec fn spec_at_or_after_registration(action: ActionView) -> bool {
    ||| action is SetProgramName
    ||| action == ActionView::Bind(Symbol::SetProgramName)
    ||| action == ActionView::Bind(Symbol::Initialize)
    ||| action is Initialize
    ||| action == ActionView::Bind(Symbol::Main)
    ||| action is RunMain
}

/// The events of a launch in which every step succeeds.
pub open spec fn spec_smooth_events(config: PyPreConfig, status: PyStatusView, code: i32) -> Seq<
    EventView,
> {
    seq![
        EventView::LibraryOpened,
        EventView::Completed,
        EventView::SymbolBound,
        EventView::PreConfig(config),
        EventView::SymbolBound,
        EventView::Status(status),
        EventView::SymbolBound,
        EventView::SymbolBound,
        EventView::StatusException(0),
        EventView::SymbolBound,
        EventView::Completed,
        EventView::ExecutableChecked(true),
        EventView::SymbolBound,
        EventView::Completed,
        EventView::SymbolBound,
        EventView::Completed,
        EventView::SymbolBound,
        EventView::MainReturned(code),
    ]
}

/// The actions of a launch in which every step succeeds.
pub open spec fn spec_smooth_actions(
    request: LaunchRequestView,
    config: PyPreConfig,
    status: PyStatusView,
    code: i32,
) -> Seq<ActionView> {
    seq![
        spec_first_action(request),
        ActionView::SetEnvironment { name: spec_no_user_site(), value: "1"@ },
        ActionView::Bind(Symbol::PreConfigInitPythonConfig),
        ActionView::InitPreConfig,
        ActionView::Bind(Symbol::PreInitialize),
        ActionView::PreInitialize(config.spec_force_utf8()),
        ActionView::Bind(Symbol::StatusException),
        ActionView::Bind(Symbol::ExitStatusException),
        ActionView::CheckStatus(status),
        ActionView::Bind(Symbol::SetPythonHome),
        ActionView::SetPythonHome(spec_payload(request.python_home)),
        ActionView::CheckExecutable(request.sys_executable.text),
        ActionView::Bind(Symbol::SetProgramName),
        ActionView::SetProgramName(spec_payload(request.sys_executable.text)),
        ActionView::Bind(Symbol::Initialize),
        ActionView::Initialize,
        ActionView::Bind(Symbol::Main),
        ActionView::RunMain(request.args.map_values(|t| spec_payload(t))),
        ActionView::Finish(Ok(code)),
    ]
}

/// Every step takes the launch further: no stage is entered twice.
pub proof fn lemma_step_advances(request: LaunchRequestView, stage: StageView, event: EventView)
    requires
        stage.answered_by(event),
    ensures
        spec_progress(spec_step(request, stage, event).0) > spec_progress(stage),
{
}

/// A launch that is over hands out nothing more, whatever is reported to it.
pub proof fn lemma_over_is_final(
    request: LaunchRequestView,
    stage: StageView,
    events: Seq<EventView>,
    at: int,
)
    requires
        stage.is_over(),
    ensures
        spec_actions_from(request, stage, events, at) == Seq::<ActionView>::empty(),
{
}

/// An action that ends the launch is the last one: the launcher is over
/// exactly after finishing, after handing a status to the exit handler, and
/// after meeting text it cannot hand over.
pub proof fn lemma_ends_with_closing_action(
    request: LaunchRequestView,
    stage: StageView,
    event: EventView,
)
    requires
        stage.answered_by(event),
    ensures
        spec_step(request, stage, event).0.is_over() <==> ({
            let action = spec_step(request, stage, event).1;
            action is Finish || action is ExitOnStatus || action is Unrepresentable
        }),
{
}

/// One action answers each event, and a launch needs at most eighteen
/// answers from where it opens the library.
pub proof fn lemma_launch_is_bounded(
    request: LaunchRequestView,
    stage: StageView,
    events: Seq<EventView>,
    at: int,
)
    requires
        0 <= at,
    ensures
        spec_actions_from(request, stage, events, at).len() <= 18 - spec_progress(stage),
        at + spec_actions_from(request, stage, events, at).len() <= events.len() || at
            > events.len(),
    decreases events.len() - at,
{
    if at < events.len() && stage.answered_by(events[at]) {
        let next = spec_step(request, stage, events[at]);
        lemma_step_advances(request, stage, events[at]);
        lemma_launch_is_bounded(request, next.0, events, at + 1);
    }
}

/// When the library cannot be opened, the launch ends there with a loading
/// error that carries the loader's diagnostic, cause by cause. Nothing is
/// looked up, nothing is registered, nothing is run.
pub proof fn lemma_load_failure_ends_launch(
    request: LaunchRequestView,
    events: Seq<EventView>,
    diagnostic: Seq<Seq<char>>,
)
    requires
        events.len() > 0,
        events[0] == EventView::LibraryFailed(diagnostic),
    ensures
        spec_launch_actions(request, events) == seq![
            spec_first_action(request),
            ActionView::Finish(Err(ErrorView::LibLoading(diagnostic))),
        ],
{
    let next = spec_step(request, StageView::OpeningLibrary, events[0]);
    lemma_over_is_final(request, next.0, events, 1);
    assert(spec_launch_actions(request, events) =~= seq![
        spec_first_action(request),
        ActionView::Finish(Err(ErrorView::LibLoading(diagnostic))),
    ]);
}

/// When an entry point is missing, the launch ends there with the error for
/// a missing symbol, naming the entry point that was looked up and carrying
/// the loader's diagnostic, cause by cause.
pub proof fn lemma_missing_symbol_ends_launch(
    request: LaunchRequestView,
    stage: StageView,
    events: Seq<EventView>,
    at: int,
    diagnostic: Seq<Seq<char>>,
)
    requires
        stage.binding() is Some,
        0 <= at < events.len(),
        events[at] == EventView::SymbolMissing(diagnostic),
    ensures
        spec_actions_from(request, stage, events, at) == seq![
            ActionView::Finish(
                Err(ErrorView::MissingSymbol(stage.binding().unwrap(), diagnostic)),
            ),
        ],
{
    let next = spec_step(request, stage, events[at]);
    lemma_over_is_final(request, next.0, events, at + 1);
    assert(spec_actions_from(request, stage, events, at) =~= seq![
        ActionView::Finish(Err(ErrorView::MissingSymbol(stage.binding().unwrap(), diagnostic))),
    ]);
}

/// A loading error and a missing symbol are never taken for one another: the
/// launcher reports a loading error exactly when the library failed to open,
/// and a missing symbol exactly when a lookup failed.
pub proof fn lemma_errors_tell_apart(request: LaunchRequestView, stage: StageView, event: EventView)
    requires
        stage.answered_by(event),
    ensures
        (spec_step(request, stage, event).1 matches ActionView::Finish(Err(e)) && e is LibLoading)
            <==> event is LibraryFailed,
        (spec_step(request, stage, event).1 matches ActionView::Finish(Err(e))
            && e is MissingSymbol) <==> event is SymbolMissing,
{
}

/// The status entry points are looked up only once the interpreter has been
/// pre-initialised: the first of them is asked for exactly in answer to the
/// status that pre-initialisation returned, and pre-initialisation itself
/// exactly when its own entry point was found.
pub proof fn lemma_status_lookups_follow_preinitialisation(
    request: LaunchRequestView,
    stage: StageView,
    event: EventView,
)
    requires
        stage.answered_by(event),
    ensures
        spec_step(request, stage, event).1 == ActionView::Bind(Symbol::StatusException)
            <==> event is Status,
        event is Status <==> stage is PreInitializing,
        spec_step(request, stage, event).1 is PreInitialize <==> stage is BindingPreInitialize
            && event is SymbolBound,
        spec_step(request, stage, event).1 == ActionView::Bind(Symbol::ExitStatusException)
            <==> stage is BindingStatusException && event is SymbolBound,
{
}

/// The events of a launch up to the status that pre-initialisation returns.
pub open spec fn spec_events_to_status(config: PyPreConfig, status: PyStatusView) -> Seq<
    EventView,
> {
    seq![
        EventView::LibraryOpened,
        EventView::Completed,
        EventView::SymbolBound,
        EventView::PreConfig(config),
        EventView::SymbolBound,
        EventView::Status(status),
    ]
}

/// The actions of a launch up to the first lookup after pre-initialisation.
pub open spec fn spec_actions_to_status(request: LaunchRequestView, config: PyPreConfig) -> Seq<
    ActionView,
> {
    seq![
        spec_first_action(request),
        ActionView::SetEnvironment { name: spec_no_user_site(), value: "1"@ },
        ActionView::Bind(Symbol::PreConfigInitPythonConfig),
        ActionView::InitPreConfig,
        ActionView::Bind(Symbol::PreInitialize),
        ActionView::PreInitialize(config.spec_force_utf8()),
        ActionView::Bind(Symbol::StatusException),
    ]
}

/// When the entry point that tells an exception from a success is missing,
/// the launch ends with the error for that missing symbol, and by then the
/// interpreter has been pre-initialised once, from the default record in
/// UTF-8 mode.
pub proof fn lemma_missing_status_check_comes_after_preinitialisation(
    request: LaunchRequestView,
    config: PyPreConfig,
    status: PyStatusView,
    diagnostic: Seq<Seq<char>>,
)
    ensures
        spec_launch_actions(
            request,
            spec_events_to_status(config, status).push(EventView::SymbolMissing(diagnostic)),
        ) == spec_actions_to_status(request, config).push(
            ActionView::Finish(Err(ErrorView::MissingSymbol(Symbol::StatusException, diagnostic))),
        ),
{
    reveal_with_fuel(spec_actions_from, 9);
    let events = spec_events_to_status(config, status).push(EventView::SymbolMissing(diagnostic));
    assert(events.len() == 7);
    assert(spec_launch_actions(request, events) =~= spec_actions_to_status(request, config).push(
        ActionView::Finish(Err(ErrorView::MissingSymbol(Symbol::StatusException, diagnostic))),
    ));
}

/// When the exit handler's entry point is missing, the launch ends with the
/// error for that missing symbol, and by then the interpreter has been
/// pre-initialised once, from the default record in UTF-8 mode.
pub proof fn lemma_missing_exit_handler_comes_after_preinitialisation(
    request: LaunchRequestView,
    config: PyPreConfig,
    status: PyStatusView,
    diagnostic: Seq<Seq<char>>,
)
    ensures
        spec_launch_actions(
            request,
            spec_events_to_status(config, status).push(EventView::SymbolBound).push(
                EventView::SymbolMissing(diagnostic),
            ),
        ) == spec_actions_to_status(request, config).push(
            ActionView::Bind(Symbol::ExitStatusException),
        ).push(
            ActionView::Finish(
                Err(ErrorView::MissingSymbol(Symbol::ExitStatusException, diagnostic)),
            ),
        ),
{
    reveal_with_fuel(spec_actions_from, 10);
    let events = spec_events_to_status(config, status).push(EventView::SymbolBound).push(
        EventView::SymbolMissing(diagnostic),
    );
    assert(events.len() == 8);
    assert(spec_launch_actions(request, events) =~= spec_actions_to_status(request, config).push(
        ActionView::Bind(Symbol::ExitStatusException),
    ).push(
        ActionView::Finish(Err(ErrorView::MissingSymbol(Symbol::ExitStatusException, diagnostic))),
    ));
}

/// Past the check of the program's path, no answer to such a check is
/// waited for any more.
proof fn lemma_no_check_later(
    request: LaunchRequestView,
    stage: StageView,
    events: Seq<EventView>,
    at: int,
    k: int,
)
    requires
        spec_progress(stage) > 11,
        0 <= at <= k,
        k - at < spec_actions_from(request, stage, events, at).len(),
    ensures
        !(events[k] is ExecutableChecked),
    decreases events.len() - at,
{
    let next = spec_step(request, stage, events[at]);
    lemma_step_advances(request, stage, events[at]);
    if at < k {
        lemma_no_check_later(request, next.0, events, at + 1, k);
    }
}

/// How a launch goes on from `stage`, at or before the check of the
/// program's path, when the `k`-th event reports that no file is there.
proof fn lemma_missing_executable_from(
    request: LaunchRequestView,
    stage: StageView,
    events: Seq<EventView>,
    at: int,
    k: int,
)
    requires
        spec_progress(stage) <= 11,
        0 <= at <= k,
        k - at < spec_actions_from(request, stage, events, at).len(),
        events[k] == EventView::ExecutableChecked(false),
    ensures
        spec_actions_from(request, stage, events, at).len() == k - at + 1,
        spec_actions_from(request, stage, events, at)[k - at] == ActionView::Finish(
            Err(ErrorView::NoSuchExecutable(request.sys_executable.text)),
        ),
        forall|i: int|
            0 <= i <= k - at ==> !spec_at_or_after_registration(
                #[trigger] spec_actions_from(request, stage, events, at)[i],
            ),
    decreases events.len() - at,
{
    let next = spec_step(request, stage, events[at]);
    let rest = spec_actions_from(request, next.0, events, at + 1);
    assert(spec_actions_from(request, stage, events, at) =~= seq![next.1] + rest);
    lemma_step_advances(request, stage, events[at]);
    if at == k {
        lemma_over_is_final(request, next.0, events, at + 1);
    } else {
        if spec_progress(next.0) > 11 {
            lemma_no_check_later(request, next.0, events, at + 1, k);
        } else {
            lemma_missing_executable_from(request, next.0, events, at + 1, k);
            assert forall|i: int| 0 <= i <= k - at implies !spec_at_or_after_registration(
                #[trigger] spec_actions_from(request, stage, events, at)[i],
            ) by {
                if i > 0 {
                    assert(spec_actions_from(request, stage, events, at)[i] == rest[i - 1]);
                }
            }
        }
    }
}

/// The program's path is checked before it is registered. When the check,
/// answered by the `k`-th event, finds no file, the launch ends with the
/// error for a missing executable, which names exactly that path; and in the
/// whole launch the program name has not been registered nor its registration
/// looked up, and the interpreter has not been initialised or run.
pub proof fn lemma_missing_executable_is_never_registered(
    request: LaunchRequestView,
    events: Seq<EventView>,
    k: int,
)
    requires
        0 <= k,
        k + 1 < spec_launch_actions(request, events).len(),
        events[k] == EventView::ExecutableChecked(false),
    ensures
        spec_launch_actions(request, events).len() == k + 2,
        spec_launch_actions(request, events)[k + 1] == ActionView::Finish(
            Err(ErrorView::NoSuchExecutable(request.sys_executable.text)),
        ),
        forall|i: int|
            0 <= i <= k + 1 ==> !spec_at_or_after_registration(
                #[trigger] spec_launch_actions(request, events)[i],
            ),
{
    let tail = spec_actions_from(request, StageView::OpeningLibrary, events, 0);
    lemma_missing_executable_from(request, StageView::OpeningLibrary, events, 0, k);
    assert forall|i: int| 0 <= i <= k + 1 implies !spec_at_or_after_registration(
        #[trigger] spec_launch_actions(request, events)[i],
    ) by {
        if i > 0 {
            assert(spec_launch_actions(request, events)[i] == tail[i - 1]);
        }
    }
}

/// The environment is set before anything is asked of the interpreter: the
/// first action of every launch opens the library, and in every launch whose
/// library was opened the second action sets the variable that keeps the
/// user's site directory out. Every other action comes after these two.
pub proof fn lemma_environment_comes_first(request: LaunchRequestView, events: Seq<EventView>)
    ensures
        spec_launch_actions(request, events).len() >= 1,
        spec_launch_actions(request, events)[0] == spec_first_action(request),
        events.len() > 0 && events[0] is LibraryOpened ==> {
            &&& spec_launch_actions(request, events).len() >= 2
            &&& spec_launch_actions(request, events)[1] == (ActionView::SetEnvironment {
                name: spec_no_user_site(),
                value: "1"@,
            })
        },
{
}

/// Whether the record that a stage keeps for pre-initialisation, if it keeps
/// one, has UTF-8 mode switched on.
pub open spec fn spec_keeps_utf8(stage: StageView) -> bool {
    match stage {
        StageView::BindingPreInitialize(c) => c.utf8_mode == 1,
        _ => true,
    }
}

/// Whether an action, if it pre-initialises the interpreter, does so from a
/// record that has UTF-8 mode switched on.
pub open spec fn spec_in_utf8_mode(action: ActionView) -> bool {
    action matches ActionView::PreInitialize(config) ==> config.utf8_mode == 1
}

/// From a stage whose record has UTF-8 mode on, the interpreter is only ever
/// pre-initialised from a record that has it on.
pub proof fn lemma_utf8_is_forced_from(
    request: LaunchRequestView,
    stage: StageView,
    events: Seq<EventView>,
    at: int,
)
    requires
        0 <= at,
        spec_keeps_utf8(stage),
    ensures
        forall|i: int|
            0 <= i < spec_actions_from(request, stage, events, at).len() ==> spec_in_utf8_mode(
                #[trigger] spec_actions_from(request, stage, events, at)[i],
            ),
    decreases events.len() - at,
{
    if at < events.len() && stage.answered_by(events[at]) {
        let next = spec_step(request, stage, events[at]);
        let rest = spec_actions_from(request, next.0, events, at + 1);
        lemma_utf8_is_forced_from(request, next.0, events, at + 1);
        assert forall|i: int|
            0 <= i < spec_actions_from(request, stage, events, at).len() implies spec_in_utf8_mode(
            #[trigger] spec_actions_from(request, stage, events, at)[i],
        ) by {
            if i > 0 {
                assert(spec_actions_from(request, stage, events, at)[i] == rest[i - 1]);
            }
        }
    }
}

/// Whatever the record the interpreter offers, it is pre-initialised in
/// UTF-8 mode.
pub proof fn lemma_utf8_is_forced(request: LaunchRequestView, events: Seq<EventView>)
    ensures
        forall|i: int|
            0 <= i < spec_launch_actions(request, events).len() ==> spec_in_utf8_mode(
                #[trigger] spec_launch_actions(request, events)[i],
            ),
{
    let tail = spec_actions_from(request, StageView::OpeningLibrary, events, 0);
    lemma_utf8_is_forced_from(request, StageView::OpeningLibrary, events, 0);
    assert forall|i: int|
        0 <= i < spec_launch_actions(request, events).len() implies spec_in_utf8_mode(
        #[trigger] spec_launch_actions(request, events)[i],
    ) by {
        if i > 0 {
            assert(spec_launch_actions(request, events)[i] == tail[i - 1]);
        }
    }
}

/// A launch in which every step succeeds goes through the whole sequence in
/// its fixed order: open, set the environment, pre-initialise in UTF-8 mode,
/// register home and program, initialise, run. It finishes with the very
/// code that the interpreter's command line returned.
pub proof fn lemma_smooth_launch(
    request: LaunchRequestView,
    config: PyPreConfig,
    status: PyStatusView,
    code: i32,
)
    requires
        request.sys_executable.exact,
        spec_representable(request.python_home),
        spec_representable(request.sys_executable.text),
        spec_all_representable(request.args),
    ensures
        spec_launch_actions(request, spec_smooth_events(config, status, code))
            == spec_smooth_actions(request, config, status, code),
{
    let events = spec_smooth_events(config, status, code);
    reveal_with_fuel(spec_actions_from, 20);
    assert(spec_launch_actions(request, events) =~= spec_smooth_actions(
        request,
        config,
        status,
        code,
    ));
}

} // verus!
