//! What holds of whole runs: the order of the tasks, where a run ends, and
//! what is never done once a step has failed.

use crate::args::spec_final_arguments;
use crate::error::ErrorView;
use crate::orchestrator::{
    spec_begin, spec_step, spec_without_program, OrchestratorView, Phase, ReportView, TaskView,
    DEFAULT_PYTHON_MAJOR, DEFAULT_PYTHON_MINOR,
};
use crate::protocol::{LaunchRequestView, PathTextView};
use crate::resolver::Platform;
use crate::rewrite::formatted_module;
use vstd::prelude::*;

verus! {

/// How far a run has come: every step leads to a phase further on.
pub open spec fn spec_progress(phase: Phase) -> nat {
    match phase {
        Phase::FindingCacheDir => 0,
        Phase::DeterminingVersion => 1,
        Phase::Provisioning => 2,
        Phase::ExtractingScript => 3,
        Phase::ReadingScript => 4,
        Phase::CreatingTempFile => 5,
        Phase::WritingTempFile => 6,
        Phase::Launching => 7,
        Phase::Done => 8,
    }
}

/// The tasks that the orchestrator hands out, one per report, when the
/// reports from index `at` on come in. The first report that is no answer to
/// the pending task ends the sequence.
pub open spec fn spec_tasks_from(run: OrchestratorView, reports: Seq<ReportView>, at: int) -> Seq<
    TaskView,
>
    decreases reports.len() - at,
{
    if at < 0 || at >= reports.len() || !run.phase.answered_by(reports[at]) {
        Seq::empty()
    } else {
        let next = spec_step(run, reports[at]);
        seq![next.1] + spec_tasks_from(next.0, reports, at + 1)
    }
}

/// All tasks of a run for the process arguments `args` that is answered by
/// `reports`: the opening task, then one task per report.
pub open spec fn spec_run_tasks(
    platform: Platform,
    args: Seq<Seq<char>>,
    reports: Seq<ReportView>,
) -> Seq<TaskView> {
    seq![TaskView::FindCacheDir] + spec_tasks_from(spec_begin(platform, args), reports, 0)
}

/// Whether a task touches the temporary file or launches the interpreter.
pub open spec fn spec_writes_or_launches(task: TaskView) -> bool {
    task is CreateTempFile || task is WriteTempFile || task is Launch
}

/// Every step takes the run further: no phase is entered twice.
pub proof fn lemma_step_advances(run: OrchestratorView, report: ReportView)
    requires
        run.phase.answered_by(report),
    ensures
        spec_progress(spec_step(run, report).0.phase) > spec_progress(run.phase),
{
}

/// A run is over exactly when it has handed out its exit, and then hands
/// out nothing more.
pub proof fn lemma_exit_is_final(run: OrchestratorView, reports: Seq<ReportView>, at: int)
    requires
        0 <= at < reports.len(),
        run.phase.answered_by(reports[at]),
    ensures
        spec_step(run, reports[at]).1 is Exit <==> spec_step(run, reports[at]).0.phase
            == Phase::Done,
        spec_step(run, reports[at]).1 is Exit ==> spec_tasks_from(run, reports, at) == seq![
            spec_step(run, reports[at]).1,
        ],
{
    let next = spec_step(run, reports[at]);
    if next.1 is Exit {
        assert(spec_tasks_from(next.0, reports, at + 1) =~= Seq::<TaskView>::empty());
        assert(spec_tasks_from(run, reports, at) =~= seq![next.1]);
    }
}

/// A run needs at most eight answers.
pub proof fn lemma_run_is_bounded(run: OrchestratorView, reports: Seq<ReportView>, at: int)
    requires
        0 <= at,
    ensures
        spec_tasks_from(run, reports, at).len() <= 8 - spec_progress(run.phase),
    decreases reports.len() - at,
{
    if at < reports.len() && run.phase.answered_by(reports[at]) {
        let next = spec_step(run, reports[at]);
        lemma_step_advances(run, reports[at]);
        lemma_run_is_bounded(next.0, reports, at + 1);
    }
}

/// Each failure that is reported ends the run with the error that belongs
/// to it, and with the failure exit code.
pub proof fn lemma_failures_end_run(run: OrchestratorView, report: ReportView)
    requires
        run.phase.answered_by(report),
    ensures
        report is CacheDirMissing ==> spec_step(run, report).1 == TaskView::Exit(
            Err(ErrorView::Io("System needs to have a cache dir"@, Seq::empty())),
        ),
        report matches ReportView::VersionFailed(causes) ==> spec_step(run, report).1
            == TaskView::Exit(Err(ErrorView::DeterminePythonVersion(causes))),
        report matches ReportView::ProvisionFailed(causes) ==> spec_step(run, report).1
            == TaskView::Exit(Err(ErrorView::ProvisionPython(causes))),
        report is ScriptAbsent ==> spec_step(run, report).1 == TaskView::Exit(
            Err(ErrorView::MissingScript),
        ),
        report matches ReportView::ArgumentsRejected(message) ==> spec_step(run, report).1
            == TaskView::Exit(Err(ErrorView::CpythonArgs(message))),
        report matches ReportView::IoFailed { message, causes } ==> spec_step(run, report).1
            == TaskView::Exit(Err(ErrorView::Io(message, causes))),
        report matches ReportView::SourceRead(text) ==> (formatted_module(text) matches Err(
            causes,
        ) ==> spec_step(run, report).1 == TaskView::Exit(Err(ErrorView::FormatModule(causes)))),
{
}

/// What the launch comes to is what the run comes to: the interpreter's code
/// is the exit code, and a failed launch leaves with the failure code.
pub proof fn lemma_launch_outcome_is_exit(run: OrchestratorView, outcome: Result<i32, ErrorView>)
    requires
        run.phase == Phase::Launching,
    ensures
        spec_step(run, ReportView::Launched(outcome)).1 == TaskView::Exit(outcome),
        spec_step(run, ReportView::Launched(outcome)).0.phase == Phase::Done,
{
}

/// Up to the rewrite nothing is written and nothing is launched: when the
/// `k`-th report names no script, rejects the arguments, fails to read the
/// script, or brings text that is no valid Python, the run ends there, and
/// no task of the whole run has touched a temporary file or launched the
/// interpreter.
pub proof fn lemma_nothing_written_before_rewrite(
    run: OrchestratorView,
    reports: Seq<ReportView>,
    at: int,
    k: int,
)
    requires
        spec_progress(run.phase) <= 4,
        0 <= at <= k,
        k - at < spec_tasks_from(run, reports, at).len(),
        ({
            ||| reports[k] is ScriptAbsent
            ||| reports[k] is ArgumentsRejected
            ||| reports[k] is VersionFailed
            ||| reports[k] is ProvisionFailed
            ||| reports[k] is CacheDirMissing
            ||| (reports[k] matches ReportView::SourceRead(text) && formatted_module(text) is Err)
        }),
    ensures
        spec_tasks_from(run, reports, at).len() == k - at + 1,
        spec_tasks_from(run, reports, at)[k - at] is Exit,
        forall|i: int|
            0 <= i <= k - at ==> !spec_writes_or_launches(
                #[trigger] spec_tasks_from(run, reports, at)[i],
            ),
    decreases reports.len() - at,
{
    let next = spec_step(run, reports[at]);
    let rest = spec_tasks_from(next.0, reports, at + 1);
    assert(spec_tasks_from(run, reports, at) =~= seq![next.1] + rest);
    lemma_step_advances(run, reports[at]);
    if at == k {
        lemma_exit_is_final(run, reports, at);
    } else {
        if spec_progress(next.0.phase) > 4 {
            lemma_no_early_report_later(next.0, reports, at + 1, k);
        } else {
            lemma_nothing_written_before_rewrite(next.0, reports, at + 1, k);
            assert forall|i: int| 0 <= i <= k - at implies !spec_writes_or_launches(
                #[trigger] spec_tasks_from(run, reports, at)[i],
            ) by {
                if i > 0 {
                    assert(spec_tasks_from(run, reports, at)[i] == rest[i - 1]);
                }
            }
        }
    }
}

/// Past the reading of the script, no report of the earlier phases is
/// waited for any more.
proof fn lemma_no_early_report_later(
    run: OrchestratorView,
    reports: Seq<ReportView>,
    at: int,
    k: int,
)
    requires
        spec_progress(run.phase) > 4,
        0 <= at <= k,
        k - at < spec_tasks_from(run, reports, at).len(),
    ensures
        !(reports[k] is ScriptAbsent),
        !(reports[k] is ArgumentsRejected),
        !(reports[k] is VersionFailed),
        !(reports[k] is ProvisionFailed),
        !(reports[k] is CacheDirMissing),
        !(reports[k] is SourceRead),
    decreases reports.len() - at,
{
    let next = spec_step(run, reports[at]);
    lemma_step_advances(run, reports[at]);
    if at < k {
        lemma_no_early_report_later(next.0, reports, at + 1, k);
    }
}

/// A run that fails before anything is written leaves in that state: when
/// the `k`-th report names no script, rejects the arguments, fails to
/// determine the version or to provide the interpreter, finds no cache
/// directory, or brings text that is no valid Python, the run ends with that
/// report's error, and from its first task to its last it has created no
/// temporary file, written none, and launched nothing.
pub proof fn lemma_early_failure_writes_nothing(
    platform: Platform,
    args: Seq<Seq<char>>,
    reports: Seq<ReportView>,
    k: int,
)
    requires
        0 <= k,
        k + 1 < spec_run_tasks(platform, args, reports).len(),
        ({
            ||| reports[k] is ScriptAbsent
            ||| reports[k] is ArgumentsRejected
            ||| reports[k] is VersionFailed
            ||| reports[k] is ProvisionFailed
            ||| reports[k] is CacheDirMissing
            ||| (reports[k] matches ReportView::SourceRead(text) && formatted_module(text) is Err)
        }),
    ensures
        spec_run_tasks(platform, args, reports).len() == k + 2,
        spec_run_tasks(platform, args, reports)[k + 1] is Exit,
        forall|i: int|
            0 <= i <= k + 1 ==> !spec_writes_or_launches(
                #[trigger] spec_run_tasks(platform, args, reports)[i],
            ),
{
    let tail = spec_tasks_from(spec_begin(platform, args), reports, 0);
    lemma_nothing_written_before_rewrite(spec_begin(platform, args), reports, 0, k);
    assert forall|i: int| 0 <= i <= k + 1 implies !spec_writes_or_launches(
        #[trigger] spec_run_tasks(platform, args, reports)[i],
    ) by {
        if i > 0 {
            assert(spec_run_tasks(platform, args, reports)[i] == tail[i - 1]);
        }
    }
}

/// The reports of a run in which every step succeeds.
pub open spec fn spec_smooth_reports(
    args_after: Seq<Seq<char>>,
    major: nat,
    minor: nat,
    python_binary: Seq<char>,
    python_home: Seq<char>,
    script: Seq<char>,
    source: Seq<char>,
    temp_file: Seq<char>,
    code: i32,
) -> Seq<ReportView> {
    seq![
        ReportView::CacheDirFound,
        ReportView::VersionDetermined { args: args_after, major, minor },
        ReportView::Provisioned {
            python_binary: PathTextView { text: python_binary, exact: true },
            python_home,
        },
        ReportView::ScriptFound(script),
        ReportView::SourceRead(source),
        ReportView::TempFileCreated(PathTextView { text: temp_file, exact: true }),
        ReportView::Written,
        ReportView::Launched(Ok(code)),
    ]
}

/// A run in which every step succeeds goes through its tasks in their
/// fixed order. What is written to the temporary file is the script's text
/// as the formatter printed it; the interpreter is launched on the launcher's
/// path followed by the arguments, the script among them replaced by the
/// temporary file; and the run leaves with the code that the launch returned.
pub proof fn lemma_smooth_run(
    platform: Platform,
    args: Seq<Seq<char>>,
    args_after: Seq<Seq<char>>,
    major: nat,
    minor: nat,
    python_binary: Seq<char>,
    python_home: Seq<char>,
    script: Seq<char>,
    source: Seq<char>,
    temp_file: Seq<char>,
    code: i32,
)
    requires
        formatted_module(source) is Ok,
    ensures
        spec_run_tasks(
            platform,
            args,
            spec_smooth_reports(
                args_after,
                major,
                minor,
                python_binary,
                python_home,
                script,
                source,
                temp_file,
                code,
            ),
        ) == seq![
            TaskView::FindCacheDir,
            TaskView::DetermineVersion {
                args: spec_without_program(args),
                major: DEFAULT_PYTHON_MAJOR as nat,
                minor: DEFAULT_PYTHON_MINOR as nat,
            },
            TaskView::Provision { major, minor },
            TaskView::ExtractScript { args: args_after },
            TaskView::ReadScript { path: script },
            TaskView::CreateTempFile,
            TaskView::WriteTempFile { content: formatted_module(source)->Ok_0 },
            TaskView::Launch(
                LaunchRequestView {
                    platform,
                    python_home,
                    major,
                    minor,
                    sys_executable: PathTextView { text: python_binary, exact: true },
                    args: spec_final_arguments(python_binary, args_after, script, temp_file),
                },
            ),
            TaskView::Exit(Ok(code)),
        ],
{
    let reports = spec_smooth_reports(
        args_after,
        major,
        minor,
        python_binary,
        python_home,
        script,
        source,
        temp_file,
        code,
    );
    reveal_with_fuel(spec_tasks_from, 10);
    assert(spec_run_tasks(platform, args, reports) =~= seq![
        TaskView::FindCacheDir,
        TaskView::DetermineVersion {
            args: spec_without_program(args),
            major: DEFAULT_PYTHON_MAJOR as nat,
            minor: DEFAULT_PYTHON_MINOR as nat,
        },
        TaskView::Provision { major, minor },
        TaskView::ExtractScript { args: args_after },
        TaskView::ReadScript { path: script },
        TaskView::CreateTempFile,
        TaskView::WriteTempFile { content: formatted_module(source)->Ok_0 },
        TaskView::Launch(
            LaunchRequestView {
                platform,
                python_home,
                major,
                minor,
                sys_executable: PathTextView { text: python_binary, exact: true },
                args: spec_final_arguments(python_binary, args_after, script, temp_file),
            },
        ),
        TaskView::Exit(Ok(code)),
    ]);
}

} // verus!
