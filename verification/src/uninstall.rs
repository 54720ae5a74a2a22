//! The uninstallation of the service: what is run and removed on each platform,
//! in which order, and which failures end it.
use crate::native::Platform;
use crate::text::{
    decimal, decimal_text, from_utf8_lossy, join_texts, joined, joined_with, lossy_text, same_text,
    views,
};
use vstd::prelude::*;
use vstd::string::*;

verus! {

/// What follows an answer of a probe.
#[derive(Debug)]
pub enum PollStep<T> {
    /// A pause, and then the probe of this number.
    Pause { next: usize },
    Finished { result: Result<T, String> },
}

/// What follows the answer of a probe: a value or a failure ends the polling, and
/// so does the last probe of all; behind any other empty answer comes a pause.
pub open spec fn poll_follows<T>(
    max_attempts: usize,
    timeout_message: Seq<char>,
    attempt: usize,
    answer: Result<Option<T>, String>,
    step: PollStep<T>,
) -> bool {
    match answer {
        Ok(Some(value)) => step == (PollStep::Finished { result: Ok(value) }),
        Err(error) => step == (PollStep::<T>::Finished { result: Err(error) }),
        Ok(None) => if attempt + 1 < max_attempts {
            step == (PollStep::<T>::Pause { next: (attempt + 1) as usize })
        } else {
            step matches PollStep::Finished { result: Err(text) } && text@ == timeout_message
        },
    }
}

/// Decides what follows the answer of a probe, the first of which has number 0.
pub fn poll_step<T>(
    max_attempts: usize,
    timeout_message: &str,
    attempt: usize,
    answer: Result<Option<T>, String>,
) -> (step: PollStep<T>)
    requires
        attempt < max_attempts,
    ensures
        poll_follows(max_attempts, timeout_message@, attempt, answer, step),
{
    match answer {
        Ok(Some(value)) => PollStep::Finished { result: Ok(value) },
        Err(error) => PollStep::Finished { result: Err(error) },
        Ok(None) => {
            if attempt + 1 < max_attempts {
                PollStep::Pause { next: attempt + 1 }
            } else {
                PollStep::Finished { result: Err(timeout_message.to_owned()) }
            }
        },
    }
}

/// Whether `answers` are those of the probes of one polling, in their order, and
/// `steps` what followed each: the first probe has number 0, and each pause is
/// followed by the probe that it names.
pub open spec fn is_polling<T>(
    max_attempts: usize,
    timeout_message: Seq<char>,
    answers: Seq<Result<Option<T>, String>>,
    steps: Seq<PollStep<T>>,
) -> bool {
    &&& steps.len() == answers.len()
    &&& answers.len() > 0 ==> max_attempts > 0
    &&& forall|i: int|
        #![trigger answers[i]]
        0 <= i < answers.len() ==> poll_follows(
            max_attempts,
            timeout_message,
            i as usize,
            answers[i],
            steps[i],
        )
    &&& forall|i: int|
        #![trigger steps[i]]
        0 <= i < steps.len() - 1 ==> steps[i] == (PollStep::<T>::Pause { next: (i + 1) as usize })
}

/// Whether a polling with these probes came to `polled`: its last probe ended it,
/// or there was no probe because none was allowed.
pub open spec fn polling_comes_to<T>(
    max_attempts: usize,
    timeout_message: Seq<char>,
    answers: Seq<Result<Option<T>, String>>,
    steps: Seq<PollStep<T>>,
    polled: Result<T, String>,
) -> bool {
    &&& is_polling(max_attempts, timeout_message, answers, steps)
    &&& if max_attempts == 0 {
        answers.len() == 0 && (polled matches Err(text) && text@ == timeout_message)
    } else {
        answers.len() > 0 && steps.last() == (PollStep::Finished { result: polled })
    }
}

/// Probes until there is a value, at most `max_attempts` times, with a pause
/// between two probes. The failure of a probe ends it. The result is what
/// `poll_step` makes of the answers of the probes, in their order.
pub fn poll_until<T, P: FnMut() -> Result<Option<T>, String>, Q: FnMut()>(
    max_attempts: usize,
    probe: P,
    pause: Q,
    timeout_message: &str,
) -> (polled: Result<T, String>)
    requires
        call_requires(probe, ()),
        call_requires(pause, ()),
    ensures
        exists|answers: Seq<Result<Option<T>, String>>, steps: Seq<PollStep<T>>|
            #![trigger polling_comes_to(max_attempts, timeout_message@, answers, steps, polled)]
            {
                &&& polling_comes_to(max_attempts, timeout_message@, answers, steps, polled)
                &&& forall|i: int|
                    0 <= i < answers.len() ==> call_ensures(probe, (), #[trigger] answers[i])
                &&& answers.len() > 1 ==> call_ensures(pause, (), ())
            },
{
    let mut look: P = probe;
    let mut rest: Q = pause;
    let ghost mut answers: Seq<Result<Option<T>, String>> = Seq::empty();
    let ghost mut steps: Seq<PollStep<T>> = Seq::empty();
    if max_attempts == 0 {
        let polled: Result<T, String> = Err(timeout_message.to_owned());
        assert(polling_comes_to(max_attempts, timeout_message@, answers, steps, polled));
        return polled;
    }
    let mut attempt: usize = 0;
    loop
        invariant
            call_requires(look, ()),
            call_requires(rest, ()),
            look == probe,
            rest == pause,
            attempt < max_attempts,
            answers.len() == attempt,
            is_polling(max_attempts, timeout_message@, answers, steps),
            attempt > 0 ==> steps.last() == (PollStep::<T>::Pause { next: attempt }),
            forall|i: int|
                0 <= i < answers.len() ==> call_ensures(probe, (), #[trigger] answers[i]),
            attempt > 0 ==> call_ensures(pause, (), ()),
        decreases max_attempts - attempt,
    {
        let answer: Result<Option<T>, String> = look();
        let ghost asked = answers;
        let ghost taken = steps;
        proof {
            answers = answers.push(answer);
        }
        let step: PollStep<T> = poll_step(max_attempts, timeout_message, attempt, answer);
        proof {
            steps = steps.push(step);
            assert forall|i: int|
                #![trigger answers[i]]
                0 <= i < answers.len() implies poll_follows(
                max_attempts,
                timeout_message@,
                i as usize,
                answers[i],
                steps[i],
            ) by {
                if i < attempt {
                    assert(asked[i] == answers[i] && taken[i] == steps[i]);
                }
            }
            assert forall|i: int| #![trigger steps[i]] 0 <= i < steps.len() - 1 implies steps[i]
                == (PollStep::<T>::Pause { next: (i + 1) as usize }) by {
                assert(taken[i] == steps[i]);
            }
        }
        match step {
            PollStep::Pause { next } => {
                rest();
                attempt = next;
            },
            PollStep::Finished { result } => {
                assert(polling_comes_to(max_attempts, timeout_message@, answers, steps, result));
                return result;
            },
        }
    }
}

/// How many of some steps are pauses.
pub open spec fn pauses_of<T>(steps: Seq<PollStep<T>>) -> nat
    decreases steps.len(),
{
    if steps.len() == 0 {
        0
    } else {
        pauses_of(steps.drop_last()) + (if steps.last() is Pause {
            1nat
        } else {
            0nat
        })
    }
}

/// Where all steps are pauses, there are as many pauses as steps.
proof fn all_are_pauses<T>(steps: Seq<PollStep<T>>)
    requires
        forall|i: int| 0 <= i < steps.len() ==> #[trigger] steps[i] is Pause,
    ensures
        pauses_of(steps) == steps.len(),
    decreases steps.len(),
{
    if steps.len() > 0 {
        all_are_pauses(steps.drop_last());
    }
}

/// The probes and pauses of a polling: every probe but the last found nothing,
/// there is one pause between each two of them and none behind the last, the last
/// one decides, and the polling runs out of time only after as many probes as are
/// allowed have found nothing.
pub proof fn polling_retries_until_it_is_decided<T>(
    max_attempts: usize,
    timeout_message: Seq<char>,
    answers: Seq<Result<Option<T>, String>>,
    steps: Seq<PollStep<T>>,
    polled: Result<T, String>,
)
    requires
        polling_comes_to(max_attempts, timeout_message, answers, steps, polled),
    ensures
        answers.len() <= max_attempts,
        forall|i: int|
            0 <= i < answers.len() - 1 ==> #[trigger] answers[i] == Ok::<Option<T>, String>(None),
        forall|i: int|
            0 <= i < steps.len() ==> (#[trigger] steps[i] is Pause <==> i < answers.len() - 1),
        answers.len() > 0 ==> answers.len() == pauses_of(steps) + 1,
        answers.len() == 0 ==> pauses_of(steps) == 0,
        max_attempts > 0 ==> answers.len() > 0 && (match answers.last() {
            Ok(Some(value)) => polled == Ok::<T, String>(value),
            Err(error) => polled == Err::<T, String>(error),
            Ok(None) => answers.len() == max_attempts && (polled matches Err(text) && text@
                == timeout_message),
        }),
        max_attempts == 0 ==> answers.len() == 0 && (polled matches Err(text) && text@
            == timeout_message),
{
    assert forall|i: int| 0 <= i < answers.len() - 1 implies #[trigger] answers[i] == Ok::<
        Option<T>,
        String,
    >(None) by {
        assert(steps[i] is Pause);
    }
    polling_is_numbered(max_attempts, timeout_message, answers, steps);
    if answers.len() > 0 {
        let _ = answers[answers.len() - 1];
        all_are_pauses(steps.drop_last());
    }
}

/// A probe has a number below the allowed ones.
proof fn polling_is_numbered<T>(
    max_attempts: usize,
    timeout_message: Seq<char>,
    answers: Seq<Result<Option<T>, String>>,
    steps: Seq<PollStep<T>>,
)
    requires
        is_polling(max_attempts, timeout_message, answers, steps),
    ensures
        answers.len() <= max_attempts,
    decreases answers.len(),
{
    if answers.len() > 1 {
        let last = answers.len() - 1;
        assert(is_polling(
            max_attempts,
            timeout_message,
            answers.drop_last(),
            steps.drop_last(),
        )) by {
            assert forall|i: int|
                #![trigger answers.drop_last()[i]]
                0 <= i < last implies poll_follows(
                max_attempts,
                timeout_message,
                i as usize,
                answers.drop_last()[i],
                steps.drop_last()[i],
            ) by {
                let _ = answers[i];
            }
            assert forall|i: int| #![trigger steps.drop_last()[i]] 0 <= i < last - 1 implies
                steps.drop_last()[i] == (PollStep::<T>::Pause { next: (i + 1) as usize }) by {
                let _ = steps[i];
            }
        }
        polling_is_numbered(max_attempts, timeout_message, answers.drop_last(), steps.drop_last());
        let _ = answers[last - 1];
        assert(steps[last - 1] is Pause);
    }
}

/// A polling is decided by the first answer that is not empty, whatever came before
/// it: behind `empty` answers that found nothing, a value is handed on and a failure
/// ends it.
pub proof fn first_answer_decides_a_polling<T>(
    max_attempts: usize,
    timeout_message: Seq<char>,
    answers: Seq<Result<Option<T>, String>>,
    steps: Seq<PollStep<T>>,
    polled: Result<T, String>,
    outcomes: spec_fn(nat) -> Result<Option<T>, String>,
    empty: nat,
)
    requires
        polling_comes_to(max_attempts, timeout_message, answers, steps, polled),
        forall|i: int| 0 <= i < answers.len() ==> #[trigger] answers[i] == outcomes(i as nat),
        forall|i: nat| i < empty && i < max_attempts ==> #[trigger] outcomes(i) == Ok::<
            Option<T>,
            String,
        >(None),
        empty < max_attempts ==> outcomes(empty) != Ok::<Option<T>, String>(None),
    ensures
        empty < max_attempts ==> {
            &&& answers.len() == empty + 1
            &&& pauses_of(steps) == empty
            &&& match outcomes(empty) {
                Ok(Some(value)) => polled == Ok::<T, String>(value),
                Ok(None) => false,
                Err(error) => polled == Err::<T, String>(error),
            }
        },
        empty >= max_attempts ==> {
            &&& answers.len() == max_attempts
            &&& pauses_of(steps) == (if max_attempts == 0 {
                0
            } else {
                max_attempts - 1
            })
            &&& polled matches Err(text) && text@ == timeout_message
        },
{
    polling_retries_until_it_is_decided(max_attempts, timeout_message, answers, steps, polled);
    if answers.len() > 0 {
        let last = answers.len() - 1;
        assert(answers[last] == outcomes(last as nat));
        if empty < last {
            assert(answers[empty as int] == outcomes(empty));
        }
    }
}

/// What became of a command.
#[derive(Debug)]
pub enum CommandOutcome {
    /// It could not be executed.
    NotExecuted(String),
    /// It has ended, with this status, as its name is shown, and this output.
    Ended { success: bool, status: String, stdout: Vec<u8>, stderr: Vec<u8> },
}

/// The line that announces a command.
pub fn execution_note(command: &str, args: &Vec<String>) -> (note: String)
    ensures
        note@ == "Executing: "@ + command@ + " "@ + joined_with(views(args@), " "@),
        note@ == announced(command@, views(args@)),
{
    let all: String = join_texts(args, " ");
    joined("Executing: ", command).concat(" ").concat(all.as_str())
}

/// What a command that failed has left: its status and its output.
pub open spec fn failure_details(outcome: CommandOutcome) -> Seq<char> {
    match outcome {
        CommandOutcome::Ended { status, stdout, stderr, .. } => " failed (status: "@ + status@
            + "):\nstdout: "@ + lossy_text(stdout@) + "\nstderr: "@ + lossy_text(stderr@),
        CommandOutcome::NotExecuted(_) => ""@,
    }
}

fn details(status: &str, stdout: &Vec<u8>, stderr: &Vec<u8>) -> (text: String)
    ensures
        text@ == " failed (status: "@ + status@ + "):\nstdout: "@ + lossy_text(stdout@)
            + "\nstderr: "@ + lossy_text(stderr@),
{
    let written: String = from_utf8_lossy(stdout.as_slice());
    let complained: String = from_utf8_lossy(stderr.as_slice());
    joined(" failed (status: ", status).concat("):\nstdout: ").concat(written.as_str()).concat(
        "\nstderr: ",
    ).concat(complained.as_str())
}

/// The lines that a command that failed is reported in while debugging.
pub fn failure_note(outcome: &CommandOutcome) -> (note: Option<String>)
    ensures
        note is Some <==> (*outcome matches CommandOutcome::Ended { success, .. } && !success),
        note matches Some(text) ==> text@ == "Command"@ + failure_details(*outcome),
        is_reported(*outcome, note),
{
    match outcome {
        CommandOutcome::Ended { success: false, status, stdout, stderr } => {
            let rest: String = details(status.as_str(), stdout, stderr);
            Some(joined("Command", rest.as_str()))
        },
        _ => None,
    }
}

/// What running a command came to.
pub fn run_command(command: &str, outcome: &CommandOutcome) -> (result: Result<(), String>)
    ensures
        result is Ok <==> (*outcome matches CommandOutcome::Ended { success, .. } && success),
        result matches Err(message) ==> message@ == (match *outcome {
            CommandOutcome::NotExecuted(error) => "Failed to execute '"@ + command@ + "': "@
                + error@,
            CommandOutcome::Ended { .. } => "Command '"@ + command@ + "'"@ + failure_details(
                *outcome,
            ),
        }),
        command_comes_to(command@, *outcome, result),
{
    match outcome {
        CommandOutcome::NotExecuted(error) => Err(
            joined("Failed to execute '", command).concat("': ").concat(error.as_str()),
        ),
        CommandOutcome::Ended { success, status, stdout, stderr } => {
            if *success {
                Ok(())
            } else {
                let rest: String = details(status.as_str(), stdout, stderr);
                Err(joined("Command '", command).concat("'").concat(rest.as_str()))
            }
        },
    }
}

/// Whether a program was called with a flag.
pub fn has_flag(args: &Vec<String>, flag: &str) -> (has: bool)
    ensures
        has == views(args@).contains(flag@),
        has == holds_flag(views(args@), flag@),
{
    for i in 0..args.len()
        invariant
            forall|j: int| 0 <= j < i ==> views(args@)[j] != flag@,
    {
        if same_text(args[i].as_str(), flag) {
            assert(views(args@)[i as int] == flag@);
            return true;
        }
    }
    false
}

/// Whether a program was called to clean up after owners that are gone, and to do
/// nothing else.
pub fn run_maintenance_if_requested(args: &Vec<String>) -> (requested: bool)
    ensures
        requested == views(args@).contains("--cleanup-stale-owners"@),
        requested == asks_for_maintenance(views(args@)),
{
    has_flag(args, "--cleanup-stale-owners")
}

/// What the cleanup after owners that are gone reports.
pub fn maintenance_report(removed: usize) -> (report: String)
    ensures
        report@ == "Removed "@ + decimal(removed as nat) + " stale owner state directories"@,
        report@ == maintenance_reported(removed as nat),
{
    let count: String = decimal_text(removed as u128);
    joined("Removed ", count.as_str()).concat(" stale owner state directories")
}

/// What the uninstallation on Windows reports.
pub fn uninstall_report(removed: usize) -> (report: String)
    ensures
        report@ == "Service uninstalled successfully; removed "@ + decimal(removed as nat)
            + " private state director"@ + (if removed == 1 {
            "y"@
        } else {
            "ies"@
        }) + "."@,
        report@ == uninstall_reported(removed as nat),
{
    let count: String = decimal_text(removed as u128);
    joined("Service uninstalled successfully; removed ", count.as_str()).concat(
        " private state director",
    ).concat(
        if removed == 1 {
            "y"
        } else {
            "ies"
        },
    ).concat(".")
}

/// Something that an uninstallation does.
#[derive(Debug)]
pub enum UninstallAction {
    /// The service that came before this one is uninstalled.
    UninstallOldService,
    /// A command is run. What it comes to counts only where it is required.
    Run { program: String, args: Vec<String>, required: bool },
    /// A file is removed, if it is there.
    RemoveFile { path: String, failure: String },
    /// A directory is removed with all that is in it, if it is there.
    RemoveDirectory { path: String, failure: String },
    /// The install directory is made ready, to be looked into.
    PrepareInstallDirectory,
    /// A file of the install directory is removed, if it is there.
    RemoveInstalled { name: String },
    RemoveWindowsService,
    PurgeWindowsState,
}

/// An action as a mathematical value.
pub enum ActionView {
    UninstallOldService,
    Run { program: Seq<char>, args: Seq<Seq<char>>, required: bool },
    RemoveFile { path: Seq<char>, failure: Seq<char> },
    RemoveDirectory { path: Seq<char>, failure: Seq<char> },
    PrepareInstallDirectory,
    RemoveInstalled { name: Seq<char> },
    RemoveWindowsService,
    PurgeWindowsState,
}

impl View for UninstallAction {
    type V = ActionView;

    open spec fn view(&self) -> ActionView {
        match self {
            UninstallAction::UninstallOldService => ActionView::UninstallOldService,
            UninstallAction::Run { program, args, required } => ActionView::Run {
                program: program@,
                args: views(args@),
                required: *required,
            },
            UninstallAction::RemoveFile { path, failure } => ActionView::RemoveFile {
                path: path@,
                failure: failure@,
            },
            UninstallAction::RemoveDirectory { path, failure } => ActionView::RemoveDirectory {
                path: path@,
                failure: failure@,
            },
            UninstallAction::PrepareInstallDirectory => ActionView::PrepareInstallDirectory,
            UninstallAction::RemoveInstalled { name } => ActionView::RemoveInstalled {
                name: name@,
            },
            UninstallAction::RemoveWindowsService => ActionView::RemoveWindowsService,
            UninstallAction::PurgeWindowsState => ActionView::PurgeWindowsState,
        }
    }
}

/// The actions of a plan, as mathematical values.
pub open spec fn actions(plan: Seq<UninstallAction>) -> Seq<ActionView> {
    plan.map_values(|action: UninstallAction| action@)
}

/// What the service is called.
#[derive(Debug)]
pub struct ServiceNames {
    pub slug: String,
    pub macos_service_id: String,
}

/// The plan on Linux: the unit is stopped and disabled, its file and the service
/// binary are removed.
pub open spec fn linux_plan(slug: Seq<char>) -> Seq<ActionView> {
    let unit = slug + ".service"@;
    seq![
        ActionView::Run { program: "systemctl"@, args: seq!["stop"@, unit], required: false },
        ActionView::Run { program: "systemctl"@, args: seq!["disable"@, unit], required: false },
        ActionView::RemoveFile {
            path: "/etc/systemd/system/"@ + slug + ".service"@,
            failure: "Failed to remove service file: "@,
        },
        ActionView::Run { program: "systemctl"@, args: seq!["daemon-reload"@], required: false },
        ActionView::PrepareInstallDirectory,
        ActionView::RemoveInstalled { name: "clash-service"@ },
    ]
}

/// The plan on macOS: the service that came before goes first, except on the
/// development channel; then the daemon is stopped, disabled and booted out, and
/// its files are removed.
pub open spec fn macos_plan(id: Seq<char>, development_channel: bool) -> Seq<ActionView> {
    let plist = "/Library/LaunchDaemons/"@ + id + ".plist"@;
    let older = if development_channel {
        Seq::empty()
    } else {
        seq![ActionView::UninstallOldService]
    };
    older + seq![
        ActionView::Run { program: "launchctl"@, args: seq!["stop"@, id], required: false },
        ActionView::Run {
            program: "launchctl"@,
            args: seq!["disable"@, "system/"@ + id],
            required: false,
        },
        ActionView::Run {
            program: "launchctl"@,
            args: seq!["bootout"@, "system"@, plist],
            required: false,
        },
        ActionView::RemoveFile { path: plist, failure: "Failed to remove plist file: "@ },
        ActionView::RemoveDirectory {
            path: "/Library/PrivilegedHelperTools/"@ + id + ".bundle"@,
            failure: "Failed to remove bundle directory: "@,
        },
    ]
}

/// The plan by which the service that came before this one is uninstalled.
pub open spec fn old_service_plan() -> Seq<ActionView> {
    let plist = "/Library/LaunchDaemons/io.github.clashverge.helper.plist"@;
    seq![
        ActionView::Run {
            program: "launchctl"@,
            args: seq!["stop"@, "io.github.clashverge.helper"@],
            required: true,
        },
        ActionView::Run {
            program: "launchctl"@,
            args: seq!["bootout"@, "system"@, plist],
            required: true,
        },
        ActionView::Run {
            program: "launchctl"@,
            args: seq!["disable"@, "system/io.github.clashverge.helper"@],
            required: true,
        },
        ActionView::RemoveFile { path: plist, failure: "Failed to remove plist file: "@ },
        ActionView::RemoveFile {
            path: "/Library/PrivilegedHelperTools/io.github.clashverge.helper"@,
            failure: "Failed to remove service binary: "@,
        },
    ]
}

fn run1(program: &str, first: &str, required: bool) -> (action: UninstallAction)
    ensures
        action@ == (ActionView::Run { program: program@, args: seq![first@], required }),
{
    let args: Vec<String> = vec![first.to_owned()];
    assert(views(args@) =~= seq![first@]);
    UninstallAction::Run { program: program.to_owned(), args, required }
}

fn run2(program: &str, first: &str, second: &str, required: bool) -> (action: UninstallAction)
    ensures
        action@ == (ActionView::Run { program: program@, args: seq![first@, second@], required }),
{
    let args: Vec<String> = vec![first.to_owned(), second.to_owned()];
    assert(views(args@) =~= seq![first@, second@]);
    UninstallAction::Run { program: program.to_owned(), args, required }
}

fn run3(program: &str, first: &str, second: &str, third: &str, required: bool) -> (action:
    UninstallAction)
    ensures
        action@ == (ActionView::Run {
            program: program@,
            args: seq![first@, second@, third@],
            required,
        }),
{
    let args: Vec<String> = vec![first.to_owned(), second.to_owned(), third.to_owned()];
    assert(views(args@) =~= seq![first@, second@, third@]);
    UninstallAction::Run { program: program.to_owned(), args, required }
}

fn remove_file(path: String, failure: &str) -> (action: UninstallAction)
    ensures
        action@ == (ActionView::RemoveFile { path: path@, failure: failure@ }),
{
    UninstallAction::RemoveFile { path, failure: failure.to_owned() }
}

/// The plan by which the service that came before this one is uninstalled.
pub fn uninstall_old_service() -> (plan: Vec<UninstallAction>)
    ensures
        actions(plan@) == old_service_plan(),
{
    let plist: &'static str = "/Library/LaunchDaemons/io.github.clashverge.helper.plist";
    let plan: Vec<UninstallAction> = vec![
        run2("launchctl", "stop", "io.github.clashverge.helper", true),
        run3("launchctl", "bootout", "system", plist, true),
        run2("launchctl", "disable", "system/io.github.clashverge.helper", true),
        remove_file(plist.to_owned(), "Failed to remove plist file: "),
        remove_file(
            "/Library/PrivilegedHelperTools/io.github.clashverge.helper".to_owned(),
            "Failed to remove service binary: ",
        ),
    ];
    assert(actions(plan@) =~= old_service_plan());
    plan
}

/// The plan by which the service is uninstalled.
pub open spec fn plan_of(
    platform: Platform,
    names: ServiceNames,
    development_channel: bool,
) -> Seq<ActionView> {
    match platform {
        Platform::Linux => linux_plan(names.slug@),
        Platform::Macos => macos_plan(names.macos_service_id@, development_channel),
        Platform::Windows => seq![ActionView::RemoveWindowsService, ActionView::PurgeWindowsState],
    }
}

/// The plan by which the service is uninstalled.
pub fn uninstall_plan(platform: Platform, names: &ServiceNames, development_channel: bool) -> (plan:
    Vec<UninstallAction>)
    ensures
        actions(plan@) == plan_of(platform, *names, development_channel),
{
    match platform {
        Platform::Linux => {
            let unit: String = joined(names.slug.as_str(), ".service");
            let unit_file: String = joined("/etc/systemd/system/", names.slug.as_str()).concat(
                ".service",
            );
            let plan: Vec<UninstallAction> = vec![
                run2("systemctl", "stop", unit.as_str(), false),
                run2("systemctl", "disable", unit.as_str(), false),
                remove_file(unit_file, "Failed to remove service file: "),
                run1("systemctl", "daemon-reload", false),
                UninstallAction::PrepareInstallDirectory,
                UninstallAction::RemoveInstalled { name: "clash-service".to_owned() },
            ];
            assert(actions(plan@) =~= linux_plan(names.slug@));
            plan
        },
        Platform::Macos => {
            let id: &str = names.macos_service_id.as_str();
            let plist: String = joined("/Library/LaunchDaemons/", id).concat(".plist");
            let bundle: String = joined("/Library/PrivilegedHelperTools/", id).concat(".bundle");
            let target: String = joined("system/", id);
            let mut plan: Vec<UninstallAction> = Vec::new();
            if !development_channel {
                plan.push(UninstallAction::UninstallOldService);
            }
            plan.push(run2("launchctl", "stop", id, false));
            plan.push(run2("launchctl", "disable", target.as_str(), false));
            plan.push(run3("launchctl", "bootout", "system", plist.as_str(), false));
            plan.push(remove_file(plist, "Failed to remove plist file: "));
            plan.push(
                UninstallAction::RemoveDirectory {
                    path: bundle,
                    failure: "Failed to remove bundle directory: ".to_owned(),
                },
            );
            assert(actions(plan@) =~= macos_plan(names.macos_service_id@, development_channel));
            plan
        },
        Platform::Windows => {
            let plan: Vec<UninstallAction> = vec![
                UninstallAction::RemoveWindowsService,
                UninstallAction::PurgeWindowsState,
            ];
            assert(actions(plan@) =~= plan_of(platform, *names, development_channel));
            plan
        },
    }
}

/// The text in which the failure of an action ends an uninstallation: none where
/// the uninstallation goes on. `shown` is what the action was about, as messages
/// show it.
pub open spec fn ending_failure(action: ActionView, shown: Seq<char>, error: Seq<char>) -> Option<
    Seq<char>,
> {
    match action {
        ActionView::UninstallOldService => None,
        ActionView::Run { required, .. } => if required {
            Some(error)
        } else {
            None
        },
        ActionView::RemoveFile { failure, .. } => Some(failure + error),
        ActionView::RemoveDirectory { failure, .. } => Some(failure + error),
        ActionView::PrepareInstallDirectory => Some(error),
        ActionView::RemoveInstalled { .. } => Some(
            "Failed to remove service binary "@ + shown + ": "@ + error,
        ),
        ActionView::RemoveWindowsService => Some(error),
        ActionView::PurgeWindowsState => Some(error),
    }
}

/// The text in which the failure of an action ends an uninstallation.
pub fn failure_of(action: &UninstallAction, shown: &str, error: String) -> (ending: Option<String>)
    ensures
        ending is Some <==> ending_failure(action@, shown@, error@) is Some,
        ending matches Some(text) ==> Some(text@) == ending_failure(action@, shown@, error@),
{
    match action {
        UninstallAction::UninstallOldService => None,
        UninstallAction::Run { required, .. } => {
            if *required {
                Some(error)
            } else {
                None
            }
        },
        UninstallAction::RemoveFile { failure, .. } => Some(
            joined(failure.as_str(), error.as_str()),
        ),
        UninstallAction::RemoveDirectory { failure, .. } => Some(
            joined(failure.as_str(), error.as_str()),
        ),
        UninstallAction::PrepareInstallDirectory => Some(error),
        UninstallAction::RemoveInstalled { .. } => Some(
            joined("Failed to remove service binary ", shown).concat(": ").concat(error.as_str()),
        ),
        UninstallAction::RemoveWindowsService => Some(error),
        UninstallAction::PurgeWindowsState => Some(error),
    }
}

/// The commands of an uninstallation may fail, the service being stopped already,
/// and so may the uninstallation of the service that came before: all else that
/// fails ends it. The service that came before, in turn, is given up at its first
/// failure.
pub proof fn failed_commands_end_no_uninstallation(
    platform: Platform,
    names: ServiceNames,
    development_channel: bool,
    position: int,
    shown: Seq<char>,
    error: Seq<char>,
)
    ensures
        0 <= position < plan_of(platform, names, development_channel).len() ==> {
            let action = plan_of(platform, names, development_channel)[position];
            ending_failure(action, shown, error) is None <==> action is Run || action
                is UninstallOldService
        },
        0 <= position < old_service_plan().len() ==> ending_failure(
            old_service_plan()[position],
            shown,
            error,
        ) is Some,
{
}

/// The state of the service is purged only behind the removal of the service, and
/// the unit file is removed only behind the stop of the unit.
pub proof fn service_stops_before_it_is_removed(
    platform: Platform,
    names: ServiceNames,
    development_channel: bool,
    position: int,
)
    requires
        0 <= position < plan_of(platform, names, development_channel).len(),
        ({
            let action = plan_of(platform, names, development_channel)[position];
            action is RemoveFile || action is RemoveDirectory || action is RemoveInstalled
                || action is PurgeWindowsState
        }),
    ensures
        exists|earlier: int|
            0 <= earlier < position && {
                let action = #[trigger] plan_of(platform, names, development_channel)[earlier];
                action is RemoveWindowsService || (action matches ActionView::Run { args, .. }
                    && args[0] == "stop"@)
            },
{
    let plan = plan_of(platform, names, development_channel);
    let earlier: int = if platform == Platform::Macos && !development_channel {
        1
    } else {
        0
    };
    let action = plan[earlier];
    assert(action is RemoveWindowsService || (action matches ActionView::Run { args, .. } && args[0]
        == "stop"@));
    assert(earlier < position);
}

/// The line that announces a command.
pub open spec fn announced(command: Seq<char>, args: Seq<Seq<char>>) -> Seq<char> {
    "Executing: "@ + command + " "@ + joined_with(args, " "@)
}

/// Whether running a command came to this.
pub open spec fn command_comes_to(
    command: Seq<char>,
    outcome: CommandOutcome,
    result: Result<(), String>,
) -> bool {
    &&& result is Ok <==> (outcome matches CommandOutcome::Ended { success, .. } && success)
    &&& result matches Err(message) ==> message@ == (match outcome {
        CommandOutcome::NotExecuted(error) => "Failed to execute '"@ + command + "': "@ + error@,
        CommandOutcome::Ended { .. } => "Command '"@ + command + "'"@ + failure_details(outcome),
    })
}

/// Whether a command is reported like this while debugging.
pub open spec fn is_reported(outcome: CommandOutcome, note: Option<String>) -> bool {
    &&& note is Some <==> (outcome matches CommandOutcome::Ended { success, .. } && !success)
    &&& note matches Some(text) ==> text@ == "Command"@ + failure_details(outcome)
}

/// A command has succeeded exactly where it ended with success, whatever it wrote. One
/// that could not be executed is told with why; one that ended in failure is told, and
/// reported, with its status and all that it wrote.
pub proof fn failed_commands_are_told(
    command: Seq<char>,
    outcome: CommandOutcome,
    result: Result<(), String>,
    note: Option<String>,
)
    requires
        command_comes_to(command, outcome, result),
        is_reported(outcome, note),
    ensures
        match outcome {
            CommandOutcome::NotExecuted(error) => note is None && (result matches Err(message)
                && message@ == "Failed to execute '"@ + command + "': "@ + error@),
            CommandOutcome::Ended { success, status, stdout, stderr } => {
                let rest = " failed (status: "@ + status@ + "):\nstdout: "@ + lossy_text(stdout@)
                    + "\nstderr: "@ + lossy_text(stderr@);
                if success {
                    result is Ok && note is None
                } else {
                    &&& result matches Err(message) && message@ == "Command '"@ + command + "'"@
                        + rest
                    &&& note matches Some(text) && text@ == "Command"@ + rest
                }
            },
        },
{
}

/// The line that announces a command names it and then its arguments, with a space before
/// each: one argument more is one more at the end.
pub proof fn announcements_name_all_arguments(
    command: Seq<char>,
    args: Seq<Seq<char>>,
    argument: Seq<char>,
)
    ensures
        announced(command, seq![argument]) == "Executing: "@ + command + " "@ + argument,
        args.len() > 0 ==> announced(command, args.push(argument)) == announced(command, args)
            + " "@ + argument,
{
    let lead = "Executing: "@ + command + " "@;
    assert(args.push(argument).drop_last() =~= args);
    if args.len() > 0 {
        assert(lead + (joined_with(args, " "@) + " "@ + argument) =~= lead + joined_with(args, " "@)
            + " "@ + argument);
    }
}

/// Whether arguments hold a flag.
pub open spec fn holds_flag(args: Seq<Seq<char>>, flag: Seq<char>) -> bool {
    args.contains(flag)
}

/// Whether a program was called to clean up after owners that are gone.
pub open spec fn asks_for_maintenance(args: Seq<Seq<char>>) -> bool {
    holds_flag(args, "--cleanup-stale-owners"@)
}

/// A flag counts wherever it stands among the arguments, and only where it is spelled in
/// full; so does the one that asks for the cleanup.
pub proof fn flags_count_anywhere(args: Seq<Seq<char>>, flag: Seq<char>, i: int)
    ensures
        0 <= i < args.len() && args[i] == flag ==> holds_flag(args, flag),
        holds_flag(args, flag) ==> exists|k: int| 0 <= k < args.len() && #[trigger] args[k] == flag,
        0 <= i < args.len() && args[i] == "--cleanup-stale-owners"@ ==> asks_for_maintenance(args),
        asks_for_maintenance(args) ==> exists|k: int|
            0 <= k < args.len() && #[trigger] args[k] == "--cleanup-stale-owners"@,
{
}

/// What the cleanup after owners that are gone reports.
pub open spec fn maintenance_reported(removed: nat) -> Seq<char> {
    "Removed "@ + decimal(removed) + " stale owner state directories"@
}

/// What the uninstallation on Windows reports.
pub open spec fn uninstall_reported(removed: nat) -> Seq<char> {
    "Service uninstalled successfully; removed "@ + decimal(removed) + " private state director"@
        + (if removed == 1 {
        "y"@
    } else {
        "ies"@
    }) + "."@
}

/// The reports tell how many directories were removed, in decimal digits, and speak of
/// one directory only where it is one.
pub proof fn reports_tell_how_many(removed: nat)
    ensures
        maintenance_reported(removed) == "Removed "@ + decimal(removed)
            + " stale owner state directories"@,
        removed == 1 ==> uninstall_reported(removed)
            == "Service uninstalled successfully; removed 1 private state directory."@,
        removed != 1 ==> uninstall_reported(removed)
            == "Service uninstalled successfully; removed "@ + decimal(removed)
            + " private state directories."@,
{
    reveal_strlit("Service uninstalled successfully; removed ");
    reveal_strlit(" private state director");
    reveal_strlit("y");
    reveal_strlit("ies");
    reveal_strlit(".");
    reveal_strlit("Service uninstalled successfully; removed 1 private state directory.");
    reveal_strlit(" private state directories.");
    if removed == 1 {
        assert(decimal(1) =~= seq!['1']);
        assert(uninstall_reported(1)
            =~= "Service uninstalled successfully; removed 1 private state directory."@);
    } else {
        assert(uninstall_reported(removed) =~= "Service uninstalled successfully; removed "@
            + decimal(removed) + " private state directories."@);
    }
}

/// What is done on Linux, for a service of any name: the unit is stopped and disabled, its
/// file is removed, the units are read again, and the installed binary is removed.
pub proof fn linux_service_is_uninstalled(names: ServiceNames, development_channel: bool)
    ensures
        ({
            let plan = plan_of(Platform::Linux, names, development_channel);
            let unit = names.slug@ + ".service"@;
            &&& plan.len() == 6
            &&& plan[0] matches ActionView::Run { program, args, required } && program
                == "systemctl"@ && args == seq!["stop"@, unit] && !required
            &&& plan[1] matches ActionView::Run { program, args, required } && program
                == "systemctl"@ && args == seq!["disable"@, unit] && !required
            &&& plan[2] matches ActionView::RemoveFile { path, failure } && path
                == "/etc/systemd/system/"@ + unit && failure == "Failed to remove service file: "@
            &&& plan[3] matches ActionView::Run { program, args, required } && program
                == "systemctl"@ && args == seq!["daemon-reload"@] && !required
            &&& plan[4] is PrepareInstallDirectory
            &&& plan[5] matches ActionView::RemoveInstalled { name } && name == "clash-service"@
        }),
{
    assert("/etc/systemd/system/"@ + (names.slug@ + ".service"@) =~= "/etc/systemd/system/"@
        + names.slug@ + ".service"@);
}

/// What is done on macOS, for a service of any name: the one that came before it is
/// uninstalled first, but not on the development channel; then the daemon is stopped,
/// disabled and booted out, and its description and its bundle are removed.
pub proof fn macos_service_is_uninstalled(names: ServiceNames, development_channel: bool)
    ensures
        ({
            let plan = plan_of(Platform::Macos, names, development_channel);
            let id = names.macos_service_id@;
            let plist = "/Library/LaunchDaemons/"@ + id + ".plist"@;
            let from: int = if development_channel {
                0
            } else {
                1
            };
            &&& plan.len() == from + 5
            &&& !development_channel ==> plan[0] is UninstallOldService
            &&& plan[from] matches ActionView::Run { program, args, required } && program
                == "launchctl"@ && args == seq!["stop"@, id] && !required
            &&& plan[from + 1] matches ActionView::Run { program, args, required } && program
                == "launchctl"@ && args == seq!["disable"@, "system/"@ + id] && !required
            &&& plan[from + 2] matches ActionView::Run { program, args, required } && program
                == "launchctl"@ && args == seq!["bootout"@, "system"@, plist] && !required
            &&& plan[from + 3] matches ActionView::RemoveFile { path, failure } && path == plist
                && failure == "Failed to remove plist file: "@
            &&& plan[from + 4] matches ActionView::RemoveDirectory { path, failure } && path
                == "/Library/PrivilegedHelperTools/"@ + id + ".bundle"@ && failure
                == "Failed to remove bundle directory: "@
        }),
{
}

/// What is done on Windows: the service is removed, and then its state.
pub proof fn windows_service_is_uninstalled(names: ServiceNames, development_channel: bool)
    ensures
        plan_of(Platform::Windows, names, development_channel) == seq![
            ActionView::RemoveWindowsService,
            ActionView::PurgeWindowsState,
        ],
{
}

/// What is done about the service that came before: all commands are required, and what
/// they name is what is removed.
pub proof fn old_service_is_uninstalled(position: int)
    ensures
        ({
            let plan = old_service_plan();
            let id = "io.github.clashverge.helper"@;
            let plist = "/Library/LaunchDaemons/"@ + id + ".plist"@;
            &&& plan.len() == 5
            &&& 0 <= position < 3 ==> (plan[position] matches ActionView::Run {
                program,
                required,
                ..
            } && program == "launchctl"@ && required)
            &&& plan[0] matches ActionView::Run { args, .. } && args == seq!["stop"@, id]
            &&& plan[1] matches ActionView::Run { args, .. } && args == seq![
                "bootout"@,
                "system"@,
                plist,
            ]
            &&& plan[2] matches ActionView::Run { args, .. } && args == seq![
                "disable"@,
                "system/"@ + id,
            ]
            &&& plan[3] matches ActionView::RemoveFile { path, failure } && path == plist && failure
                == "Failed to remove plist file: "@
            &&& plan[4] matches ActionView::RemoveFile { path, failure } && path
                == "/Library/PrivilegedHelperTools/"@ + id && failure
                == "Failed to remove service binary: "@
        }),
{
    reveal_strlit("io.github.clashverge.helper");
    reveal_strlit("/Library/LaunchDaemons/");
    reveal_strlit(".plist");
    reveal_strlit("/Library/LaunchDaemons/io.github.clashverge.helper.plist");
    reveal_strlit("system/");
    reveal_strlit("system/io.github.clashverge.helper");
    reveal_strlit("/Library/PrivilegedHelperTools/");
    reveal_strlit("/Library/PrivilegedHelperTools/io.github.clashverge.helper");
    let id = "io.github.clashverge.helper"@;
    assert("/Library/LaunchDaemons/"@ + id + ".plist"@
        =~= "/Library/LaunchDaemons/io.github.clashverge.helper.plist"@);
    assert("system/"@ + id =~= "system/io.github.clashverge.helper"@);
    assert("/Library/PrivilegedHelperTools/"@ + id
        =~= "/Library/PrivilegedHelperTools/io.github.clashverge.helper"@);
}

/// A failure that ends an uninstallation is told behind what failed: a removal behind the
/// words of its action, that of an installed binary with the binary, all else as it is.
pub proof fn ending_failures_are_told(
    action: ActionView,
    shown: Seq<char>,
    error: Seq<char>,
    text: Seq<char>,
)
    requires
        ending_failure(action, shown, error) == Some(text),
    ensures
        match action {
            ActionView::RemoveFile { failure, .. } => text == failure + error,
            ActionView::RemoveDirectory { failure, .. } => text == failure + error,
            ActionView::RemoveInstalled { .. } => text == "Failed to remove service binary "@
                + shown + ": "@ + error,
            ActionView::UninstallOldService => false,
            ActionView::Run { required, .. } => required && text == error,
            _ => text == error,
        },
{
}

} // verus!
