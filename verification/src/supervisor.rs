//! The commands that are handed to the process supervisor and to the
//! builder, and the choice between running one and elevating first.

use vstd::prelude::*;
use crate::directory::{RecordModel, Scope, ServiceRecord};
use crate::elevation::{needs_elevation, requires_elevation, ElevationError, Operation, Verb};
use crate::manifest::{InstallationTarget, TargetModel};
use crate::names::{unit_name, unit_of};
use crate::text::{join, joined, push_text, push_word, string_of, string_views};
use crate::workflow::{Failure, Task};

verus! {

/// The permission bits of an installed binary.
pub const BINARY_MODE: u32 = 0o755;

/// The flag that restricts the supervisor to a scope.
pub open spec fn scope_flags(scope: Scope) -> Seq<Seq<char>> {
    match scope {
        Scope::User => seq!["--user"@],
        Scope::System => Seq::empty(),
    }
}

/// The supervisor's word for what is done to a service.
pub open spec fn verb_word(verb: Verb) -> Seq<char> {
    match verb {
        Verb::Start => "start"@,
        Verb::Stop => "stop"@,
        Verb::Restart => "restart"@,
        Verb::Enable => "enable"@,
        Verb::Disable => "disable"@,
        Verb::Status => "status"@,
        Verb::Logs => "logs"@,
    }
}

/// What was done to a service, once it was done.
pub open spec fn past_tense(verb: Verb) -> Seq<char> {
    match verb {
        Verb::Start => "started"@,
        Verb::Stop => "stopped"@,
        Verb::Restart => "restarted"@,
        Verb::Enable => "enabled"@,
        Verb::Disable => "disabled"@,
        _ => "processed"@,
    }
}

/// The command for an operation on a service: the supervisor's, or for
/// the logs the journal's, restricted to the service's scope and unit.
pub open spec fn service_command_of(verb: Verb, record: RecordModel) -> Seq<Seq<char>> {
    if verb == Verb::Logs {
        seq!["journalctl"@] + scope_flags(record.scope) + seq![
            "-u"@,
            unit_name(record.name),
            "-f"@,
        ]
    } else {
        seq!["systemctl"@] + scope_flags(record.scope) + seq![
            verb_word(verb),
            unit_name(record.name),
        ]
    }
}

/// The query for the unit files of this family in one scope.
pub open spec fn listing_command_of(scope: Scope) -> Seq<Seq<char>> {
    seq!["systemctl"@] + scope_flags(scope) + seq![
        "list-unit-files"@,
        "corky-*.service"@,
        "--no-legend"@,
    ]
}

/// The command that the operator runs to look into a service.
pub open spec fn inspection_command_of(service: Seq<char>) -> Seq<Seq<char>> {
    seq!["systemctl"@, "status"@, service]
}

/// The command that the operator is told to run after a failure: the
/// inspection of the service where it could not be started, none after any
/// other failure.
pub open spec fn remedy_of(failure: Failure, service: Seq<char>) -> Seq<Seq<char>> {
    if failure == Failure::StartFailed {
        inspection_command_of(service)
    } else {
        Seq::empty()
    }
}

/// The command that primes the privilege helper's cached authorization.
pub open spec fn priming_command_of() -> Seq<Seq<char>> {
    seq!["sudo"@, "-v"@]
}

/// The command of a task; empty for a task that is no command but the
/// writing or removing of a file.
pub open spec fn task_command_of(task: Task, target: TargetModel) -> Seq<Seq<char>> {
    match task {
        Task::Build => seq!["cargo"@, "build"@, "--release"@],
        Task::RefreshLabels => seq![
            "restorecon"@,
            "-v"@,
            target.unit_path,
            target.installed_binary,
        ],
        Task::ReloadSupervisor => seq!["systemctl"@, "daemon-reload"@],
        Task::EnableService => seq!["systemctl"@, "enable"@, target.service],
        Task::StartService => seq!["systemctl"@, "start"@, target.service],
        Task::StopService => seq!["systemctl"@, "stop"@, target.service],
        Task::DisableService => seq!["systemctl"@, "disable"@, target.service],
        Task::ClearFailed => seq!["systemctl"@, "reset-failed"@, target.service],
        Task::InstallBinary => Seq::empty(),
        Task::WriteUnit => Seq::empty(),
        Task::RemoveUnit => Seq::empty(),
        Task::RemoveBinary => Seq::empty(),
    }
}

/// What a dry run prints in place of a task.
pub open spec fn description_of(task: Task, target: TargetModel) -> Seq<char> {
    match task {
        Task::InstallBinary => "Would install: "@ + target.source_binary + " -> "@
            + target.installed_binary + " (0755)"@,
        Task::WriteUnit => "Would write unit: "@ + target.unit_path,
        Task::RemoveUnit => "Would remove: "@ + target.unit_path,
        Task::RemoveBinary => "Would remove: "@ + target.installed_binary,
        _ => "Would run: "@ + joined(task_command_of(task, target), " "@),
    }
}

/// How an operation on a service is gone about.
#[derive(Debug, PartialEq, Eq)]
pub enum Dispatch {
    /// Run this command and end with its exit code.
    Run(Vec<String>),
    /// Re-execute through the privilege helper.
    Elevate,
    /// End with a failure: the elevation is refused.
    Refuse(ElevationError),
}

/// What a `Dispatch` stands for.
pub enum DispatchModel {
    Run(Seq<Seq<char>>),
    Elevate,
    Refuse(ElevationError),
}

impl View for Dispatch {
    type V = DispatchModel;

    open spec fn view(&self) -> DispatchModel {
        match self {
            Dispatch::Run(command) => DispatchModel::Run(string_views(command@)),
            Dispatch::Elevate => DispatchModel::Elevate,
            Dispatch::Refuse(e) => DispatchModel::Refuse(*e),
        }
    }
}

/// How an operation on a service is gone about: with the command for it
/// where the process has the rights that the service's scope asks for, with
/// an elevation where it lacks them, and not at all where it lacks them as
/// the child of an elevation.
pub open spec fn dispatch_of(
    verb: Verb,
    record: RecordModel,
    is_root: bool,
    guard: bool,
) -> DispatchModel {
    if needs_elevation(Operation::Service(verb, record.scope)) && !is_root {
        if guard {
            DispatchModel::Refuse(ElevationError::ElevationLoop)
        } else {
            DispatchModel::Elevate
        }
    } else {
        DispatchModel::Run(service_command_of(verb, record))
    }
}

/// The exit code of the process after a command: the command's own, 1
/// where it has none.
pub open spec fn exit_code_of(code: Option<i32>) -> i32 {
    match code {
        Some(c) => c,
        None => 1,
    }
}

/// An operation on a service of the user scope is run without elevation,
/// whoever runs it, and its command is restricted to the user scope.
pub proof fn lemma_user_scope_runs_directly(
    verb: Verb,
    record: RecordModel,
    is_root: bool,
    guard: bool,
)
    requires
        record.scope == Scope::User,
    ensures
        dispatch_of(verb, record, is_root, guard) == DispatchModel::Run(
            service_command_of(verb, record),
        ),
        service_command_of(verb, record)[1] == "--user"@,
        service_command_of(verb, record).last() == (if verb == Verb::Logs {
            "-f"@
        } else {
            unit_name(record.name)
        }),
{
}

/// An operation on a service of the system scope is run by a root process
/// and by no other.
pub proof fn lemma_system_scope_needs_root(
    verb: Verb,
    record: RecordModel,
    is_root: bool,
    guard: bool,
)
    requires
        record.scope == Scope::System,
    ensures
        dispatch_of(verb, record, is_root, guard) is Run <==> is_root,
        !is_root && guard ==> dispatch_of(verb, record, is_root, guard) == DispatchModel::Refuse(
            ElevationError::ElevationLoop,
        ),
        !is_root && !guard ==> dispatch_of(verb, record, is_root, guard) == DispatchModel::Elevate,
{
}

/// A task is either a command or a file operation, and only the four file
/// operations have no command.
pub proof fn lemma_task_commands(task: Task, target: TargetModel)
    ensures
        task_command_of(task, target).len() == 0 <==> (task == Task::InstallBinary || task
            == Task::WriteUnit || task == Task::RemoveUnit || task == Task::RemoveBinary),
{
}

fn push_scope_flags(out: &mut Vec<String>, scope: Scope)
    ensures
        string_views(final(out)@) == string_views(old(out)@) + scope_flags(scope),
{
    match scope {
        Scope::User => {
            push_word(out, "--user");
            assert(string_views(old(out)@).push("--user"@) == string_views(old(out)@)
                + seq!["--user"@]);
        },
        Scope::System => {
            assert(string_views(old(out)@) + Seq::<Seq<char>>::empty() == string_views(
                old(out)@,
            ));
        },
    }
}

/// The supervisor's word for `verb`.
pub fn verb_name(verb: Verb) -> (out: &'static str)
    ensures
        out@ == verb_word(verb),
{
    match verb {
        Verb::Start => "start",
        Verb::Stop => "stop",
        Verb::Restart => "restart",
        Verb::Enable => "enable",
        Verb::Disable => "disable",
        Verb::Status => "status",
        Verb::Logs => "logs",
    }
}

/// What was done to a service by `verb`, once it was done.
pub fn action_past(verb: Verb) -> (out: &'static str)
    ensures
        out@ == past_tense(verb),
{
    match verb {
        Verb::Start => "started",
        Verb::Stop => "stopped",
        Verb::Restart => "restarted",
        Verb::Enable => "enabled",
        Verb::Disable => "disabled",
        _ => "processed",
    }
}

/// The command for `verb` on the service `record`.
pub fn service_command(verb: Verb, record: &ServiceRecord) -> (out: Vec<String>)
    ensures
        string_views(out@) == service_command_of(verb, record@),
{
    let unit = unit_of(record.name.as_str());
    let mut out: Vec<String> = Vec::new();
    assert(string_views(out@) == Seq::<Seq<char>>::empty());
    match verb {
        Verb::Logs => {
            push_word(&mut out, "journalctl");
            assert(string_views(out@) == seq!["journalctl"@]);
            push_scope_flags(&mut out, record.scope);
            let ghost head = string_views(out@);
            push_word(&mut out, "-u");
            push_word(&mut out, unit.as_str());
            push_word(&mut out, "-f");
            assert(string_views(out@) == head + seq!["-u"@, unit@, "-f"@]);
        },
        _ => {
            push_word(&mut out, "systemctl");
            assert(string_views(out@) == seq!["systemctl"@]);
            push_scope_flags(&mut out, record.scope);
            let ghost head = string_views(out@);
            push_word(&mut out, verb_name(verb));
            push_word(&mut out, unit.as_str());
            assert(string_views(out@) == head + seq![verb_word(verb), unit@]);
        },
    }
    out
}

/// The query for the unit files of this family in `scope`.
pub fn listing_command(scope: Scope) -> (out: Vec<String>)
    ensures
        string_views(out@) == listing_command_of(scope),
{
    let mut out: Vec<String> = Vec::new();
    assert(string_views(out@) == Seq::<Seq<char>>::empty());
    push_word(&mut out, "systemctl");
    assert(string_views(out@) == seq!["systemctl"@]);
    push_scope_flags(&mut out, scope);
    let ghost head = string_views(out@);
    push_word(&mut out, "list-unit-files");
    push_word(&mut out, "corky-*.service");
    push_word(&mut out, "--no-legend");
    assert(string_views(out@) == head + seq![
        "list-unit-files"@,
        "corky-*.service"@,
        "--no-legend"@,
    ]);
    out
}

fn words3(a: &str, b: &str, c: &str) -> (out: Vec<String>)
    ensures
        string_views(out@) == seq![a@, b@, c@],
{
    let mut out: Vec<String> = Vec::new();
    assert(string_views(out@) == Seq::<Seq<char>>::empty());
    push_word(&mut out, a);
    push_word(&mut out, b);
    push_word(&mut out, c);
    assert(string_views(out@) == seq![a@, b@, c@]);
    out
}

fn words2(a: &str, b: &str) -> (out: Vec<String>)
    ensures
        string_views(out@) == seq![a@, b@],
{
    let mut out: Vec<String> = Vec::new();
    assert(string_views(out@) == Seq::<Seq<char>>::empty());
    push_word(&mut out, a);
    push_word(&mut out, b);
    assert(string_views(out@) == seq![a@, b@]);
    out
}

/// The command that the operator runs to look into `service`.
pub fn inspection_command(service: &str) -> (out: Vec<String>)
    ensures
        string_views(out@) == inspection_command_of(service@),
{
    words3("systemctl", "status", service)
}

/// The command that the operator is told to run after `failure`: the
/// inspection of `service` where it could not be started, none after any
/// other failure.
pub fn remedy(failure: Failure, service: &str) -> (out: Vec<String>)
    ensures
        string_views(out@) == remedy_of(failure, service@),
{
    match failure {
        Failure::StartFailed => inspection_command(service),
        _ => {
            let out: Vec<String> = Vec::new();
            assert(string_views(out@) == Seq::<Seq<char>>::empty());
            out
        },
    }
}

/// The command that primes the privilege helper's cached authorization.
pub fn priming_command() -> (out: Vec<String>)
    ensures
        string_views(out@) == priming_command_of(),
{
    words2("sudo", "-v")
}

/// The command of `task` for `target`; empty where the task is the writing
/// or removing of a file.
pub fn task_command(task: Task, target: &InstallationTarget) -> (out: Vec<String>)
    ensures
        string_views(out@) == task_command_of(task, target@),
{
    match task {
        Task::Build => words3("cargo", "build", "--release"),
        Task::RefreshLabels => {
            let mut out = words2("restorecon", "-v");
            push_word(&mut out, target.unit_path.as_str());
            push_word(&mut out, target.installed_binary.as_str());
            assert(string_views(out@) == seq![
                "restorecon"@,
                "-v"@,
                target@.unit_path,
                target@.installed_binary,
            ]);
            out
        },
        Task::ReloadSupervisor => words2("systemctl", "daemon-reload"),
        Task::EnableService => words3("systemctl", "enable", target.service.as_str()),
        Task::StartService => words3("systemctl", "start", target.service.as_str()),
        Task::StopService => words3("systemctl", "stop", target.service.as_str()),
        Task::DisableService => words3("systemctl", "disable", target.service.as_str()),
        Task::ClearFailed => words3("systemctl", "reset-failed", target.service.as_str()),
        _ => {
            let out: Vec<String> = Vec::new();
            assert(string_views(out@) == Seq::<Seq<char>>::empty());
            out
        },
    }
}

/// What a dry run prints in place of `task`.
pub fn describe_task(task: Task, target: &InstallationTarget) -> (out: String)
    ensures
        out@ == description_of(task, target@),
{
    let mut text: Vec<char> = Vec::new();
    match task {
        Task::InstallBinary => {
            assert(text@ + "Would install: "@ == "Would install: "@);
            push_text(&mut text, "Would install: ");
            push_text(&mut text, target.source_binary.as_str());
            push_text(&mut text, " -> ");
            push_text(&mut text, target.installed_binary.as_str());
            push_text(&mut text, " (0755)");
        },
        Task::WriteUnit => {
            assert(text@ + "Would write unit: "@ == "Would write unit: "@);
            push_text(&mut text, "Would write unit: ");
            push_text(&mut text, target.unit_path.as_str());
        },
        Task::RemoveUnit => {
            assert(text@ + "Would remove: "@ == "Would remove: "@);
            push_text(&mut text, "Would remove: ");
            push_text(&mut text, target.unit_path.as_str());
        },
        Task::RemoveBinary => {
            assert(text@ + "Would remove: "@ == "Would remove: "@);
            push_text(&mut text, "Would remove: ");
            push_text(&mut text, target.installed_binary.as_str());
        },
        _ => {
            let command = task_command(task, target);
            let line = join(&command, " ");
            assert(text@ + "Would run: "@ == "Would run: "@);
            push_text(&mut text, "Would run: ");
            push_text(&mut text, line.as_str());
        },
    }
    string_of(text.as_slice())
}

/// How `verb` on the service `record` is gone about by a process with
/// these rights; `guard` says whether it is the child of an elevation.
pub fn dispatch(verb: Verb, record: &ServiceRecord, is_root: bool, guard: bool) -> (out: Dispatch)
    ensures
        out@ == dispatch_of(verb, record@, is_root, guard),
{
    if requires_elevation(Operation::Service(verb, record.scope)) && !is_root {
        if guard {
            Dispatch::Refuse(ElevationError::ElevationLoop)
        } else {
            Dispatch::Elevate
        }
    } else {
        Dispatch::Run(service_command(verb, record))
    }
}

/// The exit code of the process after a command: the command's own, 1
/// where it has none.
pub fn exit_code(code: Option<i32>) -> (out: i32)
    ensures
        out == exit_code_of(code),
{
    match code {
        Some(c) => c,
        None => 1,
    }
}

} // verus!
