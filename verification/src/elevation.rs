//! When an operation needs elevated rights, and how the process hands
//! itself over to the privilege helper.
//!
//! What crosses the boundary to the elevated child is an
//! `ElevationContext`, and it crosses in environment variables only: a
//! guard that forbids a second elevation, the directory the user stood in,
//! and the checksum of the artifact that was built.

use vstd::prelude::*;
use crate::checksum::{digest_of, digest_text, digest_value, lemma_digest_round_trip, parse_digest};
use crate::directory::Scope;
use crate::text::{
    copy_strings, optional_string_view, optional_view, owned, same_text, chars_of, string_views,
};

verus! {

/// What is done to a service that exists.
#[derive(Clone, Copy, Debug, PartialEq, Eq, Structural)]
pub enum Verb {
    Start,
    Stop,
    Restart,
    Enable,
    Disable,
    Status,
    Logs,
}

/// What the tool is asked to do.
#[derive(Clone, Copy, Debug, PartialEq, Eq, Structural)]
pub enum Operation {
    Install,
    Uninstall,
    List,
    /// An operation on a resolved service of the given scope.
    Service(Verb, Scope),
}

/// Why an elevation was refused.
#[derive(Clone, Copy, Debug, PartialEq, Eq, Structural)]
pub enum ElevationError {
    /// The process is itself the child of an elevation.
    ElevationLoop,
}

/// The checksum that the unprivileged phase handed on.
#[derive(Clone, Copy, Debug, PartialEq, Eq, Structural)]
pub enum ChecksumClaim {
    /// None was handed on.
    Absent,
    /// This one.
    Claimed(u64),
    /// Something that is no checksum.
    Malformed,
}

/// The state that crosses the elevation boundary.
#[derive(Debug, PartialEq, Eq)]
pub struct ElevationContext {
    /// Set in the child of an elevation.
    pub guard: bool,
    /// The directory in which the user called the tool.
    pub directory: Option<String>,
    /// The checksum of the artifact that the unprivileged phase built.
    pub checksum: ChecksumClaim,
}

/// What an `ElevationContext` stands for.
pub struct ContextModel {
    pub guard: bool,
    pub directory: Option<Seq<char>>,
    pub checksum: ChecksumClaim,
}

impl View for ElevationContext {
    type V = ContextModel;

    open spec fn view(&self) -> ContextModel {
        ContextModel {
            guard: self.guard,
            directory: optional_string_view(self.directory),
            checksum: self.checksum,
        }
    }
}

/// The call of the privilege helper that re-executes the tool.
#[derive(Debug, PartialEq, Eq)]
pub struct ElevationRequest {
    /// Whether the helper's cached authorization is primed first.
    pub prime: bool,
    /// The helper, the tool's own binary, and the tool's arguments.
    pub command: Vec<String>,
    /// The variables set for the child, as names and values.
    pub environment: Vec<(String, String)>,
}

/// What an `ElevationRequest` stands for.
pub struct RequestModel {
    pub prime: bool,
    pub command: Seq<Seq<char>>,
    pub environment: Seq<(Seq<char>, Seq<char>)>,
}

/// The names and values of a list of pairs of strings.
pub open spec fn pair_views(pairs: Seq<(String, String)>) -> Seq<(Seq<char>, Seq<char>)> {
    pairs.map_values(|p: (String, String)| (p.0@, p.1@))
}

impl View for ElevationRequest {
    type V = RequestModel;

    open spec fn view(&self) -> RequestModel {
        RequestModel {
            prime: self.prime,
            command: string_views(self.command@),
            environment: pair_views(self.environment@),
        }
    }
}

/// Whether an operation needs elevated rights: installing and uninstalling
/// always, listing never, an operation on a service exactly if the service
/// belongs to the system scope.
pub open spec fn needs_elevation(operation: Operation) -> bool {
    match operation {
        Operation::Install => true,
        Operation::Uninstall => true,
        Operation::List => false,
        Operation::Service(_, scope) => scope == Scope::System,
    }
}

/// The privilege helper.
pub open spec fn helper() -> Seq<char> {
    "sudo"@
}

/// The variable that holds the guard.
pub open spec fn guard_variable() -> Seq<char> {
    "CORKY_ELEVATED"@
}

/// The variable that holds the user's directory.
pub open spec fn directory_variable() -> Seq<char> {
    "CORKY_WORKING_DIR"@
}

/// The variable that holds the artifact's checksum.
pub open spec fn checksum_variable() -> Seq<char> {
    "CORKY_ARTIFACT_DIGEST"@
}

/// What the guard variable holds for a context; `None` where it is unset.
pub open spec fn guard_value(context: ContextModel) -> Option<Seq<char>> {
    if context.guard {
        Some("1"@)
    } else {
        None
    }
}

/// What the checksum variable holds for a context; `None` where it is
/// unset. A claim that is no checksum is handed on as the empty text, which
/// is none either.
pub open spec fn checksum_value(context: ContextModel) -> Option<Seq<char>> {
    match context.checksum {
        ChecksumClaim::Absent => None,
        ChecksumClaim::Claimed(sum) => Some(digest_of(sum)),
        ChecksumClaim::Malformed => Some(Seq::empty()),
    }
}

/// A variable and its value, where it has one.
pub open spec fn binding(name: Seq<char>, value: Option<Seq<char>>) -> Seq<
    (Seq<char>, Seq<char>),
> {
    match value {
        Some(v) => seq![(name, v)],
        None => Seq::empty(),
    }
}

/// The variables that carry a context: the guard, the directory and the
/// checksum, each only where it is set.
pub open spec fn environment_of(context: ContextModel) -> Seq<(Seq<char>, Seq<char>)> {
    binding(guard_variable(), guard_value(context)) + binding(
        directory_variable(),
        context.directory,
    ) + binding(checksum_variable(), checksum_value(context))
}

/// The claim that the checksum variable makes.
pub open spec fn claim_of(value: Option<Seq<char>>) -> ChecksumClaim {
    match value {
        None => ChecksumClaim::Absent,
        Some(text) => match digest_value(text) {
            Some(sum) => ChecksumClaim::Claimed(sum),
            None => ChecksumClaim::Malformed,
        },
    }
}

/// The context that the three variables carry. The guard counts as set
/// whatever it holds.
pub open spec fn context_from(
    guard: Option<Seq<char>>,
    directory: Option<Seq<char>>,
    checksum: Option<Seq<char>>,
) -> ContextModel {
    ContextModel { guard: guard is Some, directory, checksum: claim_of(checksum) }
}

/// The context that a process hands to its elevated child.
pub open spec fn child_context(directory: Option<Seq<char>>, checksum: Option<u64>) -> ContextModel {
    ContextModel {
        guard: true,
        directory,
        checksum: match checksum {
            Some(sum) => ChecksumClaim::Claimed(sum),
            None => ChecksumClaim::Absent,
        },
    }
}

/// The arguments that the elevated child is called with: those of the
/// process itself, and the dry-run flag where the run is dry and they do
/// not hold it.
pub open spec fn forwarded(arguments: Seq<Seq<char>>, dry_run: bool) -> Seq<Seq<char>> {
    if dry_run && !arguments.contains("--dry-run"@) {
        arguments.push("--dry-run"@)
    } else {
        arguments
    }
}

/// The elevation of a process: refused where the guard is set, else the
/// call of the helper with the tool's binary and arguments, under the
/// variables of the child's context.
pub open spec fn elevation_of(
    current: ContextModel,
    is_root: bool,
    executable: Seq<char>,
    arguments: Seq<Seq<char>>,
    directory: Option<Seq<char>>,
    checksum: Option<u64>,
) -> Result<RequestModel, ElevationError> {
    if current.guard {
        Err(ElevationError::ElevationLoop)
    } else {
        Ok(
            RequestModel {
                prime: !is_root,
                command: seq![helper(), executable] + arguments,
                environment: environment_of(child_context(directory, checksum)),
            },
        )
    }
}

/// What an elevation or its refusal stands for.
pub open spec fn elevation_view(r: Result<ElevationRequest, ElevationError>) -> Result<
    RequestModel,
    ElevationError,
> {
    match r {
        Ok(request) => Ok(request@),
        Err(e) => Err(e),
    }
}

/// A context that is written to the variables and read from them again is
/// the same context.
pub proof fn lemma_context_round_trip(context: ContextModel)
    ensures
        context_from(guard_value(context), context.directory, checksum_value(context))
            == context,
{
    match context.checksum {
        ChecksumClaim::Claimed(sum) => {
            lemma_digest_round_trip(sum);
        },
        _ => {},
    }
}

/// A process whose guard is set is refused every elevation, whatever it
/// asks for; one whose guard is unset is refused none, and its child's
/// guard is set.
pub proof fn lemma_guard_forbids_second_elevation(
    current: ContextModel,
    is_root: bool,
    executable: Seq<char>,
    arguments: Seq<Seq<char>>,
    directory: Option<Seq<char>>,
    checksum: Option<u64>,
)
    ensures
        current.guard ==> elevation_of(current, is_root, executable, arguments, directory, checksum)
            == Err::<RequestModel, ElevationError>(ElevationError::ElevationLoop),
        !current.guard ==> elevation_of(
            current,
            is_root,
            executable,
            arguments,
            directory,
            checksum,
        ) is Ok,
        child_context(directory, checksum).guard,
        context_from(
            guard_value(child_context(directory, checksum)),
            directory,
            checksum_value(child_context(directory, checksum)),
        ).guard,
{
}

/// The context travels in the environment and nowhere else: the command
/// of an elevation is the helper, the binary and the arguments, whatever
/// directory and checksum are handed on.
pub proof fn lemma_context_travels_in_environment(
    current: ContextModel,
    is_root: bool,
    executable: Seq<char>,
    arguments: Seq<Seq<char>>,
    directory: Option<Seq<char>>,
    checksum: Option<u64>,
)
    requires
        !current.guard,
    ensures
        elevation_of(current, is_root, executable, arguments, directory, checksum)->Ok_0.command
            == elevation_of(current, is_root, executable, arguments, None, None)->Ok_0.command,
        elevation_of(current, is_root, executable, arguments, directory, checksum)->Ok_0.command
            == seq![helper(), executable] + arguments,
{
}

/// A dry run stays dry across the elevation: the arguments that the child
/// of a dry run is called with hold the dry-run flag. Nothing else is
/// changed in them, and those of any other run are handed on as they are.
pub proof fn lemma_dry_run_reaches_child(arguments: Seq<Seq<char>>)
    ensures
        forwarded(arguments, true).contains("--dry-run"@),
        arguments.is_prefix_of(forwarded(arguments, true)),
        forwarded(arguments, false) == arguments,
{
    let out = forwarded(arguments, true);
    if !arguments.contains("--dry-run"@) {
        assert(out[arguments.len() as int] == "--dry-run"@);
        assert(out.subrange(0, arguments.len() as int) == arguments);
    } else {
        assert(out.subrange(0, arguments.len() as int) == arguments);
    }
}

/// No operation on a service of the user scope needs elevation, every one
/// on a service of the system scope does, and so do installing and
/// uninstalling.
pub proof fn lemma_scope_decides_elevation(verb: Verb)
    ensures
        !needs_elevation(Operation::Service(verb, Scope::User)),
        needs_elevation(Operation::Service(verb, Scope::System)),
        needs_elevation(Operation::Install),
        needs_elevation(Operation::Uninstall),
{
}

/// Whether `operation` needs elevated rights.
pub fn requires_elevation(operation: Operation) -> (b: bool)
    ensures
        b == needs_elevation(operation),
{
    match operation {
        Operation::Install => true,
        Operation::Uninstall => true,
        Operation::List => false,
        Operation::Service(_, scope) => match scope {
            Scope::System => true,
            Scope::User => false,
        },
    }
}

/// The name of the privilege helper.
pub fn helper_name() -> (out: &'static str)
    ensures
        out@ == helper(),
{
    "sudo"
}

/// The name of the variable that holds the guard.
pub fn guard_variable_name() -> (out: &'static str)
    ensures
        out@ == guard_variable(),
{
    "CORKY_ELEVATED"
}

/// The name of the variable that holds the user's directory.
pub fn directory_variable_name() -> (out: &'static str)
    ensures
        out@ == directory_variable(),
{
    "CORKY_WORKING_DIR"
}

/// The name of the variable that holds the artifact's checksum.
pub fn checksum_variable_name() -> (out: &'static str)
    ensures
        out@ == checksum_variable(),
{
    "CORKY_ARTIFACT_DIGEST"
}

/// The claim that the checksum variable makes; `None` stands for the
/// variable being unset.
pub fn read_claim(value: Option<&str>) -> (out: ChecksumClaim)
    ensures
        out == claim_of(optional_view(value)),
{
    match value {
        None => ChecksumClaim::Absent,
        Some(text) => match parse_digest(text) {
            Some(sum) => ChecksumClaim::Claimed(sum),
            None => ChecksumClaim::Malformed,
        },
    }
}

impl ElevationContext {
    /// The context that the three variables carry; `None` stands for a
    /// variable being unset.
    pub fn from_environment(
        guard: Option<&str>,
        directory: Option<&str>,
        checksum: Option<&str>,
    ) -> (out: ElevationContext)
        ensures
            out@ == context_from(
                optional_view(guard),
                optional_view(directory),
                optional_view(checksum),
            ),
    {
        ElevationContext {
            guard: guard.is_some(),
            directory: match directory {
                Some(d) => Some(owned(d)),
                None => None,
            },
            checksum: read_claim(checksum),
        }
    }

    /// The context that a process hands to its elevated child.
    pub fn for_child(directory: Option<&str>, checksum: Option<u64>) -> (out: ElevationContext)
        ensures
            out@ == child_context(optional_view(directory), checksum),
    {
        ElevationContext {
            guard: true,
            directory: match directory {
                Some(d) => Some(owned(d)),
                None => None,
            },
            checksum: match checksum {
                Some(sum) => ChecksumClaim::Claimed(sum),
                None => ChecksumClaim::Absent,
            },
        }
    }

    /// The variables that carry the context, as names and values.
    pub fn to_environment(&self) -> (out: Vec<(String, String)>)
        ensures
            pair_views(out@) == environment_of(self@),
    {
        let mut out: Vec<(String, String)> = Vec::new();
        assert(pair_views(out@) == Seq::<(Seq<char>, Seq<char>)>::empty());
        if self.guard {
            let ghost before = pair_views(out@);
            let pair = (owned("CORKY_ELEVATED"), owned("1"));
            out.push(pair);
            assert(pair_views(out@) == before.push((pair.0@, pair.1@)));
        }
        assert(pair_views(out@) == binding(guard_variable(), guard_value(self@)));
        match &self.directory {
            Some(d) => {
                let ghost before = pair_views(out@);
                let pair = (owned("CORKY_WORKING_DIR"), d.clone());
                out.push(pair);
                assert(pair_views(out@) == before.push((pair.0@, pair.1@)));
            },
            None => {},
        }
        assert(pair_views(out@) == binding(guard_variable(), guard_value(self@)) + binding(
            directory_variable(),
            self@.directory,
        ));
        match self.checksum {
            ChecksumClaim::Absent => {},
            ChecksumClaim::Claimed(sum) => {
                let ghost before = pair_views(out@);
                let pair = (owned("CORKY_ARTIFACT_DIGEST"), digest_text(sum));
                out.push(pair);
                assert(pair_views(out@) == before.push((pair.0@, pair.1@)));
            },
            ChecksumClaim::Malformed => {
                let ghost before = pair_views(out@);
                let pair = (owned("CORKY_ARTIFACT_DIGEST"), String::new());
                out.push(pair);
                assert(pair_views(out@) == before.push((pair.0@, pair.1@)));
            },
        }
        out
    }
}

/// The arguments that the elevated child is called with.
pub fn forwarded_arguments(arguments: &Vec<String>, dry_run: bool) -> (out: Vec<String>)
    ensures
        string_views(out@) == forwarded(string_views(arguments@), dry_run),
{
    let mut out = copy_strings(arguments);
    if dry_run {
        let flag = chars_of("--dry-run");
        let ghost all = string_views(arguments@);
        let mut i: usize = 0;
        while i < arguments.len()
            invariant
                i <= arguments.len(),
                flag@ == "--dry-run"@,
                all == string_views(arguments@),
                string_views(out@) == all,
                forall|j: int| 0 <= j < i ==> all[j] != "--dry-run"@,
            decreases arguments.len() - i,
        {
            let item = chars_of(arguments[i].as_str());
            assert(all[i as int] == item@);
            if same_text(item.as_slice(), flag.as_slice()) {
                return out;
            }
            i += 1;
        }
        let ghost before = string_views(out@);
        let last = owned("--dry-run");
        out.push(last);
        assert(string_views(out@) == before.push(last@));
    }
    out
}

/// The elevation of the process: refused where the guard of `current` is
/// set, else the call of the helper that re-executes `executable` with
/// `arguments`, under the variables that carry the child's context.
pub fn plan_elevation(
    current: &ElevationContext,
    is_root: bool,
    executable: &str,
    arguments: &Vec<String>,
    directory: Option<&str>,
    checksum: Option<u64>,
) -> (out: Result<ElevationRequest, ElevationError>)
    ensures
        elevation_view(out) == elevation_of(
            current@,
            is_root,
            executable@,
            string_views(arguments@),
            optional_view(directory),
            checksum,
        ),
{
    if current.guard {
        return Err(ElevationError::ElevationLoop);
    }
    let mut command: Vec<String> = Vec::new();
    let first = owned("sudo");
    let second = owned(executable);
    command.push(first);
    command.push(second);
    assert(string_views(command@) == seq![helper(), executable@]);
    let mut i: usize = 0;
    while i < arguments.len()
        invariant
            i <= arguments.len(),
            string_views(command@) == seq![helper(), executable@] + string_views(arguments@).take(
                i as int,
            ),
        decreases arguments.len() - i,
    {
        let ghost before = string_views(command@);
        let item = arguments[i].clone();
        command.push(item);
        assert(string_views(command@) == before.push(item@));
        assert(string_views(arguments@).take(i + 1) == string_views(arguments@).take(
            i as int,
        ).push(arguments@[i as int]@));
        i += 1;
    }
    assert(string_views(arguments@).take(arguments.len() as int) == string_views(arguments@));
    let child = ElevationContext::for_child(directory, checksum);
    let environment = child.to_environment();
    Ok(ElevationRequest { prime: !is_root, command, environment })
}

} // verus!
