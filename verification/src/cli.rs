//! Selection of the operating mode from the process arguments and the
//! environment, and the choice between headless and windowed handling of an
//! automated request.

use crate::config::{TelegramConfig, TelegramConfigView};
use crate::text::{lowercased, parse_port, parse_u16, same_text, to_lowercase};
use vstd::prelude::*;
use vstd::string::*;

verus! {

/// Name of the environment variable that overrides the run mode.
pub const MODE_VARIABLE: &'static str = "CUNZHI_MODE";

/// Name of the environment variable that gives the port of the control server.
pub const PORT_VARIABLE: &'static str = "CUNZHI_WEB_PORT";

/// Port of the control server when the environment names none, or none that
/// can be read as a port.
pub const DEFAULT_PORT: u16 = 3000;

/// Exit status of a process that gives up.
pub const EXIT_FAILURE: i32 = 1;

/// What the process runs as. Exactly one is selected per process.
#[derive(Debug, PartialEq, Eq)]
pub enum OperatingMode {
    /// The interactive desktop interface.
    Desktop,
    /// Print the usage text and end.
    Help,
    /// Print the version and end.
    Version,
    /// Answer the automated request stored in the named file.
    AutomatedRequest(String),
    /// Serve the control plane over HTTP on the given port.
    Server(u16),
}

/// Mathematical value of an [`OperatingMode`].
pub enum ModeView {
    Desktop,
    Help,
    Version,
    AutomatedRequest(Seq<char>),
    Server(u16),
}

impl View for OperatingMode {
    type V = ModeView;

    open spec fn view(&self) -> ModeView {
        match self {
            OperatingMode::Desktop => ModeView::Desktop,
            OperatingMode::Help => ModeView::Help,
            OperatingMode::Version => ModeView::Version,
            OperatingMode::AutomatedRequest(path) => ModeView::AutomatedRequest(path@),
            OperatingMode::Server(port) => ModeView::Server(*port),
        }
    }
}

/// An invocation that selects no mode. The process reports it and exits
/// with [`EXIT_FAILURE`].
#[derive(Debug, PartialEq, Eq)]
pub enum UsageError {
    /// The run-mode override holds the given text, which names no mode.
    InvalidMode(String),
    /// The single argument is the given text, which is no known flag.
    UnknownArgument(String),
    /// Several arguments that do not start with the automated-request flag.
    InvalidArguments,
}

/// Mathematical value of a [`UsageError`].
pub enum UsageView {
    InvalidMode(Seq<char>),
    UnknownArgument(Seq<char>),
    InvalidArguments,
}

impl View for UsageError {
    type V = UsageView;

    open spec fn view(&self) -> UsageView {
        match self {
            UsageError::InvalidMode(mode) => UsageView::InvalidMode(mode@),
            UsageError::UnknownArgument(argument) => UsageView::UnknownArgument(argument@),
            UsageError::InvalidArguments => UsageView::InvalidArguments,
        }
    }
}

impl UsageView {
    /// The line that reports the error.
    pub open spec fn message(self) -> Seq<char> {
        match self {
            UsageView::InvalidMode(mode) => "无效的 CUNZHI_MODE 值: "@ + mode
                + "，支持的值: desktop, web"@,
            UsageView::UnknownArgument(argument) => "未知参数: "@ + argument,
            UsageView::InvalidArguments => "无效的命令行参数"@,
        }
    }

    /// Whether the usage text follows the report.
    pub open spec fn shows_help(self) -> bool {
        !(self is InvalidMode)
    }
}

impl UsageError {
    /// The line to print on standard error.
    pub fn message(&self) -> (line: String)
        ensures
            line@ == self@.message(),
    {
        match self {
            UsageError::InvalidMode(mode) => {
                let mut line = "无效的 CUNZHI_MODE 值: ".to_owned();
                line.append(mode.as_str());
                line.append("，支持的值: desktop, web");
                line
            },
            UsageError::UnknownArgument(argument) => {
                let mut line = "未知参数: ".to_owned();
                line.append(argument.as_str());
                line
            },
            UsageError::InvalidArguments => "无效的命令行参数".to_owned(),
        }
    }

    /// Whether the usage text is printed after the report.
    pub fn shows_help(&self) -> (shown: bool)
        ensures
            shown == self@.shows_help(),
    {
        match self {
            UsageError::InvalidMode(_) => false,
            _ => true,
        }
    }

    /// The status the process exits with: always [`EXIT_FAILURE`].
    pub fn exit_code(&self) -> (code: i32)
        ensures
            code == EXIT_FAILURE,
    {
        EXIT_FAILURE
    }
}

/// The two run modes that the environment can ask for.
#[derive(Clone, Copy, Debug, PartialEq, Eq, Structural)]
pub enum RunMode {
    /// Go on to the arguments, as if nothing had been asked.
    Desktop,
    /// Run the control server.
    Web,
}

/// The run mode that an override names, once it is in lower case.
pub open spec fn run_mode_of(lowered: Seq<char>) -> Option<RunMode> {
    if lowered == "web"@ {
        Some(RunMode::Web)
    } else if lowered == "desktop"@ {
        Some(RunMode::Desktop)
    } else {
        None
    }
}

/// The port that the port variable selects: the number it spells, or
/// [`DEFAULT_PORT`] when it is unset or spells none.
pub open spec fn port_of(port: Option<Seq<char>>) -> u16 {
    match port {
        Some(text) => match parse_u16(text) {
            Some(number) => number,
            None => DEFAULT_PORT,
        },
        None => DEFAULT_PORT,
    }
}

/// `flag` asks for the usage text.
pub open spec fn is_help_flag(flag: Seq<char>) -> bool {
    flag == "--help"@ || flag == "-h"@
}

/// `flag` asks for the version.
pub open spec fn is_version_flag(flag: Seq<char>) -> bool {
    flag == "--version"@ || flag == "-v"@
}

/// `flag` announces the file of an automated request.
pub open spec fn is_request_flag(flag: Seq<char>) -> bool {
    flag == "--mcp-request"@
}

/// The mode that the argument list selects. `args[0]` is the program's own
/// name; what follows it are the extra arguments.
pub open spec fn mode_of_arguments(args: Seq<Seq<char>>) -> Result<ModeView, UsageView> {
    if args.len() <= 1 {
        Ok(ModeView::Desktop)
    } else if args.len() == 2 {
        if is_help_flag(args[1]) {
            Ok(ModeView::Help)
        } else if is_version_flag(args[1]) {
            Ok(ModeView::Version)
        } else {
            Err(UsageView::UnknownArgument(args[1]))
        }
    } else if is_request_flag(args[1]) {
        Ok(ModeView::AutomatedRequest(args[2]))
    } else {
        Err(UsageView::InvalidArguments)
    }
}

/// What the run-mode override asks for.
#[derive(Debug, PartialEq, Eq)]
pub enum EnvOverride {
    /// The variable is unset.
    Absent,
    /// It names a run mode.
    Mode(RunMode),
    /// It holds the given text, which names none.
    Invalid(String),
}

/// Mathematical value of an [`EnvOverride`].
pub enum OverrideView {
    Absent,
    Mode(RunMode),
    Invalid(Seq<char>),
}

impl View for EnvOverride {
    type V = OverrideView;

    open spec fn view(&self) -> OverrideView {
        match self {
            EnvOverride::Absent => OverrideView::Absent,
            EnvOverride::Mode(mode) => OverrideView::Mode(*mode),
            EnvOverride::Invalid(given) => OverrideView::Invalid(given@),
        }
    }
}

/// What an override asks for, given the text of the variable and its
/// lower-case form.
pub open spec fn classified(given: Seq<char>, lowered: Seq<char>) -> OverrideView {
    match run_mode_of(lowered) {
        Some(mode) => OverrideView::Mode(mode),
        None => OverrideView::Invalid(given),
    }
}

/// What the run-mode variable asks for: it is read without regard to case.
pub open spec fn override_of(mode: Option<Seq<char>>) -> OverrideView {
    match mode {
        Some(given) => classified(given, lowercased(given)),
        None => OverrideView::Absent,
    }
}

/// The mode that an invocation selects, first match first: a web override
/// selects the server, an invalid one is an error, and otherwise the
/// arguments decide.
pub open spec fn mode_for(
    args: Seq<Seq<char>>,
    requested: OverrideView,
    port: Option<Seq<char>>,
) -> Result<ModeView, UsageView> {
    match requested {
        OverrideView::Mode(RunMode::Web) => Ok(ModeView::Server(port_of(port))),
        OverrideView::Invalid(given) => Err(UsageView::InvalidMode(given)),
        OverrideView::Mode(RunMode::Desktop) | OverrideView::Absent => mode_of_arguments(args),
    }
}

/// The mode that an invocation selects, from the argument list and the two
/// variables as the environment holds them.
pub open spec fn operating_mode(
    args: Seq<Seq<char>>,
    mode: Option<Seq<char>>,
    port: Option<Seq<char>>,
) -> Result<ModeView, UsageView> {
    mode_for(args, override_of(mode), port)
}

/// The characters of each argument.
pub open spec fn argument_texts(args: Seq<String>) -> Seq<Seq<char>> {
    args.map_values(|argument: String| argument@)
}

/// The characters of a text that may be absent.
pub open spec fn optional_text(text: Option<&str>) -> Option<Seq<char>> {
    match text {
        Some(given) => Some(given@),
        None => None,
    }
}

/// Mathematical value of what the dispatcher returns.
pub open spec fn outcome_view(outcome: Result<OperatingMode, UsageError>) -> Result<
    ModeView,
    UsageView,
> {
    match outcome {
        Ok(mode) => Ok(mode@),
        Err(error) => Err(error@),
    }
}

/// Tells which run mode a lower-case override names, if any.
pub fn classify_run_mode(lowered: &str) -> (mode: Option<RunMode>)
    ensures
        mode == run_mode_of(lowered@),
{
    if same_text(lowered, "web") {
        Some(RunMode::Web)
    } else if same_text(lowered, "desktop") {
        Some(RunMode::Desktop)
    } else {
        None
    }
}

/// Selects the port of the control server from the port variable.
pub fn select_port(port: Option<&str>) -> (selected: u16)
    ensures
        selected == port_of(optional_text(port)),
{
    match port {
        Some(text) => match parse_port(text) {
            Some(number) => number,
            None => DEFAULT_PORT,
        },
        None => DEFAULT_PORT,
    }
}

/// Selects the mode from the argument list alone.
pub fn dispatch_arguments(args: &Vec<String>) -> (outcome: Result<OperatingMode, UsageError>)
    ensures
        outcome_view(outcome) == mode_of_arguments(argument_texts(args@)),
{
    let ghost texts = argument_texts(args@);
    if args.len() <= 1 {
        Ok(OperatingMode::Desktop)
    } else if args.len() == 2 {
        let flag = args[1].as_str();
        assert(texts[1] == flag@);
        if same_text(flag, "--help") || same_text(flag, "-h") {
            Ok(OperatingMode::Help)
        } else if same_text(flag, "--version") || same_text(flag, "-v") {
            Ok(OperatingMode::Version)
        } else {
            Err(UsageError::UnknownArgument(args[1].clone()))
        }
    } else {
        assert(texts[1] == args[1]@);
        assert(texts[2] == args[2]@);
        if same_text(args[1].as_str(), "--mcp-request") {
            Ok(OperatingMode::AutomatedRequest(args[2].clone()))
        } else {
            Err(UsageError::InvalidArguments)
        }
    }
}

/// Tells what an override asks for, from the text of the variable and its
/// lower-case form.
pub fn classify_override(given: &str, lowered: &str) -> (requested: EnvOverride)
    ensures
        requested@ == classified(given@, lowered@),
{
    match classify_run_mode(lowered) {
        Some(mode) => EnvOverride::Mode(mode),
        None => EnvOverride::Invalid(given.to_owned()),
    }
}

/// Reads the run-mode variable (`None` where it is unset).
pub fn read_override(mode: Option<&str>) -> (requested: EnvOverride)
    ensures
        requested@ == override_of(optional_text(mode)),
{
    match mode {
        Some(given) => {
            let lowered = to_lowercase(given);
            classify_override(given, lowered.as_str())
        },
        None => EnvOverride::Absent,
    }
}

/// Selects the mode from the argument list, what the override asks for,
/// and the port variable.
pub fn dispatch(args: &Vec<String>, requested: EnvOverride, port: Option<&str>) -> (outcome:
    Result<OperatingMode, UsageError>)
    ensures
        outcome_view(outcome) == mode_for(argument_texts(args@), requested@, optional_text(port)),
{
    match requested {
        EnvOverride::Mode(RunMode::Web) => Ok(OperatingMode::Server(select_port(port))),
        EnvOverride::Invalid(given) => Err(UsageError::InvalidMode(given)),
        EnvOverride::Mode(RunMode::Desktop) | EnvOverride::Absent => dispatch_arguments(args),
    }
}

/// Selects the operating mode of the process from its argument list, the
/// run-mode override and the port variable, the last two as the environment
/// holds them (`None` where a variable is unset).
pub fn handle_cli_args(args: &Vec<String>, mode: Option<&str>, port: Option<&str>) -> (outcome:
    Result<OperatingMode, UsageError>)
    ensures
        outcome_view(outcome) == operating_mode(
            argument_texts(args@),
            optional_text(mode),
            optional_text(port),
        ),
{
    dispatch(args, read_override(mode), port)
}

/// How an automated request is answered.
#[derive(Clone, Copy, Debug, PartialEq, Eq, Structural)]
pub enum RequestHandling {
    /// Over the messaging channel alone; no window is shown.
    Headless,
    /// In the interactive window.
    Windowed,
}

/// The handling that the messaging settings call for. `None` stands for
/// settings that could not be loaded.
pub open spec fn request_handling(settings: Option<TelegramConfigView>) -> RequestHandling {
    match settings {
        Some(config) => if config.suppresses_window() {
            RequestHandling::Headless
        } else {
            RequestHandling::Windowed
        },
        None => RequestHandling::Windowed,
    }
}

/// The mathematical value of settings that may be absent.
pub open spec fn optional_settings(settings: Option<&TelegramConfig>) -> Option<
    TelegramConfigView,
> {
    match settings {
        Some(config) => Some(config@),
        None => None,
    }
}

/// Decides how an automated request is answered, from the messaging
/// settings as they were loaded (`None` where loading failed). The request
/// is answered headless exactly when the settings were loaded and ask both
/// for the channel and for the window to stay away.
pub fn handle_mcp_request(settings: Option<&TelegramConfig>) -> (handling: RequestHandling)
    ensures
        handling == request_handling(optional_settings(settings)),
        handling == RequestHandling::Headless <==> (settings matches Some(config)
            && config.enabled && config.hide_frontend_popup),
{
    match settings {
        Some(config) => if config.enabled && config.hide_frontend_popup {
            RequestHandling::Headless
        } else {
            RequestHandling::Windowed
        },
        None => RequestHandling::Windowed,
    }
}

/// What becomes of the process when headless processing or the control
/// server has ended: a failure ends it with [`EXIT_FAILURE`], since neither
/// has anything to fall back on; after a success it returns normally.
pub fn exit_after_run(failed: bool) -> (status: Option<i32>)
    ensures
        status == if failed {
            Some(EXIT_FAILURE)
        } else {
            None::<i32>
        },
{
    if failed {
        Some(EXIT_FAILURE)
    } else {
        None
    }
}

/// The override, read without regard to case, names the run mode `wanted`.
pub open spec fn override_names(mode: Option<Seq<char>>, wanted: RunMode) -> bool {
    override_of(mode) == OverrideView::Mode(wanted)
}

/// The override names no run mode at all.
pub open spec fn override_is_invalid(mode: Option<Seq<char>>) -> bool {
    override_of(mode) is Invalid
}

/// The arguments decide: there is no override, or it asks for the desktop.
pub open spec fn arguments_decide(mode: Option<Seq<char>>) -> bool {
    mode is None || override_names(mode, RunMode::Desktop)
}

/// The five flags are five different texts, so no argument is two of them.
pub proof fn lemma_flags_are_distinct(flag: Seq<char>)
    ensures
        !(is_help_flag(flag) && is_version_flag(flag)),
        !(is_help_flag(flag) && is_request_flag(flag)),
        !(is_version_flag(flag) && is_request_flag(flag)),
{
    reveal_strlit("--help");
    reveal_strlit("-h");
    reveal_strlit("--version");
    reveal_strlit("-v");
    reveal_strlit("--mcp-request");
    if flag.len() == 2 {
        assert("-h"@[1] != "-v"@[1]);
    }
}

/// Every invocation has exactly one outcome: one of the five modes, or a
/// usage error, which ends the process with status 1. Each outcome comes on
/// its own inputs and on no others, so no invocation selects two modes and
/// none selects nothing.
pub proof fn lemma_exactly_one_outcome(
    args: Seq<Seq<char>>,
    mode: Option<Seq<char>>,
    port: Option<Seq<char>>,
)
    ensures
        override_names(mode, RunMode::Web) <==> operating_mode(args, mode, port) == Ok::<
            ModeView,
            UsageView,
        >(ModeView::Server(port_of(port))),
        override_names(mode, RunMode::Web) <==> (operating_mode(args, mode, port) matches Ok(
            selected,
        ) && selected is Server),
        arguments_decide(mode) && args.len() <= 1 <==> operating_mode(args, mode, port) == Ok::<
            ModeView,
            UsageView,
        >(ModeView::Desktop),
        arguments_decide(mode) && args.len() == 2 && is_help_flag(args[1]) <==> operating_mode(
            args,
            mode,
            port,
        ) == Ok::<ModeView, UsageView>(ModeView::Help),
        arguments_decide(mode) && args.len() == 2 && is_version_flag(args[1]) <==> operating_mode(
            args,
            mode,
            port,
        ) == Ok::<ModeView, UsageView>(ModeView::Version),
        arguments_decide(mode) && args.len() >= 3 && is_request_flag(args[1]) <==> operating_mode(
            args,
            mode,
            port,
        ) == Ok::<ModeView, UsageView>(ModeView::AutomatedRequest(args[2])),
        arguments_decide(mode) && args.len() >= 3 && is_request_flag(args[1]) <==> (operating_mode(
            args,
            mode,
            port,
        ) matches Ok(selected) && selected is AutomatedRequest),
        override_is_invalid(mode) || (arguments_decide(mode) && args.len() == 2 && !is_help_flag(
            args[1],
        ) && !is_version_flag(args[1])) || (arguments_decide(mode) && args.len() >= 3
            && !is_request_flag(args[1])) <==> operating_mode(args, mode, port) is Err,
{
    if args.len() >= 2 {
        lemma_flags_are_distinct(args[1]);
    }
}

/// The control server listens on port 3000 whenever the port variable is
/// unset or does not spell a port.
pub proof fn lemma_port_defaults(args: Seq<Seq<char>>, text: Seq<char>)
    ensures
        mode_for(args, OverrideView::Mode(RunMode::Web), None) == Ok::<ModeView, UsageView>(
            ModeView::Server(3000),
        ),
        parse_u16(text) is None ==> mode_for(args, OverrideView::Mode(RunMode::Web), Some(text))
            == Ok::<ModeView, UsageView>(ModeView::Server(3000)),
        parse_u16(text) matches Some(number) ==> mode_for(
            args,
            OverrideView::Mode(RunMode::Web),
            Some(text),
        ) == Ok::<ModeView, UsageView>(ModeView::Server(number)),
        run_mode_of("web"@) == Some(RunMode::Web),
{
}

} // verus!
