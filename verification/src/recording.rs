//! Event recordings and time travel (TTD) recordings: requests, their
//! validation, and the command line of the TTD recorder.

use crate::path::{copy_bytes, HostPath, PartView, PathPart, PathView};
use crate::text::{
    blank, decimal, decimal_text, has_control, has_control_characters, is_blank, law_decimal_is_digits,
};
use vstd::prelude::*;
use vstd::string::*;

verus! {

/// Why a recording request is refused.
#[derive(Clone, Copy, Debug, PartialEq, Eq, Structural)]
pub enum RecordingError {
    EmptyExecutable,
    InvalidAttachPid,
    EmptyPresets,
    ControlCharacters,
    InvalidTtdTimeout,
    InvalidTtdMaxFile,
    TtdRingFileTooLarge,
    TtdFileTooLarge,
    EmptyTtdExecutable,
    InvalidTtdAttachPid,
    EmptyTtdMonitorProgram,
    InvalidTtdMonitorProgram,
    EmptyTtdCommandLineFilter,
    TtdModulesTooLarge,
}

/// The text of a refusal.
pub open spec fn recording_error_text(error: RecordingError) -> Seq<char> {
    match error {
        RecordingError::EmptyExecutable => "recording launch executable must not be empty"@,
        RecordingError::InvalidAttachPid => "recording attach pid must not be zero"@,
        RecordingError::EmptyPresets => "recording preset list must not be empty"@,
        RecordingError::ControlCharacters => "recording arguments must not contain control characters"@,
        RecordingError::InvalidTtdTimeout => "TTD timeout_ms must be greater than zero"@,
        RecordingError::InvalidTtdMaxFile => "TTD max_file_mb must be greater than zero"@,
        RecordingError::TtdRingFileTooLarge => "TTD ring max_file_mb must be at most 32768"@,
        RecordingError::TtdFileTooLarge => "TTD max_file_mb must be at most 1048576"@,
        RecordingError::EmptyTtdExecutable => "TTD launch executable must not be empty"@,
        RecordingError::InvalidTtdAttachPid => "TTD attach pid must not be zero"@,
        RecordingError::EmptyTtdMonitorProgram => "TTD monitor program must not be empty"@,
        RecordingError::InvalidTtdMonitorProgram => "TTD monitor program must be a file name or an absolute path"@,
        RecordingError::EmptyTtdCommandLineFilter => "TTD monitor cmd_line_filter must not be empty"@,
        RecordingError::TtdModulesTooLarge => "TTD modules list is too large"@,
    }
}

impl RecordingError {
    /// The error as text.
    pub fn message(&self) -> (text: String)
        ensures
            text@ == recording_error_text(*self),
    {
        let text: &str = match self {
            RecordingError::EmptyExecutable => "recording launch executable must not be empty",
            RecordingError::InvalidAttachPid => "recording attach pid must not be zero",
            RecordingError::EmptyPresets => "recording preset list must not be empty",
            RecordingError::ControlCharacters => "recording arguments must not contain control characters",
            RecordingError::InvalidTtdTimeout => "TTD timeout_ms must be greater than zero",
            RecordingError::InvalidTtdMaxFile => "TTD max_file_mb must be greater than zero",
            RecordingError::TtdRingFileTooLarge => "TTD ring max_file_mb must be at most 32768",
            RecordingError::TtdFileTooLarge => "TTD max_file_mb must be at most 1048576",
            RecordingError::EmptyTtdExecutable => "TTD launch executable must not be empty",
            RecordingError::InvalidTtdAttachPid => "TTD attach pid must not be zero",
            RecordingError::EmptyTtdMonitorProgram => "TTD monitor program must not be empty",
            RecordingError::InvalidTtdMonitorProgram => "TTD monitor program must be a file name or an absolute path",
            RecordingError::EmptyTtdCommandLineFilter => "TTD monitor cmd_line_filter must not be empty",
            RecordingError::TtdModulesTooLarge => "TTD modules list is too large",
        };
        text.to_owned()
    }
}

/// What validation answers when it refuses a value for a reason, or keeps it.
pub open spec fn verdict<T>(refusal: Option<RecordingError>, value: T) -> Result<T, RecordingError> {
    match refusal {
        Some(error) => Err(error),
        None => Ok(value),
    }
}

/// Some text of the list holds a control character.
pub open spec fn any_has_control(args: Seq<String>) -> bool {
    exists|i: int| 0 <= i < args.len() && has_control(#[trigger] args[i]@)
}

/// Why a path is refused, if it is.
pub open spec fn path_refusal(path: PathView, empty: RecordingError) -> Option<RecordingError> {
    if path.text.len() == 0 {
        Some(empty)
    } else if has_control(path.text) {
        Some(RecordingError::ControlCharacters)
    } else {
        None
    }
}

/// Why a list of arguments is refused, if it is.
pub open spec fn args_refusal(args: Seq<String>) -> Option<RecordingError> {
    if any_has_control(args) {
        Some(RecordingError::ControlCharacters)
    } else {
        None
    }
}

fn validate_path(path: &HostPath, empty: RecordingError) -> (verdict: Result<(), RecordingError>)
    ensures
        verdict == self::verdict(path_refusal(path@, empty), ()),
{
    if path.is_empty() {
        return Err(empty);
    }
    if has_control_characters(path.text.as_str()) {
        return Err(RecordingError::ControlCharacters);
    }
    Ok(())
}

fn validate_args(args: &Vec<String>) -> (verdict: Result<(), RecordingError>)
    ensures
        verdict == self::verdict(args_refusal(args@), ()),
{
    let mut i: usize = 0;
    while i < args.len()
        invariant
            i <= args.len(),
            forall|k: int| 0 <= k < i ==> !has_control(#[trigger] args@[k]@),
        decreases args.len() - i,
    {
        if has_control_characters(args[i].as_str()) {
            assert(has_control(args@[i as int]@));
            return Err(RecordingError::ControlCharacters);
        }
        i = i + 1;
    }
    Ok(())
}

/// What an event recording watches.
#[derive(Debug, PartialEq, Eq)]
pub enum RecordingTarget {
    Launch { executable: HostPath, args: Vec<String> },
    Attach { pid: u32 },
}

/// Why a recording target is refused, if it is.
pub open spec fn target_refusal(target: RecordingTarget) -> Option<RecordingError> {
    match target {
        RecordingTarget::Launch { executable, args } => {
            let path = path_refusal(executable@, RecordingError::EmptyExecutable);
            if path is Some {
                path
            } else {
                args_refusal(args@)
            }
        },
        RecordingTarget::Attach { pid } => if pid == 0 {
            Some(RecordingError::InvalidAttachPid)
        } else {
            None
        },
    }
}

impl RecordingTarget {
    /// Accepts a target that can be recorded, unchanged.
    pub fn validate(self) -> (target: Result<Self, RecordingError>)
        ensures
            target == verdict(target_refusal(self), self),
    {
        match self {
            RecordingTarget::Launch { executable, args } => {
                if let Err(error) = validate_path(&executable, RecordingError::EmptyExecutable) {
                    return Err(error);
                }
                if let Err(error) = validate_args(&args) {
                    return Err(error);
                }
                Ok(RecordingTarget::Launch { executable, args })
            },
            RecordingTarget::Attach { pid } => {
                if pid == 0 {
                    return Err(RecordingError::InvalidAttachPid);
                }
                Ok(RecordingTarget::Attach { pid })
            },
        }
    }

    pub fn mode(&self) -> (mode: &'static str)
        ensures
            mode@ == match self {
                RecordingTarget::Launch { .. } => "launch"@,
                RecordingTarget::Attach { .. } => "attach"@,
            },
    {
        match self {
            RecordingTarget::Launch { .. } => "launch",
            RecordingTarget::Attach { .. } => "attach",
        }
    }
}

/// A family of events.
#[derive(Clone, Copy, Debug, PartialEq, Eq, Structural)]
pub enum RecordingPreset {
    Process,
    Thread,
    Image,
    File,
    Registry,
    Network,
}

impl RecordingPreset {
    pub const DEFAULTS: [RecordingPreset; 6] = [
        RecordingPreset::Process,
        RecordingPreset::Thread,
        RecordingPreset::Image,
        RecordingPreset::File,
        RecordingPreset::Registry,
        RecordingPreset::Network,
    ];

    /// The name of a family.
    pub open spec fn name(self) -> Seq<char> {
        match self {
            RecordingPreset::Process => "process"@,
            RecordingPreset::Thread => "thread"@,
            RecordingPreset::Image => "image"@,
            RecordingPreset::File => "file"@,
            RecordingPreset::Registry => "registry"@,
            RecordingPreset::Network => "network"@,
        }
    }

    /// The file that the events of a family go to.
    pub fn artifact_file_name(self) -> (file: &'static str)
        ensures
            file@ == self.name() + ".jsonl"@,
    {
        proof {
            reveal_strlit(".jsonl");
            reveal_strlit("process");
            reveal_strlit("process.jsonl");
            reveal_strlit("thread");
            reveal_strlit("thread.jsonl");
            reveal_strlit("image");
            reveal_strlit("image.jsonl");
            reveal_strlit("file");
            reveal_strlit("file.jsonl");
            reveal_strlit("registry");
            reveal_strlit("registry.jsonl");
            reveal_strlit("network");
            reveal_strlit("network.jsonl");
        }
        let file: &'static str = match self {
            RecordingPreset::Process => "process.jsonl",
            RecordingPreset::Thread => "thread.jsonl",
            RecordingPreset::Image => "image.jsonl",
            RecordingPreset::File => "file.jsonl",
            RecordingPreset::Registry => "registry.jsonl",
            RecordingPreset::Network => "network.jsonl",
        };
        assert(file@ =~= self.name() + ".jsonl"@);
        file
    }

    pub fn category(self) -> (category: &'static str)
        ensures
            category@ == self.name(),
    {
        match self {
            RecordingPreset::Process => "process",
            RecordingPreset::Thread => "thread",
            RecordingPreset::Image => "image",
            RecordingPreset::File => "file",
            RecordingPreset::Registry => "registry",
            RecordingPreset::Network => "network",
        }
    }
}

/// A request for an event recording.
#[derive(Debug, PartialEq, Eq)]
pub struct StartRecording {
    pub target: RecordingTarget,
    pub presets: Vec<RecordingPreset>,
}

impl StartRecording {
    /// Accepts a request that names a family of events and a target that can
    /// be recorded, unchanged.
    pub fn validate(self) -> (request: Result<Self, RecordingError>)
        ensures
            request == verdict(
                if self.presets@.len() == 0 {
                    Some(RecordingError::EmptyPresets)
                } else {
                    target_refusal(self.target)
                },
                self,
            ),
    {
        if self.presets.len() == 0 {
            return Err(RecordingError::EmptyPresets);
        }
        let presets: Vec<RecordingPreset> = self.presets;
        match self.target.validate() {
            Ok(target) => Ok(StartRecording { target, presets }),
            Err(error) => Err(error),
        }
    }
}

/// The stages of a recording.
#[derive(Clone, Copy, Debug, PartialEq, Eq, Structural)]
pub enum RecordingState {
    Starting,
    Running,
    Stopping,
    Stopped,
    Canceled,
    Failed,
    Killed,
}

impl RecordingState {
    /// Whether the recording has ended.
    pub fn is_terminal(&self) -> (yes: bool)
        ensures
            yes == (*self is Stopped || *self is Canceled || *self is Failed || *self is Killed),
    {
        match self {
            RecordingState::Stopped => true,
            RecordingState::Canceled => true,
            RecordingState::Failed => true,
            RecordingState::Killed => true,
            _ => false,
        }
    }
}

/// The families that are recorded where a request names none: all of them, in
/// order.
pub fn default_presets() -> (presets: Vec<RecordingPreset>)
    ensures
        presets@ == seq![
            RecordingPreset::Process,
            RecordingPreset::Thread,
            RecordingPreset::Image,
            RecordingPreset::File,
            RecordingPreset::Registry,
            RecordingPreset::Network,
        ],
{
    let defaults: [RecordingPreset; 6] = RecordingPreset::DEFAULTS;
    let mut presets: Vec<RecordingPreset> = Vec::new();
    let mut i: usize = 0;
    while i < 6
        invariant
            i <= 6,
            presets@ == defaults@.take(i as int),
        decreases 6 - i,
    {
        presets.push(defaults[i]);
        i = i + 1;
    }
    assert(presets@ =~= seq![
        RecordingPreset::Process,
        RecordingPreset::Thread,
        RecordingPreset::Image,
        RecordingPreset::File,
        RecordingPreset::Registry,
        RecordingPreset::Network,
    ]);
    presets
}

/// A request for a time travel recording.
#[derive(Debug, PartialEq, Eq)]
pub struct RecordTtd {
    pub target: TtdTarget,
    pub timeout_ms: u64,
    pub options: TtdRecordingOptions,
}

/// Why a time travel request is refused, if it is.
pub open spec fn ttd_refusal(request: RecordTtd) -> Option<RecordingError> {
    if request.timeout_ms == 0 {
        Some(RecordingError::InvalidTtdTimeout)
    } else if ttd_target_refusal(request.target) is Some {
        ttd_target_refusal(request.target)
    } else {
        options_refusal(request.options, request.target)
    }
}

impl RecordTtd {
    /// Accepts a request that can be recorded, unchanged.
    pub fn validate(self) -> (request: Result<Self, RecordingError>)
        ensures
            request == verdict(ttd_refusal(self), self),
    {
        if self.timeout_ms == 0 {
            return Err(RecordingError::InvalidTtdTimeout);
        }
        let timeout_ms: u64 = self.timeout_ms;
        let options: TtdRecordingOptions = self.options;
        match self.target.validate() {
            Err(error) => Err(error),
            Ok(target) => match options.validate(&target) {
                Err(error) => Err(error),
                Ok(()) => Ok(RecordTtd { target, timeout_ms, options }),
            },
        }
    }
}

/// What a time travel recording records.
#[derive(Debug, PartialEq, Eq)]
pub enum TtdTarget {
    Launch { executable: HostPath, args: Vec<String> },
    Attach { pid: u32 },
    Monitor { program: HostPath, cmd_line_filter: Option<String> },
}

/// Why a program to monitor is refused, if it is: it is a file name or an
/// absolute path, without a step to a parent directory.
pub open spec fn monitor_refusal(program: PathView) -> Option<RecordingError> {
    let path = path_refusal(program, RecordingError::EmptyTtdMonitorProgram);
    if path is Some {
        path
    } else if program.parts.contains(PartView::ParentDir) {
        Some(RecordingError::InvalidTtdMonitorProgram)
    } else if (program.text.contains('\\') || program.text.contains('/')) && !program.absolute {
        Some(RecordingError::InvalidTtdMonitorProgram)
    } else {
        None
    }
}

/// Why a command line filter is refused, if it is.
pub open spec fn filter_refusal(filter: Option<String>) -> Option<RecordingError> {
    match filter {
        None => None,
        Some(text) => if blank(text@) {
            Some(RecordingError::EmptyTtdCommandLineFilter)
        } else if has_control(text@) {
            Some(RecordingError::ControlCharacters)
        } else {
            None
        },
    }
}

/// Why a time travel target is refused, if it is.
pub open spec fn ttd_target_refusal(target: TtdTarget) -> Option<RecordingError> {
    match target {
        TtdTarget::Launch { executable, args } => {
            let path = path_refusal(executable@, RecordingError::EmptyTtdExecutable);
            if path is Some {
                path
            } else {
                args_refusal(args@)
            }
        },
        TtdTarget::Attach { pid } => if pid == 0 {
            Some(RecordingError::InvalidTtdAttachPid)
        } else {
            None
        },
        TtdTarget::Monitor { program, cmd_line_filter } => if monitor_refusal(program@) is Some {
            monitor_refusal(program@)
        } else {
            filter_refusal(cmd_line_filter)
        },
    }
}

fn validate_ttd_monitor_program(path: &HostPath) -> (verdict: Result<(), RecordingError>)
    ensures
        verdict == self::verdict(monitor_refusal(path@), ()),
{
    if let Err(error) = validate_path(path, RecordingError::EmptyTtdMonitorProgram) {
        return Err(error);
    }
    if path.has_parent_dir() {
        return Err(RecordingError::InvalidTtdMonitorProgram);
    }
    if path.has_separator() && !path.absolute {
        return Err(RecordingError::InvalidTtdMonitorProgram);
    }
    Ok(())
}

impl TtdTarget {
    /// Accepts a target that can be recorded, unchanged.
    pub fn validate(self) -> (target: Result<Self, RecordingError>)
        ensures
            target == verdict(ttd_target_refusal(self), self),
    {
        match self {
            TtdTarget::Launch { executable, args } => {
                if let Err(error) = validate_path(&executable, RecordingError::EmptyTtdExecutable) {
                    return Err(error);
                }
                if let Err(error) = validate_args(&args) {
                    return Err(error);
                }
                Ok(TtdTarget::Launch { executable, args })
            },
            TtdTarget::Attach { pid } => {
                if pid == 0 {
                    return Err(RecordingError::InvalidTtdAttachPid);
                }
                Ok(TtdTarget::Attach { pid })
            },
            TtdTarget::Monitor { program, cmd_line_filter } => {
                if let Err(error) = validate_ttd_monitor_program(&program) {
                    return Err(error);
                }
                if let Some(filter) = &cmd_line_filter {
                    if is_blank(filter.as_str()) {
                        return Err(RecordingError::EmptyTtdCommandLineFilter);
                    }
                    if has_control_characters(filter.as_str()) {
                        return Err(RecordingError::ControlCharacters);
                    }
                }
                Ok(TtdTarget::Monitor { program, cmd_line_filter })
            },
        }
    }

    pub fn mode(&self) -> (mode: &'static str)
        ensures
            mode@ == match self {
                TtdTarget::Launch { .. } => "launch"@,
                TtdTarget::Attach { .. } => "attach"@,
                TtdTarget::Monitor { .. } => "monitor"@,
            },
    {
        match self {
            TtdTarget::Launch { .. } => "launch",
            TtdTarget::Attach { .. } => "attach",
            TtdTarget::Monitor { .. } => "monitor",
        }
    }
}

/// How a time travel recording is made.
#[derive(Debug, PartialEq, Eq)]
pub struct TtdRecordingOptions {
    pub children: bool,
    pub no_ui: bool,
    pub accept_eula: bool,
    pub ring: bool,
    pub max_file_mb: u32,
    pub modules: Vec<String>,
    pub record_mode: TtdRecordMode,
    pub replay_cpu_support: TtdReplayCpuSupport,
}

impl Default for TtdRecordingOptions {
    fn default() -> (options: Self)
        ensures
            !options.children,
            options.no_ui,
            !options.accept_eula,
            !options.ring,
            options.max_file_mb == 2048,
            options.modules@.len() == 0,
            options.record_mode == TtdRecordMode::Automatic,
            options.replay_cpu_support == TtdReplayCpuSupport::Default,
    {
        TtdRecordingOptions {
            children: false,
            no_ui: true,
            accept_eula: false,
            ring: false,
            max_file_mb: 2048,
            modules: Vec::new(),
            record_mode: TtdRecordMode::Automatic,
            replay_cpu_support: TtdReplayCpuSupport::Default,
        }
    }
}

/// A module name that cannot stand on the command line.
pub open spec fn bad_module(module: String) -> bool {
    blank(module@) || has_control(module@)
}

/// Why options are refused for a target, if they are.
pub open spec fn options_refusal(options: TtdRecordingOptions, target: TtdTarget) -> Option<
    RecordingError,
> {
    if options.max_file_mb == 0 {
        Some(RecordingError::InvalidTtdMaxFile)
    } else if options.ring && options.max_file_mb > 32768 {
        Some(RecordingError::TtdRingFileTooLarge)
    } else if !options.ring && options.max_file_mb > 1_048_576 {
        Some(RecordingError::TtdFileTooLarge)
    } else if !(target is Monitor) && options.modules@.len() > 64 {
        Some(RecordingError::TtdModulesTooLarge)
    } else if exists|i: int| 0 <= i < options.modules@.len() && bad_module(
        #[trigger] options.modules@[i],
    ) {
        Some(RecordingError::ControlCharacters)
    } else {
        None
    }
}

impl TtdRecordingOptions {
    /// Accepts options under which the target can be recorded.
    pub fn validate(&self, target: &TtdTarget) -> (verdict: Result<(), RecordingError>)
        ensures
            verdict == self::verdict(options_refusal(*self, *target), ()),
    {
        if self.max_file_mb == 0 {
            return Err(RecordingError::InvalidTtdMaxFile);
        }
        if self.ring && self.max_file_mb > 32768 {
            return Err(RecordingError::TtdRingFileTooLarge);
        }
        if !self.ring && self.max_file_mb > 1_048_576 {
            return Err(RecordingError::TtdFileTooLarge);
        }
        let monitored: bool = match target {
            TtdTarget::Monitor { .. } => true,
            _ => false,
        };
        if !monitored && self.modules.len() > 64 {
            return Err(RecordingError::TtdModulesTooLarge);
        }
        let ghost refusal = options_refusal(*self, *target);
        let mut i: usize = 0;
        while i < self.modules.len()
            invariant
                i <= self.modules.len(),
                forall|k: int| 0 <= k < i ==> !bad_module(#[trigger] self.modules@[k]),
                refusal == options_refusal(*self, *target),
                refusal matches Some(error) ==> error == RecordingError::ControlCharacters,
                refusal is Some <==> exists|k: int|
                    0 <= k < self.modules@.len() && bad_module(#[trigger] self.modules@[k]),
            decreases self.modules.len() - i,
        {
            if is_blank(self.modules[i].as_str()) || has_control_characters(
                self.modules[i].as_str(),
            ) {
                assert(bad_module(self.modules@[i as int]));
                return Err(RecordingError::ControlCharacters);
            }
            i = i + 1;
        }
        Ok(())
    }
}

/// When the recorder records.
#[derive(Clone, Copy, Debug, PartialEq, Eq, Structural)]
pub enum TtdRecordMode {
    Automatic,
    Manual,
}

impl TtdRecordMode {
    pub open spec fn arg(self) -> Seq<char> {
        match self {
            TtdRecordMode::Automatic => "Automatic"@,
            TtdRecordMode::Manual => "Manual"@,
        }
    }

    pub fn as_ttd_arg(self) -> (arg: &'static str)
        ensures
            arg@ == self.arg(),
    {
        match self {
            TtdRecordMode::Automatic => "Automatic",
            TtdRecordMode::Manual => "Manual",
        }
    }
}

/// Which processors a recording can be replayed on.
#[derive(Clone, Copy, Debug, PartialEq, Eq, Structural)]
pub enum TtdReplayCpuSupport {
    Default,
    MostConservative,
    MostAggressive,
    IntelAvxRequired,
    IntelAvx2Required,
}

impl TtdReplayCpuSupport {
    pub open spec fn arg(self) -> Seq<char> {
        match self {
            TtdReplayCpuSupport::Default => "Default"@,
            TtdReplayCpuSupport::MostConservative => "MostConservative"@,
            TtdReplayCpuSupport::MostAggressive => "MostAggressive"@,
            TtdReplayCpuSupport::IntelAvxRequired => "IntelAvxRequired"@,
            TtdReplayCpuSupport::IntelAvx2Required => "IntelAvx2Required"@,
        }
    }

    pub fn as_ttd_arg(self) -> (arg: &'static str)
        ensures
            arg@ == self.arg(),
    {
        match self {
            TtdReplayCpuSupport::Default => "Default",
            TtdReplayCpuSupport::MostConservative => "MostConservative",
            TtdReplayCpuSupport::MostAggressive => "MostAggressive",
            TtdReplayCpuSupport::IntelAvxRequired => "IntelAvxRequired",
            TtdReplayCpuSupport::IntelAvx2Required => "IntelAvx2Required",
        }
    }
}

/// An argument on a command line: a text, or a path as the host writes it.
#[derive(Debug, PartialEq, Eq)]
pub enum CommandArg {
    Text(String),
    Path(HostPath),
}

/// An argument, as contracts speak of it.
pub enum ArgView {
    Text(Seq<char>),
    Path(PathView),
}

impl View for CommandArg {
    type V = ArgView;

    open spec fn view(&self) -> ArgView {
        match self {
            CommandArg::Text(text) => ArgView::Text(text@),
            CommandArg::Path(path) => ArgView::Path(path@),
        }
    }
}

/// The arguments behind a list.
pub open spec fn arg_views(args: Seq<CommandArg>) -> Seq<ArgView> {
    args.map_values(|arg: CommandArg| arg@)
}

/// An argument that stands only where a condition holds.
pub open spec fn flag_args(on: bool, text: Seq<char>) -> Seq<ArgView> {
    if on {
        seq![ArgView::Text(text)]
    } else {
        seq![]
    }
}

/// An argument and its value, which stand only where a condition holds.
pub open spec fn option_args(on: bool, name: Seq<char>, value: Seq<char>) -> Seq<ArgView> {
    if on {
        seq![ArgView::Text(name), ArgView::Text(value)]
    } else {
        seq![]
    }
}

/// The arguments that name modules.
pub open spec fn module_args(modules: Seq<String>) -> Seq<ArgView>
    decreases modules.len(),
{
    if modules.len() == 0 {
        seq![]
    } else {
        module_args(modules.drop_last()) + seq![
            ArgView::Text("-module"@),
            ArgView::Text(modules.last()@),
        ]
    }
}

/// The arguments that name the target. They come last, and those of a program
/// that is launched come behind it.
pub open spec fn target_args(target: TtdTarget) -> Seq<ArgView> {
    match target {
        TtdTarget::Launch { executable, args } => seq![
            ArgView::Text("-launch"@),
            ArgView::Path(executable@),
        ] + args@.map_values(|arg: String| ArgView::Text(arg@)),
        TtdTarget::Attach { pid } => seq![
            ArgView::Text("-attach"@),
            ArgView::Text(decimal(pid as nat)),
        ],
        TtdTarget::Monitor { program, cmd_line_filter } => option_args(
            cmd_line_filter is Some,
            "-cmdLineFilter"@,
            match cmd_line_filter {
                Some(filter) => filter@,
                None => seq![],
            },
        ) + seq![ArgView::Text("-monitor"@), ArgView::Path(program@)],
    }
}

/// The arguments that come before the target.
pub open spec fn setting_args(options: TtdRecordingOptions, traces_dir: PathView) -> Seq<ArgView> {
    seq![ArgView::Text("-out"@), ArgView::Path(traces_dir)] + flag_args(options.no_ui, "-noUI"@)
        + flag_args(options.accept_eula, "-accepteula"@) + flag_args(
        options.children,
        "-children"@,
    ) + flag_args(options.ring, "-ring"@) + option_args(
        true,
        "-maxFile"@,
        decimal(options.max_file_mb as nat),
    ) + module_args(options.modules@) + option_args(
        options.record_mode != TtdRecordMode::Automatic,
        "-recordmode"@,
        options.record_mode.arg(),
    ) + option_args(
        options.replay_cpu_support != TtdReplayCpuSupport::Default,
        "-replayCpuSupport"@,
        options.replay_cpu_support.arg(),
    )
}

/// The command line of the recorder.
pub open spec fn ttd_args(
    target: TtdTarget,
    options: TtdRecordingOptions,
    traces_dir: PathView,
) -> Seq<ArgView> {
    setting_args(options, traces_dir) + target_args(target)
}

fn push_text(args: &mut Vec<CommandArg>, text: &str)
    ensures
        arg_views(final(args)@) == arg_views(old(args)@) + seq![ArgView::Text(text@)],
{
    args.push(CommandArg::Text(text.to_owned()));
    assert(arg_views(args@) =~= arg_views(old(args)@) + seq![ArgView::Text(text@)]);
}

fn push_path(args: &mut Vec<CommandArg>, path: &HostPath)
    ensures
        arg_views(final(args)@) == arg_views(old(args)@) + seq![ArgView::Path(path@)],
{
    args.push(CommandArg::Path(path.clone()));
    assert(arg_views(args@) =~= arg_views(old(args)@) + seq![ArgView::Path(path@)]);
}

fn push_flag(args: &mut Vec<CommandArg>, on: bool, text: &str)
    ensures
        arg_views(final(args)@) == arg_views(old(args)@) + flag_args(on, text@),
{
    if on {
        push_text(args, text);
    }
    assert(arg_views(args@) =~= arg_views(old(args)@) + flag_args(on, text@));
}

fn push_option(args: &mut Vec<CommandArg>, on: bool, name: &str, value: &str)
    ensures
        arg_views(final(args)@) == arg_views(old(args)@) + option_args(on, name@, value@),
{
    if on {
        push_text(args, name);
        push_text(args, value);
    }
    assert(arg_views(args@) =~= arg_views(old(args)@) + option_args(on, name@, value@));
}

fn push_modules(args: &mut Vec<CommandArg>, modules: &Vec<String>)
    ensures
        arg_views(final(args)@) == arg_views(old(args)@) + module_args(modules@),
{
    let ghost before = arg_views(args@);
    let mut i: usize = 0;
    assert(arg_views(args@) =~= before + module_args(modules@.take(0)));
    while i < modules.len()
        invariant
            i <= modules.len(),
            arg_views(args@) == before + module_args(modules@.take(i as int)),
        decreases modules.len() - i,
    {
        push_text(args, "-module");
        push_text(args, modules[i].as_str());
        assert(modules@.take(i + 1).drop_last() =~= modules@.take(i as int));
        assert(arg_views(args@) =~= before + module_args(modules@.take(i + 1)));
        i = i + 1;
    }
    assert(modules@.take(i as int) =~= modules@);
}

fn push_target(args: &mut Vec<CommandArg>, target: &TtdTarget)
    ensures
        arg_views(final(args)@) == arg_views(old(args)@) + target_args(*target),
{
    let ghost before = arg_views(args@);
    match target {
        TtdTarget::Launch { executable, args: target_args } => {
            push_text(args, "-launch");
            push_path(args, executable);
            let ghost head = arg_views(args@);
            let ghost tail = target_args@.map_values(|arg: String| ArgView::Text(arg@));
            let mut i: usize = 0;
            assert(arg_views(args@) =~= head + tail.take(0));
            while i < target_args.len()
                invariant
                    i <= target_args.len(),
                    tail == target_args@.map_values(|arg: String| ArgView::Text(arg@)),
                    arg_views(args@) == head + tail.take(i as int),
                decreases target_args.len() - i,
            {
                push_text(args, target_args[i].as_str());
                assert(arg_views(args@) =~= head + tail.take(i + 1));
                i = i + 1;
            }
            assert(tail.take(i as int) =~= tail);
        },
        TtdTarget::Attach { pid } => {
            push_text(args, "-attach");
            push_text(args, decimal_text(*pid as u64).as_str());
        },
        TtdTarget::Monitor { program, cmd_line_filter } => {
            match cmd_line_filter {
                Some(filter) => push_option(args, true, "-cmdLineFilter", filter.as_str()),
                None => {},
            }
            push_text(args, "-monitor");
            push_path(args, program);
        },
    }
    assert(arg_views(args@) =~= before + self::target_args(*target));
}

/// The command line of the recorder for a target.
pub fn build_ttd_args(
    target: &TtdTarget,
    options: &TtdRecordingOptions,
    traces_dir: &HostPath,
) -> (args: Vec<CommandArg>)
    ensures
        arg_views(args@) == ttd_args(*target, *options, traces_dir@),
{
    let mut args: Vec<CommandArg> = Vec::new();
    push_text(&mut args, "-out");
    push_path(&mut args, traces_dir);
    assert(arg_views(args@) =~= seq![ArgView::Text("-out"@), ArgView::Path(traces_dir@)]);
    push_flag(&mut args, options.no_ui, "-noUI");
    push_flag(&mut args, options.accept_eula, "-accepteula");
    push_flag(&mut args, options.children, "-children");
    push_flag(&mut args, options.ring, "-ring");
    push_option(&mut args, true, "-maxFile", decimal_text(options.max_file_mb as u64).as_str());
    push_modules(&mut args, &options.modules);
    push_option(
        &mut args,
        options.record_mode != TtdRecordMode::Automatic,
        "-recordmode",
        options.record_mode.as_ttd_arg(),
    );
    push_option(
        &mut args,
        options.replay_cpu_support != TtdReplayCpuSupport::Default,
        "-replayCpuSupport",
        options.replay_cpu_support.as_ttd_arg(),
    );
    assert(arg_views(args@) == setting_args(*options, traces_dir@));
    push_target(&mut args, target);
    args
}

/// What the recorder is told to stop: a text, or a file name that is not
/// Unicode, by its encoded bytes.
#[derive(Debug, PartialEq, Eq)]
pub enum StopTarget {
    Text(String),
    Opaque(Vec<u8>),
}

/// What the recorder is told to stop, as contracts speak of it.
pub enum StopView {
    Text(Seq<char>),
    Opaque(Seq<u8>),
}

impl View for StopTarget {
    type V = StopView;

    open spec fn view(&self) -> StopView {
        match self {
            StopTarget::Text(text) => StopView::Text(text@),
            StopTarget::Opaque(bytes) => StopView::Opaque(bytes@),
        }
    }
}

/// The name that a path ends with, where it ends with one.
pub open spec fn last_name(parts: Seq<PartView>) -> Option<StopView> {
    if parts.len() == 0 {
        None
    } else {
        match parts.last() {
            PartView::Normal(name) => Some(StopView::Text(name)),
            PartView::Opaque(bytes) => Some(StopView::Opaque(bytes)),
            _ => None,
        }
    }
}

/// What the recorder is told to stop for a target: everything for a monitor,
/// else the recorded process, else the target itself.
pub open spec fn stop_target(target: TtdTarget, recorded_pid: Option<u32>) -> Option<StopView> {
    match (target, recorded_pid) {
        (TtdTarget::Monitor { .. }, _) => Some(StopView::Text("all"@)),
        (_, Some(pid)) => Some(StopView::Text(decimal(pid as nat))),
        (TtdTarget::Attach { pid }, None) => Some(StopView::Text(decimal(pid as nat))),
        (TtdTarget::Launch { executable, .. }, None) => last_name(executable@.parts),
    }
}

/// What the recorder is told to stop for a target.
pub fn ttd_stop_target(target: &TtdTarget, recorded_pid: Option<u32>) -> (stop: Option<StopTarget>)
    ensures
        match stop {
            Some(found) => stop_target(*target, recorded_pid) == Some(found@),
            None => stop_target(*target, recorded_pid) is None,
        },
{
    match target {
        TtdTarget::Monitor { .. } => Some(StopTarget::Text("all".to_owned())),
        TtdTarget::Attach { pid } => {
            let stopped: u32 = match recorded_pid {
                Some(recorded) => recorded,
                None => *pid,
            };
            Some(StopTarget::Text(decimal_text(stopped as u64)))
        },
        TtdTarget::Launch { executable, .. } => match recorded_pid {
            Some(pid) => Some(StopTarget::Text(decimal_text(pid as u64))),
            None => match executable.file_name() {
                Some(PathPart::Normal(name)) => Some(StopTarget::Text(name.clone())),
                Some(PathPart::Opaque(bytes)) => Some(StopTarget::Opaque(copy_bytes(bytes))),
                _ => None,
            },
        },
    }
}

/// No text among the arguments holds a control character.
pub open spec fn clean(args: Seq<ArgView>) -> bool {
    forall|i: int|
        0 <= i < args.len() ==> (#[trigger] args[i] matches ArgView::Text(text) ==> !has_control(
            text,
        ))
}

proof fn lemma_clean_sum(left: Seq<ArgView>, right: Seq<ArgView>)
    requires
        clean(left),
        clean(right),
    ensures
        clean(left + right),
{
    assert forall|i: int| 0 <= i < (left + right).len() implies (#[trigger] (left + right)[i]
        matches ArgView::Text(text) ==> !has_control(text)) by {
        if i < left.len() {
            assert((left + right)[i] == left[i]);
        } else {
            assert((left + right)[i] == right[i - left.len()]);
        }
    }
}

/// Printable ASCII holds no control character.
proof fn lemma_printable_is_clean(text: Seq<char>)
    requires
        forall|i: int| 0 <= i < text.len() ==> ' ' <= #[trigger] text[i] <= '~',
    ensures
        !has_control(text),
{
}

proof fn lemma_decimal_is_clean(value: nat)
    ensures
        !has_control(decimal(value)),
{
    law_decimal_is_digits(value);
    lemma_printable_is_clean(decimal(value));
}

proof fn lemma_modules_are_clean(modules: Seq<String>)
    requires
        forall|i: int| 0 <= i < modules.len() ==> !bad_module(#[trigger] modules[i]),
    ensures
        clean(module_args(modules)),
    decreases modules.len(),
{
    if modules.len() > 0 {
        assert forall|i: int| 0 <= i < modules.drop_last().len() implies !bad_module(
            #[trigger] modules.drop_last()[i],
        ) by {
            assert(modules.drop_last()[i] == modules[i]);
        }
        lemma_modules_are_clean(modules.drop_last());
        assert(!bad_module(modules[modules.len() - 1]));
        reveal_strlit("-module");
        lemma_printable_is_clean("-module"@);
        lemma_clean_sum(
            module_args(modules.drop_last()),
            seq![ArgView::Text("-module"@), ArgView::Text(modules.last()@)],
        );
    }
}

proof fn lemma_settings_are_clean(options: TtdRecordingOptions, traces_dir: PathView)
    requires
        forall|i: int| 0 <= i < options.modules@.len() ==> !bad_module(#[trigger] options.modules@[i]),
    ensures
        clean(setting_args(options, traces_dir)),
{
    reveal_strlit("-out");
    lemma_printable_is_clean("-out"@);
    reveal_strlit("-noUI");
    lemma_printable_is_clean("-noUI"@);
    reveal_strlit("-accepteula");
    lemma_printable_is_clean("-accepteula"@);
    reveal_strlit("-children");
    lemma_printable_is_clean("-children"@);
    reveal_strlit("-ring");
    lemma_printable_is_clean("-ring"@);
    reveal_strlit("-maxFile");
    lemma_printable_is_clean("-maxFile"@);
    reveal_strlit("-recordmode");
    lemma_printable_is_clean("-recordmode"@);
    reveal_strlit("Manual");
    lemma_printable_is_clean("Manual"@);
    reveal_strlit("-replayCpuSupport");
    lemma_printable_is_clean("-replayCpuSupport"@);
    reveal_strlit("MostConservative");
    lemma_printable_is_clean("MostConservative"@);
    reveal_strlit("MostAggressive");
    lemma_printable_is_clean("MostAggressive"@);
    reveal_strlit("IntelAvxRequired");
    lemma_printable_is_clean("IntelAvxRequired"@);
    reveal_strlit("IntelAvx2Required");
    lemma_printable_is_clean("IntelAvx2Required"@);
    lemma_decimal_is_clean(options.max_file_mb as nat);
    lemma_modules_are_clean(options.modules@);
    let a = seq![ArgView::Text("-out"@), ArgView::Path(traces_dir)];
    let b = a + flag_args(options.no_ui, "-noUI"@);
    lemma_clean_sum(a, flag_args(options.no_ui, "-noUI"@));
    let c = b + flag_args(options.accept_eula, "-accepteula"@);
    lemma_clean_sum(b, flag_args(options.accept_eula, "-accepteula"@));
    let d = c + flag_args(options.children, "-children"@);
    lemma_clean_sum(c, flag_args(options.children, "-children"@));
    let e = d + flag_args(options.ring, "-ring"@);
    lemma_clean_sum(d, flag_args(options.ring, "-ring"@));
    let size = option_args(true, "-maxFile"@, decimal(options.max_file_mb as nat));
    lemma_clean_sum(e, size);
    lemma_clean_sum(e + size, module_args(options.modules@));
    let f = e + size + module_args(options.modules@);
    let mode = option_args(
        options.record_mode != TtdRecordMode::Automatic,
        "-recordmode"@,
        options.record_mode.arg(),
    );
    lemma_clean_sum(f, mode);
    lemma_clean_sum(
        f + mode,
        option_args(
            options.replay_cpu_support != TtdReplayCpuSupport::Default,
            "-replayCpuSupport"@,
            options.replay_cpu_support.arg(),
        ),
    );
}

/// The command line for a request that was accepted holds no control
/// character in any of its texts, whatever the request holds, and ends with
/// the target.
pub proof fn law_accepted_requests_give_clean_command_lines(
    request: RecordTtd,
    traces_dir: PathView,
)
    requires
        verdict(ttd_refusal(request), request) is Ok,
    ensures
        clean(ttd_args(request.target, request.options, traces_dir)),
        target_args(request.target).is_suffix_of(
            ttd_args(request.target, request.options, traces_dir),
        ),
{
    let settings = setting_args(request.options, traces_dir);
    let named = target_args(request.target);
    assert((settings + named).subrange(
        (settings + named).len() - named.len(),
        (settings + named).len() as int,
    ) =~= named);
    lemma_settings_are_clean(request.options, traces_dir);
    match request.target {
        TtdTarget::Launch { executable, args } => {
            reveal_strlit("-launch");
            lemma_printable_is_clean("-launch"@);
            let head = seq![ArgView::Text("-launch"@), ArgView::Path(executable@)];
            let tail = args@.map_values(|arg: String| ArgView::Text(arg@));
            assert forall|i: int| 0 <= i < tail.len() implies (#[trigger] tail[i]
                matches ArgView::Text(text) ==> !has_control(text)) by {
                assert(!has_control(args@[i]@));
            }
            lemma_clean_sum(head, tail);
        },
        TtdTarget::Attach { pid } => {
            reveal_strlit("-attach");
            lemma_printable_is_clean("-attach"@);
            lemma_decimal_is_clean(pid as nat);
        },
        TtdTarget::Monitor { program, cmd_line_filter } => {
            reveal_strlit("-monitor");
            lemma_printable_is_clean("-monitor"@);
            reveal_strlit("-cmdLineFilter");
            lemma_printable_is_clean("-cmdLineFilter"@);
        },
    }
    lemma_clean_sum(settings, named);
}

/// A program that is accepted for monitoring is named without a step to a
/// parent directory, and by an absolute path wherever it is more than a name.
pub proof fn law_monitored_programs_are_names_or_absolute(
    program: HostPath,
    cmd_line_filter: Option<String>,
)
    requires
        ttd_target_refusal(TtdTarget::Monitor { program, cmd_line_filter }) is None,
    ensures
        program@.text.len() > 0,
        !has_control(program@.text),
        !program@.parts.contains(PartView::ParentDir),
        program@.absolute || !(program@.text.contains('\\') || program@.text.contains('/')),
{
}

} // verus!
