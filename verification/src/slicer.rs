//! Driving the slicing program.
//!
//! The slicer is a program of its own. This module decides what is asked of
//! it and what its answers mean; running it and looking at the disk is the
//! caller's part. A slicing job is a small machine: each step takes what the
//! caller found out and says what to do next.

use std::path::PathBuf;
use vstd::prelude::*;
use vstd::string::StringExecFns;
use vstd::utf8::{decode_utf8, valid_utf8};
use crate::paths::{join_path, joined_path, path_text, text_of_path};
use crate::text::{text_of, texts};

verus! {

/// Decodes bytes with `String::from_utf8`, which succeeds exactly on
/// well-formed UTF-8 and then gives the text that the bytes encode.
#[verifier::external_body]
pub(crate) fn utf8_text(bytes: Vec<u8>) -> (r: Option<String>)
    ensures
        r is Some <==> valid_utf8(bytes@),
        r matches Some(text) ==> text@ == decode_utf8(bytes@),
{
    match String::from_utf8(bytes) {
        Ok(text) => Some(text),
        Err(_) => None,
    }
}

/// Whether `c` is a digit of lower-case hexadecimal.
pub open spec fn is_lower_hex(c: char) -> bool {
    48 <= c as u32 <= 57 || 97 <= c as u32 <= 102
}

/// Whether `s` is a random identifier in its hyphenated form: 32 lower-case
/// hexadecimal digits in groups of 8, 4, 4, 4 and 12, with the marks of a
/// random identifier at the head of the third and fourth group.
pub open spec fn is_uuid_text(s: Seq<char>) -> bool {
    &&& s.len() == 36
    &&& forall|i: int|
        0 <= i < 36 ==> if i == 8 || i == 13 || i == 18 || i == 23 {
            s[i] == '-'
        } else {
            is_lower_hex(#[trigger] s[i])
        }
    &&& s[14] == '4'
    &&& (s[19] == '8' || s[19] == '9' || s[19] == 'a' || s[19] == 'b')
}

/// A fresh random identifier from `uuid::Uuid::new_v4`, in the hyphenated
/// lower-case form that its `Display` gives. Which identifier comes is left
/// open; only its form is stated. The call panics where the operating
/// system has no random bytes to give.
#[verifier::external_body]
pub(crate) fn fresh_uuid() -> (s: String)
    ensures
        is_uuid_text(s@),
{
    uuid::Uuid::new_v4().to_string()
}

/// The operating system that the slicer is installed on.
#[derive(Clone, Copy, Debug, PartialEq, Eq, Structural)]
pub enum Platform {
    MacOs,
    Windows,
    Linux,
}

/// Why a slicing job failed.
#[derive(Debug, PartialEq, Eq)]
pub enum SliceError {
    /// The configuration path is not a directory.
    ConfigNotDirectory,
    /// A configuration file's path is not Unicode.
    InvalidConfigPath,
    /// The output file's path is not Unicode.
    InvalidOutputPath,
    /// The model file's path is not Unicode.
    InvalidInputPath,
    /// The slicer is not installed.
    SlicerNotFound,
    /// The slicer could not be run.
    CommandFailed,
    /// The slicer failed, and what it printed is not UTF-8.
    BadDiagnostics,
    /// The slicer failed, and printed this.
    SlicerFailed { stdout: String, stderr: String },
    /// The slicer ended well and left no output file.
    NoOutput,
    /// An answer came that the job was not waiting for.
    Unexpected,
}

/// A `SliceError` as a mathematical value.
pub enum SliceErrorView {
    ConfigNotDirectory,
    InvalidConfigPath,
    InvalidOutputPath,
    InvalidInputPath,
    SlicerNotFound,
    CommandFailed,
    BadDiagnostics,
    SlicerFailed { stdout: Seq<char>, stderr: Seq<char> },
    NoOutput,
    Unexpected,
}

impl View for SliceError {
    type V = SliceErrorView;

    open spec fn view(&self) -> SliceErrorView {
        match self {
            SliceError::ConfigNotDirectory => SliceErrorView::ConfigNotDirectory,
            SliceError::InvalidConfigPath => SliceErrorView::InvalidConfigPath,
            SliceError::InvalidOutputPath => SliceErrorView::InvalidOutputPath,
            SliceError::InvalidInputPath => SliceErrorView::InvalidInputPath,
            SliceError::SlicerNotFound => SliceErrorView::SlicerNotFound,
            SliceError::CommandFailed => SliceErrorView::CommandFailed,
            SliceError::BadDiagnostics => SliceErrorView::BadDiagnostics,
            SliceError::SlicerFailed { stdout, stderr } => SliceErrorView::SlicerFailed {
                stdout: stdout@,
                stderr: stderr@,
            },
            SliceError::NoOutput => SliceErrorView::NoOutput,
            SliceError::Unexpected => SliceErrorView::Unexpected,
        }
    }
}

/// What a job is waiting for.
#[derive(Debug, PartialEq, Eq)]
pub enum SliceState {
    /// To learn whether the configuration path is a directory.
    CheckingConfig { file: PathBuf, temp_dir: PathBuf, platform: Platform },
    /// To learn whether the slicer is installed.
    Locating { platform: Platform, output: String, args: Vec<String> },
    /// For the slicer to end.
    Running { output: String },
    /// To learn whether the output file exists.
    CheckingOutput { output: String },
    /// For nothing: the job is over.
    Finished,
}

/// A `SliceState` as a mathematical value.
pub enum SliceStateView {
    CheckingConfig { file: PathBuf, temp_dir: PathBuf, platform: Platform },
    Locating { platform: Platform, output: Seq<char>, args: Seq<Seq<char>> },
    Running { output: Seq<char> },
    CheckingOutput { output: Seq<char> },
    Finished,
}

impl View for SliceState {
    type V = SliceStateView;

    open spec fn view(&self) -> SliceStateView {
        match self {
            SliceState::CheckingConfig { file, temp_dir, platform } => {
                SliceStateView::CheckingConfig {
                    file: *file,
                    temp_dir: *temp_dir,
                    platform: *platform,
                }
            },
            SliceState::Locating { platform, output, args } => SliceStateView::Locating {
                platform: *platform,
                output: output@,
                args: texts(args@),
            },
            SliceState::Running { output } => SliceStateView::Running { output: output@ },
            SliceState::CheckingOutput { output } => SliceStateView::CheckingOutput {
                output: output@,
            },
            SliceState::Finished => SliceStateView::Finished,
        }
    }
}

/// What the caller found out.
#[derive(Debug, PartialEq, Eq)]
pub enum SliceEvent {
    /// Whether the configuration path is a directory.
    ConfigChecked(bool),
    /// Whether the slicer program exists.
    SlicerLocated(bool),
    /// The slicer ended, well or not, and printed this.
    Exited { success: bool, stdout: Vec<u8>, stderr: Vec<u8> },
    /// The slicer could not be run.
    NotStarted,
    /// Whether the output file exists.
    OutputChecked(bool),
}

/// A `SliceEvent` as a mathematical value.
pub enum SliceEventView {
    ConfigChecked(bool),
    SlicerLocated(bool),
    Exited { success: bool, stdout: Seq<u8>, stderr: Seq<u8> },
    NotStarted,
    OutputChecked(bool),
}

impl View for SliceEvent {
    type V = SliceEventView;

    open spec fn view(&self) -> SliceEventView {
        match self {
            SliceEvent::ConfigChecked(is_dir) => SliceEventView::ConfigChecked(*is_dir),
            SliceEvent::SlicerLocated(exists) => SliceEventView::SlicerLocated(*exists),
            SliceEvent::Exited { success, stdout, stderr } => SliceEventView::Exited {
                success: *success,
                stdout: stdout@,
                stderr: stderr@,
            },
            SliceEvent::NotStarted => SliceEventView::NotStarted,
            SliceEvent::OutputChecked(exists) => SliceEventView::OutputChecked(*exists),
        }
    }
}

/// What the caller is to do next.
#[derive(Debug, PartialEq, Eq)]
pub enum SliceAction {
    /// Find out whether the slicer's configuration path is a directory.
    CheckConfig,
    /// Find out whether this program exists.
    Locate(String),
    /// Run this program with these arguments.
    Run { program: String, args: Vec<String> },
    /// Find out whether this file exists.
    CheckOutput(String),
    /// Nothing more: the job gave this file, or failed.
    Finish(Result<String, SliceError>),
}

/// A `SliceAction` as a mathematical value.
pub enum SliceActionView {
    CheckConfig,
    Locate(Seq<char>),
    Run { program: Seq<char>, args: Seq<Seq<char>> },
    CheckOutput(Seq<char>),
    Finish(Result<Seq<char>, SliceErrorView>),
}

impl View for SliceAction {
    type V = SliceActionView;

    open spec fn view(&self) -> SliceActionView {
        match self {
            SliceAction::CheckConfig => SliceActionView::CheckConfig,
            SliceAction::Locate(program) => SliceActionView::Locate(program@),
            SliceAction::Run { program, args } => SliceActionView::Run {
                program: program@,
                args: texts(args@),
            },
            SliceAction::CheckOutput(output) => SliceActionView::CheckOutput(output@),
            SliceAction::Finish(result) => SliceActionView::Finish(
                match result {
                    Ok(output) => Ok(output@),
                    Err(error) => Err(error@),
                },
            ),
        }
    }
}

/// Where the slicer is installed on a platform.
pub open spec fn slicer_program(platform: Platform) -> Seq<char> {
    match platform {
        Platform::MacOs => "/Applications/OrcaSlicer.app/Contents/MacOS/OrcaSlicer"@,
        Platform::Windows => "C:\\Program Files\\OrcaSlicer\\orca-slicer.exe"@,
        Platform::Linux => "/usr/bin/orca-slicer"@,
    }
}

/// The arguments that make the slicer slice `input` into `output` with the
/// three configuration files.
pub open spec fn slicer_arguments(
    process: Seq<char>,
    machine: Seq<char>,
    filament: Seq<char>,
    output: Seq<char>,
    input: Seq<char>,
) -> Seq<Seq<char>> {
    seq![
        "--load-settings"@,
        process + ";"@ + machine,
        "--load-filaments"@,
        filament,
        "--slice"@,
        "0"@,
        "--orient"@,
        "1"@,
        "--export-3mf"@,
        output,
        input,
    ]
}

/// The arguments for the slicer, given the text of each path where it has
/// one. The first path without a text decides the error.
pub open spec fn command_line_of(
    process: Option<Seq<char>>,
    machine: Option<Seq<char>>,
    filament: Option<Seq<char>>,
    output: Option<Seq<char>>,
    input: Option<Seq<char>>,
) -> Result<Seq<Seq<char>>, SliceErrorView> {
    if process is None || machine is None || filament is None {
        Err(SliceErrorView::InvalidConfigPath)
    } else if output is None {
        Err(SliceErrorView::InvalidOutputPath)
    } else if input is None {
        Err(SliceErrorView::InvalidInputPath)
    } else {
        Ok(
            slicer_arguments(
                process.unwrap(),
                machine.unwrap(),
                filament.unwrap(),
                output.unwrap(),
                input.unwrap(),
            ),
        )
    }
}

/// The name of the output file of the job with identifier `uid`.
pub open spec fn output_name(uid: Seq<char>) -> Seq<char> {
    uid + ".3mf"@
}

/// The text of the output file's path, where it has one.
pub open spec fn output_text(temp_dir: PathBuf, uid: Seq<char>) -> Option<Seq<char>> {
    path_text(joined_path(temp_dir, output_name(uid)))
}

/// The arguments of the job with identifier `uid`, or why it cannot start.
pub open spec fn job_arguments(
    config: PathBuf,
    temp_dir: PathBuf,
    file: PathBuf,
    uid: Seq<char>,
) -> Result<Seq<Seq<char>>, SliceErrorView> {
    command_line_of(
        path_text(joined_path(config, "process.json"@)),
        path_text(joined_path(config, "machine.json"@)),
        path_text(joined_path(config, "filament.json"@)),
        output_text(temp_dir, uid),
        path_text(file),
    )
}

/// What a failed run of the slicer is reported as.
pub open spec fn failure_of(stdout: Seq<u8>, stderr: Seq<u8>) -> SliceErrorView {
    if valid_utf8(stdout) && valid_utf8(stderr) {
        SliceErrorView::SlicerFailed { stdout: decode_utf8(stdout), stderr: decode_utf8(stderr) }
    } else {
        SliceErrorView::BadDiagnostics
    }
}

/// The end of a job.
pub open spec fn finished(result: Result<Seq<char>, SliceErrorView>) -> (
    SliceStateView,
    SliceActionView,
) {
    (SliceStateView::Finished, SliceActionView::Finish(result))
}

/// Whether this step starts the slicer's job, and so draws its identifier.
pub open spec fn draws_identifier(state: SliceStateView, event: SliceEventView) -> bool {
    state is CheckingConfig && event == SliceEventView::ConfigChecked(true)
}

/// One step of a slicing job: from what the job waited for and what the
/// caller found out, to what it waits for now and what the caller is to do.
/// `uid` is the identifier drawn for the job, used by the step that starts it.
pub open spec fn slice_step(
    config: PathBuf,
    state: SliceStateView,
    event: SliceEventView,
    uid: Seq<char>,
) -> (SliceStateView, SliceActionView) {
    match state {
        SliceStateView::CheckingConfig { file, temp_dir, platform } => match event {
            SliceEventView::ConfigChecked(is_dir) => if !is_dir {
                finished(Err(SliceErrorView::ConfigNotDirectory))
            } else {
                match job_arguments(config, temp_dir, file, uid) {
                    Err(error) => finished(Err(error)),
                    Ok(args) => (
                        SliceStateView::Locating {
                            platform,
                            output: output_text(temp_dir, uid).unwrap(),
                            args,
                        },
                        SliceActionView::Locate(slicer_program(platform)),
                    ),
                }
            },
            _ => finished(Err(SliceErrorView::Unexpected)),
        },
        SliceStateView::Locating { platform, output, args } => match event {
            SliceEventView::SlicerLocated(exists) => if !exists {
                finished(Err(SliceErrorView::SlicerNotFound))
            } else {
                (
                    SliceStateView::Running { output },
                    SliceActionView::Run { program: slicer_program(platform), args },
                )
            },
            _ => finished(Err(SliceErrorView::Unexpected)),
        },
        SliceStateView::Running { output } => match event {
            SliceEventView::Exited { success, stdout, stderr } => if success {
                (SliceStateView::CheckingOutput { output }, SliceActionView::CheckOutput(output))
            } else {
                finished(Err(failure_of(stdout, stderr)))
            },
            SliceEventView::NotStarted => finished(Err(SliceErrorView::CommandFailed)),
            _ => finished(Err(SliceErrorView::Unexpected)),
        },
        SliceStateView::CheckingOutput { output } => match event {
            SliceEventView::OutputChecked(exists) => if exists {
                finished(Ok(output))
            } else {
                finished(Err(SliceErrorView::NoOutput))
            },
            _ => finished(Err(SliceErrorView::Unexpected)),
        },
        SliceStateView::Finished => finished(Err(SliceErrorView::Unexpected)),
    }
}

/// Where the configuration path is not a directory, the job ends at once:
/// the slicer is never asked for, whatever else holds.
pub proof fn lemma_no_run_without_config_directory(
    config: PathBuf,
    file: PathBuf,
    temp_dir: PathBuf,
    platform: Platform,
    uid: Seq<char>,
)
    ensures
        slice_step(
            config,
            SliceStateView::CheckingConfig { file, temp_dir, platform },
            SliceEventView::ConfigChecked(false),
            uid,
        ) == finished(Err(SliceErrorView::ConfigNotDirectory)),
{
}

/// The slicer is run only by a job that waited to learn where it is
/// installed, and learnt that it is.
pub proof fn lemma_run_follows_locate(
    config: PathBuf,
    state: SliceStateView,
    event: SliceEventView,
    uid: Seq<char>,
)
    requires
        slice_step(config, state, event, uid).1 is Run,
    ensures
        state is Locating,
        event == SliceEventView::SlicerLocated(true),
        slice_step(config, state, event, uid).0 is Running,
{
}

/// A job that is over stays over.
pub proof fn lemma_finished_is_final(config: PathBuf, event: SliceEventView, uid: Seq<char>)
    ensures
        slice_step(config, SliceStateView::Finished, event, uid).0 == SliceStateView::Finished,
{
}

/// The path of the slicer program on a platform, if it is installed there.
pub fn find_orca_slicer(platform: Platform, installed: bool) -> (r: Result<String, SliceError>)
    ensures
        match r {
            Ok(program) => installed && program@ == slicer_program(platform),
            Err(error) => !installed && error@ == SliceErrorView::SlicerNotFound,
        },
{
    if installed {
        Ok(program_path(platform))
    } else {
        Err(SliceError::SlicerNotFound)
    }
}

/// Where the slicer is installed on a platform.
pub fn program_path(platform: Platform) -> (program: String)
    ensures
        program@ == slicer_program(platform),
{
    match platform {
        Platform::MacOs => "/Applications/OrcaSlicer.app/Contents/MacOS/OrcaSlicer".to_owned(),
        Platform::Windows => "C:\\Program Files\\OrcaSlicer\\orca-slicer.exe".to_owned(),
        Platform::Linux => "/usr/bin/orca-slicer".to_owned(),
    }
}

/// The arguments for the slicer, given the text of each path where it has
/// one.
pub fn command_line(
    process: &Option<String>,
    machine: &Option<String>,
    filament: &Option<String>,
    output: &Option<String>,
    input: &Option<String>,
) -> (r: Result<Vec<String>, SliceError>)
    ensures
        match r {
            Ok(args) => command_line_of(
                text_of(*process),
                text_of(*machine),
                text_of(*filament),
                text_of(*output),
                text_of(*input),
            ) == Ok::<Seq<Seq<char>>, SliceErrorView>(texts(args@)),
            Err(error) => command_line_of(
                text_of(*process),
                text_of(*machine),
                text_of(*filament),
                text_of(*output),
                text_of(*input),
            ) == Err::<Seq<Seq<char>>, SliceErrorView>(error@),
        },
{
    let process = match process {
        Some(text) => text.clone(),
        None => { return Err(SliceError::InvalidConfigPath); },
    };
    let machine = match machine {
        Some(text) => text,
        None => { return Err(SliceError::InvalidConfigPath); },
    };
    let filament = match filament {
        Some(text) => text.clone(),
        None => { return Err(SliceError::InvalidConfigPath); },
    };
    let output = match output {
        Some(text) => text.clone(),
        None => { return Err(SliceError::InvalidOutputPath); },
    };
    let input = match input {
        Some(text) => text.clone(),
        None => { return Err(SliceError::InvalidInputPath); },
    };
    let ghost expected = slicer_arguments(process@, machine@, filament@, output@, input@);
    let settings = process.concat(";").concat(machine.as_str());
    let mut args: Vec<String> = Vec::new();
    args.push("--load-settings".to_owned());
    args.push(settings);
    args.push("--load-filaments".to_owned());
    args.push(filament);
    args.push("--slice".to_owned());
    args.push("0".to_owned());
    args.push("--orient".to_owned());
    args.push("1".to_owned());
    args.push("--export-3mf".to_owned());
    args.push(output);
    args.push(input);
    assert(texts(args@) =~= expected);
    Ok(args)
}

/// The slicer as this library knows it: the directory of its configuration.
#[derive(Debug, PartialEq, Eq)]
pub struct OrcaSlicer {
    config: PathBuf,
}

impl Clone for OrcaSlicer {
    fn clone(&self) -> (r: Self)
        ensures
            r.config_path() == self.config_path(),
    {
        OrcaSlicer { config: self.config.clone() }
    }
}

impl OrcaSlicer {
    /// The directory that holds the slicer's configuration files.
    pub closed spec fn config_path(self) -> PathBuf {
        self.config
    }

    /// A slicer that takes its configuration from the directory `config`.
    pub fn new(config: PathBuf) -> (slicer: Self)
        ensures
            slicer.config_path() == config,
    {
        Self { config }
    }

    /// The directory that holds the slicer's configuration files.
    pub fn config(&self) -> (config: &PathBuf)
        ensures
            *config == self.config_path(),
    {
        &self.config
    }

    /// Starts the job of slicing `file`, with its output to go under
    /// `temp_dir`: the caller is first to look at the configuration path.
    pub fn start(&self, file: PathBuf, temp_dir: PathBuf, platform: Platform) -> (r: (
        SliceState,
        SliceAction,
    ))
        ensures
            r.0@ == (SliceStateView::CheckingConfig { file, temp_dir, platform }),
            r.1@ == SliceActionView::CheckConfig,
    {
        (SliceState::CheckingConfig { file, temp_dir, platform }, SliceAction::CheckConfig)
    }

    /// The step that starts the slicer's job, with the identifier `uid`.
    fn prepare(&self, file: PathBuf, temp_dir: PathBuf, platform: Platform, uid: &str) -> (r: (
        SliceState,
        SliceAction,
    ))
        ensures
            (r.0@, r.1@) == slice_step(
                self.config_path(),
                SliceStateView::CheckingConfig { file, temp_dir, platform },
                SliceEventView::ConfigChecked(true),
                uid@,
            ),
    {
        let name = uid.to_owned().concat(".3mf");
        let output = text_of_path(&join_path(&temp_dir, name.as_str()));
        let process = text_of_path(&join_path(&self.config, "process.json"));
        let machine = text_of_path(&join_path(&self.config, "machine.json"));
        let filament = text_of_path(&join_path(&self.config, "filament.json"));
        let input = text_of_path(&file);
        match command_line(&process, &machine, &filament, &output, &input) {
            Err(error) => (SliceState::Finished, SliceAction::Finish(Err(error))),
            Ok(args) => {
                (
                    SliceState::Locating { platform, output: output.unwrap(), args },
                    SliceAction::Locate(program_path(platform)),
                )
            },
        }
    }

    /// One step of a job whose identifier, should this step start it, is
    /// `uid`.
    pub fn step_with(&self, state: SliceState, event: SliceEvent, uid: &str) -> (r: (
        SliceState,
        SliceAction,
    ))
        ensures
            (r.0@, r.1@) == slice_step(self.config_path(), state@, event@, uid@),
    {
        let unexpected = (SliceState::Finished, SliceAction::Finish(Err(SliceError::Unexpected)));
        match state {
            SliceState::CheckingConfig { file, temp_dir, platform } => match event {
                SliceEvent::ConfigChecked(is_dir) => if !is_dir {
                    (SliceState::Finished, SliceAction::Finish(Err(SliceError::ConfigNotDirectory)))
                } else {
                    self.prepare(file, temp_dir, platform, uid)
                },
                _ => unexpected,
            },
            SliceState::Locating { platform, output, args } => match event {
                SliceEvent::SlicerLocated(exists) => match find_orca_slicer(platform, exists) {
                    Err(error) => (SliceState::Finished, SliceAction::Finish(Err(error))),
                    Ok(program) => (
                        SliceState::Running { output },
                        SliceAction::Run { program, args },
                    ),
                },
                _ => unexpected,
            },
            SliceState::Running { output } => match event {
                SliceEvent::Exited { success, stdout, stderr } => if success {
                    let shown = output.clone();
                    (SliceState::CheckingOutput { output }, SliceAction::CheckOutput(shown))
                } else {
                    let error = match utf8_text(stdout) {
                        None => SliceError::BadDiagnostics,
                        Some(stdout) => match utf8_text(stderr) {
                            None => SliceError::BadDiagnostics,
                            Some(stderr) => SliceError::SlicerFailed { stdout, stderr },
                        },
                    };
                    (SliceState::Finished, SliceAction::Finish(Err(error)))
                },
                SliceEvent::NotStarted => (
                    SliceState::Finished,
                    SliceAction::Finish(Err(SliceError::CommandFailed)),
                ),
                _ => unexpected,
            },
            SliceState::CheckingOutput { output } => match event {
                SliceEvent::OutputChecked(exists) => if exists {
                    (SliceState::Finished, SliceAction::Finish(Ok(output)))
                } else {
                    (SliceState::Finished, SliceAction::Finish(Err(SliceError::NoOutput)))
                },
                _ => unexpected,
            },
            SliceState::Finished => unexpected,
        }
    }

    /// One step of a job. The step that starts the slicer's job draws a
    /// fresh random identifier for it; every other step is fixed by the job
    /// and the answer alone.
    pub fn step(&self, state: SliceState, event: SliceEvent) -> (r: (SliceState, SliceAction))
        ensures
            exists|uid: Seq<char>|
                (draws_identifier(state@, event@) ==> is_uuid_text(uid)) && (r.0@, r.1@)
                    == #[trigger] slice_step(self.config_path(), state@, event@, uid),
    {
        let starts = match (&state, &event) {
            (SliceState::CheckingConfig { .. }, SliceEvent::ConfigChecked(true)) => true,
            _ => false,
        };
        if starts {
            let uid = fresh_uuid();
            self.step_with(state, event, uid.as_str())
        } else {
            self.step_with(state, event, "")
        }
    }
}

} // verus!
