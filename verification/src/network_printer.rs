//! What is known of a printer on the network, what its transport last
//! reported, and the commands that the library hands to the transport.

use std::path::PathBuf;
use vstd::prelude::*;
use crate::address::DeviceAddress;
use crate::bambu::BambuPrinter;
use crate::bambu_x1_carbon::BambuX1CarbonPrinter;
use crate::paths::{file_name, file_name_of, path_text, text_of_path};
use crate::slicer::{
    OrcaSlicer, Platform, SliceAction, SliceActionView, SliceState, SliceStateView,
};
use crate::text::{chars_of, clone_optional, same_text, text_of};

verus! {

/// The maker of a printer.
#[derive(Clone, Copy, Debug, PartialEq, Eq, Structural)]
pub enum NetworkPrinterManufacturer {
    Bambu,
}

/// The identity of a registered printer.
#[derive(Debug, PartialEq, Eq)]
pub struct NetworkPrinterInfo {
    pub hostname: Option<String>,
    pub ip: DeviceAddress,
    pub port: Option<u16>,
    pub manufacturer: NetworkPrinterManufacturer,
    pub model: Option<String>,
    pub serial: Option<String>,
}

/// A `NetworkPrinterInfo` as a mathematical value.
pub struct InfoView {
    pub hostname: Option<Seq<char>>,
    pub ip: DeviceAddress,
    pub port: Option<u16>,
    pub manufacturer: NetworkPrinterManufacturer,
    pub model: Option<Seq<char>>,
    pub serial: Option<Seq<char>>,
}

impl View for NetworkPrinterInfo {
    type V = InfoView;

    open spec fn view(&self) -> InfoView {
        InfoView {
            hostname: text_of(self.hostname),
            ip: self.ip,
            port: self.port,
            manufacturer: self.manufacturer,
            model: text_of(self.model),
            serial: text_of(self.serial),
        }
    }
}

impl Clone for NetworkPrinterInfo {
    fn clone(&self) -> (r: Self)
        ensures
            r@ == self@,
    {
        NetworkPrinterInfo {
            hostname: clone_optional(&self.hostname),
            ip: self.ip,
            port: self.port,
            manufacturer: self.manufacturer,
            model: clone_optional(&self.model),
            serial: clone_optional(&self.serial),
        }
    }
}

/// What the transport to a printer is opened with.
#[derive(Debug, PartialEq, Eq)]
pub struct ClientSettings {
    pub address: String,
    pub access_code: String,
    pub serial: String,
}

/// `ClientSettings` as a mathematical value.
pub struct ClientSettingsView {
    pub address: Seq<char>,
    pub access_code: Seq<char>,
    pub serial: Seq<char>,
}

impl View for ClientSettings {
    type V = ClientSettingsView;

    open spec fn view(&self) -> ClientSettingsView {
        ClientSettingsView {
            address: self.address@,
            access_code: self.access_code@,
            serial: self.serial@,
        }
    }
}

impl Clone for ClientSettings {
    fn clone(&self) -> (r: Self)
        ensures
            r@ == self@,
    {
        ClientSettings {
            address: self.address.clone(),
            access_code: self.access_code.clone(),
            serial: self.serial.clone(),
        }
    }
}

/// A printer's command interface as a mathematical value: what its
/// transport is opened with, and where its slicer is configured.
pub struct PrinterView {
    pub client: ClientSettingsView,
    pub slicer_config: PathBuf,
}

/// The command interface of a registered printer, by family.
#[derive(Debug, PartialEq, Eq)]
pub enum NetworkPrinter {
    Bambu(BambuPrinter),
    BambuX1Carbon(BambuX1CarbonPrinter),
}

/// A `NetworkPrinter` as a mathematical value.
pub enum NetworkPrinterView {
    Bambu(PrinterView),
    BambuX1Carbon(PrinterView),
}

impl View for NetworkPrinter {
    type V = NetworkPrinterView;

    open spec fn view(&self) -> NetworkPrinterView {
        match self {
            NetworkPrinter::Bambu(printer) => NetworkPrinterView::Bambu(printer@),
            NetworkPrinter::BambuX1Carbon(printer) => NetworkPrinterView::BambuX1Carbon(printer@),
        }
    }
}

impl Clone for NetworkPrinter {
    fn clone(&self) -> (r: Self)
        ensures
            r@ == self@,
    {
        match self {
            NetworkPrinter::Bambu(printer) => NetworkPrinter::Bambu(printer.clone()),
            NetworkPrinter::BambuX1Carbon(printer) => NetworkPrinter::BambuX1Carbon(
                printer.clone(),
            ),
        }
    }
}

impl NetworkPrinterView {
    /// What the transport is opened with and where the slicer is
    /// configured, whatever the family.
    pub open spec fn printer(self) -> PrinterView {
        match self {
            NetworkPrinterView::Bambu(printer) => printer,
            NetworkPrinterView::BambuX1Carbon(printer) => printer,
        }
    }
}

impl NetworkPrinter {
    /// What the transport to the printer is opened with.
    pub fn client(&self) -> (settings: &ClientSettings)
        ensures
            settings@ == self@.printer().client,
    {
        match self {
            NetworkPrinter::Bambu(printer) => &printer.client,
            NetworkPrinter::BambuX1Carbon(printer) => &printer.client,
        }
    }

    /// The slicer of the printer.
    pub fn slicer(&self) -> (slicer: &OrcaSlicer)
        ensures
            slicer.config_path() == self@.printer().slicer_config,
    {
        match self {
            NetworkPrinter::Bambu(printer) => &printer.slicer,
            NetworkPrinter::BambuX1Carbon(printer) => &printer.slicer,
        }
    }

    /// Whether the printer has an auxiliary material system, by the latest
    /// status report that its transport holds.
    pub fn has_ams(&self, latest: Option<&PushStatus>) -> (r: bool)
        ensures
            r == has_ams_of(latest),
    {
        match self {
            NetworkPrinter::Bambu(printer) => printer.has_ams(latest),
            NetworkPrinter::BambuX1Carbon(printer) => printer.has_ams(latest),
        }
    }

    /// The latest status report, which must have been received. The report
    /// is handed through as it is.
    pub fn status<S>(&self, cached: Option<S>) -> (r: Result<S, PrinterError>)
        ensures
            match cached {
                Some(report) => r == Ok::<S, PrinterError>(report),
                None => r == Err::<S, PrinterError>(PrinterError::NoStatus),
            },
    {
        match self {
            NetworkPrinter::Bambu(printer) => printer.status(cached),
            NetworkPrinter::BambuX1Carbon(printer) => printer.status(cached),
        }
    }

    /// The command that asks for the firmware version.
    pub fn version(&self) -> (r: Command)
        ensures
            r@ == CommandView::GetVersion,
    {
        match self {
            NetworkPrinter::Bambu(printer) => printer.version(),
            NetworkPrinter::BambuX1Carbon(printer) => printer.version(),
        }
    }

    /// The command that pauses the current print.
    pub fn pause(&self) -> (r: Command)
        ensures
            r@ == CommandView::Pause,
    {
        match self {
            NetworkPrinter::Bambu(printer) => printer.pause(),
            NetworkPrinter::BambuX1Carbon(printer) => printer.pause(),
        }
    }

    /// The command that resumes the current print.
    pub fn resume(&self) -> (r: Command)
        ensures
            r@ == CommandView::Resume,
    {
        match self {
            NetworkPrinter::Bambu(printer) => printer.resume(),
            NetworkPrinter::BambuX1Carbon(printer) => printer.resume(),
        }
    }

    /// The command that stops the current print.
    pub fn stop(&self) -> (r: Command)
        ensures
            r@ == CommandView::Stop,
    {
        match self {
            NetworkPrinter::Bambu(printer) => printer.stop(),
            NetworkPrinter::BambuX1Carbon(printer) => printer.stop(),
        }
    }

    /// The command that switches the chamber light.
    pub fn set_led(&self, on: bool) -> (r: Command)
        ensures
            r@ == CommandView::SetChamberLight(on),
    {
        match self {
            NetworkPrinter::Bambu(printer) => printer.set_led(on),
            NetworkPrinter::BambuX1Carbon(printer) => printer.set_led(on),
        }
    }

    /// The command that asks for the accessories.
    pub fn accessories(&self) -> (r: Command)
        ensures
            r@ == CommandView::GetAccessories,
    {
        match self {
            NetworkPrinter::Bambu(printer) => printer.accessories(),
            NetworkPrinter::BambuX1Carbon(printer) => printer.accessories(),
        }
    }

    /// Starts the job of slicing `file` with the printer's slicer.
    pub fn slice(&self, file: PathBuf, temp_dir: PathBuf, platform: Platform) -> (r: (
        SliceState,
        SliceAction,
    ))
        ensures
            r.0@ == (SliceStateView::CheckingConfig { file, temp_dir, platform }),
            r.1@ == SliceActionView::CheckConfig,
    {
        match self {
            NetworkPrinter::Bambu(printer) => printer.slice(file, temp_dir, platform),
            NetworkPrinter::BambuX1Carbon(printer) => printer.slice(file, temp_dir, platform),
        }
    }

    /// The name under which the file at `file` is printed.
    pub fn print_file_name(&self, file: &PathBuf) -> (r: Result<String, PrinterError>)
        ensures
            match r {
                Ok(text) => named_file_of(file_name_text(*file)) == Ok::<Seq<char>, PrinterError>(
                    text@,
                ),
                Err(error) => named_file_of(file_name_text(*file)) == Err::<
                    Seq<char>,
                    PrinterError,
                >(error),
            },
    {
        match self {
            NetworkPrinter::Bambu(printer) => printer.print_file_name(file),
            NetworkPrinter::BambuX1Carbon(printer) => printer.print_file_name(file),
        }
    }

    /// The command that prints the uploaded file `file_name` as job
    /// `job_name`.
    pub fn print(&self, job_name: &str, file_name: &str, latest: Option<&PushStatus>) -> (r:
        Command)
        ensures
            r@ == print_command_of(job_name@, file_name@, latest),
    {
        match self {
            NetworkPrinter::Bambu(printer) => printer.print(job_name, file_name, latest),
            NetworkPrinter::BambuX1Carbon(printer) => printer.print(job_name, file_name, latest),
        }
    }
}

/// A registered printer: its identity and its command interface.
#[derive(Debug, PartialEq, Eq)]
pub struct NetworkPrinterHandle {
    pub info: NetworkPrinterInfo,
    pub client: NetworkPrinter,
}

/// A `NetworkPrinterHandle` as a mathematical value.
pub struct HandleView {
    pub info: InfoView,
    pub client: NetworkPrinterView,
}

impl View for NetworkPrinterHandle {
    type V = HandleView;

    open spec fn view(&self) -> HandleView {
        HandleView { info: self.info@, client: self.client@ }
    }
}

impl Clone for NetworkPrinterHandle {
    fn clone(&self) -> (r: Self)
        ensures
            r@ == self@,
    {
        NetworkPrinterHandle { info: self.info.clone(), client: self.client.clone() }
    }
}

/// What a status report says of the material system.
#[derive(Debug, PartialEq, Eq)]
pub struct PushStatusAms {
    pub ams_exist_bits: Option<String>,
}

/// What the library reads of a printer's status report.
#[derive(Debug, PartialEq, Eq)]
pub struct PushStatus {
    pub ams: Option<PushStatusAms>,
}

/// A command for the transport to publish.
#[derive(Debug, PartialEq, Eq)]
pub enum Command {
    GetVersion,
    Pause,
    Resume,
    Stop,
    SetChamberLight(bool),
    GetAccessories,
    PrintFile { job_name: String, file_name: String, use_ams: bool },
}

/// A `Command` as a mathematical value.
pub enum CommandView {
    GetVersion,
    Pause,
    Resume,
    Stop,
    SetChamberLight(bool),
    GetAccessories,
    PrintFile { job_name: Seq<char>, file_name: Seq<char>, use_ams: bool },
}

impl View for Command {
    type V = CommandView;

    open spec fn view(&self) -> CommandView {
        match self {
            Command::GetVersion => CommandView::GetVersion,
            Command::Pause => CommandView::Pause,
            Command::Resume => CommandView::Resume,
            Command::Stop => CommandView::Stop,
            Command::SetChamberLight(on) => CommandView::SetChamberLight(*on),
            Command::GetAccessories => CommandView::GetAccessories,
            Command::PrintFile { job_name, file_name, use_ams } => CommandView::PrintFile {
                job_name: job_name@,
                file_name: file_name@,
                use_ams: *use_ams,
            },
        }
    }
}

/// Why an operation on a printer fails before anything is sent.
#[derive(Clone, Copy, Debug, PartialEq, Eq, Structural)]
pub enum PrinterError {
    /// No status report has been received yet.
    NoStatus,
    /// The path of the file to print names no file.
    NoFilename,
    /// The name of the file to print is not Unicode.
    BadFilename,
}

/// The material-system bit mask of the latest status report, where a report
/// is cached, has a material-system section, and that section gives one.
pub open spec fn exist_bits(status: Option<&PushStatus>) -> Option<Seq<char>> {
    match status {
        Some(status) => match status.ams {
            Some(ams) => text_of(ams.ams_exist_bits),
            None => None,
        },
        None => None,
    }
}

/// Whether the printer has an auxiliary material system, by its latest
/// status report: it has one where a bit mask is reported and is not `0`.
pub open spec fn has_ams_of(status: Option<&PushStatus>) -> bool {
    exist_bits(status) is Some && exist_bits(status) != Some("0"@)
}

/// The command that prints an uploaded file.
pub open spec fn print_command_of(
    job_name: Seq<char>,
    file_name: Seq<char>,
    status: Option<&PushStatus>,
) -> CommandView {
    CommandView::PrintFile { job_name, file_name, use_ams: has_ams_of(status) }
}

/// The name under which a file is printed, given the last component of its
/// path where it has one, and of that the text where it has one.
pub open spec fn named_file_of(name: Option<Option<Seq<char>>>) -> Result<
    Seq<char>,
    PrinterError,
> {
    match name {
        None => Err(PrinterError::NoFilename),
        Some(None) => Err(PrinterError::BadFilename),
        Some(Some(text)) => Ok(text),
    }
}

/// The last component of a path with its text, each where there is one.
pub open spec fn file_name_text(file: PathBuf) -> Option<Option<Seq<char>>> {
    match file_name_of(file) {
        None => None,
        Some(name) => Some(path_text(name)),
    }
}

/// Without a cached status report there is no material system; with the bit
/// mask `0` there is none; with any other bit mask there is one.
pub proof fn lemma_has_ams(status: Option<&PushStatus>)
    ensures
        status is None ==> !has_ams_of(status),
        exist_bits(status) == Some("0"@) ==> !has_ams_of(status),
        exist_bits(status) is Some && exist_bits(status) != Some("0"@) ==> has_ams_of(status),
        exist_bits(status) is None ==> !has_ams_of(status),
{
}

/// Whether the printer has an auxiliary material system, by its latest
/// status report.
pub fn has_ams(status: Option<&PushStatus>) -> (r: bool)
    ensures
        r == has_ams_of(status),
{
    match status {
        None => false,
        Some(status) => match &status.ams {
            None => false,
            Some(ams) => match &ams.ams_exist_bits {
                None => false,
                Some(bits) => !same_text(
                    chars_of(bits.as_str()).as_slice(),
                    chars_of("0").as_slice(),
                ),
            },
        },
    }
}

/// The latest status report, which must have been received. The report is
/// handed through as it is.
pub fn status<S>(cached: Option<S>) -> (r: Result<S, PrinterError>)
    ensures
        match cached {
            Some(report) => r == Ok::<S, PrinterError>(report),
            None => r == Err::<S, PrinterError>(PrinterError::NoStatus),
        },
{
    match cached {
        Some(report) => Ok(report),
        None => Err(PrinterError::NoStatus),
    }
}

/// The texts in an optional file name with its optional text.
pub open spec fn name_texts(name: Option<Option<String>>) -> Option<Option<Seq<char>>> {
    match name {
        Some(text) => Some(text_of(text)),
        None => None,
    }
}

/// The name under which a file is printed, given the last component of its
/// path where it has one, and of that the text where it has one.
pub fn named_file(name: Option<Option<String>>) -> (r: Result<String, PrinterError>)
    ensures
        match r {
            Ok(text) => named_file_of(name_texts(name)) == Ok::<Seq<char>, PrinterError>(text@),
            Err(error) => named_file_of(name_texts(name)) == Err::<Seq<char>, PrinterError>(
                error,
            ),
        },
{
    match name {
        None => Err(PrinterError::NoFilename),
        Some(None) => Err(PrinterError::BadFilename),
        Some(Some(text)) => Ok(text),
    }
}

/// The name under which the file at `file` is printed: the last component
/// of the path, which must exist and be Unicode.
pub fn print_file_name(file: &PathBuf) -> (r: Result<String, PrinterError>)
    ensures
        match r {
            Ok(text) => named_file_of(file_name_text(*file)) == Ok::<Seq<char>, PrinterError>(
                text@,
            ),
            Err(error) => named_file_of(file_name_text(*file)) == Err::<Seq<char>, PrinterError>(
                error,
            ),
        },
{
    let name = match file_name(file) {
        None => None,
        Some(name) => Some(text_of_path(&name)),
    };
    named_file(name)
}

/// The command that prints the uploaded file `file_name` as job `job_name`,
/// drawing on the material system where the printer has one.
pub fn print_command(job_name: &str, file_name: &str, status: Option<&PushStatus>) -> (r: Command)
    ensures
        r@ == print_command_of(job_name@, file_name@, status),
{
    Command::PrintFile {
        job_name: job_name.to_owned(),
        file_name: file_name.to_owned(),
        use_ams: has_ams(status),
    }
}

} // verus!
