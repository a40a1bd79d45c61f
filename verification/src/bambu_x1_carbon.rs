//! The Bambu Lab X1 Carbon.

use std::path::PathBuf;
use vstd::prelude::*;
use crate::config::BambuLabsConfig;
use crate::discovery::{
    discover_step, initial_listener, DiscoveryAction, DiscoveryEvent, Listener, ListenerView,
    PrinterFamily,
};
use crate::network_printer::{NetworkPrinterHandle, NetworkPrinterInfo};
use crate::registry::well_keyed;
use crate::network_printer::{
    has_ams, has_ams_of, named_file_of, file_name_text, print_command, print_command_of,
    print_file_name, status, ClientSettings, Command, CommandView, PrinterError, PrinterView,
    PushStatus,
};
use crate::slicer::{OrcaSlicer, Platform, SliceAction, SliceActionView, SliceState, SliceStateView};

verus! {

/// The command interface of a Bambu Lab X1 Carbon.
#[derive(Debug, PartialEq, Eq)]
pub struct BambuX1CarbonPrinter {
    pub client: ClientSettings,
    pub slicer: OrcaSlicer,
}

impl View for BambuX1CarbonPrinter {
    type V = PrinterView;

    open spec fn view(&self) -> PrinterView {
        PrinterView { client: self.client@, slicer_config: self.slicer.config_path() }
    }
}

impl Clone for BambuX1CarbonPrinter {
    fn clone(&self) -> (r: Self)
        ensures
            r@ == self@,
    {
        BambuX1CarbonPrinter { client: self.client.clone(), slicer: self.slicer.clone() }
    }
}

impl BambuX1CarbonPrinter {
    /// Whether the printer has an auxiliary material system, by the latest
    /// status report that its transport holds.
    pub fn has_ams(&self, latest: Option<&PushStatus>) -> (r: bool)
        ensures
            r == has_ams_of(latest),
    {
        has_ams(latest)
    }

    /// The latest status report, which must have been received. The report
    /// is handed through as it is.
    pub fn status<S>(&self, cached: Option<S>) -> (r: Result<S, PrinterError>)
        ensures
            match cached {
                Some(report) => r == Ok::<S, PrinterError>(report),
                None => r == Err::<S, PrinterError>(PrinterError::NoStatus),
            },
    {
        status(cached)
    }

    /// The command that asks for the firmware version.
    pub fn version(&self) -> (r: Command)
        ensures
            r@ == CommandView::GetVersion,
    {
        Command::GetVersion
    }

    /// The command that pauses the current print.
    pub fn pause(&self) -> (r: Command)
        ensures
            r@ == CommandView::Pause,
    {
        Command::Pause
    }

    /// The command that resumes the current print.
    pub fn resume(&self) -> (r: Command)
        ensures
            r@ == CommandView::Resume,
    {
        Command::Resume
    }

    /// The command that stops the current print.
    pub fn stop(&self) -> (r: Command)
        ensures
            r@ == CommandView::Stop,
    {
        Command::Stop
    }

    /// The command that switches the chamber light.
    pub fn set_led(&self, on: bool) -> (r: Command)
        ensures
            r@ == CommandView::SetChamberLight(on),
    {
        Command::SetChamberLight(on)
    }

    /// The command that asks for the accessories.
    pub fn accessories(&self) -> (r: Command)
        ensures
            r@ == CommandView::GetAccessories,
    {
        Command::GetAccessories
    }

    /// Starts the job of slicing `file` with this printer's slicer.
    pub fn slice(&self, file: PathBuf, temp_dir: PathBuf, platform: Platform) -> (r: (
        SliceState,
        SliceAction,
    ))
        ensures
            r.0@ == (SliceStateView::CheckingConfig { file, temp_dir, platform }),
            r.1@ == SliceActionView::CheckConfig,
    {
        self.slicer.start(file, temp_dir, platform)
    }

    /// The name under which the file at `file` is printed.
    pub fn print_file_name(&self, file: &PathBuf) -> (r: Result<String, PrinterError>)
        ensures
            match r {
                Ok(text) => named_file_of(file_name_text(*file)) == Ok::<Seq<char>, PrinterError>(
                    text@,
                ),
                Err(error) => named_file_of(file_name_text(*file)) == Err::<
                    Seq<char>,
                    PrinterError,
                >(error),
            },
    {
        print_file_name(file)
    }

    /// The command that prints the uploaded file `file_name` as job
    /// `job_name`.
    pub fn print(&self, job_name: &str, file_name: &str, latest: Option<&PushStatus>) -> (r:
        Command)
        ensures
            r@ == print_command_of(job_name@, file_name@, latest),
    {
        print_command(job_name, file_name, latest)
    }
}

/// The registry and discovery listener for Bambu Lab X1 Carbon printers.
pub struct BambuX1Carbon {
    listener: Listener,
}

impl View for BambuX1Carbon {
    type V = ListenerView;

    closed spec fn view(&self) -> ListenerView {
        self.listener@
    }
}

impl BambuX1Carbon {
    /// Whether the value is in order.
    pub closed spec fn wf(&self) -> bool {
        self.listener.wf()
    }

    /// In a value that is in order, every handle of the registry stands
    /// under the text of its own address.
    pub proof fn lemma_wf(&self)
        requires
            self.wf(),
        ensures
            well_keyed(self@.printers),
    {
    }

    /// A listener that knows the machines of `config`, with an empty
    /// registry.
    pub fn new(config: &BambuLabsConfig) -> (created: Self)
        ensures
            created.wf(),
            created@ == initial_listener(PrinterFamily::BambuX1Carbon, config@),
    {
        BambuX1Carbon { listener: Listener::new(config, PrinterFamily::BambuX1Carbon) }
    }

    /// One step of discovery: takes what happened on the network and says
    /// what is to be done, registering a printer once its transport is
    /// open.
    pub fn discover(&mut self, event: DiscoveryEvent) -> (action: DiscoveryAction)
        requires
            old(self).wf(),
        ensures
            final(self).wf(),
            (final(self)@, action@) == discover_step(old(self)@, event@),
    {
        self.listener.discover(event)
    }

    /// A copy of the identity of every registered printer, in no particular
    /// order.
    pub fn list(&self) -> (infos: Vec<NetworkPrinterInfo>)
        requires
            self.wf(),
        ensures
            infos@.len() == self@.printers.dom().len(),
            forall|i: int|
                0 <= i < infos@.len() ==> self@.printers.contains_key(
                    (#[trigger] infos@[i])@.ip.text(),
                ) && self@.printers[infos@[i]@.ip.text()].info == infos@[i]@,
            forall|key: Seq<char>| #[trigger]
                self@.printers.contains_key(key) ==> exists|i: int|
                    0 <= i < infos@.len() && (#[trigger] infos@[i])@ == self@.printers[key].info,
    {
        self.listener.list()
    }

    /// A copy of every registered handle, in no particular order.
    pub fn list_handles(&self) -> (handles: Vec<NetworkPrinterHandle>)
        requires
            self.wf(),
        ensures
            handles@.len() == self@.printers.dom().len(),
            forall|i: int|
                0 <= i < handles@.len() ==> self@.printers.contains_pair(
                    (#[trigger] handles@[i])@.info.ip.text(),
                    handles@[i]@,
                ),
            forall|key: Seq<char>| #[trigger]
                self@.printers.contains_key(key) ==> exists|i: int|
                    0 <= i < handles@.len() && (#[trigger] handles@[i])@ == self@.printers[key],
    {
        self.listener.list_handles()
    }
}

} // verus!
