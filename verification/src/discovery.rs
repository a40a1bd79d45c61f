//! The discovery listener: what to make of each datagram that arrives, and
//! when a printer enters the registry.
//!
//! The listener does not touch the network. It is a machine that is handed
//! events (a datagram came, the socket failed, a transport was opened or
//! could not be) and answers each with what is to be done. It ends only when
//! receiving from the socket fails; no datagram and no failed transport ends
//! it. A printer enters the registry only as the handle that the listener
//! itself made of an accepted announcement.

use vstd::prelude::*;
use crate::announcement::{
    announcement_of, lemma_accepted_is_complete, parse_announcement, AnnouncementView,
    DeviceAnnouncement, Rejection,
};
use crate::bambu::BambuPrinter;
use crate::bambu_x1_carbon::BambuX1CarbonPrinter;
use crate::config::{machine_named, BambuLabsConfig, MachineConfig, MachineConfigView};
use crate::model::{model_name, model_of, BambuModel};
use crate::network_printer::{
    ClientSettings, ClientSettingsView, HandleView, InfoView, NetworkPrinter,
    NetworkPrinterHandle, NetworkPrinterInfo, NetworkPrinterManufacturer, NetworkPrinterView,
    PrinterView,
};
use crate::registry::{lemma_registered_keeps, registered, well_keyed, Registry};
use crate::slicer::OrcaSlicer;
use crate::text::lossy_text;

verus! {

/// The UDP port on which printers announce themselves.
pub const DISCOVERY_PORT: u16 = 2021;

/// The length beyond which a datagram is cut off.
pub const MAX_DATAGRAM_LEN: usize = 1536;

/// The family of printers that a listener registers. The family decides
/// which command interface a registered printer gets.
#[derive(Clone, Copy, Debug, PartialEq, Eq, Structural)]
pub enum PrinterFamily {
    /// Bambu Lab printers of any model.
    Bambu,
    /// Bambu Lab X1 Carbon printers.
    BambuX1Carbon,
}

/// What happened outside since the listener was last asked.
#[derive(Debug, PartialEq, Eq)]
pub enum DiscoveryEvent {
    /// A datagram arrived.
    Datagram(Vec<u8>),
    /// Receiving from the socket failed.
    ReceiveFailed,
    /// The transport that the listener asked for was opened.
    Connected,
    /// The transport that the listener asked for could not be opened.
    ConnectFailed,
}

/// A `DiscoveryEvent` as a mathematical value.
pub enum EventView {
    Datagram(Seq<u8>),
    ReceiveFailed,
    Connected,
    ConnectFailed,
}

impl View for DiscoveryEvent {
    type V = EventView;

    open spec fn view(&self) -> EventView {
        match self {
            DiscoveryEvent::Datagram(bytes) => EventView::Datagram(bytes@),
            DiscoveryEvent::ReceiveFailed => EventView::ReceiveFailed,
            DiscoveryEvent::Connected => EventView::Connected,
            DiscoveryEvent::ConnectFailed => EventView::ConnectFailed,
        }
    }
}

/// Why an event led to nothing.
#[derive(Clone, Copy, Debug, PartialEq, Eq, Structural)]
pub enum SkipReason {
    /// The datagram is no announcement of a printer of this vendor.
    Rejected(Rejection),
    /// The printer that announced itself is registered already.
    AlreadyRegistered,
    /// No machine is configured under the name announced.
    NotConfigured,
    /// The transport could not be opened: the printer stays unregistered.
    ConnectFailed,
    /// A transport was reported that the listener had not asked for.
    NothingPending,
}

/// Why the listener has ended.
#[derive(Clone, Copy, Debug, PartialEq, Eq, Structural)]
pub enum StopReason {
    /// Receiving from the socket failed.
    ReceiveFailed,
    /// The listener had ended before.
    Terminated,
}

/// What is to be done next.
#[derive(Debug, PartialEq, Eq)]
pub enum DiscoveryAction {
    /// Nothing: receive the next datagram.
    Skip(SkipReason),
    /// Open the transport to this printer and keep it running, then report
    /// `Connected`, or `ConnectFailed`.
    Connect(NetworkPrinterHandle),
    /// Receive the next datagram. The printer whose transport was opened
    /// went into the registry, or did not because its address was
    /// registered already.
    Registered(bool),
    /// Stop, and report the reason to whoever started the listener.
    Stop(StopReason),
}

/// A `DiscoveryAction` as a mathematical value.
pub enum ActionView {
    Skip(SkipReason),
    Connect(HandleView),
    Registered(bool),
    Stop(StopReason),
}

impl View for DiscoveryAction {
    type V = ActionView;

    open spec fn view(&self) -> ActionView {
        match self {
            DiscoveryAction::Skip(reason) => ActionView::Skip(*reason),
            DiscoveryAction::Connect(handle) => ActionView::Connect(handle@),
            DiscoveryAction::Registered(added) => ActionView::Registered(*added),
            DiscoveryAction::Stop(reason) => ActionView::Stop(*reason),
        }
    }
}

/// A listener as a mathematical value: its family, the registry, the
/// configured machines, whether it still listens, and the printer whose
/// transport it has asked for and not yet heard of.
pub struct ListenerView {
    pub family: PrinterFamily,
    pub printers: Map<Seq<char>, HandleView>,
    pub config: Seq<MachineConfigView>,
    pub listening: bool,
    pub pending: Option<HandleView>,
}

/// A listener that has just been made: it listens, and knows no printer.
pub open spec fn initial_listener(
    family: PrinterFamily,
    config: Seq<MachineConfigView>,
) -> ListenerView {
    ListenerView { family, printers: Map::empty(), config, listening: true, pending: None }
}

/// The model shown for a printer that announced a model code, or none.
pub open spec fn model_text(model_code: Option<Seq<char>>) -> Seq<char> {
    match model_code {
        Some(code) => model_name(model_of(code)),
        None => "Unknown"@,
    }
}

/// The serial number announced, or the empty text.
pub open spec fn serial_text(serial: Option<Seq<char>>) -> Seq<char> {
    match serial {
        Some(serial) => serial,
        None => Seq::empty(),
    }
}

/// The handle of the printer that made an accepted announcement and is
/// configured as `machine`.
pub open spec fn handle_for(
    family: PrinterFamily,
    announcement: AnnouncementView,
    manufacturer: NetworkPrinterManufacturer,
    machine: MachineConfigView,
) -> HandleView {
    let printer = PrinterView {
        client: ClientSettingsView {
            address: announcement.address.text(),
            access_code: machine.access_code,
            serial: serial_text(announcement.serial),
        },
        slicer_config: machine.slicer_config,
    };
    HandleView {
        info: InfoView {
            hostname: announcement.name,
            ip: announcement.address,
            port: announcement.port,
            manufacturer,
            model: Some(model_text(announcement.model_code)),
            serial: Some(serial_text(announcement.serial)),
        },
        client: match family {
            PrinterFamily::Bambu => NetworkPrinterView::Bambu(printer),
            PrinterFamily::BambuX1Carbon => NetworkPrinterView::BambuX1Carbon(printer),
        },
    }
}

/// The handle that a text announces to a listener of `family` that knows
/// the machines of `config`: none unless the text is an accepted
/// announcement under whose name a machine is configured.
pub open spec fn announced_handle(
    family: PrinterFamily,
    config: Seq<MachineConfigView>,
    text: Seq<char>,
) -> Option<HandleView> {
    match announcement_of(text) {
        Err(_) => None,
        Ok(announcement) => match machine_named(config, announcement.name.unwrap()) {
            None => None,
            Some(machine) => Some(
                handle_for(family, announcement, NetworkPrinterManufacturer::Bambu, machine),
            ),
        },
    }
}

/// Whether a handle is one that some announcement gives.
pub open spec fn is_announced(
    family: PrinterFamily,
    config: Seq<MachineConfigView>,
    handle: HandleView,
) -> bool {
    exists|text: Seq<char>| #[trigger] announced_handle(family, config, text) == Some(handle)
}

/// Whether every printer that the listener holds, registered or waited
/// for, is one that some announcement gave.
pub open spec fn all_announced(state: ListenerView) -> bool {
    &&& forall|key: Seq<char>| #[trigger]
        state.printers.contains_key(key) ==> is_announced(
            state.family,
            state.config,
            state.printers[key],
        )
    &&& state.pending matches Some(handle) ==> is_announced(state.family, state.config, handle)
}

/// What a listening listener makes of the text of a datagram.
pub open spec fn examined(state: ListenerView, text: Seq<char>) -> ActionView {
    match announcement_of(text) {
        Err(reason) => ActionView::Skip(SkipReason::Rejected(reason)),
        Ok(announcement) => if state.printers.contains_key(announcement.address.text()) {
            ActionView::Skip(SkipReason::AlreadyRegistered)
        } else {
            match announced_handle(state.family, state.config, text) {
                None => ActionView::Skip(SkipReason::NotConfigured),
                Some(handle) => ActionView::Connect(handle),
            }
        },
    }
}

/// One step of the listener: from its state and an event to its next state
/// and what is to be done.
pub open spec fn discover_step(state: ListenerView, event: EventView) -> (
    ListenerView,
    ActionView,
) {
    if !state.listening {
        (state, ActionView::Stop(StopReason::Terminated))
    } else {
        match event {
            EventView::Datagram(bytes) => match examined(state, lossy_text(bytes)) {
                ActionView::Connect(handle) => (
                    ListenerView { pending: Some(handle), ..state },
                    ActionView::Connect(handle),
                ),
                action => (state, action),
            },
            EventView::ReceiveFailed => (
                ListenerView { listening: false, ..state },
                ActionView::Stop(StopReason::ReceiveFailed),
            ),
            EventView::ConnectFailed => match state.pending {
                Some(_) => (
                    ListenerView { pending: None, ..state },
                    ActionView::Skip(SkipReason::ConnectFailed),
                ),
                None => (state, ActionView::Skip(SkipReason::NothingPending)),
            },
            EventView::Connected => match state.pending {
                Some(handle) => (
                    ListenerView {
                        printers: registered(state.printers, handle),
                        pending: None,
                        ..state
                    },
                    ActionView::Registered(!state.printers.contains_key(handle.info.ip.text())),
                ),
                None => (state, ActionView::Skip(SkipReason::NothingPending)),
            },
        }
    }
}

/// A datagram never changes the registry, and never ends the listener:
/// whatever arrives, the listener goes on or asks for a transport.
pub proof fn lemma_datagram_never_ends_listening(state: ListenerView, bytes: Seq<u8>)
    requires
        state.listening,
    ensures
        discover_step(state, EventView::Datagram(bytes)).0.printers == state.printers,
        discover_step(state, EventView::Datagram(bytes)).0.listening,
        !(discover_step(state, EventView::Datagram(bytes)).1 is Stop),
        !(discover_step(state, EventView::Datagram(bytes)).1 is Registered),
{
}

/// Only a failure of the socket ends the listener.
pub proof fn lemma_only_the_socket_ends_listening(state: ListenerView, event: EventView)
    requires
        state.listening,
    ensures
        discover_step(state, event).0.listening <==> event != EventView::ReceiveFailed,
        discover_step(state, event).1 is Stop <==> event == EventView::ReceiveFailed,
{
}

/// A transport is asked for only on an accepted announcement from an
/// address that is not registered, and the handle is made of exactly what
/// was announced: its address, the vendor's device type, the model that its
/// model code resolves to, and a name under which a machine is configured.
pub proof fn lemma_connect_only_when_valid(state: ListenerView, bytes: Seq<u8>, handle: HandleView)
    requires
        discover_step(state, EventView::Datagram(bytes)).1 == ActionView::Connect(handle),
    ensures
        announcement_of(lossy_text(bytes)) is Ok,
        handle.info.ip == announcement_of(lossy_text(bytes)).unwrap().address,
        handle.info.hostname == announcement_of(lossy_text(bytes)).unwrap().name,
        handle.info.hostname is Some,
        handle.info.model == Some(
            model_text(announcement_of(lossy_text(bytes)).unwrap().model_code),
        ),
        !state.printers.contains_key(handle.info.ip.text()),
        machine_named(state.config, handle.info.hostname.unwrap()) is Some,
        is_announced(state.family, state.config, handle),
{
    lemma_accepted_is_complete(lossy_text(bytes));
    assert(announced_handle(state.family, state.config, lossy_text(bytes)) == Some(handle));
}

/// Once a printer is registered, the datagram that announced it is skipped
/// when it comes again: the registry stays as it is and no transport is
/// asked for a second time.
pub proof fn lemma_reannouncement_is_skipped(
    state: ListenerView,
    bytes: Seq<u8>,
    handle: HandleView,
)
    requires
        discover_step(state, EventView::Datagram(bytes)).1 == ActionView::Connect(handle),
    ensures
        ({
            let asked = discover_step(state, EventView::Datagram(bytes)).0;
            let after = discover_step(asked, EventView::Connected).0;
            &&& after.printers == state.printers.insert(handle.info.ip.text(), handle)
            &&& discover_step(after, EventView::Datagram(bytes)) == (
                after,
                ActionView::Skip(SkipReason::AlreadyRegistered),
            )
        }),
{
}

/// Once the listener has ended, every event is answered with `Stop` and
/// nothing changes.
pub proof fn lemma_terminated_is_final(state: ListenerView, event: EventView)
    requires
        !state.listening,
    ensures
        discover_step(state, event) == (state, ActionView::Stop(StopReason::Terminated)),
{
}

/// No step removes a printer from the registry or replaces its handle.
pub proof fn lemma_registry_only_grows(state: ListenerView, event: EventView, key: Seq<char>)
    requires
        state.printers.contains_key(key),
    ensures
        discover_step(state, event).0.printers.contains_key(key),
        discover_step(state, event).0.printers[key] == state.printers[key],
{
}

/// A step keeps the registry in order, and lets in no printer but one that
/// an announcement gave.
pub proof fn lemma_step_keeps_order(state: ListenerView, event: EventView)
    requires
        well_keyed(state.printers),
        all_announced(state),
    ensures
        well_keyed(discover_step(state, event).0.printers),
        all_announced(discover_step(state, event).0),
        discover_step(state, event).0.config == state.config,
        discover_step(state, event).0.family == state.family,
{
    let next = discover_step(state, event).0;
    if state.listening {
        if let EventView::Datagram(bytes) = event {
            if let ActionView::Connect(handle) = examined(state, lossy_text(bytes)) {
                assert(announced_handle(state.family, state.config, lossy_text(bytes)) == Some(
                    handle,
                ));
            }
        }
        if let (EventView::Connected, Some(handle)) = (event, state.pending) {
            lemma_registered_keeps(state.printers, handle);
            assert forall|key: Seq<char>| #[trigger]
                next.printers.contains_key(key) implies is_announced(
                next.family,
                next.config,
                next.printers[key],
            ) by {
                if !state.printers.contains_key(key) {
                    assert(next.printers[key] == handle);
                }
            }
        }
    }
}

/// The listener after a sequence of events, taken in order.
pub open spec fn after_events(state: ListenerView, events: Seq<EventView>) -> ListenerView
    decreases events.len(),
{
    if events.len() == 0 {
        state
    } else {
        discover_step(after_events(state, events.drop_last()), events.last()).0
    }
}

/// Whatever happens, the registry stays in order, holds no printer but one
/// that an announcement gave, and keeps every printer it holds with the
/// handle it was registered with.
pub proof fn lemma_registry_is_kept(state: ListenerView, events: Seq<EventView>)
    requires
        well_keyed(state.printers),
        all_announced(state),
    ensures
        well_keyed(after_events(state, events).printers),
        all_announced(after_events(state, events)),
        after_events(state, events).config == state.config,
        after_events(state, events).family == state.family,
        forall|key: Seq<char>| #[trigger]
            state.printers.contains_key(key) ==> after_events(state, events).printers.contains_key(
                key,
            ) && after_events(state, events).printers[key] == state.printers[key],
    decreases events.len(),
{
    if events.len() > 0 {
        let before = after_events(state, events.drop_last());
        lemma_registry_is_kept(state, events.drop_last());
        lemma_step_keeps_order(before, events.last());
        let after = after_events(state, events);
        assert forall|key: Seq<char>| #[trigger]
            state.printers.contains_key(key) implies after.printers.contains_key(key)
            && after.printers[key] == state.printers[key] by {
            lemma_registry_only_grows(before, events.last(), key);
        }
    }
}

/// Every printer in the registry of a listener that started with none came
/// from an accepted announcement under whose name a machine is configured.
pub proof fn lemma_registered_were_announced(
    family: PrinterFamily,
    config: Seq<MachineConfigView>,
    events: Seq<EventView>,
    key: Seq<char>,
)
    requires
        after_events(initial_listener(family, config), events).printers.contains_key(key),
    ensures
        is_announced(
            family,
            config,
            after_events(initial_listener(family, config), events).printers[key],
        ),
{
    lemma_registry_is_kept(initial_listener(family, config), events);
}

/// A listener that has ended has ended for good: no later event brings it
/// back or changes its registry.
pub proof fn lemma_ended_for_good(state: ListenerView, events: Seq<EventView>)
    requires
        !state.listening,
    ensures
        after_events(state, events) == state,
    decreases events.len(),
{
    if events.len() > 0 {
        lemma_ended_for_good(state, events.drop_last());
    }
}

/// The handle of the printer that made an accepted announcement.
fn make_handle(
    family: PrinterFamily,
    announcement: DeviceAnnouncement,
    manufacturer: NetworkPrinterManufacturer,
    machine: &MachineConfig,
) -> (handle: NetworkPrinterHandle)
    ensures
        handle@ == handle_for(family, announcement@, manufacturer, machine@),
{
    let serial = match announcement.serial {
        Some(serial) => serial,
        None => String::new(),
    };
    let model = match &announcement.model_code {
        Some(code) => BambuModel::from_code(code.as_str()),
        None => BambuModel::Unknown("Unknown".to_owned()),
    };
    let client = ClientSettings {
        address: announcement.address.to_string(),
        access_code: machine.access_code.clone(),
        serial: serial.clone(),
    };
    let slicer = OrcaSlicer::new(machine.slicer_config.clone());
    let info = NetworkPrinterInfo {
        hostname: announcement.name,
        ip: announcement.address,
        port: announcement.port,
        manufacturer,
        model: Some(model.to_string()),
        serial: Some(serial),
    };
    let client = match family {
        PrinterFamily::Bambu => NetworkPrinter::Bambu(BambuPrinter { client, slicer }),
        PrinterFamily::BambuX1Carbon => NetworkPrinter::BambuX1Carbon(
            BambuX1CarbonPrinter { client, slicer },
        ),
    };
    NetworkPrinterHandle { info, client }
}

/// The view of an optional handle.
pub open spec fn handle_view(handle: Option<NetworkPrinterHandle>) -> Option<HandleView> {
    match handle {
        Some(handle) => Some(handle@),
        None => None,
    }
}

/// A discovery listener for one family of printers.
pub struct Listener {
    registry: Registry,
    config: BambuLabsConfig,
    listening: bool,
    family: PrinterFamily,
    pending: Option<NetworkPrinterHandle>,
}

impl View for Listener {
    type V = ListenerView;

    closed spec fn view(&self) -> ListenerView {
        ListenerView {
            family: self.family,
            printers: self.registry@,
            config: self.config@,
            listening: self.listening,
            pending: handle_view(self.pending),
        }
    }
}

impl Listener {
    /// Whether the listener is in order: its registry holds every handle
    /// under the text of its own address.
    pub open spec fn wf(&self) -> bool {
        well_keyed(self@.printers)
    }

    /// A listener for `family` that knows the machines of `config`, with an
    /// empty registry.
    pub fn new(config: &BambuLabsConfig, family: PrinterFamily) -> (listener: Self)
        ensures
            listener.wf(),
            listener@ == initial_listener(family, config@),
    {
        Listener {
            registry: Registry::new(),
            config: config.clone(),
            listening: true,
            family,
            pending: None,
        }
    }

    /// What to make of a datagram while listening.
    fn examine(&self, datagram: &[u8]) -> (action: DiscoveryAction)
        ensures
            action@ == examined(self@, lossy_text(datagram@)),
    {
        let (announcement, manufacturer) = match parse_announcement(datagram) {
            Err(reason) => { return DiscoveryAction::Skip(SkipReason::Rejected(reason)); },
            Ok(accepted) => accepted,
        };
        proof {
            lemma_accepted_is_complete(lossy_text(datagram@));
        }
        if self.registry.contains(&announcement.address) {
            return DiscoveryAction::Skip(SkipReason::AlreadyRegistered);
        }
        let name = match &announcement.name {
            Some(name) => name,
            None => { return DiscoveryAction::Skip(SkipReason::Rejected(Rejection::NoName)); },
        };
        match self.config.get_machine_config(name.as_str()) {
            None => DiscoveryAction::Skip(SkipReason::NotConfigured),
            Some(machine) => DiscoveryAction::Connect(
                make_handle(self.family, announcement, manufacturer, machine),
            ),
        }
    }

    /// One step of the listener.
    pub fn discover(&mut self, event: DiscoveryEvent) -> (action: DiscoveryAction)
        requires
            old(self).wf(),
        ensures
            final(self).wf(),
            (final(self)@, action@) == discover_step(old(self)@, event@),
    {
        if !self.listening {
            return DiscoveryAction::Stop(StopReason::Terminated);
        }
        match event {
            DiscoveryEvent::Datagram(bytes) => match self.examine(bytes.as_slice()) {
                DiscoveryAction::Connect(handle) => {
                    self.pending = Some(handle.clone());
                    DiscoveryAction::Connect(handle)
                },
                action => action,
            },
            DiscoveryEvent::ReceiveFailed => {
                self.listening = false;
                DiscoveryAction::Stop(StopReason::ReceiveFailed)
            },
            DiscoveryEvent::ConnectFailed => match self.pending.take() {
                Some(_) => DiscoveryAction::Skip(SkipReason::ConnectFailed),
                None => DiscoveryAction::Skip(SkipReason::NothingPending),
            },
            DiscoveryEvent::Connected => match self.pending.take() {
                Some(handle) => {
                    proof {
                        lemma_registered_keeps(self@.printers, handle@);
                    }
                    DiscoveryAction::Registered(self.registry.insert_if_absent(handle))
                },
                None => DiscoveryAction::Skip(SkipReason::NothingPending),
            },
        }
    }

    /// Whether the listener still listens.
    pub fn is_listening(&self) -> (b: bool)
        ensures
            b == self@.listening,
    {
        self.listening
    }

    /// A copy of the identity of every registered printer, in no particular
    /// order.
    pub fn list(&self) -> (infos: Vec<NetworkPrinterInfo>)
        requires
            self.wf(),
        ensures
            infos@.len() == self@.printers.dom().len(),
            forall|i: int|
                0 <= i < infos@.len() ==> self@.printers.contains_key(
                    (#[trigger] infos@[i])@.ip.text(),
                ) && self@.printers[infos@[i]@.ip.text()].info == infos@[i]@,
            forall|key: Seq<char>| #[trigger]
                self@.printers.contains_key(key) ==> exists|i: int|
                    0 <= i < infos@.len() && (#[trigger] infos@[i])@ == self@.printers[key].info,
    {
        self.registry.list()
    }

    /// A copy of every registered handle, in no particular order.
    pub fn list_handles(&self) -> (handles: Vec<NetworkPrinterHandle>)
        requires
            self.wf(),
        ensures
            handles@.len() == self@.printers.dom().len(),
            forall|i: int|
                0 <= i < handles@.len() ==> self@.printers.contains_pair(
                    (#[trigger] handles@[i])@.info.ip.text(),
                    handles@[i]@,
                ),
            forall|key: Seq<char>| #[trigger]
                self@.printers.contains_key(key) ==> exists|i: int|
                    0 <= i < handles@.len() && (#[trigger] handles@[i])@ == self@.printers[key],
    {
        self.registry.list_handles()
    }
}

} // verus!
