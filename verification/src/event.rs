//! Events, and the order a handler hears them in. Each event is first
//! delivered to its own handler method; then it reaches the generic update of
//! what it concerns, so a handler that names no event still hears that
//! something changed.

use vstd::prelude::*;

use crate::ident::{BayUid, DeviceUid};
use crate::registry::WriteBack;
use crate::types::{
    ActionTransmitRequest, AmpDolbySettings, AmpZoneSettings, ArcStatus, AudioChangeSource,
    AudioClip, AudioEndpoint, BayMirrorStatus, BayNameChange, DeviceV2ipDetails, DeviceV2ipSink,
    EdidProfile, EdidProfileChange, EdidRecord, EdidRequest, FactoryResetRequest, FirmwareVersion,
    IrCapture, IrTransmitRequest, KeyTransmitRequest, LinkFeature, MultiviewerCommand,
    MultiviewerStatus, NetworkPortStatus, PowerStatus, RcAction, RcKey, RcSettings, RcType,
    RebootRequest, SetRouteRequest, TopologyEntry, V2ipBlacklistChange, V2ipDeviceStats,
    V2ipPowerSaveRequest, V2ipStreamSources, V2ipTilingConfig, VideoWallCommand,
    VolumeMuteStatus,
};

verus! {

/// What an event concerns, which decides what it fans in to.
#[derive(Clone, Copy, Debug, PartialEq, Eq)]
pub enum EventScope {
    /// A device event.
    Device(DeviceUid),
    /// A bay event.
    Bay(BayUid),
    /// A link change, which concerns a bay and the device that owns it.
    BayAndDevice(BayUid),
}

/// A generic update a handler receives after an event's own method.
#[derive(Clone, Copy, Debug, PartialEq, Eq)]
pub enum GenericUpdate {
    Device(DeviceUid),
    Bay(BayUid),
}

/// The generic updates an event fans in to, in the order they are delivered.
pub open spec fn spec_fan_in(scope: EventScope) -> Seq<GenericUpdate> {
    match scope {
        EventScope::Device(d) => seq![GenericUpdate::Device(d)],
        EventScope::Bay(b) => seq![GenericUpdate::Bay(b)],
        EventScope::BayAndDevice(b) => seq![GenericUpdate::Bay(b), GenericUpdate::Device(b.device)],
    }
}

/// The generic updates an event fans in to.
pub fn fan_in(scope: EventScope) -> (r: Vec<GenericUpdate>)
    ensures
        r@ == spec_fan_in(scope),
{
    let mut r: Vec<GenericUpdate> = Vec::new();
    match scope {
        EventScope::Device(d) => {
            r.push(GenericUpdate::Device(d));
        },
        EventScope::Bay(b) => {
            r.push(GenericUpdate::Bay(b));
        },
        EventScope::BayAndDevice(b) => {
            r.push(GenericUpdate::Bay(b));
            r.push(GenericUpdate::Device(b.device));
        },
    }
    assert(r@ =~= spec_fan_in(scope));
    r
}

/// Every event reaches a generic update; a bay event reaches its bay's, a
/// device event its device's, and a link change both, bay first.
pub proof fn lemma_every_event_fans_in(scope: EventScope)
    ensures
        spec_fan_in(scope).len() >= 1,
        scope matches EventScope::Device(d) ==> spec_fan_in(scope) == seq![GenericUpdate::Device(d)],
        scope matches EventScope::Bay(b) ==> spec_fan_in(scope) == seq![GenericUpdate::Bay(b)],
        scope matches EventScope::BayAndDevice(b) ==> spec_fan_in(scope)[0] == GenericUpdate::Bay(b)
            && spec_fan_in(scope)[1] == GenericUpdate::Device(b.device),
{
}

/// What happened on a device, or what a peer asked of it.
#[derive(Clone, Debug, PartialEq)]
pub enum DeviceEvent {
    /// The device's configuration changed.
    DeviceConfigChanged,
    /// The device has reported every part of its configuration.
    DeviceConfigComplete,
    /// The device started or stopped answering.
    DeviceOnlineChanged { online: bool },
    /// The device reported new temperatures.
    DeviceTemperatureChanged { temperatures: Vec<u8> },
    /// A firmware component reported its version.
    FirmwareVersionChanged { version: FirmwareVersion },
    /// The device reported a system status.
    SystemStatusChanged { status: u16, message: String },
    /// A network port reported its link state.
    NetworkStatusChanged { status: NetworkPortStatus },
    /// The device reported V2IP statistics.
    V2ipStatsChanged { stats: V2ipDeviceStats },
    /// The streams the device's source bays advertise changed.
    V2ipSourcesChanged { sources: Vec<V2ipStreamSources> },
    /// The device's V2IP encoder configuration changed.
    V2ipDetailsChanged { details: DeviceV2ipDetails },
    /// The streams the device's sink is subscribed to changed.
    V2ipSinkChanged { sink: DeviceV2ipSink },
    /// A multiviewer reported its state.
    MultiviewerStatusChanged { status: MultiviewerStatus },
    /// The device reported its audio endpoint tree.
    AudioEndpointsChanged { endpoints: Vec<AudioEndpoint> },
    /// The device reported its mesh master.
    MeshMasterChanged { master: DeviceUid },
    /// The device reported its view of the mesh topology.
    TopologyChanged { topology: Vec<TopologyEntry> },
    /// A ProAmp8 reported its Dolby settings.
    AmpDolbySettingsChanged { settings: AmpDolbySettings },
    /// Installer setup was completed or cleared.
    SetupStatusChanged { completed: bool },
    /// The installer id changed.
    InstallerIdChanged { installer_id: u16 },
    /// The sink was told to show a window.
    TilingChanged { tiling: V2ipTilingConfig },
    /// A source bay's remote-control configuration changed.
    RcSettingsChanged { settings: RcSettings },
    /// A V2IP device was linked to a remote peer.
    V2ipLinkChanged { target: DeviceUid },
    /// A multiviewer command arrived.
    MultiviewerCommand { command: MultiviewerCommand },
    /// An audio endpoint was switched to a new source.
    AudioSelectInput { change: AudioChangeSource },
    /// An audio endpoint was muted or unmuted.
    AudioEndpointMute { endpoint: u16, muted: bool },
    /// An audio endpoint's trigger changed.
    AudioEndpointTrigger { endpoint: u16, active: bool },
    /// An audio endpoint's volume changed.
    AudioEndpointVolume { endpoint: u16, volume: u32 },
    /// A peer asked every device to announce itself.
    DiscoverRequest,
    /// A peer asked a device to switch a sink.
    SetRouteRequested { request: SetRouteRequest },
    /// A peer asked a device for its EDID.
    EdidRequested { request: EdidRequest },
    /// A device answered with its EDID.
    EdidReceived { edid: EdidRecord },
    /// A peer asked a device to rename a bay.
    BayNameChangeRequested { change: BayNameChange },
    /// A peer asked a device to switch its EDID profile.
    EdidProfileChangeRequested { change: EdidProfileChange },
    /// A peer asked a device to reboot.
    RebootRequested { request: RebootRequest },
    /// A peer asked devices to factory-reset.
    FactoryResetRequested { request: FactoryResetRequest },
    /// A device sent its monitoring pulse.
    MonitoringPulse,
    /// A peer asked a device to upgrade its FPGA.
    UpgradeFpgaRequested,
    /// A peer asked a device to re-detect its bays.
    DetectBaysRequested,
    /// A peer asked a sink to enter or leave power save.
    PowerSaveRequested { request: V2ipPowerSaveRequest },
    /// A peer asked a device to send a remote-control key.
    KeyTransmitRequested { request: KeyTransmitRequest },
    /// A peer asked a device to perform a remote-control action.
    ActionTransmitRequested { request: ActionTransmitRequest },
    /// A peer asked a device to blast raw infrared.
    IrTransmitRequested { request: IrTransmitRequest },
    /// A device was added to or removed from the source blacklist.
    BlacklistChanged { change: V2ipBlacklistChange },
    /// A video wall command arrived.
    VideoWallCommand { command: VideoWallCommand },
}

/// What happened on a bay.
#[derive(Clone, Debug, PartialEq)]
pub enum BayEvent {
    /// A bay was seen for the first time.
    BayRegistered,
    /// The bay's routed video source changed.
    VideoSourceChanged { source: Option<BayUid> },
    /// The bay's routed audio source changed.
    AudioSourceChanged { source: Option<BayUid> },
    /// The bay's volume or mute state changed.
    VolumeChanged { volume: VolumeMuteStatus },
    /// The attached device's power state changed.
    PowerChanged { power: PowerStatus },
    /// The bay was renamed.
    NameChanged { name: String },
    /// A signal appeared or disappeared.
    SignalDetectedChanged { detected: bool },
    /// The bay started or stopped reporting a fault.
    FaultyChanged { faulty: bool },
    /// The bay was hidden or shown.
    HiddenChanged { hidden: bool },
    /// Power over Ethernet started or stopped supplying the bay.
    PoePoweredChanged { powered: bool },
    /// The HDBaseT link came up or went down.
    HdbtConnectedChanged { connected: bool },
    /// The signal format description changed.
    SignalTypeChanged { signal_type: String },
    /// Hot-plug detect was asserted or released.
    HpdDetectedChanged { detected: bool },
    /// A CEC device answered or stopped answering.
    CecDetectedChanged { detected: bool },
    /// The audio return channel changed.
    ArcChanged { arc: ArcStatus },
    /// The input's EDID profile changed.
    EdidProfileChanged { profile: EdidProfile },
    /// The input's remote-control type changed.
    RcTypeChanged { rc_type: RcType },
    /// A remote-control key was pressed on the bay.
    KeyPressed { key: RcKey },
    /// A remote-control action was received on the bay.
    ActionReceived { action: RcAction },
    /// The bay started or stopped mirroring another output.
    MirrorStatusChanged { mirror: BayMirrorStatus },
    /// A ProAmp8 zone's settings changed.
    AmpZoneSettingsChanged { settings: AmpZoneSettings },
    /// A volume step was requested on the bay.
    VolumeStep { up: bool },
    /// The bay detected audio clipping.
    AudioClipped { clip: AudioClip },
    /// Raw infrared was captured on the bay.
    IrCaptured { capture: IrCapture },
    /// The devices filtered out of this sink's picker changed.
    FilteredDevicesChanged { filtered: Vec<DeviceUid> },
    /// The audio endpoint the bay carries changed.
    AudioEndpointChanged { endpoint: u8 },
    /// The bay's V2IP encoder was enabled or disabled.
    EncoderDisabledChanged { disabled: bool },
    /// The bay's V2IP decoder was enabled or disabled.
    DecoderDisabledChanged { disabled: bool },
}

/// A change to a link between bays, which concerns a bay and its device.
#[derive(Clone, Debug, PartialEq)]
pub enum LinkEvent {
    /// The bay was linked to a bay on another device.
    ///
    /// `linked_serial` is the serial of the device at the other end of the
    /// link, and `bay_name` the name of the bay whose link record changed:
    /// this bay on the device that reported the change, and the far bay on
    /// its peer. Both ends are told, so both fire.
    BayLinked { linked_serial: String, bay_name: String, features: LinkFeature },
    /// The bay's link to another device was removed.
    ///
    /// The arguments describe the link that was removed, and mean what
    /// they do on [`Event::BayLinked`].
    BayUnlinked { linked_serial: String, bay_name: String },
}

/// Something that changed, or a request that arrived: a device event, a bay
/// event, or a change to a bay's link.
#[derive(Clone, Debug, PartialEq)]
pub enum Event {
    Device { device: DeviceUid, change: DeviceEvent },
    Bay { bay: BayUid, change: BayEvent },
    Link { bay: BayUid, change: LinkEvent },
}

/// What an event concerns.
pub open spec fn event_scope(e: Event) -> EventScope {
    match e {
        Event::Device { device, .. } => EventScope::Device(device),
        Event::Bay { bay, .. } => EventScope::Bay(bay),
        Event::Link { bay, .. } => EventScope::BayAndDevice(bay),
    }
}

impl Event {
    /// What the event concerns, which decides what it fans in to.
    pub fn scope(&self) -> (s: EventScope)
        ensures
            s == event_scope(*self),
    {
        match self {
            Event::Device { device, .. } => EventScope::Device(*device),
            Event::Bay { bay, .. } => EventScope::Bay(*bay),
            Event::Link { bay, .. } => EventScope::BayAndDevice(*bay),
        }
    }
}

/// One call a handler receives for an event: the event's own method, or a
/// generic update.
#[derive(Clone, Copy, Debug, PartialEq, Eq)]
pub enum Delivery {
    /// The handler method named for the event, with the event's data.
    Own,
    /// A generic update the event fans in to.
    Generic(GenericUpdate),
}

/// The calls a handler receives for an event, in order: its own method,
/// then the generic updates it fans in to.
pub open spec fn spec_deliveries(e: Event) -> Seq<Delivery> {
    seq![Delivery::Own] + spec_fan_in(event_scope(e)).map_values(|g: GenericUpdate| Delivery::Generic(g))
}

/// The calls a handler receives for `event`, in the order they are made.
pub fn deliveries(event: &Event) -> (r: Vec<Delivery>)
    ensures
        r@ == spec_deliveries(*event),
{
    let generic = fan_in(event.scope());
    let mut r: Vec<Delivery> = Vec::new();
    r.push(Delivery::Own);
    let mut k: usize = 0;
    while k < generic.len()
        invariant
            k <= generic@.len(),
            generic@ == spec_fan_in(event_scope(*event)),
            r@ == seq![Delivery::Own] + generic@.take(k as int).map_values(
                |g: GenericUpdate| Delivery::Generic(g),
            ),
        decreases generic@.len() - k,
    {
        r.push(Delivery::Generic(generic[k]));
        proof {
            assert(generic@.take(k + 1) =~= generic@.take(k as int).push(generic@[k as int]));
        }
        k = k + 1;
        assert(r@ =~= seq![Delivery::Own] + generic@.take(k as int).map_values(
            |g: GenericUpdate| Delivery::Generic(g),
        ));
    }
    assert(generic@.take(k as int) =~= generic@);
    r
}

/// Every event is first delivered to its own method, then to the generic
/// updates it fans in to, in their order: a device event to its device's
/// update, a bay event to its bay's, and a link change to its bay's and then
/// its device's. So a handler that overrides nothing still hears it.
pub proof fn lemma_own_method_then_fan_in(e: Event)
    ensures
        spec_deliveries(e)[0] == Delivery::Own,
        spec_deliveries(e).len() == 1 + spec_fan_in(event_scope(e)).len(),
        spec_deliveries(e).len() >= 2,
        forall|k: int|
            0 <= k < spec_fan_in(event_scope(e)).len() ==> #[trigger] spec_deliveries(e)[k + 1]
                == Delivery::Generic(spec_fan_in(event_scope(e))[k]),
        forall|k: int| 1 <= k < spec_deliveries(e).len() ==> spec_deliveries(e)[k] != Delivery::Own,
{
    let g = spec_fan_in(event_scope(e));
    let m = g.map_values(|x: GenericUpdate| Delivery::Generic(x));
    assert(spec_deliveries(e) == seq![Delivery::Own] + m);
    assert forall|k: int| 1 <= k < spec_deliveries(e).len() implies spec_deliveries(e)[k]
        != Delivery::Own by {
        assert(spec_deliveries(e)[k] == m[k - 1]);
    }
}

/// The event a command's write-back reports for the bay it addressed; a
/// reboot reports none, its device going quiet being what follows.
pub open spec fn spec_written_event(w: WriteBack) -> Option<Event> {
    match w {
        WriteBack::UserName { bay, name } => Some(
            Event::Bay { bay, change: BayEvent::NameChanged { name } },
        ),
        WriteBack::Hidden { bay, hidden } => Some(
            Event::Bay { bay, change: BayEvent::HiddenChanged { hidden } },
        ),
        WriteBack::EdidProfile { bay, profile } => Some(
            Event::Bay { bay, change: BayEvent::EdidProfileChanged { profile } },
        ),
        WriteBack::Power { bay, power } => Some(
            Event::Bay { bay, change: BayEvent::PowerChanged { power } },
        ),
        WriteBack::Volume { bay, volume } => Some(
            Event::Bay { bay, change: BayEvent::VolumeChanged { volume } },
        ),
        WriteBack::AmpSettings { bay, settings } => Some(
            Event::Bay { bay, change: BayEvent::AmpZoneSettingsChanged { settings } },
        ),
        WriteBack::Rebooting { .. } => None,
    }
}

/// The event a command's write-back reports.
pub fn written_event(w: WriteBack) -> (r: Option<Event>)
    ensures
        r == spec_written_event(w),
{
    match w {
        WriteBack::UserName { bay, name } => Some(
            Event::Bay { bay, change: BayEvent::NameChanged { name } },
        ),
        WriteBack::Hidden { bay, hidden } => Some(
            Event::Bay { bay, change: BayEvent::HiddenChanged { hidden } },
        ),
        WriteBack::EdidProfile { bay, profile } => Some(
            Event::Bay { bay, change: BayEvent::EdidProfileChanged { profile } },
        ),
        WriteBack::Power { bay, power } => Some(
            Event::Bay { bay, change: BayEvent::PowerChanged { power } },
        ),
        WriteBack::Volume { bay, volume } => Some(
            Event::Bay { bay, change: BayEvent::VolumeChanged { volume } },
        ),
        WriteBack::AmpSettings { bay, settings } => Some(
            Event::Bay { bay, change: BayEvent::AmpZoneSettingsChanged { settings } },
        ),
        WriteBack::Rebooting { .. } => None,
    }
}

} // verus!
