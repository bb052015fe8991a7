//! How the service is announced on the local network.

use crate::audio_protocol::{CHANNELS, CONTROL_PORT, FORMAT, FRAME_MS, PROTOCOL, SAMPLE_RATE};
use crate::text::{decimal, decimal_text};
use mdns_sd::{IfKind, ServiceInfo};
use vstd::prelude::*;

verus! {

pub const SERVICE_TYPE: &'static str = "_lan-audio._tcp.local.";

pub const INSTANCE_NAME: &'static str = "Audio Link";

pub const HOST_NAME: &'static str = "lan-audio.local.";

/// How long a change of the network is left to settle, in milliseconds.
pub const NETWORK_CHANGE_DEBOUNCE_MS: u64 = 1000;

/// How long an announcement that is taken down may take to go, in milliseconds.
pub const SHUTDOWN_TIMEOUT_MS: u64 = 2000;

/// Seconds between looks at the addresses of the host; zero for never.
pub const IP_CHECK_INTERVAL_S: u32 = 0;

/// Longest TXT string, `key=value`.
pub const TXT_STRING_LIMIT: usize = 255;

/// Interfaces by address family.
#[derive(Clone, Copy, PartialEq, Eq, Structural)]
pub enum InterfaceKind {
    All,
    Ipv4,
    Ipv6,
}

/// What is announced besides the TXT strings.
pub struct ServiceRecord {
    pub service_type: Seq<char>,
    pub fullname: Seq<char>,
    pub hostname: Seq<char>,
    pub port: u16,
    /// The addresses follow those of the host.
    pub addr_auto: bool,
    pub interfaces: Seq<InterfaceKind>,
}

/// `mdns_sd::ServiceInfo`, the announcement of a service with its TXT strings.
#[verifier::external_type_specification]
#[verifier::external_body]
pub struct ExServiceInfo(ServiceInfo);

/// `mdns_sd::Error`.
#[verifier::external_type_specification]
#[verifier::external_body]
pub struct ExMdnsError(mdns_sd::Error);

/// The TXT strings of an announcement in their order, as keys and values.
pub uninterp spec fn service_properties(service: ServiceInfo) -> Seq<(Seq<char>, Seq<char>)>;

/// The rest of an announcement.
pub uninterp spec fn service_record(service: ServiceInfo) -> ServiceRecord;

/// The characters of each key and value.
pub open spec fn txt_view(properties: Seq<(String, String)>) -> Seq<(Seq<char>, Seq<char>)> {
    properties.map_values(|property: (String, String)| (property.0@, property.1@))
}

/// A key that needs no care: lower-case letters and underscores.
pub open spec fn plain_key(key: Seq<char>) -> bool {
    forall|i: int| 0 <= i < key.len() ==> 'a' <= #[trigger] key[i] <= 'z' || key[i] == '_'
}

pub open spec fn ascii(s: Seq<char>) -> bool {
    forall|i: int| 0 <= i < s.len() ==> (#[trigger] s[i]) as u32 <= 127
}

/// Plain keys, each once, with values in ASCII.
pub open spec fn plain_properties(properties: Seq<(Seq<char>, Seq<char>)>) -> bool {
    &&& forall|i: int|
        0 <= i < properties.len() ==> plain_key((#[trigger] properties[i]).0) && ascii(
            properties[i].1,
        )
    &&& forall|i: int, j: int|
        0 <= i < j < properties.len() ==> (#[trigger] properties[i]).0 != (
        #[trigger] properties[j]).0
}

/// Every TXT string, `key=value`, is within the limit.
pub open spec fn txt_fits(properties: Seq<(Seq<char>, Seq<char>)>) -> bool {
    forall|i: int|
        0 <= i < properties.len() ==> (#[trigger] properties[i]).0.len() + 1
            + properties[i].1.len() <= TXT_STRING_LIMIT
}

/// A service type that names a subtype.
pub open spec fn has_subtype(service_type: Seq<char>) -> bool {
    exists|i: int|
        0 <= i && i + 6 <= service_type.len() && #[trigger] service_type.subrange(i, i + 6)
            == "._sub."@
}

/// A host name with its domain twice.
pub open spec fn doubled_domain(hostname: Seq<char>) -> bool {
    hostname.len() >= 13 && hostname.skip(hostname.len() - 13) == ".local.local."@
}

/// `ServiceInfo::new` without addresses, for names that it takes as they are: a
/// service type without a subtype, an instance without dots and backslashes, a
/// host name that has its domain once, and plain properties. It succeeds where
/// every TXT string fits. The announcement then has those names, the port and
/// the properties, is made on all interfaces and keeps its addresses.
#[verifier::external_body]
fn new_service_info(
    service_type: &str,
    instance: &str,
    hostname: &str,
    port: u16,
    properties: &[(String, String)],
) -> (r: Result<ServiceInfo, mdns_sd::Error>)
    requires
        !has_subtype(service_type@),
        !instance@.contains('.'),
        !instance@.contains('\\'),
        !doubled_domain(hostname@),
        plain_properties(txt_view(properties@)),
    ensures
        r is Ok <==> txt_fits(txt_view(properties@)),
        r matches Ok(service) ==> {
            &&& service_properties(service) == txt_view(properties@)
            &&& service_record(service) == (ServiceRecord {
                service_type: service_type@,
                fullname: instance@ + "."@ + service_type@,
                hostname: hostname@,
                port,
                addr_auto: false,
                interfaces: seq![InterfaceKind::All],
            })
        },
{
    ServiceInfo::new(service_type, instance, hostname, (), port, properties)
}

/// `ServiceInfo::enable_addr_auto`: the addresses follow those of the host.
#[verifier::external_body]
fn enable_addr_auto(service: ServiceInfo) -> (r: ServiceInfo)
    ensures
        service_properties(r) == service_properties(service),
        service_record(r) == (ServiceRecord { addr_auto: true, ..service_record(service) }),
{
    service.enable_addr_auto()
}

/// `ServiceInfo::set_interfaces` with one kind of interface: the announcement is
/// made there only.
#[verifier::external_body]
fn set_interfaces(service: &mut ServiceInfo, kind: InterfaceKind)
    ensures
        service_properties(*final(service)) == service_properties(*old(service)),
        service_record(*final(service)) == (ServiceRecord {
            interfaces: seq![kind],
            ..service_record(*old(service))
        }),
{
    let kind = match kind {
        InterfaceKind::All => IfKind::All,
        InterfaceKind::Ipv4 => IfKind::IPv4,
        InterfaceKind::Ipv6 => IfKind::IPv6,
    };
    service.set_interfaces(vec![kind]);
}

/// What receivers learn of the stream before they connect.
pub open spec fn stream_properties() -> Seq<(Seq<char>, Seq<char>)> {
    seq![
        ("format"@, FORMAT@),
        ("sample_rate"@, decimal(SAMPLE_RATE as nat)),
        ("channels"@, decimal(CHANNELS as nat)),
        ("frame_ms"@, decimal(FRAME_MS as nat)),
        ("protocol"@, PROTOCOL@),
        ("control_port"@, decimal(CONTROL_PORT as nat)),
        ("audio_transport"@, "udp-client-port"@),
    ]
}

/// The TXT properties of the service.
pub fn properties() -> (r: Vec<(String, String)>)
    ensures
        txt_view(r@) == stream_properties(),
{
    let mut out: Vec<(String, String)> = Vec::new();
    out.push(("format".to_owned(), FORMAT.to_owned()));
    out.push(("sample_rate".to_owned(), decimal_text(SAMPLE_RATE as u64)));
    out.push(("channels".to_owned(), decimal_text(CHANNELS as u64)));
    out.push(("frame_ms".to_owned(), decimal_text(FRAME_MS as u64)));
    out.push(("protocol".to_owned(), PROTOCOL.to_owned()));
    out.push(("control_port".to_owned(), decimal_text(CONTROL_PORT as u64)));
    out.push(("audio_transport".to_owned(), "udp-client-port".to_owned()));
    assert(txt_view(out@) =~= stream_properties());
    out
}

proof fn stream_properties_are_plain()
    ensures
        plain_properties(stream_properties()),
        txt_fits(stream_properties()),
{
    reveal_strlit("format");
    reveal_strlit("sample_rate");
    reveal_strlit("channels");
    reveal_strlit("frame_ms");
    reveal_strlit("protocol");
    reveal_strlit("control_port");
    reveal_strlit("audio_transport");
    reveal_strlit("s16le");
    reveal_strlit("tcp-control-udp-pcm-fec");
    reveal_strlit("udp-client-port");
    reveal_with_fuel(decimal, 6);
    let all = stream_properties();
    assert("format"@[0] != "frame_ms"@[0] || "format"@[1] != "frame_ms"@[1]);
    assert(all[1].0.len() == 11 && all[2].0.len() == 8 && all[3].0.len() == 8 && all[4].0.len() == 8
        && all[5].0.len() == 12 && all[6].0.len() == 15 && all[0].0.len() == 6);
    assert(all[2].0[0] == 'c' && all[3].0[0] == 'f' && all[4].0[0] == 'p');
}

/// The announcement of the service.
pub fn service_info() -> (r: Result<ServiceInfo, mdns_sd::Error>)
    ensures
        r matches Ok(service) && {
            &&& service_properties(service) == stream_properties()
            &&& service_record(service) == (ServiceRecord {
                service_type: SERVICE_TYPE@,
                fullname: INSTANCE_NAME@ + "."@ + SERVICE_TYPE@,
                hostname: HOST_NAME@,
                port: CONTROL_PORT,
                addr_auto: true,
                interfaces: seq![InterfaceKind::Ipv4],
            })
        },
{
    let properties: Vec<(String, String)> = properties();
    proof {
        stream_properties_are_plain();
        reveal_strlit("_lan-audio._tcp.local.");
        reveal_strlit("._sub.");
        reveal_strlit("Audio Link");
        reveal_strlit("lan-audio.local.");
        reveal_strlit(".local.local.");
        let service_type = SERVICE_TYPE@;
        assert(forall|i: int| 0 <= i < service_type.len() ==> service_type[i] != 's');
        assert forall|i: int|
            0 <= i && i + 6 <= service_type.len() implies #[trigger] service_type.subrange(
            i,
            i + 6,
        ) != "._sub."@ by {
            assert(service_type.subrange(i, i + 6)[2] == service_type[i + 2]);
            assert("._sub."@[2] == 's');
        }
        assert(HOST_NAME@.skip(3)[0] == '-');
        assert(".local.local."@[0] == '.');
    }
    match new_service_info(
        SERVICE_TYPE,
        INSTANCE_NAME,
        HOST_NAME,
        CONTROL_PORT,
        properties.as_slice(),
    ) {
        Ok(service) => {
            let mut service: ServiceInfo = enable_addr_auto(service);
            set_interfaces(&mut service, InterfaceKind::Ipv4);
            Ok(service)
        },
        Err(error) => Err(error),
    }
}

/// Calls that put the announcement up.
#[derive(Clone, Copy, PartialEq, Eq, Structural)]
pub enum PublishStep {
    CreateDaemon,
    SetIpCheckInterval,
    DisableIpv6,
    Register,
}

/// What the publisher is doing.
#[derive(Clone, Copy, PartialEq, Eq, Structural)]
pub enum MdnsStage {
    /// `watched` is set once the network is watched.
    Publish { watched: bool, step: PublishStep },
    WatchNetwork,
    Idle,
    /// A change of the network is left to settle.
    Debounce,
    /// The announcement is taken down, for good or to be renewed.
    TakeDown { last: bool },
}

/// What the publisher has learnt.
pub enum MdnsEvent {
    Done,
    Failed { message: String },
    ShutdownRequested,
    /// The network changed, unless nothing watches it any more.
    NetworkChanged { watched: bool },
}

/// Where that leads.
pub enum MdnsStep {
    Continue { stage: MdnsStage },
    Stopped,
    Failed { message: String },
}

/// A step, with the characters of its message.
pub enum MdnsStepView {
    Continue { stage: MdnsStage },
    Stopped,
    Failed { message: Seq<char> },
}

impl View for MdnsStep {
    type V = MdnsStepView;

    open spec fn view(&self) -> MdnsStepView {
        match self {
            MdnsStep::Continue { stage } => MdnsStepView::Continue { stage: *stage },
            MdnsStep::Stopped => MdnsStepView::Stopped,
            MdnsStep::Failed { message } => MdnsStepView::Failed { message: message@ },
        }
    }
}

/// What a call was for, as its failure is told.
pub open spec fn publish_context(step: PublishStep) -> Seq<char> {
    match step {
        PublishStep::CreateDaemon => "failed to create mDNS daemon: "@,
        PublishStep::SetIpCheckInterval => "failed to disable mDNS IP polling: "@,
        PublishStep::DisableIpv6 => "failed to disable IPv6 mDNS interfaces: "@,
        PublishStep::Register => "failed to register mDNS service: "@,
    }
}

pub open spec fn moves_to(stage: MdnsStage) -> MdnsStepView {
    MdnsStepView::Continue { stage }
}

/// The step after an event. One that the stage does not await changes nothing.
pub open spec fn mdns_next(stage: MdnsStage, event: MdnsEvent) -> MdnsStepView {
    match (stage, event) {
        (MdnsStage::Publish { watched, step }, MdnsEvent::Done) => match step {
            PublishStep::CreateDaemon => moves_to(
                MdnsStage::Publish { watched, step: PublishStep::SetIpCheckInterval },
            ),
            PublishStep::SetIpCheckInterval => moves_to(
                MdnsStage::Publish { watched, step: PublishStep::DisableIpv6 },
            ),
            PublishStep::DisableIpv6 => moves_to(
                MdnsStage::Publish { watched, step: PublishStep::Register },
            ),
            PublishStep::Register => if watched {
                moves_to(MdnsStage::Idle)
            } else {
                moves_to(MdnsStage::WatchNetwork)
            },
        },
        (MdnsStage::Publish { step, .. }, MdnsEvent::Failed { message }) => MdnsStepView::Failed {
            message: publish_context(step) + message@,
        },
        (MdnsStage::WatchNetwork, MdnsEvent::Done) => moves_to(MdnsStage::Idle),
        (MdnsStage::WatchNetwork, MdnsEvent::Failed { message }) => MdnsStepView::Failed {
            message: message@,
        },
        (MdnsStage::Idle, MdnsEvent::ShutdownRequested) => moves_to(
            MdnsStage::TakeDown { last: true },
        ),
        (MdnsStage::Idle, MdnsEvent::NetworkChanged { watched }) => if watched {
            moves_to(MdnsStage::Debounce)
        } else {
            moves_to(MdnsStage::Idle)
        },
        (MdnsStage::Debounce, MdnsEvent::Done) => moves_to(MdnsStage::TakeDown { last: false }),
        (MdnsStage::TakeDown { last }, MdnsEvent::Done) => if last {
            MdnsStepView::Stopped
        } else {
            moves_to(MdnsStage::Publish { watched: true, step: PublishStep::CreateDaemon })
        },
        _ => moves_to(stage),
    }
}

/// The publisher begins by putting the announcement up.
pub fn publish() -> (r: MdnsStage)
    ensures
        r == (MdnsStage::Publish { watched: false, step: PublishStep::CreateDaemon }),
{
    MdnsStage::Publish { watched: false, step: PublishStep::CreateDaemon }
}

fn go(stage: MdnsStage) -> (r: MdnsStep)
    ensures
        r@ == moves_to(stage),
{
    MdnsStep::Continue { stage }
}

fn publish_failure(step: PublishStep, cause: String) -> (r: MdnsStep)
    ensures
        r@ == (MdnsStepView::Failed { message: publish_context(step) + cause@ }),
{
    let context: &'static str = match step {
        PublishStep::CreateDaemon => "failed to create mDNS daemon: ",
        PublishStep::SetIpCheckInterval => "failed to disable mDNS IP polling: ",
        PublishStep::DisableIpv6 => "failed to disable IPv6 mDNS interfaces: ",
        PublishStep::Register => "failed to register mDNS service: ",
    };
    let mut message: String = String::new();
    message.append(context);
    message.append(cause.as_str());
    assert(message@ =~= publish_context(step) + cause@);
    MdnsStep::Failed { message }
}

/// Takes the publisher one step on.
pub fn run(stage: MdnsStage, event: MdnsEvent) -> (r: MdnsStep)
    ensures
        r@ == mdns_next(stage, event),
{
    match (stage, event) {
        (MdnsStage::Publish { watched, step }, MdnsEvent::Done) => match step {
            PublishStep::CreateDaemon => go(
                MdnsStage::Publish { watched, step: PublishStep::SetIpCheckInterval },
            ),
            PublishStep::SetIpCheckInterval => go(
                MdnsStage::Publish { watched, step: PublishStep::DisableIpv6 },
            ),
            PublishStep::DisableIpv6 => go(
                MdnsStage::Publish { watched, step: PublishStep::Register },
            ),
            PublishStep::Register => {
                if watched {
                    go(MdnsStage::Idle)
                } else {
                    go(MdnsStage::WatchNetwork)
                }
            },
        },
        (MdnsStage::Publish { step, .. }, MdnsEvent::Failed { message }) => publish_failure(
            step,
            message,
        ),
        (MdnsStage::WatchNetwork, MdnsEvent::Done) => go(MdnsStage::Idle),
        (MdnsStage::WatchNetwork, MdnsEvent::Failed { message }) => MdnsStep::Failed { message },
        (MdnsStage::Idle, MdnsEvent::ShutdownRequested) => go(MdnsStage::TakeDown { last: true }),
        (MdnsStage::Idle, MdnsEvent::NetworkChanged { watched }) => {
            if watched {
                go(MdnsStage::Debounce)
            } else {
                go(MdnsStage::Idle)
            }
        },
        (MdnsStage::Debounce, MdnsEvent::Done) => go(MdnsStage::TakeDown { last: false }),
        (MdnsStage::TakeDown { last }, MdnsEvent::Done) => {
            if last {
                MdnsStep::Stopped
            } else {
                go(MdnsStage::Publish { watched: true, step: PublishStep::CreateDaemon })
            }
        },
        _ => go(stage),
    }
}

/// There is a daemon before the call of `stage`.
pub open spec fn has_daemon(stage: MdnsStage) -> bool {
    match stage {
        MdnsStage::Publish { step, .. } => !(step is CreateDaemon),
        _ => true,
    }
}

/// There is at most one daemon at a time: one is made only where there is none,
/// and it goes only by being taken down.
pub proof fn one_daemon_at_a_time(stage: MdnsStage, event: MdnsEvent)
    ensures
        match mdns_next(stage, event) {
            MdnsStepView::Continue { stage: next } => {
                &&& !has_daemon(stage) && has_daemon(next) ==> stage->Publish_step is CreateDaemon
                    && event is Done
                &&& has_daemon(stage) && !has_daemon(next) ==> stage == (MdnsStage::TakeDown {
                    last: false,
                }) && event is Done
            },
            MdnsStepView::Stopped => stage == (MdnsStage::TakeDown { last: true }) && event is Done,
            MdnsStepView::Failed { .. } => event is Failed,
        },
{
}

/// The stage after a call that succeeded.
pub open spec fn done(stage: MdnsStage) -> MdnsStage {
    match mdns_next(stage, MdnsEvent::Done) {
        MdnsStepView::Continue { stage } => stage,
        _ => stage,
    }
}

/// A change of the network takes the announcement down and puts it up again, and
/// leaves the publisher where it was, ready for the next change.
pub proof fn change_is_published()
    ensures
        mdns_next(MdnsStage::Idle, MdnsEvent::NetworkChanged { watched: true }) == moves_to(
            MdnsStage::Debounce,
        ),
        done(MdnsStage::Debounce) == (MdnsStage::TakeDown { last: false }),
        ({
            let up = done(done(MdnsStage::Debounce));
            &&& up == (MdnsStage::Publish { watched: true, step: PublishStep::CreateDaemon })
            &&& done(done(done(done(up)))) == MdnsStage::Idle
        }),
{
}

} // verus!
