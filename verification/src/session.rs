//! Binding a session to the device.
//!
//! The binder finds the device among those attached, has its first interface
//! claimed, and reads from the link speed and the endpoint list what a
//! session needs. It touches no hardware: it says what to do next, and the
//! caller reports what happened.

use vstd::prelude::*;
use crate::error::LoaderError;
use crate::scan::{first, is_first, lemma_first_found, lemma_first_missing};
use crate::wire::Direction;

verus! {

/// USB vendor identifier of the device.
pub const VENDOR_ID: u16 = 0x2207;

/// USB product identifier of the device.
pub const PRODUCT_ID: u16 = 0x350a;

/// How long claiming the interface is tried, in microseconds.
pub const CLAIM_TIMEOUT_US: u64 = 1_000_000;

/// The pause between two attempts to claim the interface, in microseconds.
pub const CLAIM_PERIOD_US: u64 = 200;

/// The identifiers under which an attached device enumerates.
#[derive(Clone, Copy, Debug, PartialEq, Eq, Structural)]
pub struct DeviceId {
    pub vendor_id: u16,
    pub product_id: u16,
}

impl DeviceId {
    /// Whether the identifiers are those of the device this engine talks to.
    pub open spec fn spec_is_target(self) -> bool {
        self.vendor_id == VENDOR_ID && self.product_id == PRODUCT_ID
    }

    #[verifier::when_used_as_spec(spec_is_target)]
    pub fn is_target(self) -> (hit: bool)
        ensures
            hit == self.spec_is_target(),
    {
        self.vendor_id == VENDOR_ID && self.product_id == PRODUCT_ID
    }
}

/// The index of the first attached device with the expected identifiers.
pub open spec fn first_target(devices: Seq<DeviceId>) -> Option<int> {
    first(devices, |d: DeviceId| d.spec_is_target())
}

/// Finds the first attached device with the expected identifiers.
pub fn find_device(devices: &[DeviceId]) -> (found: Option<usize>)
    ensures
        found is Some <==> exists|i: int|
            0 <= i < devices.len() && (#[trigger] devices[i]).spec_is_target(),
        found matches Some(i) ==> is_first(
            devices@,
            |d: DeviceId| d.spec_is_target(),
            i as int,
        ),
        found matches Some(i) ==> first_target(devices@) == Some(i as int),
        found is None ==> first_target(devices@) is None,
{
    let ghost p = |d: DeviceId| d.spec_is_target();
    let mut i: usize = 0;
    while i < devices.len()
        invariant
            i <= devices.len(),
            p == |d: DeviceId| d.spec_is_target(),
            forall|j: int| 0 <= j < i ==> !p(#[trigger] devices@[j]),
        decreases devices.len() - i,
    {
        if devices[i].is_target() {
            proof {
                lemma_first_found(devices@, p, i as int);
            }
            return Some(i);
        }
        i += 1;
    }
    proof {
        lemma_first_missing(devices@, p);
        assert forall|j: int| 0 <= j < devices.len() implies !(#[trigger] devices[j]).spec_is_target() by {
            assert(!p(devices@[j]));
        }
    }
    None
}

/// The negotiated speed of the link.
#[derive(Clone, Copy, Debug, PartialEq, Eq, Structural)]
pub enum Speed {
    Low,
    Full,
    High,
    Super,
    SuperPlus,
    /// Any speed that is none of the above, or none reported.
    Other,
}

impl Speed {
    /// The largest packet that the link carries at this speed.
    pub open spec fn spec_max_packet_size(self) -> Option<u16> {
        match self {
            Speed::Low | Speed::Full => Some(64u16),
            Speed::High => Some(512u16),
            Speed::Super | Speed::SuperPlus => Some(1024u16),
            Speed::Other => None,
        }
    }

    #[verifier::when_used_as_spec(spec_max_packet_size)]
    pub fn max_packet_size(self) -> (size: Option<u16>)
        ensures
            size == self.spec_max_packet_size(),
    {
        match self {
            Speed::Low | Speed::Full => Some(64),
            Speed::High => Some(512),
            Speed::Super | Speed::SuperPlus => Some(1024),
            Speed::Other => None,
        }
    }
}

/// The state the device is in, as far as its endpoint layout tells.
#[derive(Clone, Copy, Debug, PartialEq, Eq, Structural)]
pub enum Mode {
    /// A second-stage loader is running and serves the richer commands.
    UsbPlug,
    /// The immutable on-die boot loader is running.
    MaskROM,
    Unknown,
}

impl Mode {
    /// The mode that goes with the address of the bulk-OUT endpoint:
    /// address 1 is USB-plug mode, address 2 is mask-ROM mode.
    pub open spec fn spec_of_endpoint(address: u8) -> Mode {
        if address == 1 {
            Mode::UsbPlug
        } else if address == 2 {
            Mode::MaskROM
        } else {
            Mode::Unknown
        }
    }

    #[verifier::when_used_as_spec(spec_of_endpoint)]
    pub fn of_endpoint(address: u8) -> (mode: Mode)
        ensures
            mode == Mode::spec_of_endpoint(address),
    {
        if address == 1 {
            Mode::UsbPlug
        } else if address == 2 {
            Mode::MaskROM
        } else {
            Mode::Unknown
        }
    }

    /// The name of the mode as it is shown to the user.
    pub open spec fn spec_name(self) -> Seq<char> {
        match self {
            Mode::UsbPlug => "USB plug"@,
            Mode::MaskROM => "mask ROM"@,
            Mode::Unknown => "unknown"@,
        }
    }

    pub fn name(&self) -> (text: &'static str)
        ensures
            text@ == self.spec_name(),
    {
        match self {
            Mode::UsbPlug => "USB plug",
            Mode::MaskROM => "mask ROM",
            Mode::Unknown => "unknown",
        }
    }
}

/// One endpoint of the selected alternate setting.
#[derive(Clone, Copy, Debug, PartialEq, Eq, Structural)]
pub struct Endpoint {
    pub address: u8,
    pub direction: Direction,
}

/// The index of the first endpoint that runs in `direction`.
pub open spec fn first_endpoint(endpoints: Seq<Endpoint>, direction: Direction) -> Option<int> {
    first(endpoints, |e: Endpoint| e.direction == direction)
}

/// Finds the address of the first endpoint that runs in `direction`.
pub fn find_endpoint(endpoints: &[Endpoint], direction: Direction) -> (address: Option<u8>)
    ensures
        address is Some <==> exists|i: int|
            0 <= i < endpoints.len() && (#[trigger] endpoints[i]).direction == direction,
        address == match first_endpoint(endpoints@, direction) {
            Some(i) => Some(endpoints[i].address),
            None => None,
        },
{
    let ghost p = |e: Endpoint| e.direction == direction;
    let mut i: usize = 0;
    while i < endpoints.len()
        invariant
            i <= endpoints.len(),
            p == |e: Endpoint| e.direction == direction,
            forall|j: int| 0 <= j < i ==> !p(#[trigger] endpoints@[j]),
        decreases endpoints.len() - i,
    {
        if endpoints[i].direction == direction {
            proof {
                lemma_first_found(endpoints@, p, i as int);
            }
            return Some(endpoints[i].address);
        }
        i += 1;
    }
    proof {
        lemma_first_missing(endpoints@, p);
        assert forall|j: int| 0 <= j < endpoints.len() implies (#[trigger] endpoints[j]).direction
            != direction by {
            assert(!p(endpoints@[j]));
        }
    }
    None
}

/// A bound session: the addresses of the two bulk endpoints, and the packet
/// size of the link. The handle to the claimed interface stays with the
/// caller.
#[derive(Clone, Copy, Debug, PartialEq, Eq, Structural)]
pub struct Session {
    pub ep_in: u8,
    pub ep_out: u8,
    pub max_packet_size: u16,
}

impl Session {
    /// The mode of the device, read off the bulk-OUT endpoint.
    pub open spec fn spec_mode(self) -> Mode {
        Mode::spec_of_endpoint(self.ep_out)
    }

    #[verifier::when_used_as_spec(spec_mode)]
    pub fn mode(self) -> (mode: Mode)
        ensures
            mode == self.spec_mode(),
    {
        Mode::of_endpoint(self.ep_out)
    }
}

/// The session that a link speed and an endpoint list give. An unknown speed
/// is `SpeedUnsupported`. The session takes the first OUT and the first IN
/// endpoint; a device that lacks either is no device to talk to, which is
/// `DeviceNotFound`.
pub open spec fn spec_bind(speed: Speed, endpoints: Seq<Endpoint>) -> Result<Session, LoaderError> {
    match speed.spec_max_packet_size() {
        None => Err(LoaderError::SpeedUnsupported),
        Some(max_packet_size) => match (
            first_endpoint(endpoints, Direction::Out),
            first_endpoint(endpoints, Direction::In),
        ) {
            (Some(o), Some(i)) => Ok(
                Session { ep_in: endpoints[i].address, ep_out: endpoints[o].address, max_packet_size },
            ),
            _ => Err(LoaderError::DeviceNotFound),
        },
    }
}

/// Derives the session from the link speed and the endpoints of the selected
/// alternate setting.
pub fn bind(speed: Speed, endpoints: &[Endpoint]) -> (bound: Result<Session, LoaderError>)
    ensures
        bound == spec_bind(speed, endpoints@),
{
    match speed.max_packet_size() {
        None => Err(LoaderError::SpeedUnsupported),
        Some(max_packet_size) => {
            let ep_out = find_endpoint(endpoints, Direction::Out);
            let ep_in = find_endpoint(endpoints, Direction::In);
            match (ep_out, ep_in) {
                (Some(ep_out), Some(ep_in)) => Ok(Session { ep_in, ep_out, max_packet_size }),
                _ => Err(LoaderError::DeviceNotFound),
            }
        },
    }
}

/// What the caller reports to the binder.
#[derive(Debug, PartialEq, Eq)]
pub enum BindEvent {
    /// The identifiers of the attached devices, in enumeration order.
    Devices(Vec<DeviceId>),
    /// The interface was claimed.
    Granted,
    /// The attempt to claim the interface was refused.
    Refused,
    /// The pause is over, `elapsed_us` microseconds after the first attempt
    /// to claim the interface.
    Resumed { elapsed_us: u64 },
    /// The link speed of the opened device and the endpoints of the first
    /// alternate setting, in descriptor order.
    Described { speed: Speed, endpoints: Vec<Endpoint> },
}

/// A binder event with its lists as sequences.
pub enum BindEventView {
    Devices(Seq<DeviceId>),
    Granted,
    Refused,
    Resumed { elapsed_us: u64 },
    Described { speed: Speed, endpoints: Seq<Endpoint> },
}

impl View for BindEvent {
    type V = BindEventView;

    open spec fn view(&self) -> BindEventView {
        match *self {
            BindEvent::Devices(devices) => BindEventView::Devices(devices@),
            BindEvent::Granted => BindEventView::Granted,
            BindEvent::Refused => BindEventView::Refused,
            BindEvent::Resumed { elapsed_us } => BindEventView::Resumed { elapsed_us },
            BindEvent::Described { speed, endpoints } => BindEventView::Described {
                speed,
                endpoints: endpoints@,
            },
        }
    }
}

/// The state of the binder, which is also what the caller has to do next.
#[derive(Clone, Copy, Debug, PartialEq, Eq, Structural)]
pub enum Binder {
    /// List the attached devices and report `Devices`.
    Enumerate,
    /// Open the device at index `device` of the reported list if it is not
    /// open yet, try to claim its first interface, and report `Granted` or
    /// `Refused`.
    Claim { device: usize },
    /// Sleep for `micros` microseconds and report `Resumed`.
    Pause { device: usize, micros: u64 },
    /// Read the link speed and the endpoints of the device and report
    /// `Described`.
    Describe { device: usize },
    /// The session is bound.
    Bound(Session),
    /// Binding failed.
    Failed(LoaderError),
}

impl Binder {
    /// The state after `event`. An event that does not answer the pending
    /// step leaves the state as it is; so does any event once the binder has
    /// bound a session or failed.
    pub open spec fn spec_advance(self, event: BindEventView) -> Binder {
        match (self, event) {
            (Binder::Enumerate, BindEventView::Devices(devices)) => match first_target(devices) {
                Some(i) => Binder::Claim { device: i as usize },
                None => Binder::Failed(LoaderError::DeviceNotFound),
            },
            (Binder::Claim { device }, BindEventView::Granted) => Binder::Describe { device },
            (Binder::Claim { device }, BindEventView::Refused) => Binder::Pause {
                device,
                micros: CLAIM_PERIOD_US,
            },
            (Binder::Pause { device, .. }, BindEventView::Resumed { elapsed_us }) => {
                if elapsed_us <= CLAIM_TIMEOUT_US {
                    Binder::Claim { device }
                } else {
                    Binder::Failed(LoaderError::InterfaceBusy)
                }
            },
            (Binder::Describe { .. }, BindEventView::Described { speed, endpoints }) => {
                match spec_bind(speed, endpoints) {
                    Ok(session) => Binder::Bound(session),
                    Err(e) => Binder::Failed(e),
                }
            },
            _ => self,
        }
    }

    /// Takes the report of the pending step and says what comes next.
    pub fn advance(self, event: BindEvent) -> (next: Binder)
        ensures
            next == self.spec_advance(event@),
    {
        match (self, event) {
            (Binder::Enumerate, BindEvent::Devices(devices)) => match find_device(
                devices.as_slice(),
            ) {
                Some(i) => Binder::Claim { device: i },
                None => Binder::Failed(LoaderError::DeviceNotFound),
            },
            (Binder::Claim { device }, BindEvent::Granted) => Binder::Describe { device },
            (Binder::Claim { device }, BindEvent::Refused) => Binder::Pause {
                device,
                micros: CLAIM_PERIOD_US,
            },
            (Binder::Pause { device, .. }, BindEvent::Resumed { elapsed_us }) => {
                if elapsed_us <= CLAIM_TIMEOUT_US {
                    Binder::Claim { device }
                } else {
                    Binder::Failed(LoaderError::InterfaceBusy)
                }
            },
            (Binder::Describe { .. }, BindEvent::Described { speed, endpoints }) => {
                match bind(speed, endpoints.as_slice()) {
                    Ok(session) => Binder::Bound(session),
                    Err(e) => Binder::Failed(e),
                }
            },
            (state, _) => state,
        }
    }

    /// Whether the binder has come to its end.
    pub open spec fn spec_is_settled(self) -> bool {
        self is Bound || self is Failed
    }

    #[verifier::when_used_as_spec(spec_is_settled)]
    pub fn is_settled(self) -> (settled: bool)
        ensures
            settled == self.spec_is_settled(),
    {
        match self {
            Binder::Bound(_) => true,
            Binder::Failed(_) => true,
            _ => false,
        }
    }
}

/// Starts to bind a session: the first step is to list the attached devices.
pub fn connect() -> (binder: Binder)
    ensures
        binder == Binder::Enumerate,
{
    Binder::Enumerate
}

} // verus!
