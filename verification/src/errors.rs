//! The closed taxonomy of driver status codes.
//!
//! Every call into the native driver returns a 32-bit status code; value 0
//! is the sole success code. [`PCANStatus::classify`] turns any code into a
//! structured status by exact match against the known code table, falling
//! back to [`PCANStatus::Unknown`] for codes the taxonomy does not know.
//! [`PCANStatus::to_raw`] is the inverse on the known code set; the two
//! functions form a bijection there (see [`lemma_status_round_trip`]).
//!
//! The known codes carry one bit per condition. Bits 2 to 4 are reserved;
//! the bus-health block starts at bit 5, followed by the queue, hardware
//! and handle blocks, each code distinct — in particular, the sentinel for
//! `Unknown` is a code of its own and never 0, so that an unknown condition
//! can never be mistaken for success.

use vstd::prelude::*;

verus! {

/// The sole success code.
pub const PCAN_ERROR_OK: u32 = 0x00000000;

/// The transmit buffer in the CAN controller is full.
pub const PCAN_ERROR_XMTFULL: u32 = 0x00000001;

/// The CAN controller was read too late.
pub const PCAN_ERROR_OVERRUN: u32 = 0x00000002;

/// Bus error: an error counter reached the 'light' limit.
pub const PCAN_ERROR_BUSLIGHT: u32 = 0x00000020;

/// Bus error: an error counter reached the 'heavy' limit.
pub const PCAN_ERROR_BUSHEAVY: u32 = 0x00000040;

/// Bus error: an error counter reached the 'warning' limit.
pub const PCAN_ERROR_BUSWARNING: u32 = 0x00000080;

/// Bus error: the CAN controller is error passive.
pub const PCAN_ERROR_BUSPASSIVE: u32 = 0x00000100;

/// Bus error: the CAN controller is in bus-off state.
pub const PCAN_ERROR_BUSOFF: u32 = 0x00000200;

/// The receive queue is empty.
pub const PCAN_ERROR_QRCVEMPTY: u32 = 0x00000400;

/// The receive queue was read too late.
pub const PCAN_ERROR_QOVERRUN: u32 = 0x00000800;

/// The transmit queue is full.
pub const PCAN_ERROR_QXMTFULL: u32 = 0x00001000;

/// The test of the controller hardware registers failed (no hardware found).
pub const PCAN_ERROR_REGTEST: u32 = 0x00002000;

/// The driver is not loaded.
pub const PCAN_ERROR_NODRIVER: u32 = 0x00004000;

/// The hardware is already in use by a net.
pub const PCAN_ERROR_HWINUSE: u32 = 0x00008000;

/// A client is already connected to the net.
pub const PCAN_ERROR_NETINUSE: u32 = 0x00010000;

/// The hardware handle is invalid.
pub const PCAN_ERROR_ILLHW: u32 = 0x00020000;

/// The net handle is invalid.
pub const PCAN_ERROR_ILLNET: u32 = 0x00040000;

/// The client handle is invalid.
pub const PCAN_ERROR_ILLCLIENT: u32 = 0x00080000;

/// The resource (FIFO, client, timeout) cannot be created.
pub const PCAN_ERROR_RESOURCE: u32 = 0x00100000;

/// The parameter type is invalid.
pub const PCAN_ERROR_ILLPARAMTYPE: u32 = 0x00200000;

/// The parameter value is invalid.
pub const PCAN_ERROR_ILLPARAMVAL: u32 = 0x00400000;

/// The sentinel for a condition this taxonomy does not know; never 0.
pub const PCAN_ERROR_UNKNOWN: u32 = 0x00800000;

/// The data is invalid.
pub const PCAN_ERROR_ILLDATA: u32 = 0x01000000;

/// An operation succeeded only with irregularities.
pub const PCAN_ERROR_CAUTION: u32 = 0x02000000;

/// The channel is not initialized.
pub const PCAN_ERROR_INITIALIZE: u32 = 0x04000000;

/// The operation is not allowed in the current channel state.
pub const PCAN_ERROR_ILLOPERATION: u32 = 0x08000000;

/// Bus-health conditions a transceiver can report.
#[derive(Debug, Clone, Copy, PartialEq, Eq, Structural)]
pub enum BusStatus {
    /// An unspecified bus condition
    Unknown,
    /// Bus error: an error counter reached the 'light' limit
    BusLight,
    /// Bus error: an error counter reached the 'heavy' limit
    BusHeavy,
    /// Bus error: an error counter reached the 'warning' limit
    BusWarning,
    /// Bus error: the CAN controller is error passive
    BusPassive,
    /// Bus error: the CAN controller is in bus-off state
    BusOff,
}

/// The bus-health condition named by a code, `Unknown` for any other code.
pub open spec fn bus_status_classify(code: u32) -> BusStatus {
    if code == PCAN_ERROR_BUSLIGHT {
        BusStatus::BusLight
    } else if code == PCAN_ERROR_BUSHEAVY {
        BusStatus::BusHeavy
    } else if code == PCAN_ERROR_BUSWARNING {
        BusStatus::BusWarning
    } else if code == PCAN_ERROR_BUSPASSIVE {
        BusStatus::BusPassive
    } else if code == PCAN_ERROR_BUSOFF {
        BusStatus::BusOff
    } else {
        BusStatus::Unknown
    }
}

/// The raw code of a bus-health condition; 0 for `Unknown`.
pub open spec fn bus_status_value(s: BusStatus) -> u32 {
    match s {
        BusStatus::Unknown => 0,
        BusStatus::BusLight => PCAN_ERROR_BUSLIGHT,
        BusStatus::BusHeavy => PCAN_ERROR_BUSHEAVY,
        BusStatus::BusWarning => PCAN_ERROR_BUSWARNING,
        BusStatus::BusPassive => PCAN_ERROR_BUSPASSIVE,
        BusStatus::BusOff => PCAN_ERROR_BUSOFF,
    }
}

impl BusStatus {
    /// Classify a raw code within the bus-health sub-taxonomy.
    pub fn classify(code: u32) -> (r: BusStatus)
        ensures
            r == bus_status_classify(code),
    {
        if code == PCAN_ERROR_BUSLIGHT {
            BusStatus::BusLight
        } else if code == PCAN_ERROR_BUSHEAVY {
            BusStatus::BusHeavy
        } else if code == PCAN_ERROR_BUSWARNING {
            BusStatus::BusWarning
        } else if code == PCAN_ERROR_BUSPASSIVE {
            BusStatus::BusPassive
        } else if code == PCAN_ERROR_BUSOFF {
            BusStatus::BusOff
        } else {
            BusStatus::Unknown
        }
    }

    /// The raw code of this condition.
    pub fn to_raw(&self) -> (r: u32)
        ensures
            r == bus_status_value(*self),
    {
        match *self {
            BusStatus::Unknown => 0,
            BusStatus::BusLight => PCAN_ERROR_BUSLIGHT,
            BusStatus::BusHeavy => PCAN_ERROR_BUSHEAVY,
            BusStatus::BusWarning => PCAN_ERROR_BUSWARNING,
            BusStatus::BusPassive => PCAN_ERROR_BUSPASSIVE,
            BusStatus::BusOff => PCAN_ERROR_BUSOFF,
        }
    }
}

/// Conditions of the driver-level receive and transmit queues.
#[derive(Debug, Clone, Copy, PartialEq, Eq, Structural)]
pub enum QueueStatus {
    /// An unspecified queue condition
    Unknown,
    /// The receive queue is empty
    RecieveEmpty,
    /// The receive queue was read too late
    Overrun,
    /// The transmit queue is full
    TransmitFull,
}

/// The queue condition named by a code, `Unknown` for any other code.
pub open spec fn queue_status_classify(code: u32) -> QueueStatus {
    if code == PCAN_ERROR_QRCVEMPTY {
        QueueStatus::RecieveEmpty
    } else if code == PCAN_ERROR_QOVERRUN {
        QueueStatus::Overrun
    } else if code == PCAN_ERROR_QXMTFULL {
        QueueStatus::TransmitFull
    } else {
        QueueStatus::Unknown
    }
}

/// The raw code of a queue condition; 0 for `Unknown`.
pub open spec fn queue_status_value(s: QueueStatus) -> u32 {
    match s {
        QueueStatus::Unknown => 0,
        QueueStatus::RecieveEmpty => PCAN_ERROR_QRCVEMPTY,
        QueueStatus::Overrun => PCAN_ERROR_QOVERRUN,
        QueueStatus::TransmitFull => PCAN_ERROR_QXMTFULL,
    }
}

impl QueueStatus {
    /// Classify a raw code within the queue sub-taxonomy.
    pub fn classify(code: u32) -> (r: QueueStatus)
        ensures
            r == queue_status_classify(code),
    {
        if code == PCAN_ERROR_QRCVEMPTY {
            QueueStatus::RecieveEmpty
        } else if code == PCAN_ERROR_QOVERRUN {
            QueueStatus::Overrun
        } else if code == PCAN_ERROR_QXMTFULL {
            QueueStatus::TransmitFull
        } else {
            QueueStatus::Unknown
        }
    }

    /// The raw code of this condition.
    pub fn to_raw(&self) -> (r: u32)
        ensures
            r == queue_status_value(*self),
    {
        match *self {
            QueueStatus::Unknown => 0,
            QueueStatus::RecieveEmpty => PCAN_ERROR_QRCVEMPTY,
            QueueStatus::Overrun => PCAN_ERROR_QOVERRUN,
            QueueStatus::TransmitFull => PCAN_ERROR_QXMTFULL,
        }
    }
}

/// Validity conditions of the handles a driver call can reject.
#[derive(Debug, Clone, Copy, PartialEq, Eq, Structural)]
pub enum HandleStatus {
    /// An unspecified handle condition
    Unknown,
    /// The hardware handle is invalid
    InvalidHwHandle,
    /// The net handle is invalid
    InvalidNetworkHandle,
    /// The client handle is invalid
    InvalidClientHandle,
}

/// The handle condition named by a code, `Unknown` for any other code.
pub open spec fn handle_status_classify(code: u32) -> HandleStatus {
    if code == PCAN_ERROR_ILLHW {
        HandleStatus::InvalidHwHandle
    } else if code == PCAN_ERROR_ILLNET {
        HandleStatus::InvalidNetworkHandle
    } else if code == PCAN_ERROR_ILLCLIENT {
        HandleStatus::InvalidClientHandle
    } else {
        HandleStatus::Unknown
    }
}

/// The raw code of a handle condition; 0 for `Unknown`.
pub open spec fn handle_status_value(s: HandleStatus) -> u32 {
    match s {
        HandleStatus::Unknown => 0,
        HandleStatus::InvalidHwHandle => PCAN_ERROR_ILLHW,
        HandleStatus::InvalidNetworkHandle => PCAN_ERROR_ILLNET,
        HandleStatus::InvalidClientHandle => PCAN_ERROR_ILLCLIENT,
    }
}

impl HandleStatus {
    /// Classify a raw code within the handle sub-taxonomy.
    pub fn classify(code: u32) -> (r: HandleStatus)
        ensures
            r == handle_status_classify(code),
    {
        if code == PCAN_ERROR_ILLHW {
            HandleStatus::InvalidHwHandle
        } else if code == PCAN_ERROR_ILLNET {
            HandleStatus::InvalidNetworkHandle
        } else if code == PCAN_ERROR_ILLCLIENT {
            HandleStatus::InvalidClientHandle
        } else {
            HandleStatus::Unknown
        }
    }

    /// The raw code of this condition.
    pub fn to_raw(&self) -> (r: u32)
        ensures
            r == handle_status_value(*self),
    {
        match *self {
            HandleStatus::Unknown => 0,
            HandleStatus::InvalidHwHandle => PCAN_ERROR_ILLHW,
            HandleStatus::InvalidNetworkHandle => PCAN_ERROR_ILLNET,
            HandleStatus::InvalidClientHandle => PCAN_ERROR_ILLCLIENT,
        }
    }
}

/// Everything a driver call can report, as a structured status.
#[derive(Debug, Clone, Copy, PartialEq, Eq, Structural)]
pub enum PCANStatus {
    /// No error
    Okay,
    /// The transmit buffer in the CAN controller is full
    XmtFull,
    /// The CAN controller was read too late
    Overrun,
    /// A bus-health condition
    Bus(BusStatus),
    /// A queue condition
    Queue(QueueStatus),
    /// The test of the controller hardware registers failed (no hardware found)
    RegTest,
    /// The driver is not loaded
    NoDriver,
    /// The hardware is already in use by a net
    HardwareInUse,
    /// A client is already connected to the net
    NetworkInUse,
    /// A handle validity condition
    Handle(HandleStatus),
    /// The resource (FIFO, client, timeout) cannot be created
    ResourceCannotBeCreated,
    /// The parameter type is invalid
    InvalidParameter,
    /// The parameter value is invalid
    InvalidParameterValue,
    /// A condition this taxonomy does not know
    Unknown,
    /// The data is invalid
    InvalidData,
    /// An operation succeeded only with irregularities
    Caution,
    /// The channel is not initialized
    NotInitialized,
    /// The operation is not allowed in the current channel state
    InvalidOperation,
}

/// The status named by a code: exact match against the known code table,
/// `Unknown` for any other code. Codes within the bus, queue and handle
/// blocks keep their category and carry the matching sub-kind.
pub open spec fn status_classify(code: u32) -> PCANStatus {
    if code == PCAN_ERROR_OK {
        PCANStatus::Okay
    } else if code == PCAN_ERROR_XMTFULL {
        PCANStatus::XmtFull
    } else if code == PCAN_ERROR_OVERRUN {
        PCANStatus::Overrun
    } else if code == PCAN_ERROR_BUSLIGHT || code == PCAN_ERROR_BUSHEAVY
        || code == PCAN_ERROR_BUSWARNING || code == PCAN_ERROR_BUSPASSIVE
        || code == PCAN_ERROR_BUSOFF {
        PCANStatus::Bus(bus_status_classify(code))
    } else if code == PCAN_ERROR_QRCVEMPTY || code == PCAN_ERROR_QOVERRUN
        || code == PCAN_ERROR_QXMTFULL {
        PCANStatus::Queue(queue_status_classify(code))
    } else if code == PCAN_ERROR_REGTEST {
        PCANStatus::RegTest
    } else if code == PCAN_ERROR_NODRIVER {
        PCANStatus::NoDriver
    } else if code == PCAN_ERROR_HWINUSE {
        PCANStatus::HardwareInUse
    } else if code == PCAN_ERROR_NETINUSE {
        PCANStatus::NetworkInUse
    } else if code == PCAN_ERROR_ILLHW || code == PCAN_ERROR_ILLNET
        || code == PCAN_ERROR_ILLCLIENT {
        PCANStatus::Handle(handle_status_classify(code))
    } else if code == PCAN_ERROR_RESOURCE {
        PCANStatus::ResourceCannotBeCreated
    } else if code == PCAN_ERROR_ILLPARAMTYPE {
        PCANStatus::InvalidParameter
    } else if code == PCAN_ERROR_ILLPARAMVAL {
        PCANStatus::InvalidParameterValue
    } else if code == PCAN_ERROR_ILLDATA {
        PCANStatus::InvalidData
    } else if code == PCAN_ERROR_CAUTION {
        PCANStatus::Caution
    } else if code == PCAN_ERROR_INITIALIZE {
        PCANStatus::NotInitialized
    } else if code == PCAN_ERROR_ILLOPERATION {
        PCANStatus::InvalidOperation
    } else {
        PCANStatus::Unknown
    }
}

/// The raw code of a status. Total: `Unknown` maps to its own sentinel,
/// never to 0, and the sub-taxonomies map their `Unknown` to 0.
pub open spec fn status_value(s: PCANStatus) -> u32 {
    match s {
        PCANStatus::Okay => PCAN_ERROR_OK,
        PCANStatus::XmtFull => PCAN_ERROR_XMTFULL,
        PCANStatus::Overrun => PCAN_ERROR_OVERRUN,
        PCANStatus::Bus(x) => bus_status_value(x),
        PCANStatus::Queue(x) => queue_status_value(x),
        PCANStatus::RegTest => PCAN_ERROR_REGTEST,
        PCANStatus::NoDriver => PCAN_ERROR_NODRIVER,
        PCANStatus::HardwareInUse => PCAN_ERROR_HWINUSE,
        PCANStatus::NetworkInUse => PCAN_ERROR_NETINUSE,
        PCANStatus::Handle(x) => handle_status_value(x),
        PCANStatus::ResourceCannotBeCreated => PCAN_ERROR_RESOURCE,
        PCANStatus::InvalidParameter => PCAN_ERROR_ILLPARAMTYPE,
        PCANStatus::InvalidParameterValue => PCAN_ERROR_ILLPARAMVAL,
        PCANStatus::Unknown => PCAN_ERROR_UNKNOWN,
        PCANStatus::InvalidData => PCAN_ERROR_ILLDATA,
        PCANStatus::Caution => PCAN_ERROR_CAUTION,
        PCANStatus::NotInitialized => PCAN_ERROR_INITIALIZE,
        PCANStatus::InvalidOperation => PCAN_ERROR_ILLOPERATION,
    }
}

impl PCANStatus {
    /// Classify a raw driver return code. Total: never fails, and an
    /// unrecognized code becomes `Unknown` rather than an error.
    pub fn classify(code: u32) -> (r: PCANStatus)
        ensures
            r == status_classify(code),
    {
        if code == PCAN_ERROR_OK {
            PCANStatus::Okay
        } else if code == PCAN_ERROR_XMTFULL {
            PCANStatus::XmtFull
        } else if code == PCAN_ERROR_OVERRUN {
            PCANStatus::Overrun
        } else if code == PCAN_ERROR_BUSLIGHT || code == PCAN_ERROR_BUSHEAVY
            || code == PCAN_ERROR_BUSWARNING || code == PCAN_ERROR_BUSPASSIVE
            || code == PCAN_ERROR_BUSOFF {
            PCANStatus::Bus(BusStatus::classify(code))
        } else if code == PCAN_ERROR_QRCVEMPTY || code == PCAN_ERROR_QOVERRUN
            || code == PCAN_ERROR_QXMTFULL {
            PCANStatus::Queue(QueueStatus::classify(code))
        } else if code == PCAN_ERROR_REGTEST {
            PCANStatus::RegTest
        } else if code == PCAN_ERROR_NODRIVER {
            PCANStatus::NoDriver
        } else if code == PCAN_ERROR_HWINUSE {
            PCANStatus::HardwareInUse
        } else if code == PCAN_ERROR_NETINUSE {
            PCANStatus::NetworkInUse
        } else if code == PCAN_ERROR_ILLHW || code == PCAN_ERROR_ILLNET
            || code == PCAN_ERROR_ILLCLIENT {
            PCANStatus::Handle(HandleStatus::classify(code))
        } else if code == PCAN_ERROR_RESOURCE {
            PCANStatus::ResourceCannotBeCreated
        } else if code == PCAN_ERROR_ILLPARAMTYPE {
            PCANStatus::InvalidParameter
        } else if code == PCAN_ERROR_ILLPARAMVAL {
            PCANStatus::InvalidParameterValue
        } else if code == PCAN_ERROR_ILLDATA {
            PCANStatus::InvalidData
        } else if code == PCAN_ERROR_CAUTION {
            PCANStatus::Caution
        } else if code == PCAN_ERROR_INITIALIZE {
            PCANStatus::NotInitialized
        } else if code == PCAN_ERROR_ILLOPERATION {
            PCANStatus::InvalidOperation
        } else {
            PCANStatus::Unknown
        }
    }

    /// The raw code of this status.
    pub fn to_raw(&self) -> (r: u32)
        ensures
            r == status_value(*self),
    {
        match *self {
            PCANStatus::Okay => PCAN_ERROR_OK,
            PCANStatus::XmtFull => PCAN_ERROR_XMTFULL,
            PCANStatus::Overrun => PCAN_ERROR_OVERRUN,
            PCANStatus::Bus(x) => x.to_raw(),
            PCANStatus::Queue(x) => x.to_raw(),
            PCANStatus::RegTest => PCAN_ERROR_REGTEST,
            PCANStatus::NoDriver => PCAN_ERROR_NODRIVER,
            PCANStatus::HardwareInUse => PCAN_ERROR_HWINUSE,
            PCANStatus::NetworkInUse => PCAN_ERROR_NETINUSE,
            PCANStatus::Handle(x) => x.to_raw(),
            PCANStatus::ResourceCannotBeCreated => PCAN_ERROR_RESOURCE,
            PCANStatus::InvalidParameter => PCAN_ERROR_ILLPARAMTYPE,
            PCANStatus::InvalidParameterValue => PCAN_ERROR_ILLPARAMVAL,
            PCANStatus::Unknown => PCAN_ERROR_UNKNOWN,
            PCANStatus::InvalidData => PCAN_ERROR_ILLDATA,
            PCANStatus::Caution => PCAN_ERROR_CAUTION,
            PCANStatus::NotInitialized => PCAN_ERROR_INITIALIZE,
            PCANStatus::InvalidOperation => PCAN_ERROR_ILLOPERATION,
        }
    }
}

/// Classifying the raw code of a status yields that status back, for every
/// status other than the sub-taxonomies' `Unknown` values, whose raw code 0
/// is the success code. The top-level `Unknown` needs no exception: its
/// sentinel is a known code of its own, distinct from success.
pub proof fn lemma_status_round_trip(s: PCANStatus)
    requires
        s != PCANStatus::Bus(BusStatus::Unknown),
        s != PCANStatus::Queue(QueueStatus::Unknown),
        s != PCANStatus::Handle(HandleStatus::Unknown),
    ensures
        status_classify(status_value(s)) == s,
        status_value(PCANStatus::Unknown) != PCAN_ERROR_OK,
{
}

/// What a library call can fail with: a classified driver status, or a
/// frame that could not be built.
#[derive(Debug, Clone, Copy, PartialEq, Eq, Structural)]
pub enum Error {
    /// The driver reported the carried status
    PCAN(PCANStatus),
    /// A CAN frame could not be made
    CANFrame,
}

/// Turn a raw driver return code into a result: 0 is success, any other
/// code a typed failure carrying the classified status. Every driver
/// invocation flows through here, so no raw code reaches a caller
/// unclassified.
pub fn pcan_fn_to_result(return_code: u32) -> (r: Result<(), Error>)
    ensures
        r is Ok <==> return_code == PCAN_ERROR_OK,
        r matches Err(e) ==> e == Error::PCAN(status_classify(return_code)),
{
    match PCANStatus::classify(return_code) {
        PCANStatus::Okay => Ok(()),
        x => Err(Error::PCAN(x)),
    }
}

} // verus!
