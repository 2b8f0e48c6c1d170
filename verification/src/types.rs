//! Channel handles, the bit-rate table, and the other named driver values.
//!
//! Every enum here is a closed set of names for a fixed numeric code the
//! native driver understands. The mappings are total lookup tables with no
//! state and no failure path, except for [`Handle::to_value`], which rejects
//! channel indices outside the hardware-defined range of each bus family.

use vstd::prelude::*;

verus! {

/// Nominal bit rates the controller can be configured with.
///
/// Each rate corresponds to exactly one BTR0/BTR1 register code; the mapping
/// is total and collision-free (see [`lemma_baud_rate_values_distinct`]).
#[derive(Debug, Clone, Copy, PartialEq, Eq, Structural)]
pub enum BaudRate {
    /// 1 MBit/s
    Baud1M,
    /// 800 kBit/s
    Baud800K,
    /// 500 kBit/s
    Baud500K,
    /// 250 kBit/s
    Baud250K,
    /// 125 kBit/s
    Baud125K,
    /// 100 kBit/s
    Baud100K,
    /// 95.238 kBit/s
    Baud95K,
    /// 83.333 kBit/s
    Baud83K,
    /// 50 kBit/s
    Baud50K,
    /// 47.619 kBit/s
    Baud47K,
    /// 33.333 kBit/s
    Baud33K,
    /// 20 kBit/s
    Baud20K,
    /// 10 kBit/s
    Baud10K,
    /// 5 kBit/s
    Baud5K,
}

/// The BTR0/BTR1 register code for each named rate.
pub open spec fn baud_rate_value(rate: BaudRate) -> u16 {
    match rate {
        BaudRate::Baud1M => 0x0014,
        BaudRate::Baud800K => 0x0016,
        BaudRate::Baud500K => 0x001C,
        BaudRate::Baud250K => 0x011C,
        BaudRate::Baud125K => 0x031C,
        BaudRate::Baud100K => 0x432F,
        BaudRate::Baud95K => 0xC34E,
        BaudRate::Baud83K => 0x852B,
        BaudRate::Baud50K => 0x472F,
        BaudRate::Baud47K => 0x1414,
        BaudRate::Baud33K => 0x8B2F,
        BaudRate::Baud20K => 0x532F,
        BaudRate::Baud10K => 0x672F,
        BaudRate::Baud5K => 0x7F7F,
    }
}

impl BaudRate {
    /// The BTR0/BTR1 register value the controller understands for this rate.
    pub fn to_value(&self) -> (r: u16)
        ensures
            r == baud_rate_value(*self),
    {
        match *self {
            BaudRate::Baud1M => 0x0014,
            BaudRate::Baud800K => 0x0016,
            BaudRate::Baud500K => 0x001C,
            BaudRate::Baud250K => 0x011C,
            BaudRate::Baud125K => 0x031C,
            BaudRate::Baud100K => 0x432F,
            BaudRate::Baud95K => 0xC34E,
            BaudRate::Baud83K => 0x852B,
            BaudRate::Baud50K => 0x472F,
            BaudRate::Baud47K => 0x1414,
            BaudRate::Baud33K => 0x8B2F,
            BaudRate::Baud20K => 0x532F,
            BaudRate::Baud10K => 0x672F,
            BaudRate::Baud5K => 0x7F7F,
        }
    }
}

/// No two named bit rates share a register code: the table is injective,
/// and it is exhaustive by construction since [`baud_rate_value`] is total.
pub proof fn lemma_baud_rate_values_distinct(a: BaudRate, b: BaudRate)
    ensures
        a != b ==> baud_rate_value(a) != baud_rate_value(b),
{
}

/// The channel a session connects to: a bus family plus a 1-based channel
/// index. Index ranges are fixed by the hardware family; an out-of-range
/// index is representable but resolves to no address.
#[derive(Debug, Clone, Copy, PartialEq, Eq, Structural)]
pub enum Handle {
    /// The undefined and default value of the handle
    Undefined,
    /// ISA bus interface (channels 1 to 8)
    Isa(u32),
    /// Dongle bus interface (channel 1)
    Dng(u32),
    /// PCI card interface (channels 1 to 16)
    Pci(u32),
    /// USB interface (channels 1 to 16)
    Usb(u32),
    /// PC Card interface (channels 1 and 2)
    Pcc(u32),
    /// LAN interface (channels 1 to 16)
    Lan(u32),
}

/// Whether the channel index of a handle lies within the documented range
/// of its bus family. `Undefined` carries no index and always resolves.
pub open spec fn handle_index_valid(h: Handle) -> bool {
    match h {
        Handle::Undefined => true,
        Handle::Isa(id) => 1 <= id <= 8,
        Handle::Dng(id) => id == 1,
        Handle::Pci(id) => 1 <= id <= 16,
        Handle::Usb(id) => 1 <= id <= 16,
        Handle::Pcc(id) => 1 <= id <= 2,
        Handle::Lan(id) => 1 <= id <= 16,
    }
}

/// The hardware address of a handle: a fixed per-family base plus the
/// channel index, or `None` when the index is out of range. `Undefined`
/// resolves to the sentinel address 0, meaning "no channel".
pub open spec fn handle_value(h: Handle) -> Option<u16> {
    match h {
        Handle::Undefined => Some(0u16),
        Handle::Isa(id) => if 1 <= id <= 8 {
            Some((0x20 + id) as u16)
        } else {
            None
        },
        Handle::Dng(id) => if id == 1 {
            Some(0x31u16)
        } else {
            None
        },
        Handle::Pci(id) => if 1 <= id <= 8 {
            Some((0x40 + id) as u16)
        } else if 9 <= id <= 16 {
            Some((0x400 + id) as u16)
        } else {
            None
        },
        Handle::Usb(id) => if 1 <= id <= 8 {
            Some((0x50 + id) as u16)
        } else if 9 <= id <= 16 {
            Some((0x500 + id) as u16)
        } else {
            None
        },
        Handle::Pcc(id) => if 1 <= id <= 2 {
            Some((0x60 + id) as u16)
        } else {
            None
        },
        Handle::Lan(id) => if 1 <= id <= 16 {
            Some((0x800 + id) as u16)
        } else {
            None
        },
    }
}

impl Handle {
    /// The numeric address of this channel, or `None` when the channel
    /// index is outside the valid range of the bus family.
    pub fn to_value(&self) -> (r: Option<u16>)
        ensures
            r == handle_value(*self),
            r is Some <==> handle_index_valid(*self),
    {
        match *self {
            Handle::Undefined => Some(0u16),
            Handle::Isa(id) => if 1 <= id && id <= 8 {
                Some((0x20 + id) as u16)
            } else {
                None
            },
            Handle::Dng(id) => if id == 1 {
                Some(0x31u16)
            } else {
                None
            },
            Handle::Pci(id) => if 1 <= id && id <= 8 {
                Some((0x40 + id) as u16)
            } else if 9 <= id && id <= 16 {
                Some((0x400 + id) as u16)
            } else {
                None
            },
            Handle::Usb(id) => if 1 <= id && id <= 8 {
                Some((0x50 + id) as u16)
            } else if 9 <= id && id <= 16 {
                Some((0x500 + id) as u16)
            } else {
                None
            },
            Handle::Pcc(id) => if 1 <= id && id <= 2 {
                Some((0x60 + id) as u16)
            } else {
                None
            },
            Handle::Lan(id) => if 1 <= id && id <= 16 {
                Some((0x800 + id) as u16)
            } else {
                None
            },
        }
    }
}

/// The bus families with basic driver support.
#[derive(Debug, Clone, Copy, PartialEq, Eq, Structural)]
pub enum Device {
    Undefined,
    Isa,
    Dng,
    Pci,
    Usb,
    Pcc,
    Lan,
}

/// The device code of a bus family; `Undefined` maps to the "none" code 0.
pub open spec fn device_value(d: Device) -> u32 {
    match d {
        Device::Undefined => 0x00,
        Device::Isa => 0x01,
        Device::Dng => 0x02,
        Device::Pci => 0x05,
        Device::Usb => 0x06,
        Device::Pcc => 0x07,
        Device::Lan => 0x08,
    }
}

impl Device {
    /// The numeric device code the driver understands for this family.
    pub fn to_value(&self) -> (r: u32)
        ensures
            r == device_value(*self),
    {
        match *self {
            Device::Undefined => 0x00,
            Device::Isa => 0x01,
            Device::Dng => 0x02,
            Device::Pci => 0x05,
            Device::Usb => 0x06,
            Device::Pcc => 0x07,
            Device::Lan => 0x08,
        }
    }
}

/// Parameters for IOCTL-like control of driver settings.
#[derive(Debug, Clone, Copy, PartialEq, Eq, Structural)]
pub enum Parameter {
    /// USB device number parameter
    DeviceNumber,
    /// PC Card 5-Volt power parameter
    Power5Volts,
    /// Receive event handler parameter
    ReceiveEvent,
    /// Message filter parameter
    MessageFilter,
    /// API version parameter
    ApiVersion,
    /// Device channel version parameter
    ChannelVersion,
    /// Reset-on-bus-off parameter
    BusOffAutoReset,
    /// Listen-only parameter
    ListenOnly,
    /// Directory path for log files
    LogLocation,
    /// Debug-log activation status
    LogStatus,
    /// Configuration of the debugged information
    LogConfigure,
    /// Custom insertion of text into the log file
    LogText,
    /// Availability status of a channel
    ChannelCondition,
    /// Hardware name parameter
    HardwareName,
    /// Message reception status of a channel
    ReceiveStatus,
    /// CAN-controller number of a channel
    ControllerNumber,
    /// Directory path for trace files
    TraceLocation,
    /// CAN tracing activation status
    TraceStatus,
    /// Configuration of the maximum file size of a CAN trace
    TraceSize,
    /// Configuration of the trace file storing mode
    TraceConfigure,
    /// Physical identification of a USB channel by blinking its LED
    ChannelIdentifying,
    /// Capabilities of a device
    ChannelFeatures,
    /// Using of an existing bit rate
    BitRateAdapting,
    /// Configured bit rate as BTR0/BTR1 value
    BitRateInfo,
    /// Configured bit rate as a flexible-data bit-rate string
    BitRateInfoFd,
    /// Configured nominal bus speed as bits per second
    BusSpeedNominal,
    /// Configured data speed as bits per second
    BusSpeedData,
    /// Remote address of a LAN channel as a string in IPv4 format
    IpAddress,
    /// Status of the virtual gateway service
    LanServiceStatus,
}

/// The numeric code of a driver parameter.
pub open spec fn parameter_value(p: Parameter) -> u32 {
    match p {
        Parameter::DeviceNumber => 0x01,
        Parameter::Power5Volts => 0x02,
        Parameter::ReceiveEvent => 0x03,
        Parameter::MessageFilter => 0x04,
        Parameter::ApiVersion => 0x05,
        Parameter::ChannelVersion => 0x06,
        Parameter::BusOffAutoReset => 0x07,
        Parameter::ListenOnly => 0x08,
        Parameter::LogLocation => 0x09,
        Parameter::LogStatus => 0x0A,
        Parameter::LogConfigure => 0x0B,
        Parameter::LogText => 0x0C,
        Parameter::ChannelCondition => 0x0D,
        Parameter::HardwareName => 0x0E,
        Parameter::ReceiveStatus => 0x0F,
        Parameter::ControllerNumber => 0x10,
        Parameter::TraceLocation => 0x11,
        Parameter::TraceStatus => 0x12,
        Parameter::TraceSize => 0x13,
        Parameter::TraceConfigure => 0x14,
        Parameter::ChannelIdentifying => 0x15,
        Parameter::ChannelFeatures => 0x16,
        Parameter::BitRateAdapting => 0x17,
        Parameter::BitRateInfo => 0x18,
        Parameter::BitRateInfoFd => 0x19,
        Parameter::BusSpeedNominal => 0x1A,
        Parameter::BusSpeedData => 0x1B,
        Parameter::IpAddress => 0x1C,
        Parameter::LanServiceStatus => 0x1D,
    }
}

impl Parameter {
    /// The numeric code the driver understands for this parameter.
    pub fn to_value(&self) -> (r: u32)
        ensures
            r == parameter_value(*self),
    {
        match *self {
            Parameter::DeviceNumber => 0x01,
            Parameter::Power5Volts => 0x02,
            Parameter::ReceiveEvent => 0x03,
            Parameter::MessageFilter => 0x04,
            Parameter::ApiVersion => 0x05,
            Parameter::ChannelVersion => 0x06,
            Parameter::BusOffAutoReset => 0x07,
            Parameter::ListenOnly => 0x08,
            Parameter::LogLocation => 0x09,
            Parameter::LogStatus => 0x0A,
            Parameter::LogConfigure => 0x0B,
            Parameter::LogText => 0x0C,
            Parameter::ChannelCondition => 0x0D,
            Parameter::HardwareName => 0x0E,
            Parameter::ReceiveStatus => 0x0F,
            Parameter::ControllerNumber => 0x10,
            Parameter::TraceLocation => 0x11,
            Parameter::TraceStatus => 0x12,
            Parameter::TraceSize => 0x13,
            Parameter::TraceConfigure => 0x14,
            Parameter::ChannelIdentifying => 0x15,
            Parameter::ChannelFeatures => 0x16,
            Parameter::BitRateAdapting => 0x17,
            Parameter::BitRateInfo => 0x18,
            Parameter::BitRateInfoFd => 0x19,
            Parameter::BusSpeedNominal => 0x1A,
            Parameter::BusSpeedData => 0x1B,
            Parameter::IpAddress => 0x1C,
            Parameter::LanServiceStatus => 0x1D,
        }
    }
}

/// Activation and filter states a plain driver parameter can take.
#[derive(Debug, Clone, Copy, PartialEq, Eq, Structural)]
pub enum PCANParameterValue {
    /// The parameter is not set (inactive)
    Off,
    /// The parameter is set (active)
    On,
    /// The filter is closed; no messages will be received
    FilterClose,
    /// The filter is fully opened; all messages will be received
    FilterOpen,
    /// The filter is custom configured; only registered messages will be received
    FilterCustom,
    /// The channel handle is illegal, or its hardware is not available
    ChannelUnavailable,
    /// The channel handle is available to be connected
    ChannelAvailable,
    /// The channel handle is valid and already being used
    ChannelOccupied,
}

/// The numeric code of a plain parameter value. Codes repeat across the
/// off/on, filter and channel groups, as the driver reuses them per
/// parameter.
pub open spec fn pcan_parameter_value(v: PCANParameterValue) -> u32 {
    match v {
        PCANParameterValue::Off => 0x00,
        PCANParameterValue::On => 0x01,
        PCANParameterValue::FilterClose => 0x00,
        PCANParameterValue::FilterOpen => 0x01,
        PCANParameterValue::FilterCustom => 0x02,
        PCANParameterValue::ChannelUnavailable => 0x00,
        PCANParameterValue::ChannelAvailable => 0x01,
        PCANParameterValue::ChannelOccupied => 0x02,
    }
}

impl PCANParameterValue {
    /// The numeric code the driver understands for this value.
    pub fn to_value(&self) -> (r: u32)
        ensures
            r == pcan_parameter_value(*self),
    {
        match *self {
            PCANParameterValue::Off => 0x00,
            PCANParameterValue::On => 0x01,
            PCANParameterValue::FilterClose => 0x00,
            PCANParameterValue::FilterOpen => 0x01,
            PCANParameterValue::FilterCustom => 0x02,
            PCANParameterValue::ChannelUnavailable => 0x00,
            PCANParameterValue::ChannelAvailable => 0x01,
            PCANParameterValue::ChannelOccupied => 0x02,
        }
    }
}

/// What the driver's debug log records.
#[derive(Debug, Clone, Copy, PartialEq, Eq, Structural)]
pub enum LogParameterValue {
    /// Logs system exceptions and errors
    Default,
    /// Logs the entries to the API functions
    Entry,
    /// Logs the parameters passed to the API functions
    Parameters,
    /// Logs the exits from the API functions
    Leave,
    /// Logs the CAN messages passed to the write call
    Write,
    /// Logs the CAN messages received within the read call
    Read,
}

/// The numeric code of a log configuration value; one bit per recorded kind.
pub open spec fn log_parameter_value(v: LogParameterValue) -> u32 {
    match v {
        LogParameterValue::Default => 0x00,
        LogParameterValue::Entry => 0x01,
        LogParameterValue::Parameters => 0x02,
        LogParameterValue::Leave => 0x04,
        LogParameterValue::Write => 0x08,
        LogParameterValue::Read => 0x10,
    }
}

impl LogParameterValue {
    /// The numeric code the driver understands for this value.
    pub fn to_value(&self) -> (r: u32)
        ensures
            r == log_parameter_value(*self),
    {
        match *self {
            LogParameterValue::Default => 0x00,
            LogParameterValue::Entry => 0x01,
            LogParameterValue::Parameters => 0x02,
            LogParameterValue::Leave => 0x04,
            LogParameterValue::Write => 0x08,
            LogParameterValue::Read => 0x10,
        }
    }
}

/// How the driver stores trace files.
#[derive(Debug, Clone, Copy, PartialEq, Eq, Structural)]
pub enum TraceParameterValue {
    /// A single file is written until it reaches the configured size
    Single,
    /// Traced data is distributed over several files of the configured size
    Segmented,
    /// Includes the date in the name of the trace file
    Date,
    /// Includes the start time in the name of the trace file
    Time,
    /// Causes the overwriting of available traces with the same name
    Overwrite,
}

/// The numeric code of a trace configuration value.
pub open spec fn trace_parameter_value(v: TraceParameterValue) -> u32 {
    match v {
        TraceParameterValue::Single => 0x00,
        TraceParameterValue::Segmented => 0x01,
        TraceParameterValue::Date => 0x02,
        TraceParameterValue::Time => 0x04,
        TraceParameterValue::Overwrite => 0x80,
    }
}

impl TraceParameterValue {
    /// The numeric code the driver understands for this value.
    pub fn to_value(&self) -> (r: u32)
        ensures
            r == trace_parameter_value(*self),
    {
        match *self {
            TraceParameterValue::Single => 0x00,
            TraceParameterValue::Segmented => 0x01,
            TraceParameterValue::Date => 0x02,
            TraceParameterValue::Time => 0x04,
            TraceParameterValue::Overwrite => 0x80,
        }
    }
}

/// States of the virtual gateway service.
#[derive(Debug, Clone, Copy, PartialEq, Eq, Structural)]
pub enum ServiceParameterValue {
    /// The service is not running
    Stopped,
    /// The service is running
    Running,
}

/// The numeric code of a service status value.
pub open spec fn service_parameter_value(v: ServiceParameterValue) -> u32 {
    match v {
        ServiceParameterValue::Stopped => 0x01,
        ServiceParameterValue::Running => 0x04,
    }
}

impl ServiceParameterValue {
    /// The numeric code the driver understands for this value.
    pub fn to_value(&self) -> (r: u32)
        ensures
            r == service_parameter_value(*self),
    {
        match *self {
            ServiceParameterValue::Stopped => 0x01,
            ServiceParameterValue::Running => 0x04,
        }
    }
}

/// A value assigned to a driver parameter, from whichever group the
/// parameter takes.
#[derive(Debug, Clone, Copy, PartialEq, Eq, Structural)]
pub enum ParameterValue {
    /// A plain activation, filter or channel state
    PCAN(PCANParameterValue),
    /// A log configuration value
    Log(LogParameterValue),
    /// A trace configuration value
    Trace(TraceParameterValue),
    /// The device supports flexible data-rate frames
    FdCapable,
    /// A service status value
    Service(ServiceParameterValue),
}

/// The numeric code of a parameter value: each group keeps its own code,
/// and the flexible-data capability flag is the feature code 0x01.
pub open spec fn parameter_value_code(v: ParameterValue) -> u32 {
    match v {
        ParameterValue::PCAN(x) => pcan_parameter_value(x),
        ParameterValue::Log(x) => log_parameter_value(x),
        ParameterValue::Trace(x) => trace_parameter_value(x),
        ParameterValue::FdCapable => 0x01,
        ParameterValue::Service(x) => service_parameter_value(x),
    }
}

impl ParameterValue {
    /// The numeric code the driver understands for this value.
    pub fn to_value(&self) -> (r: u32)
        ensures
            r == parameter_value_code(*self),
    {
        match *self {
            ParameterValue::PCAN(x) => x.to_value(),
            ParameterValue::Log(x) => x.to_value(),
            ParameterValue::Trace(x) => x.to_value(),
            ParameterValue::FdCapable => 0x01,
            ParameterValue::Service(x) => x.to_value(),
        }
    }
}

/// The kind of a CAN message: its type flags on the wire.
#[derive(Debug, Clone, Copy, PartialEq, Eq, Structural)]
pub enum MessageType {
    /// A standard frame with an 11-bit identifier
    Standard,
    /// A remote transmission request
    Rtr,
    /// An extended frame with a 29-bit identifier
    Extended,
    /// A flexible data-rate frame
    Fd,
    /// A frame with bit-rate switch
    Brs,
    /// A frame carrying an error state indicator
    Esi,
    /// A status frame
    Status,
}

/// The type-flag code of a message kind.
pub open spec fn message_type_value(t: MessageType) -> u32 {
    match t {
        MessageType::Standard => 0x00,
        MessageType::Rtr => 0x01,
        MessageType::Extended => 0x02,
        MessageType::Fd => 0x04,
        MessageType::Brs => 0x08,
        MessageType::Esi => 0x10,
        MessageType::Status => 0x80,
    }
}

/// The message kind named by a type-flag code, `None` for any other code.
pub open spec fn message_type_from_value(v: u32) -> Option<MessageType> {
    if v == 0x00 {
        Some(MessageType::Standard)
    } else if v == 0x01 {
        Some(MessageType::Rtr)
    } else if v == 0x02 {
        Some(MessageType::Extended)
    } else if v == 0x04 {
        Some(MessageType::Fd)
    } else if v == 0x08 {
        Some(MessageType::Brs)
    } else if v == 0x10 {
        Some(MessageType::Esi)
    } else if v == 0x80 {
        Some(MessageType::Status)
    } else {
        None
    }
}

impl MessageType {
    /// The type-flag code the driver understands for this kind.
    pub fn to_value(&self) -> (r: u32)
        ensures
            r == message_type_value(*self),
    {
        match *self {
            MessageType::Standard => 0x00,
            MessageType::Rtr => 0x01,
            MessageType::Extended => 0x02,
            MessageType::Fd => 0x04,
            MessageType::Brs => 0x08,
            MessageType::Esi => 0x10,
            MessageType::Status => 0x80,
        }
    }

    /// The message kind of a wire type-flag code, or `None` when the code
    /// names no single kind.
    pub fn from_value(v: u32) -> (r: Option<MessageType>)
        ensures
            r == message_type_from_value(v),
    {
        if v == 0x00 {
            Some(MessageType::Standard)
        } else if v == 0x01 {
            Some(MessageType::Rtr)
        } else if v == 0x02 {
            Some(MessageType::Extended)
        } else if v == 0x04 {
            Some(MessageType::Fd)
        } else if v == 0x08 {
            Some(MessageType::Brs)
        } else if v == 0x10 {
            Some(MessageType::Esi)
        } else if v == 0x80 {
            Some(MessageType::Status)
        } else {
            None
        }
    }
}

/// The identifier mode of a channel: standard or extended frames.
#[derive(Debug, Clone, Copy, PartialEq, Eq, Structural)]
pub enum Mode {
    Standard,
    Extended,
}

/// The numeric code of an identifier mode; it equals the type-flag code of
/// the matching message kind.
pub open spec fn mode_value(m: Mode) -> u32 {
    match m {
        Mode::Standard => 0x00,
        Mode::Extended => 0x02,
    }
}

impl Mode {
    /// The numeric code the driver understands for this mode.
    pub fn to_value(&self) -> (r: u32)
        ensures
            r == mode_value(*self),
    {
        match *self {
            Mode::Standard => 0x00,
            Mode::Extended => 0x02,
        }
    }
}

/// The hardware type of a non-plug-and-play interface.
#[derive(Debug, Clone, Copy, PartialEq, Eq, Structural)]
pub enum Type {
    Isa,
    IsaSja,
    IsaPhytec,
    Dng,
    DngEpp,
    DngSja,
    DngSjaEpp,
}

/// The numeric code of a hardware type.
pub open spec fn type_value(t: Type) -> u32 {
    match t {
        Type::Isa => 0x01,
        Type::IsaSja => 0x09,
        Type::IsaPhytec => 0x04,
        Type::Dng => 0x02,
        Type::DngEpp => 0x03,
        Type::DngSja => 0x05,
        Type::DngSjaEpp => 0x06,
    }
}

impl Type {
    /// The numeric code the driver understands for this hardware type.
    pub fn to_value(&self) -> (r: u32)
        ensures
            r == type_value(*self),
    {
        match *self {
            Type::Isa => 0x01,
            Type::IsaSja => 0x09,
            Type::IsaPhytec => 0x04,
            Type::Dng => 0x02,
            Type::DngEpp => 0x03,
            Type::DngSja => 0x05,
            Type::DngSjaEpp => 0x06,
        }
    }
}

} // verus!
