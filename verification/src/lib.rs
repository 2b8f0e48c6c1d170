//! Host-side abstraction over the PCAN family of CAN-bus interfaces.
//!
//! The crate models the channel address space, the fixed table of nominal
//! bit rates, the taxonomy of driver status codes, and the CAN frame codec.
//! The native driver itself is an external collaborator: an application
//! shell performs the actual transport calls (initialize, read, write,
//! uninitialize) and feeds every raw return value back through the
//! functions defined here, so that no raw numeric code crosses this
//! boundary unclassified.

use vstd::prelude::*;

pub mod errors;
pub mod types;

pub use errors::{
    BusStatus, Error, HandleStatus, PCANStatus, QueueStatus, pcan_fn_to_result, status_classify,
    PCAN_ERROR_OK,
};
pub use types::{
    BaudRate, Device, Handle, LogParameterValue, MessageType, Mode, Parameter, ParameterValue,
    PCANParameterValue, ServiceParameterValue, TraceParameterValue, Type, baud_rate_value,
    handle_index_valid, handle_value, message_type_from_value, message_type_value,
};

verus! {

/// A CAN message as it crosses the transport boundary: a 4-byte identifier,
/// one byte of type flags, one byte of payload length, and a fixed 8-byte
/// payload buffer, whatever the declared length.
#[derive(Debug, Clone, Copy)]
pub struct RawFrame {
    /// The message identifier
    pub id: u32,
    /// The type flags of the message
    pub msg_type: u8,
    /// The declared payload length
    pub len: u8,
    /// The payload buffer, fixed width regardless of the declared length
    pub data: [u8; 8],
}

/// When the transport received a frame: microseconds and milliseconds
/// since an epoch of the driver, with an overflow counter for the
/// millisecond field.
#[derive(Debug, Clone, Copy, PartialEq, Eq, Structural)]
pub struct Timestamp {
    /// Milliseconds
    pub millis: u32,
    /// How often the millisecond counter wrapped around
    pub millis_overflow: u16,
    /// Microseconds
    pub micros: u16,
}

/// One CAN bus message: an identifier, a message kind, and up to 8 payload
/// bytes in a fixed buffer of which only the first `len` are meaningful.
///
/// The payload length never exceeds 8: building a frame from a longer byte
/// sequence fails rather than truncating silently.
#[derive(Debug, Clone, Copy)]
pub struct CANFrame {
    id: u32,
    msg_type: MessageType,
    len: u8,
    data: [u8; 8],
}

impl CANFrame {
    /// The identifier of this frame.
    pub closed spec fn spec_id(self) -> u32 {
        self.id
    }

    /// The kind of this frame.
    pub closed spec fn spec_msg_type(self) -> MessageType {
        self.msg_type
    }

    /// The declared payload length of this frame.
    pub closed spec fn spec_len(self) -> u8 {
        self.len
    }

    /// The full 8-byte payload buffer of this frame.
    pub closed spec fn spec_data(self) -> Seq<u8> {
        self.data@
    }

    /// A frame is well formed when its declared payload length fits the
    /// fixed 8-byte buffer.
    pub open spec fn wf(self) -> bool {
        self.spec_len() <= 8
    }

    /// Build a frame from an identifier, payload bytes and the remote
    /// transmission request flag. Fails if and only if more than 8 payload
    /// bytes are given; otherwise the frame carries exactly the given
    /// bytes, zero-padded to the fixed buffer width, and is marked remote
    /// or standard according to the flag. Other kinds are set via
    /// [`CANFrame::set_msg_type`] after construction, never inferred.
    pub fn new(id: u32, data: &[u8], rtr: bool) -> (r: Result<CANFrame, Error>)
        ensures
            r is Ok <==> data@.len() <= 8,
            r matches Err(e) ==> e == Error::CANFrame,
            r matches Ok(f) ==> {
                &&& f.wf()
                &&& f.spec_id() == id
                &&& f.spec_msg_type() == (if rtr {
                    MessageType::Rtr
                } else {
                    MessageType::Standard
                })
                &&& f.spec_len() == data@.len()
                &&& f.spec_data().subrange(0, data@.len() as int) == data@
                &&& forall|j: int| data@.len() <= j < 8 ==> f.spec_data()[j] == 0
            },
    {
        if data.len() > 8 {
            return Err(Error::CANFrame);
        }

        let msg_type = if rtr {
            MessageType::Rtr
        } else {
            MessageType::Standard
        };

        let mut buf: [u8; 8] = [0; 8];
        let mut i: usize = 0;
        while i < data.len()
            invariant
                i <= data@.len() <= 8,
                forall|j: int| 0 <= j < i ==> buf@[j] == data@[j],
                forall|j: int| i <= j < 8 ==> buf@[j] == 0,
            decreases data@.len() - i,
        {
            buf[i] = data[i];
            i = i + 1;
        }

        let frame = CANFrame { id, msg_type, len: data.len() as u8, data: buf };
        proof {
            assert(frame.spec_data().subrange(0, data@.len() as int) =~= data@);
        }
        Ok(frame)
    }

    /// The identifier of the frame.
    pub fn id(&self) -> (r: u32)
        ensures
            r == self.spec_id(),
    {
        self.id
    }

    /// Set the identifier of the frame; everything else is unchanged.
    pub fn set_id(&mut self, id: &u32)
        ensures
            final(self).spec_id() == *id,
            final(self).spec_msg_type() == old(self).spec_msg_type(),
            final(self).spec_len() == old(self).spec_len(),
            final(self).spec_data() == old(self).spec_data(),
    {
        self.id = *id;
    }

    /// The kind of the frame.
    pub fn msg_type(&self) -> (r: MessageType)
        ensures
            r == self.spec_msg_type(),
    {
        self.msg_type
    }

    /// Set the kind of the frame; everything else is unchanged.
    pub fn set_msg_type(&mut self, msg_type: &MessageType)
        ensures
            final(self).spec_msg_type() == *msg_type,
            final(self).spec_id() == old(self).spec_id(),
            final(self).spec_len() == old(self).spec_len(),
            final(self).spec_data() == old(self).spec_data(),
    {
        self.msg_type = *msg_type;
    }

    /// The declared payload length: how many leading bytes of the buffer
    /// are meaningful.
    pub fn len(&self) -> (r: u8)
        ensures
            r == self.spec_len(),
    {
        self.len
    }

    /// A read-only view of the full 8-byte payload buffer.
    pub fn data(&self) -> (r: &[u8])
        ensures
            r@ == self.spec_data(),
    {
        self.data.as_slice()
    }

    /// A mutable view of the full 8-byte payload buffer, bounded to its
    /// fixed width. Writing past the declared length has no effect beyond
    /// the buffer itself: the length is not updated by mutation and must
    /// be set independently when the effective payload size changes.
    pub fn mut_data(&mut self) -> (r: &mut [u8])
        ensures
            r@ == old(self).spec_data(),
            final(self).spec_data() == final(r)@,
            final(self).spec_id() == old(self).spec_id(),
            final(self).spec_msg_type() == old(self).spec_msg_type(),
            final(self).spec_len() == old(self).spec_len(),
    {
        vstd::array::ref_mut_array_unsizing_coercion(&mut self.data)
    }

    /// Encode the frame for the transport: the kind becomes its type-flag
    /// byte, identifier, length and payload are carried as they are.
    pub fn to_raw(&self) -> (r: RawFrame)
        ensures
            r.id == self.spec_id(),
            r.msg_type == message_type_value(self.spec_msg_type()) as u8,
            r.len == self.spec_len(),
            r.data@ == self.spec_data(),
    {
        RawFrame {
            id: self.id,
            msg_type: self.msg_type.to_value() as u8,
            len: self.len,
            data: self.data,
        }
    }

    /// Decode a frame from the transport. Fails if and only if the
    /// declared length exceeds the 8-byte buffer or the type flags name no
    /// single message kind; otherwise identifier, length and the full
    /// buffer are carried over as they are.
    pub fn from_raw(raw: &RawFrame) -> (r: Result<CANFrame, Error>)
        ensures
            r is Ok <==> (raw.len <= 8 && message_type_from_value(raw.msg_type as u32) is Some),
            r matches Err(e) ==> e == Error::CANFrame,
            r matches Ok(f) ==> {
                &&& f.wf()
                &&& f.spec_id() == raw.id
                &&& Some(f.spec_msg_type()) == message_type_from_value(raw.msg_type as u32)
                &&& f.spec_len() == raw.len
                &&& f.spec_data() == raw.data@
            },
    {
        if raw.len > 8 {
            return Err(Error::CANFrame);
        }
        match MessageType::from_value(raw.msg_type as u32) {
            Some(msg_type) => Ok(
                CANFrame { id: raw.id, msg_type, len: raw.len, data: raw.data },
            ),
            None => Err(Error::CANFrame),
        }
    }
}

/// One session on one CAN channel. The session owns the resolved channel
/// handle for its lifetime; it interprets what the transport returned for
/// each call of the open, read, write, close sequence, and a classified
/// failure never changes what the session owns — the caller decides
/// whether to go on or to close. The application shell that performs the
/// transport calls is responsible for invoking the uninitialize call
/// exactly once on every exit path of the session's lifetime.
#[derive(Debug)]
pub struct PCANDevice {
    fd: Handle,
}

impl PCANDevice {
    /// The channel handle this session owns.
    pub closed spec fn spec_fd(self) -> Handle {
        self.fd
    }

    /// A session is well formed when its handle resolves to an address.
    pub open spec fn wf(self) -> bool {
        handle_index_valid(self.spec_fd())
    }

    /// Begin opening a session on a channel: resolve the handle and the
    /// bit rate to the address and register value the transport's
    /// initialize call takes. Fails if and only if the handle's channel
    /// index is out of range for its bus family, with the invalid-hardware
    /// condition of the status taxonomy. The raw return of the initialize
    /// call is then classified with [`pcan_fn_to_result`].
    pub fn open(handle: &Handle, baudrate: &BaudRate) -> (r: Result<
        (PCANDevice, u16, u16),
        Error,
    >)
        ensures
            r is Ok <==> handle_index_valid(*handle),
            r matches Ok(p) ==> {
                &&& p.0.wf()
                &&& p.0.spec_fd() == *handle
                &&& Some(p.1) == handle_value(*handle)
                &&& p.2 == baud_rate_value(*baudrate)
            },
            r matches Err(e) ==> e == Error::PCAN(
                PCANStatus::Handle(HandleStatus::InvalidHwHandle),
            ),
    {
        let device = PCANDevice { fd: *handle };
        match device.fd.to_value() {
            Some(address) => Ok((device, address, baudrate.to_value())),
            None => Err(Error::PCAN(PCANStatus::Handle(HandleStatus::InvalidHwHandle))),
        }
    }

    /// Interpret what the transport's read call produced: on success the
    /// raw frame is decoded and returned with its timestamp; any other
    /// return code becomes the classified status. The receive-queue-empty
    /// condition is among them and is not fatal — the caller may poll
    /// again.
    pub fn read_frame(&self, code: u32, raw: &RawFrame, timestamp: &Timestamp) -> (r: Result<
        (CANFrame, Timestamp),
        Error,
    >)
        ensures
            r is Ok <==> (code == PCAN_ERROR_OK && raw.len <= 8 && message_type_from_value(
                raw.msg_type as u32,
            ) is Some),
            code != PCAN_ERROR_OK ==> (r matches Err(e) && e == Error::PCAN(
                status_classify(code),
            )),
            code == PCAN_ERROR_OK ==> (r matches Err(e) ==> e == Error::CANFrame),
            r matches Ok(p) ==> {
                &&& p.0.wf()
                &&& p.0.spec_id() == raw.id
                &&& Some(p.0.spec_msg_type()) == message_type_from_value(raw.msg_type as u32)
                &&& p.0.spec_len() == raw.len
                &&& p.0.spec_data() == raw.data@
                &&& p.1 == *timestamp
            },
    {
        pcan_fn_to_result(code)?;
        let frame = CANFrame::from_raw(raw)?;
        Ok((frame, *timestamp))
    }

    /// Interpret the transport's return code from the write call. Success
    /// if and only if the code is the success code; any other code becomes
    /// the classified status — the transmit-queue-full condition among
    /// them is retryable, not fatal. The frame is never changed: the
    /// transport may take it by mutable reference for its own API
    /// symmetry, but no mutation is part of the session's meaning.
    pub fn write_frame(&self, frame: &mut CANFrame, code: u32) -> (r: Result<(), Error>)
        ensures
            *final(frame) == *old(frame),
            r is Ok <==> code == PCAN_ERROR_OK,
            r matches Err(e) ==> e == Error::PCAN(status_classify(code)),
    {
        pcan_fn_to_result(code)
    }

    /// Interpret the transport's return code from the uninitialize call.
    /// Safe to invoke any number of times in sequence: it never panics,
    /// always returns a classified result, and leaves the session value
    /// unchanged.
    pub fn close(&mut self, code: u32) -> (r: Result<(), Error>)
        ensures
            *final(self) == *old(self),
            r is Ok <==> code == PCAN_ERROR_OK,
            r matches Err(e) ==> e == Error::PCAN(status_classify(code)),
    {
        pcan_fn_to_result(code)
    }
}

} // verus!

