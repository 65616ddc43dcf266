//! The codec as a C caller sees it: events in a fixed layout, numeric error
//! codes, and the two flows on plain buffers.
//!
//! Everything here works on values. Pointers, and the null checks that go
//! with them, belong to whoever binds these functions to a C ABI.
use crate::midi::{MidiEvent, MidiEventView, MmcCommand};
use crate::netsync::{
    master_netsync_flow, master_payload, slave_netsync_flow, slave_netsync_flow_spec,
};
use vstd::prelude::*;

verus! {

/// Size of a buffer that holds any payload a master can make.
pub const MAX_PAYLOAD_SIZE: usize = 16;

/// The kinds of event that an event structure can hold.
#[derive(Debug, Clone, Copy, PartialEq, Eq, Structural)]
pub enum CMidiEventType {
    /// A quarter frame: piece number and value.
    MtcQuarter,
    /// A full frame: hour, minute, second and frame.
    MtcFull,
    /// The stop command, without data.
    MmcStop,
    /// The play command, without data.
    MmcPlay,
    /// The locate command: hour, minute, second and frame.
    MmcLocate,
}

/// An event in a fixed layout: its kind, eight bytes of data and the number
/// of them that count.
#[derive(Debug, Clone, Copy, PartialEq, Eq)]
pub struct CMidiEvent {
    pub event_type: CMidiEventType,
    pub data: [u8; 8],
    pub data_len: u8,
}

/// What a [`CMidiEvent`] stands for, with the data as a sequence.
pub struct CMidiEventView {
    pub event_type: CMidiEventType,
    pub data: Seq<u8>,
    pub data_len: u8,
}

impl View for CMidiEvent {
    type V = CMidiEventView;

    open spec fn view(&self) -> CMidiEventView {
        CMidiEventView { event_type: self.event_type, data: self.data@, data_len: self.data_len }
    }
}

/// The outcome of a call, as a C caller is told.
#[derive(Debug, Clone, Copy, PartialEq, Eq, Structural)]
pub enum CErrorCode {
    /// The call did what it was asked.
    Success,
    /// The event cannot be sent by a master.
    InvalidMasterEvent,
    /// The payload does not hold a message a slave can read.
    InvalidSlaveEvent,
    /// The buffer of the caller cannot take the result.
    BufferTooSmall,
    /// A pointer was null.
    NullPointer,
    /// The kind of an event is unknown, or its data has the wrong length.
    InvalidEventType,
}

impl CMidiEventType {
    /// The number that stands for the kind.
    pub open spec fn spec_code(self) -> u32 {
        match self {
            CMidiEventType::MtcQuarter => 0,
            CMidiEventType::MtcFull => 1,
            CMidiEventType::MmcStop => 2,
            CMidiEventType::MmcPlay => 3,
            CMidiEventType::MmcLocate => 4,
        }
    }

    /// The kind that a number stands for, if any.
    pub open spec fn spec_from_code(code: u32) -> Option<CMidiEventType> {
        if code == 0 {
            Some(CMidiEventType::MtcQuarter)
        } else if code == 1 {
            Some(CMidiEventType::MtcFull)
        } else if code == 2 {
            Some(CMidiEventType::MmcStop)
        } else if code == 3 {
            Some(CMidiEventType::MmcPlay)
        } else if code == 4 {
            Some(CMidiEventType::MmcLocate)
        } else {
            None
        }
    }

    /// Number of data bytes that an event of the kind carries.
    pub open spec fn spec_data_len(self) -> u8 {
        match self {
            CMidiEventType::MtcQuarter => 2,
            CMidiEventType::MtcFull => 4,
            CMidiEventType::MmcStop => 0,
            CMidiEventType::MmcPlay => 0,
            CMidiEventType::MmcLocate => 4,
        }
    }

    /// The number that stands for the kind.
    pub fn code(self) -> (code: u32)
        ensures
            code == self.spec_code(),
            Self::spec_from_code(code) == Some(self),
    {
        match self {
            CMidiEventType::MtcQuarter => 0,
            CMidiEventType::MtcFull => 1,
            CMidiEventType::MmcStop => 2,
            CMidiEventType::MmcPlay => 3,
            CMidiEventType::MmcLocate => 4,
        }
    }

    /// The kind that `code` stands for; none for a number that stands for no
    /// kind.
    pub fn from_code(code: u32) -> (kind: Option<CMidiEventType>)
        ensures
            kind == Self::spec_from_code(code),
            kind matches Some(k) ==> k.spec_code() == code,
            kind is Some <==> code <= 4,
    {
        match code {
            0 => Some(CMidiEventType::MtcQuarter),
            1 => Some(CMidiEventType::MtcFull),
            2 => Some(CMidiEventType::MmcStop),
            3 => Some(CMidiEventType::MmcPlay),
            4 => Some(CMidiEventType::MmcLocate),
            _ => None,
        }
    }

    /// Number of data bytes that an event of the kind carries.
    pub fn data_len(self) -> (len: u8)
        ensures
            len == self.spec_data_len(),
    {
        match self {
            CMidiEventType::MtcQuarter => 2,
            CMidiEventType::MtcFull => 4,
            CMidiEventType::MmcStop => 0,
            CMidiEventType::MmcPlay => 0,
            CMidiEventType::MmcLocate => 4,
        }
    }
}

impl CErrorCode {
    /// The number that stands for the outcome.
    pub open spec fn spec_code(self) -> i32 {
        match self {
            CErrorCode::Success => 0,
            CErrorCode::InvalidMasterEvent => 1,
            CErrorCode::InvalidSlaveEvent => 2,
            CErrorCode::BufferTooSmall => 3,
            CErrorCode::NullPointer => 4,
            CErrorCode::InvalidEventType => 5,
        }
    }

    /// The number that stands for the outcome.
    pub fn code(self) -> (code: i32)
        ensures
            code == self.spec_code(),
    {
        match self {
            CErrorCode::Success => 0,
            CErrorCode::InvalidMasterEvent => 1,
            CErrorCode::InvalidSlaveEvent => 2,
            CErrorCode::BufferTooSmall => 3,
            CErrorCode::NullPointer => 4,
            CErrorCode::InvalidEventType => 5,
        }
    }
}

/// The data of an event structure whose first bytes are given, the rest zero.
pub open spec fn padded_data(bytes: Seq<u8>) -> Seq<u8> {
    Seq::new(8, |i: int| if i < bytes.len() { bytes[i] } else { 0u8 })
}

/// The event that an event structure stands for. A structure whose data
/// length is not the one of its kind stands for none.
pub open spec fn c_to_midi_event_spec(c_event: CMidiEventView) -> Result<
    MidiEventView,
    CErrorCode,
> {
    let data = c_event.data;
    if c_event.data_len != c_event.event_type.spec_data_len() {
        Err(CErrorCode::InvalidEventType)
    } else {
        Ok(
            match c_event.event_type {
                CMidiEventType::MtcQuarter => MidiEventView::MtcQuarter {
                    msg_type: data[0],
                    value: data[1],
                },
                CMidiEventType::MtcFull => MidiEventView::MtcFull {
                    hour: data[0],
                    minute: data[1],
                    second: data[2],
                    frame: data[3],
                },
                CMidiEventType::MmcStop => MidiEventView::Mmc(MmcCommand::Stop),
                CMidiEventType::MmcPlay => MidiEventView::Mmc(MmcCommand::Play),
                CMidiEventType::MmcLocate => MidiEventView::Mmc(
                    MmcCommand::Locate {
                        hour: data[0],
                        minute: data[1],
                        second: data[2],
                        frame: data[3],
                        subframe: 0,
                    },
                ),
            },
        )
    }
}

/// The event structure that stands for an event. Raw bytes have none; the
/// subframe of a locate command is left out.
pub open spec fn midi_event_to_c_spec(event: MidiEventView) -> Result<CMidiEventView, CErrorCode> {
    match event {
        MidiEventView::MtcQuarter { msg_type, value } => Ok(
            CMidiEventView {
                event_type: CMidiEventType::MtcQuarter,
                data: padded_data(seq![msg_type, value]),
                data_len: 2,
            },
        ),
        MidiEventView::MtcFull { hour, minute, second, frame } => Ok(
            CMidiEventView {
                event_type: CMidiEventType::MtcFull,
                data: padded_data(seq![hour, minute, second, frame]),
                data_len: 4,
            },
        ),
        MidiEventView::Mmc(MmcCommand::Stop) => Ok(
            CMidiEventView {
                event_type: CMidiEventType::MmcStop,
                data: padded_data(seq![]),
                data_len: 0,
            },
        ),
        MidiEventView::Mmc(MmcCommand::Play) => Ok(
            CMidiEventView {
                event_type: CMidiEventType::MmcPlay,
                data: padded_data(seq![]),
                data_len: 0,
            },
        ),
        MidiEventView::Mmc(MmcCommand::Locate { hour, minute, second, frame, subframe }) => Ok(
            CMidiEventView {
                event_type: CMidiEventType::MmcLocate,
                data: padded_data(seq![hour, minute, second, frame]),
                data_len: 4,
            },
        ),
        MidiEventView::Other(_) => Err(CErrorCode::InvalidEventType),
    }
}

/// An event that is not raw bytes comes back from its event structure, but
/// for the subframe of a locate command, which comes back as zero.
pub proof fn lemma_c_event_round_trip(event: MidiEventView)
    requires
        !(event is Other),
    ensures
        midi_event_to_c_spec(event) is Ok,
        c_to_midi_event_spec(midi_event_to_c_spec(event)->Ok_0) == Ok::<MidiEventView, CErrorCode>(
            match event {
                MidiEventView::Mmc(MmcCommand::Locate { hour, minute, second, frame, subframe }) =>
                    MidiEventView::Mmc(
                    MmcCommand::Locate { hour, minute, second, frame, subframe: 0 },
                ),
                _ => event,
            },
        ),
{
}

/// Reads an event structure whose kind came as a number.
///
/// Fails with `InvalidEventType` exactly when the number stands for no kind.
pub fn c_event_from_raw(event_type_raw: u32, data: [u8; 8], data_len: u8) -> (r: Result<
    CMidiEvent,
    CErrorCode,
>)
    ensures
        match CMidiEventType::spec_from_code(event_type_raw) {
            Some(event_type) => r == Ok::<CMidiEvent, CErrorCode>(
                CMidiEvent { event_type, data, data_len },
            ),
            None => r == Err::<CMidiEvent, CErrorCode>(CErrorCode::InvalidEventType),
        },
{
    match CMidiEventType::from_code(event_type_raw) {
        Some(event_type) => Ok(CMidiEvent { event_type, data, data_len }),
        None => Err(CErrorCode::InvalidEventType),
    }
}

/// Turns an event structure into the event it stands for.
///
/// Fails with `InvalidEventType` exactly when the data length is not the one
/// of the kind: two for a quarter frame, four for a full frame and for
/// locate, none for stop and play.
pub fn c_to_midi_event(c_event: &CMidiEvent) -> (r: Result<MidiEvent, CErrorCode>)
    ensures
        match r {
            Ok(event) => c_to_midi_event_spec(c_event@) == Ok::<MidiEventView, CErrorCode>(event@),
            Err(e) => c_to_midi_event_spec(c_event@) == Err::<MidiEventView, CErrorCode>(e),
        },
        r is Ok <==> c_event.data_len == c_event.event_type.spec_data_len(),
{
    match c_event.event_type {
        CMidiEventType::MtcQuarter => {
            if c_event.data_len != 2 {
                return Err(CErrorCode::InvalidEventType);
            }
            Ok(MidiEvent::MtcQuarter { msg_type: c_event.data[0], value: c_event.data[1] })
        },
        CMidiEventType::MtcFull => {
            if c_event.data_len != 4 {
                return Err(CErrorCode::InvalidEventType);
            }
            Ok(
                MidiEvent::MtcFull {
                    hour: c_event.data[0],
                    minute: c_event.data[1],
                    second: c_event.data[2],
                    frame: c_event.data[3],
                },
            )
        },
        CMidiEventType::MmcStop => {
            if c_event.data_len != 0 {
                return Err(CErrorCode::InvalidEventType);
            }
            Ok(MidiEvent::Mmc(MmcCommand::Stop))
        },
        CMidiEventType::MmcPlay => {
            if c_event.data_len != 0 {
                return Err(CErrorCode::InvalidEventType);
            }
            Ok(MidiEvent::Mmc(MmcCommand::Play))
        },
        CMidiEventType::MmcLocate => {
            if c_event.data_len != 4 {
                return Err(CErrorCode::InvalidEventType);
            }
            Ok(
                MidiEvent::Mmc(
                    MmcCommand::Locate {
                        hour: c_event.data[0],
                        minute: c_event.data[1],
                        second: c_event.data[2],
                        frame: c_event.data[3],
                        subframe: 0,
                    },
                ),
            )
        },
    }
}

/// Turns an event into its event structure.
///
/// Fails with `InvalidEventType` exactly for raw bytes.
pub fn midi_event_to_c(event: &MidiEvent) -> (r: Result<CMidiEvent, CErrorCode>)
    ensures
        match r {
            Ok(c_event) => midi_event_to_c_spec(event@) == Ok::<CMidiEventView, CErrorCode>(
                c_event@,
            ),
            Err(e) => midi_event_to_c_spec(event@) == Err::<CMidiEventView, CErrorCode>(e),
        },
        r is Ok <==> !(event@ is Other),
{
    match event {
        MidiEvent::MtcQuarter { msg_type, value } => {
            let c_event = create_mtc_quarter_event(*msg_type, *value);
            Ok(c_event)
        },
        MidiEvent::MtcFull { hour, minute, second, frame } => {
            let c_event = create_mtc_full_event(*hour, *minute, *second, *frame);
            Ok(c_event)
        },
        MidiEvent::Mmc(MmcCommand::Stop) => Ok(create_mmc_stop_event()),
        MidiEvent::Mmc(MmcCommand::Play) => Ok(create_mmc_play_event()),
        MidiEvent::Mmc(MmcCommand::Locate { hour, minute, second, frame, subframe: _ }) => {
            let c_event = create_mmc_locate_event(*hour, *minute, *second, *frame);
            Ok(c_event)
        },
        MidiEvent::Other(_) => Err(CErrorCode::InvalidEventType),
    }
}

/// The payload for an event structure, for a caller whose buffer holds
/// `buffer_size` bytes.
///
/// Fails with `InvalidEventType` where the structure stands for no event,
/// and with `BufferTooSmall` where the payload is longer than the buffer.
/// Otherwise the result is the payload that a master makes of the event.
pub fn master_netsync_flow_ffi(event: &CMidiEvent, buffer_size: usize) -> (r: Result<
    Vec<u8>,
    CErrorCode,
>)
    ensures
        match c_to_midi_event_spec(event@) {
            Err(e) => r == Err::<Vec<u8>, CErrorCode>(e),
            Ok(midi_event) => if master_payload(midi_event).len() > buffer_size {
                r == Err::<Vec<u8>, CErrorCode>(CErrorCode::BufferTooSmall)
            } else {
                r is Ok && r->Ok_0@ == master_payload(midi_event)
            },
        },
        r matches Ok(payload) ==> payload@.len() <= MAX_PAYLOAD_SIZE,
{
    let midi_event = match c_to_midi_event(event) {
        Ok(midi_event) => midi_event,
        Err(error_code) => {
            return Err(error_code);
        },
    };
    let payload = match master_netsync_flow(&midi_event) {
        Ok(payload) => payload,
        Err(_) => {
            return Err(CErrorCode::InvalidMasterEvent);
        },
    };
    if payload.len() > buffer_size {
        return Err(CErrorCode::BufferTooSmall);
    }
    Ok(payload)
}

/// The event structure for a payload that was received.
///
/// Fails with `InvalidSlaveEvent` where a slave cannot read the payload, and
/// with `InvalidEventType` where what it reads is raw bytes.
pub fn slave_netsync_flow_ffi(buf: &[u8]) -> (r: Result<CMidiEvent, CErrorCode>)
    ensures
        match slave_netsync_flow_spec(buf@) {
            Err(_) => r == Err::<CMidiEvent, CErrorCode>(CErrorCode::InvalidSlaveEvent),
            Ok(midi_event) => match r {
                Ok(c_event) => midi_event_to_c_spec(midi_event) == Ok::<
                    CMidiEventView,
                    CErrorCode,
                >(c_event@),
                Err(e) => midi_event_to_c_spec(midi_event) == Err::<CMidiEventView, CErrorCode>(e),
            },
        },
{
    let midi_event = match slave_netsync_flow(buf) {
        Ok(midi_event) => midi_event,
        Err(_) => {
            return Err(CErrorCode::InvalidSlaveEvent);
        },
    };
    midi_event_to_c(&midi_event)
}

/// Size of a buffer that holds any payload a master can make: the longest
/// is the locate command with its header, fourteen bytes.
pub fn get_max_payload_size() -> (size: usize)
    ensures
        size == MAX_PAYLOAD_SIZE,
{
    MAX_PAYLOAD_SIZE
}

/// The text for each error code, and for every other number. Each ends in a
/// NUL character, so that its bytes are a string to a C caller as they are.
pub open spec fn error_message_spec(error_code: i32) -> Seq<char> {
    if error_code == 0 {
        "Success\0"@
    } else if error_code == 1 {
        "Invalid master event\0"@
    } else if error_code == 2 {
        "Invalid slave event\0"@
    } else if error_code == 3 {
        "Buffer too small\0"@
    } else if error_code == 4 {
        "Null pointer passed\0"@
    } else if error_code == 5 {
        "Invalid event type\0"@
    } else {
        "Unknown error\0"@
    }
}

/// The text that tells a reader what an error code means, with a NUL
/// character at its end.
pub fn get_error_message(error_code: i32) -> (message: &'static str)
    ensures
        message@ == error_message_spec(error_code),
{
    match error_code {
        0 => "Success\0",
        1 => "Invalid master event\0",
        2 => "Invalid slave event\0",
        3 => "Buffer too small\0",
        4 => "Null pointer passed\0",
        5 => "Invalid event type\0",
        _ => "Unknown error\0",
    }
}

/// The event structure of a quarter frame.
pub fn create_mtc_quarter_event(msg_type: u8, value: u8) -> (c_event: CMidiEvent)
    ensures
        c_event@ == (CMidiEventView {
            event_type: CMidiEventType::MtcQuarter,
            data: padded_data(seq![msg_type, value]),
            data_len: 2,
        }),
{
    let data: [u8; 8] = [msg_type, value, 0, 0, 0, 0, 0, 0];
    assert(data@ =~= padded_data(seq![msg_type, value]));
    CMidiEvent { event_type: CMidiEventType::MtcQuarter, data, data_len: 2 }
}

/// The event structure of a full frame.
pub fn create_mtc_full_event(hour: u8, minute: u8, second: u8, frame: u8) -> (c_event: CMidiEvent)
    ensures
        c_event@ == (CMidiEventView {
            event_type: CMidiEventType::MtcFull,
            data: padded_data(seq![hour, minute, second, frame]),
            data_len: 4,
        }),
{
    let data: [u8; 8] = [hour, minute, second, frame, 0, 0, 0, 0];
    assert(data@ =~= padded_data(seq![hour, minute, second, frame]));
    CMidiEvent { event_type: CMidiEventType::MtcFull, data, data_len: 4 }
}

/// The event structure of the stop command.
pub fn create_mmc_stop_event() -> (c_event: CMidiEvent)
    ensures
        c_event@ == (CMidiEventView {
            event_type: CMidiEventType::MmcStop,
            data: padded_data(seq![]),
            data_len: 0,
        }),
{
    let data: [u8; 8] = [0, 0, 0, 0, 0, 0, 0, 0];
    assert(data@ =~= padded_data(seq![]));
    CMidiEvent { event_type: CMidiEventType::MmcStop, data, data_len: 0 }
}

/// The event structure of the play command.
pub fn create_mmc_play_event() -> (c_event: CMidiEvent)
    ensures
        c_event@ == (CMidiEventView {
            event_type: CMidiEventType::MmcPlay,
            data: padded_data(seq![]),
            data_len: 0,
        }),
{
    let data: [u8; 8] = [0, 0, 0, 0, 0, 0, 0, 0];
    assert(data@ =~= padded_data(seq![]));
    CMidiEvent { event_type: CMidiEventType::MmcPlay, data, data_len: 0 }
}

/// The event structure of the locate command.
pub fn create_mmc_locate_event(hour: u8, minute: u8, second: u8, frame: u8) -> (c_event:
    CMidiEvent)
    ensures
        c_event@ == (CMidiEventView {
            event_type: CMidiEventType::MmcLocate,
            data: padded_data(seq![hour, minute, second, frame]),
            data_len: 4,
        }),
{
    let data: [u8; 8] = [hour, minute, second, frame, 0, 0, 0, 0];
    assert(data@ =~= padded_data(seq![hour, minute, second, frame]));
    CMidiEvent { event_type: CMidiEventType::MmcLocate, data, data_len: 4 }
}

} // verus!
