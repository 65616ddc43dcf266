//! The MIDI messages that carry synchronisation, and their wire format.
//!
//! | Message | Bytes |
//! |---|---|
//! | quarter frame | `F1 nd` |
//! | full frame | `F0 7F 7F 01 01 hr mn sc fr F7` |
//! | stop | `F0 7F 7F 06 01 F7` |
//! | play | `F0 7F 7F 06 02 F7` |
//! | locate | `F0 7F 7F 06 44 06 01 hr mn sc fr 00 F7` |
//!
//! Messages travel one per packet and without delta time. Whatever does not
//! match one of these layouts is kept as raw bytes.
use crate::error::ParseError;
use vstd::prelude::*;
use vstd::slice::{slice_subrange, slice_to_vec};

verus! {

/// First byte of a System Exclusive message.
pub const SYSEX_START: u8 = 0xF0;

/// Last byte of a System Exclusive message.
pub const SYSEX_END: u8 = 0xF7;

/// Status byte of a quarter-frame message.
pub const SYSCOMMON_START: u8 = 0xF1;

/// Device identifier that addresses every device.
pub const SYSEX_DEVICE_ID_BROADCAST: u8 = 0x7F;

/// Manufacturer identifier of the universal real-time messages.
pub const UNIVERSAL_REALTIME_ID: u8 = 0x7F;

/// Sub-identifier of the machine-control messages.
pub const MMC_SUB_ID1: u8 = 0x06;

/// First sub-identifier of a full-frame message.
pub const MTC_FULL_FRAME_SUB_ID1: u8 = 0x01;

/// Second sub-identifier of a full-frame message.
pub const MTC_FULL_FRAME_SUB_ID2: u8 = 0x01;

/// Machine-control command: stop.
pub const MMC_STOP_CMD_BYTE: u8 = 0x01;

/// Machine-control command: play.
pub const MMC_PLAY_CMD_BYTE: u8 = 0x02;

/// Machine-control command: locate.
pub const MMC_LOCATE_CMD_BYTE: u8 = 0x44;

/// Number of data bytes that a locate command announces.
pub const MMC_LOCATE_SIZE_BYTE: u8 = 0x06;

/// Byte that introduces the target of a locate command.
pub const MMC_LOCATE_TARGET_BYTE: u8 = 0x01;

/// Wire length of a full-frame message.
pub const MTC_FULL_FRAME_LENGTH: usize = 10;

/// Wire length of a stop or play command.
pub const MMC_START_STOP_LENGTH: usize = 6;

/// Wire length of a locate command.
pub const MMC_LOCATE_LENGTH: usize = 13;

/// Wire length of a quarter-frame message.
pub const MTC_QUARTER_FRAME_LENGTH: usize = 2;

/// A transport command.
#[derive(Debug, Clone, Copy, PartialEq, Eq, Structural)]
pub enum MmcCommand {
    /// Halt the transport.
    Stop,
    /// Start the transport.
    Play,
    /// Move the transport to a timecode. The subframe never reaches the wire:
    /// it is sent as zero and read back as zero.
    Locate { hour: u8, minute: u8, second: u8, frame: u8, subframe: u8 },
}

/// One MIDI message.
#[derive(Debug, PartialEq, Eq)]
pub enum MidiEvent {
    /// One of the eight pieces of a running timecode: which piece, and its
    /// four bits.
    MtcQuarter { msg_type: u8, value: u8 },
    /// A whole timecode in one message. The fields are raw bytes.
    MtcFull { hour: u8, minute: u8, second: u8, frame: u8 },
    /// A transport command.
    Mmc(MmcCommand),
    /// Any other message, and any broken instance of the layouts above, as
    /// the bytes that were read.
    Other(Vec<u8>),
}

/// What a [`MidiEvent`] stands for, with the raw bytes as a sequence.
pub enum MidiEventView {
    MtcQuarter { msg_type: u8, value: u8 },
    MtcFull { hour: u8, minute: u8, second: u8, frame: u8 },
    Mmc(MmcCommand),
    Other(Seq<u8>),
}

impl View for MidiEvent {
    type V = MidiEventView;

    open spec fn view(&self) -> MidiEventView {
        match *self {
            MidiEvent::MtcQuarter { msg_type, value } => MidiEventView::MtcQuarter {
                msg_type,
                value,
            },
            MidiEvent::MtcFull { hour, minute, second, frame } => MidiEventView::MtcFull {
                hour,
                minute,
                second,
                frame,
            },
            MidiEvent::Mmc(command) => MidiEventView::Mmc(command),
            MidiEvent::Other(bytes) => MidiEventView::Other(bytes@),
        }
    }
}

impl Clone for MidiEvent {
    fn clone(&self) -> (copy: MidiEvent)
        ensures
            copy@ == self@,
    {
        match self {
            MidiEvent::MtcQuarter { msg_type, value } => MidiEvent::MtcQuarter {
                msg_type: *msg_type,
                value: *value,
            },
            MidiEvent::MtcFull { hour, minute, second, frame } => MidiEvent::MtcFull {
                hour: *hour,
                minute: *minute,
                second: *second,
                frame: *frame,
            },
            MidiEvent::Mmc(command) => MidiEvent::Mmc(*command),
            MidiEvent::Other(bytes) => {
                let copy = slice_to_vec(bytes.as_slice());
                MidiEvent::Other(copy)
            },
        }
    }
}

/// The outcome of a parse, with the event taken by its view.
pub open spec fn parsed_view(r: Result<MidiEvent, ParseError>) -> Result<
    MidiEventView,
    ParseError,
> {
    match r {
        Ok(event) => Ok(event@),
        Err(e) => Err(e),
    }
}

/// The data byte of a quarter frame: the low nibble of the piece number above
/// the low nibble of the value.
pub open spec fn quarter_data_byte(msg_type: u8, value: u8) -> u8 {
    ((msg_type % 16) * 16 + value % 16) as u8
}

/// The data byte of a quarter frame in bits: the piece number shifted into
/// the high nibble, whatever does not fit in the byte being dropped, over the
/// low nibble of the value.
pub proof fn lemma_quarter_data_byte_bits(msg_type: u8, value: u8)
    ensures
        quarter_data_byte(msg_type, value) == (msg_type << 4) | (value & 0x0F),
{
    assert((msg_type << 4) | (value & 0x0F) == ((msg_type % 16) * 16 + value % 16) as u8)
        by (bit_vector);
}

/// The two nibbles of a byte in bits: the high one by shifting, the low one
/// by masking.
pub proof fn lemma_nibbles_bits(data: u8)
    ensures
        data / 16 == data >> 4,
        data % 16 == data & 0x0F,
{
    assert(data >> 4 == data / 16 && data & 0x0F == data % 16) by (bit_vector);
}

/// The wire bytes of an event.
pub open spec fn build_midi_spec(event: MidiEventView) -> Seq<u8> {
    match event {
        MidiEventView::MtcQuarter { msg_type, value } => seq![
            SYSCOMMON_START,
            quarter_data_byte(msg_type, value),
        ],
        MidiEventView::MtcFull { hour, minute, second, frame } => seq![
            SYSEX_START,
            UNIVERSAL_REALTIME_ID,
            SYSEX_DEVICE_ID_BROADCAST,
            MTC_FULL_FRAME_SUB_ID1,
            MTC_FULL_FRAME_SUB_ID2,
            hour,
            minute,
            second,
            frame,
            SYSEX_END,
        ],
        MidiEventView::Mmc(MmcCommand::Stop) => seq![
            SYSEX_START,
            UNIVERSAL_REALTIME_ID,
            SYSEX_DEVICE_ID_BROADCAST,
            MMC_SUB_ID1,
            MMC_STOP_CMD_BYTE,
            SYSEX_END,
        ],
        MidiEventView::Mmc(MmcCommand::Play) => seq![
            SYSEX_START,
            UNIVERSAL_REALTIME_ID,
            SYSEX_DEVICE_ID_BROADCAST,
            MMC_SUB_ID1,
            MMC_PLAY_CMD_BYTE,
            SYSEX_END,
        ],
        MidiEventView::Mmc(MmcCommand::Locate { hour, minute, second, frame, subframe }) => seq![
            SYSEX_START,
            UNIVERSAL_REALTIME_ID,
            SYSEX_DEVICE_ID_BROADCAST,
            MMC_SUB_ID1,
            MMC_LOCATE_CMD_BYTE,
            MMC_LOCATE_SIZE_BYTE,
            MMC_LOCATE_TARGET_BYTE,
            hour,
            minute,
            second,
            frame,
            0u8,
            SYSEX_END,
        ],
        MidiEventView::Other(bytes) => bytes,
    }
}

/// `i` is the place of the first terminator byte in `buf`.
pub open spec fn is_sysex_end_at(buf: Seq<u8>, i: int) -> bool {
    &&& 0 <= i < buf.len()
    &&& buf[i] == SYSEX_END
    &&& forall|j: int| 0 <= j < i ==> buf[j] != SYSEX_END
}

/// `buf` holds a terminator byte.
pub open spec fn has_sysex_end(buf: Seq<u8>) -> bool {
    exists|i: int| 0 <= i < buf.len() && buf[i] == SYSEX_END
}

/// The place of the first terminator byte in a `buf` that holds one.
pub open spec fn sysex_end_pos(buf: Seq<u8>) -> int {
    choose|i: int| is_sysex_end_at(buf, i)
}

/// Length of the command at the start of `buf`: up to and with the first
/// terminator byte that `buf` holds anywhere, or else the `len` asked for.
pub open spec fn command_len(buf: Seq<u8>, len: nat) -> int {
    if has_sysex_end(buf) {
        sysex_end_pos(buf) + 1
    } else {
        len as int
    }
}

/// `cmd` is framed as a universal real-time message to every device.
pub open spec fn is_realtime_sysex(cmd: Seq<u8>) -> bool {
    &&& cmd.len() >= 4
    &&& cmd[1] == UNIVERSAL_REALTIME_ID
    &&& cmd[2] == SYSEX_DEVICE_ID_BROADCAST
    &&& cmd[cmd.len() - 1] == SYSEX_END
}

/// `cmd` has the length and the identifying bytes of a locate command.
pub open spec fn is_locate(cmd: Seq<u8>) -> bool {
    &&& cmd.len() >= MMC_LOCATE_LENGTH
    &&& cmd[3] == MMC_SUB_ID1
    &&& cmd[4] == MMC_LOCATE_CMD_BYTE
    &&& cmd[5] == MMC_LOCATE_SIZE_BYTE
    &&& cmd[6] == MMC_LOCATE_TARGET_BYTE
}

/// `cmd` has the length and the identifying bytes of a full frame.
pub open spec fn is_full_frame(cmd: Seq<u8>) -> bool {
    &&& cmd.len() >= MTC_FULL_FRAME_LENGTH
    &&& cmd[3] == MTC_FULL_FRAME_SUB_ID1
    &&& cmd[4] == MTC_FULL_FRAME_SUB_ID2
}

/// `cmd` has the length and the identifying bytes of the machine-control
/// command `command`.
pub open spec fn is_transport(cmd: Seq<u8>, command: u8) -> bool {
    &&& cmd.len() >= MMC_START_STOP_LENGTH
    &&& cmd[3] == MMC_SUB_ID1
    &&& cmd[4] == command
}

/// The event that a framed real-time message stands for. Locate is tried
/// first, then the full frame, then stop and play; the first that matches
/// is taken, and a message that matches none is kept as it is.
pub open spec fn parse_command_spec(cmd: Seq<u8>) -> MidiEventView {
    if is_locate(cmd) {
        MidiEventView::Mmc(
            MmcCommand::Locate {
                hour: cmd[7],
                minute: cmd[8],
                second: cmd[9],
                frame: cmd[10],
                subframe: 0,
            },
        )
    } else if is_full_frame(cmd) {
        MidiEventView::MtcFull { hour: cmd[5], minute: cmd[6], second: cmd[7], frame: cmd[8] }
    } else if is_transport(cmd, MMC_STOP_CMD_BYTE) {
        MidiEventView::Mmc(MmcCommand::Stop)
    } else if is_transport(cmd, MMC_PLAY_CMD_BYTE) {
        MidiEventView::Mmc(MmcCommand::Play)
    } else {
        MidiEventView::Other(cmd)
    }
}

/// The outcome of reading one message from the first `len` bytes of `buf`.
///
/// An empty buffer and a length of zero are refused first, then a length
/// beyond the buffer. A quarter frame takes its data byte apart; cut short,
/// it is kept as raw bytes. A System Exclusive message runs to the first
/// terminator byte found in `buf`, or over the `len` bytes where there is
/// none; without the framing of a real-time message the `len` bytes are kept
/// as they are.
pub open spec fn parse_midi_spec(buf: Seq<u8>, len: nat) -> Result<MidiEventView, ParseError> {
    if len == 0 || buf.len() == 0 {
        Err(ParseError::EmptyBuffer)
    } else if len > buf.len() {
        Err(ParseError::BufferTooSmall { requested: len as usize, available: buf.len() as usize })
    } else if buf[0] == SYSCOMMON_START {
        if len < MTC_QUARTER_FRAME_LENGTH {
            Ok(MidiEventView::Other(buf.subrange(0, len as int)))
        } else {
            Ok(
                MidiEventView::MtcQuarter {
                    msg_type: (buf[1] / 16) as u8,
                    value: (buf[1] % 16) as u8,
                },
            )
        }
    } else if buf[0] != SYSEX_START {
        Ok(MidiEventView::Other(buf.subrange(0, len as int)))
    } else {
        let cmd = buf.subrange(0, command_len(buf, len));
        if is_realtime_sysex(cmd) {
            Ok(parse_command_spec(cmd))
        } else {
            Ok(MidiEventView::Other(buf.subrange(0, len as int)))
        }
    }
}

/// The first terminator byte of a buffer is the only place that
/// [`is_sysex_end_at`] accepts, so it is what [`sysex_end_pos`] names.
pub proof fn lemma_sysex_end_is_unique(buf: Seq<u8>, i: int)
    requires
        is_sysex_end_at(buf, i),
    ensures
        has_sysex_end(buf),
        sysex_end_pos(buf) == i,
{
    let chosen = sysex_end_pos(buf);
    assert(is_sysex_end_at(buf, chosen));
    if chosen < i {
        assert(buf[chosen] != SYSEX_END);
    } else if i < chosen {
        assert(buf[i] != SYSEX_END);
    }
}

/// Of the events other than raw bytes, those that come back from their own
/// wire bytes unchanged: a quarter frame whose two fields fit in four bits, a
/// full frame or a locate command none of whose time fields is the
/// terminator byte, a locate command whose subframe is zero, and every stop
/// and play. Raw bytes are left out.
pub open spec fn survives_wire(event: MidiEventView) -> bool {
    match event {
        MidiEventView::MtcQuarter { msg_type, value } => msg_type <= 15 && value <= 15,
        MidiEventView::MtcFull { hour, minute, second, frame } => {
            &&& hour != SYSEX_END
            &&& minute != SYSEX_END
            &&& second != SYSEX_END
            &&& frame != SYSEX_END
        },
        MidiEventView::Mmc(MmcCommand::Stop) => true,
        MidiEventView::Mmc(MmcCommand::Play) => true,
        MidiEventView::Mmc(MmcCommand::Locate { hour, minute, second, frame, subframe }) => {
            &&& hour != SYSEX_END
            &&& minute != SYSEX_END
            &&& second != SYSEX_END
            &&& frame != SYSEX_END
            &&& subframe == 0
        },
        MidiEventView::Other(bytes) => false,
    }
}

/// The event that the wire bytes of `event` carry: of a quarter frame the low
/// nibble of either field, of a locate command a subframe of zero, and any
/// other event as it is.
pub open spec fn wire_image(event: MidiEventView) -> MidiEventView {
    match event {
        MidiEventView::MtcQuarter { msg_type, value } => MidiEventView::MtcQuarter {
            msg_type: (msg_type % 16) as u8,
            value: (value % 16) as u8,
        },
        MidiEventView::Mmc(MmcCommand::Locate { hour, minute, second, frame, subframe }) =>
            MidiEventView::Mmc(MmcCommand::Locate { hour, minute, second, frame, subframe: 0 }),
        _ => event,
    }
}

/// An event and its [`wire_image`] have the same wire bytes, and the image of
/// an event that [`survives_wire`] is the event itself.
pub proof fn lemma_wire_image(event: MidiEventView)
    ensures
        build_midi_spec(wire_image(event)) == build_midi_spec(event),
        wire_image(wire_image(event)) == wire_image(event),
        survives_wire(event) ==> wire_image(event) == event,
{
}

/// Building an event other than raw bytes and parsing all of what was built
/// gives the event back, for exactly the events of [`survives_wire`]. Fields
/// outside them are changed by the wire format itself: bits above the low
/// nibble of a quarter frame are dropped, a subframe is sent as zero, and a
/// time field equal to the terminator byte ends the message early.
pub proof fn lemma_build_then_parse(event: MidiEventView)
    requires
        !(event is Other),
    ensures
        parse_midi_spec(build_midi_spec(event), build_midi_spec(event).len()) == Ok::<
            MidiEventView,
            ParseError,
        >(event) <==> survives_wire(event),
{
    let wire = build_midi_spec(event);
    match event {
        MidiEventView::MtcQuarter { msg_type, value } => {},
        MidiEventView::MtcFull { hour, minute, second, frame } => {
            let end: int = if hour == SYSEX_END {
                5
            } else if minute == SYSEX_END {
                6
            } else if second == SYSEX_END {
                7
            } else if frame == SYSEX_END {
                8
            } else {
                9
            };
            lemma_sysex_end_is_unique(wire, end);
        },
        MidiEventView::Mmc(MmcCommand::Stop) => {
            lemma_sysex_end_is_unique(wire, 5);
        },
        MidiEventView::Mmc(MmcCommand::Play) => {
            lemma_sysex_end_is_unique(wire, 5);
        },
        MidiEventView::Mmc(MmcCommand::Locate { hour, minute, second, frame, subframe }) => {
            let end: int = if hour == SYSEX_END {
                7
            } else if minute == SYSEX_END {
                8
            } else if second == SYSEX_END {
                9
            } else if frame == SYSEX_END {
                10
            } else {
                12
            };
            lemma_sysex_end_is_unique(wire, end);
        },
        MidiEventView::Other(bytes) => {},
    }
}

/// Looks for the first terminator byte.
fn find_sysex_end(buf: &[u8]) -> (r: Option<usize>)
    ensures
        match r {
            Some(p) => is_sysex_end_at(buf@, p as int),
            None => !has_sysex_end(buf@),
        },
{
    let mut i: usize = 0;
    while i < buf.len()
        invariant
            i <= buf@.len(),
            forall|j: int| 0 <= j < i ==> buf@[j] != SYSEX_END,
        decreases buf@.len() - i,
    {
        if buf[i] == SYSEX_END {
            return Some(i);
        }
        i += 1;
    }
    None
}

/// Reads one message from the first `len` bytes of `buf`.
fn parse_midi(buf: &[u8], len: usize) -> (r: Result<MidiEvent, ParseError>)
    ensures
        parsed_view(r) == parse_midi_spec(buf@, len as nat),
{
    if len == 0 || buf.is_empty() {
        return Err(ParseError::EmptyBuffer);
    }
    if len > buf.len() {
        return Err(ParseError::BufferTooSmall { requested: len, available: buf.len() });
    }
    let b0: u8 = buf[0];

    if b0 == SYSCOMMON_START {
        if len < MTC_QUARTER_FRAME_LENGTH {
            return Ok(MidiEvent::Other(slice_to_vec(slice_subrange(buf, 0, len))));
        }
        let data_byte: u8 = buf[1];
        proof {
            lemma_nibbles_bits(data_byte);
        }
        return Ok(MidiEvent::MtcQuarter { msg_type: data_byte >> 4, value: data_byte & 0x0F });
    }
    if b0 != SYSEX_START {
        return Ok(MidiEvent::Other(slice_to_vec(slice_subrange(buf, 0, len))));
    }
    let cmd_size: usize = match find_sysex_end(buf) {
        Some(end_pos) => {
            proof {
                lemma_sysex_end_is_unique(buf@, end_pos as int);
            }
            end_pos + 1
        },
        None => len,
    };
    let cmd_slice = slice_subrange(buf, 0, cmd_size);

    if !(cmd_slice.len() >= 4 && cmd_slice[1] == UNIVERSAL_REALTIME_ID && cmd_slice[2]
        == SYSEX_DEVICE_ID_BROADCAST && cmd_slice[cmd_size - 1] == SYSEX_END) {
        return Ok(MidiEvent::Other(slice_to_vec(slice_subrange(buf, 0, len))));
    }
    if cmd_slice.len() >= MMC_LOCATE_LENGTH && cmd_slice[3] == MMC_SUB_ID1 && cmd_slice[4]
        == MMC_LOCATE_CMD_BYTE && cmd_slice[5] == MMC_LOCATE_SIZE_BYTE && cmd_slice[6]
        == MMC_LOCATE_TARGET_BYTE {
        return Ok(
            MidiEvent::Mmc(
                MmcCommand::Locate {
                    hour: cmd_slice[7],
                    minute: cmd_slice[8],
                    second: cmd_slice[9],
                    frame: cmd_slice[10],
                    subframe: 0,
                },
            ),
        );
    }
    if cmd_slice.len() >= MTC_FULL_FRAME_LENGTH && cmd_slice[3] == MTC_FULL_FRAME_SUB_ID1
        && cmd_slice[4] == MTC_FULL_FRAME_SUB_ID2 {
        return Ok(
            MidiEvent::MtcFull {
                hour: cmd_slice[5],
                minute: cmd_slice[6],
                second: cmd_slice[7],
                frame: cmd_slice[8],
            },
        );
    }
    if cmd_slice.len() >= MMC_START_STOP_LENGTH && cmd_slice[3] == MMC_SUB_ID1 {
        let cmd_byte: u8 = cmd_slice[4];
        if cmd_byte == MMC_STOP_CMD_BYTE {
            return Ok(MidiEvent::Mmc(MmcCommand::Stop));
        } else if cmd_byte == MMC_PLAY_CMD_BYTE {
            return Ok(MidiEvent::Mmc(MmcCommand::Play));
        }
    }
    Ok(MidiEvent::Other(slice_to_vec(cmd_slice)))
}

/// Appends the wire bytes of `event` to `buf`.
fn build_midi(event: &MidiEvent, buf: &mut Vec<u8>)
    ensures
        final(buf)@ == old(buf)@ + build_midi_spec(event@),
{
    match event {
        MidiEvent::MtcQuarter { msg_type, value } => {
            proof {
                lemma_quarter_data_byte_bits(*msg_type, *value);
            }
            buf.push(SYSCOMMON_START);
            buf.push((*msg_type << 4) | (*value & 0x0F));
        },
        MidiEvent::MtcFull { hour, minute, second, frame } => {
            buf.push(SYSEX_START);
            buf.push(UNIVERSAL_REALTIME_ID);
            buf.push(SYSEX_DEVICE_ID_BROADCAST);
            buf.push(MTC_FULL_FRAME_SUB_ID1);
            buf.push(MTC_FULL_FRAME_SUB_ID2);
            buf.push(*hour);
            buf.push(*minute);
            buf.push(*second);
            buf.push(*frame);
            buf.push(SYSEX_END);
        },
        MidiEvent::Mmc(mmc_cmd) => match mmc_cmd {
            MmcCommand::Stop => {
                buf.push(SYSEX_START);
                buf.push(UNIVERSAL_REALTIME_ID);
                buf.push(SYSEX_DEVICE_ID_BROADCAST);
                buf.push(MMC_SUB_ID1);
                buf.push(MMC_STOP_CMD_BYTE);
                buf.push(SYSEX_END);
            },
            MmcCommand::Play => {
                buf.push(SYSEX_START);
                buf.push(UNIVERSAL_REALTIME_ID);
                buf.push(SYSEX_DEVICE_ID_BROADCAST);
                buf.push(MMC_SUB_ID1);
                buf.push(MMC_PLAY_CMD_BYTE);
                buf.push(SYSEX_END);
            },
            MmcCommand::Locate { hour, minute, second, frame, subframe: _ } => {
                buf.push(SYSEX_START);
                buf.push(UNIVERSAL_REALTIME_ID);
                buf.push(SYSEX_DEVICE_ID_BROADCAST);
                buf.push(MMC_SUB_ID1);
                buf.push(MMC_LOCATE_CMD_BYTE);
                buf.push(MMC_LOCATE_SIZE_BYTE);
                buf.push(MMC_LOCATE_TARGET_BYTE);
                buf.push(*hour);
                buf.push(*minute);
                buf.push(*second);
                buf.push(*frame);
                buf.push(0x00);
                buf.push(SYSEX_END);
            },
        },
        MidiEvent::Other(bytes) => {
            buf.extend_from_slice(bytes.as_slice());
        },
    }
}

/// Reads one MIDI message from the first `len` bytes of `buf`.
///
/// Fails with `EmptyBuffer` exactly when `len` is zero or `buf` is empty,
/// and with `BufferTooSmall` exactly when `len` is more than a `buf` that is
/// not empty holds; every other input gives an event, which is the one that
/// [`parse_midi_spec`] names.
pub fn parse_midi_list(buf: &[u8], len: usize) -> (r: Result<MidiEvent, ParseError>)
    ensures
        parsed_view(r) == parse_midi_spec(buf@, len as nat),
        r is Ok <==> 0 < len <= buf@.len(),
        r == Err::<MidiEvent, ParseError>(ParseError::EmptyBuffer) <==> len == 0 || buf@.len()
            == 0,
        r == Err::<MidiEvent, ParseError>(
            ParseError::BufferTooSmall { requested: len, available: buf@.len() as usize },
        ) <==> 0 < buf@.len() < len,
{
    parse_midi(buf, len)
}

/// The wire bytes of `event`, as [`build_midi_spec`] lays them out.
pub fn build_midi_list(event: &MidiEvent) -> (bytes: Vec<u8>)
    ensures
        bytes@ == build_midi_spec(event@),
{
    let mut buf: Vec<u8> = Vec::new();
    build_midi(event, &mut buf);
    buf
}

} // verus!
