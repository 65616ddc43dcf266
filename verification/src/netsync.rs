//! The two directions of the synchronisation link: a master turns an event
//! into a payload, one header byte in front of the MIDI bytes, and a slave
//! turns a payload back into the event.
use crate::error::NetsyncError;
use crate::header::PayloadHeader;
use crate::midi::{
    build_midi_list, build_midi_spec, lemma_build_then_parse, lemma_wire_image, parse_midi_list,
    parse_midi_spec, survives_wire, wire_image, MidiEvent, MidiEventView, MmcCommand,
    MMC_LOCATE_LENGTH, MMC_START_STOP_LENGTH, MTC_FULL_FRAME_LENGTH, MTC_QUARTER_FRAME_LENGTH,
};
use vstd::prelude::*;
use vstd::slice::slice_subrange;

verus! {

/// Fewest bytes of a payload: the header and the shortest message.
pub const MIN_PAYLOAD_SIZE: usize = 3;

/// The length that a master announces for an event it can send.
pub open spec fn announced_len(event: MidiEventView) -> usize {
    match event {
        MidiEventView::MtcQuarter { .. } => MTC_QUARTER_FRAME_LENGTH,
        MidiEventView::MtcFull { .. } => MTC_FULL_FRAME_LENGTH,
        MidiEventView::Mmc(MmcCommand::Locate { .. }) => MMC_LOCATE_LENGTH,
        MidiEventView::Mmc(_) => MMC_START_STOP_LENGTH,
        MidiEventView::Other(_) => 0,
    }
}

/// The payload of an event that a master can send: a header without flags
/// and with the announced length, then the wire bytes of the event.
pub open spec fn master_payload(event: MidiEventView) -> Seq<u8> {
    seq![PayloadHeader::masked(0, announced_len(event) as u8).to_byte()] + build_midi_spec(event)
}

/// What a master makes of an event: raw bytes are refused, any other event
/// gives its payload.
pub open spec fn master_netsync_flow_spec(event: MidiEventView) -> Result<Seq<u8>, NetsyncError> {
    if event is Other {
        Err(NetsyncError::InvalidMasterEvent)
    } else {
        Ok(master_payload(event))
    }
}

/// What a slave makes of a payload. Under three bytes it is refused. The low
/// nibble of the first byte says how many of the bytes behind it to read as
/// one MIDI message, and whatever fails there is reported as one error.
pub open spec fn slave_netsync_flow_spec(buf: Seq<u8>) -> Result<MidiEventView, NetsyncError> {
    if buf.len() < MIN_PAYLOAD_SIZE {
        Err(NetsyncError::InvalidSlaveEvent)
    } else {
        match parse_midi_spec(
            buf.subrange(1, buf.len() as int),
            PayloadHeader::from_byte(buf[0]).len as nat,
        ) {
            Ok(event) => Ok(event),
            Err(_) => Err(NetsyncError::InvalidSlaveEvent),
        }
    }
}

/// What a slave reads from the payload that a master made of an event is the
/// [`wire_image`] of the event, unless a time field of a full frame or of a
/// locate command is the terminator byte.
pub proof fn lemma_master_then_slave(event: MidiEventView)
    requires
        !(event is Other),
    ensures
        master_netsync_flow_spec(event) is Ok,
        slave_netsync_flow_spec(master_payload(event)) == Ok::<MidiEventView, NetsyncError>(
            wire_image(event),
        ) <==> survives_wire(wire_image(event)),
        survives_wire(event) ==> slave_netsync_flow_spec(master_payload(event)) == Ok::<
            MidiEventView,
            NetsyncError,
        >(event),
{
    let payload = master_payload(event);
    let wire = build_midi_spec(event);
    lemma_wire_image(event);
    lemma_build_then_parse(wire_image(event));
    assert(payload.subrange(1, payload.len() as int) =~= wire);
    assert(PayloadHeader::from_byte(payload[0]).len == wire.len());
}

/// Turns an event into the payload to send.
///
/// Fails with `InvalidMasterEvent` exactly for raw bytes. Every other event
/// gives its header byte, whose low nibble is the length of the message,
/// followed by the wire bytes of the event.
pub fn master_netsync_flow(event: &MidiEvent) -> (r: Result<Vec<u8>, NetsyncError>)
    ensures
        match r {
            Ok(payload) => master_netsync_flow_spec(event@) == Ok::<Seq<u8>, NetsyncError>(
                payload@,
            ),
            Err(e) => master_netsync_flow_spec(event@) == Err::<Seq<u8>, NetsyncError>(e),
        },
{
    let header_len: usize = match event {
        MidiEvent::Mmc(MmcCommand::Play) => MMC_START_STOP_LENGTH,
        MidiEvent::Mmc(MmcCommand::Stop) => MMC_START_STOP_LENGTH,
        MidiEvent::Mmc(MmcCommand::Locate { .. }) => MMC_LOCATE_LENGTH,
        MidiEvent::MtcFull { .. } => MTC_FULL_FRAME_LENGTH,
        MidiEvent::MtcQuarter { .. } => MTC_QUARTER_FRAME_LENGTH,
        MidiEvent::Other(_) => {
            return Err(NetsyncError::InvalidMasterEvent);
        },
    };
    let midi_data: Vec<u8> = build_midi_list(event);
    let mut payload: Vec<u8> = Vec::with_capacity(1 + midi_data.len());
    let header = PayloadHeader::new(0x0, header_len as u8);
    let header_bytes: [u8; 1] = header.serialize();
    payload.push(header_bytes[0]);
    payload.extend_from_slice(midi_data.as_slice());
    assert(payload@ =~= master_payload(event@));
    Ok(payload)
}

/// Turns a payload that was received back into its event.
///
/// Succeeds exactly when the payload has three bytes or more and the length
/// in its header is neither zero nor more than the bytes behind the header;
/// the event is then the one that the MIDI parser reads there. Every failure
/// is `InvalidSlaveEvent`.
pub fn slave_netsync_flow(buf: &[u8]) -> (r: Result<MidiEvent, NetsyncError>)
    ensures
        match r {
            Ok(event) => slave_netsync_flow_spec(buf@) == Ok::<MidiEventView, NetsyncError>(
                event@,
            ),
            Err(e) => slave_netsync_flow_spec(buf@) == Err::<MidiEventView, NetsyncError>(e),
        },
        r is Ok <==> buf@.len() >= MIN_PAYLOAD_SIZE && 0 < buf@[0] % 16 <= buf@.len() - 1,
        r is Err ==> r == Err::<MidiEvent, NetsyncError>(NetsyncError::InvalidSlaveEvent),
{
    if buf.len() < MIN_PAYLOAD_SIZE {
        return Err(NetsyncError::InvalidSlaveEvent);
    }
    let header = match PayloadHeader::parse(slice_subrange(buf, 0, 1)) {
        Ok(header) => header,
        Err(_) => {
            return Err(NetsyncError::InvalidSlaveEvent);
        },
    };
    match parse_midi_list(slice_subrange(buf, 1, buf.len()), header.len as usize) {
        Ok(event) => Ok(event),
        Err(_) => Err(NetsyncError::InvalidSlaveEvent),
    }
}

} // verus!
