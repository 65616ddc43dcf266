//! Conversion between a time in microseconds, an `HH:MM:SS:FF` timecode at
//! 30 frames per second without drop frames, and the eight quarter frames
//! that carry such a timecode.
//!
//! | Quarter frame | Carries |
//! |---|---|
//! | 0, 1 | frames, low nibble and bit 4 |
//! | 2, 3 | seconds, low nibble and bits 4 and 5 |
//! | 4, 5 | minutes, low nibble and bits 4 and 5 |
//! | 6 | hours, low nibble |
//! | 7 | hours, bit 4, below the two bits of the frame rate |
use crate::error::MtcError;
use vstd::prelude::*;

verus! {

/// A timecode. Hours below 24, minutes and seconds below 60 and frames below
/// 30 make it a time of day; the type itself holds any bytes.
#[derive(Debug, Clone, Copy, PartialEq, Eq, Structural)]
pub struct MtcFullFrame {
    pub hours: u8,
    pub minutes: u8,
    pub seconds: u8,
    pub frames: u8,
}

/// One quarter frame: its place in the sequence of eight, and four bits of
/// the timecode.
#[derive(Debug, Clone, Copy, PartialEq, Eq, Structural)]
pub struct MtcQuarterFrame {
    pub frame_type: u8,
    pub value: u8,
}

/// A time in microseconds.
pub type VlcTickT = u64;

/// Frames in a second.
pub const SMPTE_30_FPS: u64 = 30;

/// Microseconds in a second.
pub const VLC_TICK_FROM_SEC: u64 = 1_000_000;

/// Frames in a day, where the hours of a timecode start again from zero.
pub const FRAMES_PER_DAY: u64 = 2_592_000;

/// The two bits that announce 30 frames per second without drop frames.
pub const RATE_30_FPS_NON_DROP: u8 = 0x03;

impl MtcFullFrame {
    /// The timecode is a time of day.
    pub open spec fn is_valid(self) -> bool {
        self.hours <= 23 && self.minutes <= 59 && self.seconds <= 59 && self.frames <= 29
    }

    /// Number of frames from `00:00:00:00` up to the timecode.
    pub open spec fn frame_number(self) -> nat {
        (self.hours * 3600 * 30 + self.minutes * 60 * 30 + self.seconds * 30 + self.frames) as nat
    }
}

/// The frame nearest to the time `us`: thirty frames to the second, a time
/// half way between two frames going to the later one.
pub open spec fn nearest_frame(us: u64) -> nat {
    ((us * 30 + 500_000) / 1_000_000) as nat
}

/// The timecode of frame `n`, the hours starting again from zero each day.
pub open spec fn timecode_of_frame(n: nat) -> MtcFullFrame {
    MtcFullFrame {
        hours: ((n / 30 / 3600) % 24) as u8,
        minutes: ((n / 30 / 60) % 60) as u8,
        seconds: ((n / 30) % 60) as u8,
        frames: (n % 30) as u8,
    }
}

/// The timecode of the time `us`.
pub open spec fn us_to_smpte_spec(us: u64) -> MtcFullFrame {
    timecode_of_frame(nearest_frame(us))
}

/// The time at which the frame of a timecode begins, in whole microseconds.
pub open spec fn smpte_to_us_spec(smpte: MtcFullFrame) -> nat {
    smpte.frame_number() * 1_000_000 / 30
}

/// The eight quarter frames of a timecode. Of the frames and the hours five
/// bits are sent, of the seconds and the minutes six; the last quarter frame
/// carries the frame rate above bit 4 of the hours.
pub open spec fn smpte_to_quarter_frames_spec(smpte: MtcFullFrame) -> Seq<MtcQuarterFrame> {
    seq![
        MtcQuarterFrame { frame_type: 0, value: (smpte.frames % 16) as u8 },
        MtcQuarterFrame { frame_type: 1, value: ((smpte.frames / 16) % 2) as u8 },
        MtcQuarterFrame { frame_type: 2, value: (smpte.seconds % 16) as u8 },
        MtcQuarterFrame { frame_type: 3, value: ((smpte.seconds / 16) % 4) as u8 },
        MtcQuarterFrame { frame_type: 4, value: (smpte.minutes % 16) as u8 },
        MtcQuarterFrame { frame_type: 5, value: ((smpte.minutes / 16) % 4) as u8 },
        MtcQuarterFrame { frame_type: 6, value: (smpte.hours % 16) as u8 },
        MtcQuarterFrame {
            frame_type: 7,
            value: ((smpte.hours / 16) % 2 + RATE_30_FPS_NON_DROP * 2) as u8,
        },
    ]
}

/// The quarter frames before place `i` each carry the type of their place
/// and a value of four bits.
pub open spec fn in_sequence_before(frames: Seq<MtcQuarterFrame>, i: int) -> bool {
    forall|j: int| 0 <= j < i ==> frames[j].frame_type == j && frames[j].value <= 15
}

/// Going through the quarter frames in order, the first that is at fault
/// carries a type other than that of its place.
pub open spec fn first_fault_is_frame_type(frames: Seq<MtcQuarterFrame>) -> bool {
    exists|i: int| 0 <= i < 8 && in_sequence_before(frames, i) && frames[i].frame_type != i
}

/// Going through the quarter frames in order, the first that is at fault
/// carries the type of its place and a value of more than four bits.
pub open spec fn first_fault_is_value(frames: Seq<MtcQuarterFrame>) -> bool {
    exists|i: int|
        0 <= i < 8 && in_sequence_before(frames, i) && frames[i].frame_type == i
            && frames[i].value > 15
}

/// Some quarter frame carries a type other than that of its place.
pub open spec fn has_frame_type_fault(frames: Seq<MtcQuarterFrame>) -> bool {
    exists|i: int| 0 <= i < 8 && frames[i].frame_type != i
}

/// Some quarter frame carries a value of more than four bits.
pub open spec fn has_value_fault(frames: Seq<MtcQuarterFrame>) -> bool {
    exists|i: int| 0 <= i < 8 && frames[i].value > 15
}

/// The timecode that eight values of four bits each add up to.
pub open spec fn assembled_timecode(frames: Seq<MtcQuarterFrame>) -> MtcFullFrame {
    MtcFullFrame {
        hours: (frames[6].value + (frames[7].value % 2) * 16) as u8,
        minutes: (frames[4].value + (frames[5].value % 4) * 16) as u8,
        seconds: (frames[2].value + (frames[3].value % 4) * 16) as u8,
        frames: (frames[0].value + (frames[1].value % 2) * 16) as u8,
    }
}

/// The frame rate that the last quarter frame announces.
pub open spec fn announced_rate(frames: Seq<MtcQuarterFrame>) -> u8 {
    (frames[7].value / 2) % 4
}

/// The outcome of putting eight quarter frames together.
///
/// The quarter frames are gone through in order, and the first at fault
/// decides: a wrong type before a value that is too large. Eight sound
/// quarter frames give their timecode if it is a time of day and the frame
/// rate is the one supported.
pub open spec fn quarter_frames_to_smpte_spec(frames: Seq<MtcQuarterFrame>) -> Result<
    MtcFullFrame,
    MtcError,
> {
    if first_fault_is_frame_type(frames) {
        Err(MtcError::InvalidFrameType)
    } else if has_value_fault(frames) {
        Err(MtcError::InvalidValue)
    } else if !assembled_timecode(frames).is_valid() {
        Err(MtcError::InvalidValue)
    } else if announced_rate(frames) != RATE_30_FPS_NON_DROP {
        Err(MtcError::InvalidValue)
    } else {
        Ok(assembled_timecode(frames))
    }
}

/// Splitting a timecode into quarter frames and putting them together again
/// gives the timecode back exactly when it is a time of day.
pub proof fn lemma_quarter_frames_round_trip(smpte: MtcFullFrame)
    ensures
        quarter_frames_to_smpte_spec(smpte_to_quarter_frames_spec(smpte)) == Ok::<
            MtcFullFrame,
            MtcError,
        >(smpte) <==> smpte.is_valid(),
{
    let quarters = smpte_to_quarter_frames_spec(smpte);
    assert(!has_frame_type_fault(quarters));
    assert(!first_fault_is_frame_type(quarters));
    assert(!has_value_fault(quarters));
}

/// Which error eight quarter frames give, by what is wrong with them.
///
/// Putting them together fails exactly when a type or a value is at fault,
/// the timecode is no time of day, or the frame rate is not the one
/// supported. With a type at fault the error is `InvalidFrameType`, unless a
/// value at fault comes before every wrong type; with a value at fault it is
/// `InvalidValue`, unless a wrong type comes before it or with it. Eight
/// sound quarter frames whose timecode is out of range or whose frame rate
/// is another give `InvalidValue`. No input is reported as incomplete.
pub proof fn lemma_quarter_frame_errors(frames: Seq<MtcQuarterFrame>)
    ensures
        quarter_frames_to_smpte_spec(frames) is Err <==> {
            ||| has_frame_type_fault(frames)
            ||| has_value_fault(frames)
            ||| !assembled_timecode(frames).is_valid()
            ||| announced_rate(frames) != RATE_30_FPS_NON_DROP
        },
        has_frame_type_fault(frames) ==> (quarter_frames_to_smpte_spec(frames) == Err::<
            MtcFullFrame,
            MtcError,
        >(MtcError::InvalidFrameType) <==> !first_fault_is_value(frames)),
        has_value_fault(frames) ==> (quarter_frames_to_smpte_spec(frames) == Err::<
            MtcFullFrame,
            MtcError,
        >(MtcError::InvalidValue) <==> !first_fault_is_frame_type(frames)),
        !has_frame_type_fault(frames) && !has_value_fault(frames) && (!assembled_timecode(
            frames,
        ).is_valid() || announced_rate(frames) != RATE_30_FPS_NON_DROP)
            ==> quarter_frames_to_smpte_spec(frames) == Err::<MtcFullFrame, MtcError>(
            MtcError::InvalidValue,
        ),
        quarter_frames_to_smpte_spec(frames) != Err::<MtcFullFrame, MtcError>(
            MtcError::IncompleteFrame,
        ),
{
    if has_frame_type_fault(frames) {
        let k = choose|i: int| 0 <= i < 8 && frames[i].frame_type != i;
        lemma_first_fault(frames, k);
    }
    if has_value_fault(frames) {
        let k = choose|i: int| 0 <= i < 8 && frames[i].value > 15;
        lemma_first_fault(frames, k);
    }
    if first_fault_is_frame_type(frames) && first_fault_is_value(frames) {
        let a = choose|i: int|
            0 <= i < 8 && in_sequence_before(frames, i) && frames[i].frame_type != i;
        let b = choose|i: int|
            0 <= i < 8 && in_sequence_before(frames, i) && frames[i].frame_type == i
                && frames[i].value > 15;
        if a < b {
            assert(frames[a].frame_type == a);
        } else if b < a {
            assert(frames[b].value <= 15);
        }
    }
}

/// Where some quarter frame is at fault, there is a first one, and either
/// its type or its value is what is wrong with it.
proof fn lemma_first_fault(frames: Seq<MtcQuarterFrame>, k: int)
    requires
        0 <= k < 8,
        frames[k].frame_type != k || frames[k].value > 15,
    ensures
        first_fault_is_frame_type(frames) || first_fault_is_value(frames),
    decreases k,
{
    if !in_sequence_before(frames, k) {
        let j = choose|j: int| 0 <= j < k && !(frames[j].frame_type == j && frames[j].value <= 15);
        lemma_first_fault(frames, j);
    }
}

/// The quarter frames in bits: each low nibble by masking, each high part by
/// shifting four places and masking, and the frame rate two bits above bit 4
/// of the hours.
pub proof fn lemma_quarter_frame_bits(smpte: MtcFullFrame)
    ensures
        smpte_to_quarter_frames_spec(smpte) == seq![
            MtcQuarterFrame { frame_type: 0, value: smpte.frames & 0x0F },
            MtcQuarterFrame { frame_type: 1, value: (smpte.frames >> 4) & 0x01 },
            MtcQuarterFrame { frame_type: 2, value: smpte.seconds & 0x0F },
            MtcQuarterFrame { frame_type: 3, value: (smpte.seconds >> 4) & 0x03 },
            MtcQuarterFrame { frame_type: 4, value: smpte.minutes & 0x0F },
            MtcQuarterFrame { frame_type: 5, value: (smpte.minutes >> 4) & 0x03 },
            MtcQuarterFrame { frame_type: 6, value: smpte.hours & 0x0F },
            MtcQuarterFrame {
                frame_type: 7,
                value: ((smpte.hours >> 4) & 0x01) | (RATE_30_FPS_NON_DROP << 1),
            },
        ],
{
    let f: u8 = smpte.frames;
    let s: u8 = smpte.seconds;
    let m: u8 = smpte.minutes;
    let h: u8 = smpte.hours;
    assert(f & 0x0F == f % 16 && (f >> 4) & 0x01 == (f / 16) % 2) by (bit_vector);
    assert(s & 0x0F == s % 16 && (s >> 4) & 0x03 == (s / 16) % 4) by (bit_vector);
    assert(m & 0x0F == m % 16 && (m >> 4) & 0x03 == (m / 16) % 4) by (bit_vector);
    assert(h & 0x0F == h % 16 && ((h >> 4) & 0x01) | (0x03u8 << 1) == (h / 16) % 2 + 6)
        by (bit_vector);
}

/// The timecode and the frame rate of eight values of four bits, in bits:
/// each low value stands below what is kept of the next, shifted four
/// places, and the frame rate is read from bits 1 and 2 of the last.
pub proof fn lemma_assembled_timecode_bits(frames: Seq<MtcQuarterFrame>)
    requires
        !has_value_fault(frames),
    ensures
        assembled_timecode(frames) == (MtcFullFrame {
            hours: frames[6].value | ((frames[7].value & 0x01) << 4),
            minutes: frames[4].value | ((frames[5].value & 0x03) << 4),
            seconds: frames[2].value | ((frames[3].value & 0x03) << 4),
            frames: frames[0].value | ((frames[1].value & 0x01) << 4),
        }),
        announced_rate(frames) == (frames[7].value >> 1) & 0x03,
{
    let v0: u8 = frames[0].value;
    let v1: u8 = frames[1].value;
    let v2: u8 = frames[2].value;
    let v3: u8 = frames[3].value;
    let v4: u8 = frames[4].value;
    let v5: u8 = frames[5].value;
    let v6: u8 = frames[6].value;
    let v7: u8 = frames[7].value;
    assert(v0 <= 15 && v2 <= 15 && v4 <= 15 && v6 <= 15);
    assert(v0 <= 15 ==> v0 | ((v1 & 0x01) << 4) == v0 + (v1 % 2) * 16) by (bit_vector);
    assert(v2 <= 15 ==> v2 | ((v3 & 0x03) << 4) == v2 + (v3 % 4) * 16) by (bit_vector);
    assert(v4 <= 15 ==> v4 | ((v5 & 0x03) << 4) == v4 + (v5 % 4) * 16) by (bit_vector);
    assert(v6 <= 15 ==> v6 | ((v7 & 0x01) << 4) == v6 + (v7 % 2) * 16) by (bit_vector);
    assert((v7 >> 1) & 0x03 == (v7 / 2) % 4) by (bit_vector);
}

/// Timecode of a time and time of that timecode differ by at most half a
/// frame, and so by less than the 33 333 microseconds of a whole one, for
/// every time whose nearest frame lies within the first day; from then on
/// the hours have started again from zero and the two are a day or more
/// apart.
pub proof fn lemma_time_round_trip(us: u64)
    ensures
        nearest_frame(us) < FRAMES_PER_DAY ==> -16_667 <= smpte_to_us_spec(us_to_smpte_spec(us))
            - us <= 16_667,
        nearest_frame(us) < FRAMES_PER_DAY <==> -33_333 <= smpte_to_us_spec(us_to_smpte_spec(us))
            - us <= 33_333,
{
    let n: int = nearest_frame(us) as int;
    let scaled: int = us * 30 + 500_000;
    assert(n == scaled / 1_000_000);
    assert(n * 1_000_000 <= scaled < n * 1_000_000 + 1_000_000);
    lemma_frame_number_of_timecode(n as nat);
    let k: int = timecode_of_frame(n as nat).frame_number() as int;
    assert(k == n % 2_592_000);
    let back: int = smpte_to_us_spec(us_to_smpte_spec(us)) as int;
    assert(back == k * 1_000_000 / 30);
    assert(back * 30 <= k * 1_000_000 < back * 30 + 30);
    if n < 2_592_000 {
        assert(k == n);
        assert((back - us) * 30 <= 500_000);
        assert((us - back) * 30 < 500_030);
    } else {
        assert(k <= n - 2_592_000);
        assert((us - back) * 30 >= 2_592_000 * 1_000_000 - 500_000);
    }
}

/// The timecode of a frame counts that frame's place within its day.
pub proof fn lemma_frame_number_of_timecode(n: nat)
    ensures
        timecode_of_frame(n).is_valid(),
        timecode_of_frame(n).frame_number() == n % (FRAMES_PER_DAY as nat),
{
    let seconds: int = n as int / 30;
    let minutes: int = seconds / 60;
    let hours: int = minutes / 60;
    let days: int = hours / 24;
    assert(n == seconds * 30 + n % 30);
    assert(seconds == minutes * 60 + seconds % 60);
    assert(minutes == hours * 60 + minutes % 60);
    assert(hours == days * 24 + hours % 24);
    assert(seconds / 3600 == hours);
    let place: int = (hours % 24) * 108_000 + (minutes % 60) * 1_800 + (seconds % 60) * 30 + n
        % 30;
    assert(0 <= place < 2_592_000);
    assert(n == days * 2_592_000 + place);
    assert(n as int % 2_592_000 == place);
    assert(timecode_of_frame(n).frame_number() == place);
}

/// A timecode that is a time of day is the timecode of its own frame.
pub proof fn lemma_timecode_of_frame_number(smpte: MtcFullFrame)
    requires
        smpte.is_valid(),
    ensures
        smpte.frame_number() < FRAMES_PER_DAY,
        timecode_of_frame(smpte.frame_number()) == smpte,
{
    let h: int = smpte.hours as int;
    let m: int = smpte.minutes as int;
    let s: int = smpte.seconds as int;
    let f: int = smpte.frames as int;
    let n: int = smpte.frame_number() as int;
    assert(n == h * 108_000 + m * 1_800 + s * 30 + f);
    let seconds: int = h * 3_600 + m * 60 + s;
    assert(n == seconds * 30 + f);
    assert(n / 30 == seconds && n % 30 == f);
    let minutes: int = h * 60 + m;
    assert(seconds == minutes * 60 + s);
    assert(seconds / 60 == minutes && seconds % 60 == s);
    assert(minutes / 60 == h && minutes % 60 == m);
    assert(seconds == h * 3_600 + (m * 60 + s));
    assert(seconds / 3_600 == h);
    assert(h % 24 == h);
}

/// The frame nearest to the time at which a frame begins is that frame.
pub proof fn lemma_nearest_frame_of_frame_start(n: nat)
    requires
        n * 1_000_000 / 30 <= u64::MAX,
    ensures
        nearest_frame((n * 1_000_000 / 30) as u64) == n,
{
    let us: int = n as int * 1_000_000 / 30;
    assert(us * 30 <= n * 1_000_000 < us * 30 + 30);
    let scaled: int = us * 30 + 500_000;
    assert(n * 1_000_000 <= scaled < n * 1_000_000 + 1_000_000);
    assert(scaled / 1_000_000 == n);
}

/// The time of a timecode that is a time of day has that timecode.
pub proof fn lemma_timecode_round_trip(smpte: MtcFullFrame)
    requires
        smpte.is_valid(),
    ensures
        smpte_to_us_spec(smpte) <= u64::MAX,
        us_to_smpte_spec(smpte_to_us_spec(smpte) as u64) == smpte,
{
    lemma_timecode_of_frame_number(smpte);
    let n = smpte.frame_number();
    assert(n * 1_000_000 / 30 <= n * 1_000_000);
    lemma_nearest_frame_of_frame_start(n);
}

/// The timecode of the time `us`: that of the nearest frame, which is always
/// a time of day. The rounding is done in whole numbers and is exact for
/// every `us`.
pub fn us_to_smpte(us: VlcTickT) -> (smpte: MtcFullFrame)
    ensures
        smpte == us_to_smpte_spec(us),
        smpte.is_valid(),
{
    let framenum: u128 = (us as u128 * 30 + 500_000) / 1_000_000;
    let frames: u8 = (framenum % 30) as u8;
    let seconds: u8 = ((framenum / 30) % 60) as u8;
    let minutes: u8 = ((framenum / 30 / 60) % 60) as u8;
    let hours: u8 = ((framenum / 30 / 3600) % 24) as u8;
    MtcFullFrame { hours, minutes, seconds, frames }
}

/// The time at which the frame of a timecode begins.
pub fn smpte_to_us(smpte: &MtcFullFrame) -> (us: VlcTickT)
    ensures
        us == smpte_to_us_spec(*smpte),
{
    let framenum: u64 = smpte.hours as u64 * 3600 * SMPTE_30_FPS + smpte.minutes as u64 * 60
        * SMPTE_30_FPS + smpte.seconds as u64 * SMPTE_30_FPS + smpte.frames as u64;
    (framenum * VLC_TICK_FROM_SEC) / SMPTE_30_FPS
}

/// Splits a timecode into its eight quarter frames.
pub fn smpte_to_quarter_frames(smpte: &MtcFullFrame) -> (quarters: [MtcQuarterFrame; 8])
    ensures
        quarters@ == smpte_to_quarter_frames_spec(*smpte),
{
    let f: u8 = smpte.frames;
    let s: u8 = smpte.seconds;
    let m: u8 = smpte.minutes;
    let h: u8 = smpte.hours;
    proof {
        lemma_quarter_frame_bits(*smpte);
    }
    let quarters: [MtcQuarterFrame; 8] = [
        MtcQuarterFrame { frame_type: 0, value: f & 0x0F },
        MtcQuarterFrame { frame_type: 1, value: (f >> 4) & 0x01 },
        MtcQuarterFrame { frame_type: 2, value: s & 0x0F },
        MtcQuarterFrame { frame_type: 3, value: (s >> 4) & 0x03 },
        MtcQuarterFrame { frame_type: 4, value: m & 0x0F },
        MtcQuarterFrame { frame_type: 5, value: (m >> 4) & 0x03 },
        MtcQuarterFrame { frame_type: 6, value: h & 0x0F },
        MtcQuarterFrame { frame_type: 7, value: ((h >> 4) & 0x01) | (RATE_30_FPS_NON_DROP << 1) },
    ];
    assert(quarters@ =~= smpte_to_quarter_frames_spec(*smpte));
    quarters
}

/// Puts eight quarter frames together into their timecode.
///
/// Fails with `InvalidFrameType` where the first quarter frame at fault
/// carries a wrong type, and with `InvalidValue` where it carries a value
/// over four bits, where the timecode is no time of day, or where the frame
/// rate is not 30 frames per second without drop frames.
pub fn quarter_frames_to_smpte(frames: &[MtcQuarterFrame; 8]) -> (r: Result<
    MtcFullFrame,
    MtcError,
>)
    ensures
        r == quarter_frames_to_smpte_spec(frames@),
{
    let mut i: usize = 0;
    while i < 8
        invariant
            i <= 8,
            in_sequence_before(frames@, i as int),
        decreases 8 - i,
    {
        let frame: MtcQuarterFrame = frames[i];
        if frame.frame_type != i as u8 {
            return Err(MtcError::InvalidFrameType);
        }
        if frame.value > 15 {
            assert(!first_fault_is_frame_type(frames@));
            return Err(MtcError::InvalidValue);
        }
        i += 1;
    }
    assert(!first_fault_is_frame_type(frames@));
    assert(!has_value_fault(frames@));
    let v0: u8 = frames[0].value;
    let v1: u8 = frames[1].value;
    let v2: u8 = frames[2].value;
    let v3: u8 = frames[3].value;
    let v4: u8 = frames[4].value;
    let v5: u8 = frames[5].value;
    let v6: u8 = frames[6].value;
    let v7: u8 = frames[7].value;
    proof {
        lemma_assembled_timecode_bits(frames@);
    }
    let frames_val: u8 = v0 | ((v1 & 0x01) << 4);
    let seconds_val: u8 = v2 | ((v3 & 0x03) << 4);
    let minutes_val: u8 = v4 | ((v5 & 0x03) << 4);
    let hours_val: u8 = v6 | ((v7 & 0x01) << 4);

    if frames_val > 29 {
        return Err(MtcError::InvalidValue);
    }
    if seconds_val > 59 {
        return Err(MtcError::InvalidValue);
    }
    if minutes_val > 59 {
        return Err(MtcError::InvalidValue);
    }
    if hours_val > 23 {
        return Err(MtcError::InvalidValue);
    }
    let frame_rate_type: u8 = (v7 >> 1) & 0x03;
    if frame_rate_type != RATE_30_FPS_NON_DROP {
        return Err(MtcError::InvalidValue);
    }
    Ok(MtcFullFrame { hours: hours_val, minutes: minutes_val, seconds: seconds_val, frames: frames_val })
}

} // verus!
