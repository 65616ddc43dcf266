//! Failure values shared by every layer of the codec.
use vstd::prelude::*;
use vstd::std_specs::convert::FromSpecImpl;
use vstd::string::StringExecFns;

verus! {

/// Failures of the byte-level parsers.
#[derive(Debug, PartialEq, Eq, Clone, Copy, Structural)]
pub enum ParseError {
    /// The buffer is empty or the requested length is zero.
    EmptyBuffer,
    /// The requested length exceeds what a buffer that is not empty holds.
    BufferTooSmall { requested: usize, available: usize },
    /// A payload header needs one byte and none was given.
    InsufficientHeaderData,
    /// Reserved: a byte that cannot occur at its position.
    InvalidMidiData { position: usize, byte: u8 },
}

/// Failures of the quarter-frame assembler.
#[derive(Debug, PartialEq, Eq, Clone, Copy, Structural)]
pub enum MtcError {
    /// Reserved: fewer than eight quarter frames.
    IncompleteFrame,
    /// A quarter frame does not carry the type of its position.
    InvalidFrameType,
    /// A value is over four bits, or the assembled timecode is out of range.
    InvalidValue,
}

/// Failures of the master and slave flows.
#[derive(Debug, PartialEq, Eq, Clone, Copy, Structural)]
pub enum NetsyncError {
    /// The event cannot be sent by a master.
    InvalidMasterEvent,
    /// The payload does not hold a message a slave can read.
    InvalidSlaveEvent,
}

/// Any failure of the codec, by the layer that raised it.
#[derive(Debug, PartialEq, Eq, Clone, Copy, Structural)]
pub enum Error {
    Parse(ParseError),
    Mtc(MtcError),
    NetsyncError(NetsyncError),
}

impl From<ParseError> for Error {
    fn from(err: ParseError) -> (r: Error) {
        Error::Parse(err)
    }
}

impl FromSpecImpl<ParseError> for Error {
    open spec fn obeys_from_spec() -> bool {
        true
    }

    open spec fn from_spec(err: ParseError) -> Error {
        Error::Parse(err)
    }
}

impl From<MtcError> for Error {
    fn from(err: MtcError) -> (r: Error) {
        Error::Mtc(err)
    }
}

impl FromSpecImpl<MtcError> for Error {
    open spec fn obeys_from_spec() -> bool {
        true
    }

    open spec fn from_spec(err: MtcError) -> Error {
        Error::Mtc(err)
    }
}

impl From<NetsyncError> for Error {
    fn from(err: NetsyncError) -> (r: Error) {
        Error::NetsyncError(err)
    }
}

impl FromSpecImpl<NetsyncError> for Error {
    open spec fn obeys_from_spec() -> bool {
        true
    }

    open spec fn from_spec(err: NetsyncError) -> Error {
        Error::NetsyncError(err)
    }
}

/// The character of a digit below sixteen, letters in upper case.
pub open spec fn digit_char(d: nat) -> char {
    if d == 0 {
        '0'
    } else if d == 1 {
        '1'
    } else if d == 2 {
        '2'
    } else if d == 3 {
        '3'
    } else if d == 4 {
        '4'
    } else if d == 5 {
        '5'
    } else if d == 6 {
        '6'
    } else if d == 7 {
        '7'
    } else if d == 8 {
        '8'
    } else if d == 9 {
        '9'
    } else if d == 10 {
        'A'
    } else if d == 11 {
        'B'
    } else if d == 12 {
        'C'
    } else if d == 13 {
        'D'
    } else if d == 14 {
        'E'
    } else {
        'F'
    }
}

/// A number in decimal, without leading zeros.
pub open spec fn decimal(n: nat) -> Seq<char>
    decreases n,
{
    if n < 10 {
        seq![digit_char(n)]
    } else {
        decimal(n / 10).push(digit_char(n % 10))
    }
}

/// A byte as two hexadecimal digits.
pub open spec fn hex_byte(b: u8) -> Seq<char> {
    seq![digit_char((b / 16) as nat), digit_char((b % 16) as nat)]
}

/// The text of one digit below sixteen.
fn digit_str(d: u8) -> (text: &'static str)
    requires
        d < 16,
    ensures
        text@ == seq![digit_char(d as nat)],
{
    proof {
        reveal_strlit("0");
        reveal_strlit("1");
        reveal_strlit("2");
        reveal_strlit("3");
        reveal_strlit("4");
        reveal_strlit("5");
        reveal_strlit("6");
        reveal_strlit("7");
        reveal_strlit("8");
        reveal_strlit("9");
        reveal_strlit("A");
        reveal_strlit("B");
        reveal_strlit("C");
        reveal_strlit("D");
        reveal_strlit("E");
        reveal_strlit("F");
    }
    let text = match d {
        0 => "0",
        1 => "1",
        2 => "2",
        3 => "3",
        4 => "4",
        5 => "5",
        6 => "6",
        7 => "7",
        8 => "8",
        9 => "9",
        10 => "A",
        11 => "B",
        12 => "C",
        13 => "D",
        14 => "E",
        _ => "F",
    };
    assert(text@ =~= seq![digit_char(d as nat)]);
    text
}

/// Appends a number in decimal.
fn append_decimal(text: &mut String, n: usize)
    ensures
        final(text)@ == old(text)@ + decimal(n as nat),
    decreases n,
{
    if n >= 10 {
        append_decimal(text, n / 10);
    }
    text.append(digit_str((n % 10) as u8));
}

/// Appends a byte as two hexadecimal digits.
fn append_hex_byte(text: &mut String, b: u8)
    ensures
        final(text)@ == old(text)@ + hex_byte(b),
{
    text.append(digit_str(b / 16));
    text.append(digit_str(b % 16));
}

impl ParseError {
    /// The text that describes the failure.
    pub open spec fn message_spec(self) -> Seq<char> {
        match self {
            ParseError::EmptyBuffer => "Cannot parse MIDI data from empty buffer"@,
            ParseError::BufferTooSmall { requested, available } => "Requested "@ + decimal(
                requested as nat,
            ) + " bytes but only "@ + decimal(available as nat) + " available in buffer"@,
            ParseError::InsufficientHeaderData => "Need at least 1 byte to parse payload header"@,
            ParseError::InvalidMidiData { position, byte } => "Invalid MIDI data at position "@
                + decimal(position as nat) + ": 0x"@ + hex_byte(byte),
        }
    }

    /// Describes the failure in words, with its numbers in decimal and its
    /// byte in hexadecimal.
    pub fn message(&self) -> (text: String)
        ensures
            text@ == self.message_spec(),
    {
        match *self {
            ParseError::EmptyBuffer => String::from_str("Cannot parse MIDI data from empty buffer"),
            ParseError::BufferTooSmall { requested, available } => {
                let mut text = String::from_str("Requested ");
                append_decimal(&mut text, requested);
                text.append(" bytes but only ");
                append_decimal(&mut text, available);
                text.append(" available in buffer");
                text
            },
            ParseError::InsufficientHeaderData => String::from_str(
                "Need at least 1 byte to parse payload header",
            ),
            ParseError::InvalidMidiData { position, byte } => {
                let mut text = String::from_str("Invalid MIDI data at position ");
                append_decimal(&mut text, position);
                text.append(": 0x");
                append_hex_byte(&mut text, byte);
                text
            },
        }
    }
}

impl MtcError {
    /// The text that describes the failure.
    pub open spec fn message_spec(self) -> Seq<char> {
        match self {
            MtcError::IncompleteFrame => "Incomplete MTC frame: need exactly 8 quarter frames"@,
            MtcError::InvalidFrameType => "Invalid frame type: must be 0-7"@,
            MtcError::InvalidValue =>
                "Invalid value: exceeds valid range or creates invalid timecode"@,
        }
    }

    /// Describes the failure in words.
    pub fn message(&self) -> (text: String)
        ensures
            text@ == self.message_spec(),
    {
        match *self {
            MtcError::IncompleteFrame => String::from_str(
                "Incomplete MTC frame: need exactly 8 quarter frames",
            ),
            MtcError::InvalidFrameType => String::from_str("Invalid frame type: must be 0-7"),
            MtcError::InvalidValue => String::from_str(
                "Invalid value: exceeds valid range or creates invalid timecode",
            ),
        }
    }
}

impl NetsyncError {
    /// The text that names the failure.
    pub open spec fn message_spec(self) -> Seq<char> {
        match self {
            NetsyncError::InvalidMasterEvent => "InvalidMasterEvent"@,
            NetsyncError::InvalidSlaveEvent => "InvalidSlaveEvent"@,
        }
    }

    /// Names the failure.
    pub fn message(&self) -> (text: String)
        ensures
            text@ == self.message_spec(),
    {
        match *self {
            NetsyncError::InvalidMasterEvent => String::from_str("InvalidMasterEvent"),
            NetsyncError::InvalidSlaveEvent => String::from_str("InvalidSlaveEvent"),
        }
    }
}

impl Error {
    /// The text that describes the failure: the layer, then the text of the
    /// failure itself.
    pub open spec fn message_spec(self) -> Seq<char> {
        match self {
            Error::Parse(e) => "Parse error: "@ + e.message_spec(),
            Error::Mtc(e) => "MTC error: "@ + e.message_spec(),
            Error::NetsyncError(e) => "Netsync flow error: "@ + e.message_spec(),
        }
    }

    /// Describes the failure in words.
    pub fn message(&self) -> (text: String)
        ensures
            text@ == self.message_spec(),
    {
        match *self {
            Error::Parse(e) => {
                let detail = e.message();
                String::from_str("Parse error: ").concat(detail.as_str())
            },
            Error::Mtc(e) => {
                let detail = e.message();
                String::from_str("MTC error: ").concat(detail.as_str())
            },
            Error::NetsyncError(e) => {
                let detail = e.message();
                String::from_str("Netsync flow error: ").concat(detail.as_str())
            },
        }
    }
}

} // verus!
