//! The doorbell protocol: the wire form of commands and responses, and the
//! transaction that carries one command to the resident firmware and brings
//! its response back.

use vstd::prelude::*;
use crate::doorbell::Timing;
use crate::job::{Job, JobTurn, JobView, Task};
use crate::xflash::{lookup_keeps_the_identity, supported_hw, Xflash, XflashId};

verus! {

/// Kind word of a plain acknowledgement.
pub const RSP_OK: u32 = 0xD0;

/// Kind word of a flash identity report.
pub const RSP_XFLASH_INFO: u32 = 0xD1;

/// The four bytes of a word as the target stores them: least significant
/// first.
pub open spec fn le_bytes(word: u32) -> Seq<u8> {
    seq![
        (word % 256) as u8,
        (word / 0x100 % 256) as u8,
        (word / 0x1_0000 % 256) as u8,
        (word / 0x100_0000) as u8,
    ]
}

/// The sixteen bytes of four mailbox words in the target's memory.
pub open spec fn wire_bytes(words: [u32; 4]) -> Seq<u8> {
    le_bytes(words[0]) + le_bytes(words[1]) + le_bytes(words[2]) + le_bytes(words[3])
}

/// The bytes of a word determine it, whatever the byte order of the host.
pub proof fn le_bytes_determine_the_word(word: u32)
    ensures
        le_bytes(word).len() == 4,
        word == le_bytes(word)[0] + 0x100 * le_bytes(word)[1] + 0x1_0000 * le_bytes(word)[2]
            + 0x100_0000 * le_bytes(word)[3],
{
}

fn push_le_bytes(bytes: &mut Vec<u8>, word: u32)
    ensures
        final(bytes)@ == old(bytes)@ + le_bytes(word),
{
    bytes.push((word % 256) as u8);
    bytes.push((word / 0x100 % 256) as u8);
    bytes.push((word / 0x1_0000 % 256) as u8);
    bytes.push((word / 0x100_0000) as u8);
    assert(bytes@ =~= old(bytes)@ + le_bytes(word));
}

/// A command for the resident firmware.
#[derive(Clone, Copy, Debug, PartialEq, Eq, Structural)]
pub enum Command {
    GetXflashInfo,
    SectorErase { offset: u32, length: u32 },
    MassErase,
    ReadBlock { offset: u32, length: u32 },
    WriteBlock { offset: u32, length: u32 },
}

/// A response of the resident firmware.
#[derive(Clone, Copy, Debug, PartialEq, Eq)]
pub enum Response {
    /// A plain acknowledgement.
    Ack,
    XflashInfo(Xflash),
}

/// Why a transaction or an operation built on it failed.
#[derive(Clone, Copy, Debug, PartialEq, Eq)]
pub enum Error {
    /// The debug backend could not carry out a request, or answered it with
    /// a reply of the wrong shape.
    Port,
    /// The firmware did not take the command, or did not answer it, before
    /// the deadline.
    Timeout,
    /// The response words match no known response.
    InvalidResponse { bytes: [u32; 4] },
    /// The response is well formed but not the one that the command calls for.
    UnexpectedResponse { response: Response },
}

impl Command {
    /// The kind code, which doubles as the mailbox's pending flag.
    pub open spec fn spec_kind(self) -> u32 {
        match self {
            Command::GetXflashInfo => 0xC0,
            Command::SectorErase { .. } => 0xC1,
            Command::MassErase => 0xC2,
            Command::ReadBlock { .. } => 0xC3,
            Command::WriteBlock { .. } => 0xC4,
        }
    }

    /// The four mailbox words: kind, two arguments, and a zero. Arguments
    /// that a command does not have are zero.
    pub open spec fn spec_to_bytes(self) -> [u32; 4] {
        match self {
            Command::GetXflashInfo => [0xC0u32, 0u32, 0u32, 0u32],
            Command::SectorErase { offset, length } => [0xC1u32, offset, length, 0u32],
            Command::MassErase => [0xC2u32, 0u32, 0u32, 0u32],
            Command::ReadBlock { offset, length } => [0xC3u32, offset, length, 0u32],
            Command::WriteBlock { offset, length } => [0xC4u32, offset, length, 0u32],
        }
    }

    /// Whether the command is answered by a flash identity report rather
    /// than a plain acknowledgement.
    pub open spec fn spec_expects_info(self) -> bool {
        self is GetXflashInfo
    }

    /// The kind code of the command, which is never zero.
    pub fn kind(&self) -> (kind: u32)
        ensures
            kind == self.spec_kind(),
            kind == self.spec_to_bytes()[0],
            kind != 0,
    {
        match self {
            Command::GetXflashInfo => 0xC0,
            Command::SectorErase { .. } => 0xC1,
            Command::MassErase => 0xC2,
            Command::ReadBlock { .. } => 0xC3,
            Command::WriteBlock { .. } => 0xC4,
        }
    }

    /// Encodes the command as its four mailbox words.
    pub fn to_bytes(&self) -> (bytes: [u32; 4])
        ensures
            bytes == self.spec_to_bytes(),
    {
        match *self {
            Command::GetXflashInfo => [0xC0, 0, 0, 0],
            Command::SectorErase { offset, length } => [0xC1, offset, length, 0],
            Command::MassErase => [0xC2, 0, 0, 0],
            Command::ReadBlock { offset, length } => [0xC3, offset, length, 0],
            Command::WriteBlock { offset, length } => [0xC4, offset, length, 0],
        }
    }

    /// Encodes the command as the sixteen bytes that the mailbox holds,
    /// each word least significant byte first on every host.
    pub fn to_le_bytes(&self) -> (bytes: Vec<u8>)
        ensures
            bytes@ == wire_bytes(self.spec_to_bytes()),
            bytes@.len() == 16,
    {
        let words = self.to_bytes();
        let mut bytes: Vec<u8> = Vec::new();
        push_le_bytes(&mut bytes, words[0]);
        push_le_bytes(&mut bytes, words[1]);
        push_le_bytes(&mut bytes, words[2]);
        push_le_bytes(&mut bytes, words[3]);
        assert(bytes@ =~= wire_bytes(self.spec_to_bytes()));
        bytes
    }

    /// The encoding loses nothing: two commands with the same words are the
    /// same command.
    pub proof fn encoding_is_injective(a: Command, b: Command)
        requires
            a.spec_to_bytes() == b.spec_to_bytes(),
        ensures
            a == b,
    {
        let x = a.spec_to_bytes();
        let y = b.spec_to_bytes();
        assert(x[0] == y[0] && x[1] == y[1] && x[2] == y[2]);
    }

    /// Every encoding starts with a nonzero kind word and ends with a zero.
    pub proof fn encoding_shape(c: Command)
        ensures
            c.spec_to_bytes()[0] == c.spec_kind(),
            c.spec_kind() != 0,
            c.spec_to_bytes()[3] == 0,
    {
    }
}

impl Response {
    /// The four mailbox words by which the firmware posts this response.
    pub open spec fn spec_to_bytes(self) -> [u32; 4] {
        match self {
            Response::Ack => [0xD0u32, 0u32, 0u32, 0u32],
            Response::XflashInfo(xflash) => [
                0xD1u32,
                xflash.spec_id().mid,
                xflash.spec_id().did,
                0u32,
            ],
        }
    }

    /// What four mailbox words mean. An acknowledgement carries three zero
    /// words; an identity report carries the manufacturer and device ids and
    /// a zero; everything else is refused with the words themselves.
    pub open spec fn spec_from_bytes(bytes: [u32; 4]) -> Result<Response, Error> {
        if bytes[0] == 0xD0 && bytes[1] == 0 && bytes[2] == 0 && bytes[3] == 0 {
            Ok(Response::Ack)
        } else if bytes[0] == 0xD1 && bytes[3] == 0 {
            Ok(Response::XflashInfo(Xflash::spec_from_id(bytes[1], bytes[2])))
        } else {
            Err(Error::InvalidResponse { bytes })
        }
    }

    /// Decodes the four response words of the mailbox.
    pub fn from_bytes(bytes: &[u32; 4]) -> (decoded: Result<Response, Error>)
        ensures
            decoded == Self::spec_from_bytes(*bytes),
    {
        if bytes[0] == RSP_OK && bytes[1] == 0 && bytes[2] == 0 && bytes[3] == 0 {
            Ok(Response::Ack)
        } else if bytes[0] == RSP_XFLASH_INFO && bytes[3] == 0 {
            Ok(Response::XflashInfo(Xflash::from_id(bytes[1], bytes[2])))
        } else {
            Err(Error::InvalidResponse { bytes: *bytes })
        }
    }

    /// Decoding the words of a response gives the response back: an
    /// acknowledgement as it is, an identity report with its identity
    /// resolved against the supported parts.
    pub proof fn decode_of_encode(response: Response)
        ensures
            Self::spec_from_bytes(response.spec_to_bytes()) == (match response {
                Response::Ack => Ok::<Response, Error>(Response::Ack),
                Response::XflashInfo(x) => Ok(
                    Response::XflashInfo(Xflash::spec_from_id(x.spec_id().mid, x.spec_id().did)),
                ),
            }),
    {
    }

    /// Words are never misread: they decode to a response only if they are
    /// exactly that response's words, and otherwise the error carries them.
    pub proof fn decode_is_exact(bytes: [u32; 4])
        ensures
            match Self::spec_from_bytes(bytes) {
                Ok(response) => response.spec_to_bytes() == bytes,
                Err(e) => e == (Error::InvalidResponse { bytes }),
            },
    {
        match Self::spec_from_bytes(bytes) {
            Ok(response) => {
                lookup_keeps_the_identity(
                    supported_hw(),
                    0,
                    XflashId { mid: bytes[1], did: bytes[2] },
                );
                assert(response.spec_to_bytes()@ =~= bytes@);
            },
            Err(_) => {},
        }
    }
}

/// The resident firmware as the host sees it: the operations that it
/// offers, each started as a [`Job`].
#[derive(Clone, Copy, Debug, PartialEq, Eq)]
pub struct Firmware {
    pub timing: Timing,
}

impl Firmware {
    /// A handle is usable if its timing is.
    pub open spec fn wf(self) -> bool {
        self.timing.wf()
    }

    /// A handle whose transactions poll with `timing`.
    pub fn new(timing: Timing) -> (firmware: Firmware)
        ensures
            firmware.timing == timing,
    {
        Firmware { timing }
    }

    /// Asks which flash part is attached. The job ends with
    /// `Output::Info`; any other response is `UnexpectedResponse`.
    pub fn get_xflash_info(&self) -> (turn: JobTurn)
        requires
            self.wf(),
        ensures
            turn@ == JobView::start(Task::Info, self.timing, Seq::empty()),
            turn matches JobTurn::Continue(job) && job@.wf(),
    {
        Job::start(Task::Info, self.timing, Vec::new())
    }

    /// Erases the sectors of `length` bytes from `offset`.
    pub fn sector_erase(&self, offset: u32, length: u32) -> (turn: JobTurn)
        requires
            self.wf(),
        ensures
            turn@ == JobView::start(Task::SectorErase { offset, length }, self.timing, Seq::empty()),
            turn matches JobTurn::Continue(job) && job@.wf(),
    {
        Job::start(Task::SectorErase { offset, length }, self.timing, Vec::new())
    }

    /// Erases the whole part.
    pub fn mass_erase(&self) -> (turn: JobTurn)
        requires
            self.wf(),
        ensures
            turn@ == JobView::start(Task::MassErase, self.timing, Seq::empty()),
            turn matches JobTurn::Continue(job) && job@.wf(),
    {
        Job::start(Task::MassErase, self.timing, Vec::new())
    }

    /// Reads `length` bytes from `offset`, in chunks of at most a buffer.
    /// No bytes are read without any request.
    pub fn read_data(&self, offset: u32, length: u32) -> (turn: JobTurn)
        requires
            self.wf(),
            offset + length <= 0x1_0000_0000,
        ensures
            turn@ == JobView::start(Task::Read { offset, length }, self.timing, Seq::empty()),
            turn matches JobTurn::Continue(job) ==> job@.wf(),
            turn is Continue <==> length > 0,
    {
        Job::start(Task::Read { offset, length }, self.timing, Vec::new())
    }

    /// Writes `values` from `offset` on, in chunks of at most a buffer and
    /// without erasing. No bytes are written without any request.
    pub fn write_data(&self, offset: u32, values: Vec<u8>) -> (turn: JobTurn)
        requires
            self.wf(),
            values@.len() <= u32::MAX,
            offset + values@.len() <= 0x1_0000_0000,
        ensures
            turn@ == JobView::start(
                Task::Write { offset, length: values@.len() as u32 },
                self.timing,
                values@,
            ),
            turn matches JobTurn::Continue(job) ==> job@.wf(),
            turn is Continue <==> values@.len() > 0,
    {
        let length: u32 = values.len() as u32;
        Job::start(Task::Write { offset, length }, self.timing, values)
    }
}

} // verus!
