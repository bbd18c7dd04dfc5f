//! The fixed-layout records that travel over the bulk endpoints.
//!
//! A request wrapper is 31 bytes, a response wrapper 13. Both are packed;
//! every multi-byte field is little-endian.

use vstd::prelude::*;
use crate::endian::{le16, le32, le32_value, push_le16, push_le32, read_le32};
use crate::endian::{lemma_le32_bytes_round_trip, lemma_le32_round_trip};
use crate::error::LoaderError;

verus! {

/// Length of a serialized command record.
pub const COMMAND_SIZE: usize = 16;

/// Length of a serialized request wrapper.
pub const REQUEST_SIZE: usize = 31;

/// Length of a serialized response wrapper.
pub const RESPONSE_SIZE: usize = 13;

/// The command-length byte of every request wrapper.
pub const COMMAND_LENGTH: u8 = 6;

/// The ASCII letters `USBC`, which open every request wrapper.
pub open spec fn request_signature() -> Seq<u8> {
    seq![0x55u8, 0x53u8, 0x42u8, 0x43u8]
}

/// The ASCII letters `USBS`, which open every valid response wrapper.
pub open spec fn response_signature() -> Seq<u8> {
    seq![0x55u8, 0x53u8, 0x42u8, 0x53u8]
}

/// `n` zero bytes.
pub open spec fn zeros(n: nat) -> Seq<u8> {
    Seq::new(n, |i: int| 0u8)
}

/// The commands that the boot ROM and the second-stage loader understand.
#[derive(Clone, Copy, Debug, PartialEq, Eq, Structural)]
pub enum Command {
    UnitReady,
    Version,
    Chipinfo,
    Capability,
}

impl Command {
    /// The opcode that stands for the command on the wire.
    pub open spec fn spec_opcode(self) -> u8 {
        match self {
            Command::UnitReady => 0x00,
            Command::Version => 0x0c,
            Command::Chipinfo => 0x1b,
            Command::Capability => 0xaa,
        }
    }

    #[verifier::when_used_as_spec(spec_opcode)]
    pub fn opcode(self) -> (code: u8)
        ensures
            code == self.spec_opcode(),
    {
        match self {
            Command::UnitReady => 0x00,
            Command::Version => 0x0c,
            Command::Chipinfo => 0x1b,
            Command::Capability => 0xaa,
        }
    }
}

/// Which way the data phase of a dialogue flows, seen from the host.
#[derive(Clone, Copy, Debug, PartialEq, Eq, Structural)]
pub enum Direction {
    /// Device to host.
    In,
    /// Host to device.
    Out,
}

impl Direction {
    /// The direction flag of a request wrapper.
    pub open spec fn spec_flag(self) -> u8 {
        match self {
            Direction::In => 0x80,
            Direction::Out => 0x00,
        }
    }

    #[verifier::when_used_as_spec(spec_flag)]
    pub fn flag(self) -> (flag: u8)
        ensures
            flag == self.spec_flag(),
    {
        match self {
            Direction::In => 0x80,
            Direction::Out => 0x00,
        }
    }
}

/// The 16-byte command record. Its reserved bytes and trailing pad are zero
/// and are not held.
#[derive(Clone, Copy, Debug, PartialEq, Eq, Structural)]
pub struct CommandRecord {
    pub opcode: u8,
    pub subcode: u8,
    pub address: u32,
    pub size: u16,
}

impl CommandRecord {
    /// The record as it travels: opcode, subcode, address, a reserved byte,
    /// size, four reserved bytes and three bytes of pad.
    pub open spec fn wire(self) -> Seq<u8> {
        seq![self.opcode, self.subcode] + le32(self.address) + zeros(1) + le16(self.size) + zeros(7)
    }

    /// Appends the serialized record to `out`.
    pub fn write(&self, out: &mut Vec<u8>)
        ensures
            final(out)@ == old(out)@ + self.wire(),
    {
        out.push(self.opcode);
        out.push(self.subcode);
        push_le32(out, self.address);
        out.push(0);
        push_le16(out, self.size);
        let mut i: usize = 0;
        while i < 7
            invariant
                i <= 7,
                out@ == old(out)@ + seq![self.opcode, self.subcode] + le32(self.address) + zeros(1)
                    + le16(self.size) + zeros(i as nat),
            decreases 7 - i,
        {
            out.push(0);
            i += 1;
        }
    }
}

/// The 31-byte request wrapper that opens a dialogue.
#[derive(Clone, Copy, Debug, PartialEq, Eq, Structural)]
pub struct Request {
    pub tag: u32,
    pub length: u32,
    pub flag: u8,
    pub lun: u8,
    pub command_length: u8,
    pub command: CommandRecord,
}

impl Request {
    /// The request for `opcode` with a data phase of `length` bytes in the
    /// given direction: logical unit 0, command length 6, and a command
    /// record that holds the opcode and is zero otherwise.
    pub open spec fn spec_new(opcode: u8, tag: u32, length: u32, direction: Direction) -> Request {
        Request {
            tag,
            length,
            flag: direction.spec_flag(),
            lun: 0,
            command_length: COMMAND_LENGTH,
            command: CommandRecord { opcode, subcode: 0, address: 0, size: 0 },
        }
    }

    #[verifier::when_used_as_spec(spec_new)]
    pub fn new(opcode: u8, tag: u32, length: u32, direction: Direction) -> (request: Request)
        ensures
            request == Request::spec_new(opcode, tag, length, direction),
    {
        Request {
            tag,
            length,
            flag: direction.flag(),
            lun: 0,
            command_length: COMMAND_LENGTH,
            command: CommandRecord { opcode, subcode: 0, address: 0, size: 0 },
        }
    }

    /// The wrapper as it travels: signature, tag, length, flag, logical
    /// unit, command length, command record.
    pub open spec fn wire(self) -> Seq<u8> {
        request_signature() + le32(self.tag) + le32(self.length)
            + seq![self.flag, self.lun, self.command_length] + self.command.wire()
    }

    /// Serializes the wrapper.
    pub fn to_bytes(&self) -> (bytes: Vec<u8>)
        ensures
            bytes@ == self.wire(),
            bytes.len() == REQUEST_SIZE,
    {
        let mut bytes: Vec<u8> = Vec::new();
        bytes.push(0x55);
        bytes.push(0x53);
        bytes.push(0x42);
        bytes.push(0x43);
        assert(bytes@ =~= request_signature());
        push_le32(&mut bytes, self.tag);
        push_le32(&mut bytes, self.length);
        bytes.push(self.flag);
        bytes.push(self.lun);
        bytes.push(self.command_length);
        assert(bytes@ =~= request_signature() + le32(self.tag) + le32(self.length)
            + seq![self.flag, self.lun, self.command_length]);
        self.command.write(&mut bytes);
        bytes
    }
}

/// The serialized request is 31 bytes. It begins with `USBC`; the tag and the
/// length stand little-endian at offsets 4 and 8; flag, logical unit and
/// command length follow; the command record starts at offset 15 with the
/// opcode, and every byte after the opcode is zero.
pub proof fn lemma_request_layout(opcode: u8, tag: u32, length: u32, direction: Direction)
    ensures
        ({
            let bytes = Request::spec_new(opcode, tag, length, direction).wire();
            &&& bytes.len() == 31
            &&& bytes.subrange(0, 4) == request_signature()
            &&& bytes.subrange(4, 8) == le32(tag)
            &&& le32_value(bytes.subrange(4, 8)) == tag
            &&& bytes.subrange(8, 12) == le32(length)
            &&& le32_value(bytes.subrange(8, 12)) == length
            &&& bytes[12] == direction.spec_flag()
            &&& bytes[13] == 0
            &&& bytes[14] == 6
            &&& bytes[15] == opcode
            &&& forall|i: int| 16 <= i < 31 ==> bytes[i] == 0
        }),
{
    let bytes = Request::spec_new(opcode, tag, length, direction).wire();
    assert(bytes.subrange(0, 4) =~= request_signature());
    assert(bytes.subrange(4, 8) =~= le32(tag));
    assert(bytes.subrange(8, 12) =~= le32(length));
    lemma_le32_round_trip(tag);
    lemma_le32_round_trip(length);
}

/// The 13-byte response wrapper that closes a dialogue.
#[derive(Clone, Copy, Debug, PartialEq, Eq)]
pub struct Response {
    pub signature: [u8; 4],
    pub tag: u32,
    pub residue: u32,
    pub status: u8,
}

impl Response {
    /// The wrapper as it travels: signature, tag, residue, status.
    pub open spec fn wire(self) -> Seq<u8> {
        self.signature@ + le32(self.tag) + le32(self.residue) + seq![self.status]
    }

    /// The wrapper that the first 13 bytes of `buf` spell, if `buf` holds
    /// that many.
    pub open spec fn spec_parse(buf: Seq<u8>) -> Option<Response> {
        if buf.len() < 13 {
            None
        } else {
            Some(
                Response {
                    signature: [buf[0], buf[1], buf[2], buf[3]],
                    tag: le32_value(buf.subrange(4, 8)) as u32,
                    residue: le32_value(buf.subrange(8, 12)) as u32,
                    status: buf[12],
                },
            )
        }
    }

    /// Reads a response wrapper from the front of `buf`. Bytes after the
    /// thirteenth are ignored; a shorter buffer holds no wrapper.
    pub fn parse(buf: &[u8]) -> (response: Option<Response>)
        ensures
            response == Response::spec_parse(buf@),
            response is Some <==> buf.len() >= RESPONSE_SIZE,
            response matches Some(r) ==> r.wire() == buf@.subrange(0, 13),
    {
        if buf.len() < RESPONSE_SIZE {
            return None;
        }
        let response = Response {
            signature: [buf[0], buf[1], buf[2], buf[3]],
            tag: read_le32(buf, 4),
            residue: read_le32(buf, 8),
            status: buf[12],
        };
        proof {
            lemma_le32_bytes_round_trip(buf@.subrange(4, 8));
            lemma_le32_bytes_round_trip(buf@.subrange(8, 12));
            assert(response.wire() =~= buf@.subrange(0, 13));
        }
        Some(response)
    }

    /// Serializes the wrapper.
    pub fn to_bytes(&self) -> (bytes: Vec<u8>)
        ensures
            bytes@ == self.wire(),
            bytes.len() == RESPONSE_SIZE,
    {
        let mut bytes: Vec<u8> = Vec::new();
        bytes.push(self.signature[0]);
        bytes.push(self.signature[1]);
        bytes.push(self.signature[2]);
        bytes.push(self.signature[3]);
        assert(bytes@ =~= self.signature@);
        push_le32(&mut bytes, self.tag);
        push_le32(&mut bytes, self.residue);
        bytes.push(self.status);
        bytes
    }

    /// What the framing rules say of a response to the request tagged `tag`:
    /// the signature is checked first, then the tag, then the status byte.
    pub open spec fn spec_check(self, tag: u32) -> Result<(), LoaderError> {
        if self.signature@ != response_signature() {
            Err(LoaderError::SignatureMismatch)
        } else if self.tag != tag {
            Err(LoaderError::TagMismatch)
        } else if self.status != 0 {
            Err(LoaderError::DeviceStatus)
        } else {
            Ok(())
        }
    }

    /// Holds the response against the tag of the request that it answers.
    pub fn check(&self, tag: u32) -> (verdict: Result<(), LoaderError>)
        ensures
            verdict == self.spec_check(tag),
    {
        if self.signature[0] != 0x55 || self.signature[1] != 0x53 || self.signature[2] != 0x42
            || self.signature[3] != 0x53 {
            assert(self.signature@ != response_signature());
            Err(LoaderError::SignatureMismatch)
        } else if self.tag != tag {
            assert(self.signature@ =~= response_signature());
            Err(LoaderError::TagMismatch)
        } else if self.status != 0 {
            assert(self.signature@ =~= response_signature());
            Err(LoaderError::DeviceStatus)
        } else {
            assert(self.signature@ =~= response_signature());
            Ok(())
        }
    }
}

/// A serialized response wrapper is 13 bytes, and parsing it gives the
/// wrapper back, whatever follows it in the buffer.
pub proof fn lemma_response_round_trip(response: Response, rest: Seq<u8>)
    ensures
        response.wire().len() == 13,
        Response::spec_parse(response.wire() + rest) == Some(response),
{
    let buf = response.wire() + rest;
    assert(buf.subrange(4, 8) =~= le32(response.tag));
    assert(buf.subrange(8, 12) =~= le32(response.residue));
    lemma_le32_round_trip(response.tag);
    lemma_le32_round_trip(response.residue);
    let parsed = Response::spec_parse(buf)->Some_0;
    assert(parsed.signature =~= response.signature);
}

} // verus!
