//! The ADB wire protocol: message framing, checksums, and the host-side
//! session logic that answers an ADB client.
use vstd::prelude::*;
use vstd::string::{StrSliceExecFns, StringSliceAdditionalSpecFns};

use crate::error::{LiteDroidError, Result};
use crate::seqs::{bytes_eq, copy_range, extend_bytes};
use crate::wire::{get_le32, le32, read_le32, u32_le, u32_to_le, lemma_le32_bytes, lemma_le32_roundtrip};

verus! {

/// ADB protocol version (1 << 24).
pub const ADB_VERSION: u32 = 0x01000000;

/// Default maximum payload size.
pub const ADB_MAX_PAYLOAD: u32 = 4096;

/// Size of the fixed message header.
pub const ADB_HEADER_SIZE: usize = 24;

pub const CMD_CNXN: [u8; 4] = [0x43, 0x4e, 0x58, 0x4e];
pub const CMD_OPEN: [u8; 4] = [0x4f, 0x50, 0x45, 0x4e];
pub const CMD_OKAY: [u8; 4] = [0x4f, 0x4b, 0x41, 0x59];
pub const CMD_CLSE: [u8; 4] = [0x43, 0x4c, 0x53, 0x45];
pub const CMD_WRTE: [u8; 4] = [0x57, 0x52, 0x54, 0x45];

/// Sum of the bytes of `s`.
pub open spec fn byte_sum(s: Seq<u8>) -> nat
    decreases s.len(),
{
    if s.len() == 0 {
        0
    } else {
        byte_sum(s.drop_last()) + s.last() as nat
    }
}

/// The ADB checksum: the sum of all bytes, modulo 2^32.
pub open spec fn adb_checksum(s: Seq<u8>) -> u32 {
    (byte_sum(s) % 0x1_0000_0000) as u32
}

/// Compute the ADB checksum (sum of all bytes as u32).
pub fn checksum(data: &[u8]) -> (c: u32)
    ensures
        c == adb_checksum(data@),
{
    let mut acc: u32 = 0;
    let mut i: usize = 0;
    while i < data.len()
        invariant
            i <= data@.len(),
            acc == adb_checksum(data@.take(i as int)),
        decreases data@.len() - i,
    {
        let ghost prev = data@.take(i as int);
        proof {
            assert(data@.take(i + 1).drop_last() =~= prev);
            assert(byte_sum(data@.take(i + 1)) == byte_sum(prev) + data@[i as int]);
            vstd::arithmetic::div_mod::lemma_add_mod_noop(
                byte_sum(prev) as int,
                data@[i as int] as int,
                0x1_0000_0000,
            );
            vstd::arithmetic::div_mod::lemma_small_mod(data@[i as int] as nat, 0x1_0000_0000);
            if acc + data@[i as int] < 0x1_0000_0000 {
                vstd::arithmetic::div_mod::lemma_small_mod(
                    (acc + data@[i as int]) as nat,
                    0x1_0000_0000,
                );
            }
            if acc + data@[i as int] >= 0x1_0000_0000 {
                vstd::arithmetic::div_mod::lemma_mod_add_multiples_vanish(
                    (acc + data@[i as int] - 0x1_0000_0000) as int,
                    0x1_0000_0000,
                );
                vstd::arithmetic::div_mod::lemma_small_mod(
                    (acc + data@[i as int] - 0x1_0000_0000) as nat,
                    0x1_0000_0000,
                );
            }
        }
        acc = acc.wrapping_add(data[i] as u32);
        i = i + 1;
    }
    assert(data@.take(data@.len() as int) =~= data@);
    acc
}

/// The command word, read little-endian.
pub open spec fn command_word(c: [u8; 4]) -> u32 {
    u32_le(c@[0], c@[1], c@[2], c@[3])
}

/// The header's magic field: the command word with every bit inverted.
pub open spec fn magic_of(c: [u8; 4]) -> u32 {
    command_word(c) ^ 0xffffffff
}

/// A single ADB protocol message (24-byte header + optional payload).
#[derive(Debug, Clone)]
pub struct AdbMessage {
    pub command: [u8; 4],
    pub arg0: u32,
    pub arg1: u32,
    pub data_length: u32,
    pub data_check: u32,
    pub data: Vec<u8>,
}

/// The 24-byte header of `m` on the wire: command, the four `u32` fields and
/// the magic, each little-endian.
pub open spec fn wire_header(m: AdbMessage) -> Seq<u8> {
    m.command@ + le32(m.arg0) + le32(m.arg1) + le32(m.data_length) + le32(m.data_check) + le32(
        magic_of(m.command),
    )
}

/// The wire encoding of `m`: its header followed by its payload.
pub open spec fn encoding(m: AdbMessage) -> Seq<u8> {
    wire_header(m) + m.data@
}

/// The message with the given command, arguments and payload, whose length and
/// checksum fields describe that payload.
pub open spec fn message_is(m: AdbMessage, command: [u8; 4], arg0: u32, arg1: u32, data: Seq<u8>) -> bool {
    &&& m.command == command
    &&& m.arg0 == arg0
    &&& m.arg1 == arg1
    &&& m.data@ == data
    &&& m.data_length == data.len() as u32
    &&& m.data_check == adb_checksum(data)
}

/// The message with the given command and arguments, no payload, and zero
/// length and checksum fields.
pub open spec fn empty_message_is(m: AdbMessage, command: [u8; 4], arg0: u32, arg1: u32) -> bool {
    &&& m.command == command
    &&& m.arg0 == arg0
    &&& m.arg1 == arg1
    &&& m.data@.len() == 0
    &&& m.data_length == 0
    &&& m.data_check == 0
}

/// The reason `decode` refuses `b`, if it does, in the order it checks.
pub open spec fn decode_error(b: Seq<u8>) -> Option<Seq<char>> {
    if b.len() < 24 {
        Some("message too short"@)
    } else if read_le32(b, 20) != read_le32(b, 0) ^ 0xffffffff {
        Some("invalid magic"@)
    } else if b.len() < 24 + read_le32(b, 12) {
        Some("incomplete payload"@)
    } else if adb_checksum(b.subrange(24, 24 + read_le32(b, 12))) != read_le32(b, 16) {
        Some("checksum mismatch"@)
    } else {
        None
    }
}

/// `m` holds the fields read from the header in `b` and the payload that
/// follows it.
pub open spec fn decodes_to(b: Seq<u8>, m: AdbMessage) -> bool {
    &&& m.command@ == b.subrange(0, 4)
    &&& m.arg0 == read_le32(b, 4)
    &&& m.arg1 == read_le32(b, 8)
    &&& m.data_length == read_le32(b, 12)
    &&& m.data_check == read_le32(b, 16)
    &&& m.data@ == b.subrange(24, 24 + read_le32(b, 12))
}

impl AdbMessage {
    /// The length and checksum fields describe the payload.
    pub open spec fn well_formed(&self) -> bool {
        &&& self.data@.len() == self.data_length
        &&& self.data_check == adb_checksum(self.data@)
    }

    /// Build a CNXN (connect) message.
    pub fn connect(identity: &str, max_payload: u32) -> (m: Self)
        ensures
            message_is(m, CMD_CNXN, ADB_VERSION, max_payload, identity.spec_bytes()),
    {
        let data = identity.as_bytes_vec();
        let data_check = checksum(data.as_slice());
        AdbMessage {
            command: CMD_CNXN,
            arg0: ADB_VERSION,
            arg1: max_payload,
            data_length: data.len() as u32,
            data_check,
            data,
        }
    }

    /// Build an OPEN message.
    pub fn open(local_id: u32, dest: &str) -> (m: Self)
        ensures
            message_is(m, CMD_OPEN, local_id, 0, dest.spec_bytes()),
    {
        let data = dest.as_bytes_vec();
        let data_check = checksum(data.as_slice());
        AdbMessage {
            command: CMD_OPEN,
            arg0: local_id,
            arg1: 0,
            data_length: data.len() as u32,
            data_check,
            data,
        }
    }

    /// Build an OKAY message.
    pub fn okay(local_id: u32, remote_id: u32) -> (m: Self)
        ensures
            empty_message_is(m, CMD_OKAY, local_id, remote_id),
    {
        AdbMessage {
            command: CMD_OKAY,
            arg0: local_id,
            arg1: remote_id,
            data_length: 0,
            data_check: 0,
            data: Vec::new(),
        }
    }

    /// Build a CLSE message.
    pub fn close(local_id: u32, remote_id: u32) -> (m: Self)
        ensures
            empty_message_is(m, CMD_CLSE, local_id, remote_id),
    {
        AdbMessage {
            command: CMD_CLSE,
            arg0: local_id,
            arg1: remote_id,
            data_length: 0,
            data_check: 0,
            data: Vec::new(),
        }
    }

    /// Build a WRTE (write) message carrying `payload`.
    pub fn write_msg(local_id: u32, remote_id: u32, payload: &[u8]) -> (m: Self)
        ensures
            message_is(m, CMD_WRTE, local_id, remote_id, payload@),
    {
        let data = copy_range(payload, 0, payload.len());
        assert(payload@.subrange(0, payload@.len() as int) =~= payload@);
        let data_check = checksum(data.as_slice());
        AdbMessage {
            command: CMD_WRTE,
            arg0: local_id,
            arg1: remote_id,
            data_length: data.len() as u32,
            data_check,
            data,
        }
    }

    /// Encode the message into wire format (24-byte header + payload).
    pub fn encode(&self) -> (out: Vec<u8>)
        ensures
            out@ == encoding(*self),
    {
        let mut out: Vec<u8> = Vec::new();
        extend_bytes(&mut out, self.command.as_slice());
        extend_bytes(&mut out, u32_to_le(self.arg0).as_slice());
        extend_bytes(&mut out, u32_to_le(self.arg1).as_slice());
        extend_bytes(&mut out, u32_to_le(self.data_length).as_slice());
        extend_bytes(&mut out, u32_to_le(self.data_check).as_slice());
        let word = u32_le_of(&self.command);
        let magic = word ^ 0xFFFF_FFFF;
        extend_bytes(&mut out, u32_to_le(magic).as_slice());
        extend_bytes(&mut out, self.data.as_slice());
        out
    }

    /// Decode a message from wire format.
    pub fn decode(data: &[u8]) -> (r: Result<Self>)
        ensures
            r is Ok <==> decode_error(data@) is None,
            r matches Ok(m) ==> decodes_to(data@, m),
            r matches Err(e) ==> (e matches LiteDroidError::AdbProtocolError(msg) && Some(msg@)
                == decode_error(data@)),
    {
        if data.len() < ADB_HEADER_SIZE {
            return Err(LiteDroidError::AdbProtocolError(String::from_str("message too short")));
        }
        let command: [u8; 4] = [data[0], data[1], data[2], data[3]];
        let arg0 = get_le32(data, 4);
        let arg1 = get_le32(data, 8);
        let data_length = get_le32(data, 12);
        let data_check = get_le32(data, 16);
        let magic = get_le32(data, 20);
        let expected_magic = get_le32(data, 0) ^ 0xFFFF_FFFF;
        if magic != expected_magic {
            return Err(LiteDroidError::AdbProtocolError(String::from_str("invalid magic")));
        }
        let total: u64 = 24 + data_length as u64;
        if (data.len() as u64) < total {
            return Err(LiteDroidError::AdbProtocolError(String::from_str("incomplete payload")));
        }
        let payload = copy_range(data, ADB_HEADER_SIZE, total as usize);
        let computed = checksum(payload.as_slice());
        if computed != data_check {
            return Err(LiteDroidError::AdbProtocolError(String::from_str("checksum mismatch")));
        }
        assert(command@ =~= data@.subrange(0, 4));
        Ok(AdbMessage { command, arg0, arg1, data_length, data_check, data: payload })
    }
}

/// The command word of `c`, read little-endian.
fn u32_le_of(c: &[u8; 4]) -> (w: u32)
    ensures
        w == command_word(*c),
{
    (c[0] as u32) | ((c[1] as u32) << 8u32) | ((c[2] as u32) << 16u32) | ((c[3] as u32) << 24u32)
}

/// Decoding the encoding of a well-formed message gives back its fields and
/// payload: `decode(&m.encode())` succeeds and yields `m`.
pub proof fn lemma_decode_encode(m: AdbMessage)
    requires
        m.well_formed(),
    ensures
        decode_error(encoding(m)) is None,
        decodes_to(encoding(m), m),
{
    let b = encoding(m);
    lemma_le32_roundtrip(m.arg0);
    lemma_le32_roundtrip(m.arg1);
    lemma_le32_roundtrip(m.data_length);
    lemma_le32_roundtrip(m.data_check);
    lemma_le32_roundtrip(magic_of(m.command));
    assert(b.subrange(0, 4) =~= m.command@);
    assert(b.subrange(4, 8) =~= le32(m.arg0));
    assert(b.subrange(8, 12) =~= le32(m.arg1));
    assert(b.subrange(12, 16) =~= le32(m.data_length));
    assert(b.subrange(16, 20) =~= le32(m.data_check));
    assert(b.subrange(20, 24) =~= le32(magic_of(m.command)));
    assert(read_le32(b, 0) == command_word(m.command));
    assert(read_le32(b, 4) == read_le32(le32(m.arg0), 0));
    assert(read_le32(b, 8) == read_le32(le32(m.arg1), 0));
    assert(read_le32(b, 12) == read_le32(le32(m.data_length), 0));
    assert(read_le32(b, 16) == read_le32(le32(m.data_check), 0));
    assert(read_le32(b, 20) == read_le32(le32(magic_of(m.command)), 0));
    assert(b.subrange(24, 24 + read_le32(b, 12)) =~= m.data@);
}

/// A buffer that decodes is, up to the end of the decoded payload, exactly
/// the encoding of the decoded message, and that message is well formed.
pub proof fn lemma_encode_decode(b: Seq<u8>, m: AdbMessage)
    requires
        decode_error(b) is None,
        decodes_to(b, m),
    ensures
        m.well_formed(),
        encoding(m) == b.subrange(0, 24 + m.data_length),
{
    lemma_le32_bytes(b[4], b[5], b[6], b[7]);
    lemma_le32_bytes(b[8], b[9], b[10], b[11]);
    lemma_le32_bytes(b[12], b[13], b[14], b[15]);
    lemma_le32_bytes(b[16], b[17], b[18], b[19]);
    lemma_le32_bytes(b[20], b[21], b[22], b[23]);
    assert(m.command@ =~= seq![b[0], b[1], b[2], b[3]]);
    assert(command_word(m.command) == read_le32(b, 0));
    assert(encoding(m) =~= b.subrange(0, 24 + m.data_length));
}

/// The answer to one client message: the messages to send back, in order, and
/// whether the connection ends after them.
pub struct AdbReply {
    pub messages: Vec<AdbMessage>,
    pub close: bool,
}

/// The host side of one ADB client connection.
///
/// It greets the client and answers each decoded message; the caller moves
/// the bytes over the connection.
pub struct AdbConnection {
    next_local_id: u32,
}

/// The payload answered to `host:version`.
pub open spec fn version_reply() -> Seq<u8> {
    "00040024".spec_bytes()
}

/// The payload answered to `host:devices`.
pub open spec fn devices_reply() -> Seq<u8> {
    "LITEDROID001\tdevice".spec_bytes()
}

/// The identity announced in the connect handshake.
pub open spec fn device_identity() -> Seq<u8> {
    "device::litedroid".spec_bytes()
}

impl AdbConnection {
    /// The stream id that the next OPEN will be given.
    pub closed spec fn next_id(&self) -> u32 {
        self.next_local_id
    }

    /// A connection that has not yet opened any stream.
    pub fn new() -> (c: Self)
        ensures
            c.next_id() == 1,
    {
        AdbConnection { next_local_id: 1 }
    }

    /// The stream id that the next OPEN will be given.
    pub fn next_stream_id(&self) -> (id: u32)
        ensures
            id == self.next_id(),
    {
        self.next_local_id
    }

    /// The CNXN handshake sent when a client connects.
    pub fn greeting() -> (m: AdbMessage)
        ensures
            message_is(m, CMD_CNXN, ADB_VERSION, ADB_MAX_PAYLOAD, device_identity()),
    {
        AdbMessage::connect("device::litedroid", ADB_MAX_PAYLOAD)
    }

    /// The answer to `msg`.
    ///
    /// An OPEN gets the next local stream id and is answered by destination:
    /// `host:version` and `host:devices` with OKAY and a WRTE carrying the
    /// answer, `host:kill` with CLSE after which the connection ends, anything
    /// else with OKAY. A CNXN is answered with the handshake, a CLSE ends the
    /// connection, and every other message is accepted silently.
    pub fn on_message(&mut self, msg: &AdbMessage) -> (reply: AdbReply)
        requires
            msg.command == CMD_OPEN ==> old(self).next_id() < u32::MAX,
        ensures
            msg.command == CMD_OPEN ==> {
                let lid = old(self).next_id();
                let rid = msg.arg0;
                &&& final(self).next_id() == lid + 1
                &&& if msg.data@ == "host:version".spec_bytes() {
                    &&& reply.messages@.len() == 2
                    &&& empty_message_is(reply.messages@[0], CMD_OKAY, lid, rid)
                    &&& message_is(reply.messages@[1], CMD_WRTE, lid, rid, version_reply())
                    &&& !reply.close
                } else if msg.data@ == "host:devices".spec_bytes() {
                    &&& reply.messages@.len() == 2
                    &&& empty_message_is(reply.messages@[0], CMD_OKAY, lid, rid)
                    &&& message_is(reply.messages@[1], CMD_WRTE, lid, rid, devices_reply())
                    &&& !reply.close
                } else if msg.data@ == "host:kill".spec_bytes() {
                    &&& reply.messages@.len() == 1
                    &&& empty_message_is(reply.messages@[0], CMD_CLSE, lid, rid)
                    &&& reply.close
                } else {
                    &&& reply.messages@.len() == 1
                    &&& empty_message_is(reply.messages@[0], CMD_OKAY, lid, rid)
                    &&& !reply.close
                }
            },
            msg.command != CMD_OPEN ==> final(self).next_id() == old(self).next_id(),
            msg.command == CMD_CNXN ==> {
                &&& reply.messages@.len() == 1
                &&& message_is(reply.messages@[0], CMD_CNXN, ADB_VERSION, ADB_MAX_PAYLOAD, device_identity())
                &&& !reply.close
            },
            msg.command == CMD_CLSE ==> reply.messages@.len() == 0 && reply.close,
            msg.command != CMD_OPEN && msg.command != CMD_CNXN && msg.command != CMD_CLSE ==> {
                &&& reply.messages@.len() == 0
                &&& !reply.close
            },
    {
        let mut messages: Vec<AdbMessage> = Vec::new();
        if bytes_eq(msg.command.as_slice(), CMD_OPEN.as_slice()) {
            proof {
                assert(msg.command@ == CMD_OPEN@ ==> msg.command == CMD_OPEN) by {
                    if msg.command@ == CMD_OPEN@ {
                        assert(msg.command =~= CMD_OPEN);
                    }
                };
            }
            let local_id = self.next_local_id;
            self.next_local_id = self.next_local_id + 1;
            let remote_id = msg.arg0;
            let data = msg.data.as_slice();
            if bytes_eq(data, "host:version".as_bytes()) {
                messages.push(AdbMessage::okay(local_id, remote_id));
                messages.push(AdbMessage::write_msg(local_id, remote_id, "00040024".as_bytes()));
                return AdbReply { messages, close: false };
            } else if bytes_eq(data, "host:devices".as_bytes()) {
                messages.push(AdbMessage::okay(local_id, remote_id));
                messages.push(
                    AdbMessage::write_msg(local_id, remote_id, "LITEDROID001\tdevice".as_bytes()),
                );
                return AdbReply { messages, close: false };
            } else if bytes_eq(data, "host:kill".as_bytes()) {
                messages.push(AdbMessage::close(local_id, remote_id));
                return AdbReply { messages, close: true };
            } else {
                messages.push(AdbMessage::okay(local_id, remote_id));
                return AdbReply { messages, close: false };
            }
        }
        if bytes_eq(msg.command.as_slice(), CMD_CNXN.as_slice()) {
            proof {
                if msg.command@ == CMD_CNXN@ {
                    assert(msg.command =~= CMD_CNXN);
                }
            }
            messages.push(Self::greeting());
            return AdbReply { messages, close: false };
        }
        if bytes_eq(msg.command.as_slice(), CMD_CLSE.as_slice()) {
            proof {
                if msg.command@ == CMD_CLSE@ {
                    assert(msg.command =~= CMD_CLSE);
                }
            }
            return AdbReply { messages, close: true };
        }
        AdbReply { messages, close: false }
    }
}

/// The payload length announced by a 24-byte message header.
pub fn header_payload_len(header: &[u8]) -> (n: u32)
    requires
        header@.len() >= 24,
    ensures
        n == read_le32(header@, 12),
{
    get_le32(header, 12)
}

} // verus!
