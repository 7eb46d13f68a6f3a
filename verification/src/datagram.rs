//! Message and command datagrams: their flag words, their fixed byte
//! layouts, and the functions that stamp, read and write them in buffers.
//!
//! A datagram occupies the first bytes of its buffer in the C layout of its
//! fields, each field little-endian; the payload follows the header.

use std::sync::Arc;
use vstd::prelude::*;
use crate::client::{ClientID, ClientPlanet, ClientType};
use crate::layout::{
    copy_prefix, group_field_reads, lemma_u32_le_roundtrip, push_u32_le, push_u64_le, read_u32_le,
    read_u64_le, splice, u32_at, u32_le, u64_at, u64_le, write_u32_le, write_u64_le,
    lemma_u32_le_zero,
};

verus! {

/// The magic word that opens every datagram, stored as its raw flag bits.
#[derive(Debug, Clone, Copy, PartialEq, Eq, Structural)]
pub struct BitcommFlag(pub u32);

impl BitcommFlag {
    /// `"BTCM"`: a message datagram.
    pub fn bitcomm_message() -> (f: Self)
        ensures
            f.0 == MESSAGE_FLAG,
    {
        BitcommFlag(0x4D435442)
    }

    /// `"BTCC"`: a command datagram.
    pub fn bitcomm_command() -> (f: Self)
        ensures
            f.0 == COMMAND_FLAG,
    {
        BitcommFlag(0x43435442)
    }

    /// No datagram kind.
    pub fn bitcomm_nodef() -> (f: Self)
        ensures
            f.0 == 0xFFFFFFFF,
    {
        BitcommFlag(0xFFFFFFFF)
    }

    /// The raw flag bits.
    pub fn bits(&self) -> (b: u32)
        ensures
            b == self.0,
    {
        self.0
    }
}

/// The protocol version of a datagram, stored as its raw flag bits.
#[derive(Debug, Clone, Copy, PartialEq, Eq, Structural)]
pub struct BitcommVersion(pub u32);

impl BitcommVersion {
    /// Version 0.1.0.1.
    pub fn bitcomm_version_0_1_0_1() -> (v: Self)
        ensures
            v.0 == VERSION_0_1_0_1,
    {
        BitcommVersion(0x00010001)
    }

    /// The raw flag bits.
    pub fn bits(&self) -> (b: u32)
        ensures
            b == self.0,
    {
        self.0
    }
}

/// The command a datagram carries, stored as its raw flag bits.
#[derive(Debug, Clone, Copy, PartialEq, Eq, Structural)]
pub struct BitCommand(pub u32);

impl BitCommand {
    /// Log in.
    pub fn login_command() -> (c: Self)
        ensures
            c.0 == 0x00000001,
    {
        BitCommand(0x00000001)
    }

    /// Log out.
    pub fn logout_command() -> (c: Self)
        ensures
            c.0 == 0x00000002,
    {
        BitCommand(0x00000002)
    }

    /// The bit that marks a response to a command.
    pub fn resp_mask() -> (c: Self)
        ensures
            c.0 == RESP_MASK,
    {
        BitCommand(0x80000000)
    }

    /// Send a message.
    pub fn send_mess() -> (c: Self)
        ensures
            c.0 == 0x00000004,
    {
        BitCommand(0x00000004)
    }

    /// The raw flag bits.
    pub fn bits(&self) -> (b: u32)
        ensures
            b == self.0,
    {
        self.0
    }

    /// The flags set in either `self` or `other`.
    pub fn union(self, other: Self) -> (c: Self)
        ensures
            c.0 == self.0 | other.0,
    {
        BitCommand(self.0 | other.0)
    }
}

/// The kind of content a message carries, stored as its raw flag bits.
#[derive(Debug, Clone, Copy)]
pub struct MessageType(pub u32);

impl MessageType {
    /// Text.
    pub fn mess_text() -> (t: Self)
        ensures
            t.0 == 0x00000001,
    {
        MessageType(0x00000001)
    }

    /// Images.
    pub fn mess_images() -> (t: Self)
        ensures
            t.0 == 0x00000002,
    {
        MessageType(0x00000002)
    }

    /// Video.
    pub fn mess_video() -> (t: Self)
        ensures
            t.0 == 0x00000003,
    {
        MessageType(0x00000003)
    }

    /// Files.
    pub fn mess_files() -> (t: Self)
        ensures
            t.0 == 0x00000004,
    {
        MessageType(0x00000004)
    }

    /// A position.
    pub fn mess_postion() -> (t: Self)
        ensures
            t.0 == 0x00000005,
    {
        MessageType(0x00000005)
    }

    /// The raw flag bits.
    pub fn bits(&self) -> (b: u32)
        ensures
            b == self.0,
    {
        self.0
    }
}

/// The outcome a command response reports, stored as its raw flag bits.
#[derive(Debug, Clone, Copy, PartialEq, Eq, Structural)]
pub struct ReturnCode(pub u32);

impl ReturnCode {
    /// Success.
    pub fn return_ok() -> (r: Self)
        ensures
            r.0 == 0x00000000,
    {
        ReturnCode(0x00000000)
    }

    /// Failure.
    pub fn return_error1() -> (r: Self)
        ensures
            r.0 == 0x00000001,
    {
        ReturnCode(0x00000001)
    }

    /// The raw flag bits.
    pub fn bits(&self) -> (b: u32)
        ensures
            b == self.0,
    {
        self.0
    }
}

/// The magic word of a message datagram, `"BTCM"` read little-endian.
pub const MESSAGE_FLAG: u32 = 0x4D435442;

/// The magic word of a command datagram, `"BTCC"` read little-endian.
pub const COMMAND_FLAG: u32 = 0x43435442;

/// Protocol version 0.1.0.1.
pub const VERSION_0_1_0_1: u32 = 0x00010001;

/// The response bit of a command word.
pub const RESP_MASK: u32 = 0x80000000;

/// Size in bytes of the fields of a message datagram in C layout.
pub const MESSAGE_LAYOUT_SIZE: usize = 80;

/// Alignment of a message datagram in C layout.
pub const MESSAGE_LAYOUT_ALIGN: usize = 8;

/// Size in bytes of the fields of a command datagram in C layout,
/// trailing padding included.
pub const COMMAND_LAYOUT_SIZE: usize = 56;

/// Alignment of a command datagram in C layout.
pub const COMMAND_LAYOUT_ALIGN: usize = 8;

/// `size` rounded up to a multiple of `align`.
pub open spec fn spec_aligned_size(size: int, align: int) -> int {
    size + (align - size % align) % align
}

/// The size of a datagram of `size` bytes and alignment `align`, padded to a
/// multiple of its alignment.
fn size_of_align_data_gram(size: usize, align: usize) -> (n: usize)
    requires
        align > 0,
        size + align <= usize::MAX,
    ensures
        n == spec_aligned_size(size as int, align as int),
        n % align == 0,
        size <= n < size + align,
{
    let padding = (align - (size % align)) % align;
    let n = size + padding;
    assert(n % align == 0 && size <= n < size + align) by (nonlinear_arith)
        requires
            align > 0,
            padding == (align - (size % align)) as int % align as int,
            n == size + padding,
    ;
    n
}

/// The header of a message datagram, laid out in the first
/// `MessageDataGram::get_size()` bytes of its buffer.
#[derive(Debug, Clone, Copy)]
pub struct MessageDataGram {
    pub bitcomm: BitcommFlag,
    pub version: BitcommVersion,
    pub command: BitCommand,
    pub sender: ClientID,
    pub sendertype: ClientType,
    pub messagetype: MessageType,
    pub messageid: u32,
    pub refmessageid: u32,
    pub receiver: ClientID,
    pub receivertype: ClientType,
    pub reserve1: u64,
    pub reserve2: u64,
    pub reserve3: u32,
    pub reserve4: u32,
    pub reserve5: u32,
    pub datasize: u32,
}

/// The bytes of a message datagram: its fields in order, each little-endian.
pub open spec fn message_bytes(m: MessageDataGram) -> Seq<u8> {
    u32_le(m.bitcomm.0) + u32_le(m.version.0) + u32_le(m.command.0) + u32_le(m.sender.planet.0)
        + u32_le(m.sender.object) + u32_le(m.sendertype.0) + u32_le(m.messagetype.0) + u32_le(
        m.messageid,
    ) + u32_le(m.refmessageid) + u32_le(m.receiver.planet.0) + u32_le(m.receiver.object) + u32_le(
        m.receivertype.0,
    ) + u64_le(m.reserve1) + u64_le(m.reserve2) + u32_le(m.reserve3) + u32_le(m.reserve4) + u32_le(
        m.reserve5,
    ) + u32_le(m.datasize)
}

/// The message datagram laid out in the first 80 bytes of `b`.
pub open spec fn message_from_bytes(b: Seq<u8>) -> MessageDataGram {
    MessageDataGram {
        bitcomm: BitcommFlag(u32_at(b, 0)),
        version: BitcommVersion(u32_at(b, 4)),
        command: BitCommand(u32_at(b, 8)),
        sender: ClientID { planet: ClientPlanet(u32_at(b, 12)), object: u32_at(b, 16) },
        sendertype: ClientType(u32_at(b, 20)),
        messagetype: MessageType(u32_at(b, 24)),
        messageid: u32_at(b, 28),
        refmessageid: u32_at(b, 32),
        receiver: ClientID { planet: ClientPlanet(u32_at(b, 36)), object: u32_at(b, 40) },
        receivertype: ClientType(u32_at(b, 44)),
        reserve1: u64_at(b, 48),
        reserve2: u64_at(b, 56),
        reserve3: u32_at(b, 64),
        reserve4: u32_at(b, 68),
        reserve5: u32_at(b, 72),
        datasize: u32_at(b, 76),
    }
}

/// Reading back the bytes of a message datagram gives the datagram.
pub proof fn lemma_message_bytes_roundtrip(m: MessageDataGram)
    ensures
        message_bytes(m).len() == MESSAGE_LAYOUT_SIZE,
        message_from_bytes(message_bytes(m)) == m,
{
    broadcast use group_field_reads;

    assert(message_from_bytes(message_bytes(m)) == m);
}

/// Laying out the message datagram read from `b` gives back the bytes it was
/// read from.
pub proof fn lemma_message_from_bytes_roundtrip(b: Seq<u8>)
    requires
        b.len() >= MESSAGE_LAYOUT_SIZE,
    ensures
        message_bytes(message_from_bytes(b)) == b.take(MESSAGE_LAYOUT_SIZE as int),
{
    broadcast use group_field_reads;

    assert(message_bytes(message_from_bytes(b)) =~= b.take(MESSAGE_LAYOUT_SIZE as int));
}

/// Whether `b` holds a message datagram: it is long enough for the header
/// and opens with the message magic word.
pub open spec fn spec_is_message(b: Seq<u8>) -> bool {
    b.len() >= MESSAGE_LAYOUT_SIZE && u32_at(b, 0) == MESSAGE_FLAG
}

/// `b` with a message header stamped on it: the magic word, the protocol
/// version and, as the payload size, the bytes beyond the header (the count
/// truncated to 32 bits). All other bytes stay as they were.
pub open spec fn stamp_message(b: Seq<u8>) -> Seq<u8> {
    splice(
        splice(splice(b, 0, u32_le(MESSAGE_FLAG)), 4, u32_le(VERSION_0_1_0_1)),
        76,
        u32_le((b.len() - MESSAGE_LAYOUT_SIZE) as u32),
    )
}

/// The datagram `value` as its response: the response bit added to its
/// command and its payload size cleared.
pub open spec fn message_response(value: MessageDataGram) -> MessageDataGram {
    MessageDataGram {
        command: BitCommand(value.command.0 | RESP_MASK),
        datasize: 0,
        ..value
    }
}

/// Writing a message datagram into a buffer and reading it back gives the
/// datagram; the bytes after the header are untouched.
pub proof fn lemma_message_write_then_read(b: Seq<u8>, m: MessageDataGram)
    requires
        b.len() >= MESSAGE_LAYOUT_SIZE,
    ensures
        splice(b, 0, message_bytes(m)).len() == b.len(),
        message_from_bytes(splice(b, 0, message_bytes(m))) == m,
        splice(b, 0, message_bytes(m)).skip(MESSAGE_LAYOUT_SIZE as int) == b.skip(
            MESSAGE_LAYOUT_SIZE as int,
        ),
{
    lemma_message_bytes_roundtrip(m);
    let w = splice(b, 0, message_bytes(m));
    assert(w.take(MESSAGE_LAYOUT_SIZE as int) =~= message_bytes(m));
    assert(message_bytes(m).take(MESSAGE_LAYOUT_SIZE as int) =~= message_bytes(m));
    lemma_message_prefix(w, message_bytes(m));
    assert(w.skip(MESSAGE_LAYOUT_SIZE as int) =~= b.skip(MESSAGE_LAYOUT_SIZE as int));
}

/// A message datagram is read from the first 80 bytes of its buffer only.
pub proof fn lemma_message_prefix(b: Seq<u8>, c: Seq<u8>)
    requires
        b.len() >= MESSAGE_LAYOUT_SIZE,
        c.len() >= MESSAGE_LAYOUT_SIZE,
        b.take(MESSAGE_LAYOUT_SIZE as int) == c.take(MESSAGE_LAYOUT_SIZE as int),
    ensures
        message_from_bytes(b) == message_from_bytes(c),
{
    broadcast use group_field_reads;

    let n = MESSAGE_LAYOUT_SIZE as int;
    assert(b =~= b.take(n) + b.skip(n));
    assert(c =~= c.take(n) + c.skip(n));
    assert(message_from_bytes(b) == message_from_bytes(b.take(n)));
    assert(message_from_bytes(c) == message_from_bytes(c.take(n)));
}

/// Stamping a message header sets the magic word, the version and the
/// payload size, and leaves every other field and the payload as they were.
pub proof fn lemma_message_stamp(b: Seq<u8>)
    requires
        b.len() >= MESSAGE_LAYOUT_SIZE,
    ensures
        stamp_message(b).len() == b.len(),
        message_from_bytes(stamp_message(b)) == (MessageDataGram {
            bitcomm: BitcommFlag(MESSAGE_FLAG),
            version: BitcommVersion(VERSION_0_1_0_1),
            datasize: (b.len() - MESSAGE_LAYOUT_SIZE) as u32,
            ..message_from_bytes(b)
        }),
        stamp_message(b).skip(MESSAGE_LAYOUT_SIZE as int) == b.skip(MESSAGE_LAYOUT_SIZE as int),
        spec_is_message(stamp_message(b)),
{
    broadcast use group_field_reads;

    let s = stamp_message(b);
    assert(s.skip(MESSAGE_LAYOUT_SIZE as int) =~= b.skip(MESSAGE_LAYOUT_SIZE as int));
}

/// The header found in a fresh zeroed buffer with `datasize` bytes of payload
/// once a message header is stamped on it.
pub open spec fn fresh_message_header(datasize: u32) -> MessageDataGram {
    MessageDataGram {
        bitcomm: BitcommFlag(MESSAGE_FLAG),
        version: BitcommVersion(VERSION_0_1_0_1),
        command: BitCommand(0),
        sender: ClientID { planet: ClientPlanet(0), object: 0 },
        sendertype: ClientType(0),
        messagetype: MessageType(0),
        messageid: 0,
        refmessageid: 0,
        receiver: ClientID { planet: ClientPlanet(0), object: 0 },
        receivertype: ClientType(0),
        reserve1: 0,
        reserve2: 0,
        reserve3: 0,
        reserve4: 0,
        reserve5: 0,
        datasize,
    }
}

/// A buffer made by `create_gram_buf(n)` and stamped as a message holds a
/// message header whose payload size is `n` (truncated to 32 bits) and whose
/// other fields are zero.
pub proof fn lemma_message_fresh_buffer(n: nat)
    ensures
        spec_is_message(stamp_message(Seq::new(n + MESSAGE_LAYOUT_SIZE as nat, |i: int| 0u8))),
        message_from_bytes(stamp_message(Seq::new(n + MESSAGE_LAYOUT_SIZE as nat, |i: int| 0u8)))
            == fresh_message_header(n as u32),
{
    let b = Seq::new(n + MESSAGE_LAYOUT_SIZE as nat, |i: int| 0u8);
    lemma_message_stamp(b);
}

impl MessageDataGram {
    /// The bytes of this datagram.
    fn to_bytes(&self) -> (v: Vec<u8>)
        ensures
            v@ == message_bytes(*self),
    {
        let mut v: Vec<u8> = Vec::new();
        push_u32_le(&mut v, self.bitcomm.0);
        push_u32_le(&mut v, self.version.0);
        push_u32_le(&mut v, self.command.0);
        push_u32_le(&mut v, self.sender.planet.0);
        push_u32_le(&mut v, self.sender.object);
        push_u32_le(&mut v, self.sendertype.0);
        push_u32_le(&mut v, self.messagetype.0);
        push_u32_le(&mut v, self.messageid);
        push_u32_le(&mut v, self.refmessageid);
        push_u32_le(&mut v, self.receiver.planet.0);
        push_u32_le(&mut v, self.receiver.object);
        push_u32_le(&mut v, self.receivertype.0);
        push_u64_le(&mut v, self.reserve1);
        push_u64_le(&mut v, self.reserve2);
        push_u32_le(&mut v, self.reserve3);
        push_u32_le(&mut v, self.reserve4);
        push_u32_le(&mut v, self.reserve5);
        push_u32_le(&mut v, self.datasize);
        assert(v@ =~= message_bytes(*self));
        v
    }

    /// Lays this datagram out in the first `get_size()` bytes of `grambuf`,
    /// leaving the payload after them as it was.
    pub fn write_to_u8(&self, grambuf: &mut [u8])
        requires
            old(grambuf).len() >= MESSAGE_LAYOUT_SIZE,
        ensures
            final(grambuf)@ == splice(old(grambuf)@, 0, message_bytes(*self)),
    {
        proof {
            lemma_message_bytes_roundtrip(*self);
        }
        let v = self.to_bytes();
        copy_prefix(grambuf, &v);
    }

    /// The size of the header, padded to its alignment.
    pub fn get_size() -> (n: usize)
        ensures
            n == MESSAGE_LAYOUT_SIZE,
    {
        size_of_align_data_gram(MESSAGE_LAYOUT_SIZE, MESSAGE_LAYOUT_ALIGN)
    }

    /// Whether `datas` holds a message datagram: at least a header's worth
    /// of bytes, opening with the message magic word.
    pub fn is_message_from_bytes(datas: &[u8]) -> (b: bool)
        ensures
            b == spec_is_message(datas@),
            b <==> (datas@.len() >= 80 && datas@[0] == 0x42 && datas@[1] == 0x54 && datas@[2]
                == 0x43 && datas@[3] == 0x4D),
    {
        proof {
            lemma_is_message_magic(datas@);
        }
        if datas.len() >= Self::get_size() {
            Self::is_message(datas)
        } else {
            false
        }
    }

    /// Whether `datas` opens with the message magic word.
    fn is_message(datas: &[u8]) -> (b: bool)
        requires
            datas.len() >= 4,
        ensures
            b == (u32_at(datas@, 0) == MESSAGE_FLAG),
    {
        let value = read_u32_le(datas, 0);
        value == BitcommFlag::bitcomm_message().bits()
    }

    /// A zeroed buffer for a message datagram with `datasize` bytes of
    /// payload after the header.
    pub fn create_gram_buf(datasize: usize) -> (v: Vec<u8>)
        requires
            datasize + MESSAGE_LAYOUT_SIZE <= usize::MAX,
        ensures
            v@ == Seq::new((datasize + MESSAGE_LAYOUT_SIZE) as nat, |i: int| 0u8),
    {
        let v: Vec<u8> = vec![0x00; datasize + size_of_align_data_gram(MESSAGE_LAYOUT_SIZE, MESSAGE_LAYOUT_ALIGN)];
        assert(v@ =~= Seq::new((datasize + MESSAGE_LAYOUT_SIZE) as nat, |i: int| 0u8));
        v
    }

    /// Stamps a message header on `grambuf`: the message magic word, the
    /// protocol version and, as payload size, the number of bytes after the
    /// header. Returns the header in place: reading or setting a field
    /// through it reads or writes its bytes in `grambuf`.
    pub fn create_message_data_gram_by_mut_u8<'a>(grambuf: &'a mut [u8]) -> (m:
        MessageDataGramMut<'a>)
        requires
            old(grambuf).len() >= MESSAGE_LAYOUT_SIZE,
        ensures
            m.bytes() == stamp_message(old(grambuf)@),
            m.bytes().len() == old(grambuf)@.len(),
            m.header() == (MessageDataGram {
                bitcomm: BitcommFlag(0x4D435442),
                version: BitcommVersion(0x00010001),
                datasize: (old(grambuf)@.len() - 80) as u32,
                ..message_from_bytes(old(grambuf)@)
            }),
            m.bytes().skip(80) == old(grambuf)@.skip(80),
            final(m.buf)@ == final(grambuf)@,
    {
        proof {
            lemma_u32_le_roundtrip(MESSAGE_FLAG);
            lemma_u32_le_roundtrip(VERSION_0_1_0_1);
        }
        write_u32_le(grambuf, 0, BitcommFlag::bitcomm_message().bits());
        write_u32_le(grambuf, 4, BitcommVersion::bitcomm_version_0_1_0_1().bits());
        let datasize = #[verifier::truncate] ((grambuf.len() - Self::get_size()) as u32);
        write_u32_le(grambuf, 76, datasize);
        proof {
            lemma_message_stamp(old(grambuf)@);
        }
        MessageDataGramMut { buf: grambuf }
    }

    /// Stamps a message header on the bytes of `byte_array`, as
    /// `create_message_data_gram_by_mut_u8` does, and returns it in place.
    pub fn create_message_data_gram_by_mut_vec8<'a>(byte_array: &'a mut Vec<u8>) -> (m:
        MessageDataGramMut<'a>)
        requires
            old(byte_array).len() >= MESSAGE_LAYOUT_SIZE,
        ensures
            m.bytes() == stamp_message(old(byte_array)@),
            m.bytes().len() == old(byte_array)@.len(),
            m.header() == (MessageDataGram {
                bitcomm: BitcommFlag(0x4D435442),
                version: BitcommVersion(0x00010001),
                datasize: (old(byte_array)@.len() - 80) as u32,
                ..message_from_bytes(old(byte_array)@)
            }),
            m.bytes().skip(80) == old(byte_array)@.skip(80),
            final(m.buf)@ == final(byte_array)@,
    {
        let grambuf: &mut [u8] = byte_array.as_mut_slice();
        MessageDataGram::create_message_data_gram_by_mut_u8(grambuf)
    }

    /// Lays out at the start of `grambuf` the response to `value`: `value`
    /// with the response bit added to its command and its payload size
    /// cleared. Returns that response in place.
    pub fn create_message_data_gram_from_mdg_u8<'a>(
        grambuf: &'a mut [u8],
        value: &MessageDataGram,
    ) -> (m: MessageDataGramMut<'a>)
        requires
            old(grambuf).len() >= MESSAGE_LAYOUT_SIZE,
        ensures
            m.bytes() == splice(old(grambuf)@, 0, message_bytes(message_response(*value))),
            m.header() == message_response(*value),
            m.header().bitcomm == value.bitcomm,
            m.header().version == value.version,
            m.header().command.0 == value.command.0 | 0x80000000u32,
            m.header().sender == value.sender,
            m.header().sendertype == value.sendertype,
            m.header().messagetype == value.messagetype,
            m.header().messageid == value.messageid,
            m.header().refmessageid == value.refmessageid,
            m.header().receiver == value.receiver,
            m.header().receivertype == value.receivertype,
            m.header().reserve1 == value.reserve1,
            m.header().reserve2 == value.reserve2,
            m.header().reserve3 == value.reserve3,
            m.header().reserve4 == value.reserve4,
            m.header().reserve5 == value.reserve5,
            m.header().datasize == 0,
            m.bytes().len() == old(grambuf)@.len(),
            m.bytes().skip(80) == old(grambuf)@.skip(80),
            final(m.buf)@ == final(grambuf)@,
    {
        let mut message = *value;
        message.set_bitcomm(value.bitcomm());
        message.set_command(value.command().union(BitCommand::resp_mask()));
        message.set_datasize(0);
        message.write_to_u8(grambuf);
        proof {
            lemma_message_write_then_read(old(grambuf)@, message);
        }
        MessageDataGramMut { buf: grambuf }
    }

    /// The message datagram laid out at the start of `grambuf`.
    pub fn get_message_data_gram_by_u8(grambuf: &[u8]) -> (m: MessageDataGram)
        requires
            grambuf.len() >= MESSAGE_LAYOUT_SIZE,
        ensures
            m == message_from_bytes(grambuf@),
    {
        MessageDataGram {
            bitcomm: BitcommFlag(read_u32_le(grambuf, 0)),
            version: BitcommVersion(read_u32_le(grambuf, 4)),
            command: BitCommand(read_u32_le(grambuf, 8)),
            sender: ClientID::new(ClientPlanet(read_u32_le(grambuf, 12)), read_u32_le(grambuf, 16)),
            sendertype: ClientType(read_u32_le(grambuf, 20)),
            messagetype: MessageType(read_u32_le(grambuf, 24)),
            messageid: read_u32_le(grambuf, 28),
            refmessageid: read_u32_le(grambuf, 32),
            receiver: ClientID::new(
                ClientPlanet(read_u32_le(grambuf, 36)),
                read_u32_le(grambuf, 40),
            ),
            receivertype: ClientType(read_u32_le(grambuf, 44)),
            reserve1: read_u64_le(grambuf, 48),
            reserve2: read_u64_le(grambuf, 56),
            reserve3: read_u32_le(grambuf, 64),
            reserve4: read_u32_le(grambuf, 68),
            reserve5: read_u32_le(grambuf, 72),
            datasize: read_u32_le(grambuf, 76),
        }
    }
}

/// Field accessors.
impl MessageDataGram {
    pub fn bitcomm(&self) -> (v: BitcommFlag)
        ensures
            v == self.bitcomm,
    {
        self.bitcomm
    }

    pub fn set_bitcomm(&mut self, val: BitcommFlag) -> (r: &mut Self)
        ensures
            *r == (MessageDataGram { bitcomm: val, ..*old(self) }),
            *final(self) == *final(r),
    {
        self.bitcomm = val;
        self
    }

    pub fn version(&self) -> (v: BitcommVersion)
        ensures
            v == self.version,
    {
        self.version
    }

    pub fn set_version(&mut self, val: BitcommVersion) -> (r: &mut Self)
        ensures
            *r == (MessageDataGram { version: val, ..*old(self) }),
            *final(self) == *final(r),
    {
        self.version = val;
        self
    }

    pub fn command(&self) -> (v: BitCommand)
        ensures
            v == self.command,
    {
        self.command
    }

    pub fn set_command(&mut self, val: BitCommand) -> (r: &mut Self)
        ensures
            *r == (MessageDataGram { command: val, ..*old(self) }),
            *final(self) == *final(r),
    {
        self.command = val;
        self
    }

    pub fn sender(&self) -> (v: ClientID)
        ensures
            v == self.sender,
    {
        self.sender
    }

    pub fn set_sender(&mut self, val: ClientID) -> (r: &mut Self)
        ensures
            *r == (MessageDataGram { sender: val, ..*old(self) }),
            *final(self) == *final(r),
    {
        self.sender = val;
        self
    }

    pub fn sendertype(&self) -> (v: ClientType)
        ensures
            v == self.sendertype,
    {
        self.sendertype
    }

    pub fn set_sendertype(&mut self, val: ClientType) -> (r: &mut Self)
        ensures
            *r == (MessageDataGram { sendertype: val, ..*old(self) }),
            *final(self) == *final(r),
    {
        self.sendertype = val;
        self
    }

    pub fn messagetype(&self) -> (v: MessageType)
        ensures
            v == self.messagetype,
    {
        self.messagetype
    }

    pub fn set_messagetype(&mut self, val: MessageType) -> (r: &mut Self)
        ensures
            *r == (MessageDataGram { messagetype: val, ..*old(self) }),
            *final(self) == *final(r),
    {
        self.messagetype = val;
        self
    }

    pub fn messageid(&self) -> (v: u32)
        ensures
            v == self.messageid,
    {
        self.messageid
    }

    pub fn set_messageid(&mut self, val: u32) -> (r: &mut Self)
        ensures
            *r == (MessageDataGram { messageid: val, ..*old(self) }),
            *final(self) == *final(r),
    {
        self.messageid = val;
        self
    }

    pub fn refmessageid(&self) -> (v: u32)
        ensures
            v == self.refmessageid,
    {
        self.refmessageid
    }

    pub fn set_refmessageid(&mut self, val: u32) -> (r: &mut Self)
        ensures
            *r == (MessageDataGram { refmessageid: val, ..*old(self) }),
            *final(self) == *final(r),
    {
        self.refmessageid = val;
        self
    }

    pub fn receiver(&self) -> (v: ClientID)
        ensures
            v == self.receiver,
    {
        self.receiver
    }

    pub fn set_receiver(&mut self, val: ClientID) -> (r: &mut Self)
        ensures
            *r == (MessageDataGram { receiver: val, ..*old(self) }),
            *final(self) == *final(r),
    {
        self.receiver = val;
        self
    }

    pub fn receivertype(&self) -> (v: ClientType)
        ensures
            v == self.receivertype,
    {
        self.receivertype
    }

    pub fn set_receivertype(&mut self, val: ClientType) -> (r: &mut Self)
        ensures
            *r == (MessageDataGram { receivertype: val, ..*old(self) }),
            *final(self) == *final(r),
    {
        self.receivertype = val;
        self
    }

    pub fn datasize(&self) -> (v: u32)
        ensures
            v == self.datasize,
    {
        self.datasize
    }

    pub fn set_datasize(&mut self, val: u32) -> (r: &mut Self)
        ensures
            *r == (MessageDataGram { datasize: val, ..*old(self) }),
            *final(self) == *final(r),
    {
        self.datasize = val;
        self
    }
}

/// A message datagram header in place: the buffer it is laid out in. Each
/// field is read from, and set by writing, its bytes in the buffer.
pub struct MessageDataGramMut<'a> {
    pub buf: &'a mut [u8],
}

impl<'a> MessageDataGramMut<'a> {
    /// The bytes of the buffer.
    pub open spec fn bytes(&self) -> Seq<u8> {
        self.buf@
    }

    /// The header laid out at the start of the buffer.
    pub open spec fn header(&self) -> MessageDataGram {
        message_from_bytes(self.buf@)
    }

    /// The whole header, as a value.
    pub fn get(&self) -> (h: MessageDataGram)
        requires
            self.bytes().len() >= MESSAGE_LAYOUT_SIZE,
        ensures
            h == self.header(),
    {
        MessageDataGram::get_message_data_gram_by_u8(self.buf)
    }

    pub fn bitcomm(&self) -> (v: BitcommFlag)
        requires
            self.bytes().len() >= MESSAGE_LAYOUT_SIZE,
        ensures
            v == self.header().bitcomm,
    {
        BitcommFlag(read_u32_le(self.buf, 0))
    }

    pub fn set_bitcomm(&mut self, val: BitcommFlag) -> (r: &mut Self)
        requires
            old(self).bytes().len() >= MESSAGE_LAYOUT_SIZE,
        ensures
            r.bytes() == splice(old(self).bytes(), 0, u32_le(val.0)),
            r.header() == (MessageDataGram { bitcomm: val, ..old(self).header() }),
            final(r.buf)@ == final(old(self).buf)@,
            *final(self) == *final(r),
    {
        proof {
            broadcast use group_field_reads;
        }
        write_u32_le(self.buf, 0, val.0);
        self
    }

    pub fn version(&self) -> (v: BitcommVersion)
        requires
            self.bytes().len() >= MESSAGE_LAYOUT_SIZE,
        ensures
            v == self.header().version,
    {
        BitcommVersion(read_u32_le(self.buf, 4))
    }

    pub fn set_version(&mut self, val: BitcommVersion) -> (r: &mut Self)
        requires
            old(self).bytes().len() >= MESSAGE_LAYOUT_SIZE,
        ensures
            r.bytes() == splice(old(self).bytes(), 4, u32_le(val.0)),
            r.header() == (MessageDataGram { version: val, ..old(self).header() }),
            final(r.buf)@ == final(old(self).buf)@,
            *final(self) == *final(r),
    {
        proof {
            broadcast use group_field_reads;
        }
        write_u32_le(self.buf, 4, val.0);
        self
    }

    pub fn command(&self) -> (v: BitCommand)
        requires
            self.bytes().len() >= MESSAGE_LAYOUT_SIZE,
        ensures
            v == self.header().command,
    {
        BitCommand(read_u32_le(self.buf, 8))
    }

    pub fn set_command(&mut self, val: BitCommand) -> (r: &mut Self)
        requires
            old(self).bytes().len() >= MESSAGE_LAYOUT_SIZE,
        ensures
            r.bytes() == splice(old(self).bytes(), 8, u32_le(val.0)),
            r.header() == (MessageDataGram { command: val, ..old(self).header() }),
            final(r.buf)@ == final(old(self).buf)@,
            *final(self) == *final(r),
    {
        proof {
            broadcast use group_field_reads;
        }
        write_u32_le(self.buf, 8, val.0);
        self
    }

    pub fn sender(&self) -> (v: ClientID)
        requires
            self.bytes().len() >= MESSAGE_LAYOUT_SIZE,
        ensures
            v == self.header().sender,
    {
        ClientID::new(ClientPlanet(read_u32_le(self.buf, 12)), read_u32_le(self.buf, 16))
    }

    pub fn set_sender(&mut self, val: ClientID) -> (r: &mut Self)
        requires
            old(self).bytes().len() >= MESSAGE_LAYOUT_SIZE,
        ensures
            r.bytes() == splice(splice(old(self).bytes(), 12, u32_le(val.planet.0)), 16, u32_le(val.object)),
            r.header() == (MessageDataGram { sender: val, ..old(self).header() }),
            final(r.buf)@ == final(old(self).buf)@,
            *final(self) == *final(r),
    {
        proof {
            broadcast use group_field_reads;
        }
        write_u32_le(self.buf, 12, val.planet.0);
        write_u32_le(self.buf, 16, val.object);
        self
    }

    pub fn sendertype(&self) -> (v: ClientType)
        requires
            self.bytes().len() >= MESSAGE_LAYOUT_SIZE,
        ensures
            v == self.header().sendertype,
    {
        ClientType(read_u32_le(self.buf, 20))
    }

    pub fn set_sendertype(&mut self, val: ClientType) -> (r: &mut Self)
        requires
            old(self).bytes().len() >= MESSAGE_LAYOUT_SIZE,
        ensures
            r.bytes() == splice(old(self).bytes(), 20, u32_le(val.0)),
            r.header() == (MessageDataGram { sendertype: val, ..old(self).header() }),
            final(r.buf)@ == final(old(self).buf)@,
            *final(self) == *final(r),
    {
        proof {
            broadcast use group_field_reads;
        }
        write_u32_le(self.buf, 20, val.0);
        self
    }

    pub fn messagetype(&self) -> (v: MessageType)
        requires
            self.bytes().len() >= MESSAGE_LAYOUT_SIZE,
        ensures
            v == self.header().messagetype,
    {
        MessageType(read_u32_le(self.buf, 24))
    }

    pub fn set_messagetype(&mut self, val: MessageType) -> (r: &mut Self)
        requires
            old(self).bytes().len() >= MESSAGE_LAYOUT_SIZE,
        ensures
            r.bytes() == splice(old(self).bytes(), 24, u32_le(val.0)),
            r.header() == (MessageDataGram { messagetype: val, ..old(self).header() }),
            final(r.buf)@ == final(old(self).buf)@,
            *final(self) == *final(r),
    {
        proof {
            broadcast use group_field_reads;
        }
        write_u32_le(self.buf, 24, val.0);
        self
    }

    pub fn messageid(&self) -> (v: u32)
        requires
            self.bytes().len() >= MESSAGE_LAYOUT_SIZE,
        ensures
            v == self.header().messageid,
    {
        read_u32_le(self.buf, 28)
    }

    pub fn set_messageid(&mut self, val: u32) -> (r: &mut Self)
        requires
            old(self).bytes().len() >= MESSAGE_LAYOUT_SIZE,
        ensures
            r.bytes() == splice(old(self).bytes(), 28, u32_le(val)),
            r.header() == (MessageDataGram { messageid: val, ..old(self).header() }),
            final(r.buf)@ == final(old(self).buf)@,
            *final(self) == *final(r),
    {
        proof {
            broadcast use group_field_reads;
        }
        write_u32_le(self.buf, 28, val);
        self
    }

    pub fn refmessageid(&self) -> (v: u32)
        requires
            self.bytes().len() >= MESSAGE_LAYOUT_SIZE,
        ensures
            v == self.header().refmessageid,
    {
        read_u32_le(self.buf, 32)
    }

    pub fn set_refmessageid(&mut self, val: u32) -> (r: &mut Self)
        requires
            old(self).bytes().len() >= MESSAGE_LAYOUT_SIZE,
        ensures
            r.bytes() == splice(old(self).bytes(), 32, u32_le(val)),
            r.header() == (MessageDataGram { refmessageid: val, ..old(self).header() }),
            final(r.buf)@ == final(old(self).buf)@,
            *final(self) == *final(r),
    {
        proof {
            broadcast use group_field_reads;
        }
        write_u32_le(self.buf, 32, val);
        self
    }

    pub fn receiver(&self) -> (v: ClientID)
        requires
            self.bytes().len() >= MESSAGE_LAYOUT_SIZE,
        ensures
            v == self.header().receiver,
    {
        ClientID::new(ClientPlanet(read_u32_le(self.buf, 36)), read_u32_le(self.buf, 40))
    }

    pub fn set_receiver(&mut self, val: ClientID) -> (r: &mut Self)
        requires
            old(self).bytes().len() >= MESSAGE_LAYOUT_SIZE,
        ensures
            r.bytes() == splice(splice(old(self).bytes(), 36, u32_le(val.planet.0)), 40, u32_le(val.object)),
            r.header() == (MessageDataGram { receiver: val, ..old(self).header() }),
            final(r.buf)@ == final(old(self).buf)@,
            *final(self) == *final(r),
    {
        proof {
            broadcast use group_field_reads;
        }
        write_u32_le(self.buf, 36, val.planet.0);
        write_u32_le(self.buf, 40, val.object);
        self
    }

    pub fn receivertype(&self) -> (v: ClientType)
        requires
            self.bytes().len() >= MESSAGE_LAYOUT_SIZE,
        ensures
            v == self.header().receivertype,
    {
        ClientType(read_u32_le(self.buf, 44))
    }

    pub fn set_receivertype(&mut self, val: ClientType) -> (r: &mut Self)
        requires
            old(self).bytes().len() >= MESSAGE_LAYOUT_SIZE,
        ensures
            r.bytes() == splice(old(self).bytes(), 44, u32_le(val.0)),
            r.header() == (MessageDataGram { receivertype: val, ..old(self).header() }),
            final(r.buf)@ == final(old(self).buf)@,
            *final(self) == *final(r),
    {
        proof {
            broadcast use group_field_reads;
        }
        write_u32_le(self.buf, 44, val.0);
        self
    }

    pub fn datasize(&self) -> (v: u32)
        requires
            self.bytes().len() >= MESSAGE_LAYOUT_SIZE,
        ensures
            v == self.header().datasize,
    {
        read_u32_le(self.buf, 76)
    }

    pub fn set_datasize(&mut self, val: u32) -> (r: &mut Self)
        requires
            old(self).bytes().len() >= MESSAGE_LAYOUT_SIZE,
        ensures
            r.bytes() == splice(old(self).bytes(), 76, u32_le(val)),
            r.header() == (MessageDataGram { datasize: val, ..old(self).header() }),
            final(r.buf)@ == final(old(self).buf)@,
            *final(self) == *final(r),
    {
        proof {
            broadcast use group_field_reads;
        }
        write_u32_le(self.buf, 76, val);
        self
    }
}

/// The header of a command datagram, laid out in the first
/// `CommandDataGram::get_size()` bytes of its buffer.
#[derive(Debug, Clone, Copy)]
pub struct CommandDataGram {
    pub bitcomm: BitcommFlag,
    pub version: BitcommVersion,
    pub command: BitCommand,
    pub deviceid: u64,
    pub sender: ClientID,
    pub sendertype: ClientType,
    pub messagetype: MessageType,
    pub messageid: u32,
    pub returncode: ReturnCode,
    pub datasize: u32,
}

/// The bytes of a command datagram: its fields in order, each little-endian,
/// with zero bytes where the C layout pads (before `deviceid` and at the end).
pub open spec fn command_bytes(c: CommandDataGram) -> Seq<u8> {
    u32_le(c.bitcomm.0) + u32_le(c.version.0) + u32_le(c.command.0) + u32_le(0) + u64_le(
        c.deviceid,
    ) + u32_le(c.sender.planet.0) + u32_le(c.sender.object) + u32_le(c.sendertype.0) + u32_le(
        c.messagetype.0,
    ) + u32_le(c.messageid) + u32_le(c.returncode.0) + u32_le(c.datasize) + u32_le(0)
}

/// The command datagram laid out in the first 56 bytes of `b`.
pub open spec fn command_from_bytes(b: Seq<u8>) -> CommandDataGram {
    CommandDataGram {
        bitcomm: BitcommFlag(u32_at(b, 0)),
        version: BitcommVersion(u32_at(b, 4)),
        command: BitCommand(u32_at(b, 8)),
        deviceid: u64_at(b, 16),
        sender: ClientID { planet: ClientPlanet(u32_at(b, 24)), object: u32_at(b, 28) },
        sendertype: ClientType(u32_at(b, 32)),
        messagetype: MessageType(u32_at(b, 36)),
        messageid: u32_at(b, 40),
        returncode: ReturnCode(u32_at(b, 44)),
        datasize: u32_at(b, 48),
    }
}

/// Whether the padding bytes of the command layout in `b` are zero.
pub open spec fn command_padding_is_zero(b: Seq<u8>) -> bool {
    &&& forall|i: int| 12 <= i < 16 ==> b[i] == 0
    &&& forall|i: int| 52 <= i < 56 ==> b[i] == 0
}

/// Reading back the bytes of a command datagram gives the datagram.
pub proof fn lemma_command_bytes_roundtrip(c: CommandDataGram)
    ensures
        command_bytes(c).len() == COMMAND_LAYOUT_SIZE,
        command_from_bytes(command_bytes(c)) == c,
        command_padding_is_zero(command_bytes(c)),
{
    broadcast use group_field_reads;

    let b = command_bytes(c);
    assert(command_from_bytes(b) == c);
    lemma_u32_le_zero();
    assert(b.subrange(12, 16) =~= u32_le(0));
    assert(b.subrange(52, 56) =~= u32_le(0));
    assert forall|i: int| 12 <= i < 16 implies b[i] == 0 by {
        assert(b[i] == b.subrange(12, 16)[i - 12]);
    }
    assert forall|i: int| 52 <= i < 56 implies b[i] == 0 by {
        assert(b[i] == b.subrange(52, 56)[i - 52]);
    }
}

/// Laying out the command datagram read from `b` gives back the bytes it was
/// read from, provided its padding bytes are zero.
pub proof fn lemma_command_from_bytes_roundtrip(b: Seq<u8>)
    requires
        b.len() >= COMMAND_LAYOUT_SIZE,
        command_padding_is_zero(b),
    ensures
        command_bytes(command_from_bytes(b)) == b.take(COMMAND_LAYOUT_SIZE as int),
{
    broadcast use group_field_reads;

    lemma_u32_le_zero();
    assert(b.subrange(12, 16) =~= u32_le(0));
    assert(b.subrange(52, 56) =~= u32_le(0));
    assert(command_bytes(command_from_bytes(b)) =~= b.take(COMMAND_LAYOUT_SIZE as int));
}

/// A command datagram is read from the first 56 bytes of its buffer only.
pub proof fn lemma_command_prefix(b: Seq<u8>, c: Seq<u8>)
    requires
        b.len() >= COMMAND_LAYOUT_SIZE,
        c.len() >= COMMAND_LAYOUT_SIZE,
        b.take(COMMAND_LAYOUT_SIZE as int) == c.take(COMMAND_LAYOUT_SIZE as int),
    ensures
        command_from_bytes(b) == command_from_bytes(c),
{
    broadcast use group_field_reads;

    let n = COMMAND_LAYOUT_SIZE as int;
    assert(b =~= b.take(n) + b.skip(n));
    assert(c =~= c.take(n) + c.skip(n));
    assert(command_from_bytes(b) == command_from_bytes(b.take(n)));
    assert(command_from_bytes(c) == command_from_bytes(c.take(n)));
}

/// Writing a command datagram into a buffer and reading it back gives the
/// datagram; the bytes after the header are untouched.
pub proof fn lemma_command_write_then_read(b: Seq<u8>, c: CommandDataGram)
    requires
        b.len() >= COMMAND_LAYOUT_SIZE,
    ensures
        splice(b, 0, command_bytes(c)).len() == b.len(),
        command_from_bytes(splice(b, 0, command_bytes(c))) == c,
        splice(b, 0, command_bytes(c)).skip(COMMAND_LAYOUT_SIZE as int) == b.skip(
            COMMAND_LAYOUT_SIZE as int,
        ),
{
    lemma_command_bytes_roundtrip(c);
    let w = splice(b, 0, command_bytes(c));
    assert(w.take(COMMAND_LAYOUT_SIZE as int) =~= command_bytes(c));
    assert(command_bytes(c).take(COMMAND_LAYOUT_SIZE as int) =~= command_bytes(c));
    lemma_command_prefix(w, command_bytes(c));
    assert(w.skip(COMMAND_LAYOUT_SIZE as int) =~= b.skip(COMMAND_LAYOUT_SIZE as int));
}

/// Whether `b` holds exactly a command datagram: it is as long as the header
/// and opens with the command magic word.
pub open spec fn spec_is_command(b: Seq<u8>) -> bool {
    b.len() == COMMAND_LAYOUT_SIZE && u32_at(b, 0) == COMMAND_FLAG
}

/// `b` with a command header stamped on it: as payload size the bytes beyond
/// the header (truncated to 32 bits), the magic word and the protocol
/// version. All other bytes stay as they were.
pub open spec fn stamp_command(b: Seq<u8>) -> Seq<u8> {
    splice(
        splice(
            splice(b, 48, u32_le((b.len() - COMMAND_LAYOUT_SIZE) as u32)),
            0,
            u32_le(COMMAND_FLAG),
        ),
        4,
        u32_le(VERSION_0_1_0_1),
    )
}

/// The command datagram `value` as its response: the response bit added to
/// its command.
pub open spec fn command_response(value: CommandDataGram) -> CommandDataGram {
    CommandDataGram { command: BitCommand(value.command.0 | RESP_MASK), ..value }
}

/// Stamping a command header sets the payload size, the magic word and the
/// version, and leaves every other field and the payload as they were.
pub proof fn lemma_command_stamp(b: Seq<u8>)
    requires
        b.len() >= COMMAND_LAYOUT_SIZE,
    ensures
        stamp_command(b).len() == b.len(),
        command_from_bytes(stamp_command(b)) == (CommandDataGram {
            bitcomm: BitcommFlag(COMMAND_FLAG),
            version: BitcommVersion(VERSION_0_1_0_1),
            datasize: (b.len() - COMMAND_LAYOUT_SIZE) as u32,
            ..command_from_bytes(b)
        }),
        stamp_command(b).skip(COMMAND_LAYOUT_SIZE as int) == b.skip(COMMAND_LAYOUT_SIZE as int),
        b.len() == COMMAND_LAYOUT_SIZE ==> spec_is_command(stamp_command(b)),
{
    broadcast use group_field_reads;

    let s = stamp_command(b);
    assert(s.skip(COMMAND_LAYOUT_SIZE as int) =~= b.skip(COMMAND_LAYOUT_SIZE as int));
}

/// The header found in a fresh zeroed buffer with `datasize` bytes of payload
/// once a command header is stamped on it.
pub open spec fn fresh_command_header(datasize: u32) -> CommandDataGram {
    CommandDataGram {
        bitcomm: BitcommFlag(COMMAND_FLAG),
        version: BitcommVersion(VERSION_0_1_0_1),
        command: BitCommand(0),
        deviceid: 0,
        sender: ClientID { planet: ClientPlanet(0), object: 0 },
        sendertype: ClientType(0),
        messagetype: MessageType(0),
        messageid: 0,
        returncode: ReturnCode(0),
        datasize,
    }
}

/// A buffer made by `create_gram_buf(n)` and stamped as a command holds a
/// command header whose payload size is `n` (truncated to 32 bits) and whose
/// other fields are zero; it passes as exactly a command datagram when there
/// is no payload.
pub proof fn lemma_command_fresh_buffer(n: nat)
    ensures
        command_from_bytes(stamp_command(Seq::new(n + COMMAND_LAYOUT_SIZE as nat, |i: int| 0u8)))
            == fresh_command_header(n as u32),
        spec_is_command(stamp_command(Seq::new(n + COMMAND_LAYOUT_SIZE as nat, |i: int| 0u8)))
            <==> n == 0,
{
    let b = Seq::new(n + COMMAND_LAYOUT_SIZE as nat, |i: int| 0u8);
    lemma_command_stamp(b);
}

/// The four bytes of a magic word read little-endian: a `u32` read at the
/// start of `b` is `x` exactly when those bytes are `x`'s bytes, low first.
proof fn lemma_u32_at_start_is(b: Seq<u8>, x: u32, b0: u8, b1: u8, b2: u8, b3: u8)
    requires
        b.len() >= 4,
        x == b0 + 256 * b1 + 65536 * b2 + 16777216 * b3,
    ensures
        u32_at(b, 0) == x <==> (b[0] == b0 && b[1] == b1 && b[2] == b2 && b[3] == b3),
{
    let s = b.subrange(0, 4);
    let v: int = s[0] + 256 * s[1] + 65536 * s[2] + 16777216 * s[3];
    assert(0 <= v < 0x1_0000_0000);
    assert(u32_at(b, 0) == v);
    if v == x {
        assert(s[0] == b0 && s[1] == b1 && s[2] == b2 && s[3] == b3) by (nonlinear_arith)
            requires
                v == s[0] + 256 * s[1] + 65536 * s[2] + 16777216 * s[3],
                x == b0 + 256 * b1 + 65536 * b2 + 16777216 * b3,
                v == x,
                0 <= s[0] < 256,
                0 <= s[1] < 256,
                0 <= s[2] < 256,
                0 <= s[3] < 256,
                0 <= b0 < 256,
                0 <= b1 < 256,
                0 <= b2 < 256,
                0 <= b3 < 256,
        ;
    }
}

/// Bytes are taken for a message datagram exactly when there are at least
/// 80 of them and they open with the ASCII letters `BTCM`.
pub proof fn lemma_is_message_magic(b: Seq<u8>)
    ensures
        spec_is_message(b) <==> (b.len() >= 80 && b[0] == 0x42 && b[1] == 0x54 && b[2] == 0x43
            && b[3] == 0x4D),
{
    if b.len() >= 80 {
        lemma_u32_at_start_is(b, MESSAGE_FLAG, 0x42, 0x54, 0x43, 0x4D);
    }
}

/// Bytes are taken for a command datagram exactly when there are exactly
/// 56 of them and they open with the ASCII letters `BTCC`.
pub proof fn lemma_is_command_magic(b: Seq<u8>)
    ensures
        spec_is_command(b) <==> (b.len() == 56 && b[0] == 0x42 && b[1] == 0x54 && b[2] == 0x43
            && b[3] == 0x43),
{
    if b.len() == 56 {
        lemma_u32_at_start_is(b, COMMAND_FLAG, 0x42, 0x54, 0x43, 0x43);
    }
}

/// Bytes that open with the command magic word are never taken for a
/// message, and bytes that open with the message magic word never for a
/// command, whatever their length.
pub proof fn lemma_magic_words_exclusive(b: Seq<u8>)
    requires
        b.len() >= 4,
    ensures
        u32_at(b, 0) == COMMAND_FLAG ==> !spec_is_message(b),
        u32_at(b, 0) == MESSAGE_FLAG ==> !spec_is_command(b),
{
}

/// The response to a message carries every field of the request unchanged,
/// except that the command gains the response bit and the payload size is
/// zero.
pub proof fn lemma_message_response_keeps_request(value: MessageDataGram)
    ensures
        message_response(value).bitcomm == value.bitcomm,
        message_response(value).version == value.version,
        message_response(value).command.0 == value.command.0 | 0x80000000u32,
        message_response(value).sender == value.sender,
        message_response(value).sendertype == value.sendertype,
        message_response(value).messagetype == value.messagetype,
        message_response(value).messageid == value.messageid,
        message_response(value).refmessageid == value.refmessageid,
        message_response(value).receiver == value.receiver,
        message_response(value).receivertype == value.receivertype,
        message_response(value).reserve1 == value.reserve1,
        message_response(value).reserve2 == value.reserve2,
        message_response(value).reserve3 == value.reserve3,
        message_response(value).reserve4 == value.reserve4,
        message_response(value).reserve5 == value.reserve5,
        message_response(value).datasize == 0,
{
}

/// The response to a command carries every field of the request unchanged,
/// payload size included, except that the command gains the response bit.
pub proof fn lemma_command_response_keeps_request(value: CommandDataGram)
    ensures
        command_response(value).bitcomm == value.bitcomm,
        command_response(value).version == value.version,
        command_response(value).command.0 == value.command.0 | 0x80000000u32,
        command_response(value).deviceid == value.deviceid,
        command_response(value).sender == value.sender,
        command_response(value).sendertype == value.sendertype,
        command_response(value).messagetype == value.messagetype,
        command_response(value).messageid == value.messageid,
        command_response(value).returncode == value.returncode,
        command_response(value).datasize == value.datasize,
{
}

/// Each field of a message header sits little-endian at its C-layout offset:
/// the `u64` reserves at 48 and 56, the `u32` fields in order around them.
pub proof fn lemma_message_field_offsets(m: MessageDataGram)
    ensures
        u32_at(message_bytes(m), 0) == m.bitcomm.0,
        u32_at(message_bytes(m), 4) == m.version.0,
        u32_at(message_bytes(m), 8) == m.command.0,
        u32_at(message_bytes(m), 12) == m.sender.planet.0,
        u32_at(message_bytes(m), 16) == m.sender.object,
        u32_at(message_bytes(m), 20) == m.sendertype.0,
        u32_at(message_bytes(m), 24) == m.messagetype.0,
        u32_at(message_bytes(m), 28) == m.messageid,
        u32_at(message_bytes(m), 32) == m.refmessageid,
        u32_at(message_bytes(m), 36) == m.receiver.planet.0,
        u32_at(message_bytes(m), 40) == m.receiver.object,
        u32_at(message_bytes(m), 44) == m.receivertype.0,
        u64_at(message_bytes(m), 48) == m.reserve1,
        u64_at(message_bytes(m), 56) == m.reserve2,
        u32_at(message_bytes(m), 64) == m.reserve3,
        u32_at(message_bytes(m), 68) == m.reserve4,
        u32_at(message_bytes(m), 72) == m.reserve5,
        u32_at(message_bytes(m), 76) == m.datasize,
{
    broadcast use group_field_reads;
}

/// Each field of a command header sits little-endian at its C-layout offset:
/// `deviceid` at 16, after four bytes of padding, the rest in order.
pub proof fn lemma_command_field_offsets(c: CommandDataGram)
    ensures
        u32_at(command_bytes(c), 0) == c.bitcomm.0,
        u32_at(command_bytes(c), 4) == c.version.0,
        u32_at(command_bytes(c), 8) == c.command.0,
        u64_at(command_bytes(c), 16) == c.deviceid,
        u32_at(command_bytes(c), 24) == c.sender.planet.0,
        u32_at(command_bytes(c), 28) == c.sender.object,
        u32_at(command_bytes(c), 32) == c.sendertype.0,
        u32_at(command_bytes(c), 36) == c.messagetype.0,
        u32_at(command_bytes(c), 40) == c.messageid,
        u32_at(command_bytes(c), 44) == c.returncode.0,
        u32_at(command_bytes(c), 48) == c.datasize,
{
    broadcast use group_field_reads;
}

/// No buffer holds both a message datagram and a command datagram: their
/// magic words differ.
pub proof fn lemma_message_command_exclusive(b: Seq<u8>)
    ensures
        !(spec_is_message(b) && spec_is_command(b)),
{
}

impl CommandDataGram {
    /// The bytes of this datagram.
    fn to_bytes(&self) -> (v: Vec<u8>)
        ensures
            v@ == command_bytes(*self),
    {
        let mut v: Vec<u8> = Vec::new();
        push_u32_le(&mut v, self.bitcomm.0);
        push_u32_le(&mut v, self.version.0);
        push_u32_le(&mut v, self.command.0);
        push_u32_le(&mut v, 0);
        push_u64_le(&mut v, self.deviceid);
        push_u32_le(&mut v, self.sender.planet.0);
        push_u32_le(&mut v, self.sender.object);
        push_u32_le(&mut v, self.sendertype.0);
        push_u32_le(&mut v, self.messagetype.0);
        push_u32_le(&mut v, self.messageid);
        push_u32_le(&mut v, self.returncode.0);
        push_u32_le(&mut v, self.datasize);
        push_u32_le(&mut v, 0);
        assert(v@ =~= command_bytes(*self));
        v
    }

    /// Lays this datagram out in the first `get_size()` bytes of `grambuf`,
    /// padding bytes zeroed, leaving the payload after them as it was.
    pub fn write_to_u8(&self, grambuf: &mut [u8])
        requires
            old(grambuf).len() >= COMMAND_LAYOUT_SIZE,
        ensures
            final(grambuf)@ == splice(old(grambuf)@, 0, command_bytes(*self)),
    {
        proof {
            lemma_command_bytes_roundtrip(*self);
        }
        let v = self.to_bytes();
        copy_prefix(grambuf, &v);
    }

    /// Whether `datas` is exactly a command datagram: as long as the header
    /// and opening with the command magic word.
    pub fn is_command_from_bytes(datas: &[u8]) -> (b: bool)
        ensures
            b == spec_is_command(datas@),
            b <==> (datas@.len() == 56 && datas@[0] == 0x42 && datas@[1] == 0x54 && datas@[2]
                == 0x43 && datas@[3] == 0x43),
    {
        proof {
            lemma_is_command_magic(datas@);
        }
        if datas.len() == Self::get_size() {
            Self::is_command(datas)
        } else {
            false
        }
    }

    /// Whether `datas` opens with the command magic word.
    fn is_command(datas: &[u8]) -> (b: bool)
        requires
            datas.len() >= 4,
        ensures
            b == (u32_at(datas@, 0) == COMMAND_FLAG),
    {
        let value = read_u32_le(datas, 0);
        value == BitcommFlag::bitcomm_command().bits()
    }

    /// The command datagram laid out at the start of `grambuf`.
    pub fn get_command_data_gram_by_u8(grambuf: &[u8]) -> (c: CommandDataGram)
        requires
            grambuf.len() >= COMMAND_LAYOUT_SIZE,
        ensures
            c == command_from_bytes(grambuf@),
    {
        CommandDataGram {
            bitcomm: BitcommFlag(read_u32_le(grambuf, 0)),
            version: BitcommVersion(read_u32_le(grambuf, 4)),
            command: BitCommand(read_u32_le(grambuf, 8)),
            deviceid: read_u64_le(grambuf, 16),
            sender: ClientID::new(ClientPlanet(read_u32_le(grambuf, 24)), read_u32_le(grambuf, 28)),
            sendertype: ClientType(read_u32_le(grambuf, 32)),
            messagetype: MessageType(read_u32_le(grambuf, 36)),
            messageid: read_u32_le(grambuf, 40),
            returncode: ReturnCode(read_u32_le(grambuf, 44)),
            datasize: read_u32_le(grambuf, 48),
        }
    }

    /// Stamps a command header on the bytes of `byte_array`, as
    /// `create_command_data_gram_by_mut_u8` does, and returns it in place.
    pub fn create_command_data_gram_by_mut_vec8<'a>(byte_array: &'a mut Vec<u8>) -> (c:
        CommandDataGramMut<'a>)
        requires
            old(byte_array).len() >= COMMAND_LAYOUT_SIZE,
        ensures
            c.bytes() == stamp_command(old(byte_array)@),
            c.bytes().len() == old(byte_array)@.len(),
            c.header() == (CommandDataGram {
                bitcomm: BitcommFlag(0x43435442),
                version: BitcommVersion(0x00010001),
                datasize: (old(byte_array)@.len() - 56) as u32,
                ..command_from_bytes(old(byte_array)@)
            }),
            c.bytes().skip(56) == old(byte_array)@.skip(56),
            final(c.buf)@ == final(byte_array)@,
    {
        let grambuf: &mut [u8] = byte_array.as_mut_slice();
        Self::create_command_data_gram_by_mut_u8(grambuf)
    }

    /// Stamps a command header on `grambuf`: as payload size the number of
    /// bytes after the header, the command magic word and the protocol
    /// version. Returns the header in place: reading or setting a field
    /// through it reads or writes its bytes in `grambuf`.
    pub fn create_command_data_gram_by_mut_u8<'a>(grambuf: &'a mut [u8]) -> (c:
        CommandDataGramMut<'a>)
        requires
            old(grambuf).len() >= COMMAND_LAYOUT_SIZE,
        ensures
            c.bytes() == stamp_command(old(grambuf)@),
            c.bytes().len() == old(grambuf)@.len(),
            c.header() == (CommandDataGram {
                bitcomm: BitcommFlag(0x43435442),
                version: BitcommVersion(0x00010001),
                datasize: (old(grambuf)@.len() - 56) as u32,
                ..command_from_bytes(old(grambuf)@)
            }),
            c.bytes().skip(56) == old(grambuf)@.skip(56),
            final(c.buf)@ == final(grambuf)@,
    {
        proof {
            lemma_u32_le_roundtrip((old(grambuf)@.len() - COMMAND_LAYOUT_SIZE) as u32);
        }
        let datasize = #[verifier::truncate] ((grambuf.len() - Self::get_size()) as u32);
        write_u32_le(grambuf, 48, datasize);
        write_u32_le(grambuf, 0, BitcommFlag::bitcomm_command().bits());
        write_u32_le(grambuf, 4, BitcommVersion::bitcomm_version_0_1_0_1().bits());
        proof {
            lemma_command_stamp(old(grambuf)@);
        }
        CommandDataGramMut { buf: grambuf }
    }

    /// The size of the header, padded to its alignment.
    pub fn get_size() -> (n: usize)
        ensures
            n == COMMAND_LAYOUT_SIZE,
    {
        size_of_align_data_gram(COMMAND_LAYOUT_SIZE, COMMAND_LAYOUT_ALIGN)
    }

    /// A zeroed buffer for a command datagram with `datasize` bytes of
    /// payload after the header.
    pub fn create_gram_buf(datasize: usize) -> (v: Vec<u8>)
        requires
            datasize + COMMAND_LAYOUT_SIZE <= usize::MAX,
        ensures
            v@ == Seq::new((datasize + COMMAND_LAYOUT_SIZE) as nat, |i: int| 0u8),
    {
        let v: Vec<u8> = vec![0x00; datasize + size_of_align_data_gram(COMMAND_LAYOUT_SIZE, COMMAND_LAYOUT_ALIGN)];
        assert(v@ =~= Seq::new((datasize + COMMAND_LAYOUT_SIZE) as nat, |i: int| 0u8));
        v
    }

    /// Stamps a command header on `buf`, then lays out over it the response
    /// to `value`: `value` with the response bit added to its command.
    /// Returns that response in place.
    pub fn create_command_gram_from_gram<'a>(buf: &'a mut [u8], value: &CommandDataGram) -> (c:
        CommandDataGramMut<'a>)
        requires
            old(buf).len() >= COMMAND_LAYOUT_SIZE,
        ensures
            c.bytes() == splice(old(buf)@, 0, command_bytes(command_response(*value))),
            c.header() == command_response(*value),
            c.header().bitcomm == value.bitcomm,
            c.header().version == value.version,
            c.header().command.0 == value.command.0 | 0x80000000u32,
            c.header().deviceid == value.deviceid,
            c.header().sender == value.sender,
            c.header().sendertype == value.sendertype,
            c.header().messagetype == value.messagetype,
            c.header().messageid == value.messageid,
            c.header().returncode == value.returncode,
            c.header().datasize == value.datasize,
            c.bytes().len() == old(buf)@.len(),
            c.bytes().skip(56) == old(buf)@.skip(56),
            final(c.buf)@ == final(buf)@,
    {
        let ghost before = buf@;
        let command = Self::create_command_data_gram_by_mut_u8(buf);
        let mut response = *value;
        response.set_bitcomm(value.bitcomm());
        response.set_command(value.command().union(BitCommand::resp_mask()));
        response.write_to_u8(command.buf);
        proof {
            lemma_command_stamp(before);
            lemma_command_bytes_roundtrip(response);
            assert(command.bytes() =~= splice(before, 0, command_bytes(response)));
            lemma_command_write_then_read(before, response);
        }
        command
    }
}

/// Field accessors.
impl CommandDataGram {
    pub fn bitcomm(&self) -> (v: BitcommFlag)
        ensures
            v == self.bitcomm,
    {
        self.bitcomm
    }

    pub fn set_bitcomm(&mut self, val: BitcommFlag) -> (r: &mut Self)
        ensures
            *r == (CommandDataGram { bitcomm: val, ..*old(self) }),
            *final(self) == *final(r),
    {
        self.bitcomm = val;
        self
    }

    pub fn version(&self) -> (v: BitcommVersion)
        ensures
            v == self.version,
    {
        self.version
    }

    pub fn set_version(&mut self, val: BitcommVersion) -> (r: &mut Self)
        ensures
            *r == (CommandDataGram { version: val, ..*old(self) }),
            *final(self) == *final(r),
    {
        self.version = val;
        self
    }

    pub fn command(&self) -> (v: BitCommand)
        ensures
            v == self.command,
    {
        self.command
    }

    pub fn set_command(&mut self, val: BitCommand) -> (r: &mut Self)
        ensures
            *r == (CommandDataGram { command: val, ..*old(self) }),
            *final(self) == *final(r),
    {
        self.command = val;
        self
    }

    pub fn deviceid(&self) -> (v: u64)
        ensures
            v == self.deviceid,
    {
        self.deviceid
    }

    pub fn set_deviceid(&mut self, val: u64) -> (r: &mut Self)
        ensures
            *r == (CommandDataGram { deviceid: val, ..*old(self) }),
            *final(self) == *final(r),
    {
        self.deviceid = val;
        self
    }

    pub fn sender(&self) -> (v: ClientID)
        ensures
            v == self.sender,
    {
        self.sender
    }

    pub fn set_sender(&mut self, val: ClientID) -> (r: &mut Self)
        ensures
            *r == (CommandDataGram { sender: val, ..*old(self) }),
            *final(self) == *final(r),
    {
        self.sender = val;
        self
    }

    pub fn sendertype(&self) -> (v: ClientType)
        ensures
            v == self.sendertype,
    {
        self.sendertype
    }

    pub fn set_sendertype(&mut self, val: ClientType) -> (r: &mut Self)
        ensures
            *r == (CommandDataGram { sendertype: val, ..*old(self) }),
            *final(self) == *final(r),
    {
        self.sendertype = val;
        self
    }

    pub fn messagetype(&self) -> (v: MessageType)
        ensures
            v == self.messagetype,
    {
        self.messagetype
    }

    pub fn set_messagetype(&mut self, val: MessageType) -> (r: &mut Self)
        ensures
            *r == (CommandDataGram { messagetype: val, ..*old(self) }),
            *final(self) == *final(r),
    {
        self.messagetype = val;
        self
    }

    pub fn messageid(&self) -> (v: u32)
        ensures
            v == self.messageid,
    {
        self.messageid
    }

    pub fn set_messageid(&mut self, val: u32) -> (r: &mut Self)
        ensures
            *r == (CommandDataGram { messageid: val, ..*old(self) }),
            *final(self) == *final(r),
    {
        self.messageid = val;
        self
    }

    pub fn returncode(&self) -> (v: ReturnCode)
        ensures
            v == self.returncode,
    {
        self.returncode
    }

    pub fn set_returncode(&mut self, val: ReturnCode) -> (r: &mut Self)
        ensures
            *r == (CommandDataGram { returncode: val, ..*old(self) }),
            *final(self) == *final(r),
    {
        self.returncode = val;
        self
    }

    pub fn datasize(&self) -> (v: u32)
        ensures
            v == self.datasize,
    {
        self.datasize
    }

    pub fn set_datasize(&mut self, val: u32) -> (r: &mut Self)
        ensures
            *r == (CommandDataGram { datasize: val, ..*old(self) }),
            *final(self) == *final(r),
    {
        self.datasize = val;
        self
    }
}

/// A command datagram header in place: the buffer it is laid out in. Each
/// field is read from, and set by writing, its bytes in the buffer.
pub struct CommandDataGramMut<'a> {
    pub buf: &'a mut [u8],
}

impl<'a> CommandDataGramMut<'a> {
    /// The bytes of the buffer.
    pub open spec fn bytes(&self) -> Seq<u8> {
        self.buf@
    }

    /// The header laid out at the start of the buffer.
    pub open spec fn header(&self) -> CommandDataGram {
        command_from_bytes(self.buf@)
    }

    /// The whole header, as a value.
    pub fn get(&self) -> (h: CommandDataGram)
        requires
            self.bytes().len() >= COMMAND_LAYOUT_SIZE,
        ensures
            h == self.header(),
    {
        CommandDataGram::get_command_data_gram_by_u8(self.buf)
    }

    pub fn bitcomm(&self) -> (v: BitcommFlag)
        requires
            self.bytes().len() >= COMMAND_LAYOUT_SIZE,
        ensures
            v == self.header().bitcomm,
    {
        BitcommFlag(read_u32_le(self.buf, 0))
    }

    pub fn set_bitcomm(&mut self, val: BitcommFlag) -> (r: &mut Self)
        requires
            old(self).bytes().len() >= COMMAND_LAYOUT_SIZE,
        ensures
            r.bytes() == splice(old(self).bytes(), 0, u32_le(val.0)),
            r.header() == (CommandDataGram { bitcomm: val, ..old(self).header() }),
            final(r.buf)@ == final(old(self).buf)@,
            *final(self) == *final(r),
    {
        proof {
            broadcast use group_field_reads;
        }
        write_u32_le(self.buf, 0, val.0);
        self
    }

    pub fn version(&self) -> (v: BitcommVersion)
        requires
            self.bytes().len() >= COMMAND_LAYOUT_SIZE,
        ensures
            v == self.header().version,
    {
        BitcommVersion(read_u32_le(self.buf, 4))
    }

    pub fn set_version(&mut self, val: BitcommVersion) -> (r: &mut Self)
        requires
            old(self).bytes().len() >= COMMAND_LAYOUT_SIZE,
        ensures
            r.bytes() == splice(old(self).bytes(), 4, u32_le(val.0)),
            r.header() == (CommandDataGram { version: val, ..old(self).header() }),
            final(r.buf)@ == final(old(self).buf)@,
            *final(self) == *final(r),
    {
        proof {
            broadcast use group_field_reads;
        }
        write_u32_le(self.buf, 4, val.0);
        self
    }

    pub fn command(&self) -> (v: BitCommand)
        requires
            self.bytes().len() >= COMMAND_LAYOUT_SIZE,
        ensures
            v == self.header().command,
    {
        BitCommand(read_u32_le(self.buf, 8))
    }

    pub fn set_command(&mut self, val: BitCommand) -> (r: &mut Self)
        requires
            old(self).bytes().len() >= COMMAND_LAYOUT_SIZE,
        ensures
            r.bytes() == splice(old(self).bytes(), 8, u32_le(val.0)),
            r.header() == (CommandDataGram { command: val, ..old(self).header() }),
            final(r.buf)@ == final(old(self).buf)@,
            *final(self) == *final(r),
    {
        proof {
            broadcast use group_field_reads;
        }
        write_u32_le(self.buf, 8, val.0);
        self
    }

    pub fn deviceid(&self) -> (v: u64)
        requires
            self.bytes().len() >= COMMAND_LAYOUT_SIZE,
        ensures
            v == self.header().deviceid,
    {
        read_u64_le(self.buf, 16)
    }

    pub fn set_deviceid(&mut self, val: u64) -> (r: &mut Self)
        requires
            old(self).bytes().len() >= COMMAND_LAYOUT_SIZE,
        ensures
            r.bytes() == splice(old(self).bytes(), 16, u64_le(val)),
            r.header() == (CommandDataGram { deviceid: val, ..old(self).header() }),
            final(r.buf)@ == final(old(self).buf)@,
            *final(self) == *final(r),
    {
        proof {
            broadcast use group_field_reads;
        }
        write_u64_le(self.buf, 16, val);
        self
    }

    pub fn sender(&self) -> (v: ClientID)
        requires
            self.bytes().len() >= COMMAND_LAYOUT_SIZE,
        ensures
            v == self.header().sender,
    {
        ClientID::new(ClientPlanet(read_u32_le(self.buf, 24)), read_u32_le(self.buf, 28))
    }

    pub fn set_sender(&mut self, val: ClientID) -> (r: &mut Self)
        requires
            old(self).bytes().len() >= COMMAND_LAYOUT_SIZE,
        ensures
            r.bytes() == splice(splice(old(self).bytes(), 24, u32_le(val.planet.0)), 28, u32_le(val.object)),
            r.header() == (CommandDataGram { sender: val, ..old(self).header() }),
            final(r.buf)@ == final(old(self).buf)@,
            *final(self) == *final(r),
    {
        proof {
            broadcast use group_field_reads;
        }
        write_u32_le(self.buf, 24, val.planet.0);
        write_u32_le(self.buf, 28, val.object);
        self
    }

    pub fn sendertype(&self) -> (v: ClientType)
        requires
            self.bytes().len() >= COMMAND_LAYOUT_SIZE,
        ensures
            v == self.header().sendertype,
    {
        ClientType(read_u32_le(self.buf, 32))
    }

    pub fn set_sendertype(&mut self, val: ClientType) -> (r: &mut Self)
        requires
            old(self).bytes().len() >= COMMAND_LAYOUT_SIZE,
        ensures
            r.bytes() == splice(old(self).bytes(), 32, u32_le(val.0)),
            r.header() == (CommandDataGram { sendertype: val, ..old(self).header() }),
            final(r.buf)@ == final(old(self).buf)@,
            *final(self) == *final(r),
    {
        proof {
            broadcast use group_field_reads;
        }
        write_u32_le(self.buf, 32, val.0);
        self
    }

    pub fn messagetype(&self) -> (v: MessageType)
        requires
            self.bytes().len() >= COMMAND_LAYOUT_SIZE,
        ensures
            v == self.header().messagetype,
    {
        MessageType(read_u32_le(self.buf, 36))
    }

    pub fn set_messagetype(&mut self, val: MessageType) -> (r: &mut Self)
        requires
            old(self).bytes().len() >= COMMAND_LAYOUT_SIZE,
        ensures
            r.bytes() == splice(old(self).bytes(), 36, u32_le(val.0)),
            r.header() == (CommandDataGram { messagetype: val, ..old(self).header() }),
            final(r.buf)@ == final(old(self).buf)@,
            *final(self) == *final(r),
    {
        proof {
            broadcast use group_field_reads;
        }
        write_u32_le(self.buf, 36, val.0);
        self
    }

    pub fn messageid(&self) -> (v: u32)
        requires
            self.bytes().len() >= COMMAND_LAYOUT_SIZE,
        ensures
            v == self.header().messageid,
    {
        read_u32_le(self.buf, 40)
    }

    pub fn set_messageid(&mut self, val: u32) -> (r: &mut Self)
        requires
            old(self).bytes().len() >= COMMAND_LAYOUT_SIZE,
        ensures
            r.bytes() == splice(old(self).bytes(), 40, u32_le(val)),
            r.header() == (CommandDataGram { messageid: val, ..old(self).header() }),
            final(r.buf)@ == final(old(self).buf)@,
            *final(self) == *final(r),
    {
        proof {
            broadcast use group_field_reads;
        }
        write_u32_le(self.buf, 40, val);
        self
    }

    pub fn returncode(&self) -> (v: ReturnCode)
        requires
            self.bytes().len() >= COMMAND_LAYOUT_SIZE,
        ensures
            v == self.header().returncode,
    {
        ReturnCode(read_u32_le(self.buf, 44))
    }

    pub fn set_returncode(&mut self, val: ReturnCode) -> (r: &mut Self)
        requires
            old(self).bytes().len() >= COMMAND_LAYOUT_SIZE,
        ensures
            r.bytes() == splice(old(self).bytes(), 44, u32_le(val.0)),
            r.header() == (CommandDataGram { returncode: val, ..old(self).header() }),
            final(r.buf)@ == final(old(self).buf)@,
            *final(self) == *final(r),
    {
        proof {
            broadcast use group_field_reads;
        }
        write_u32_le(self.buf, 44, val.0);
        self
    }

    pub fn datasize(&self) -> (v: u32)
        requires
            self.bytes().len() >= COMMAND_LAYOUT_SIZE,
        ensures
            v == self.header().datasize,
    {
        read_u32_le(self.buf, 48)
    }

    pub fn set_datasize(&mut self, val: u32) -> (r: &mut Self)
        requires
            old(self).bytes().len() >= COMMAND_LAYOUT_SIZE,
        ensures
            r.bytes() == splice(old(self).bytes(), 48, u32_le(val)),
            r.header() == (CommandDataGram { datasize: val, ..old(self).header() }),
            final(r.buf)@ == final(old(self).buf)@,
            *final(self) == *final(r),
    {
        proof {
            broadcast use group_field_reads;
        }
        write_u32_le(self.buf, 48, val);
        self
    }
}

/// The byte buffers of the `bytes` crate, carried through unchanged.
#[verifier::external_type_specification]
#[verifier::external_body]
pub struct ExBytes(bytes::Bytes);

/// A received request: the buffer it arrived in and its header.
#[derive(Debug)]
pub enum InnerDataGram {
    Command { reqcmdbuff: Arc<bytes::Bytes>, reqcmdgram: Arc<CommandDataGram> },
    Message { reqmsgbuff: Arc<bytes::Bytes>, reqmsggram: Arc<MessageDataGram> },
}

/// An error about a datagram: a numeric code and a description.
#[derive(Debug)]
pub struct DataGramError {
    pub errcode: u32,
    pub details: String,
}

impl DataGramError {
    pub fn new(code: u32, tails: &str) -> (e: Self)
        ensures
            e.errcode == code,
            e.details@ == tails@,
    {
        DataGramError { errcode: code, details: tails.to_owned() }
    }

    /// The description of this error.
    pub fn description(&self) -> (d: &str)
        ensures
            d@ == self.details@,
    {
        self.details.as_str()
    }

    pub fn errcode(&self) -> (c: &u32)
        ensures
            *c == self.errcode,
    {
        &self.errcode
    }

    pub fn details(&self) -> (d: &String)
        ensures
            d@ == self.details@,
    {
        &self.details
    }

    pub fn set_errcode(&mut self, val: u32) -> (r: &mut Self)
        ensures
            r.errcode == val,
            r.details@ == old(self).details@,
            final(self).errcode == final(r).errcode,
            final(self).details@ == final(r).details@,
    {
        self.errcode = val;
        self
    }

    pub fn set_details(&mut self, val: String) -> (r: &mut Self)
        ensures
            r.errcode == old(self).errcode,
            r.details@ == val@,
            final(self).errcode == final(r).errcode,
            final(self).details@ == final(r).details@,
    {
        self.details = val;
        self
    }
}

} // verus!
