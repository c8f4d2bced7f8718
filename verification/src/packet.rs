//! The chat packet: a sender identifier, a text payload and their combined size.

use vstd::prelude::*;
use vstd::string::StringSliceAdditionalSpecFns;

verus! {

/// What a chat packet is for.
#[derive(Clone, Copy, Debug, PartialEq, Eq, Structural)]
pub enum MsgOpcode {
    Handshake,
    PlainMsg,
    Terminate,
}

impl MsgOpcode {
    /// The number that stands for the opcode on the wire.
    pub open spec fn spec_code(self) -> u8 {
        match self {
            MsgOpcode::Handshake => 0,
            MsgOpcode::PlainMsg => 1,
            MsgOpcode::Terminate => 2,
        }
    }

    /// The number that stands for the opcode on the wire.
    pub fn code(self) -> (c: u8)
        ensures
            c == self.spec_code(),
    {
        match self {
            MsgOpcode::Handshake => 0,
            MsgOpcode::PlainMsg => 1,
            MsgOpcode::Terminate => 2,
        }
    }

    /// The opcode that a wire number stands for, if any.
    pub fn from_code(c: u8) -> (op: Option<MsgOpcode>)
        ensures
            c > 2 <==> op.is_none(),
            op.is_some() ==> op.unwrap().spec_code() == c,
    {
        if c == 0 {
            Some(MsgOpcode::Handshake)
        } else if c == 1 {
            Some(MsgOpcode::PlainMsg)
        } else if c == 2 {
            Some(MsgOpcode::Terminate)
        } else {
            None
        }
    }
}

/// Number of bytes that `s` occupies in UTF-8.
pub open spec fn byte_len(s: Seq<char>) -> nat {
    vstd::utf8::encode_utf8(s).len()
}

/// A chat message: who sent it, what it says, and how many bytes the two take.
#[derive(Debug, Clone)]
pub struct MsgPacket {
    pub len: usize,
    pub id: String,
    pub data: String,
}

impl MsgPacket {
    /// `len` is the byte size of `id` and `data` together.
    pub open spec fn consistent(&self) -> bool {
        self.len == byte_len(self.id@) + byte_len(self.data@)
    }

    /// A packet from `id` that says `data`.
    pub fn new(id: &str, data: &str) -> (p: Self)
        requires
            byte_len(id@) + byte_len(data@) <= usize::MAX,
        ensures
            p.id@ == id@,
            p.data@ == data@,
            p.len == byte_len(id@) + byte_len(data@),
            p.consistent(),
    {
        MsgPacket { len: id.len() + data.len(), id: id.to_owned(), data: data.to_owned() }
    }

    /// The empty packet, used where a packet is needed and none could be read.
    pub fn dummy() -> (p: Self)
        ensures
            p.len == 0,
            p.id@ == Seq::<char>::empty(),
            p.data@ == Seq::<char>::empty(),
            p.consistent(),
    {
        proof {
            lemma_empty_has_no_bytes();
        }
        MsgPacket { len: 0, id: String::new(), data: String::new() }
    }

    /// `base` with its payload replaced by `data` and its size brought up to date.
    pub fn parse(base: Self, data: String) -> (p: Self)
        requires
            byte_len(base.id@) + byte_len(data@) <= usize::MAX,
        ensures
            p.id == base.id,
            p.data == data,
            p.len == byte_len(base.id@) + byte_len(data@),
            p.consistent(),
    {
        let mut base = base;
        base.data = data;
        base.len = base.id.as_str().len() + base.data.as_str().len();
        base
    }
}

/// The empty string takes no bytes.
pub proof fn lemma_empty_has_no_bytes()
    ensures
        byte_len(Seq::<char>::empty()) == 0,
{
    reveal_with_fuel(vstd::utf8::encode_utf8, 1);
}

} // verus!
