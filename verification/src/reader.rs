//! Reading values off account data, one after another.

use vstd::prelude::*;

use crate::layout::{bool_bytes, le_bytes, le_value, lemma_le_bytes_of_value, option_u16_bytes};
use crate::pubkey::Pubkey;

verus! {

broadcast use crate::layout::lemma_le_bytes_len;

/// `anchor_lang::AnchorDeserialize::deserialize` for `u8`: the first byte, if there is one.
#[verifier::external_body]
fn decode_u8(buf: &[u8]) -> (value: Option<u8>)
    ensures
        value is Some <==> buf@.len() >= 1,
        value matches Some(v) ==> v == buf@[0],
{
    let mut rest: &[u8] = buf;
    <u8 as anchor_lang::AnchorDeserialize>::deserialize(&mut rest).ok()
}

/// `anchor_lang::AnchorDeserialize::deserialize` for `u16`: the number that the first two bytes
/// stand for, least significant first, if there are as many.
#[verifier::external_body]
fn decode_u16(buf: &[u8]) -> (value: Option<u16>)
    ensures
        value is Some <==> buf@.len() >= 2,
        value matches Some(v) ==> v == le_value(buf@.take(2)),
{
    let mut rest: &[u8] = buf;
    <u16 as anchor_lang::AnchorDeserialize>::deserialize(&mut rest).ok()
}

/// `anchor_lang::AnchorDeserialize::deserialize` for `u64`: the number that the first eight bytes
/// stand for, least significant first, if there are as many.
#[verifier::external_body]
fn decode_u64(buf: &[u8]) -> (value: Option<u64>)
    ensures
        value is Some <==> buf@.len() >= 8,
        value matches Some(v) ==> v == le_value(buf@.take(8)),
{
    let mut rest: &[u8] = buf;
    <u64 as anchor_lang::AnchorDeserialize>::deserialize(&mut rest).ok()
}

/// `anchor_lang::AnchorDeserialize::deserialize` for `u128`: the number that the first sixteen
/// bytes stand for, least significant first, if there are as many.
#[verifier::external_body]
fn decode_u128(buf: &[u8]) -> (value: Option<u128>)
    ensures
        value is Some <==> buf@.len() >= 16,
        value matches Some(v) ==> v == le_value(buf@.take(16)),
{
    let mut rest: &[u8] = buf;
    <u128 as anchor_lang::AnchorDeserialize>::deserialize(&mut rest).ok()
}

/// `anchor_lang::AnchorDeserialize::deserialize` for `[u8; 32]`: the first thirty-two bytes, if
/// there are as many.
#[verifier::external_body]
fn decode_bytes32(buf: &[u8]) -> (value: Option<[u8; 32]>)
    ensures
        value is Some <==> buf@.len() >= 32,
        value matches Some(v) ==> v@ == buf@.take(32),
{
    let mut rest: &[u8] = buf;
    <[u8; 32] as anchor_lang::AnchorDeserialize>::deserialize(&mut rest).ok()
}

/// `anchor_lang::AnchorDeserialize::deserialize` for `bool`: whether the first byte is 1, if there
/// is one and it is 0 or 1.
#[verifier::external_body]
fn decode_bool(buf: &[u8]) -> (value: Option<bool>)
    ensures
        match value {
            Some(v) => buf@.len() >= 1 && buf@[0] == (if v { 1u8 } else { 0u8 }),
            None => buf@.len() == 0 || buf@[0] > 1,
        },
{
    let mut rest: &[u8] = buf;
    <bool as anchor_lang::AnchorDeserialize>::deserialize(&mut rest).ok()
}

/// `anchor_lang::AnchorDeserialize::deserialize` for `Option<u16>`: nothing if the first byte is 0,
/// the number in the two bytes behind it if it is 1. It fails on any other first byte and where
/// bytes are missing.
#[verifier::external_body]
fn decode_option_u16(buf: &[u8]) -> (value: Option<Option<u16>>)
    ensures
        match value {
            Some(None) => buf@.len() >= 1 && buf@[0] == 0,
            Some(Some(n)) => buf@.len() >= 3 && buf@[0] == 1 && n == le_value(buf@.subrange(1, 3)),
            None => buf@.len() == 0 || buf@[0] > 1 || (buf@[0] == 1 && buf@.len() < 3),
        },
{
    let mut rest: &[u8] = buf;
    <Option<u16> as anchor_lang::AnchorDeserialize>::deserialize(&mut rest).ok()
}

/// A place in account data: what stands before it has been read.
pub struct Reader<'a> {
    data: &'a [u8],
    pos: usize,
}

impl<'a> Reader<'a> {
    pub closed spec fn wf(self) -> bool {
        self.pos <= self.data@.len()
    }

    /// All the data.
    pub closed spec fn data(self) -> Seq<u8> {
        self.data@
    }

    /// How many bytes have been read.
    pub closed spec fn pos(self) -> int {
        self.pos as int
    }

    /// The bytes that have been read.
    pub open spec fn consumed(self) -> Seq<u8> {
        self.data().take(self.pos())
    }

    /// Whether `self` is `before` after `bytes` have been read from it.
    pub open spec fn has_read(self, before: Reader<'a>, bytes: Seq<u8>) -> bool {
        &&& self.wf()
        &&& self.data() == before.data()
        &&& self.pos() == before.pos() + bytes.len()
        &&& self.pos() <= self.data().len()
        &&& self.consumed() == before.consumed() + bytes
    }

    pub fn new(data: &'a [u8]) -> (reader: Reader<'a>)
        ensures
            reader.wf(),
            reader.data() == data@,
            reader.pos() == 0,
    {
        Reader { data, pos: 0 }
    }

    /// What has not been read.
    fn rest(&self) -> (rest: &'a [u8])
        requires
            self.wf(),
        ensures
            rest@ == self.data().skip(self.pos()),
            self.data().len() <= usize::MAX,
    {
        vstd::slice::slice_subrange(self.data, self.pos, self.data.len())
    }

    proof fn lemma_advance(self, before: Reader<'a>, bytes: Seq<u8>)
        requires
            before.wf(),
            self.data@ == before.data@,
            self.pos == before.pos + bytes.len(),
            self.pos <= self.data@.len(),
            before.data@.skip(before.pos as int).take(bytes.len() as int) == bytes,
        ensures
            self.has_read(before, bytes),
    {
        assert(self.consumed() =~= before.consumed() + bytes) by {
            assert forall|i: int| 0 <= i < bytes.len() implies bytes[i] == before.data@[before.pos
                + i] by {
                assert(bytes[i] == before.data@.skip(before.pos as int).take(
                    bytes.len() as int,
                )[i]);
            }
        }
    }

    pub fn read_u8(&mut self) -> (value: Option<u8>)
        requires
            old(self).wf(),
        ensures
            match value {
                Some(v) => final(self).has_read(*old(self), seq![v]),
                None => *final(self) == *old(self) && old(self).data().len() < old(self).pos() + 1,
            },
    {
        let ghost before = *self;
        let value = decode_u8(self.rest());
        if let Some(v) = value {
            self.pos = self.pos + 1;
            proof {
                assert(before.data@.skip(before.pos as int).take(1) =~= seq![v]);
                self.lemma_advance(before, seq![v]);
            }
        }
        value
    }

    pub fn read_u16(&mut self) -> (value: Option<u16>)
        requires
            old(self).wf(),
        ensures
            match value {
                Some(v) => final(self).has_read(*old(self), le_bytes(v as nat, 2)),
                None => *final(self) == *old(self) && old(self).data().len() < old(self).pos() + 2,
            },
    {
        let ghost before = *self;
        let value = decode_u16(self.rest());
        if let Some(v) = value {
            self.pos = self.pos + 2;
            proof {
                lemma_le_bytes_of_value(before.data@.skip(before.pos as int).take(2));
                self.lemma_advance(before, le_bytes(v as nat, 2));
            }
        }
        value
    }

    pub fn read_u64(&mut self) -> (value: Option<u64>)
        requires
            old(self).wf(),
        ensures
            match value {
                Some(v) => final(self).has_read(*old(self), le_bytes(v as nat, 8)),
                None => *final(self) == *old(self) && old(self).data().len() < old(self).pos() + 8,
            },
    {
        let ghost before = *self;
        let value = decode_u64(self.rest());
        if let Some(v) = value {
            self.pos = self.pos + 8;
            proof {
                lemma_le_bytes_of_value(before.data@.skip(before.pos as int).take(8));
                self.lemma_advance(before, le_bytes(v as nat, 8));
            }
        }
        value
    }

    pub fn read_u128(&mut self) -> (value: Option<u128>)
        requires
            old(self).wf(),
        ensures
            match value {
                Some(v) => final(self).has_read(*old(self), le_bytes(v as nat, 16)),
                None => *final(self) == *old(self) && old(self).data().len() < old(self).pos() + 16,
            },
    {
        let ghost before = *self;
        let value = decode_u128(self.rest());
        if let Some(v) = value {
            self.pos = self.pos + 16;
            proof {
                lemma_le_bytes_of_value(before.data@.skip(before.pos as int).take(16));
                self.lemma_advance(before, le_bytes(v as nat, 16));
            }
        }
        value
    }

    pub fn read_bytes32(&mut self) -> (value: Option<[u8; 32]>)
        requires
            old(self).wf(),
        ensures
            match value {
                Some(v) => final(self).has_read(*old(self), v@),
                None => *final(self) == *old(self) && old(self).data().len() < old(self).pos() + 32,
            },
    {
        let ghost before = *self;
        let value = decode_bytes32(self.rest());
        if let Some(v) = value {
            self.pos = self.pos + 32;
            proof {
                self.lemma_advance(before, v@);
            }
        }
        value
    }

    pub fn read_pubkey(&mut self) -> (value: Option<Pubkey>)
        requires
            old(self).wf(),
        ensures
            match value {
                Some(v) => final(self).has_read(*old(self), v@),
                None => *final(self) == *old(self) && old(self).data().len() < old(self).pos() + 32,
            },
    {
        match self.read_bytes32() {
            Some(bytes) => Some(Pubkey { bytes }),
            None => None,
        }
    }

    pub fn read_bool(&mut self) -> (value: Option<bool>)
        requires
            old(self).wf(),
        ensures
            match value {
                Some(v) => final(self).has_read(*old(self), bool_bytes(v)),
                None => *final(self) == *old(self) && {
                    ||| old(self).data().len() < old(self).pos() + 1
                    ||| old(self).data()[old(self).pos()] > 1
                },
            },
    {
        let ghost before = *self;
        let value = decode_bool(self.rest());
        if let Some(v) = value {
            self.pos = self.pos + 1;
            proof {
                assert(before.data@.skip(before.pos as int).take(1) =~= bool_bytes(v));
                self.lemma_advance(before, bool_bytes(v));
            }
        }
        value
    }

    pub fn read_option_u16(&mut self) -> (value: Option<Option<u16>>)
        requires
            old(self).wf(),
        ensures
            match value {
                Some(v) => {
                    &&& final(self).has_read(*old(self), option_u16_bytes(v))
                    &&& old(self).data()[old(self).pos()] == (if v is Some { 1u8 } else { 0u8 })
                },
                None => *final(self) == *old(self) && {
                    ||| old(self).data().len() < old(self).pos() + 1
                    ||| old(self).data()[old(self).pos()] > 1
                    ||| old(self).data()[old(self).pos()] == 1 && old(self).data().len()
                        < old(self).pos() + 3
                },
            },
    {
        let ghost before = *self;
        let ghost rest = self.data@.skip(self.pos as int);
        let value = decode_option_u16(self.rest());
        if let Some(v) = value {
            match v {
                Some(n) => {
                    self.pos = self.pos + 3;
                    proof {
                        lemma_le_bytes_of_value(rest.subrange(1, 3));
                        assert(rest.take(3) =~= seq![1u8] + rest.subrange(1, 3));
                        self.lemma_advance(before, option_u16_bytes(v));
                    }
                },
                None => {
                    self.pos = self.pos + 1;
                    proof {
                        assert(rest.take(1) =~= seq![0u8]);
                        self.lemma_advance(before, option_u16_bytes(v));
                    }
                },
            }
        }
        value
    }
}

} // verus!
