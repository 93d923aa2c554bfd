use vstd::prelude::*;
use vstd::bytes::{spec_u64_to_le_bytes, u64_from_le_bytes, u64_to_le_bytes, lemma_auto_spec_u64_to_from_le_bytes};
use vstd::slice::slice_subrange;
use crate::address::Address;
use crate::error::ProgramError;

verus! {

/// Number of bytes that a listing record takes in its account.
pub const RECORD_LEN: usize = 136;

/// An open listing: who sells which token, at what price, where the payment
/// goes and which account holds the token meanwhile.
#[derive(Clone, Copy, Debug, PartialEq, Eq)]
pub struct ItemMetadata {
    /// Seller address
    pub seller: Address,
    /// Mint of the token on sale
    pub mint: Address,
    /// Selling price
    pub lamports: u64,
    /// Token account that receives the payment
    pub payment: Address,
    /// Token account of the program that holds the token
    pub item: Address,
}

impl ItemMetadata {
    /// The bytes of the record in its account: the seller, the mint, the price
    /// as eight little-endian bytes, the payment account and the holding
    /// account, in this order.
    pub open spec fn encoding(self) -> Seq<u8> {
        self.seller@ + self.mint@ + spec_u64_to_le_bytes(self.lamports) + self.payment@
            + self.item@
    }

    /// The record that `bytes` encode, if they encode one.
    pub open spec fn decoding(bytes: Seq<u8>) -> Option<ItemMetadata> {
        if exists|m: ItemMetadata| m.encoding() == bytes {
            Some(choose|m: ItemMetadata| m.encoding() == bytes)
        } else {
            None
        }
    }

    /// Every record encodes to `RECORD_LEN` bytes, field after field.
    pub proof fn lemma_encoding_fields(self)
        ensures
            self.encoding().len() == RECORD_LEN,
            self.encoding().subrange(0, 32) == self.seller@,
            self.encoding().subrange(32, 64) == self.mint@,
            self.encoding().subrange(64, 72) == spec_u64_to_le_bytes(self.lamports),
            self.encoding().subrange(72, 104) == self.payment@,
            self.encoding().subrange(104, 136) == self.item@,
    {
        lemma_auto_spec_u64_to_from_le_bytes();
        let e = self.encoding();
        assert(e.subrange(0, 32) =~= self.seller@);
        assert(e.subrange(32, 64) =~= self.mint@);
        assert(e.subrange(64, 72) =~= spec_u64_to_le_bytes(self.lamports));
        assert(e.subrange(72, 104) =~= self.payment@);
        assert(e.subrange(104, 136) =~= self.item@);
    }

    /// Two records with the same bytes are the same record.
    pub proof fn lemma_encoding_injective(a: ItemMetadata, b: ItemMetadata)
        requires
            a.encoding() == b.encoding(),
        ensures
            a == b,
    {
        a.lemma_encoding_fields();
        b.lemma_encoding_fields();
        lemma_auto_spec_u64_to_from_le_bytes();
        Address::lemma_view_injective(a.seller, b.seller);
        Address::lemma_view_injective(a.mint, b.mint);
        Address::lemma_view_injective(a.payment, b.payment);
        Address::lemma_view_injective(a.item, b.item);
    }

    /// Decoding undoes encoding.
    pub proof fn lemma_decoding_of_encoding(self)
        ensures
            ItemMetadata::decoding(self.encoding()) == Some(self),
    {
        let m = choose|m: ItemMetadata| m.encoding() == self.encoding();
        ItemMetadata::lemma_encoding_injective(m, self);
    }

    /// Exactly the byte strings of length `RECORD_LEN` encode a record.
    pub proof fn lemma_decoding_defined(bytes: Seq<u8>)
        ensures
            ItemMetadata::decoding(bytes).is_some() ==> bytes.len() == RECORD_LEN,
            ItemMetadata::decoding(bytes) matches Some(m) ==> m.encoding() == bytes,
    {
        if ItemMetadata::decoding(bytes).is_some() {
            let m = choose|m: ItemMetadata| m.encoding() == bytes;
            m.lemma_encoding_fields();
        }
    }

    /// Writes the record out.
    pub fn pack(&self) -> (bytes: Vec<u8>)
        ensures
            bytes@ == self.encoding(),
            bytes@.len() == RECORD_LEN,
    {
        let mut buf: Vec<u8> = Vec::new();
        self.seller.append_to(&mut buf);
        self.mint.append_to(&mut buf);
        let price = u64_to_le_bytes(self.lamports);
        buf.extend_from_slice(price.as_slice());
        self.payment.append_to(&mut buf);
        self.item.append_to(&mut buf);
        proof {
            assert(buf@ =~= self.encoding());
            self.lemma_encoding_fields();
        }
        buf
    }

    /// Reads a record from the bytes of its account. The bytes must be the
    /// encoding of a record, no more and no less.
    pub fn unpack(bytes: &[u8]) -> (r: Result<ItemMetadata, ProgramError>)
        ensures
            r == match ItemMetadata::decoding(bytes@) {
                Some(m) => Ok::<ItemMetadata, ProgramError>(m),
                None => Err(ProgramError::BorshIoError),
            },
            r.is_ok() <==> bytes@.len() == RECORD_LEN,
    {
        if bytes.len() != RECORD_LEN {
            proof {
                ItemMetadata::lemma_decoding_defined(bytes@);
            }
            return Err(ProgramError::BorshIoError);
        }
        let m = ItemMetadata {
            seller: Address::from_slice(bytes, 0),
            mint: Address::from_slice(bytes, 32),
            lamports: u64_from_le_bytes(slice_subrange(bytes, 64, 72)),
            payment: Address::from_slice(bytes, 72),
            item: Address::from_slice(bytes, 104),
        };
        proof {
            lemma_auto_spec_u64_to_from_le_bytes();
            assert(spec_u64_to_le_bytes(m.lamports) == bytes@.subrange(64, 72));
            assert(m.encoding() =~= bytes@);
            m.lemma_decoding_of_encoding();
        }
        Ok(m)
    }
}

} // verus!
