//! Escrow marketplace for unique tokens: a seller records a listing for a token
//! that already sits in a holding account of the program, a buyer pays the
//! listed price and receives the token, or the seller takes the token back.
//!
//! The crate decides; it does not act. Each instruction is checked against the
//! accounts it names and answered with a `Plan`: the calls of other programs
//! that carry it out, and the change to the listing record that follows them.

use vstd::prelude::*;
use crate::address::{derived_address, find_program_address, Address};

pub mod account;
pub mod address;
pub mod error;
pub mod instruction;
pub mod ledger;
pub mod processor;
pub mod state;
pub mod system;
pub mod token;

verus! {

/// The tag under which the holding address of a mint is derived: `item`.
pub const ITEM_SEED: [u8; 4] = [105, 116, 101, 109];

/// The tag under which the address of a mint's listing record is derived:
/// `item-metadata`.
pub const ITEM_METADATA_SEED: [u8; 13] = [
    105, 116, 101, 109, 45, 109, 101, 116, 97, 100, 97, 116, 97,
];

/// One of the two tags.
#[derive(Clone, Copy, Debug, PartialEq, Eq, Structural)]
pub enum Seed {
    Item,
    ItemMetadata,
}

impl Seed {
    /// The bytes of the tag.
    pub open spec fn tag(self) -> Seq<u8> {
        match self {
            Seed::Item => ITEM_SEED@,
            Seed::ItemMetadata => ITEM_METADATA_SEED@,
        }
    }

    /// The bytes of the tag.
    pub fn bytes(self) -> (b: Vec<u8>)
        ensures
            b@ == self.tag(),
    {
        let mut b: Vec<u8> = Vec::new();
        match self {
            Seed::Item => {
                let mut i: usize = 0;
                while i < 4
                    invariant
                        i <= 4,
                        b@ == ITEM_SEED@.subrange(0, i as int),
                    decreases 4 - i,
                {
                    b.push(ITEM_SEED[i]);
                    i += 1;
                }
                assert(b@ =~= ITEM_SEED@);
            },
            Seed::ItemMetadata => {
                let mut i: usize = 0;
                while i < 13
                    invariant
                        i <= 13,
                        b@ == ITEM_METADATA_SEED@.subrange(0, i as int),
                    decreases 13 - i,
                {
                    b.push(ITEM_METADATA_SEED[i]);
                    i += 1;
                }
                assert(b@ =~= ITEM_METADATA_SEED@);
            },
        }
        b
    }
}

/// The address under which the program holds the token of `mint`, with its
/// bump seed. Nobody has a key for it: only the program can sign for it.
pub fn find_item_address(program_id: &Address, mint: &Address) -> (r: Option<(Address, u8)>)
    ensures
        r == derived_address(Seed::Item.tag(), *mint, *program_id),
{
    find_program_address(&ITEM_SEED, mint, program_id)
}

/// The address of the listing record of `mint`, with its bump seed.
pub fn find_item_metadata_address(program_id: &Address, mint: &Address) -> (r: Option<
    (Address, u8),
>)
    ensures
        r == derived_address(Seed::ItemMetadata.tag(), *mint, *program_id),
{
    find_program_address(&ITEM_METADATA_SEED, mint, program_id)
}

} // verus!
