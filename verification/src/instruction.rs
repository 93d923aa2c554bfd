use vstd::prelude::*;
use vstd::bytes::{spec_u64_to_le_bytes, u64_from_le_bytes, u64_to_le_bytes, lemma_auto_spec_u64_to_from_le_bytes};
use vstd::slice::slice_subrange;
use crate::address::{derived_address, Address};
use crate::error::ProgramError;
use crate::system::system_program;
use crate::token::token_program;
use crate::Seed;

verus! {

/// What the program is asked to do.
#[derive(Clone, Copy, Debug, PartialEq, Eq, Structural)]
pub enum TradeYardInstruction {
    /// Open a listing for a token that is already in the program's custody.
    Sell,
    /// Pay the listed price and receive the token.
    Buy,
    /// Close the listing and take the token back.
    Cancel,
}

/// The arguments of an instruction. Only `Sell` carries any.
#[derive(Clone, Copy, Debug, PartialEq, Eq)]
pub struct Args {
    /// Selling price
    pub lamports: Option<u64>,
    /// Bump seed of the listing record's address
    pub metadata_bump: Option<u8>,
}

/// An instruction as it travels: the discriminant, then the arguments.
#[derive(Clone, Copy, Debug, PartialEq, Eq)]
pub struct Payload {
    pub instruction: u8,
    pub args: Args,
}

/// An account that an instruction names, and what the instruction may do
/// with it.
#[derive(Clone, Copy, Debug, PartialEq, Eq)]
pub struct AccountMeta {
    pub pubkey: Address,
    /// Whether the account has to sign the transaction.
    pub is_signer: bool,
    /// Whether the instruction may change the account.
    pub is_writable: bool,
}

impl AccountMeta {
    /// An account that the instruction may change.
    pub fn new(pubkey: Address, is_signer: bool) -> (m: AccountMeta)
        ensures
            m == (AccountMeta { pubkey, is_signer, is_writable: true }),
    {
        AccountMeta { pubkey, is_signer, is_writable: true }
    }

    /// An account that the instruction only reads.
    pub fn new_readonly(pubkey: Address, is_signer: bool) -> (m: AccountMeta)
        ensures
            m == (AccountMeta { pubkey, is_signer, is_writable: false }),
    {
        AccountMeta { pubkey, is_signer, is_writable: false }
    }
}

/// A call of a program: which program, on which accounts, with what data.
#[derive(Clone, Debug, PartialEq, Eq)]
pub struct Instruction {
    pub program_id: Address,
    pub accounts: Vec<AccountMeta>,
    pub data: Vec<u8>,
}

/// An `Instruction` as a mathematical value.
pub struct InstructionView {
    pub program_id: Address,
    pub accounts: Seq<AccountMeta>,
    pub data: Seq<u8>,
}

impl View for Instruction {
    type V = InstructionView;

    open spec fn view(&self) -> InstructionView {
        InstructionView { program_id: self.program_id, accounts: self.accounts@, data: self.data@ }
    }
}

/// An optional price on the wire: the byte 0, or the byte 1 and the price as
/// eight little-endian bytes.
pub open spec fn price_encoding(price: Option<u64>) -> Seq<u8> {
    match price {
        None => seq![0u8],
        Some(x) => seq![1u8] + spec_u64_to_le_bytes(x),
    }
}

/// An optional bump seed on the wire: the byte 0, or the byte 1 and the seed.
pub open spec fn bump_encoding(bump: Option<u8>) -> Seq<u8> {
    match bump {
        None => seq![0u8],
        Some(b) => seq![1u8, b],
    }
}

impl TradeYardInstruction {
    /// The instruction that a discriminant selects.
    pub open spec fn of_discriminant(d: u8) -> Option<TradeYardInstruction> {
        if d == 0 {
            Some(TradeYardInstruction::Sell)
        } else if d == 1 {
            Some(TradeYardInstruction::Buy)
        } else if d == 2 {
            Some(TradeYardInstruction::Cancel)
        } else {
            None
        }
    }

    /// The discriminant that selects the instruction.
    pub open spec fn spec_discriminant(self) -> u8 {
        match self {
            TradeYardInstruction::Sell => 0,
            TradeYardInstruction::Buy => 1,
            TradeYardInstruction::Cancel => 2,
        }
    }

    /// The discriminant that selects the instruction.
    #[verifier::when_used_as_spec(spec_discriminant)]
    pub fn discriminant(self) -> (d: u8)
        ensures
            d == self.spec_discriminant(),
            TradeYardInstruction::of_discriminant(d) == Some(self),
    {
        match self {
            TradeYardInstruction::Sell => 0,
            TradeYardInstruction::Buy => 1,
            TradeYardInstruction::Cancel => 2,
        }
    }

    /// What `unpack` makes of instruction data: bytes that encode no payload
    /// are an I/O error of the decoder, a payload with an unknown discriminant
    /// is invalid instruction data.
    pub open spec fn unpacking(data: Seq<u8>) -> Result<(TradeYardInstruction, Args), ProgramError> {
        match Payload::decoding(data) {
            None => Err(ProgramError::BorshIoError),
            Some(p) => match TradeYardInstruction::of_discriminant(p.instruction) {
                Some(i) => Ok((i, p.args)),
                None => Err(ProgramError::InvalidInstructionData),
            },
        }
    }

    /// Reads the instruction and its arguments from instruction data.
    pub fn unpack(instruction_data: &[u8]) -> (r: Result<(TradeYardInstruction, Args), ProgramError>)
        ensures
            r == TradeYardInstruction::unpacking(instruction_data@),
    {
        let payload = match Payload::unpack(instruction_data) {
            Ok(p) => p,
            Err(e) => {
                return Err(e);
            },
        };
        let instruction = match payload.instruction {
            0 => TradeYardInstruction::Sell,
            1 => TradeYardInstruction::Buy,
            2 => TradeYardInstruction::Cancel,
            _ => {
                return Err(ProgramError::InvalidInstructionData);
            },
        };
        Ok((instruction, payload.args))
    }
}

impl Args {
    /// The arguments on the wire: the optional price, then the optional bump
    /// seed.
    pub open spec fn encoding(self) -> Seq<u8> {
        price_encoding(self.lamports) + bump_encoding(self.metadata_bump)
    }
}

impl Payload {
    /// The payload on the wire: the discriminant byte, then the arguments.
    pub open spec fn encoding(self) -> Seq<u8> {
        seq![self.instruction] + self.args.encoding()
    }

    /// The payload that `bytes` encode, if they encode one.
    pub open spec fn decoding(bytes: Seq<u8>) -> Option<Payload> {
        if exists|p: Payload| p.encoding() == bytes {
            Some(choose|p: Payload| p.encoding() == bytes)
        } else {
            None
        }
    }

    /// Where each part of a payload stands in its encoding.
    pub proof fn lemma_encoding_shape(self)
        ensures
            self.encoding().len() >= 3,
            self.encoding()[0] == self.instruction,
            match self.args.lamports {
                None => self.encoding()[1] == 0 && self.encoding().skip(2) == bump_encoding(
                    self.args.metadata_bump,
                ),
                Some(x) => self.encoding()[1] == 1 && self.encoding().len() >= 11
                    && self.encoding().subrange(2, 10) == spec_u64_to_le_bytes(x)
                    && self.encoding().skip(10) == bump_encoding(self.args.metadata_bump),
            },
    {
        lemma_auto_spec_u64_to_from_le_bytes();
        let e = self.encoding();
        match self.args.lamports {
            None => {
                assert(e.skip(2) =~= bump_encoding(self.args.metadata_bump));
            },
            Some(x) => {
                assert(e.subrange(2, 10) =~= spec_u64_to_le_bytes(x));
                assert(e.skip(10) =~= bump_encoding(self.args.metadata_bump));
            },
        }
    }

    /// Two payloads with the same bytes are the same payload.
    pub proof fn lemma_encoding_injective(a: Payload, b: Payload)
        requires
            a.encoding() == b.encoding(),
        ensures
            a == b,
    {
        a.lemma_encoding_shape();
        b.lemma_encoding_shape();
        lemma_auto_spec_u64_to_from_le_bytes();
        let ea = bump_encoding(a.args.metadata_bump);
        let eb = bump_encoding(b.args.metadata_bump);
        assert(ea == eb);
        assert(ea.len() == eb.len());
        if a.args.metadata_bump is Some {
            assert(ea[1] == eb[1]);
        }
    }

    /// Decoding undoes encoding.
    pub proof fn lemma_decoding_of_encoding(self)
        ensures
            Payload::decoding(self.encoding()) == Some(self),
    {
        let p = choose|p: Payload| p.encoding() == self.encoding();
        Payload::lemma_encoding_injective(p, self);
    }

    /// Writes the payload out.
    pub fn pack(&self) -> (bytes: Vec<u8>)
        ensures
            bytes@ == self.encoding(),
    {
        let mut buf: Vec<u8> = Vec::new();
        buf.push(self.instruction);
        match self.args.lamports {
            None => {
                buf.push(0);
            },
            Some(x) => {
                buf.push(1);
                let price = u64_to_le_bytes(x);
                buf.extend_from_slice(price.as_slice());
            },
        }
        match self.args.metadata_bump {
            None => {
                buf.push(0);
            },
            Some(b) => {
                buf.push(1);
                buf.push(b);
            },
        }
        assert(buf@ =~= self.encoding());
        buf
    }

    /// Reads the optional bump seed that fills `bytes` from `at` to the end.
    fn unpack_bump(bytes: &[u8], at: usize) -> (r: Option<Option<u8>>)
        requires
            at <= bytes@.len(),
        ensures
            match r {
                Some(b) => bytes@.skip(at as int) == bump_encoding(b),
                None => forall|b: Option<u8>| bytes@.skip(at as int) != bump_encoding(b),
            },
    {
        let n = bytes.len();
        let ghost rest = bytes@.skip(at as int);
        if n - at == 1 && bytes[at] == 0 {
            assert(rest =~= bump_encoding(None));
            Some(None)
        } else if n - at == 2 && bytes[at] == 1 {
            assert(rest =~= bump_encoding(Some(bytes@[at + 1])));
            Some(Some(bytes[at + 1]))
        } else {
            assert forall|b: Option<u8>| rest != bump_encoding(b) by {
                if rest == bump_encoding(b) {
                    assert(rest.len() == bump_encoding(b).len());
                    assert(rest[0] == bump_encoding(b)[0]);
                }
            }
            None
        }
    }

    /// Reads a payload from instruction data. The data must be the encoding
    /// of a payload, no more and no less.
    pub fn unpack(bytes: &[u8]) -> (r: Result<Payload, ProgramError>)
        ensures
            r == match Payload::decoding(bytes@) {
                Some(p) => Ok::<Payload, ProgramError>(p),
                None => Err(ProgramError::BorshIoError),
            },
    {
        let n = bytes.len();
        let mut found: Option<Payload> = None;
        if n >= 2 {
            if bytes[1] == 0 {
                if let Some(metadata_bump) = Payload::unpack_bump(bytes, 2) {
                    found = Some(Payload { instruction: bytes[0], args: Args { lamports: None, metadata_bump } });
                }
            } else if bytes[1] == 1 && n >= 10 {
                if let Some(metadata_bump) = Payload::unpack_bump(bytes, 10) {
                    let price = u64_from_le_bytes(slice_subrange(bytes, 2, 10));
                    found = Some(Payload { instruction: bytes[0], args: Args { lamports: Some(price), metadata_bump } });
                }
            }
        }
        match found {
            Some(p) => {
                proof {
                    lemma_auto_spec_u64_to_from_le_bytes();
                    assert(p.encoding() =~= bytes@) by {
                        p.lemma_encoding_shape();
                        let k: int = if p.args.lamports is Some { 10 } else { 2 };
                        assert(bytes@ =~= bytes@.subrange(0, k) + bytes@.skip(k));
                        assert(p.encoding() =~= p.encoding().subrange(0, k) + p.encoding().skip(k));
                        assert(p.encoding().subrange(0, k) =~= bytes@.subrange(0, k)) by {
                            if p.args.lamports is Some {
                                assert(bytes@.subrange(0, 10) =~= seq![bytes@[0], bytes@[1]] + bytes@.subrange(2, 10));
                                assert(p.encoding().subrange(0, 10) =~= seq![bytes@[0], bytes@[1]] + p.encoding().subrange(2, 10));
                            }
                        }
                    }
                    p.lemma_decoding_of_encoding();
                }
                Ok(p)
            },
            None => {
                proof {
                    assert forall|p: Payload| p.encoding() != bytes@ by {
                        p.lemma_encoding_shape();
                    }
                }
                Err(ProgramError::BorshIoError)
            },
        }
    }
}

/// The instruction data that select `instruction` with the given arguments.
pub open spec fn instruction_data(instruction: TradeYardInstruction, args: Args) -> Seq<u8> {
    (Payload { instruction: instruction.spec_discriminant(), args }).encoding()
}

/// The program reads instruction data back as the instruction and the
/// arguments that they were made from.
pub proof fn lemma_unpacking_of_instruction_data(instruction: TradeYardInstruction, args: Args)
    ensures
        TradeYardInstruction::unpacking(instruction_data(instruction, args)) == Ok::<
            (TradeYardInstruction, Args),
            ProgramError,
        >((instruction, args)),
{
    (Payload { instruction: instruction.spec_discriminant(), args }).lemma_decoding_of_encoding();
}

/// The `Sell` instruction for a token: the seller signs and pays, the holding
/// account, the mint and the payment account are read, the record's account
/// at its derived address is written, and the system program comes last. The
/// arguments carry the price and the bump seed of the record's address. There
/// is no instruction where the record has no address.
pub open spec fn sell_instruction(
    program_id: Address,
    seller: Address,
    program_item_wallet: Address,
    mint: Address,
    payment: Address,
    lamports: u64,
) -> Option<InstructionView> {
    match derived_address(Seed::ItemMetadata.tag(), mint, program_id) {
        None => None,
        Some((record, bump)) => Some(
            InstructionView {
                program_id,
                accounts: seq![
                    AccountMeta { pubkey: seller, is_signer: true, is_writable: true },
                    AccountMeta { pubkey: program_item_wallet, is_signer: false, is_writable: false },
                    AccountMeta { pubkey: mint, is_signer: false, is_writable: false },
                    AccountMeta { pubkey: record, is_signer: false, is_writable: true },
                    AccountMeta { pubkey: payment, is_signer: false, is_writable: false },
                    AccountMeta { pubkey: system_program(), is_signer: false, is_writable: false },
                ],
                data: instruction_data(
                    TradeYardInstruction::Sell,
                    Args { lamports: Some(lamports), metadata_bump: Some(bump) },
                ),
            },
        ),
    }
}

/// Builds the `Sell` instruction that lists the token of `mint` at the price
/// `lamports`.
pub fn sell(
    program_id: &Address,
    seller: &Address,
    program_item_wallet: &Address,
    mint: &Address,
    payment: &Address,
    lamports: u64,
) -> (r: Option<Instruction>)
    ensures
        match r {
            Some(ix) => sell_instruction(
                *program_id,
                *seller,
                *program_item_wallet,
                *mint,
                *payment,
                lamports,
            ) == Some(ix@),
            None => sell_instruction(
                *program_id,
                *seller,
                *program_item_wallet,
                *mint,
                *payment,
                lamports,
            ).is_none(),
        },
{
    let (item_metadata_addr, item_metadata_bump) = match crate::find_item_metadata_address(
        program_id,
        mint,
    ) {
        Some(found) => found,
        None => {
            return None;
        },
    };
    let payload = Payload {
        instruction: TradeYardInstruction::Sell.discriminant(),
        args: Args { lamports: Some(lamports), metadata_bump: Some(item_metadata_bump) },
    };
    let accounts = vec![
        AccountMeta::new(*seller, true),
        AccountMeta::new_readonly(*program_item_wallet, false),
        AccountMeta::new_readonly(*mint, false),
        AccountMeta::new(item_metadata_addr, false),
        AccountMeta::new_readonly(*payment, false),
        AccountMeta::new_readonly(crate::system::id(), false),
    ];
    let ix = Instruction { program_id: *program_id, accounts, data: payload.pack() };
    proof {
        let expected = sell_instruction(
            *program_id,
            *seller,
            *program_item_wallet,
            *mint,
            *payment,
            lamports,
        )->0;
        assert(ix@.accounts =~= expected.accounts);
    }
    Some(ix)
}

/// The `Cancel` instruction for a token: the seller signs, the record's
/// account at its derived address, the holding account and the seller's
/// account for the token are written, the token program and the holding
/// address are read. There is no instruction where the record or the holding
/// account has no address.
pub open spec fn cancel_instruction(
    program_id: Address,
    seller: Address,
    program_wallet: Address,
    seller_wallet: Address,
    mint: Address,
) -> Option<InstructionView> {
    match (
        derived_address(Seed::ItemMetadata.tag(), mint, program_id),
        derived_address(Seed::Item.tag(), mint, program_id),
    ) {
        (Some((record, _)), Some((holder, _))) => Some(
            InstructionView {
                program_id,
                accounts: seq![
                    AccountMeta { pubkey: seller, is_signer: true, is_writable: false },
                    AccountMeta { pubkey: record, is_signer: false, is_writable: true },
                    AccountMeta { pubkey: token_program(), is_signer: false, is_writable: false },
                    AccountMeta { pubkey: program_wallet, is_signer: false, is_writable: true },
                    AccountMeta { pubkey: seller_wallet, is_signer: false, is_writable: true },
                    AccountMeta { pubkey: holder, is_signer: false, is_writable: false },
                ],
                data: instruction_data(
                    TradeYardInstruction::Cancel,
                    Args { lamports: None, metadata_bump: None },
                ),
            },
        ),
        _ => None,
    }
}

/// Builds the `Cancel` instruction that takes the token of `mint` off the
/// market.
pub fn cancel(
    program_id: &Address,
    seller: &Address,
    program_wallet: &Address,
    seller_wallet: &Address,
    mint: &Address,
) -> (r: Option<Instruction>)
    ensures
        match r {
            Some(ix) => cancel_instruction(
                *program_id,
                *seller,
                *program_wallet,
                *seller_wallet,
                *mint,
            ) == Some(ix@),
            None => cancel_instruction(
                *program_id,
                *seller,
                *program_wallet,
                *seller_wallet,
                *mint,
            ).is_none(),
        },
{
    let item_metadata_addr = match crate::find_item_metadata_address(program_id, mint) {
        Some((found, _)) => found,
        None => {
            return None;
        },
    };
    let item_addr = match crate::find_item_address(program_id, mint) {
        Some((found, _)) => found,
        None => {
            return None;
        },
    };
    let payload = Payload {
        instruction: TradeYardInstruction::Cancel.discriminant(),
        args: Args { lamports: None, metadata_bump: None },
    };
    let accounts = vec![
        AccountMeta::new_readonly(*seller, true),
        AccountMeta::new(item_metadata_addr, false),
        AccountMeta::new_readonly(crate::token::id(), false),
        AccountMeta::new(*program_wallet, false),
        AccountMeta::new(*seller_wallet, false),
        AccountMeta::new_readonly(item_addr, false),
    ];
    let ix = Instruction { program_id: *program_id, accounts, data: payload.pack() };
    proof {
        let expected = cancel_instruction(
            *program_id,
            *seller,
            *program_wallet,
            *seller_wallet,
            *mint,
        )->0;
        assert(ix@.accounts =~= expected.accounts);
    }
    Some(ix)
}

/// The `Buy` instruction for a listing: the buyer signs, the buyer's two
/// token accounts, the holding account, the payment account and the record
/// are written, the token program and the holding address are read.
pub open spec fn buy_instruction(
    program_id: Address,
    buyer: Address,
    buyer_wallet: Address,
    buyer_receiver_wallet: Address,
    program_wallet: Address,
    payment_wallet: Address,
    metadata: Address,
    item: Address,
) -> InstructionView {
    InstructionView {
        program_id,
        accounts: seq![
            AccountMeta { pubkey: buyer, is_signer: true, is_writable: true },
            AccountMeta { pubkey: buyer_wallet, is_signer: false, is_writable: true },
            AccountMeta { pubkey: buyer_receiver_wallet, is_signer: false, is_writable: true },
            AccountMeta { pubkey: program_wallet, is_signer: false, is_writable: true },
            AccountMeta { pubkey: payment_wallet, is_signer: false, is_writable: true },
            AccountMeta { pubkey: metadata, is_signer: false, is_writable: true },
            AccountMeta { pubkey: token_program(), is_signer: false, is_writable: false },
            AccountMeta { pubkey: item, is_signer: false, is_writable: false },
        ],
        data: instruction_data(
            TradeYardInstruction::Buy,
            Args { lamports: None, metadata_bump: None },
        ),
    }
}

/// Builds the `Buy` instruction for the listing whose record is at `metadata`
/// and whose holding address is `item`.
pub fn buy(
    program_id: &Address,
    buyer: &Address,
    buyer_wallet: &Address,
    buyer_receiver_wallet: &Address,
    program_wallet: &Address,
    payment_wallet: &Address,
    metadata: &Address,
    item: &Address,
) -> (ix: Instruction)
    ensures
        ix@ == buy_instruction(
            *program_id,
            *buyer,
            *buyer_wallet,
            *buyer_receiver_wallet,
            *program_wallet,
            *payment_wallet,
            *metadata,
            *item,
        ),
{
    let payload = Payload {
        instruction: TradeYardInstruction::Buy.discriminant(),
        args: Args { lamports: None, metadata_bump: None },
    };
    let accounts = vec![
        AccountMeta::new(*buyer, true),
        AccountMeta::new(*buyer_wallet, false),
        AccountMeta::new(*buyer_receiver_wallet, false),
        AccountMeta::new(*program_wallet, false),
        AccountMeta::new(*payment_wallet, false),
        AccountMeta::new(*metadata, false),
        AccountMeta::new_readonly(crate::token::id(), false),
        AccountMeta::new_readonly(*item, false),
    ];
    let ix = Instruction { program_id: *program_id, accounts, data: payload.pack() };
    proof {
        let expected = buy_instruction(
            *program_id,
            *buyer,
            *buyer_wallet,
            *buyer_receiver_wallet,
            *program_wallet,
            *payment_wallet,
            *metadata,
            *item,
        );
        assert(ix@.accounts =~= expected.accounts);
    }
    ix
}

} // verus!
