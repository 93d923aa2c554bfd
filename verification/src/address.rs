use vstd::prelude::*;
use vstd::std_specs::cmp::PartialEqSpecImpl;

verus! {

/// The identity of an account, a program or a key pair.
#[derive(Clone, Copy, Debug, Eq)]
pub struct Address {
    pub bytes: [u8; 32],
}

impl View for Address {
    type V = Seq<u8>;

    open spec fn view(&self) -> Seq<u8> {
        self.bytes@
    }
}

impl PartialEq for Address {
    fn eq(&self, other: &Address) -> (r: bool) {
        let mut i: usize = 0;
        while i < 32
            invariant
                i <= 32,
                forall|j: int| 0 <= j < i ==> self.bytes[j] == other.bytes[j],
            decreases 32 - i,
        {
            if self.bytes[i] != other.bytes[i] {
                return false;
            }
            i += 1;
        }
        assert(self.bytes =~= other.bytes);
        true
    }
}

impl PartialEqSpecImpl for Address {
    open spec fn obeys_eq_spec() -> bool {
        true
    }

    open spec fn eq_spec(&self, other: &Address) -> bool {
        *self == *other
    }
}

impl Address {
    /// The address with the given bytes.
    pub fn new(bytes: [u8; 32]) -> (a: Address)
        ensures
            a.bytes == bytes,
    {
        Address { bytes }
    }

    /// The address written in the 32 bytes of `bytes` that start at `at`.
    pub fn from_slice(bytes: &[u8], at: usize) -> (a: Address)
        requires
            at + 32 <= bytes@.len(),
        ensures
            a@ == bytes@.subrange(at as int, at + 32),
    {
        let n = bytes.len();
        let mut arr: [u8; 32] = [0u8; 32];
        let mut i: usize = 0;
        while i < 32
            invariant
                i <= 32,
                n == bytes@.len(),
                at + 32 <= n,
                forall|j: int| 0 <= j < i ==> arr[j] == bytes@[at + j],
            decreases 32 - i,
        {
            arr[i] = bytes[at + i];
            i += 1;
        }
        let a = Address { bytes: arr };
        assert(a@ =~= bytes@.subrange(at as int, at + 32));
        a
    }

    /// Appends the 32 bytes of the address to `buf`.
    pub fn append_to(&self, buf: &mut Vec<u8>)
        ensures
            final(buf)@ == old(buf)@ + self@,
    {
        let mut i: usize = 0;
        while i < 32
            invariant
                i <= 32,
                buf@ == old(buf)@ + self@.subrange(0, i as int),
            decreases 32 - i,
        {
            buf.push(self.bytes[i]);
            assert(self@.subrange(0, i + 1) =~= self@.subrange(0, i as int).push(self@[i as int]));
            i += 1;
        }
        assert(self@.subrange(0, 32) =~= self@);
    }

    /// An address is the address of its bytes.
    pub proof fn lemma_address_of_view(self)
        ensures
            address_of(self@) == self,
    {
        Address::lemma_view_injective(address_of(self@), self);
    }

    /// The bytes of two addresses agree exactly when the addresses are equal.
    pub proof fn lemma_view_injective(a: Address, b: Address)
        ensures
            (a@ == b@) <==> (a == b),
    {
        if a@ == b@ {
            assert(a.bytes =~= b.bytes);
        }
    }
}

/// The program address that belongs to a tag and a key under a program, with
/// its bump seed, or `None` where the search finds none. It stands for what
/// `Pubkey::try_find_program_address` returns for the seeds `[tag, key]`.
pub uninterp spec fn program_address(tag: Seq<u8>, key: Seq<u8>, program_id: Seq<u8>) -> Option<
    (Seq<u8>, u8),
>;

/// The address with the given bytes.
pub open spec fn address_of(bytes: Seq<u8>) -> Address {
    choose|a: Address| a@ == bytes
}

/// The address derived from a tag and a key under a program, with its bump
/// seed, or `None` where there is none.
pub open spec fn derived_address(tag: Seq<u8>, key: Address, program_id: Address) -> Option<
    (Address, u8),
> {
    match program_address(tag, key@, program_id@) {
        Some((bytes, bump)) => Some((address_of(bytes), bump)),
        None => None,
    }
}

/// Calls `solana_program::pubkey::Pubkey::try_find_program_address` with the
/// two seeds `tag` and the bytes of `key`. The search hashes the seeds, a bump
/// seed and the program's address, from bump 255 downwards, and stops at the
/// first hash that is no point of the curve; the result is a function of the
/// three arguments alone, which the contract names without stating it.
#[verifier::external_body]
fn try_find_program_address(tag: &[u8], key: &Address, program_id: &Address) -> (r: Option<
    (Address, u8),
>)
    ensures
        match r {
            Some((a, bump)) => program_address(tag@, key@, program_id@) == Some((a@, bump)),
            None => program_address(tag@, key@, program_id@).is_none(),
        },
{
    let program = solana_program::pubkey::Pubkey::new_from_array(program_id.bytes);
    solana_program::pubkey::Pubkey::try_find_program_address(&[tag, &key.bytes], &program)
        .map(|(a, bump)| (Address { bytes: a.to_bytes() }, bump))
}

/// Searches the address that belongs to a tag and a key under a program.
pub fn find_program_address(tag: &[u8], key: &Address, program_id: &Address) -> (r: Option<
    (Address, u8),
>)
    ensures
        r == derived_address(tag@, *key, *program_id),
{
    let r = try_find_program_address(tag, key, program_id);
    proof {
        if let Some((a, _)) = r {
            a.lemma_address_of_view();
        }
    }
    r
}

} // verus!
