use vstd::prelude::*;

verus! {

/// Why an instruction, or one step of it, was turned down.
#[derive(Clone, Copy, Debug, PartialEq, Eq, Structural)]
pub enum ProgramError {
    /// A called program failed with a code of its own.
    Custom(u32),
    /// The instruction's discriminant or arguments make no sense.
    InvalidInstructionData,
    /// An account does not hold what the instruction needs of it.
    InvalidAccountData,
    /// An account is not owned by the token program, or the token program
    /// named by the caller is not the token program.
    IncorrectProgramId,
    /// The party that has to sign did not.
    MissingRequiredSignature,
    /// A mint or token account was never initialised.
    UninitializedAccount,
    /// Fewer accounts were passed than the instruction reads.
    NotEnoughAccountKeys,
    /// No program address exists for the seeds.
    InvalidSeeds,
    /// Bytes could not be read as, or written for, the value expected.
    BorshIoError,
    /// The listing record is not owned by this program.
    IllegalOwner,
    /// A balance would exceed what a `u64` holds.
    ArithmeticOverflow,
}

} // verus!
