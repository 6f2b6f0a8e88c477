//! 32-byte account addresses.

use vstd::prelude::*;

verus! {

/// Number of bytes in an address.
pub const ADDRESS_LEN: usize = 32;

/// An account address: 32 raw bytes.
#[derive(Clone, Copy, Debug)]
pub struct Address {
    pub bytes: [u8; 32],
}

impl View for Address {
    type V = Seq<u8>;

    open spec fn view(&self) -> Seq<u8> {
        self.bytes@
    }
}

impl Address {
    pub fn new(bytes: [u8; 32]) -> (r: Address)
        ensures
            r@ == bytes@,
    {
        Address { bytes }
    }

    /// The all-zero address, which pool accounts use to mean "not set".
    pub fn zero() -> (r: Address)
        ensures
            r@ == Seq::new(32, |i: int| 0u8),
    {
        let r = Address { bytes: [0u8; 32] };
        assert(r@ =~= Seq::new(32, |i: int| 0u8));
        r
    }

    /// Whether two addresses hold the same bytes.
    pub fn same(&self, other: &Address) -> (r: bool)
        ensures
            r == (self@ == other@),
    {
        let mut i: usize = 0;
        while i < ADDRESS_LEN
            invariant
                0 <= i <= 32,
                self@.len() == 32,
                other@.len() == 32,
                forall|j: int| 0 <= j < i ==> self@[j] == other@[j],
            decreases 32 - i,
        {
            if self.bytes[i] != other.bytes[i] {
                return false;
            }
            i = i + 1;
        }
        assert(self@ =~= other@);
        true
    }

    /// Whether every byte is zero.
    pub fn is_zero(&self) -> (r: bool)
        ensures
            r == (self@ == Seq::new(32, |i: int| 0u8)),
    {
        let z = Address::zero();
        self.same(&z)
    }
}

/// The address that `try_find_program_address` derives from the seeds
/// `[seed, base]` under `program`, if any bump seed gives one.
pub uninterp spec fn program_address(seed: Seq<u8>, base: Seq<u8>, program: Seq<u8>) -> Option<
    Seq<u8>,
>;

/// Relies on `solana_pubkey::Pubkey::try_find_program_address`: it returns
/// the program-derived address for the seeds `[seed, base]` and the program,
/// a function of those bytes alone, or `None` where no bump seed gives an
/// address off the curve (or a seed is longer than 32 bytes).
#[verifier::external_body]
pub(crate) fn find_program_address(seed: &[u8], base: &Address, program: &Address) -> (r: Option<
    Address,
>)
    ensures
        match r {
            Some(a) => program_address(seed@, base@, program@) == Some(a@),
            None => program_address(seed@, base@, program@) is None,
        },
{
    let program_key = solana_pubkey::Pubkey::new_from_array(program.bytes);
    let seeds: [&[u8]; 2] = [seed, &base.bytes];
    solana_pubkey::Pubkey::try_find_program_address(&seeds, &program_key).map(
        |(key, _bump)| Address { bytes: key.to_bytes() },
    )
}

/// The legacy token program, `TokenkegQfeZyiNwAJbNbGKPFXCWuBvf9Ss623VQ5DA`.
pub fn token_program_id() -> (r: Address)
    ensures
        r@ == token_program_bytes(),
{
    let r = Address {
        bytes: [
            6, 221, 246, 225, 215, 101, 161, 147, 217, 203, 225, 70, 206, 235, 121, 172, 28, 180,
            133, 237, 95, 91, 55, 145, 58, 140, 245, 133, 126, 255, 0, 169,
        ],
    };
    assert(r@ =~= token_program_bytes());
    r
}

/// The bytes of the legacy token program's address.
pub open spec fn token_program_bytes() -> Seq<u8> {
    seq![
        6u8, 221, 246, 225, 215, 101, 161, 147, 217, 203, 225, 70, 206, 235, 121, 172, 28, 180,
        133, 237, 95, 91, 55, 145, 58, 140, 245, 133, 126, 255, 0, 169,
    ]
}

/// The clock sysvar, `SysvarC1ock11111111111111111111111111111111`.
pub fn clock_sysvar_id() -> (r: Address)
    ensures
        r@ == clock_sysvar_bytes(),
{
    let r = Address {
        bytes: [
            6, 167, 213, 23, 24, 199, 116, 201, 40, 86, 99, 152, 105, 29, 94, 182, 139, 94, 184,
            163, 155, 75, 109, 92, 115, 85, 91, 33, 0, 0, 0, 0,
        ],
    };
    assert(r@ =~= clock_sysvar_bytes());
    r
}

/// The bytes of the clock sysvar's address.
pub open spec fn clock_sysvar_bytes() -> Seq<u8> {
    seq![
        6u8, 167, 213, 23, 24, 199, 116, 201, 40, 86, 99, 152, 105, 29, 94, 182, 139, 94, 184,
        163, 155, 75, 109, 92, 115, 85, 91, 33, 0, 0, 0, 0,
    ]
}

impl PartialEq for Address {
    fn eq(&self, other: &Address) -> (r: bool) {
        self.same(other)
    }
}

impl vstd::std_specs::cmp::PartialEqSpecImpl for Address {
    open spec fn obeys_eq_spec() -> bool {
        true
    }

    open spec fn eq_spec(&self, other: &Address) -> bool {
        self@ == other@
    }
}

impl Eq for Address {
}

} // verus!
