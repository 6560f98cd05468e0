use crate::constants::{
    associated_token_program_bytes, associated_token_program_id, id, program_bytes,
    token_program_bytes, token_program_id,
};
use vstd::prelude::*;
use vstd::std_specs::cmp::PartialEqSpecImpl;

verus! {

/// The identity of an account or of a signer: thirty-two bytes.
#[derive(Clone, Copy, Debug)]
pub struct Address {
    pub bytes: [u8; 32],
}

impl View for Address {
    type V = Seq<u8>;

    open spec fn view(&self) -> Seq<u8> {
        self.bytes@
    }
}

impl PartialEq for Address {
    fn eq(&self, other: &Address) -> (same: bool) {
        let mut i: usize = 0;
        while i < 32
            invariant
                i <= 32,
                forall|j: int| 0 <= j < i ==> self.bytes@[j] == other.bytes@[j],
            decreases 32 - i,
        {
            if self.bytes[i] != other.bytes[i] {
                return false;
            }
            i = i + 1;
        }
        proof {
            assert(self.bytes@ =~= other.bytes@);
        }
        true
    }
}

impl Eq for Address {

}

impl PartialEqSpecImpl for Address {
    open spec fn obeys_eq_spec() -> bool {
        true
    }

    open spec fn eq_spec(&self, other: &Address) -> bool {
        self@ == other@
    }
}

impl Address {
    /// The identity made of `bytes`.
    pub fn new(bytes: [u8; 32]) -> (address: Address)
        ensures
            address.bytes == bytes,
    {
        Address { bytes }
    }

    /// The bytes of the identity, as a seed for a derivation or as part of
    /// a message.
    pub fn to_vec(&self) -> (bytes: Vec<u8>)
        ensures
            bytes@ == self@,
    {
        let mut bytes: Vec<u8> = Vec::new();
        let mut i: usize = 0;
        while i < 32
            invariant
                i <= 32,
                bytes@ == self@.subrange(0, i as int),
            decreases 32 - i,
        {
            bytes.push(self.bytes[i]);
            i = i + 1;
        }
        bytes
    }
}

/// Identities are equal exactly when their bytes are.
pub proof fn lemma_address_equality(a: Address, b: Address)
    ensures
        (a == b) <==> (a@ == b@),
{
    if a@ == b@ {
        assert(a.bytes =~= b.bytes);
    }
}

/// The address that `seeds` derive under the program `program_id`, with the
/// bump seed that was found for it; `None` where the seeds derive none.
pub uninterp spec fn program_address(seeds: Seq<Seq<u8>>, program_id: Seq<u8>) -> Option<(Seq<u8>, u8)>;

/// The address that `seeds` derive under `program_id`, without its bump.
pub open spec fn derived_address(seeds: Seq<Seq<u8>>, program_id: Seq<u8>) -> Option<Seq<u8>> {
    match program_address(seeds, program_id) {
        Some((address, _)) => Some(address),
        None => None,
    }
}

/// The seeds of an executable list of seeds.
pub open spec fn seeds_view(seeds: &Vec<Vec<u8>>) -> Seq<Seq<u8>> {
    Seq::new(seeds@.len(), |i: int| seeds@[i]@)
}

/// What a search for a derived address found, as plain values.
pub open spec fn found_view(found: Option<(Address, u8)>) -> Option<(Seq<u8>, u8)> {
    match found {
        Some((address, bump)) => Some((address@, bump)),
        None => None,
    }
}

/// Calls `Pubkey::try_find_program_address` of solana_program. Its result
/// is a function of the seeds and of the program's identity alone; the
/// contract gives that result its name and claims nothing more of it.
#[verifier::external_body]
fn try_find_program_address(
    seeds: &Vec<Vec<u8>>,
    program_id: &Address,
) -> (found: Option<(Address, u8)>)
    ensures
        found_view(found) == program_address(seeds_view(seeds), program_id@),
{
    let slices: Vec<&[u8]> = seeds.iter().map(|seed| seed.as_slice()).collect();
    let program = solana_program::pubkey::Pubkey::new_from_array(program_id.bytes);
    match solana_program::pubkey::Pubkey::try_find_program_address(&slices, &program) {
        Some((address, bump)) => Some((Address { bytes: address.to_bytes() }, bump)),
        None => None,
    }
}

/// Calls `get_associated_token_address` of the associated-token-account
/// interface, as anchor_spl hands it on. That function searches the address
/// which the wallet, the token program and the mint derive under the
/// associated-token-account program, and panics where the search finds
/// none: the contract leaves those inputs out and names the address found.
#[verifier::external_body]
fn associated_token_address(wallet: &Address, mint: &Address) -> (address: Address)
    requires
        program_address(
            associated_token_seeds(wallet@, mint@),
            associated_token_program_bytes(),
        ) is Some,
    ensures
        Some(address@) == derived_address(
            associated_token_seeds(wallet@, mint@),
            associated_token_program_bytes(),
        ),
{
    let wallet = anchor_lang::solana_program::pubkey::Pubkey::new_from_array(wallet.bytes);
    let mint = anchor_lang::solana_program::pubkey::Pubkey::new_from_array(mint.bytes);
    let address = anchor_spl::associated_token::get_associated_token_address(&wallet, &mint);
    Address { bytes: address.to_bytes() }
}

/// The tag from which the ledger record's address is derived: the text
/// `bridge_state`.
pub open spec fn bridge_state_tag() -> Seq<u8> {
    seq![98u8, 114, 105, 100, 103, 101, 95, 115, 116, 97, 116, 101]
}

/// The seeds of the ledger record.
pub open spec fn bridge_state_seeds() -> Seq<Seq<u8>> {
    seq![bridge_state_tag()]
}

/// The seeds of the whitelist entry of `counterparty` on the ledger record
/// at `ledger`.
pub open spec fn whitelist_entry_seeds(counterparty: Seq<u8>, ledger: Seq<u8>) -> Seq<Seq<u8>> {
    seq![counterparty, ledger]
}

/// The seeds of the token account that `wallet` holds in the asset `mint`.
pub open spec fn associated_token_seeds(wallet: Seq<u8>, mint: Seq<u8>) -> Seq<Seq<u8>> {
    seq![wallet, token_program_bytes(), mint]
}

/// The tag of the ledger record as a seed.
pub fn bridge_state_seed() -> (seed: Vec<u8>)
    ensures
        seed@ == bridge_state_tag(),
{
    let mut seed: Vec<u8> = Vec::new();
    seed.push(98);
    seed.push(114);
    seed.push(105);
    seed.push(100);
    seed.push(103);
    seed.push(101);
    seed.push(95);
    seed.push(115);
    seed.push(116);
    seed.push(97);
    seed.push(116);
    seed.push(101);
    assert(seed@ =~= bridge_state_tag());
    seed
}

/// The address of the ledger record of the program `program_id`, with its
/// bump. Anyone can compute it again at any time.
pub fn find_bridge_state_address(program_id: &Address) -> (found: Option<(Address, u8)>)
    ensures
        found_view(found) == program_address(bridge_state_seeds(), program_id@),
{
    let mut seeds: Vec<Vec<u8>> = Vec::new();
    seeds.push(bridge_state_seed());
    assert(seeds_view(&seeds) =~= bridge_state_seeds());
    try_find_program_address(&seeds, program_id)
}

/// The address of the whitelist entry of `counterparty` on the ledger
/// record at `ledger`, with its bump.
pub fn find_whitelist_entry_address(
    counterparty: &Address,
    ledger: &Address,
    program_id: &Address,
) -> (found: Option<(Address, u8)>)
    ensures
        found_view(found) == program_address(
            whitelist_entry_seeds(counterparty@, ledger@),
            program_id@,
        ),
{
    let mut seeds: Vec<Vec<u8>> = Vec::new();
    seeds.push(counterparty.to_vec());
    seeds.push(ledger.to_vec());
    assert(seeds_view(&seeds) =~= whitelist_entry_seeds(counterparty@, ledger@));
    try_find_program_address(&seeds, program_id)
}

/// The address of the token account that `wallet` holds in the asset
/// `mint`; `None` where the three seeds derive no address.
pub fn get_associated_token_address(wallet: &Address, mint: &Address) -> (address: Option<Address>)
    ensures
        match address {
            Some(a) => Some(a@) == derived_address(
                associated_token_seeds(wallet@, mint@),
                associated_token_program_bytes(),
            ),
            None => derived_address(
                associated_token_seeds(wallet@, mint@),
                associated_token_program_bytes(),
            ) is None,
        },
{
    let mut seeds: Vec<Vec<u8>> = Vec::new();
    seeds.push(wallet.to_vec());
    seeds.push(token_program_id().to_vec());
    seeds.push(mint.to_vec());
    assert(seeds_view(&seeds) =~= associated_token_seeds(wallet@, mint@));
    let program = associated_token_program_id();
    match try_find_program_address(&seeds, &program) {
        Some(_) => Some(associated_token_address(wallet, mint)),
        None => None,
    }
}

/// Whether `key` is the address of this program's ledger record, derived
/// with `bump`.
pub open spec fn is_bridge_state_address(key: Address, bump: u8) -> bool {
    program_address(bridge_state_seeds(), program_bytes()) == Some((key@, bump))
}

/// Whether `key` is the address of the whitelist entry of `counterparty` on
/// the ledger record at `ledger`.
pub open spec fn is_whitelist_entry_address(
    key: Address,
    counterparty: Address,
    ledger: Address,
) -> bool {
    derived_address(whitelist_entry_seeds(counterparty@, ledger@), program_bytes()) == Some(key@)
}

/// Whether `key` is the address of the token account that `wallet` holds in
/// the asset `mint`.
pub open spec fn is_associated_token_address(key: Address, wallet: Address, mint: Address) -> bool {
    derived_address(associated_token_seeds(wallet@, mint@), associated_token_program_bytes())
        == Some(key@)
}

/// Derives the ledger record's address again and holds `key` and `bump`
/// against it.
pub fn check_bridge_state_address(key: &Address, bump: u8) -> (resolved: bool)
    ensures
        resolved == is_bridge_state_address(*key, bump),
{
    let program = id();
    match find_bridge_state_address(&program) {
        Some((address, found_bump)) => address == *key && found_bump == bump,
        None => false,
    }
}

/// Derives the whitelist entry's address again and holds `key` against it.
pub fn check_whitelist_entry_address(
    key: &Address,
    counterparty: &Address,
    ledger: &Address,
) -> (resolved: bool)
    ensures
        resolved == is_whitelist_entry_address(*key, *counterparty, *ledger),
{
    let program = id();
    match find_whitelist_entry_address(counterparty, ledger, &program) {
        Some((address, _)) => address == *key,
        None => false,
    }
}

/// Derives the token account's address again and holds `key` against it.
pub fn check_associated_token_address(
    key: &Address,
    wallet: &Address,
    mint: &Address,
) -> (resolved: bool)
    ensures
        resolved == is_associated_token_address(*key, *wallet, *mint),
{
    match get_associated_token_address(wallet, mint) {
        Some(address) => address == *key,
        None => false,
    }
}

} // verus!
