use crate::identity::Address;
use vstd::prelude::*;

verus! {

/// The bytes of the administrator's identity, which is fixed when the
/// program is built and stored nowhere.
pub open spec fn admin_bytes() -> Seq<u8> {
    seq![
        116u8, 198, 53, 197, 110, 209, 55, 140, 91, 6, 145, 226, 34, 128, 173, 19,
        223, 147, 44, 236, 130, 78, 118, 155, 215, 39, 97, 172, 66, 202, 235, 54,
    ]
}

/// The bytes of this program's own identity, under which the ledger record
/// and the whitelist entries are derived.
pub open spec fn program_bytes() -> Seq<u8> {
    seq![
        8u8, 229, 27, 33, 177, 217, 46, 63, 154, 47, 178, 241, 22, 171, 50, 239,
        234, 111, 234, 39, 254, 49, 71, 222, 74, 177, 45, 21, 117, 33, 38, 146,
    ]
}

/// The bytes of the token program's identity.
pub open spec fn token_program_bytes() -> Seq<u8> {
    seq![
        6u8, 221, 246, 225, 215, 101, 161, 147, 217, 203, 225, 70, 206, 235, 121, 172,
        28, 180, 133, 237, 95, 91, 55, 145, 58, 140, 245, 133, 126, 255, 0, 169,
    ]
}

/// The bytes of the associated-token-account program's identity.
pub open spec fn associated_token_program_bytes() -> Seq<u8> {
    seq![
        140u8, 151, 37, 143, 78, 36, 137, 241, 187, 61, 16, 41, 20, 142, 13, 131,
        11, 90, 19, 153, 218, 255, 16, 132, 4, 142, 123, 216, 219, 233, 248, 89,
    ]
}

/// The bytes of the native mint's identity: the asset in which the deposit
/// fee is charged.
pub open spec fn native_mint_bytes() -> Seq<u8> {
    seq![
        6u8, 155, 136, 87, 254, 171, 129, 132, 251, 104, 127, 99, 70, 24, 192, 53,
        218, 196, 57, 220, 26, 235, 59, 85, 152, 160, 240, 0, 0, 0, 0, 1,
    ]
}

/// The bytes of the system program's identity: all zero.
pub open spec fn system_program_bytes() -> Seq<u8> {
    Seq::new(32, |i: int| 0u8)
}

/// The administrator: the one identity that may configure the bridge.
pub fn admin_pubkey() -> (admin: Address)
    ensures
        admin@ == admin_bytes(),
{
    let admin = Address {
        bytes: [
            116, 198, 53, 197, 110, 209, 55, 140, 91, 6, 145, 226, 34, 128, 173, 19,
            223, 147, 44, 236, 130, 78, 118, 155, 215, 39, 97, 172, 66, 202, 235, 54,
        ],
    };
    assert(admin@ =~= admin_bytes());
    admin
}

/// This program's own identity.
pub fn id() -> (program: Address)
    ensures
        program@ == program_bytes(),
{
    let program = Address {
        bytes: [
            8, 229, 27, 33, 177, 217, 46, 63, 154, 47, 178, 241, 22, 171, 50, 239,
            234, 111, 234, 39, 254, 49, 71, 222, 74, 177, 45, 21, 117, 33, 38, 146,
        ],
    };
    assert(program@ =~= program_bytes());
    program
}

/// The token program, which moves the assets.
pub fn token_program_id() -> (program: Address)
    ensures
        program@ == token_program_bytes(),
{
    let program = Address {
        bytes: [
            6, 221, 246, 225, 215, 101, 161, 147, 217, 203, 225, 70, 206, 235, 121, 172,
            28, 180, 133, 237, 95, 91, 55, 145, 58, 140, 245, 133, 126, 255, 0, 169,
        ],
    };
    assert(program@ =~= token_program_bytes());
    program
}

/// The associated-token-account program, under which every vault is derived.
pub fn associated_token_program_id() -> (program: Address)
    ensures
        program@ == associated_token_program_bytes(),
{
    let program = Address {
        bytes: [
            140, 151, 37, 143, 78, 36, 137, 241, 187, 61, 16, 41, 20, 142, 13, 131,
            11, 90, 19, 153, 218, 255, 16, 132, 4, 142, 123, 216, 219, 233, 248, 89,
        ],
    };
    assert(program@ =~= associated_token_program_bytes());
    program
}

/// The native mint.
pub fn native_mint_id() -> (mint: Address)
    ensures
        mint@ == native_mint_bytes(),
{
    let mint = Address {
        bytes: [
            6, 155, 136, 87, 254, 171, 129, 132, 251, 104, 127, 99, 70, 24, 192, 53,
            218, 196, 57, 220, 26, 235, 59, 85, 152, 160, 240, 0, 0, 0, 0, 1,
        ],
    };
    assert(mint@ =~= native_mint_bytes());
    mint
}

/// The system program.
pub fn system_program_id() -> (program: Address)
    ensures
        program@ == system_program_bytes(),
{
    let program = Address { bytes: [0; 32] };
    assert(program@ =~= system_program_bytes());
    program
}

} // verus!
