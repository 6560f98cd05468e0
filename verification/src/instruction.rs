use crate::identity::Address;
use vstd::prelude::*;
use vstd::string::{StrSliceExecFns, StringSliceAdditionalSpecFns};

verus! {

/// One account of an instruction: which it is, whether it has to sign, and
/// whether the instruction may write to it.
#[derive(Clone, Copy, Debug)]
pub struct AccountMeta {
    pub pubkey: Address,
    pub is_signer: bool,
    pub is_writable: bool,
}

/// An account of an instruction as plain values.
pub struct AccountMetaView {
    pub pubkey: Seq<u8>,
    pub is_signer: bool,
    pub is_writable: bool,
}

impl View for AccountMeta {
    type V = AccountMetaView;

    open spec fn view(&self) -> AccountMetaView {
        AccountMetaView {
            pubkey: self.pubkey@,
            is_signer: self.is_signer,
            is_writable: self.is_writable,
        }
    }
}

impl AccountMeta {
    /// An account that the instruction may write to.
    pub fn new(pubkey: Address, is_signer: bool) -> (meta: AccountMeta)
        ensures
            meta@ == writable(pubkey@, is_signer),
    {
        AccountMeta { pubkey, is_signer, is_writable: true }
    }

    /// An account that the instruction only reads.
    pub fn new_readonly(pubkey: Address, is_signer: bool) -> (meta: AccountMeta)
        ensures
            meta@ == readonly(pubkey@, is_signer),
    {
        AccountMeta { pubkey, is_signer, is_writable: false }
    }
}

/// An account that the instruction may write to.
pub open spec fn writable(pubkey: Seq<u8>, is_signer: bool) -> AccountMetaView {
    AccountMetaView { pubkey, is_signer, is_writable: true }
}

/// An account that the instruction only reads.
pub open spec fn readonly(pubkey: Seq<u8>, is_signer: bool) -> AccountMetaView {
    AccountMetaView { pubkey, is_signer, is_writable: false }
}

/// A call of one operation of a program: the program, the accounts in
/// their order, and the bytes that name the operation and hold its
/// arguments.
#[derive(Clone, Debug)]
pub struct Instruction {
    pub program_id: Address,
    pub accounts: Vec<AccountMeta>,
    pub data: Vec<u8>,
}

/// An instruction as plain values.
pub struct InstructionView {
    pub program_id: Seq<u8>,
    pub accounts: Seq<AccountMetaView>,
    pub data: Seq<u8>,
}

impl View for Instruction {
    type V = InstructionView;

    open spec fn view(&self) -> InstructionView {
        InstructionView {
            program_id: self.program_id@,
            accounts: self.accounts@.map_values(|meta: AccountMeta| meta@),
            data: self.data@,
        }
    }
}

/// The SHA-256 digest of `data`.
pub uninterp spec fn sha256(data: Seq<u8>) -> Seq<u8>;

/// Calls `hash` of solana_program, which is SHA-256. The digest is a
/// function of the data alone; the contract gives it its name and claims
/// nothing more of it.
#[verifier::external_body]
fn hash(data: &Vec<u8>) -> (digest: [u8; 32])
    ensures
        digest@ == sha256(data@),
{
    solana_program::hash::hash(data.as_slice()).to_bytes()
}

/// The selector of the operation `name` in `namespace`: the first eight
/// bytes of the digest of the namespace, a colon and the name.
pub open spec fn function_hash(namespace: Seq<u8>, name: Seq<u8>) -> Seq<u8> {
    sha256(namespace + seq![58u8] + name).subrange(0, 8)
}

/// The selector of the operation `name` in `namespace`.
pub fn get_function_hash(namespace: &str, name: &str) -> (selector: [u8; 8])
    ensures
        selector@ == function_hash(namespace.spec_bytes(), name.spec_bytes()),
{
    let mut preimage = namespace.as_bytes_vec();
    preimage.push(58);
    let mut tail = name.as_bytes_vec();
    preimage.append(&mut tail);
    assert(preimage@ =~= namespace.spec_bytes() + seq![58u8] + name.spec_bytes());
    let digest = hash(&preimage);
    let mut selector = [0u8; 8];
    let mut i: usize = 0;
    while i < 8
        invariant
            i <= 8,
            digest@ == sha256(namespace.spec_bytes() + seq![58u8] + name.spec_bytes()),
            forall|j: int| 0 <= j < i ==> selector@[j] == digest@[j],
        decreases 8 - i,
    {
        selector[i] = digest[i];
        i = i + 1;
    }
    assert(selector@ =~= digest@.subrange(0, 8));
    selector
}

/// The bytes of an instruction of this program: the selector of the
/// operation `name`, then its arguments.
pub open spec fn method_data(name: Seq<u8>, arguments: Seq<u8>) -> Seq<u8> {
    function_hash("global".spec_bytes(), name) + arguments
}

/// The bytes of an instruction of this program: the selector of the
/// operation `name`, then `arguments`.
pub fn method_bytes(name: &str, arguments: Vec<u8>) -> (data: Vec<u8>)
    ensures
        data@ == method_data(name.spec_bytes(), arguments@),
{
    let selector = get_function_hash("global", name);
    let mut data: Vec<u8> = Vec::new();
    let mut i: usize = 0;
    while i < 8
        invariant
            i <= 8,
            selector@ == function_hash("global".spec_bytes(), name.spec_bytes()),
            data@ == selector@.subrange(0, i as int),
        decreases 8 - i,
    {
        data.push(selector[i]);
        i = i + 1;
    }
    assert(data@ =~= selector@);
    let mut arguments = arguments;
    data.append(&mut arguments);
    data
}

} // verus!
