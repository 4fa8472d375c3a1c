//! Deterministic derivation of the addresses that belong to an escrow.
//!
//! Every escrow owns two addresses, both derived from its identifier: the
//! address of its record and the address of the custody account that holds
//! the locked balance. Each is derived under a namespace tag of its own, so
//! that the two differ even for one identifier. The derivation also yields a
//! salt (the "bump"), which is stored in the record and lets the program act
//! in the name of the record's address later on.

use crate::identity::Identity;
use anchor_lang::prelude::Pubkey;
use vstd::prelude::*;

verus! {

/// The identifier of the program that owns every derived address.
pub const PROGRAM_ID: [u8; 32] = [
    0x65, 0x6a, 0x70, 0x9a, 0x5e, 0x6d, 0x4c, 0x43,
    0x23, 0xb3, 0x87, 0x95, 0xed, 0x2d, 0xbb, 0x6d,
    0x44, 0xbf, 0x1b, 0x7b, 0x09, 0x9e, 0xfe, 0x59,
    0x22, 0xc8, 0xa9, 0x65, 0x45, 0xc3, 0x0e, 0x8e,
];

/// The program as an identity.
pub open spec fn program() -> Identity {
    Identity { bytes: PROGRAM_ID }
}

/// The program as an identity.
pub fn program_id() -> (id: Identity)
    ensures
        id == program(),
{
    Identity { bytes: PROGRAM_ID }
}

/// The namespace under which an address is derived.
#[derive(Clone, Copy, Debug, PartialEq, Eq, Structural)]
pub enum Namespace {
    /// Addresses of escrow records.
    Escrow,
    /// Addresses of custody accounts.
    Vault,
}

impl Namespace {
    /// The tag of the namespace: the ASCII bytes of `escrow` and of `vault`.
    pub open spec fn tag(self) -> Seq<u8> {
        match self {
            Namespace::Escrow => seq![0x65u8, 0x73u8, 0x63u8, 0x72u8, 0x6fu8, 0x77u8],
            Namespace::Vault => seq![0x76u8, 0x61u8, 0x75u8, 0x6cu8, 0x74u8],
        }
    }

    /// The tag of the namespace as bytes.
    pub fn tag_bytes(self) -> (tag: Vec<u8>)
        ensures
            tag@ == self.tag(),
    {
        let tag: Vec<u8> = match self {
            Namespace::Escrow => vec![0x65u8, 0x73u8, 0x63u8, 0x72u8, 0x6fu8, 0x77u8],
            Namespace::Vault => vec![0x76u8, 0x61u8, 0x75u8, 0x6cu8, 0x74u8],
        };
        assert(tag@ =~= self.tag());
        tag
    }
}

/// The eight bytes of an escrow identifier, least significant byte first.
pub open spec fn le_bytes(x: u64) -> Seq<u8> {
    seq![
        (x & 0xff) as u8,
        ((x >> 8) & 0xff) as u8,
        ((x >> 16) & 0xff) as u8,
        ((x >> 24) & 0xff) as u8,
        ((x >> 32) & 0xff) as u8,
        ((x >> 40) & 0xff) as u8,
        ((x >> 48) & 0xff) as u8,
        ((x >> 56) & 0xff) as u8,
    ]
}

/// The eight bytes of an escrow identifier, least significant byte first.
pub fn id_bytes(escrow_id: u64) -> (bytes: Vec<u8>)
    ensures
        bytes@ == le_bytes(escrow_id),
{
    let bytes: Vec<u8> = vec![
        (escrow_id & 0xff) as u8,
        ((escrow_id >> 8) & 0xff) as u8,
        ((escrow_id >> 16) & 0xff) as u8,
        ((escrow_id >> 24) & 0xff) as u8,
        ((escrow_id >> 32) & 0xff) as u8,
        ((escrow_id >> 40) & 0xff) as u8,
        ((escrow_id >> 48) & 0xff) as u8,
        ((escrow_id >> 56) & 0xff) as u8,
    ];
    assert(bytes@ =~= le_bytes(escrow_id));
    bytes
}

/// The seeds from which an address is searched: the namespace tag, then the
/// identifier's bytes.
pub open spec fn seeds(namespace: Namespace, escrow_id: u64) -> Seq<Seq<u8>> {
    seq![namespace.tag(), le_bytes(escrow_id)]
}

/// The seeds under which the program signs for a record's address: the seeds
/// of the record, then the stored salt as a seed of one byte.
pub open spec fn signer_seeds(escrow_id: u64, bump: u8) -> Seq<Seq<u8>> {
    seq![Namespace::Escrow.tag(), le_bytes(escrow_id), seq![bump]]
}

/// Builds the seeds from which an address is searched.
pub fn seeds_of(namespace: Namespace, escrow_id: u64) -> (list: Vec<Vec<u8>>)
    ensures
        list.deep_view() == seeds(namespace, escrow_id),
{
    let mut list: Vec<Vec<u8>> = Vec::new();
    list.push(namespace.tag_bytes());
    list.push(id_bytes(escrow_id));
    assert(list.deep_view() =~~= seeds(namespace, escrow_id));
    list
}

/// Builds the seeds under which the program signs for a record's address.
pub fn signer_seeds_of(escrow_id: u64, bump: u8) -> (list: Vec<Vec<u8>>)
    ensures
        list.deep_view() == signer_seeds(escrow_id, bump),
{
    let mut list: Vec<Vec<u8>> = Vec::new();
    list.push(Namespace::Escrow.tag_bytes());
    list.push(id_bytes(escrow_id));
    let salt: Vec<u8> = vec![bump];
    assert(salt@ =~= seq![bump]);
    list.push(salt);
    assert(list.deep_view() =~~= signer_seeds(escrow_id, bump));
    list
}

/// The bytes of the seeds one after another, with the salt at their end:
/// what a derivation under a namespace, for an identifier and with a salt,
/// feeds to the hash before the bytes of the program.
pub open spec fn hashed_seeds(namespace: Namespace, escrow_id: u64, bump: u8) -> Seq<u8> {
    namespace.tag() + le_bytes(escrow_id) + seq![bump]
}

/// The bytes tell the identifier: two identifiers with the same bytes are the
/// same.
pub proof fn lemma_le_bytes_injective(a: u64, b: u64)
    requires
        le_bytes(a) == le_bytes(b),
    ensures
        a == b,
{
    assert(le_bytes(a)[0] == le_bytes(b)[0]);
    assert(le_bytes(a)[1] == le_bytes(b)[1]);
    assert(le_bytes(a)[2] == le_bytes(b)[2]);
    assert(le_bytes(a)[3] == le_bytes(b)[3]);
    assert(le_bytes(a)[4] == le_bytes(b)[4]);
    assert(le_bytes(a)[5] == le_bytes(b)[5]);
    assert(le_bytes(a)[6] == le_bytes(b)[6]);
    assert(le_bytes(a)[7] == le_bytes(b)[7]);
    assert(a == b) by (bit_vector)
        requires
            (a & 0xff) as u8 == (b & 0xff) as u8,
            ((a >> 8) & 0xff) as u8 == ((b >> 8) & 0xff) as u8,
            ((a >> 16) & 0xff) as u8 == ((b >> 16) & 0xff) as u8,
            ((a >> 24) & 0xff) as u8 == ((b >> 24) & 0xff) as u8,
            ((a >> 32) & 0xff) as u8 == ((b >> 32) & 0xff) as u8,
            ((a >> 40) & 0xff) as u8 == ((b >> 40) & 0xff) as u8,
            ((a >> 48) & 0xff) as u8 == ((b >> 48) & 0xff) as u8,
            ((a >> 56) & 0xff) as u8 == ((b >> 56) & 0xff) as u8,
    ;
}

/// The seeds tell the namespace and the identifier: no two of them share
/// their seeds. In particular the record and the custody account of one
/// escrow are searched from different seeds.
pub proof fn lemma_seeds_injective(n1: Namespace, id1: u64, n2: Namespace, id2: u64)
    requires
        seeds(n1, id1) == seeds(n2, id2),
    ensures
        n1 == n2,
        id1 == id2,
{
    assert(seeds(n1, id1)[0] == seeds(n2, id2)[0]);
    assert(seeds(n1, id1)[1] == seeds(n2, id2)[1]);
    assert(n1.tag().len() == n2.tag().len());
    lemma_le_bytes_injective(id1, id2);
}

/// No two derivations feed the same bytes to the hash: the bytes of the
/// seeds, one after another, still tell the namespace, the identifier and
/// the salt.
pub proof fn lemma_hashed_seeds_injective(
    n1: Namespace,
    id1: u64,
    bump1: u8,
    n2: Namespace,
    id2: u64,
    bump2: u8,
)
    requires
        hashed_seeds(n1, id1, bump1) == hashed_seeds(n2, id2, bump2),
    ensures
        n1 == n2,
        id1 == id2,
        bump1 == bump2,
{
    let h1 = hashed_seeds(n1, id1, bump1);
    let h2 = hashed_seeds(n2, id2, bump2);
    assert(h1.len() == n1.tag().len() + 9);
    assert(h2.len() == n2.tag().len() + 9);
    assert(n1 == n2);
    let t: int = n1.tag().len() as int;
    assert(h1.subrange(t, t + 8) =~= le_bytes(id1));
    assert(h2.subrange(t, t + 8) =~= le_bytes(id2));
    lemma_le_bytes_injective(id1, id2);
    assert(h1[t + 8] == bump1);
    assert(h2[t + 8] == bump2);
}

/// The address and salt that the search for a program address finds for the
/// given seeds and program, if it finds any.
pub uninterp spec fn found_address(seeds: Seq<Seq<u8>>, program: Identity) -> Option<(Identity, u8)>;

/// The program address that the given seeds yield without a search, if they
/// yield one.
pub uninterp spec fn created_address(seeds: Seq<Seq<u8>>, program: Identity) -> Option<Identity>;

/// Calls `Pubkey::try_find_program_address` of `anchor_lang`, which searches
/// the salts from 255 downwards for the first under which the seeds create a
/// program address.
///
/// Believed, not proved: the result is a function of the seeds and the
/// program alone; and an address that is found with a salt is the address
/// that `Pubkey::create_program_address` gives for the same seeds followed
/// by that salt as a seed of one byte.
#[verifier::external_body]
fn try_find_program_address(seeds: &Vec<Vec<u8>>, program: &Identity) -> (found: Option<
    (Identity, u8),
>)
    ensures
        found == found_address(seeds.deep_view(), *program),
        found matches Some((address, bump)) ==> created_address(
            seeds.deep_view().push(seq![bump]),
            *program,
        ) == Some(address),
{
    let parts: Vec<&[u8]> = seeds.iter().map(|seed| seed.as_slice()).collect();
    match Pubkey::try_find_program_address(&parts, &Pubkey::new_from_array(program.bytes)) {
        Some((address, bump)) => Some((Identity { bytes: address.to_bytes() }, bump)),
        None => None,
    }
}

/// Calls `Pubkey::create_program_address` of `anchor_lang`, which hashes the
/// seeds and the program and gives the hash as an address unless it is a
/// point of the signature curve; every failure of it comes back as `None`.
///
/// Believed, not proved: the result is a function of the seeds and the
/// program alone.
#[verifier::external_body]
fn create_program_address(seeds: &Vec<Vec<u8>>, program: &Identity) -> (created: Option<
    Identity,
>)
    ensures
        created == created_address(seeds.deep_view(), *program),
{
    let parts: Vec<&[u8]> = seeds.iter().map(|seed| seed.as_slice()).collect();
    match Pubkey::create_program_address(&parts, &Pubkey::new_from_array(program.bytes)) {
        Ok(address) => Some(Identity { bytes: address.to_bytes() }),
        Err(_) => None,
    }
}

/// What `derive_address` yields for a namespace and an identifier.
pub open spec fn derived(namespace: Namespace, escrow_id: u64) -> Option<(Identity, u8)> {
    found_address(seeds(namespace, escrow_id), program())
}

/// What `rederive` yields for an identifier and a stored salt.
pub open spec fn rederived(escrow_id: u64, bump: u8) -> Option<Identity> {
    created_address(signer_seeds(escrow_id, bump), program())
}

/// Derives the address that belongs to an escrow identifier under a
/// namespace, together with its salt. The result depends on nothing but the
/// namespace and the identifier. `None` means that no address exists for
/// them.
pub fn derive_address(namespace: Namespace, escrow_id: u64) -> (found: Option<(Identity, u8)>)
    ensures
        found == derived(namespace, escrow_id),
        namespace == Namespace::Escrow ==> (found matches Some((address, bump)) ==> rederived(
            escrow_id,
            bump,
        ) == Some(address)),
{
    let list = seeds_of(namespace, escrow_id);
    let id = program_id();
    let found = try_find_program_address(&list, &id);
    proof {
        if namespace == Namespace::Escrow {
            if let Some((address, bump)) = found {
                assert(list.deep_view().push(seq![bump]) =~~= signer_seeds(escrow_id, bump));
            }
        }
    }
    found
}

/// Derives a record's address again from its identifier and its stored salt,
/// without a search. `None` means that the salt yields no address.
pub fn rederive(escrow_id: u64, bump: u8) -> (address: Option<Identity>)
    ensures
        address == rederived(escrow_id, bump),
{
    let list = signer_seeds_of(escrow_id, bump);
    let id = program_id();
    create_program_address(&list, &id)
}

} // verus!
