//! The signing proxy of a mint: an address derived from the mint's identifier, which signs
//! by the seeds it was derived from and holds no private key.

use vstd::prelude::*;
use anchor_lang::prelude::Pubkey;
use crate::address::Address;

verus! {

/// The address that `Pubkey::create_program_address` derives for `program` from `seeds`,
/// or `None` where it derives none.
pub uninterp spec fn program_address(seeds: Seq<Seq<u8>>, program: Seq<u8>) -> Option<Seq<u8>>;

/// The address and bump seed that `Pubkey::try_find_program_address` finds for `program`
/// from `seeds`, or `None` where it finds none.
pub uninterp spec fn found_program_address(seeds: Seq<Seq<u8>>, program: Seq<u8>) -> Option<
    (Seq<u8>, u8),
>;

/// The seeds held by `seeds`, each as a sequence of bytes.
pub open spec fn seeds_of(seeds: Seq<Vec<u8>>) -> Seq<Seq<u8>> {
    Seq::new(seeds.len(), |i: int| seeds[i]@)
}

/// Calls `Pubkey::create_program_address`. Trusted: the result is a function of the seeds
/// and the program alone, and an error of the call is handed on as `None`.
#[verifier::external_body]
fn create_program_address(seeds: &Vec<Vec<u8>>, program: &[u8; 32]) -> (address: Option<[u8; 32]>)
    ensures
        match address {
            Some(bytes) => program_address(seeds_of(seeds@), program@) == Some(bytes@),
            None => program_address(seeds_of(seeds@), program@) is None,
        },
{
    let parts: Vec<&[u8]> = seeds.iter().map(|seed| seed.as_slice()).collect();
    Pubkey::create_program_address(&parts, &Pubkey::from(*program)).ok().map(|key| key.to_bytes())
}

/// Calls `Pubkey::try_find_program_address`. Trusted: the result is a function of the seeds
/// and the program alone, and an address it finds is the one that
/// `Pubkey::create_program_address` derives from the same seeds followed by the bump seed
/// it found.
#[verifier::external_body]
fn try_find_program_address(seeds: &Vec<Vec<u8>>, program: &[u8; 32]) -> (found: Option<
    ([u8; 32], u8),
>)
    ensures
        match found {
            Some((bytes, bump)) => {
                &&& found_program_address(seeds_of(seeds@), program@) == Some((bytes@, bump))
                &&& program_address(seeds_of(seeds@).push(seq![bump]), program@) == Some(bytes@)
            },
            None => found_program_address(seeds_of(seeds@), program@) is None,
        },
{
    let parts: Vec<&[u8]> = seeds.iter().map(|seed| seed.as_slice()).collect();
    Pubkey::try_find_program_address(&parts, &Pubkey::from(*program)).map(
        |(key, bump)| (key.to_bytes(), bump),
    )
}

/// The bytes of the text `mint-authority`, the first seed of every signing proxy.
pub open spec fn authority_tag() -> Seq<u8> {
    seq![109u8, 105, 110, 116, 45, 97, 117, 116, 104, 111, 114, 105, 116, 121]
}

/// The seeds a proxy is searched from: the tag, then the mint's identifier.
pub open spec fn mint_seeds(mint: Seq<u8>) -> Seq<Seq<u8>> {
    seq![authority_tag(), mint]
}

/// The seeds a proxy signs by: the tag, the mint's identifier, and the one-byte bump seed.
pub open spec fn signer_seeds(mint: Seq<u8>, bump: u8) -> Seq<Seq<u8>> {
    seq![authority_tag(), mint, seq![bump]]
}

/// The derived signing authority of a mint: its address, and the bump seed that
/// re-derives the address from the mint's identifier.
#[derive(Clone, Copy, Debug)]
pub struct SigningProxy {
    pub address: Address,
    pub bump: u8,
}

impl SigningProxy {
    /// Whether two proxies have the same address and bump seed.
    pub fn same(&self, other: &SigningProxy) -> (same: bool)
        ensures
            same == (*self == *other),
    {
        self.address.is(&other.address) && self.bump == other.bump
    }

    /// The proxy's address is the one its seeds derive for `program` from `mint`, so the
    /// ledger accepts those seeds as its signature.
    pub open spec fn signs_for(self, program: Seq<u8>, mint: Seq<u8>) -> bool {
        program_address(signer_seeds(mint, self.bump), program) == Some(self.address@)
    }
}

impl PartialEq for SigningProxy {
    fn eq(&self, other: &SigningProxy) -> (same: bool) {
        self.same(other)
    }
}

impl Eq for SigningProxy {}

impl vstd::std_specs::cmp::PartialEqSpecImpl for SigningProxy {
    open spec fn obeys_eq_spec() -> bool {
        true
    }

    open spec fn eq_spec(&self, other: &SigningProxy) -> bool {
        *self == *other
    }
}

/// A mint has one proxy for each bump seed: two proxies that sign for the same mint under
/// the same program with the same bump seed are the same proxy.
pub proof fn law_proxy_is_determined(
    first: SigningProxy,
    second: SigningProxy,
    program: Seq<u8>,
    mint: Seq<u8>,
)
    requires
        first.signs_for(program, mint),
        second.signs_for(program, mint),
        first.bump == second.bump,
    ensures
        first == second,
{
    Address::lemma_equal_by_view(first.address, second.address);
}

/// The bytes of an identity, as a growable list.
fn bytes_of(address: &Address) -> (bytes: Vec<u8>)
    ensures
        bytes@ == address@,
{
    let mut bytes: Vec<u8> = Vec::new();
    let mut i: usize = 0;
    while i < 32
        invariant
            i <= 32,
            bytes@ == address@.subrange(0, i as int),
        decreases 32 - i,
    {
        bytes.push(address.bytes[i]);
        assert(bytes@ =~= address@.subrange(0, i + 1));
        i += 1;
    }
    assert(address@.subrange(0, 32) =~= address@);
    bytes
}

/// The tag as executable bytes.
fn tag_bytes() -> (tag: Vec<u8>)
    ensures
        tag@ == authority_tag(),
{
    let tag: Vec<u8> = vec![109u8, 105, 110, 116, 45, 97, 117, 116, 104, 111, 114, 105, 116, 121];
    assert(tag@ =~= authority_tag());
    tag
}

/// The seeds by which the proxy of `mint` signs, for the ledger call to carry.
pub fn signer_seeds_for(mint: &Address, bump: u8) -> (seeds: Vec<Vec<u8>>)
    ensures
        seeds_of(seeds@) == signer_seeds(mint@, bump),
{
    let last: Vec<u8> = vec![bump];
    let seeds: Vec<Vec<u8>> = vec![tag_bytes(), bytes_of(mint), last];
    assert(last@ =~= seq![bump]);
    assert(seeds_of(seeds@) =~= signer_seeds(mint@, bump));
    seeds
}

/// Derives the signing proxy of `mint` under `program`, searching for its bump seed.
///
/// Yields the proxy exactly where the search finds one; the proxy then signs for the mint.
pub fn derive_proxy(program: &Address, mint: &Address) -> (proxy: Option<SigningProxy>)
    ensures
        match proxy {
            Some(p) => {
                &&& found_program_address(mint_seeds(mint@), program@) == Some((p.address@, p.bump))
                &&& p.signs_for(program@, mint@)
            },
            None => found_program_address(mint_seeds(mint@), program@) is None,
        },
{
    let seeds: Vec<Vec<u8>> = vec![tag_bytes(), bytes_of(mint)];
    assert(seeds_of(seeds@) =~= mint_seeds(mint@));
    match try_find_program_address(&seeds, &program.bytes) {
        Some((bytes, bump)) => {
            assert(mint_seeds(mint@).push(seq![bump]) =~= signer_seeds(mint@, bump));
            Some(SigningProxy { address: Address::new(bytes), bump })
        },
        None => None,
    }
}

/// Derives the signing proxy of `mint` under `program` again from a stored bump seed.
///
/// Yields the proxy exactly where the seeds with that bump derive an address.
pub fn rederive_proxy(program: &Address, mint: &Address, bump: u8) -> (proxy: Option<SigningProxy>)
    ensures
        match proxy {
            Some(p) => p.bump == bump && p.signs_for(program@, mint@),
            None => program_address(signer_seeds(mint@, bump), program@) is None,
        },
{
    let seeds = signer_seeds_for(mint, bump);
    match create_program_address(&seeds, &program.bytes) {
        Some(bytes) => Some(SigningProxy { address: Address::new(bytes), bump }),
        None => None,
    }
}

} // verus!
