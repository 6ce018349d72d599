//! Deterministic addresses of the raffle's accounts.
//!
//! Every account is a program-derived address: the seeds below, a bump byte
//! and the program key are hashed together. The seeds are built here and
//! proved collision-free; the hashing is Solana's, reached through
//! `Pubkey::try_find_program_address`.
use vstd::prelude::*;

use crate::identity::Identity;

verus! {

/// The `width` low bytes of `n`, least significant first.
pub open spec fn le_bytes(n: nat, width: nat) -> Seq<u8>
    decreases width,
{
    if width == 0 {
        Seq::empty()
    } else {
        seq![(n % 256) as u8] + le_bytes(n / 256, (width - 1) as nat)
    }
}

pub open spec fn pow256(width: nat) -> nat
    decreases width,
{
    if width == 0 {
        1
    } else {
        256 * pow256((width - 1) as nat)
    }
}

/// The eight bytes of a `u64` in little-endian order, as `to_le_bytes` lays them out.
pub open spec fn u64_le(n: u64) -> Seq<u8> {
    le_bytes(n as nat, 8)
}

/// ASCII of `token_lottery`.
pub open spec fn config_tag() -> Seq<u8> {
    seq![116u8, 111, 107, 101, 110, 95, 108, 111, 116, 116, 101, 114, 121]
}

/// ASCII of `collection_mint`.
pub open spec fn collection_tag() -> Seq<u8> {
    seq![99u8, 111, 108, 108, 101, 99, 116, 105, 111, 110, 95, 109, 105, 110, 116]
}

/// Seeds of the one configuration record; they name no round.
pub open spec fn config_seeds() -> Seq<Seq<u8>> {
    seq![config_tag()]
}

/// Seeds of a round's collection marker.
pub open spec fn collection_seeds(round_id: u64) -> Seq<Seq<u8>> {
    seq![collection_tag(), u64_le(round_id)]
}

/// Seeds of the entry token with index `index` in round `round_id`.
pub open spec fn ticket_seeds(round_id: u64, index: u64) -> Seq<Seq<u8>> {
    seq![u64_le(round_id), u64_le(index)]
}

pub open spec fn seeds_view(seeds: Vec<Vec<u8>>) -> Seq<Seq<u8>> {
    seeds@.map_values(|s: Vec<u8>| s@)
}

/// What Solana derives from a list of seeds under a program key: the address
/// and its bump byte, or nothing when no bump byte yields a valid address.
pub uninterp spec fn program_address(seeds: Seq<Seq<u8>>, program: Seq<u8>) -> Option<(Seq<u8>, u8)>;

pub open spec fn found_view(r: Option<(Identity, u8)>) -> Option<(Seq<u8>, u8)> {
    match r {
        Some((key, bump)) => Some((key@, bump)),
        None => None,
    }
}

/// Relies on `Pubkey::try_find_program_address` (solana-pubkey, through
/// anchor_lang): the address and bump byte found are a function of the seed
/// bytes and the program key alone. At most fifteen seeds of at most 32 bytes
/// are passed, so that the bump byte fits within Solana's seed limits.
#[verifier::external_body]
fn try_find_program_address(seeds: &Vec<Vec<u8>>, program: &Identity) -> (r: Option<(Identity, u8)>)
    requires
        seeds@.len() <= 15,
        forall|i: int| 0 <= i < seeds@.len() ==> seeds@[i]@.len() <= 32,
    ensures
        found_view(r) == program_address(seeds_view(*seeds), program@),
{
    let refs: Vec<&[u8]> = seeds.iter().map(|s| s.as_slice()).collect();
    let program_id = anchor_lang::prelude::Pubkey::new_from_array(program.bytes);
    anchor_lang::prelude::Pubkey::try_find_program_address(&refs, &program_id).map(
        |(key, bump)| (Identity { bytes: key.to_bytes() }, bump),
    )
}

/// Little-endian bytes of `n`.
pub fn u64_le_bytes(n: u64) -> (r: Vec<u8>)
    ensures
        r@ == u64_le(n),
        r@.len() == 8,
{
    proof {
        lemma_le_bytes_len(n as nat, 8);
    }
    let mut r: Vec<u8> = Vec::new();
    let mut v: u64 = n;
    let mut i: usize = 0;
    while i < 8
        invariant
            0 <= i <= 8,
            r@ + le_bytes(v as nat, (8 - i) as nat) == le_bytes(n as nat, 8),
        decreases 8 - i,
    {
        let ghost rest = le_bytes((v / 256) as nat, (8 - i - 1) as nat);
        assert(le_bytes(v as nat, (8 - i) as nat) == seq![(v % 256) as u8] + rest);
        r.push((v % 256) as u8);
        v = v / 256;
        i = i + 1;
    }
    assert(r@ + le_bytes(v as nat, 0) =~= r@);
    r
}

proof fn lemma_le_bytes_len(n: nat, width: nat)
    ensures
        le_bytes(n, width).len() == width,
    decreases width,
{
    if width > 0 {
        lemma_le_bytes_len(n / 256, (width - 1) as nat);
    }
}

proof fn lemma_le_bytes_injective(a: nat, b: nat, width: nat)
    requires
        a < pow256(width),
        b < pow256(width),
        le_bytes(a, width) == le_bytes(b, width),
    ensures
        a == b,
    decreases width,
{
    if width > 0 {
        let w = (width - 1) as nat;
        let p = pow256(w);
        lemma_le_bytes_len(a / 256, w);
        lemma_le_bytes_len(b / 256, w);
        assert(le_bytes(a / 256, w) =~= le_bytes(a, width).subrange(1, width as int));
        assert(le_bytes(b / 256, w) =~= le_bytes(b, width).subrange(1, width as int));
        assert(le_bytes(a, width)[0] == (a % 256) as u8);
        assert(le_bytes(b, width)[0] == (b % 256) as u8);
        assert(a / 256 < p && b / 256 < p) by (nonlinear_arith)
            requires
                a < 256 * p,
                b < 256 * p,
        ;
        lemma_le_bytes_injective(a / 256, b / 256, w);
        assert(a == 256 * (a / 256) + a % 256) by (nonlinear_arith);
        assert(b == 256 * (b / 256) + b % 256) by (nonlinear_arith);
    }
}

proof fn lemma_u64_le_injective(a: u64, b: u64)
    ensures
        u64_le(a) == u64_le(b) ==> a == b,
        u64_le(a).len() == 8,
{
    reveal_with_fuel(pow256, 9);
    lemma_le_bytes_len(a as nat, 8);
    if u64_le(a) == u64_le(b) {
        lemma_le_bytes_injective(a as nat, b as nat, 8);
    }
}

/// Entries of different rounds, or with different indices, never share seeds.
pub proof fn lemma_ticket_seeds_injective(r1: u64, i1: u64, r2: u64, i2: u64)
    ensures
        ticket_seeds(r1, i1) == ticket_seeds(r2, i2) ==> r1 == r2 && i1 == i2,
{
    if ticket_seeds(r1, i1) == ticket_seeds(r2, i2) {
        assert(ticket_seeds(r1, i1)[0] == ticket_seeds(r2, i2)[0]);
        assert(ticket_seeds(r1, i1)[1] == ticket_seeds(r2, i2)[1]);
        lemma_u64_le_injective(r1, r2);
        lemma_u64_le_injective(i1, i2);
    }
}

/// Collection markers of different rounds never share seeds.
pub proof fn lemma_collection_seeds_injective(r1: u64, r2: u64)
    ensures
        collection_seeds(r1) == collection_seeds(r2) ==> r1 == r2,
{
    if collection_seeds(r1) == collection_seeds(r2) {
        assert(collection_seeds(r1)[1] == collection_seeds(r2)[1]);
        lemma_u64_le_injective(r1, r2);
    }
}

/// The configuration record, a collection marker and an entry token never
/// share seeds, whatever their rounds and indices.
pub proof fn lemma_seed_kinds_disjoint(round: u64, ticket_round: u64, index: u64)
    ensures
        collection_seeds(round) != ticket_seeds(ticket_round, index),
        collection_seeds(round) != config_seeds(),
        ticket_seeds(ticket_round, index) != config_seeds(),
{
    lemma_u64_le_injective(ticket_round, index);
    assert(collection_seeds(round).len() == 2);
    assert(config_seeds().len() == 1);
    assert(ticket_seeds(ticket_round, index).len() == 2);
    assert(collection_seeds(round)[0].len() == 15);
    assert(ticket_seeds(ticket_round, index)[0].len() == 8);
}

fn config_tag_bytes() -> (r: Vec<u8>)
    ensures
        r@ == config_tag(),
{
    let r: Vec<u8> = vec![116u8, 111, 107, 101, 110, 95, 108, 111, 116, 116, 101, 114, 121];
    assert(r@ =~= config_tag());
    r
}

fn collection_tag_bytes() -> (r: Vec<u8>)
    ensures
        r@ == collection_tag(),
{
    let r: Vec<u8> = vec![99u8, 111, 108, 108, 101, 99, 116, 105, 111, 110, 95, 109, 105, 110, 116];
    assert(r@ =~= collection_tag());
    r
}

/// The seeds of the configuration record, as bytes.
pub fn config_seed_list() -> (r: Vec<Vec<u8>>)
    ensures
        seeds_view(r) == config_seeds(),
{
    let r: Vec<Vec<u8>> = vec![config_tag_bytes()];
    assert(seeds_view(r) =~= config_seeds());
    r
}

/// The seeds of the collection marker of round `round_id`, as bytes.
pub fn collection_seed_list(round_id: u64) -> (r: Vec<Vec<u8>>)
    ensures
        seeds_view(r) == collection_seeds(round_id),
{
    let r: Vec<Vec<u8>> = vec![collection_tag_bytes(), u64_le_bytes(round_id)];
    assert(seeds_view(r) =~= collection_seeds(round_id));
    r
}

/// The seeds of entry `index` of round `round_id`, as bytes.
pub fn ticket_seed_list(round_id: u64, index: u64) -> (r: Vec<Vec<u8>>)
    ensures
        seeds_view(r) == ticket_seeds(round_id, index),
{
    let r: Vec<Vec<u8>> = vec![u64_le_bytes(round_id), u64_le_bytes(index)];
    assert(seeds_view(r) =~= ticket_seeds(round_id, index));
    r
}

/// A seed list viewed as `view` respects Solana's limits when the view does.
proof fn lemma_seed_limits(seeds: Vec<Vec<u8>>, view: Seq<Seq<u8>>)
    requires
        seeds_view(seeds) == view,
        view.len() <= 15,
        forall|i: int| 0 <= i < view.len() ==> view[i].len() <= 32,
    ensures
        seeds@.len() <= 15,
        forall|i: int| 0 <= i < seeds@.len() ==> seeds@[i]@.len() <= 32,
{
    assert forall|i: int| 0 <= i < seeds@.len() implies seeds@[i]@.len() <= 32 by {
        assert(seeds@[i]@ == view[i]);
    }
}

/// Address and bump byte of the configuration record.
pub fn config_address(program: &Identity) -> (r: Option<(Identity, u8)>)
    ensures
        found_view(r) == program_address(config_seeds(), program@),
{
    let seeds = config_seed_list();
    proof {
        lemma_seed_limits(seeds, config_seeds());
    }
    try_find_program_address(&seeds, program)
}

/// Address and bump byte of the collection marker of round `round_id`.
pub fn collection_address(program: &Identity, round_id: u64) -> (r: Option<(Identity, u8)>)
    ensures
        found_view(r) == program_address(collection_seeds(round_id), program@),
{
    let seeds = collection_seed_list(round_id);
    proof {
        lemma_u64_le_injective(round_id, round_id);
        lemma_seed_limits(seeds, collection_seeds(round_id));
    }
    try_find_program_address(&seeds, program)
}

/// Address and bump byte of entry `index` of round `round_id`.
pub fn ticket_address(program: &Identity, round_id: u64, index: u64) -> (r: Option<(Identity, u8)>)
    ensures
        found_view(r) == program_address(ticket_seeds(round_id, index), program@),
{
    let seeds = ticket_seed_list(round_id, index);
    proof {
        lemma_u64_le_injective(round_id, index);
        lemma_u64_le_injective(index, round_id);
        lemma_seed_limits(seeds, ticket_seeds(round_id, index));
    }
    try_find_program_address(&seeds, program)
}

} // verus!
