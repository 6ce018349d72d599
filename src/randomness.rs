//! The draw: requests to the randomness oracle, the identity that may
//! answer them, and the reduction of the answer to an entry index.
use vstd::prelude::*;

use crate::identity::Identity;

verus! {

/// The key that signs the oracle's callback into the program with key `program`.
pub uninterp spec fn vrf_callback_identity(program: Seq<u8>) -> Seq<u8>;

/// Relies on `ephemeral_vrf_sdk::consts::scoped_vrf_identity`: the derived
/// address that the oracle signs with when it calls back into `program`, a
/// function of the program key alone. (The derivation panics only if no bump
/// byte yields an address, which has probability about 2^-255.)
#[verifier::external_body]
fn scoped_vrf_identity(program: &Identity) -> (r: Identity)
    ensures
        r@ == vrf_callback_identity(program@),
{
    let program_id = ephemeral_vrf_sdk::Pubkey::new_from_array(program.bytes);
    Identity { bytes: ephemeral_vrf_sdk::consts::scoped_vrf_identity(&program_id).to_bytes() }
}

/// The only key whose callback may settle a round of the program `program`.
pub fn callback_identity(program: &Identity) -> (r: Identity)
    ensures
        r@ == vrf_callback_identity(program@),
{
    scoped_vrf_identity(program)
}

/// The bytes read as one unsigned number, most significant byte first.
pub open spec fn bytes_value(bytes: Seq<u8>) -> nat
    decreases bytes.len(),
{
    if bytes.len() == 0 {
        0
    } else {
        bytes_value(bytes.drop_last()) * 256 + bytes.last() as nat
    }
}

/// The entry index drawn from `randomness` among `total` entries: the
/// randomness as a 256-bit number, modulo the number of entries.
pub open spec fn draw(randomness: Seq<u8>, total: u64) -> int {
    bytes_value(randomness) as int % (total as int)
}

proof fn lemma_fold_step(v: int, b: int, m: int)
    requires
        m > 0,
    ensures
        (v * 256 + b) % m == ((v % m) * 256 + b) % m,
{
    vstd::arithmetic::div_mod::lemma_mul_mod_noop_left(v, 256, m);
    vstd::arithmetic::div_mod::lemma_add_mod_noop(v * 256, b, m);
    vstd::arithmetic::div_mod::lemma_add_mod_noop((v % m) * 256, b, m);
}

/// Reduces 32 bytes of oracle randomness to an entry index in `[0, total)`.
///
/// The 32 bytes are read as one number below 2^256 and reduced modulo
/// `total`, folding one byte at a time. When the oracle's bytes are uniform,
/// the numbers of inputs that give any two indices differ by at most one, so
/// no index is favoured by more than 2^-256.
pub fn winner_index(randomness: &[u8; 32], total: u64) -> (r: u64)
    requires
        total >= 1,
    ensures
        r == draw(randomness@, total),
        r < total,
{
    let m = total as u128;
    let mut acc: u128 = 0;
    let mut i: usize = 0;
    assert(randomness@.subrange(0, 0).len() == 0);
    assert(bytes_value(randomness@.subrange(0, 0)) == 0);
    proof {
        vstd::arithmetic::div_mod::lemma_small_mod(0, m as nat);
    }
    while i < 32
        invariant
            0 <= i <= 32,
            m == total as u128,
            m >= 1,
            acc < m,
            acc as int == bytes_value(randomness@.subrange(0, i as int)) as int % (m as int),
        decreases 32 - i,
    {
        let b = randomness[i];
        proof {
            let pre = randomness@.subrange(0, i as int + 1);
            assert(pre.drop_last() =~= randomness@.subrange(0, i as int));
            assert(pre.last() == b);
            lemma_fold_step(bytes_value(randomness@.subrange(0, i as int)) as int, b as int, m as int);
        }
        assert(acc * 256 + (b as u128) < 0x1_0000_0000_0000_0000_00) by (nonlinear_arith)
            requires
                acc < m,
                m <= 0xffff_ffff_ffff_ffff,
                b < 256,
        ;
        acc = (acc * 256 + b as u128) % m;
        i = i + 1;
    }
    assert(randomness@.subrange(0, 32) =~= randomness@);
    acc as u64
}

/// Every draw names an entry: it is below the number of entries.
pub proof fn lemma_draw_in_range(randomness: Seq<u8>, total: u64)
    requires
        total >= 1,
    ensures
        0 <= draw(randomness, total) < total,
{
}

proof fn lemma_zero_prefix(bytes: Seq<u8>, k: int)
    requires
        0 <= k <= bytes.len(),
        forall|j: int| 0 <= j < k ==> bytes[j] == 0,
    ensures
        bytes_value(bytes.subrange(0, k)) == 0,
    decreases k,
{
    if k > 0 {
        assert(bytes.subrange(0, k).drop_last() =~= bytes.subrange(0, k - 1));
        lemma_zero_prefix(bytes, k - 1);
    }
}

/// The randomness whose only nonzero byte is the last one, set to `index`,
/// draws entry `index` whenever it exists: every entry up to 255 can win.
pub proof fn lemma_every_entry_can_win(total: u64, index: u8)
    requires
        index < total,
    ensures
        draw(Seq::new(32, |i: int| if i == 31 { index } else { 0u8 }), total) == index,
{
    let bytes = Seq::new(32, |i: int| if i == 31 { index } else { 0u8 });
    lemma_zero_prefix(bytes, 31);
    assert(bytes.subrange(0, 32).drop_last() =~= bytes.subrange(0, 31));
    assert(bytes.subrange(0, 32) =~= bytes);
    vstd::arithmetic::div_mod::lemma_small_mod(index as nat, total as nat);
}

/// The caller's one-byte seed, repeated to the 32 bytes the oracle takes.
pub fn expand_seed(client_seed: u8) -> (r: [u8; 32])
    ensures
        forall|i: int| 0 <= i < 32 ==> r@[i] == client_seed,
{
    [client_seed; 32]
}

} // verus!
