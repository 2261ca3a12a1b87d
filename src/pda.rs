use vstd::prelude::*;
use crate::programs::{meteora_dlmm_program_id, meteora_dlmm_program_id_spec};
use crate::pubkey::Pubkey;

verus! {

/// The program-derived address, with its bump seed, of `seeds` under `program_id`;
/// `None` where no bump seed yields one.
pub uninterp spec fn program_address(seeds: Seq<Seq<u8>>, program_id: Seq<u8>) -> Option<
    (Seq<u8>, u8),
>;

/// Relies on solana_program's `Pubkey::try_find_program_address`: the address and bump
/// it finds depend on the seeds and the program id alone, and it reports `None`
/// instead of panicking when none is found.
#[verifier::external_body]
fn find_program_address(seeds: &Vec<Vec<u8>>, program_id: &Pubkey) -> (r: Option<(Pubkey, u8)>)
    ensures
        r matches Some((k, b)) ==> program_address(
            seeds@.map_values(|s: Vec<u8>| s@),
            program_id@,
        ) == Some((k@, b)),
        r is None ==> program_address(seeds@.map_values(|s: Vec<u8>| s@), program_id@) is None,
{
    let parts: Vec<&[u8]> = seeds.iter().map(|s| s.as_slice()).collect();
    let program = anchor_lang::solana_program::pubkey::Pubkey::new_from_array(program_id.bytes);
    match anchor_lang::solana_program::pubkey::Pubkey::try_find_program_address(&parts, &program) {
        Some((k, b)) => Some((Pubkey { bytes: k.to_bytes() }, b)),
        None => None,
    }
}

/// `r` is the derivation of `seeds` under `program_id`.
pub open spec fn derived_as(r: Option<(Pubkey, u8)>, seeds: Seq<Seq<u8>>, program_id: Seq<u8>) -> bool {
    match r {
        Some((k, b)) => program_address(seeds, program_id) == Some((k@, b)),
        None => program_address(seeds, program_id) is None,
    }
}

/// The first `n` little-endian base-256 digits of `u`.
pub open spec fn le_bytes(u: nat, n: nat) -> Seq<u8>
    decreases n,
{
    if n == 0 {
        Seq::empty()
    } else {
        seq![(u % 256) as u8] + le_bytes(u / 256, (n - 1) as nat)
    }
}

/// The eight little-endian bytes of `v` in two's complement.
pub open spec fn i64_le_bytes(v: i64) -> Seq<u8> {
    let u = if v < 0 {
        v + 0x1_0000_0000_0000_0000
    } else {
        v as int
    };
    le_bytes(u as nat, 8)
}

/// Encodes `v` as eight little-endian bytes in two's complement.
pub fn i64_to_le_bytes(v: i64) -> (r: Vec<u8>)
    ensures
        r@ == i64_le_bytes(v),
{
    let mut w: u128 = if v < 0 {
        (v as i128 + 0x1_0000_0000_0000_0000i128) as u128
    } else {
        v as u128
    };
    let ghost w0: nat = w as nat;
    let mut out: Vec<u8> = Vec::new();
    let mut i: usize = 0;
    while i < 8
        invariant
            i <= 8,
            out@ + le_bytes(w as nat, (8 - i) as nat) == le_bytes(w0, 8),
        decreases 8 - i,
    {
        let ghost before = out@;
        let ghost rest = le_bytes((w / 256) as nat, (8 - i - 1) as nat);
        assert(le_bytes(w as nat, (8 - i) as nat) == seq![(w % 256) as u8] + rest);
        out.push((w % 256) as u8);
        w = w / 256;
        i = i + 1;
        assert(out@ + rest =~= before + (seq![(out@.last())] + rest));
    }
    assert(out@ + le_bytes(w as nat, 0) =~= out@);
    out
}

/// The 32 bytes of `k` as a vector.
fn key_bytes(k: &Pubkey) -> (r: Vec<u8>)
    ensures
        r@ == k@,
{
    let mut out: Vec<u8> = Vec::new();
    let mut i: usize = 0;
    while i < 32
        invariant
            i <= 32,
            k@.len() == 32,
            out@ == k@.subrange(0, i as int),
        decreases 32 - i,
    {
        out.push(k.bytes[i]);
        i = i + 1;
        assert(out@ =~= k@.subrange(0, i as int));
    }
    assert(out@ =~= k@);
    out
}

/// The ASCII bytes of `position`.
pub open spec fn position_seed() -> Seq<u8> {
    seq![112, 111, 115, 105, 116, 105, 111, 110]
}

/// The address of the record of the position with external reference `reference`,
/// owned by `program_id`: the derivation of `position` and the reference.
pub fn position_record_address(reference: &Pubkey, program_id: &Pubkey) -> (r: Option<(Pubkey, u8)>)
    ensures
        derived_as(r, seq![position_seed(), reference@], program_id@),
{
    let tag: Vec<u8> = vec![112, 111, 115, 105, 116, 105, 111, 110];
    assert(tag@ =~= position_seed());
    let seeds: Vec<Vec<u8>> = vec![tag, key_bytes(reference)];
    assert(seeds@.map_values(|s: Vec<u8>| s@) =~= seq![position_seed(), reference@]);
    find_program_address(&seeds, program_id)
}

/// The ASCII bytes of `__event_authority`.
pub open spec fn event_authority_seed() -> Seq<u8> {
    seq![95, 95, 101, 118, 101, 110, 116, 95, 97, 117, 116, 104, 111, 114, 105, 116, 121]
}

/// The ASCII bytes of `bin_array`.
pub open spec fn bin_array_seed() -> Seq<u8> {
    seq![98, 105, 110, 95, 97, 114, 114, 97, 121]
}

/// The pool service's event authority: the derivation of `__event_authority` under the
/// pool service program.
pub fn event_authority() -> (r: Option<(Pubkey, u8)>)
    ensures
        derived_as(r, seq![event_authority_seed()], meteora_dlmm_program_id_spec()),
{
    let seed: Vec<u8> = vec![95, 95, 101, 118, 101, 110, 116, 95, 97, 117, 116, 104, 111, 114, 105, 116, 121];
    assert(seed@ =~= event_authority_seed());
    let seeds: Vec<Vec<u8>> = vec![seed];
    assert(seeds@.map_values(|s: Vec<u8>| s@) =~= seq![event_authority_seed()]);
    find_program_address(&seeds, &meteora_dlmm_program_id())
}

/// The address of the pool's bin array number `index`: the derivation of `bin_array`,
/// the pool address and the index's little-endian bytes under the pool service program.
pub fn bin_array_pda(lb_pair: &Pubkey, index: i64) -> (r: Option<(Pubkey, u8)>)
    ensures
        derived_as(
            r,
            seq![bin_array_seed(), lb_pair@, i64_le_bytes(index)],
            meteora_dlmm_program_id_spec(),
        ),
{
    let tag: Vec<u8> = vec![98, 105, 110, 95, 97, 114, 114, 97, 121];
    assert(tag@ =~= bin_array_seed());
    let pair = key_bytes(lb_pair);
    let seeds: Vec<Vec<u8>> = vec![tag, pair, i64_to_le_bytes(index)];
    assert(seeds@.map_values(|s: Vec<u8>| s@) =~= seq![
        bin_array_seed(),
        lb_pair@,
        i64_le_bytes(index),
    ]);
    find_program_address(&seeds, &meteora_dlmm_program_id())
}

} // verus!
