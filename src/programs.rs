use vstd::prelude::*;
use crate::pubkey::Pubkey;

verus! {

/// The address of the pool service (Meteora DLMM) program.
pub open spec fn meteora_dlmm_program_id_spec() -> Seq<u8> {
    seq![4, 233, 225, 47, 188, 132, 232, 38, 201, 50, 204, 233, 226, 100, 12, 206, 21, 89, 12, 28, 98, 115, 176, 146, 87, 8, 186, 59, 133, 32, 176, 188]
}

/// The address of the pool service (Meteora DLMM) program.
pub fn meteora_dlmm_program_id() -> (r: Pubkey)
    ensures
        r@ == meteora_dlmm_program_id_spec(),
{
    let r = Pubkey::new([4, 233, 225, 47, 188, 132, 232, 38, 201, 50, 204, 233, 226, 100, 12, 206, 21, 89, 12, 28, 98, 115, 176, 146, 87, 8, 186, 59, 133, 32, 176, 188]);
    assert(r@ =~= meteora_dlmm_program_id_spec());
    r
}

/// The address of the SPL Token program.
pub open spec fn spl_token_program_id_spec() -> Seq<u8> {
    seq![6, 221, 246, 225, 215, 101, 161, 147, 217, 203, 225, 70, 206, 235, 121, 172, 28, 180, 133, 237, 95, 91, 55, 145, 58, 140, 245, 133, 126, 255, 0, 169]
}

/// The address of the SPL Token program.
pub fn spl_token_program_id() -> (r: Pubkey)
    ensures
        r@ == spl_token_program_id_spec(),
{
    let r = Pubkey::new([6, 221, 246, 225, 215, 101, 161, 147, 217, 203, 225, 70, 206, 235, 121, 172, 28, 180, 133, 237, 95, 91, 55, 145, 58, 140, 245, 133, 126, 255, 0, 169]);
    assert(r@ =~= spl_token_program_id_spec());
    r
}

/// The address of the Token-2022 program.
pub open spec fn token_2022_program_id_spec() -> Seq<u8> {
    seq![6, 221, 246, 225, 238, 117, 143, 222, 24, 66, 93, 188, 228, 108, 205, 218, 182, 26, 252, 77, 131, 185, 13, 39, 254, 189, 249, 40, 216, 161, 139, 252]
}

/// The address of the Token-2022 program.
pub fn token_2022_program_id() -> (r: Pubkey)
    ensures
        r@ == token_2022_program_id_spec(),
{
    let r = Pubkey::new([6, 221, 246, 225, 238, 117, 143, 222, 24, 66, 93, 188, 228, 108, 205, 218, 182, 26, 252, 77, 131, 185, 13, 39, 254, 189, 249, 40, 216, 161, 139, 252]);
    assert(r@ =~= token_2022_program_id_spec());
    r
}

/// The address of the DAMM v2 pool program.
pub open spec fn damm_v2_program_id_spec() -> Seq<u8> {
    seq![9, 45, 33, 53, 101, 122, 21, 156, 43, 135, 212, 182, 106, 112, 219, 142, 151, 82, 56, 159, 247, 106, 175, 32, 108, 237, 6, 58, 56, 249, 90, 237]
}

/// The address of the DAMM v2 pool program.
pub fn damm_v2_program_id() -> (r: Pubkey)
    ensures
        r@ == damm_v2_program_id_spec(),
{
    let r = Pubkey::new([9, 45, 33, 53, 101, 122, 21, 156, 43, 135, 212, 182, 106, 112, 219, 142, 151, 82, 56, 159, 247, 106, 175, 32, 108, 237, 6, 58, 56, 249, 90, 237]);
    assert(r@ =~= damm_v2_program_id_spec());
    r
}

/// The address of the SPL Memo program.
pub open spec fn spl_memo_program_id_spec() -> Seq<u8> {
    seq![5, 74, 83, 90, 153, 41, 33, 6, 77, 36, 232, 113, 96, 218, 56, 124, 124, 53, 181, 221, 188, 146, 187, 129, 228, 31, 168, 64, 65, 5, 68, 141]
}

/// The address of the SPL Memo program.
pub fn spl_memo_program_id() -> (r: Pubkey)
    ensures
        r@ == spl_memo_program_id_spec(),
{
    let r = Pubkey::new([5, 74, 83, 90, 153, 41, 33, 6, 77, 36, 232, 113, 96, 218, 56, 124, 124, 53, 181, 221, 188, 146, 187, 129, 228, 31, 168, 64, 65, 5, 68, 141]);
    assert(r@ =~= spl_memo_program_id_spec());
    r
}

} // verus!
