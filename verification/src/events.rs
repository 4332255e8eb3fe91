//! The tags of the records that a pool emits.
//!
//! Every record starts with a tag of eight bytes that says what happened;
//! the fields of the event follow. This module holds the tags and takes a
//! tag off the front of a record.

use vstd::prelude::*;
use vstd::slice::slice_subrange;

verus! {

/// The number of bytes of a tag.
pub const DISCRIMINATOR_LEN: usize = 8;

/// The tag of the event "close config".
pub const EVT_CLOSE_CONFIG_EVENT_DISCM: [u8; 8] = [36, 30, 239, 45, 58, 132, 14, 5];

/// The tag of the event "create config".
pub const EVT_CREATE_CONFIG_EVENT_DISCM: [u8; 8] = [131, 207, 180, 174, 180, 73, 165, 54];

/// The tag of the event "create token badge".
pub const EVT_CREATE_TOKEN_BADGE_EVENT_DISCM: [u8; 8] = [141, 120, 134, 116, 34, 28, 114, 160];

/// The tag of the event "create claim fee operator".
pub const EVT_CREATE_CLAIM_FEE_OPERATOR_EVENT_DISCM: [u8; 8] = [21, 6, 153, 120, 68, 116, 28, 177];

/// The tag of the event "close claim fee operator".
pub const EVT_CLOSE_CLAIM_FEE_OPERATOR_EVENT_DISCM: [u8; 8] = [111, 39, 37, 55, 110, 216, 194, 23];

/// The tag of the event "initialize pool".
pub const EVT_INITIALIZE_POOL_EVENT_DISCM: [u8; 8] = [228, 50, 246, 85, 203, 66, 134, 37];

/// The tag of the event "add liquidity".
pub const EVT_ADD_LIQUIDITY_EVENT_DISCM: [u8; 8] = [175, 242, 8, 157, 30, 247, 185, 169];

/// The tag of the event "claim position fee".
pub const EVT_CLAIM_POSITION_FEE_EVENT_DISCM: [u8; 8] = [198, 182, 183, 52, 97, 12, 49, 56];

/// The tag of the event "create position".
pub const EVT_CREATE_POSITION_EVENT_DISCM: [u8; 8] = [156, 15, 119, 198, 29, 181, 221, 55];

/// The tag of the event "remove liquidity".
pub const EVT_REMOVE_LIQUIDITY_EVENT_DISCM: [u8; 8] = [87, 46, 88, 98, 175, 96, 34, 91];

/// The tag of the event "swap".
pub const EVT_SWAP_EVENT_DISCM: [u8; 8] = [27, 60, 21, 213, 138, 170, 187, 147];

/// The tag of the event "lock position".
pub const EVT_LOCK_POSITION_EVENT_DISCM: [u8; 8] = [168, 63, 108, 83, 219, 82, 2, 200];

/// The tag of the event "permanent lock position".
pub const EVT_PERMANENT_LOCK_POSITION_EVENT_DISCM: [u8; 8] = [145, 143, 162, 218, 218, 80, 67, 11];

/// The tag of the event "claim protocol fee".
pub const EVT_CLAIM_PROTOCOL_FEE_EVENT_DISCM: [u8; 8] = [186, 244, 75, 251, 188, 13, 25, 33];

/// The tag of the event "claim partner fee".
pub const EVT_CLAIM_PARTNER_FEE_EVENT_DISCM: [u8; 8] = [118, 99, 77, 10, 226, 1, 1, 87];

/// The tag of the event "set pool status".
pub const EVT_SET_POOL_STATUS_EVENT_DISCM: [u8; 8] = [100, 213, 74, 3, 95, 91, 228, 146];

/// The tag of the event "initialize reward".
pub const EVT_INITIALIZE_REWARD_EVENT_DISCM: [u8; 8] = [129, 91, 188, 3, 246, 52, 185, 249];

/// The tag of the event "fund reward".
pub const EVT_FUND_REWARD_EVENT_DISCM: [u8; 8] = [104, 233, 237, 122, 199, 191, 121, 85];

/// The tag of the event "claim reward".
pub const EVT_CLAIM_REWARD_EVENT_DISCM: [u8; 8] = [218, 86, 147, 200, 235, 188, 215, 231];

/// The tag of the event "update reward duration".
pub const EVT_UPDATE_REWARD_DURATION_EVENT_DISCM: [u8; 8] = [149, 135, 65, 231, 129, 153, 65, 57];

/// The tag of the event "update reward funder".
pub const EVT_UPDATE_REWARD_FUNDER_EVENT_DISCM: [u8; 8] = [76, 154, 208, 13, 40, 115, 246, 146];

/// The tag of the event "withdraw ineligible reward".
pub const EVT_WITHDRAW_INELIGIBLE_REWARD_EVENT_DISCM: [u8; 8] = [248, 215, 184, 78, 31, 180, 179, 168];

/// Whether `buf` starts with the tag `discriminator`.
pub open spec fn has_discriminator(buf: Seq<u8>, discriminator: Seq<u8>) -> bool {
    buf.len() >= DISCRIMINATOR_LEN && buf.subrange(0, DISCRIMINATOR_LEN as int) == discriminator
}

/// Takes the tag `discriminator` off the front of `buf` and returns the
/// bytes that follow it; nothing where `buf` is shorter than a tag or
/// starts with other bytes.
pub fn strip_discriminator<'a>(buf: &'a [u8], discriminator: &[u8; 8]) -> (r: Option<&'a [u8]>)
    ensures
        match r {
            Some(rest) => has_discriminator(buf@, discriminator@) && rest@ == buf@.subrange(
                DISCRIMINATOR_LEN as int,
                buf@.len() as int,
            ),
            None => !has_discriminator(buf@, discriminator@),
        },
{
    if buf.len() < DISCRIMINATOR_LEN {
        return None;
    }
    let mut i: usize = 0;
    while i < DISCRIMINATOR_LEN
        invariant
            i <= DISCRIMINATOR_LEN <= buf@.len(),
            forall|k: int| 0 <= k < i ==> buf@[k] == discriminator@[k],
        decreases DISCRIMINATOR_LEN - i,
    {
        if buf[i] != discriminator[i] {
            assert(buf@.subrange(0, DISCRIMINATOR_LEN as int)[i as int] == buf@[i as int]);
            return None;
        }
        i += 1;
    }
    assert(buf@.subrange(0, DISCRIMINATOR_LEN as int) =~= discriminator@);
    Some(slice_subrange(buf, DISCRIMINATOR_LEN, buf.len()))
}

} // verus!
