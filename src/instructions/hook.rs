use vstd::prelude::*;
use spl_transfer_hook_interface::instruction::TransferHookInstruction;
use crate::errors::SSSError;
use crate::events::TransferHookExecuted;
use crate::pubkey::Pubkey;
use crate::state::{is_blocked, BlacklistEntry, StablecoinState};

verus! {

/// Length of an instruction discriminator.
pub const DISCRIMINATOR_LEN: usize = 8;

/// What the transfer policy check decided: the decision event, absent when
/// the check is disabled, and whether the transfer may go on.
#[derive(Clone, Copy, Debug)]
pub struct HookOutcome {
    pub event: Option<TransferHookExecuted>,
    pub result: Result<(), SSSError>,
}

/// Whether the policy check lets a transfer through: either it is disabled,
/// or neither the sender nor the recipient has an active record.
pub open spec fn transfer_allowed(
    s: StablecoinState,
    sender: Option<BlacklistEntry>,
    recipient: Option<BlacklistEntry>,
) -> bool {
    !s.transfer_hook_enabled || (!is_blocked(sender) && !is_blocked(recipient))
}

/// The transfer policy check, run by the ledger right before it commits a
/// transfer of `amount` from `source` to `destination`.
///
/// When the asset's transfer hook is disabled it lets everything through and
/// looks nothing up. Otherwise the sender's record is consulted first, then
/// the recipient's: an active one blocks the transfer, which must then abort
/// as a whole. Every evaluation yields exactly one decision event.
pub fn transfer_hook_handler(
    state: &StablecoinState,
    source: Pubkey,
    destination: Pubkey,
    sender_blacklist: &Option<BlacklistEntry>,
    recipient_blacklist: &Option<BlacklistEntry>,
    amount: u64,
    now: i64,
) -> (r: HookOutcome)
    ensures
        !state.transfer_hook_enabled ==> r.event is None,
        state.transfer_hook_enabled ==> r.event == Some(
            (TransferHookExecuted {
                mint: state.mint,
                source,
                destination,
                amount,
                allowed: transfer_allowed(*state, *sender_blacklist, *recipient_blacklist),
                timestamp: now,
            }),
        ),
        transfer_allowed(*state, *sender_blacklist, *recipient_blacklist) ==> r.result is Ok,
        !transfer_allowed(*state, *sender_blacklist, *recipient_blacklist) ==> r.result == Err::<
            (),
            SSSError,
        >(SSSError::TransferBlocked),
{
    if !state.transfer_hook_enabled {
        return HookOutcome { event: None, result: Ok(()) };
    }
    let sender_blocked = match sender_blacklist {
        Some(e) => e.is_active,
        None => false,
    };
    let blocked = sender_blocked || match recipient_blacklist {
        Some(e) => e.is_active,
        None => false,
    };
    let event = TransferHookExecuted {
        mint: state.mint,
        source,
        destination,
        amount,
        allowed: !blocked,
        timestamp: now,
    };
    if blocked {
        HookOutcome { event: Some(event), result: Err(SSSError::TransferBlocked) }
    } else {
        HookOutcome { event: Some(event), result: Ok(()) }
    }
}

/// The bytes of the interface's Execute instruction for `amount`.
pub uninterp spec fn packed_execute(amount: u64) -> Seq<u8>;

/// Relies on spl_transfer_hook_interface's `TransferHookInstruction::pack`:
/// the Execute instruction is written as its 8-byte discriminator followed by
/// the amount's 8 little-endian bytes.
#[verifier::external_body]
fn pack_execute(amount: u64) -> (r: Vec<u8>)
    ensures
        r@ == packed_execute(amount),
        r@.len() == 16,
{
    TransferHookInstruction::Execute { amount }.pack()
}

/// Whether `data` starts with the first `DISCRIMINATOR_LEN` bytes of `discriminator`.
pub fn matches_discriminator(data: &[u8], discriminator: &[u8]) -> (r: bool)
    ensures
        r == (data@.len() >= DISCRIMINATOR_LEN && discriminator@.len() >= DISCRIMINATOR_LEN
            && data@.subrange(0, DISCRIMINATOR_LEN as int) == discriminator@.subrange(
            0,
            DISCRIMINATOR_LEN as int,
        )),
{
    if data.len() < DISCRIMINATOR_LEN || discriminator.len() < DISCRIMINATOR_LEN {
        return false;
    }
    let mut i: usize = 0;
    while i < DISCRIMINATOR_LEN
        invariant
            0 <= i <= DISCRIMINATOR_LEN,
            data@.len() >= DISCRIMINATOR_LEN,
            discriminator@.len() >= DISCRIMINATOR_LEN,
            forall|j: int| 0 <= j < i ==> data@[j] == discriminator@[j],
        decreases DISCRIMINATOR_LEN - i,
    {
        if data[i] != discriminator[i] {
            assert(data@.subrange(0, DISCRIMINATOR_LEN as int)[i as int] != discriminator@.subrange(
                0,
                DISCRIMINATOR_LEN as int,
            )[i as int]);
            return false;
        }
        i = i + 1;
    }
    assert(data@.subrange(0, DISCRIMINATOR_LEN as int) =~= discriminator@.subrange(
        0,
        DISCRIMINATOR_LEN as int,
    ));
    true
}

/// Routing of raw instruction data sent through the transfer hook interface:
/// true when it is the interface's Execute instruction.
pub fn fallback_handler(data: &[u8]) -> (r: bool)
    requires
        data@.len() >= DISCRIMINATOR_LEN,
    ensures
        r == (data@.subrange(0, DISCRIMINATOR_LEN as int) == packed_execute(0).subrange(
            0,
            DISCRIMINATOR_LEN as int,
        )),
{
    let packed = pack_execute(0);
    matches_discriminator(data, packed.as_slice())
}

} // verus!
