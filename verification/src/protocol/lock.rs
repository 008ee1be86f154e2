//! Lock and unlock command sequences.

use vstd::prelude::*;

verus! {

/// First command in the lock sequence.
pub const LOCK_COMMAND_1: [u8; 9] = [0x00, 0xC9, 0x44, 0x04, 0x02, 0xFF, 0x00, 0x00, 0x5A];

/// Second command in the lock sequence (shared with unlock).
pub const LOCK_COMMAND_2: [u8; 5] = [0x00, 0xC9, 0x00, 0x04, 0x1C];

/// First command in the unlock sequence.
pub const UNLOCK_COMMAND_1: [u8; 9] = [0x00, 0xC9, 0x44, 0x04, 0x00, 0x00, 0x00, 0x00, 0x5D];

/// Second command in the unlock sequence (shared with lock).
pub const UNLOCK_COMMAND_2: [u8; 5] = [0x00, 0xC9, 0x00, 0x04, 0x1C];

/// Confirmation command sent after both lock and unlock sequences.
pub const CONFIRMATION_COMMAND: [u8; 5] = [0x00, 0xC0, 0x01, 0x00, 0xF6];

/// The three-command lock sequence.
pub open spec fn spec_lock_commands() -> Seq<Seq<u8>> {
    seq![LOCK_COMMAND_1@, LOCK_COMMAND_2@, CONFIRMATION_COMMAND@]
}

/// The three-command unlock sequence.
pub open spec fn spec_unlock_commands() -> Seq<Seq<u8>> {
    seq![UNLOCK_COMMAND_1@, UNLOCK_COMMAND_2@, CONFIRMATION_COMMAND@]
}

/// Return the three-command lock sequence.
pub fn lock_commands() -> (r: [&'static [u8]; 3])
    ensures
        r@.map_values(|c: &[u8]| c@) == spec_lock_commands(),
{
    let r: [&'static [u8]; 3] = [&LOCK_COMMAND_1, &LOCK_COMMAND_2, &CONFIRMATION_COMMAND];
    assert(r@.map_values(|c: &[u8]| c@) =~= spec_lock_commands());
    r
}

/// Return the three-command unlock sequence.
pub fn unlock_commands() -> (r: [&'static [u8]; 3])
    ensures
        r@.map_values(|c: &[u8]| c@) == spec_unlock_commands(),
{
    let r: [&'static [u8]; 3] = [&UNLOCK_COMMAND_1, &UNLOCK_COMMAND_2, &CONFIRMATION_COMMAND];
    assert(r@.map_values(|c: &[u8]| c@) =~= spec_unlock_commands());
    r
}

/// Lock and unlock differ only in their first command: both sequences have
/// three commands and share the second command and the confirmation.
pub proof fn law_lock_unlock_share_tail()
    ensures
        spec_lock_commands().len() == 3,
        spec_unlock_commands().len() == 3,
        spec_lock_commands()[1] == spec_unlock_commands()[1],
        spec_lock_commands()[2] == spec_unlock_commands()[2],
        spec_lock_commands()[0] != spec_unlock_commands()[0],
{
    assert(LOCK_COMMAND_1@[4] != UNLOCK_COMMAND_1@[4]);
}

} // verus!
