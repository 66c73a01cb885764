//! What an administrator may do with quarantined state, on the host that holds it.

use crate::paths::StorePath;
use vstd::prelude::*;

verus! {

/// Why a recovery command is refused.
#[derive(Clone, Copy, Debug, PartialEq, Eq, Structural)]
pub enum RecoveryRefusal {
    RelativeStore,
    NotRoot,
    Unconfirmed,
}

impl RecoveryRefusal {
    pub open spec fn shown(self) -> Seq<char> {
        match self {
            RecoveryRefusal::RelativeStore => "--store must be an absolute path"@,
            RecoveryRefusal::NotRoot => {
                "aenv-paused-recovery must be run by a host administrator (effective UID 0)"@
            },
            RecoveryRefusal::Unconfirmed => "refusing destructive purge without --yes"@,
        }
    }

    pub fn message(self) -> (message: &'static str)
        ensures
            message@ == self.shown(),
    {
        match self {
            RecoveryRefusal::RelativeStore => "--store must be an absolute path",
            RecoveryRefusal::NotRoot => {
                "aenv-paused-recovery must be run by a host administrator (effective UID 0)"
            },
            RecoveryRefusal::Unconfirmed => "refusing destructive purge without --yes",
        }
    }
}

/// What a recovery command does.
#[derive(Clone, Copy, Debug, PartialEq, Eq, Structural)]
pub enum RecoveryCommand {
    List,
    Reconcile,
    /// Remove something for good, which has to be confirmed.
    Purge { confirmed: bool },
}

/// Whether a recovery command may be carried out.
pub fn permit_recovery(store: &StorePath, is_root: bool, command: RecoveryCommand) -> (outcome: Result<
    (),
    RecoveryRefusal,
>)
    ensures
        outcome == if !StorePath::is_absolute_parts(store@) {
            Err(RecoveryRefusal::RelativeStore)
        } else if !is_root {
            Err(RecoveryRefusal::NotRoot)
        } else if command == (RecoveryCommand::Purge { confirmed: false }) {
            Err(RecoveryRefusal::Unconfirmed)
        } else {
            Ok::<(), RecoveryRefusal>(())
        },
{
    if !store.is_absolute() {
        return Err(RecoveryRefusal::RelativeStore);
    }
    if !is_root {
        return Err(RecoveryRefusal::NotRoot);
    }
    match command {
        RecoveryCommand::Purge { confirmed } => if confirmed {
            Ok(())
        } else {
            Err(RecoveryRefusal::Unconfirmed)
        },
        _ => Ok(()),
    }
}

/// Different refusals of a recovery command have different messages.
pub proof fn recovery_refusals_are_told_apart(left: RecoveryRefusal, right: RecoveryRefusal)
    ensures
        left.shown() == right.shown() ==> left == right,
{
    reveal_strlit("--store must be an absolute path");
    reveal_strlit("aenv-paused-recovery must be run by a host administrator (effective UID 0)");
    reveal_strlit("refusing destructive purge without --yes");
    assert("--store must be an absolute path"@.len() == 32);
    assert("aenv-paused-recovery must be run by a host administrator (effective UID 0)"@.len() == 74);
    assert("refusing destructive purge without --yes"@.len() == 40);
}

} // verus!
