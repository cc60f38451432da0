//! The protected file that the enrollment is kept in: its names, the order in which
//! it is written, and what is held against the machine's data protection.

use crate::text::{decimal, decimal_text, joined};
use vstd::prelude::*;
use vstd::string::*;

verus! {

pub const DIRECTORY_STATE_FILE: &'static str = "directory_state.dpapi";

/// The name of the temporary file of one write: the file's own name, the process
/// and a number that no other write has.
pub fn temporary_file_name(process_id: u32, nonce: u128) -> (r: String)
    ensures
        r@ == DIRECTORY_STATE_FILE@ + "."@ + decimal(process_id as nat) + "."@ + decimal(
            nonce as nat,
        ) + ".tmp"@,
{
    joined(DIRECTORY_STATE_FILE, ".").concat(decimal_text(process_id as u128).as_str()).concat(
        ".",
    ).concat(decimal_text(nonce).as_str()).concat(".tmp")
}

/// One step of writing the state.
#[derive(Debug, Clone, Copy, PartialEq, Eq, Structural)]
pub enum WriteStep {
    /// Create the temporary file, which must not exist yet.
    CreateTemporary,
    /// Give it the exact machine-secret permissions.
    RestrictTemporary,
    /// Write the protected bytes to it.
    WriteProtected,
    /// Flush it to disk.
    Flush,
    /// Replace the state file by it, in one step.
    Replace,
    /// Give the state file the exact machine-secret permissions.
    RestrictState,
}

/// What comes after a step.
#[derive(Debug, Clone, Copy, PartialEq, Eq, Structural)]
pub enum WriteAction {
    Perform(WriteStep),
    /// Remove the temporary file; the write has failed.
    Abandon,
    /// The write has succeeded.
    Finish,
}

/// The step that a write begins with.
pub const FIRST_WRITE_STEP: WriteStep = WriteStep::CreateTemporary;

/// What comes after `step`: the next one, the end, or, where it failed, the removal
/// of the temporary file.
pub open spec fn action_after(step: WriteStep, succeeded: bool) -> WriteAction {
    if !succeeded {
        WriteAction::Abandon
    } else {
        match step {
            WriteStep::CreateTemporary => WriteAction::Perform(WriteStep::RestrictTemporary),
            WriteStep::RestrictTemporary => WriteAction::Perform(WriteStep::WriteProtected),
            WriteStep::WriteProtected => WriteAction::Perform(WriteStep::Flush),
            WriteStep::Flush => WriteAction::Perform(WriteStep::Replace),
            WriteStep::Replace => WriteAction::Perform(WriteStep::RestrictState),
            WriteStep::RestrictState => WriteAction::Finish,
        }
    }
}

/// Decides what comes after a step of writing the state.
pub fn next_write_action(step: WriteStep, succeeded: bool) -> (r: WriteAction)
    ensures
        r == action_after(step, succeeded),
{
    if !succeeded {
        return WriteAction::Abandon;
    }
    match step {
        WriteStep::CreateTemporary => WriteAction::Perform(WriteStep::RestrictTemporary),
        WriteStep::RestrictTemporary => WriteAction::Perform(WriteStep::WriteProtected),
        WriteStep::WriteProtected => WriteAction::Perform(WriteStep::Flush),
        WriteStep::Flush => WriteAction::Perform(WriteStep::Replace),
        WriteStep::Replace => WriteAction::Perform(WriteStep::RestrictState),
        WriteStep::RestrictState => WriteAction::Finish,
    }
}

/// What a failed step says, given the path of the file it is about and the system's
/// own words.
pub open spec fn write_failure(step: WriteStep, path: Seq<char>, cause: Seq<char>) -> Seq<char> {
    match step {
        WriteStep::CreateTemporary => {
            "Failed to create protected directory state temporary file '"@ + path + "': "@ + cause
        },
        WriteStep::WriteProtected => {
            "Failed to write protected directory state temporary file '"@ + path + "': "@ + cause
        },
        WriteStep::Flush => {
            "Failed to flush protected directory state temporary file '"@ + path + "': "@ + cause
        },
        WriteStep::Replace => {
            "Failed to atomically replace protected directory state '"@ + path + "': "@ + cause
        },
        WriteStep::RestrictTemporary | WriteStep::RestrictState => cause,
    }
}

/// Describes the failure of a step.
pub fn write_failure_text(step: WriteStep, path: &str, cause: &str) -> (r: String)
    ensures
        r@ == write_failure(step, path@, cause@),
{
    let head = match step {
        WriteStep::CreateTemporary => {
            "Failed to create protected directory state temporary file '"
        },
        WriteStep::WriteProtected => "Failed to write protected directory state temporary file '",
        WriteStep::Flush => "Failed to flush protected directory state temporary file '",
        WriteStep::Replace => "Failed to atomically replace protected directory state '",
        WriteStep::RestrictTemporary | WriteStep::RestrictState => {
            return cause.to_owned();
        },
    };
    joined(head, path).concat("': ").concat(cause)
}

/// The step at `i` is the one that comes after the success of the one before it.
pub open spec fn follows(steps: Seq<WriteStep>, i: int) -> bool {
    action_after(steps[i - 1], true) == WriteAction::Perform(steps[i])
}

/// A run of a write: the steps in the order in which they were performed, each but
/// the last one having succeeded.
pub open spec fn write_run(steps: Seq<WriteStep>) -> bool {
    &&& steps.len() > 0 ==> steps[0] == FIRST_WRITE_STEP
    &&& forall|i: int| 0 < i < steps.len() ==> #[trigger] follows(steps, i)
}

/// In every run the permissions of the temporary file come before any protected byte
/// is written to it, the bytes are flushed before the state file is replaced, and
/// nothing happens twice. A write ends well only after the state file's own
/// permissions were set, which all the other steps come before.
pub proof fn law_write_order(steps: Seq<WriteStep>, i: int)
    requires
        write_run(steps),
        0 <= i < steps.len(),
    ensures
        steps.len() <= 6,
        steps[i] == WriteStep::WriteProtected <==> i == 2,
        steps[i] == WriteStep::WriteProtected ==> steps[i - 1] == WriteStep::RestrictTemporary,
        steps[i] == WriteStep::Replace ==> i == 4 && steps[i - 1] == WriteStep::Flush && steps[i
            - 2] == WriteStep::WriteProtected,
        action_after(steps[i], true) == WriteAction::Finish <==> i == 5,
{
    if steps.len() > 1 {
        assert(follows(steps, 1));
        assert(steps[1] == WriteStep::RestrictTemporary);
    }
    if steps.len() > 2 {
        assert(follows(steps, 2));
        assert(steps[2] == WriteStep::WriteProtected);
    }
    if steps.len() > 3 {
        assert(follows(steps, 3));
        assert(steps[3] == WriteStep::Flush);
    }
    if steps.len() > 4 {
        assert(follows(steps, 4));
        assert(steps[4] == WriteStep::Replace);
    }
    if steps.len() > 5 {
        assert(follows(steps, 5));
        assert(steps[5] == WriteStep::RestrictState);
    }
    if steps.len() > 6 {
        assert(follows(steps, 6));
    }
}

/// A step that fails, whichever it is, has the temporary file removed.
pub proof fn law_failed_write_leaves_no_temporary_file(step: WriteStep)
    ensures
        action_after(step, false) == WriteAction::Abandon,
{
}

/// Which way data goes through the machine's data protection.
#[derive(Debug, Clone, Copy, PartialEq, Eq, Structural)]
pub enum Protection {
    Protect,
    Unprotect,
}

/// Why data is not handed to the machine's data protection, or what it returned is
/// not taken.
#[derive(Debug, Clone, Copy, PartialEq, Eq, Structural)]
pub enum ProtectionError {
    EmptyInput(Protection),
    InputTooLarge,
    NoOutput(Protection),
}

impl ProtectionError {
    pub open spec fn words(self) -> Seq<char> {
        match self {
            ProtectionError::EmptyInput(Protection::Protect) => {
                "DPAPI cannot protect an empty value"@
            },
            ProtectionError::EmptyInput(Protection::Unprotect) => {
                "DPAPI cannot unprotect an empty value"@
            },
            ProtectionError::InputTooLarge => "DPAPI input is too large"@,
            ProtectionError::NoOutput(Protection::Protect) => {
                "CryptProtectData returned no protected data"@
            },
            ProtectionError::NoOutput(Protection::Unprotect) => {
                "CryptUnprotectData returned no plaintext data"@
            },
        }
    }

    /// Describes the error in one line.
    pub fn text(&self) -> (r: &'static str)
        ensures
            r@ == self.words(),
    {
        match self {
            ProtectionError::EmptyInput(Protection::Protect) => {
                "DPAPI cannot protect an empty value"
            },
            ProtectionError::EmptyInput(Protection::Unprotect) => {
                "DPAPI cannot unprotect an empty value"
            },
            ProtectionError::InputTooLarge => "DPAPI input is too large",
            ProtectionError::NoOutput(Protection::Protect) => {
                "CryptProtectData returned no protected data"
            },
            ProtectionError::NoOutput(Protection::Unprotect) => {
                "CryptUnprotectData returned no plaintext data"
            },
        }
    }
}

/// The length under which data is handed to the machine's data protection: it must
/// not be empty, and its length must fit into thirty-two bits.
pub fn input_blob_length(protection: Protection, data: &[u8]) -> (r: Result<u32, ProtectionError>)
    ensures
        r == (if data@.len() == 0 {
            Err(ProtectionError::EmptyInput(protection))
        } else if data@.len() > u32::MAX {
            Err(ProtectionError::InputTooLarge)
        } else {
            Ok(data@.len() as u32)
        }),
{
    if data.len() == 0 {
        return Err(ProtectionError::EmptyInput(protection));
    }
    if data.len() as u64 > 0xffff_ffff {
        return Err(ProtectionError::InputTooLarge);
    }
    Ok(data.len() as u32)
}

/// Takes what the machine's data protection returned only where there is something.
pub fn require_blob_output(protection: Protection, has_data: bool, length: u32) -> (r: Result<
    (),
    ProtectionError,
>)
    ensures
        r == (if has_data && length > 0 {
            Ok::<(), ProtectionError>(())
        } else {
            Err(ProtectionError::NoOutput(protection))
        }),
{
    if !has_data || length == 0 {
        return Err(ProtectionError::NoOutput(protection));
    }
    Ok(())
}

/// The temporary file of a write has the name of the state file, the process and the number of
/// the write.
pub proof fn law_temporary_files_are_told_apart(process_id: u32, nonce: u128, r: String)
    requires
        call_ensures(temporary_file_name, (process_id, nonce), r),
    ensures
        r@ == "directory_state.dpapi"@ + "."@ + decimal(process_id as nat) + "."@ + decimal(
            nonce as nat,
        ) + ".tmp"@,
{
}

/// A step that succeeded is followed by the next one in the order of writing, and one that
/// failed, whichever it is, by the removal of the temporary file.
pub proof fn law_steps_follow_one_another(step: WriteStep, succeeded: bool, r: WriteAction)
    requires
        call_ensures(next_write_action, (step, succeeded), r),
    ensures
        !succeeded <==> r == WriteAction::Abandon,
        succeeded && step == WriteStep::CreateTemporary <==> r == WriteAction::Perform(
            WriteStep::RestrictTemporary,
        ),
        succeeded && step == WriteStep::RestrictTemporary <==> r == WriteAction::Perform(
            WriteStep::WriteProtected,
        ),
        succeeded && step == WriteStep::WriteProtected <==> r == WriteAction::Perform(
            WriteStep::Flush,
        ),
        succeeded && step == WriteStep::Flush <==> r == WriteAction::Perform(WriteStep::Replace),
        succeeded && step == WriteStep::Replace <==> r == WriteAction::Perform(
            WriteStep::RestrictState,
        ),
        succeeded && step == WriteStep::RestrictState <==> r == WriteAction::Finish,
        FIRST_WRITE_STEP == WriteStep::CreateTemporary,
{
}

/// What a failed step says names what failed, the file and the cause.
pub proof fn law_failed_step_names_file_and_cause(
    step: WriteStep,
    path: &str,
    cause: &str,
    r: String,
)
    requires
        call_ensures(write_failure_text, (step, path, cause), r),
    ensures
        step == WriteStep::CreateTemporary ==> r@
            == "Failed to create protected directory state temporary file '"@ + path@ + "': "@
            + cause@,
        step == WriteStep::WriteProtected ==> r@
            == "Failed to write protected directory state temporary file '"@ + path@ + "': "@
            + cause@,
        step == WriteStep::Flush ==> r@
            == "Failed to flush protected directory state temporary file '"@ + path@ + "': "@
            + cause@,
        step == WriteStep::Replace ==> r@
            == "Failed to atomically replace protected directory state '"@ + path@ + "': "@
            + cause@,
        step == WriteStep::RestrictTemporary || step == WriteStep::RestrictState ==> r@ == cause@,
{
}

/// Data goes to the machine's data protection under its own length, where it has one that is
/// neither zero nor beyond thirty-two bits, and comes back only where there is something.
pub proof fn law_protection_takes_and_gives_something(
    protection: Protection,
    data: &[u8],
    sent: Result<u32, ProtectionError>,
    has_data: bool,
    length: u32,
    got: Result<(), ProtectionError>,
)
    requires
        call_ensures(input_blob_length, (protection, data), sent),
        call_ensures(require_blob_output, (protection, has_data, length), got),
    ensures
        sent is Ok <==> 1 <= data@.len() <= 0xffff_ffff,
        sent matches Ok(n) ==> n == data@.len(),
        data@.len() == 0 <==> sent == Err::<u32, ProtectionError>(
            ProtectionError::EmptyInput(protection),
        ),
        data@.len() > 0xffff_ffff <==> sent == Err::<u32, ProtectionError>(
            ProtectionError::InputTooLarge,
        ),
        got is Ok <==> has_data && length > 0,
        got is Err ==> got == Err::<(), ProtectionError>(ProtectionError::NoOutput(protection)),
{
}

/// Each reason for which data protection is not used is told in its own words.
pub proof fn law_protection_errors_are_told_in_their_own_words(
    error: ProtectionError,
    r: &'static str,
)
    requires
        call_ensures(ProtectionError::text, (&error,), r),
    ensures
        error == ProtectionError::EmptyInput(Protection::Protect) ==> r@
            == "DPAPI cannot protect an empty value"@,
        error == ProtectionError::EmptyInput(Protection::Unprotect) ==> r@
            == "DPAPI cannot unprotect an empty value"@,
        error is InputTooLarge ==> r@ == "DPAPI input is too large"@,
        error == ProtectionError::NoOutput(Protection::Protect) ==> r@
            == "CryptProtectData returned no protected data"@,
        error == ProtectionError::NoOutput(Protection::Unprotect) ==> r@
            == "CryptUnprotectData returned no plaintext data"@,
{
}

} // verus!
