//! Starting with Windows: the argument that marks a start by Windows, the
//! command registered for it, and whether that registration is in effect.
use vstd::prelude::*;
use crate::text::{same_text, concat_text};

verus! {

/// The argument Windows passes when it starts the overlay at sign-in.
pub const AUTOSTART_ARGUMENT: &'static str = "--autostart";

/// The Task Manager approval value written when starting with Windows is
/// turned on.
pub const STARTUP_APPROVED_ENABLED: [u8; 12] = [0x02, 0, 0, 0, 0, 0, 0, 0, 0, 0, 0, 0];

/// Whether one of the command-line arguments is `AUTOSTART_ARGUMENT`.
pub fn launched_by_autostart(args: &Vec<String>) -> (r: bool)
    ensures
        r == exists|i: int| 0 <= i < args.len() && #[trigger] args@[i]@ == AUTOSTART_ARGUMENT@,
{
    let mut i: usize = 0;
    while i < args.len()
        invariant
            i <= args.len(),
            forall|k: int| 0 <= k < i ==> #[trigger] args@[k]@ != AUTOSTART_ARGUMENT@,
        decreases args.len() - i,
    {
        if same_text(args[i].as_str(), AUTOSTART_ARGUMENT) {
            return true;
        }
        i = i + 1;
    }
    false
}

/// The command registered to start the overlay with Windows: the quoted
/// executable path followed by `AUTOSTART_ARGUMENT`.
pub open spec fn startup_command_spec(executable: Seq<char>) -> Seq<char> {
    "\""@ + executable + "\" "@ + AUTOSTART_ARGUMENT@
}

pub fn windows_startup_command(executable: &str) -> (r: String)
    ensures
        r@ == startup_command_spec(executable@),
{
    let mut r = concat_text("\"", executable);
    r.append("\" ");
    r.append(AUTOSTART_ARGUMENT);
    r
}

/// Starting with Windows is in effect when the registered command is the
/// expected one and Task Manager has not disabled it: its approval value,
/// when present and at least 8 bytes long, must end in 8 zero bytes.
pub open spec fn startup_enabled_spec(
    registered: Option<Seq<char>>,
    expected: Seq<char>,
    approval: Option<Seq<u8>>,
) -> bool {
    registered == Some(expected) && match approval {
        None => true,
        Some(b) => b.len() < 8 || forall|k: int| b.len() - 8 <= k < b.len() ==> #[trigger] b[k]
            == 0,
    }
}

pub fn windows_startup_enabled(registered: Option<&str>, expected: &str, approval: Option<&[u8]>) -> (r:
    bool)
    ensures
        r == startup_enabled_spec(
            match registered {
                Some(s) => Some(s@),
                None => None,
            },
            expected@,
            match approval {
                Some(b) => Some(b@),
                None => None,
            },
        ),
{
    let registered_matches = match registered {
        Some(command) => same_text(command, expected),
        None => false,
    };
    if !registered_matches {
        return false;
    }
    match approval {
        Some(bytes) => approval_allows_startup(bytes),
        None => true,
    }
}

/// Task Manager's approval value allows the start unless it is at least 8
/// bytes long and one of its last 8 bytes is not zero.
pub fn approval_allows_startup(bytes: &[u8]) -> (r: bool)
    ensures
        r == (bytes@.len() < 8 || forall|k: int|
            bytes@.len() - 8 <= k < bytes@.len() ==> #[trigger] bytes@[k] == 0),
{
    let n = bytes.len();
    if n < 8 {
        return true;
    }
    let mut k = n - 8;
    while k < n
        invariant
            n == bytes@.len(),
            n >= 8,
            n - 8 <= k <= n,
            forall|j: int| n - 8 <= j < k ==> #[trigger] bytes@[j] == 0,
        decreases n - k,
    {
        if bytes[k] != 0 {
            assert(bytes@[k as int] != 0);
            return false;
        }
        k = k + 1;
    }
    true
}

/// The registered command starts with a quote and ends with the closing quote
/// of the executable path, a space and `AUTOSTART_ARGUMENT`.
pub proof fn startup_command_quotes_the_executable(executable: Seq<char>)
    ensures
        ({
            let command = startup_command_spec(executable);
            &&& command.len() == executable.len() + 14
            &&& command[0] == '"'
            &&& command.skip(command.len() - 13) == "\" --autostart"@
        }),
{
    reveal_strlit("\"");
    reveal_strlit("\" ");
    reveal_strlit("--autostart");
    reveal_strlit("\" --autostart");
    let command = startup_command_spec(executable);
    assert(command.skip(command.len() - 13) =~= "\" --autostart"@);
}

/// Turning starting with Windows on writes a registration that reads back as
/// enabled: the expected command, and an approval value ending in 8 zero bytes.
pub proof fn enabled_startup_reads_back_enabled(executable: Seq<char>)
    ensures
        startup_enabled_spec(
            Some(startup_command_spec(executable)),
            startup_command_spec(executable),
            Some(STARTUP_APPROVED_ENABLED@),
        ),
{
    let b = STARTUP_APPROVED_ENABLED@;
    assert(b.len() == 12);
    assert forall|k: int| b.len() - 8 <= k < b.len() implies #[trigger] b[k] == 0 by {
        assert(b[k] == STARTUP_APPROVED_ENABLED[k]);
    }
}

/// Starting with Windows is in effect only with the expected command
/// registered; with it registered and no Task Manager value, it is in effect.
pub proof fn startup_needs_the_expected_command(
    registered: Option<Seq<char>>,
    expected: Seq<char>,
    approval: Option<Seq<u8>>,
)
    ensures
        registered != Some(expected) ==> !startup_enabled_spec(registered, expected, approval),
        startup_enabled_spec(Some(expected), expected, None),
        approval matches Some(b) && b.len() >= 8 && b[b.len() - 1] != 0 ==> !startup_enabled_spec(
            registered,
            expected,
            approval,
        ),
{
}

} // verus!
