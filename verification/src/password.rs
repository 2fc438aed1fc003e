//! The password-confirmation flow: the user must type the password-change
//! command exactly, then enter the new password twice as hidden input. A
//! mismatched pair sends the user back to the command gate, never directly
//! back to the password pair.

use vstd::prelude::*;
use crate::gate::{trim_spec, trim_input, str_eq, CommandStep};

verus! {

/// The command that sets a user's password: `passwd` for root,
/// `passwd <name>` for anyone else.
pub open spec fn passwd_command_spec(username: Seq<char>) -> Seq<char> {
    if username == "root"@ {
        "passwd"@
    } else {
        "passwd "@ + username
    }
}

pub fn passwd_command(username: &str) -> (r: String)
    ensures
        r@ == passwd_command_spec(username@),
{
    if str_eq(username, "root") {
        String::from_str("passwd")
    } else {
        let mut r = String::from_str("passwd ");
        r.append(username);
        r
    }
}

/// The description shown above the password command gate.
pub open spec fn password_description_spec(username: Seq<char>) -> Seq<char> {
    "Run '"@ + passwd_command_spec(username) + "' to set the password for '"@ + username
        + "':"@
}

pub fn password_description(username: &str) -> (r: String)
    ensures
        r@ == password_description_spec(username@),
{
    let cmd = passwd_command(username);
    let mut r = String::from_str("Run '");
    r.append(cmd.as_str());
    r.append("' to set the password for '");
    r.append(username);
    r.append("':");
    r
}

/// Where the flow stands: waiting for the command, for the first hidden
/// entry, for the confirming entry, or finished.
#[derive(Clone, Copy, Debug, PartialEq, Eq, Structural)]
pub enum PasswordPhase {
    AwaitCommand,
    AwaitNew,
    AwaitConfirm,
    Done,
}

/// What a hidden entry did to the flow.
#[derive(Clone, Copy, Debug, PartialEq, Eq, Structural)]
pub enum HiddenOutcome {
    /// A first entry was stored; the flow now waits for the confirmation.
    Stored,
    /// The confirmation equalled the stored entry; the flow is done.
    Matched,
    /// The confirmation differed; the flow restarts at the command gate.
    Mismatched,
}

/// The phase after one line typed at the command gate.
pub open spec fn phase_after_command_line(
    phase: PasswordPhase,
    expected: Seq<char>,
    line: Seq<char>,
) -> PasswordPhase {
    match phase {
        PasswordPhase::AwaitCommand => if trim_spec(line) == expected {
            PasswordPhase::AwaitNew
        } else {
            PasswordPhase::AwaitCommand
        },
        _ => phase,
    }
}

/// The phase after one hidden entry.
pub open spec fn phase_after_hidden_entry(
    phase: PasswordPhase,
    pending: Seq<char>,
    entry: Seq<char>,
) -> PasswordPhase {
    match phase {
        PasswordPhase::AwaitNew => PasswordPhase::AwaitConfirm,
        PasswordPhase::AwaitConfirm => if entry == pending {
            PasswordPhase::Done
        } else {
            PasswordPhase::AwaitCommand
        },
        _ => phase,
    }
}

/// The flow finishes only when two consecutive hidden inputs are equal
/// character for character: `Done` is reached solely from the confirm
/// phase with a confirmation equal to the stored entry; a command line
/// never finishes the flow; and a mismatched pair returns the flow to the
/// command gate, never directly to the first password entry.
pub proof fn lemma_password_terminates_only_on_match(
    phase: PasswordPhase,
    expected: Seq<char>,
    pending: Seq<char>,
    line: Seq<char>,
    entry: Seq<char>,
)
    requires
        phase != PasswordPhase::Done,
    ensures
        phase_after_hidden_entry(phase, pending, entry) == PasswordPhase::Done ==> phase
            == PasswordPhase::AwaitConfirm && entry == pending,
        phase_after_command_line(phase, expected, line) != PasswordPhase::Done,
        phase == PasswordPhase::AwaitConfirm && entry != pending ==> phase_after_hidden_entry(
            phase,
            pending,
            entry,
        ) == PasswordPhase::AwaitCommand,
{
}

/// The state of one password-confirmation flow for a given user.
pub struct PasswordFlow {
    pub username: String,
    pub expected_command: String,
    pub phase: PasswordPhase,
    pub pending: String,
}

impl PasswordFlow {
    /// The expected command always matches the user the flow is for.
    pub open spec fn wf(self) -> bool {
        self.expected_command@ == passwd_command_spec(self.username@)
    }

    pub fn new(username: &str) -> (r: Self)
        ensures
            r.wf(),
            r.username@ == username@,
            r.phase == PasswordPhase::AwaitCommand,
    {
        PasswordFlow {
            username: String::from_str(username),
            expected_command: passwd_command(username),
            phase: PasswordPhase::AwaitCommand,
            pending: String::new(),
        }
    }

    /// The command gate of this flow, rendered like any other step.
    pub fn command_step(&self) -> (r: CommandStep)
        requires
            self.wf(),
        ensures
            r.description@ == password_description_spec(self.username@),
            r.expected_command@ == self.expected_command@,
    {
        CommandStep {
            description: password_description(self.username.as_str()),
            expected_command: self.expected_command.clone(),
        }
    }

    /// One line typed at the command gate: accepted if and only if the
    /// trimmed line equals the expected command exactly.
    pub fn on_command_line(&mut self, line: &str) -> (accepted: bool)
        requires
            old(self).wf(),
            old(self).phase == PasswordPhase::AwaitCommand,
        ensures
            final(self).wf(),
            accepted == (trim_spec(line@) == old(self).expected_command@),
            final(self).phase == phase_after_command_line(
                old(self).phase,
                old(self).expected_command@,
                line@,
            ),
            final(self).username == old(self).username,
            final(self).expected_command == old(self).expected_command,
            final(self).pending == old(self).pending,
    {
        let trimmed = trim_input(line);
        let accepted = str_eq(trimmed.as_str(), self.expected_command.as_str());
        if accepted {
            self.phase = PasswordPhase::AwaitNew;
        }
        accepted
    }

    /// One hidden entry: a first entry is stored and awaits confirmation; a
    /// confirming entry finishes the flow exactly when it equals the stored
    /// one, and otherwise restarts the flow at the command gate.
    pub fn on_hidden_entry(&mut self, entry: &str) -> (outcome: HiddenOutcome)
        requires
            old(self).wf(),
            old(self).phase == PasswordPhase::AwaitNew || old(self).phase
                == PasswordPhase::AwaitConfirm,
        ensures
            final(self).wf(),
            final(self).phase == phase_after_hidden_entry(
                old(self).phase,
                old(self).pending@,
                entry@,
            ),
            final(self).username == old(self).username,
            final(self).expected_command == old(self).expected_command,
            old(self).phase == PasswordPhase::AwaitNew ==> final(self).pending@ == entry@
                && outcome == HiddenOutcome::Stored,
            old(self).phase == PasswordPhase::AwaitConfirm ==> final(self).pending == old(
                self,
            ).pending,
            old(self).phase == PasswordPhase::AwaitConfirm ==> (outcome == HiddenOutcome::Matched
                <==> entry@ == old(self).pending@),
            old(self).phase == PasswordPhase::AwaitConfirm ==> (outcome
                == HiddenOutcome::Mismatched <==> entry@ != old(self).pending@),
    {
        if matches!(self.phase, PasswordPhase::AwaitNew) {
            self.pending = String::from_str(entry);
            self.phase = PasswordPhase::AwaitConfirm;
            HiddenOutcome::Stored
        } else {
            if str_eq(entry, self.pending.as_str()) {
                self.phase = PasswordPhase::Done;
                HiddenOutcome::Matched
            } else {
                self.phase = PasswordPhase::AwaitCommand;
                HiddenOutcome::Mismatched
            }
        }
    }
}

/// The prompt for the first hidden entry.
pub fn new_password_prompt() -> (r: String)
    ensures
        r@ == "Enter new password:"@,
{
    String::from_str("Enter new password:")
}

/// The prompt for the confirming hidden entry.
pub fn confirm_password_prompt() -> (r: String)
    ensures
        r@ == "Confirm password:"@,
{
    String::from_str("Confirm password:")
}

/// The message printed when the two hidden entries differ.
pub fn password_mismatch_message() -> (r: String)
    ensures
        r@ == "Passwords do not match. Try again."@,
{
    String::from_str("Passwords do not match. Try again.")
}

/// The message printed once a password is set.
pub open spec fn password_set_message_spec(username: Seq<char>) -> Seq<char> {
    "Password set for '"@ + username + "'."@
}

pub fn password_set_message(username: &str) -> (r: String)
    ensures
        r@ == password_set_message_spec(username@),
{
    let mut r = String::from_str("Password set for '");
    r.append(username);
    r.append("'.");
    r
}

} // verus!
