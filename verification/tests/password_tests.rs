use archtry::password::{
    confirm_password_prompt, new_password_prompt, passwd_command, password_description,
    password_mismatch_message, password_set_message, HiddenOutcome, PasswordFlow, PasswordPhase,
};

#[test]
fn root_uses_the_bare_passwd_command() {
    assert_eq!(passwd_command("root").as_str(), "passwd");
}

#[test]
fn other_users_get_their_name_appended() {
    assert_eq!(passwd_command("alice").as_str(), "passwd alice");
}

#[test]
fn description_names_command_and_user() {
    assert_eq!(
        password_description("root").as_str(),
        "Run 'passwd' to set the password for 'root':"
    );
    assert_eq!(
        password_description("alice").as_str(),
        "Run 'passwd alice' to set the password for 'alice':"
    );
}

#[test]
fn matching_pair_finishes_the_flow() {
    let mut flow = PasswordFlow::new("root");
    assert_eq!(flow.phase, PasswordPhase::AwaitCommand);
    assert!(flow.on_command_line("passwd"));
    assert_eq!(flow.phase, PasswordPhase::AwaitNew);
    assert_eq!(flow.on_hidden_entry("s3cret"), HiddenOutcome::Stored);
    assert_eq!(flow.phase, PasswordPhase::AwaitConfirm);
    assert_eq!(flow.on_hidden_entry("s3cret"), HiddenOutcome::Matched);
    assert_eq!(flow.phase, PasswordPhase::Done);
}

#[test]
fn mismatched_pair_returns_to_the_command_gate() {
    let mut flow = PasswordFlow::new("root");
    assert!(flow.on_command_line(" passwd "));
    assert_eq!(flow.on_hidden_entry("one"), HiddenOutcome::Stored);
    assert_eq!(flow.on_hidden_entry("two"), HiddenOutcome::Mismatched);
    // back to the command gate, never directly to the password pair
    assert_eq!(flow.phase, PasswordPhase::AwaitCommand);
    // the command must be typed again before a new pair is read
    assert!(flow.on_command_line("passwd"));
    assert_eq!(flow.on_hidden_entry("same"), HiddenOutcome::Stored);
    assert_eq!(flow.on_hidden_entry("same"), HiddenOutcome::Matched);
    assert_eq!(flow.phase, PasswordPhase::Done);
}

#[test]
fn command_gate_requires_the_exact_command() {
    let mut flow = PasswordFlow::new("root");
    assert!(!flow.on_command_line("password"));
    assert_eq!(flow.phase, PasswordPhase::AwaitCommand);
    // a line that merely contains the command is not enough
    assert!(!flow.on_command_line("run passwd now"));
    assert_eq!(flow.phase, PasswordPhase::AwaitCommand);
    assert!(!flow.on_command_line("passwd root"));
    assert_eq!(flow.phase, PasswordPhase::AwaitCommand);
}

#[test]
fn user_flow_expects_the_named_command() {
    let mut flow = PasswordFlow::new("bob");
    assert!(!flow.on_command_line("passwd"));
    assert!(flow.on_command_line("passwd bob"));
    assert_eq!(flow.phase, PasswordPhase::AwaitNew);
}

#[test]
fn password_comparison_is_exact() {
    let mut flow = PasswordFlow::new("root");
    assert!(flow.on_command_line("passwd"));
    assert_eq!(flow.on_hidden_entry("Secret"), HiddenOutcome::Stored);
    assert_eq!(flow.on_hidden_entry("secret"), HiddenOutcome::Mismatched);
    assert_eq!(flow.phase, PasswordPhase::AwaitCommand);
}

#[test]
fn empty_passwords_still_must_match() {
    let mut flow = PasswordFlow::new("root");
    assert!(flow.on_command_line("passwd"));
    assert_eq!(flow.on_hidden_entry(""), HiddenOutcome::Stored);
    assert_eq!(flow.on_hidden_entry(""), HiddenOutcome::Matched);
    assert_eq!(flow.phase, PasswordPhase::Done);
}

#[test]
fn password_prompts_and_messages_are_fixed() {
    assert_eq!(new_password_prompt().as_str(), "Enter new password:");
    assert_eq!(confirm_password_prompt().as_str(), "Confirm password:");
    assert_eq!(password_mismatch_message().as_str(), "Passwords do not match. Try again.");
    assert_eq!(password_set_message("root").as_str(), "Password set for 'root'.");
}
