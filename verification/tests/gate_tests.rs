use archtry::gate::{hint_line, invalid_command_message, retype_hint_message, str_eq, trim_input, CommandStep};
use archtry::models::PromptContext;

#[test]
fn exact_command_matches() {
    let step = CommandStep::new("Show disk layout", "lsblk");
    assert!(step.check("lsblk"));
}

#[test]
fn surrounding_whitespace_is_trimmed() {
    let step = CommandStep::new("Show disk layout", "lsblk");
    assert!(step.check(" lsblk "));
    assert!(step.check("\tlsblk\n"));
    assert!(step.check("lsblk\r\n"));
}

#[test]
fn extra_arguments_do_not_match() {
    let step = CommandStep::new("Show disk layout", "lsblk");
    assert!(!step.check("lsblk -a"));
}

#[test]
fn matching_is_case_sensitive() {
    let step = CommandStep::new("Show disk layout", "lsblk");
    assert!(!step.check("LSBLK"));
    assert!(!step.check("Lsblk"));
}

#[test]
fn internal_whitespace_must_match() {
    let step = CommandStep::new("Create partitions", "fdisk /dev/sdz");
    assert!(!step.check("fdisk  /dev/sdz"));
    assert!(step.check("  fdisk /dev/sdz  "));
}

#[test]
fn empty_and_blank_input_do_not_match() {
    let step = CommandStep::new("Show disk layout", "lsblk");
    assert!(!step.check(""));
    assert!(!step.check("   "));
}

#[test]
fn trim_input_strips_only_the_ends() {
    assert_eq!(trim_input("  ip a  ").as_str(), "ip a");
    assert_eq!(trim_input("ip a").as_str(), "ip a");
    assert_eq!(trim_input(" \t\r\n ").as_str(), "");
    assert_eq!(trim_input("").as_str(), "");
}

#[test]
fn str_eq_compares_characters() {
    assert!(str_eq("passwd", "passwd"));
    assert!(!str_eq("passwd", "passw"));
    assert!(!str_eq("passwd", "Passwd"));
    assert!(str_eq("", ""));
}

#[test]
fn hint_holds_the_command_verbatim() {
    assert_eq!(hint_line("lsblk").as_str(), "[hint] type: lsblk");
}

#[test]
fn hint_shown_if_and_only_if_enabled() {
    let step = CommandStep::new("Show disk layout", "lsblk");
    let with_hints = PromptContext { in_chroot: false, hints_enabled: true };
    let without_hints = PromptContext { in_chroot: false, hints_enabled: false };

    let shown = step.render(&with_hints);
    assert_eq!(shown.description.as_str(), "Show disk layout");
    assert_eq!(shown.hint.as_deref(), Some("[hint] type: lsblk"));
    assert!(!shown.chroot_prompt);

    let hidden = step.render(&without_hints);
    assert_eq!(hidden.description.as_str(), "Show disk layout");
    assert!(hidden.hint.is_none());
    assert!(!hidden.chroot_prompt);
}

#[test]
fn prompt_follows_the_chroot_state() {
    let step = CommandStep::new("Exit chroot environment", "exit");
    let ctx = PromptContext { in_chroot: true, hints_enabled: false };
    assert!(step.render(&ctx).chroot_prompt);
}

#[test]
fn mismatch_messages_are_fixed() {
    assert_eq!(invalid_command_message().as_str(), "Error: Invalid command. Try again.");
    assert_eq!(
        retype_hint_message().as_str(),
        "Hint: Make sure you type the command exactly as shown."
    );
}
