//! The progress simulation for long-running install steps: a fixed number
//! of discrete ticks with a status message and a closing message. Purely
//! cosmetic; it never affects control flow.

use vstd::prelude::*;
use crate::models::DesktopEnvironment;

verus! {

/// What a long-running step shows while it "runs": `total_ticks` position
/// updates under `message`, then `done_message`.
pub struct ProgressPlan {
    pub total_ticks: usize,
    pub message: String,
    pub done_message: String,
}

/// The progress shown while the base system installs.
pub fn base_install_progress() -> (r: ProgressPlan)
    ensures
        r.total_ticks == 10,
        r.message@ == "Installing base system and GRUB..."@,
        r.done_message@ == "Base system and GRUB installed successfully."@,
{
    ProgressPlan {
        total_ticks: 10,
        message: String::from_str("Installing base system and GRUB..."),
        done_message: String::from_str("Base system and GRUB installed successfully."),
    }
}

/// The status message shown while a desktop environment installs.
pub open spec fn desktop_progress_message_spec(desktop: DesktopEnvironment) -> Seq<char> {
    "Installing "@ + desktop.label_spec() + "..."@
}

/// The closing message once a desktop environment installed.
pub open spec fn desktop_done_message_spec(desktop: DesktopEnvironment) -> Seq<char> {
    desktop.label_spec() + " installed successfully."@
}

/// The progress shown while the chosen desktop environment installs.
pub fn desktop_install_progress(desktop: DesktopEnvironment) -> (r: ProgressPlan)
    ensures
        r.total_ticks == 7,
        r.message@ == desktop_progress_message_spec(desktop),
        r.done_message@ == desktop_done_message_spec(desktop),
{
    let label = desktop.label();
    let mut message = String::from_str("Installing ");
    message.append(label.as_str());
    message.append("...");
    let mut done_message = label;
    done_message.append(" installed successfully.");
    ProgressPlan { total_ticks: 7, message, done_message }
}

/// The positions a progress bar steps through: one update per tick, in
/// order, starting at zero.
pub fn tick_positions(total_ticks: usize) -> (r: Vec<u64>)
    ensures
        r@.len() == total_ticks,
        forall|i: int| 0 <= i < total_ticks ==> r@[i] == i as u64,
{
    let mut r: Vec<u64> = Vec::new();
    let mut i: usize = 0;
    while i < total_ticks
        invariant
            i <= total_ticks,
            r@.len() == i,
            forall|j: int| 0 <= j < i ==> r@[j] == j as u64,
        decreases total_ticks - i,
    {
        r.push(i as u64);
        i = i + 1;
    }
    r
}

} // verus!
