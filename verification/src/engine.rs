//! The step engine: the fixed, total order of installation phases, the
//! branching on the user's choices, and the one mutable prompt context
//! threaded through every step. The engine is a state machine; the caller
//! performs the terminal work a request asks for and feeds the resulting
//! event back in.

use vstd::prelude::*;
use crate::models::{DesktopEnvironment, DeviceType, PromptContext, UserChoices};
use crate::gate::{
    trim_input, trim_spec, str_eq, hint_line_spec, invalid_command_message, retype_hint_message,
    CommandStep, StepDisplay,
};
use crate::password::{
    confirm_password_prompt, new_password_prompt, passwd_command_spec, password_description_spec,
    password_mismatch_message, password_set_message, password_set_message_spec, HiddenOutcome,
    PasswordFlow, PasswordPhase,
};
use crate::steps::{
    command_text, command_text_spec, description_spec, description_text, output_text,
    output_text_spec, CommandId,
};
use crate::progress::{
    base_install_progress, desktop_done_message_spec, desktop_install_progress,
    desktop_progress_message_spec, ProgressPlan,
};

verus! {

/// A piece of fixed narration printed between interactive steps: phase
/// headers, warnings, success notes, and the LAN notice.
#[derive(Clone, Copy, Debug, PartialEq, Eq, Structural)]
pub enum NoteId {
    StartingHeader,
    WelcomeHeader,
    SettingsSummary,
    LanNotice,
    WifiHeader,
    WifiWarning,
    PartitionHeader,
    PartitionWarning,
    PartitionDone,
    MountHeader,
    MountWarning,
    MountDone,
    BaseHeader,
    BaseWarning,
    BaseDone,
    FinalHeader,
    Complete,
}

/// Whose password a password item sets.
#[derive(Clone, Copy, Debug, PartialEq, Eq, Structural)]
pub enum PasswordTarget {
    Root,
    NewUser,
}

/// One entry of the engine's plan.
#[derive(Clone, Copy, Debug, PartialEq, Eq, Structural)]
pub enum PlanItem {
    Note(NoteId),
    Command(CommandId),
    SetPassword(PasswordTarget),
    AskUsername,
    ChooseDesktop,
}

/// The text a note prints; the settings summary echoes the user's choices.
pub open spec fn note_text_spec(id: NoteId, c: UserChoices) -> Seq<char> {
    match id {
        NoteId::StartingHeader => "Starting Arch Linux Installation Simulator..."@,
        NoteId::WelcomeHeader => "Welcome to Arch Linux!"@,
        NoteId::SettingsSummary => "Setting up system based on your choices:\n- Disk Size: 50GB (Fixed)\n- GPU Type: "@
            + c.gpu_type.label_spec() + "\n- Device Type: "@ + c.device_type.label_spec(),
        NoteId::LanNotice => "Connected via LAN."@,
        NoteId::WifiHeader => "Setting up Wi-Fi for laptop..."@,
        NoteId::WifiWarning => "Note: You need to manually connect to Wi-Fi."@,
        NoteId::PartitionHeader => "Partitioning disk..."@,
        NoteId::PartitionWarning => "Note: You need to manually partition the disk."@,
        NoteId::PartitionDone => "Disk partitioned and formatted."@,
        NoteId::MountHeader => "Mounting partitions..."@,
        NoteId::MountWarning => "Note: You need to manually mount the partitions."@,
        NoteId::MountDone => "Partitions mounted."@,
        NoteId::BaseHeader => "Installing base system..."@,
        NoteId::BaseWarning => "Note: You need to manually install the base system."@,
        NoteId::BaseDone => "Base system and GRUB installed."@,
        NoteId::FinalHeader => "Finishing installation..."@,
        NoteId::Complete => "Installation complete! You learned 40-60% of how to install Arch Linux manually!\nThis is a fake simulation. For a complete guide, visit:\nhttps://wiki.archlinux.org/title/Installation_guide"@,
    }
}

pub fn note_text(id: NoteId, c: &UserChoices) -> (r: String)
    ensures
        r@ == note_text_spec(id, *c),
{
    match id {
        NoteId::StartingHeader => String::from_str("Starting Arch Linux Installation Simulator..."),
        NoteId::WelcomeHeader => String::from_str("Welcome to Arch Linux!"),
        NoteId::SettingsSummary => {
            let mut r = String::from_str(
                "Setting up system based on your choices:\n- Disk Size: 50GB (Fixed)\n- GPU Type: ",
            );
            let gpu = c.gpu_type.label();
            r.append(gpu.as_str());
            r.append("\n- Device Type: ");
            let device = c.device_type.label();
            r.append(device.as_str());
            r
        },
        NoteId::LanNotice => String::from_str("Connected via LAN."),
        NoteId::WifiHeader => String::from_str("Setting up Wi-Fi for laptop..."),
        NoteId::WifiWarning => String::from_str("Note: You need to manually connect to Wi-Fi."),
        NoteId::PartitionHeader => String::from_str("Partitioning disk..."),
        NoteId::PartitionWarning => String::from_str(
            "Note: You need to manually partition the disk.",
        ),
        NoteId::PartitionDone => String::from_str("Disk partitioned and formatted."),
        NoteId::MountHeader => String::from_str("Mounting partitions..."),
        NoteId::MountWarning => String::from_str("Note: You need to manually mount the partitions."),
        NoteId::MountDone => String::from_str("Partitions mounted."),
        NoteId::BaseHeader => String::from_str("Installing base system..."),
        NoteId::BaseWarning => String::from_str(
            "Note: You need to manually install the base system.",
        ),
        NoteId::BaseDone => String::from_str("Base system and GRUB installed."),
        NoteId::FinalHeader => String::from_str("Finishing installation..."),
        NoteId::Complete => String::from_str(
            "Installation complete! You learned 40-60% of how to install Arch Linux manually!\nThis is a fake simulation. For a complete guide, visit:\nhttps://wiki.archlinux.org/title/Installation_guide",
        ),
    }
}

/// The opening narration, common to every run.
pub open spec fn intro_items_spec() -> Seq<PlanItem> {
    seq![
        PlanItem::Note(NoteId::StartingHeader),
        PlanItem::Note(NoteId::WelcomeHeader),
        PlanItem::Note(NoteId::SettingsSummary),
    ]
}

/// The connectivity phase: three Wi-Fi steps for a laptop, one LAN notice
/// for a PC.
pub open spec fn connectivity_items_spec(device: DeviceType) -> Seq<PlanItem> {
    if device == DeviceType::Pc {
        seq![PlanItem::Note(NoteId::LanNotice)]
    } else {
        seq![
            PlanItem::Note(NoteId::WifiHeader),
            PlanItem::Note(NoteId::WifiWarning),
            PlanItem::Command(CommandId::ShowInterfaces),
            PlanItem::Command(CommandId::ScanNetworks),
            PlanItem::Command(CommandId::ConnectWifi),
        ]
    }
}

/// Everything from partitioning to the final reboot, common to every run.
pub open spec fn install_items_spec() -> Seq<PlanItem> {
    seq![
        PlanItem::Note(NoteId::PartitionHeader),
        PlanItem::Note(NoteId::PartitionWarning),
        PlanItem::Command(CommandId::ShowDisks),
        PlanItem::Command(CommandId::CreatePartitions),
        PlanItem::Command(CommandId::FormatEfi),
        PlanItem::Command(CommandId::FormatRoot),
        PlanItem::Note(NoteId::PartitionDone),
        PlanItem::Note(NoteId::MountHeader),
        PlanItem::Note(NoteId::MountWarning),
        PlanItem::Command(CommandId::MountRoot),
        PlanItem::Command(CommandId::MountEfi),
        PlanItem::Note(NoteId::MountDone),
        PlanItem::Note(NoteId::BaseHeader),
        PlanItem::Note(NoteId::BaseWarning),
        PlanItem::Command(CommandId::InstallBase),
        PlanItem::Note(NoteId::BaseDone),
        PlanItem::Note(NoteId::FinalHeader),
        PlanItem::Command(CommandId::GenerateFstab),
        PlanItem::Command(CommandId::EnterChroot),
        PlanItem::SetPassword(PasswordTarget::Root),
        PlanItem::AskUsername,
        PlanItem::Command(CommandId::CreateUser),
        PlanItem::SetPassword(PasswordTarget::NewUser),
        PlanItem::ChooseDesktop,
        PlanItem::Command(CommandId::InstallDesktop),
        PlanItem::Command(CommandId::InstallGrub),
        PlanItem::Command(CommandId::ConfigureGrub),
        PlanItem::Command(CommandId::ExitChroot),
        PlanItem::Command(CommandId::UnmountAll),
        PlanItem::Command(CommandId::Reboot),
        PlanItem::Note(NoteId::Complete),
    ]
}

/// The full, fixed plan for a run: intro, connectivity by device type,
/// then the common install sequence.
pub open spec fn plan_spec(c: UserChoices) -> Seq<PlanItem> {
    intro_items_spec() + connectivity_items_spec(c.device_type) + install_items_spec()
}

/// How many items precede the partitioning phase.
pub open spec fn prefix_len_spec(c: UserChoices) -> int {
    if c.device_type == DeviceType::Pc {
        4
    } else {
        8
    }
}

/// The index of the partitioning phase header.
pub open spec fn partition_start_spec(c: UserChoices) -> int {
    prefix_len_spec(c)
}

/// The index of the step that enters the chroot.
pub open spec fn chroot_enter_spec(c: UserChoices) -> int {
    prefix_len_spec(c) + 18
}

/// The index of the step that exits the chroot.
pub open spec fn chroot_exit_spec(c: UserChoices) -> int {
    prefix_len_spec(c) + 27
}

/// The index of the desktop-environment selection.
pub open spec fn choose_desktop_index_spec(c: UserChoices) -> int {
    prefix_len_spec(c) + 23
}

/// The prompt context shows the chroot prompt exactly for the items after
/// the chroot entry, up to and including the chroot exit.
pub open spec fn in_chroot_spec(c: UserChoices, pos: int) -> bool {
    chroot_enter_spec(c) < pos <= chroot_exit_spec(c)
}

/// Whether an item belongs to the simulated chroot session.
pub open spec fn item_in_chroot(item: PlanItem) -> bool {
    match item {
        PlanItem::Note(_) => false,
        PlanItem::Command(id) => id == CommandId::CreateUser || id == CommandId::InstallDesktop
            || id == CommandId::InstallGrub || id == CommandId::ConfigureGrub || id
            == CommandId::ExitChroot,
        PlanItem::SetPassword(_) => true,
        PlanItem::AskUsername => true,
        PlanItem::ChooseDesktop => true,
    }
}

/// The landmarks of the plan: its length, and the items standing at the
/// chroot boundaries and at the desktop selection.
pub proof fn lemma_plan_layout(c: UserChoices)
    ensures
        plan_spec(c).len() == prefix_len_spec(c) + 31,
        plan_spec(c)[partition_start_spec(c)] == PlanItem::Note(NoteId::PartitionHeader),
        plan_spec(c)[chroot_enter_spec(c)] == PlanItem::Command(CommandId::EnterChroot),
        plan_spec(c)[chroot_exit_spec(c)] == PlanItem::Command(CommandId::ExitChroot),
        plan_spec(c)[choose_desktop_index_spec(c)] == PlanItem::ChooseDesktop,
{
}

/// The chroot-window invariant: an item belongs to the chroot session if
/// and only if it stands strictly after the chroot entry and no later than
/// the chroot exit.
pub proof fn lemma_chroot_window(c: UserChoices)
    ensures
        forall|i: int|
            0 <= i < plan_spec(c).len() ==> (item_in_chroot(#[trigger] plan_spec(c)[i])
                <==> chroot_enter_spec(c) < i <= chroot_exit_spec(c)),
{
}

/// The connectivity branch: a laptop gets the three Wi-Fi steps, in order,
/// before the partitioning phase, and no LAN notice; a PC gets no Wi-Fi
/// step and exactly one LAN notice, before the partitioning phase.
pub proof fn lemma_connectivity_phase(c: UserChoices)
    ensures
        c.device_type == DeviceType::Laptop ==> plan_spec(c)[5] == PlanItem::Command(
            CommandId::ShowInterfaces,
        ) && plan_spec(c)[6] == PlanItem::Command(CommandId::ScanNetworks) && plan_spec(c)[7]
            == PlanItem::Command(CommandId::ConnectWifi) && partition_start_spec(c) == 8,
        c.device_type == DeviceType::Laptop ==> forall|i: int|
            0 <= i < plan_spec(c).len() ==> #[trigger] plan_spec(c)[i] != PlanItem::Note(
                NoteId::LanNotice,
            ),
        c.device_type == DeviceType::Pc ==> plan_spec(c)[3] == PlanItem::Note(NoteId::LanNotice)
            && partition_start_spec(c) == 4,
        c.device_type == DeviceType::Pc ==> forall|i: int|
            0 <= i < plan_spec(c).len() && i != 3 ==> #[trigger] plan_spec(c)[i] != PlanItem::Note(
                NoteId::LanNotice,
            ),
        c.device_type == DeviceType::Pc ==> forall|i: int|
            0 <= i < plan_spec(c).len() ==> #[trigger] plan_spec(c)[i] != PlanItem::Command(
                CommandId::ShowInterfaces,
            ) && plan_spec(c)[i] != PlanItem::Command(CommandId::ScanNetworks) && plan_spec(c)[i]
                != PlanItem::Command(CommandId::ConnectWifi),
{
}

/// Builds the plan a run follows.
pub fn build_plan(c: &UserChoices) -> (r: Vec<PlanItem>)
    ensures
        r@ == plan_spec(*c),
{
    let mut r: Vec<PlanItem> = Vec::new();
    r.push(PlanItem::Note(NoteId::StartingHeader));
    r.push(PlanItem::Note(NoteId::WelcomeHeader));
    r.push(PlanItem::Note(NoteId::SettingsSummary));
    if c.device_type == DeviceType::Pc {
        r.push(PlanItem::Note(NoteId::LanNotice));
    } else {
        r.push(PlanItem::Note(NoteId::WifiHeader));
        r.push(PlanItem::Note(NoteId::WifiWarning));
        r.push(PlanItem::Command(CommandId::ShowInterfaces));
        r.push(PlanItem::Command(CommandId::ScanNetworks));
        r.push(PlanItem::Command(CommandId::ConnectWifi));
    }
    r.push(PlanItem::Note(NoteId::PartitionHeader));
    r.push(PlanItem::Note(NoteId::PartitionWarning));
    r.push(PlanItem::Command(CommandId::ShowDisks));
    r.push(PlanItem::Command(CommandId::CreatePartitions));
    r.push(PlanItem::Command(CommandId::FormatEfi));
    r.push(PlanItem::Command(CommandId::FormatRoot));
    r.push(PlanItem::Note(NoteId::PartitionDone));
    r.push(PlanItem::Note(NoteId::MountHeader));
    r.push(PlanItem::Note(NoteId::MountWarning));
    r.push(PlanItem::Command(CommandId::MountRoot));
    r.push(PlanItem::Command(CommandId::MountEfi));
    r.push(PlanItem::Note(NoteId::MountDone));
    r.push(PlanItem::Note(NoteId::BaseHeader));
    r.push(PlanItem::Note(NoteId::BaseWarning));
    r.push(PlanItem::Command(CommandId::InstallBase));
    r.push(PlanItem::Note(NoteId::BaseDone));
    r.push(PlanItem::Note(NoteId::FinalHeader));
    r.push(PlanItem::Command(CommandId::GenerateFstab));
    r.push(PlanItem::Command(CommandId::EnterChroot));
    r.push(PlanItem::SetPassword(PasswordTarget::Root));
    r.push(PlanItem::AskUsername);
    r.push(PlanItem::Command(CommandId::CreateUser));
    r.push(PlanItem::SetPassword(PasswordTarget::NewUser));
    r.push(PlanItem::ChooseDesktop);
    r.push(PlanItem::Command(CommandId::InstallDesktop));
    r.push(PlanItem::Command(CommandId::InstallGrub));
    r.push(PlanItem::Command(CommandId::ConfigureGrub));
    r.push(PlanItem::Command(CommandId::ExitChroot));
    r.push(PlanItem::Command(CommandId::UnmountAll));
    r.push(PlanItem::Command(CommandId::Reboot));
    r.push(PlanItem::Note(NoteId::Complete));
    proof {
        assert(r@ =~= plan_spec(*c));
    }
    r
}

/// The name a password item sets the password for.
pub open spec fn password_target_name_spec(t: PasswordTarget, username: Seq<char>) -> Seq<char> {
    match t {
        PasswordTarget::Root => "root"@,
        PasswordTarget::NewUser => username,
    }
}

/// What the engine hands back to the event that drove it.
#[derive(Clone, Copy, Debug, PartialEq, Eq, Structural)]
pub enum StepOutcome {
    /// The event was what the current item needed; the run moved on.
    Accepted,
    /// The typed line did not match the expected command; same step again.
    Rejected,
    /// A first hidden password entry was stored.
    PasswordStored,
    /// The two hidden entries differed; back to the command gate.
    PasswordMismatch,
    /// The two hidden entries matched; the password is set.
    PasswordSet,
    /// The run is already complete.
    Finished,
    /// The event does not fit the current item at all; callers treat this
    /// as an unrecoverable internal error, not a user mistake.
    InternalError,
}

/// An event handed to the engine: one visible line, one hidden line, one
/// selection index, or the acknowledgement that a note was shown.
#[derive(Debug)]
pub enum Event {
    Line(String),
    Hidden(String),
    Pick(usize),
    Ack,
}

/// What the driving loop should do next.
pub enum Request {
    /// Print this note, then acknowledge it.
    ShowNote(String),
    /// Show the step and read one visible line.
    CommandInput(StepDisplay),
    /// Show this prompt and read one hidden line.
    HiddenInput(String),
    /// Show this prompt and read one visible line.
    VisibleInput(String),
    /// Offer these options and return the selected index.
    ChooseOption(String, Vec<String>),
    /// The run is complete.
    Finished,
}

/// The result of feeding one event to the engine: the outcome, the lines
/// to print, and the progress display an install step asks for.
pub struct StepResult {
    pub outcome: StepOutcome,
    pub lines: Vec<String>,
    pub progress: Option<ProgressPlan>,
}

/// The lines printed after a rejected command: the error, and the retype
/// hint exactly when hints are enabled.
pub open spec fn reject_lines_spec(hints_enabled: bool, lines: Seq<String>) -> bool {
    &&& lines.len() == (if hints_enabled {
        2int
    } else {
        1int
    })
    &&& lines[0]@ == "Error: Invalid command. Try again."@
    &&& hints_enabled ==> lines[1]@ == "Hint: Make sure you type the command exactly as shown."@
}

/// The progress display owed after an accepted command: ten ticks for the
/// base install, seven for the desktop install, none elsewhere.
pub open spec fn progress_matches_spec(
    id: CommandId,
    desktop: DesktopEnvironment,
    pr: Option<ProgressPlan>,
) -> bool {
    match id {
        CommandId::InstallBase => pr matches Some(p) && p.total_ticks == 10 && p.message@
            == "Installing base system and GRUB..."@ && p.done_message@
            == "Base system and GRUB installed successfully."@,
        CommandId::InstallDesktop => pr matches Some(p) && p.total_ticks == 7 && p.message@
            == desktop_progress_message_spec(desktop) && p.done_message@
            == desktop_done_message_spec(desktop),
        _ => pr is None,
    }
}

/// The walkthrough engine. It owns the plan, the position in it, the one
/// prompt context, and whatever the run has collected so far.
pub struct StepEngine {
    pub choices: UserChoices,
    pub ctx: PromptContext,
    pub plan: Vec<PlanItem>,
    pub pos: usize,
    pub username: String,
    pub desktop: Option<DesktopEnvironment>,
    pub pw: PasswordFlow,
}

impl StepEngine {
    /// The item the engine currently stands at.
    pub open spec fn cur(self) -> PlanItem {
        self.plan@[self.pos as int]
    }

    pub open spec fn at_end(self) -> bool {
        self.pos == self.plan@.len()
    }

    /// The desktop choice, or the first option while none is made; the
    /// plan never needs the value before the selection item ran.
    pub open spec fn desktop_or_default(self) -> DesktopEnvironment {
        match self.desktop {
            Some(d) => d,
            None => DesktopEnvironment::Gnome,
        }
    }

    /// The command the current step expects, given everything collected
    /// so far.
    pub open spec fn expected_for(self, id: CommandId) -> Seq<char> {
        command_text_spec(id, self.choices.gpu_type, self.username@, self.desktop_or_default())
    }

    /// The engine's invariant: the plan is the one the choices give, the
    /// position is in range, the prompt context tracks the chroot window,
    /// the desktop choice exists once the selection is past, and at a
    /// password item the embedded flow is for the right user and not done.
    pub open spec fn wf(self) -> bool {
        &&& self.plan@ == plan_spec(self.choices)
        &&& self.pos <= self.plan@.len()
        &&& self.ctx.in_chroot == in_chroot_spec(self.choices, self.pos as int)
        &&& self.pos > choose_desktop_index_spec(self.choices) ==> self.desktop is Some
        &&& (self.pos < self.plan@.len() ==> match self.cur() {
            PlanItem::SetPassword(t) => {
                &&& self.pw.wf()
                &&& self.pw.phase != PasswordPhase::Done
                &&& self.pw.username@ == password_target_name_spec(t, self.username@)
            },
            _ => true,
        })
    }

    /// A fresh engine: choices fixed, hints as configured, standing at the
    /// first item, outside the chroot.
    pub fn new(choices: UserChoices, hints_enabled: bool) -> (r: StepEngine)
        ensures
            r.wf(),
            r.choices == choices,
            r.pos == 0,
            r.ctx.hints_enabled == hints_enabled,
            r.ctx.in_chroot == false,
            r.username@ == Seq::<char>::empty(),
            r.desktop is None,
    {
        let plan = build_plan(&choices);
        let r = StepEngine {
            choices,
            ctx: PromptContext::new(hints_enabled),
            plan,
            pos: 0,
            username: String::new(),
            desktop: None,
            pw: PasswordFlow::new("root"),
        };
        proof {
            lemma_plan_layout(choices);
        }
        r
    }

    /// The lines printed after a rejected command.
    fn reject_lines(&self) -> (r: Vec<String>)
        ensures
            reject_lines_spec(self.ctx.hints_enabled, r@),
    {
        let mut v: Vec<String> = Vec::new();
        v.push(invalid_command_message());
        if self.ctx.hints_enabled {
            v.push(retype_hint_message());
        }
        v
    }

    fn desktop_value(&self) -> (d: DesktopEnvironment)
        ensures
            d == self.desktop_or_default(),
    {
        match self.desktop {
            Some(d) => d,
            None => DesktopEnvironment::Gnome,
        }
    }

    /// The exact command the given step expects right now.
    pub fn expected_text(&self, id: CommandId) -> (r: String)
        ensures
            r@ == self.expected_for(id),
    {
        let d = self.desktop_value();
        command_text(id, self.choices.gpu_type, self.username.as_str(), d)
    }

    /// Moves to the next item: updates the chroot flag and, on reaching a
    /// password item, arms a fresh flow for the right user.
    fn advance_pos(&mut self)
        requires
            old(self).plan@ == plan_spec(old(self).choices),
            old(self).pos < old(self).plan@.len(),
            old(self).pos + 1 > choose_desktop_index_spec(old(self).choices) ==> old(
                self,
            ).desktop is Some,
        ensures
            final(self).pos == old(self).pos + 1,
            final(self).choices == old(self).choices,
            final(self).plan == old(self).plan,
            final(self).username == old(self).username,
            final(self).desktop == old(self).desktop,
            final(self).ctx.hints_enabled == old(self).ctx.hints_enabled,
            final(self).ctx.in_chroot == in_chroot_spec(old(self).choices, old(self).pos + 1),
            final(self).wf(),
            final(self).pos < final(self).plan@.len() ==> match final(self).cur() {
                PlanItem::SetPassword(t) => final(self).pw.phase == PasswordPhase::AwaitCommand
                    && final(self).pw.username@ == password_target_name_spec(
                    t,
                    final(self).username@,
                ),
                _ => true,
            },
    {
        proof {
            lemma_plan_layout(self.choices);
        }
        self.pos = self.pos + 1;
        let q: usize = if self.choices.device_type == DeviceType::Pc {
            4
        } else {
            8
        };
        self.ctx.in_chroot = q + 18 < self.pos && self.pos <= q + 27;
        if self.pos < self.plan.len() {
            let item = self.plan[self.pos];
            match item {
                PlanItem::SetPassword(PasswordTarget::Root) => {
                    self.pw = PasswordFlow::new("root");
                },
                PlanItem::SetPassword(PasswordTarget::NewUser) => {
                    let name = self.username.clone();
                    self.pw = PasswordFlow::new(name.as_str());
                },
                _ => {},
            }
        }
    }

    /// What the driving loop should do at the current item.
    pub fn request(&self) -> (r: Request)
        requires
            self.wf(),
        ensures
            self.at_end() ==> r is Finished,
            !self.at_end() ==> match self.cur() {
                PlanItem::Note(n) => r matches Request::ShowNote(s) && s@ == note_text_spec(
                    n,
                    self.choices,
                ),
                PlanItem::Command(id) => r matches Request::CommandInput(d) && {
                    &&& d.description@ == description_spec(id, self.desktop_or_default())
                    &&& (d.hint is Some <==> self.ctx.hints_enabled)
                    &&& (d.hint matches Some(h) ==> h@ == hint_line_spec(self.expected_for(id)))
                    &&& d.chroot_prompt == self.ctx.in_chroot
                },
                PlanItem::SetPassword(_) => match self.pw.phase {
                    PasswordPhase::AwaitCommand => r matches Request::CommandInput(d) && {
                        &&& d.description@ == password_description_spec(self.pw.username@)
                        &&& (d.hint is Some <==> self.ctx.hints_enabled)
                        &&& (d.hint matches Some(h) ==> h@ == hint_line_spec(
                            passwd_command_spec(self.pw.username@),
                        ))
                        &&& d.chroot_prompt == self.ctx.in_chroot
                    },
                    PasswordPhase::AwaitNew => r matches Request::HiddenInput(p) && p@
                        == "Enter new password:"@,
                    PasswordPhase::AwaitConfirm => r matches Request::HiddenInput(p) && p@
                        == "Confirm password:"@,
                    PasswordPhase::Done => true,
                },
                PlanItem::AskUsername => r matches Request::VisibleInput(p) && p@
                    == "\nEnter a username to create:"@,
                PlanItem::ChooseDesktop => r matches Request::ChooseOption(p, opts) && p@
                    == "Choose a desktop environment or window manager to install:"@ && opts@.len()
                    == 3 && opts@[0]@ == "GNOME"@ && opts@[1]@ == "Plasma"@ && opts@[2]@
                    == "Hyprland"@,
            },
    {
        if self.pos == self.plan.len() {
            return Request::Finished;
        }
        let item = self.plan[self.pos];
        match item {
            PlanItem::Note(n) => Request::ShowNote(note_text(n, &self.choices)),
            PlanItem::Command(id) => {
                let d = self.desktop_value();
                let step = CommandStep {
                    description: description_text(id, d),
                    expected_command: self.expected_text(id),
                };
                Request::CommandInput(step.render(&self.ctx))
            },
            PlanItem::SetPassword(_) => {
                match self.pw.phase {
                    PasswordPhase::AwaitCommand => {
                        let step = self.pw.command_step();
                        Request::CommandInput(step.render(&self.ctx))
                    },
                    PasswordPhase::AwaitNew => Request::HiddenInput(new_password_prompt()),
                    PasswordPhase::AwaitConfirm => Request::HiddenInput(confirm_password_prompt()),
                    PasswordPhase::Done => {
                        proof {
                            assert(false);
                        }
                        Request::Finished
                    },
                }
            },
            PlanItem::AskUsername => Request::VisibleInput(
                String::from_str("\nEnter a username to create:"),
            ),
            PlanItem::ChooseDesktop => {
                let mut opts: Vec<String> = Vec::new();
                opts.push(String::from_str("GNOME"));
                opts.push(String::from_str("Plasma"));
                opts.push(String::from_str("Hyprland"));
                Request::ChooseOption(
                    String::from_str("Choose a desktop environment or window manager to install:"),
                    opts,
                )
            },
        }
    }

    /// Feeds one event to the engine. A command line moves the run forward
    /// if and only if its trimmed text equals the expected command; a
    /// mismatched line leaves the engine exactly where it was. Password
    /// items follow the confirmation flow; the desktop selection accepts
    /// only an index with an option behind it; an event of the wrong kind
    /// never changes anything and reports an internal error.
    pub fn advance(&mut self, ev: Event) -> (r: StepResult)
        requires
            old(self).wf(),
        ensures
            final(self).wf(),
            final(self).choices == old(self).choices,
            final(self).plan == old(self).plan,
            final(self).ctx.hints_enabled == old(self).ctx.hints_enabled,
            final(self).pos == old(self).pos || final(self).pos == old(self).pos + 1,
            // nothing but the engine's own steps ever changes the collected inputs
            !(!old(self).at_end() && old(self).cur() is AskUsername) ==> final(self).username
                == old(self).username,
            !(!old(self).at_end() && old(self).cur() is ChooseDesktop) ==> final(self).desktop
                == old(self).desktop,
            // a finished run never moves again
            old(self).at_end() ==> *final(self) == *old(self) && r.outcome == StepOutcome::Finished
                && r.lines@.len() == 0 && r.progress is None,
            // an event that does not fit prints nothing
            r.outcome == StepOutcome::InternalError ==> r.lines@.len() == 0 && r.progress is None,
            // only a command step ever asks for a progress display
            !old(self).at_end() && !(old(self).cur() is Command) ==> r.progress is None,
            // what each kind of item does with its event; an event of the
            // wrong kind never changes anything
            !old(self).at_end() ==> match old(self).cur() {
                // a note only needs its acknowledgement
                PlanItem::Note(_) => if ev is Ack {
                    &&& final(self).pos == old(self).pos + 1
                    &&& r.outcome == StepOutcome::Accepted
                    &&& r.lines@.len() == 0
                    &&& r.progress is None
                } else {
                    *final(self) == *old(self) && r.outcome == StepOutcome::InternalError
                },
                // the exact-match gate: the effect runs if and only if the
                // trimmed line equals the expected command
                PlanItem::Command(id) => match ev {
                    Event::Line(l) => if trim_spec(l@) == old(self).expected_for(id) {
                        &&& final(self).pos == old(self).pos + 1
                        &&& r.outcome == StepOutcome::Accepted
                        &&& r.lines@.len() == 1
                        &&& r.lines@[0]@ == output_text_spec(
                            id,
                            old(self).username@,
                            old(self).desktop_or_default(),
                        )
                        &&& progress_matches_spec(id, old(self).desktop_or_default(), r.progress)
                    } else {
                        &&& *final(self) == *old(self)
                        &&& r.outcome == StepOutcome::Rejected
                        &&& reject_lines_spec(old(self).ctx.hints_enabled, r.lines@)
                        &&& r.progress is None
                    },
                    _ => *final(self) == *old(self) && r.outcome == StepOutcome::InternalError,
                },
                // the password flow: command gate, then two hidden
                // entries; a mismatched pair returns to the command gate
                PlanItem::SetPassword(_) => match old(self).pw.phase {
                    PasswordPhase::AwaitCommand => match ev {
                        Event::Line(l) => if trim_spec(l@) == old(self).pw.expected_command@ {
                            &&& final(self).pos == old(self).pos
                            &&& final(self).pw.phase == PasswordPhase::AwaitNew
                            &&& r.outcome == StepOutcome::Accepted
                            &&& r.lines@.len() == 0
                        } else {
                            &&& *final(self) == *old(self)
                            &&& r.outcome == StepOutcome::Rejected
                            &&& reject_lines_spec(old(self).ctx.hints_enabled, r.lines@)
                        },
                        _ => *final(self) == *old(self) && r.outcome
                            == StepOutcome::InternalError,
                    },
                    PasswordPhase::AwaitNew => match ev {
                        Event::Hidden(p) => {
                            &&& final(self).pos == old(self).pos
                            &&& final(self).pw.phase == PasswordPhase::AwaitConfirm
                            &&& final(self).pw.pending@ == p@
                            &&& r.outcome == StepOutcome::PasswordStored
                            &&& r.lines@.len() == 0
                        },
                        _ => *final(self) == *old(self) && r.outcome
                            == StepOutcome::InternalError,
                    },
                    PasswordPhase::AwaitConfirm => match ev {
                        Event::Hidden(p) => if p@ == old(self).pw.pending@ {
                            &&& final(self).pos == old(self).pos + 1
                            &&& r.outcome == StepOutcome::PasswordSet
                            &&& r.lines@.len() == 1
                            &&& r.lines@[0]@ == password_set_message_spec(old(self).pw.username@)
                        } else {
                            &&& final(self).pos == old(self).pos
                            &&& final(self).pw.phase == PasswordPhase::AwaitCommand
                            &&& r.outcome == StepOutcome::PasswordMismatch
                            &&& r.lines@.len() == 1
                            &&& r.lines@[0]@ == "Passwords do not match. Try again."@
                        },
                        _ => *final(self) == *old(self) && r.outcome
                            == StepOutcome::InternalError,
                    },
                    PasswordPhase::Done => true,
                },
                // the username is stored trimmed, like every typed line
                PlanItem::AskUsername => match ev {
                    Event::Line(l) => {
                        &&& final(self).pos == old(self).pos + 1
                        &&& final(self).username@ == trim_spec(l@)
                        &&& r.outcome == StepOutcome::Accepted
                        &&& r.lines@.len() == 0
                    },
                    _ => *final(self) == *old(self) && r.outcome == StepOutcome::InternalError,
                },
                // the selection is total over the offered indices;
                // anything else is the internal-error path
                PlanItem::ChooseDesktop => match ev {
                    Event::Pick(i) => if i < 3 {
                        &&& final(self).pos == old(self).pos + 1
                        &&& r.outcome == StepOutcome::Accepted
                        &&& (i == 0 ==> final(self).desktop == Some(DesktopEnvironment::Gnome))
                        &&& (i == 1 ==> final(self).desktop == Some(DesktopEnvironment::Plasma))
                        &&& (i == 2 ==> final(self).desktop == Some(
                            DesktopEnvironment::Hyprland,
                        ))
                    } else {
                        *final(self) == *old(self) && r.outcome == StepOutcome::InternalError
                    },
                    _ => *final(self) == *old(self) && r.outcome == StepOutcome::InternalError,
                },
            },
            // arriving at a password item always arms a fresh flow
            final(self).pos == old(self).pos + 1 && final(self).pos
                < final(self).plan@.len() ==> match final(self).cur() {
                PlanItem::SetPassword(t) => final(self).pw.phase == PasswordPhase::AwaitCommand
                    && final(self).pw.username@ == password_target_name_spec(
                    t,
                    final(self).username@,
                ),
                _ => true,
            },
    {
        if self.pos == self.plan.len() {
            return StepResult { outcome: StepOutcome::Finished, lines: Vec::new(), progress: None };
        }
        proof {
            lemma_plan_layout(self.choices);
        }
        let item = self.plan[self.pos];
        match item {
            PlanItem::Note(_) => {
                match ev {
                    Event::Ack => {
                        self.advance_pos();
                        StepResult {
                            outcome: StepOutcome::Accepted,
                            lines: Vec::new(),
                            progress: None,
                        }
                    },
                    _ => StepResult {
                        outcome: StepOutcome::InternalError,
                        lines: Vec::new(),
                        progress: None,
                    },
                }
            },
            PlanItem::Command(id) => {
                match ev {
                    Event::Line(l) => {
                        let expected = self.expected_text(id);
                        let trimmed = trim_input(l.as_str());
                        if str_eq(trimmed.as_str(), expected.as_str()) {
                            let d = self.desktop_value();
                            let out = output_text(id, self.username.as_str(), d);
                            let prog = match id {
                                CommandId::InstallBase => Some(base_install_progress()),
                                CommandId::InstallDesktop => Some(desktop_install_progress(d)),
                                _ => None,
                            };
                            self.advance_pos();
                            let mut lines: Vec<String> = Vec::new();
                            lines.push(out);
                            StepResult { outcome: StepOutcome::Accepted, lines, progress: prog }
                        } else {
                            StepResult {
                                outcome: StepOutcome::Rejected,
                                lines: self.reject_lines(),
                                progress: None,
                            }
                        }
                    },
                    _ => StepResult {
                        outcome: StepOutcome::InternalError,
                        lines: Vec::new(),
                        progress: None,
                    },
                }
            },
            PlanItem::SetPassword(_) => {
                match self.pw.phase {
                    PasswordPhase::AwaitCommand => {
                        match ev {
                            Event::Line(l) => {
                                let accepted = self.pw.on_command_line(l.as_str());
                                if accepted {
                                    StepResult {
                                        outcome: StepOutcome::Accepted,
                                        lines: Vec::new(),
                                        progress: None,
                                    }
                                } else {
                                    StepResult {
                                        outcome: StepOutcome::Rejected,
                                        lines: self.reject_lines(),
                                        progress: None,
                                    }
                                }
                            },
                            _ => StepResult {
                                outcome: StepOutcome::InternalError,
                                lines: Vec::new(),
                                progress: None,
                            },
                        }
                    },
                    PasswordPhase::AwaitNew | PasswordPhase::AwaitConfirm => {
                        match ev {
                            Event::Hidden(p) => {
                                let outcome = self.pw.on_hidden_entry(p.as_str());
                                match outcome {
                                    HiddenOutcome::Stored => StepResult {
                                        outcome: StepOutcome::PasswordStored,
                                        lines: Vec::new(),
                                        progress: None,
                                    },
                                    HiddenOutcome::Matched => {
                                        let msg = password_set_message(self.pw.username.as_str());
                                        self.advance_pos();
                                        let mut lines: Vec<String> = Vec::new();
                                        lines.push(msg);
                                        StepResult {
                                            outcome: StepOutcome::PasswordSet,
                                            lines,
                                            progress: None,
                                        }
                                    },
                                    HiddenOutcome::Mismatched => {
                                        let mut lines: Vec<String> = Vec::new();
                                        lines.push(password_mismatch_message());
                                        StepResult {
                                            outcome: StepOutcome::PasswordMismatch,
                                            lines,
                                            progress: None,
                                        }
                                    },
                                }
                            },
                            _ => StepResult {
                                outcome: StepOutcome::InternalError,
                                lines: Vec::new(),
                                progress: None,
                            },
                        }
                    },
                    PasswordPhase::Done => {
                        proof {
                            assert(false);
                        }
                        StepResult {
                            outcome: StepOutcome::InternalError,
                            lines: Vec::new(),
                            progress: None,
                        }
                    },
                }
            },
            PlanItem::AskUsername => {
                match ev {
                    Event::Line(l) => {
                        self.username = trim_input(l.as_str());
                        self.advance_pos();
                        StepResult {
                            outcome: StepOutcome::Accepted,
                            lines: Vec::new(),
                            progress: None,
                        }
                    },
                    _ => StepResult {
                        outcome: StepOutcome::InternalError,
                        lines: Vec::new(),
                        progress: None,
                    },
                }
            },
            PlanItem::ChooseDesktop => {
                match ev {
                    Event::Pick(i) => {
                        match DesktopEnvironment::from_index(i) {
                            Some(d) => {
                                self.desktop = Some(d);
                                self.advance_pos();
                                StepResult {
                                    outcome: StepOutcome::Accepted,
                                    lines: Vec::new(),
                                    progress: None,
                                }
                            },
                            None => StepResult {
                                outcome: StepOutcome::InternalError,
                                lines: Vec::new(),
                                progress: None,
                            },
                        }
                    },
                    _ => StepResult {
                        outcome: StepOutcome::InternalError,
                        lines: Vec::new(),
                        progress: None,
                    },
                }
            },
        }
    }
}

} // verus!
