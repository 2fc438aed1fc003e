//! The user-facing data model: the choices collected at startup, the
//! configuration flag for hints, and the prompt context threaded through
//! every step of the walkthrough.

use vstd::prelude::*;

verus! {

/// The GPU the user claims to own; it selects the microcode / driver
/// package installed with the base system.
#[derive(Clone, Copy, Debug, PartialEq, Eq, Structural)]
pub enum GpuType {
    Amd,
    Intel,
    Nvidia,
}

impl GpuType {
    /// The display label for this variant.
    pub open spec fn label_spec(self) -> Seq<char> {
        match self {
            GpuType::Amd => "AMD"@,
            GpuType::Intel => "Intel"@,
            GpuType::Nvidia => "NVIDIA"@,
        }
    }

    /// The package name installed for this GPU with the base system.
    pub open spec fn package_spec(self) -> Seq<char> {
        match self {
            GpuType::Amd => "amd-ucode"@,
            GpuType::Intel => "intel-ucode"@,
            GpuType::Nvidia => "nvidia"@,
        }
    }

    /// The total mapping from a selection index to a variant; every index
    /// past the option list is an internal error, never a silent default.
    pub fn from_index(i: usize) -> (r: Option<GpuType>)
        ensures
            i == 0 ==> r == Some(GpuType::Amd),
            i == 1 ==> r == Some(GpuType::Intel),
            i == 2 ==> r == Some(GpuType::Nvidia),
            i >= 3 ==> r is None,
    {
        match i {
            0 => Some(GpuType::Amd),
            1 => Some(GpuType::Intel),
            2 => Some(GpuType::Nvidia),
            _ => None,
        }
    }

    pub fn label(&self) -> (r: String)
        ensures
            r@ == self.label_spec(),
    {
        match self {
            GpuType::Amd => String::from_str("AMD"),
            GpuType::Intel => String::from_str("Intel"),
            GpuType::Nvidia => String::from_str("NVIDIA"),
        }
    }

    pub fn package(&self) -> (r: String)
        ensures
            r@ == self.package_spec(),
    {
        match self {
            GpuType::Amd => String::from_str("amd-ucode"),
            GpuType::Intel => String::from_str("intel-ucode"),
            GpuType::Nvidia => String::from_str("nvidia"),
        }
    }
}

/// Whether the simulated machine is a laptop (which needs the Wi-Fi phase)
/// or a PC (which is wired and skips it).
#[derive(Clone, Copy, Debug, PartialEq, Eq, Structural)]
pub enum DeviceType {
    Laptop,
    Pc,
}

impl DeviceType {
    pub open spec fn label_spec(self) -> Seq<char> {
        match self {
            DeviceType::Laptop => "Laptop"@,
            DeviceType::Pc => "PC"@,
        }
    }

    /// The total mapping from a selection index to a variant.
    pub fn from_index(i: usize) -> (r: Option<DeviceType>)
        ensures
            i == 0 ==> r == Some(DeviceType::Laptop),
            i == 1 ==> r == Some(DeviceType::Pc),
            i >= 2 ==> r is None,
    {
        match i {
            0 => Some(DeviceType::Laptop),
            1 => Some(DeviceType::Pc),
            _ => None,
        }
    }

    pub fn label(&self) -> (r: String)
        ensures
            r@ == self.label_spec(),
    {
        match self {
            DeviceType::Laptop => String::from_str("Laptop"),
            DeviceType::Pc => String::from_str("PC"),
        }
    }
}

/// The desktop environment or window manager chosen near the end of the
/// walkthrough; it selects the package of the final install step.
#[derive(Clone, Copy, Debug, PartialEq, Eq, Structural)]
pub enum DesktopEnvironment {
    Gnome,
    Plasma,
    Hyprland,
}

impl DesktopEnvironment {
    pub open spec fn label_spec(self) -> Seq<char> {
        match self {
            DesktopEnvironment::Gnome => "GNOME"@,
            DesktopEnvironment::Plasma => "Plasma"@,
            DesktopEnvironment::Hyprland => "Hyprland"@,
        }
    }

    pub open spec fn package_spec(self) -> Seq<char> {
        match self {
            DesktopEnvironment::Gnome => "gnome"@,
            DesktopEnvironment::Plasma => "plasma"@,
            DesktopEnvironment::Hyprland => "hyprland"@,
        }
    }

    /// The total mapping from a selection index to a variant.
    pub fn from_index(i: usize) -> (r: Option<DesktopEnvironment>)
        ensures
            i == 0 ==> r == Some(DesktopEnvironment::Gnome),
            i == 1 ==> r == Some(DesktopEnvironment::Plasma),
            i == 2 ==> r == Some(DesktopEnvironment::Hyprland),
            i >= 3 ==> r is None,
    {
        match i {
            0 => Some(DesktopEnvironment::Gnome),
            1 => Some(DesktopEnvironment::Plasma),
            2 => Some(DesktopEnvironment::Hyprland),
            _ => None,
        }
    }

    pub fn label(&self) -> (r: String)
        ensures
            r@ == self.label_spec(),
    {
        match self {
            DesktopEnvironment::Gnome => String::from_str("GNOME"),
            DesktopEnvironment::Plasma => String::from_str("Plasma"),
            DesktopEnvironment::Hyprland => String::from_str("Hyprland"),
        }
    }

    pub fn package(&self) -> (r: String)
        ensures
            r@ == self.package_spec(),
    {
        match self {
            DesktopEnvironment::Gnome => String::from_str("gnome"),
            DesktopEnvironment::Plasma => String::from_str("plasma"),
            DesktopEnvironment::Hyprland => String::from_str("hyprland"),
        }
    }
}

/// The two choices collected once at startup; immutable afterwards and
/// consumed read-only by the step engine.
#[derive(Clone, Copy, Debug, PartialEq, Eq, Structural)]
pub struct UserChoices {
    pub gpu_type: GpuType,
    pub device_type: DeviceType,
}

impl UserChoices {
    pub fn new(gpu_type: GpuType, device_type: DeviceType) -> (r: Self)
        ensures
            r.gpu_type == gpu_type,
            r.device_type == device_type,
    {
        UserChoices { gpu_type, device_type }
    }
}

/// The run-wide configuration: whether hint lines are shown. An explicit
/// value handed to the engine, never a process-wide flag.
#[derive(Clone, Copy, Debug, PartialEq, Eq, Structural)]
pub struct Config {
    pub show_hints: bool,
}

impl Config {
    pub fn new(show_hints: bool) -> (r: Self)
        ensures
            r.show_hints == show_hints,
    {
        Config { show_hints }
    }
}

/// The state every step reads to render itself: whether the simulated shell
/// is inside the chroot, and whether hints are enabled. Only the step
/// engine mutates `in_chroot`; `hints_enabled` never changes during a run.
#[derive(Clone, Copy, Debug, PartialEq, Eq, Structural)]
pub struct PromptContext {
    pub in_chroot: bool,
    pub hints_enabled: bool,
}

impl PromptContext {
    pub fn new(hints_enabled: bool) -> (r: Self)
        ensures
            r.in_chroot == false,
            r.hints_enabled == hints_enabled,
    {
        PromptContext { in_chroot: false, hints_enabled }
    }
}

} // verus!
