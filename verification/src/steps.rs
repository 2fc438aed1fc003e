//! The scripted content of the walkthrough: every step's expected command,
//! its description, and the pre-authored output shown once the command is
//! typed correctly. Nothing here executes a real command; the output is
//! fixed text keyed to the expected command string.

use vstd::prelude::*;
use crate::models::{DesktopEnvironment, GpuType};

verus! {

/// Every exact-match command step of the walkthrough, in no particular
/// order; the engine's plan gives the order.
#[derive(Clone, Copy, Debug, PartialEq, Eq, Structural)]
pub enum CommandId {
    ShowInterfaces,
    ScanNetworks,
    ConnectWifi,
    ShowDisks,
    CreatePartitions,
    FormatEfi,
    FormatRoot,
    MountRoot,
    MountEfi,
    InstallBase,
    GenerateFstab,
    EnterChroot,
    CreateUser,
    InstallDesktop,
    InstallGrub,
    ConfigureGrub,
    ExitChroot,
    UnmountAll,
    Reboot,
}

/// The base-install command; the one package that varies is the microcode
/// or driver package mapped from the GPU choice.
pub open spec fn base_install_command_spec(gpu: GpuType) -> Seq<char> {
    "pacstrap -K /mnt base base-devel linux linux-firmware "@ + gpu.package_spec() + " grub"@
}

pub fn base_install_command(gpu: GpuType) -> (r: String)
    ensures
        r@ == base_install_command_spec(gpu),
{
    let mut r = String::from_str("pacstrap -K /mnt base base-devel linux linux-firmware ");
    let pkg = gpu.package();
    r.append(pkg.as_str());
    r.append(" grub");
    r
}

/// The command that creates the user the walkthrough asked for.
pub open spec fn create_user_command_spec(username: Seq<char>) -> Seq<char> {
    "useradd -mG wheel "@ + username
}

pub fn create_user_command(username: &str) -> (r: String)
    ensures
        r@ == create_user_command_spec(username@),
{
    let mut r = String::from_str("useradd -mG wheel ");
    r.append(username);
    r
}

/// The command that installs the chosen desktop environment.
pub open spec fn install_desktop_command_spec(desktop: DesktopEnvironment) -> Seq<char> {
    "pacman -S "@ + desktop.package_spec()
}

pub fn install_desktop_command(desktop: DesktopEnvironment) -> (r: String)
    ensures
        r@ == install_desktop_command_spec(desktop),
{
    let mut r = String::from_str("pacman -S ");
    let pkg = desktop.package();
    r.append(pkg.as_str());
    r
}

/// The exact command a step expects the user to type back.
pub open spec fn command_text_spec(
    id: CommandId,
    gpu: GpuType,
    username: Seq<char>,
    desktop: DesktopEnvironment,
) -> Seq<char> {
    match id {
        CommandId::ShowInterfaces => "ip a"@,
        CommandId::ScanNetworks => "iwctl station wlan0 get-networks"@,
        CommandId::ConnectWifi => "iwctl station wlan0 connect archtry_wifi"@,
        CommandId::ShowDisks => "lsblk"@,
        CommandId::CreatePartitions => "fdisk /dev/sdz"@,
        CommandId::FormatEfi => "mkfs.fat -F 32 /dev/sdz1"@,
        CommandId::FormatRoot => "mkfs.ext4 /dev/sdz2"@,
        CommandId::MountRoot => "mount /dev/sdz2 /mnt"@,
        CommandId::MountEfi => "mount --mkdir /dev/sdz1 /mnt/boot/efi"@,
        CommandId::InstallBase => base_install_command_spec(gpu),
        CommandId::GenerateFstab => "genfstab -U /mnt >> /mnt/etc/fstab"@,
        CommandId::EnterChroot => "arch-chroot /mnt"@,
        CommandId::CreateUser => create_user_command_spec(username),
        CommandId::InstallDesktop => install_desktop_command_spec(desktop),
        CommandId::InstallGrub => "grub-install --target=x86_64-efi --efi-directory=/boot/efi --bootloader-id=GRUB"@,
        CommandId::ConfigureGrub => "grub-mkconfig -o /boot/grub/grub.cfg"@,
        CommandId::ExitChroot => "exit"@,
        CommandId::UnmountAll => "umount -R /mnt"@,
        CommandId::Reboot => "reboot"@,
    }
}

pub fn command_text(
    id: CommandId,
    gpu: GpuType,
    username: &str,
    desktop: DesktopEnvironment,
) -> (r: String)
    ensures
        r@ == command_text_spec(id, gpu, username@, desktop),
{
    match id {
        CommandId::ShowInterfaces => String::from_str("ip a"),
        CommandId::ScanNetworks => String::from_str("iwctl station wlan0 get-networks"),
        CommandId::ConnectWifi => String::from_str("iwctl station wlan0 connect archtry_wifi"),
        CommandId::ShowDisks => String::from_str("lsblk"),
        CommandId::CreatePartitions => String::from_str("fdisk /dev/sdz"),
        CommandId::FormatEfi => String::from_str("mkfs.fat -F 32 /dev/sdz1"),
        CommandId::FormatRoot => String::from_str("mkfs.ext4 /dev/sdz2"),
        CommandId::MountRoot => String::from_str("mount /dev/sdz2 /mnt"),
        CommandId::MountEfi => String::from_str("mount --mkdir /dev/sdz1 /mnt/boot/efi"),
        CommandId::InstallBase => base_install_command(gpu),
        CommandId::GenerateFstab => String::from_str("genfstab -U /mnt >> /mnt/etc/fstab"),
        CommandId::EnterChroot => String::from_str("arch-chroot /mnt"),
        CommandId::CreateUser => create_user_command(username),
        CommandId::InstallDesktop => install_desktop_command(desktop),
        CommandId::InstallGrub => String::from_str(
            "grub-install --target=x86_64-efi --efi-directory=/boot/efi --bootloader-id=GRUB",
        ),
        CommandId::ConfigureGrub => String::from_str("grub-mkconfig -o /boot/grub/grub.cfg"),
        CommandId::ExitChroot => String::from_str("exit"),
        CommandId::UnmountAll => String::from_str("umount -R /mnt"),
        CommandId::Reboot => String::from_str("reboot"),
    }
}

/// `needle` occurs in `hay` starting at index `k`.
pub open spec fn occurs_at(hay: Seq<char>, needle: Seq<char>, k: int) -> bool {
    0 <= k && k + needle.len() <= hay.len() && hay.subrange(k, k + needle.len() as int) == needle
}

/// `needle` occurs somewhere in `hay`.
pub open spec fn occurs(hay: Seq<char>, needle: Seq<char>) -> bool {
    exists|k: int| occurs_at(hay, needle, k)
}

/// Whether `needle` occurs in `hay` as a contiguous run of characters.
pub fn contains_subseq(hay: &str, needle: &str) -> (r: bool)
    ensures
        r == occurs(hay@, needle@),
{
    let nh = hay.unicode_len();
    let nn = needle.unicode_len();
    if nn > nh {
        return false;
    }
    if nn == 0 {
        proof {
            assert(hay@.subrange(0, 0) =~= needle@);
            assert(occurs_at(hay@, needle@, 0));
        }
        return true;
    }
    let mut k: usize = 0;
    while k <= nh - nn
        invariant
            1 <= nn <= nh,
            nh == hay@.len(),
            nn == needle@.len(),
            k <= nh - nn + 1,
            forall|j: int| 0 <= j < k ==> !occurs_at(hay@, needle@, j),
        decreases nh - nn + 1 - k,
    {
        let mut d: usize = 0;
        let mut diff = false;
        while d < nn && !diff
            invariant
                d <= nn,
                k + nn <= nh,
                nh == hay@.len(),
                nn == needle@.len(),
                !diff ==> forall|e: int| 0 <= e < d ==> hay@[k + e] == needle@[e],
                diff ==> !occurs_at(hay@, needle@, k as int),
            decreases nn - d + (if diff {
                0int
            } else {
                1int
            }),
        {
            if hay.get_char(k + d) != needle.get_char(d) {
                proof {
                    if occurs_at(hay@, needle@, k as int) {
                        assert(hay@.subrange(k as int, k + nn as int)[d as int] == hay@[k + d]);
                    }
                }
                diff = true;
            } else {
                d = d + 1;
            }
        }
        if !diff {
            proof {
                assert(hay@.subrange(k as int, k + nn as int) =~= needle@);
                assert(occurs_at(hay@, needle@, k as int));
            }
            return true;
        }
        k = k + 1;
    }
    proof {
        assert forall|j: int| !occurs_at(hay@, needle@, j) by {
            if 0 <= j && j + needle@.len() <= hay@.len() {
                assert(j < k);
            }
        }
    }
    false
}

/// Every base-install command contains exactly the one package mapped
/// from the GPU choice and no other: the command is the fixed text around
/// that package, the package occurs in it, the mapping from GPU to
/// package is injective, and no other GPU's package occurs anywhere in
/// the command.
pub proof fn lemma_base_install_package(gpu: GpuType)
    ensures
        base_install_command_spec(gpu) == "pacstrap -K /mnt base base-devel linux linux-firmware "@
            + gpu.package_spec() + " grub"@,
        occurs(base_install_command_spec(gpu), gpu.package_spec()),
        forall|g1: GpuType, g2: GpuType|
            #[trigger] g1.package_spec() == #[trigger] g2.package_spec() ==> g1 == g2,
        forall|other: GpuType| other != gpu ==> !occurs(
            base_install_command_spec(gpu),
            #[trigger] other.package_spec(),
        ),
{
    reveal_strlit("pacstrap -K /mnt base base-devel linux linux-firmware ");
    reveal_strlit("amd-ucode");
    reveal_strlit("intel-ucode");
    reveal_strlit("nvidia");
    reveal_strlit(" grub");
    let prefix = "pacstrap -K /mnt base base-devel linux linux-firmware "@;
    let pkg = gpu.package_spec();
    let cmd = base_install_command_spec(gpu);
    assert(cmd.subrange(prefix.len() as int, prefix.len() + pkg.len() as int) =~= pkg);
    assert(occurs_at(cmd, pkg, prefix.len() as int));
    assert forall|g1: GpuType, g2: GpuType|
        #[trigger] g1.package_spec() == #[trigger] g2.package_spec() implies g1 == g2 by {
        assert("amd-ucode"@.len() == 9);
        assert("intel-ucode"@.len() == 11);
        assert("nvidia"@.len() == 6);
    }
    assert forall|other: GpuType| other != gpu implies !occurs(
        base_install_command_spec(gpu),
        #[trigger] other.package_spec(),
    ) by {
        lemma_no_foreign_package(gpu, other);
    }
}

/// No other GPU's package name occurs anywhere in the base-install
/// command: wherever the foreign name would have to start, its opening
/// characters do not fit the command's text.
#[verifier::rlimit(100)]
proof fn lemma_no_foreign_package(gpu: GpuType, other: GpuType)
    requires
        other != gpu,
    ensures
        !occurs(base_install_command_spec(gpu), other.package_spec()),
{
    reveal_strlit("pacstrap -K /mnt base base-devel linux linux-firmware ");
    reveal_strlit("amd-ucode");
    reveal_strlit("intel-ucode");
    reveal_strlit("nvidia");
    reveal_strlit(" grub");
    let cmd = base_install_command_spec(gpu);
    let n = other.package_spec();
    assert forall|k: int| !occurs_at(cmd, n, k) by {
        if 0 <= k && k + n.len() <= cmd.len() {
            let s = cmd.subrange(k, k + n.len() as int);
            assert(s[0] == cmd[k]);
            assert(s[1] == cmd[k + 1]);
            assert(s[2] == cmd[k + 2]);
            if s == n {
                assert(false);
            }
        }
    }
}

/// The one-line description shown above a step's prompt.
pub open spec fn description_spec(id: CommandId, desktop: DesktopEnvironment) -> Seq<char> {
    match id {
        CommandId::ShowInterfaces => "Show network interfaces"@,
        CommandId::ScanNetworks => "Scan for Wi-Fi networks"@,
        CommandId::ConnectWifi => "Connect to Wi-Fi"@,
        CommandId::ShowDisks => "Show disk layout"@,
        CommandId::CreatePartitions => "Create partitions"@,
        CommandId::FormatEfi => "Format EFI partition"@,
        CommandId::FormatRoot => "Format root partition"@,
        CommandId::MountRoot => "Mount root partition"@,
        CommandId::MountEfi => "Mount EFI partition"@,
        CommandId::InstallBase => "Install base system and GRUB"@,
        CommandId::GenerateFstab => "Generate fstab"@,
        CommandId::EnterChroot => "Chroot into the system"@,
        CommandId::CreateUser => "Create a new user"@,
        CommandId::InstallDesktop => "Install "@ + desktop.label_spec(),
        CommandId::InstallGrub => "Install GRUB to the EFI partition"@,
        CommandId::ConfigureGrub => "Generate GRUB configuration"@,
        CommandId::ExitChroot => "Exit chroot environment"@,
        CommandId::UnmountAll => "Unmount partitions"@,
        CommandId::Reboot => "Reboot the system"@,
    }
}

pub fn description_text(id: CommandId, desktop: DesktopEnvironment) -> (r: String)
    ensures
        r@ == description_spec(id, desktop),
{
    match id {
        CommandId::ShowInterfaces => String::from_str("Show network interfaces"),
        CommandId::ScanNetworks => String::from_str("Scan for Wi-Fi networks"),
        CommandId::ConnectWifi => String::from_str("Connect to Wi-Fi"),
        CommandId::ShowDisks => String::from_str("Show disk layout"),
        CommandId::CreatePartitions => String::from_str("Create partitions"),
        CommandId::FormatEfi => String::from_str("Format EFI partition"),
        CommandId::FormatRoot => String::from_str("Format root partition"),
        CommandId::MountRoot => String::from_str("Mount root partition"),
        CommandId::MountEfi => String::from_str("Mount EFI partition"),
        CommandId::InstallBase => String::from_str("Install base system and GRUB"),
        CommandId::GenerateFstab => String::from_str("Generate fstab"),
        CommandId::EnterChroot => String::from_str("Chroot into the system"),
        CommandId::CreateUser => String::from_str("Create a new user"),
        CommandId::InstallDesktop => {
            let mut r = String::from_str("Install ");
            let label = desktop.label();
            r.append(label.as_str());
            r
        },
        CommandId::InstallGrub => String::from_str("Install GRUB to the EFI partition"),
        CommandId::ConfigureGrub => String::from_str("Generate GRUB configuration"),
        CommandId::ExitChroot => String::from_str("Exit chroot environment"),
        CommandId::UnmountAll => String::from_str("Unmount partitions"),
        CommandId::Reboot => String::from_str("Reboot the system"),
    }
}

/// The pre-authored output a step prints once its command matched.
pub open spec fn output_text_spec(
    id: CommandId,
    username: Seq<char>,
    desktop: DesktopEnvironment,
) -> Seq<char> {
    match id {
        CommandId::ShowInterfaces => "\n1: wlan0: <NO-CARRIER,BROADCAST,MULTICAST,UP> mtu 1500 qdisc noqueue state DOWN group default qlen 1000\n    link/ether XX:XX:XX:XX:XX:XX brd ff:ff:ff:ff:ff:ff\n"@,
        CommandId::ScanNetworks => "\n                               Available networks\n--------------------------------------------------------------------------------\n      Network name                  Security            Signal\n--------------------------------------------------------------------------------\n      archtry_wifi                    NULL               ****\n"@,
        CommandId::ConnectWifi => "\nConnected to archtry_wifi.\n"@,
        CommandId::ShowDisks => "\nNAME        MAJ:MIN RM   SIZE RO TYPE MOUNTPOINTS\nsdz         259:0   0   50.0G  0 disk\n"@,
        CommandId::CreatePartitions => "\nCreating partitions...\n"@,
        CommandId::FormatEfi => "\nFormatting EFI partition...\n"@,
        CommandId::FormatRoot => "\nFormatting root partition...\n"@,
        CommandId::MountRoot => "\nRoot partition mounted.\n"@,
        CommandId::MountEfi => "\nEFI partition mounted.\n"@,
        CommandId::InstallBase => ""@,
        CommandId::GenerateFstab => "\nfstab generated.\n"@,
        CommandId::EnterChroot => "\nChrooted into the system.\n"@,
        CommandId::CreateUser => "\nUser '"@ + username
            + "' created and added to the wheel group.\n"@,
        CommandId::InstallDesktop => "\n"@ + desktop.label_spec() + " installed.\n"@,
        CommandId::InstallGrub => "\nGRUB installed to the EFI partition.\n"@,
        CommandId::ConfigureGrub => "\nGRUB configuration generated.\n"@,
        CommandId::ExitChroot => "\nExited from chroot.\n"@,
        CommandId::UnmountAll => "\nPartitions unmounted.\n"@,
        CommandId::Reboot => "\nSystem rebooting...\n"@,
    }
}

pub fn output_text(id: CommandId, username: &str, desktop: DesktopEnvironment) -> (r: String)
    ensures
        r@ == output_text_spec(id, username@, desktop),
{
    match id {
        CommandId::ShowInterfaces => String::from_str(
            "\n1: wlan0: <NO-CARRIER,BROADCAST,MULTICAST,UP> mtu 1500 qdisc noqueue state DOWN group default qlen 1000\n    link/ether XX:XX:XX:XX:XX:XX brd ff:ff:ff:ff:ff:ff\n",
        ),
        CommandId::ScanNetworks => String::from_str(
            "\n                               Available networks\n--------------------------------------------------------------------------------\n      Network name                  Security            Signal\n--------------------------------------------------------------------------------\n      archtry_wifi                    NULL               ****\n",
        ),
        CommandId::ConnectWifi => String::from_str("\nConnected to archtry_wifi.\n"),
        CommandId::ShowDisks => String::from_str(
            "\nNAME        MAJ:MIN RM   SIZE RO TYPE MOUNTPOINTS\nsdz         259:0   0   50.0G  0 disk\n",
        ),
        CommandId::CreatePartitions => String::from_str("\nCreating partitions...\n"),
        CommandId::FormatEfi => String::from_str("\nFormatting EFI partition...\n"),
        CommandId::FormatRoot => String::from_str("\nFormatting root partition...\n"),
        CommandId::MountRoot => String::from_str("\nRoot partition mounted.\n"),
        CommandId::MountEfi => String::from_str("\nEFI partition mounted.\n"),
        CommandId::InstallBase => String::from_str(""),
        CommandId::GenerateFstab => String::from_str("\nfstab generated.\n"),
        CommandId::EnterChroot => String::from_str("\nChrooted into the system.\n"),
        CommandId::CreateUser => {
            let mut r = String::from_str("\nUser '");
            r.append(username);
            r.append("' created and added to the wheel group.\n");
            r
        },
        CommandId::InstallDesktop => {
            let mut r = String::from_str("\n");
            let label = desktop.label();
            r.append(label.as_str());
            r.append(" installed.\n");
            r
        },
        CommandId::InstallGrub => String::from_str("\nGRUB installed to the EFI partition.\n"),
        CommandId::ConfigureGrub => String::from_str("\nGRUB configuration generated.\n"),
        CommandId::ExitChroot => String::from_str("\nExited from chroot.\n"),
        CommandId::UnmountAll => String::from_str("\nPartitions unmounted.\n"),
        CommandId::Reboot => String::from_str("\nSystem rebooting...\n"),
    }
}

} // verus!
