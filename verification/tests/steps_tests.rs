use archtry::models::{DesktopEnvironment, GpuType};
use archtry::progress::{base_install_progress, desktop_install_progress, tick_positions};
use archtry::steps::{
    base_install_command, command_text, contains_subseq, create_user_command,
    install_desktop_command, output_text, CommandId,
};

#[test]
fn base_install_command_per_gpu() {
    assert_eq!(
        base_install_command(GpuType::Amd).as_str(),
        "pacstrap -K /mnt base base-devel linux linux-firmware amd-ucode grub"
    );
    assert_eq!(
        base_install_command(GpuType::Intel).as_str(),
        "pacstrap -K /mnt base base-devel linux linux-firmware intel-ucode grub"
    );
    assert_eq!(
        base_install_command(GpuType::Nvidia).as_str(),
        "pacstrap -K /mnt base base-devel linux linux-firmware nvidia grub"
    );
}

#[test]
fn base_install_command_contains_exactly_the_mapped_package() {
    let gpus = [GpuType::Amd, GpuType::Intel, GpuType::Nvidia];
    let packages = ["amd-ucode", "intel-ucode", "nvidia"];
    for (i, gpu) in gpus.iter().enumerate() {
        let cmd = base_install_command(*gpu);
        for (j, package) in packages.iter().enumerate() {
            assert_eq!(
                contains_subseq(cmd.as_str(), package),
                i == j,
                "command {:?} vs package {:?}",
                cmd,
                package
            );
        }
    }
}

#[test]
fn contains_subseq_finds_runs_of_characters() {
    assert!(contains_subseq("hello world", "lo w"));
    assert!(contains_subseq("hello", "hello"));
    assert!(contains_subseq("hello", ""));
    assert!(!contains_subseq("hello", "helloo"));
    assert!(!contains_subseq("abc", "abd"));
    assert!(!contains_subseq("ab", "abc"));
}

#[test]
fn user_dependent_commands() {
    assert_eq!(create_user_command("alice").as_str(), "useradd -mG wheel alice");
    assert_eq!(
        install_desktop_command(DesktopEnvironment::Hyprland).as_str(),
        "pacman -S hyprland"
    );
    assert_eq!(install_desktop_command(DesktopEnvironment::Gnome).as_str(), "pacman -S gnome");
    assert_eq!(install_desktop_command(DesktopEnvironment::Plasma).as_str(), "pacman -S plasma");
}

#[test]
fn fixed_commands_spot_checks() {
    let d = DesktopEnvironment::Gnome;
    assert_eq!(command_text(CommandId::ShowDisks, GpuType::Amd, "", d).as_str(), "lsblk");
    assert_eq!(
        command_text(CommandId::MountEfi, GpuType::Amd, "", d).as_str(),
        "mount --mkdir /dev/sdz1 /mnt/boot/efi"
    );
    assert_eq!(
        command_text(CommandId::GenerateFstab, GpuType::Amd, "", d).as_str(),
        "genfstab -U /mnt >> /mnt/etc/fstab"
    );
    assert_eq!(
        command_text(CommandId::InstallGrub, GpuType::Amd, "", d).as_str(),
        "grub-install --target=x86_64-efi --efi-directory=/boot/efi --bootloader-id=GRUB"
    );
    assert_eq!(command_text(CommandId::ExitChroot, GpuType::Amd, "", d).as_str(), "exit");
    assert_eq!(command_text(CommandId::Reboot, GpuType::Amd, "", d).as_str(), "reboot");
}

#[test]
fn outputs_carry_the_collected_names() {
    assert_eq!(
        output_text(CommandId::CreateUser, "alice", DesktopEnvironment::Gnome).as_str(),
        "\nUser 'alice' created and added to the wheel group.\n"
    );
    assert_eq!(
        output_text(CommandId::InstallDesktop, "", DesktopEnvironment::Plasma).as_str(),
        "\nPlasma installed.\n"
    );
}

#[test]
fn progress_tick_counts_match_the_steps() {
    let base = base_install_progress();
    assert_eq!(base.total_ticks, 10);
    assert_eq!(base.message.as_str(), "Installing base system and GRUB...");
    assert_eq!(base.done_message.as_str(), "Base system and GRUB installed successfully.");

    let desktop = desktop_install_progress(DesktopEnvironment::Gnome);
    assert_eq!(desktop.total_ticks, 7);
    assert_eq!(desktop.message.as_str(), "Installing GNOME...");
    assert_eq!(desktop.done_message.as_str(), "GNOME installed successfully.");
}

#[test]
fn tick_positions_count_up_from_zero() {
    assert_eq!(tick_positions(5), vec![0, 1, 2, 3, 4]);
    assert_eq!(tick_positions(0), Vec::<u64>::new());
    assert_eq!(tick_positions(10).len(), 10);
}
