use archtry::models::{Config, DesktopEnvironment, DeviceType, GpuType, PromptContext, UserChoices};

#[test]
fn gpu_selection_indices_are_total() {
    assert_eq!(GpuType::from_index(0), Some(GpuType::Amd));
    assert_eq!(GpuType::from_index(1), Some(GpuType::Intel));
    assert_eq!(GpuType::from_index(2), Some(GpuType::Nvidia));
    assert_eq!(GpuType::from_index(3), None);
    assert_eq!(GpuType::from_index(usize::MAX), None);
}

#[test]
fn device_selection_indices_are_total() {
    assert_eq!(DeviceType::from_index(0), Some(DeviceType::Laptop));
    assert_eq!(DeviceType::from_index(1), Some(DeviceType::Pc));
    assert_eq!(DeviceType::from_index(2), None);
}

#[test]
fn desktop_selection_indices_are_total() {
    assert_eq!(DesktopEnvironment::from_index(0), Some(DesktopEnvironment::Gnome));
    assert_eq!(DesktopEnvironment::from_index(1), Some(DesktopEnvironment::Plasma));
    assert_eq!(DesktopEnvironment::from_index(2), Some(DesktopEnvironment::Hyprland));
    assert_eq!(DesktopEnvironment::from_index(3), None);
}

#[test]
fn labels_match_the_option_lists() {
    assert_eq!(GpuType::Amd.label().as_str(), "AMD");
    assert_eq!(GpuType::Intel.label().as_str(), "Intel");
    assert_eq!(GpuType::Nvidia.label().as_str(), "NVIDIA");
    assert_eq!(DeviceType::Laptop.label().as_str(), "Laptop");
    assert_eq!(DeviceType::Pc.label().as_str(), "PC");
    assert_eq!(DesktopEnvironment::Gnome.label().as_str(), "GNOME");
    assert_eq!(DesktopEnvironment::Plasma.label().as_str(), "Plasma");
    assert_eq!(DesktopEnvironment::Hyprland.label().as_str(), "Hyprland");
}

#[test]
fn packages_match_the_domains() {
    assert_eq!(GpuType::Amd.package().as_str(), "amd-ucode");
    assert_eq!(GpuType::Intel.package().as_str(), "intel-ucode");
    assert_eq!(GpuType::Nvidia.package().as_str(), "nvidia");
    assert_eq!(DesktopEnvironment::Gnome.package().as_str(), "gnome");
    assert_eq!(DesktopEnvironment::Plasma.package().as_str(), "plasma");
    assert_eq!(DesktopEnvironment::Hyprland.package().as_str(), "hyprland");
}

#[test]
fn choices_and_config_keep_their_fields() {
    let choices = UserChoices::new(GpuType::Nvidia, DeviceType::Laptop);
    assert_eq!(choices.gpu_type, GpuType::Nvidia);
    assert_eq!(choices.device_type, DeviceType::Laptop);

    assert!(Config::new(true).show_hints);
    assert!(!Config::new(false).show_hints);

    let ctx = PromptContext::new(true);
    assert!(!ctx.in_chroot);
    assert!(ctx.hints_enabled);
}
