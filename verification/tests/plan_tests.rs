use archtry::engine::{build_plan, NoteId, PlanItem};
use archtry::models::{DeviceType, GpuType, UserChoices};
use archtry::steps::CommandId;

fn laptop_choices() -> UserChoices {
    UserChoices::new(GpuType::Intel, DeviceType::Laptop)
}

fn pc_choices() -> UserChoices {
    UserChoices::new(GpuType::Amd, DeviceType::Pc)
}

fn partition_header_index(plan: &[PlanItem]) -> usize {
    plan.iter()
        .position(|item| *item == PlanItem::Note(NoteId::PartitionHeader))
        .expect("partitioning header missing")
}

#[test]
fn laptop_gets_three_wifi_steps_before_partitioning() {
    let plan = build_plan(&laptop_choices());
    assert_eq!(plan.len(), 39);
    assert_eq!(plan[5], PlanItem::Command(CommandId::ShowInterfaces));
    assert_eq!(plan[6], PlanItem::Command(CommandId::ScanNetworks));
    assert_eq!(plan[7], PlanItem::Command(CommandId::ConnectWifi));
    assert_eq!(partition_header_index(&plan), 8);
}

#[test]
fn laptop_plan_has_no_lan_notice() {
    let plan = build_plan(&laptop_choices());
    assert!(plan.iter().all(|item| *item != PlanItem::Note(NoteId::LanNotice)));
}

#[test]
fn pc_gets_exactly_one_lan_notice_before_partitioning() {
    let plan = build_plan(&pc_choices());
    assert_eq!(plan.len(), 35);
    let notices: Vec<usize> = plan
        .iter()
        .enumerate()
        .filter(|(_, item)| **item == PlanItem::Note(NoteId::LanNotice))
        .map(|(i, _)| i)
        .collect();
    assert_eq!(notices, vec![3]);
    assert!(notices[0] < partition_header_index(&plan));
}

#[test]
fn pc_plan_has_no_wifi_steps() {
    let plan = build_plan(&pc_choices());
    for item in &plan {
        assert_ne!(*item, PlanItem::Command(CommandId::ShowInterfaces));
        assert_ne!(*item, PlanItem::Command(CommandId::ScanNetworks));
        assert_ne!(*item, PlanItem::Command(CommandId::ConnectWifi));
    }
}

#[test]
fn both_plans_share_the_install_tail() {
    let laptop = build_plan(&laptop_choices());
    let pc = build_plan(&pc_choices());
    assert_eq!(&laptop[8..], &pc[4..]);
    assert_eq!(*laptop.last().unwrap(), PlanItem::Note(NoteId::Complete));
    assert_eq!(*pc.last().unwrap(), PlanItem::Note(NoteId::Complete));
}

#[test]
fn chroot_session_sits_between_entry_and_exit() {
    let plan = build_plan(&pc_choices());
    let enter = plan
        .iter()
        .position(|item| *item == PlanItem::Command(CommandId::EnterChroot))
        .unwrap();
    let exit = plan
        .iter()
        .position(|item| *item == PlanItem::Command(CommandId::ExitChroot))
        .unwrap();
    assert_eq!(enter, 4 + 18);
    assert_eq!(exit, 4 + 27);
    assert!(enter < exit);
    // everything strictly between them is part of the chroot session
    for item in &plan[enter + 1..exit] {
        match item {
            PlanItem::Command(id) => assert!(matches!(
                id,
                CommandId::CreateUser
                    | CommandId::InstallDesktop
                    | CommandId::InstallGrub
                    | CommandId::ConfigureGrub
            )),
            PlanItem::SetPassword(_) | PlanItem::AskUsername | PlanItem::ChooseDesktop => {},
            other => panic!("unexpected item inside the chroot session: {:?}", other),
        }
    }
}
