use qemuctl::command::{
    argv, describe, failure_of, first_boot_line, image_args, outcome_of, start_vm_common, Action,
    LifecycleError,
};
use qemuctl::process::{any_running, find_pids, force_kill_plan, is_running, process_pattern};
use qemuctl::record::VMInfo;

fn machine(iso: &str) -> VMInfo {
    VMInfo {
        name: "vm2".to_string(),
        memory: "2G".to_string(),
        cpu: "host".to_string(),
        threads: "4".to_string(),
        disk: "/home/u/vms/vm2/vm2.qcow2".to_string(),
        iso: iso.to_string(),
    }
}

fn words(list: &[&str]) -> Vec<String> {
    list.iter().map(|w| w.to_string()).collect()
}

#[test]
fn launch_line_with_display() {
    assert_eq!(
        start_vm_common(&machine(""), false),
        "setsid qemu-system-x86_64 -name vm2 -m 2G -cpu host -smp 4 -enable-kvm -drive file=/home/u/vms/vm2/vm2.qcow2,format=qcow2  > /dev/null 2>&1 &"
    );
}

#[test]
fn launch_line_headless() {
    assert_eq!(
        start_vm_common(&machine(""), true),
        "setsid qemu-system-x86_64 -name vm2 -m 2G -cpu host -smp 4 -enable-kvm -drive file=/home/u/vms/vm2/vm2.qcow2,format=qcow2 -display none > /dev/null 2>&1 &"
    );
}

#[test]
fn first_boot_line_attaches_the_medium() {
    assert_eq!(
        first_boot_line(&machine("/iso/x.iso"), true),
        "setsid qemu-system-x86_64 -name vm2 -m 2G -cpu host -smp 4 -enable-kvm -drive file=/home/u/vms/vm2/vm2.qcow2,format=qcow2 -cdrom /iso/x.iso -boot order=d -display none > /dev/null 2>&1 &"
    );
    assert_eq!(
        first_boot_line(&machine("/iso/x.iso"), false),
        "setsid qemu-system-x86_64 -name vm2 -m 2G -cpu host -smp 4 -enable-kvm -drive file=/home/u/vms/vm2/vm2.qcow2,format=qcow2 -cdrom /iso/x.iso -boot order=d  > /dev/null 2>&1 &"
    );
}

#[test]
fn listing_line() {
    assert_eq!(
        describe(&machine("")),
        "- vm2: host CPU, 4 threads, 2G RAM, Disk: /home/u/vms/vm2/vm2.qcow2"
    );
}

#[test]
fn image_arguments() {
    assert_eq!(
        image_args("/d/a.qcow2", "5G"),
        words(&["create", "-f", "qcow2", "/d/a.qcow2", "5G"])
    );
}

#[test]
fn pattern_holds_the_display_name() {
    assert_eq!(process_pattern("web"), "qemu-system-x86_64 -name web");
    assert_eq!(process_pattern(""), "qemu-system-x86_64 -name ");
}

#[test]
fn patterns_of_prefixed_names_overlap() {
    assert!(process_pattern("web2").contains(&process_pattern("web")));
}

#[test]
fn argv_of_each_tool_step() {
    assert_eq!(
        argv(&Action::CreateImage(image_args("/d/a.qcow2", "5G"))),
        Some(words(&["qemu-img", "create", "-f", "qcow2", "/d/a.qcow2", "5G"]))
    );
    assert_eq!(
        argv(&Action::Launch("echo hi &".to_string())),
        Some(words(&["sh", "-c", "echo hi &"]))
    );
    assert_eq!(
        argv(&Action::Terminate("pat x".to_string())),
        Some(words(&["pkill", "-f", "pat x"]))
    );
    assert_eq!(
        argv(&Action::Enumerate("pat x".to_string())),
        Some(words(&["pgrep", "-f", "pat x"]))
    );
    assert_eq!(argv(&Action::ForceKill("4321".to_string())), Some(words(&["kill", "-9", "4321"])));
}

#[test]
fn argv_of_file_steps_is_none() {
    assert_eq!(argv(&Action::MakeDir("/d".to_string())), None);
    assert_eq!(argv(&Action::RemoveFile("/d/f".to_string())), None);
    assert_eq!(argv(&Action::RemoveDir("/d".to_string())), None);
    assert_eq!(argv(&Action::Persist), None);
    assert_eq!(argv(&Action::CreateImage(Vec::new())), Some(words(&["qemu-img"])));
}

#[test]
fn failures_by_step() {
    assert_eq!(failure_of(&Action::Persist), Some(LifecycleError::PersistFailed));
    assert_eq!(
        failure_of(&Action::Launch(String::new())),
        Some(LifecycleError::ExternalCommandFailed)
    );
    assert_eq!(
        failure_of(&Action::CreateImage(Vec::new())),
        Some(LifecycleError::ExternalCommandFailed)
    );
    assert_eq!(
        failure_of(&Action::Terminate(String::new())),
        Some(LifecycleError::ExternalCommandFailed)
    );
    assert_eq!(
        failure_of(&Action::Enumerate(String::new())),
        Some(LifecycleError::ExternalCommandFailed)
    );
    assert_eq!(
        failure_of(&Action::ForceKill(String::new())),
        Some(LifecycleError::ExternalCommandFailed)
    );
    assert_eq!(failure_of(&Action::MakeDir(String::new())), None);
    assert_eq!(failure_of(&Action::RemoveFile(String::new())), None);
    assert_eq!(failure_of(&Action::RemoveDir(String::new())), None);
}

#[test]
fn only_persist_failure_is_fatal() {
    assert!(LifecycleError::PersistFailed.is_fatal());
    assert!(!LifecycleError::NotFound.is_fatal());
    assert!(!LifecycleError::ExternalCommandFailed.is_fatal());
}

#[test]
fn pids_are_the_lines_of_the_listing() {
    assert_eq!(find_pids(Some("12\n345\n")), words(&["12", "345"]));
    assert_eq!(find_pids(Some("12\r\n345")), words(&["12", "345"]));
    assert_eq!(find_pids(Some("7")), words(&["7"]));
}

#[test]
fn no_pids_without_a_listing() {
    assert!(find_pids(None).is_empty());
    assert!(find_pids(Some("")).is_empty());
}

#[test]
fn running_means_some_pid_listed() {
    assert!(is_running(Some("12\n")));
    assert!(!is_running(Some("")));
    assert!(!is_running(None));
    assert!(any_running(&words(&["1"])));
    assert!(!any_running(&Vec::new()));
}

#[test]
fn one_kill_for_each_pid_in_order() {
    assert_eq!(
        force_kill_plan(&words(&["12", "345"])),
        vec![Action::ForceKill("12".to_string()), Action::ForceKill("345".to_string())]
    );
    assert!(force_kill_plan(&Vec::new()).is_empty());
}

#[test]
fn outcome_of_a_step() {
    let launch = Action::Launch("x".to_string());
    assert_eq!(outcome_of(&launch, true), Ok(()));
    assert_eq!(outcome_of(&launch, false), Err(LifecycleError::ExternalCommandFailed));
    assert_eq!(outcome_of(&Action::Persist, true), Ok(()));
    assert_eq!(outcome_of(&Action::Persist, false), Err(LifecycleError::PersistFailed));
    assert_eq!(outcome_of(&Action::RemoveFile("/f".to_string()), false), Ok(()));
    assert_eq!(outcome_of(&Action::RemoveDir("/d".to_string()), false), Ok(()));
    assert_eq!(
        outcome_of(&Action::Terminate("p".to_string()), false),
        Err(LifecycleError::ExternalCommandFailed)
    );
}
