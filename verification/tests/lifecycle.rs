use qemuctl::command::{Action, LifecycleError};
use qemuctl::lifecycle::{
    after_enumerate, after_terminate, create_request, create_vm, create_vm_with, delete_vm,
    delete_vm_with, first_boot, list_defined_vms, start_vm, stop_vm, CreateRequest,
};
use qemuctl::path::expand_path;
use qemuctl::record::{VMConfig, VMInfo};

fn words(list: &[&str]) -> Vec<String> {
    list.iter().map(|w| w.to_string()).collect()
}

fn request(name: &str, memory: &str, disk_size: &str, threads: &str, iso: &str) -> CreateRequest {
    CreateRequest {
        name: name.to_string(),
        memory: memory.to_string(),
        disk_size: disk_size.to_string(),
        threads: threads.to_string(),
        iso: iso.to_string(),
    }
}

#[test]
fn create_without_medium_stores_record_and_launches_nothing() {
    let mut store = VMConfig::new();
    let plan = create_vm_with(&mut store, Some("/home/u"), &request("vm1", "2G", "5G", "2", ""));
    let expected = VMInfo {
        name: "vm1".to_string(),
        memory: "2G".to_string(),
        cpu: "host".to_string(),
        threads: "2".to_string(),
        disk: "/home/u/vms/vm1/vm1.qcow2".to_string(),
        iso: String::new(),
    };
    assert_eq!(store.get("vm1"), Some(&expected));
    assert_eq!(
        plan,
        vec![
            Action::MakeDir("/home/u/vms".to_string()),
            Action::MakeDir("/home/u/vms/vm1".to_string()),
            Action::CreateImage(words(&["create", "-f", "qcow2", "/home/u/vms/vm1/vm1.qcow2", "5G"])),
            Action::Persist,
        ]
    );
    assert_eq!(first_boot(store.get("vm1").unwrap(), false), None);
    assert_eq!(first_boot(store.get("vm1").unwrap(), true), None);
}

#[test]
fn create_without_known_home_keeps_the_marker() {
    let mut store = VMConfig::new();
    create_vm_with(&mut store, None, &request("vm1", "2G", "5G", "2", ""));
    assert_eq!(store.get("vm1").unwrap().disk, "~/vms/vm1/vm1.qcow2");
}

#[test]
fn create_with_medium_headless_launches_with_boot_override() {
    let mut store = VMConfig::new();
    let plan =
        create_vm_with(&mut store, Some("/home/u"), &request("vm2", "4G", "10G", "1", "/iso/x.iso"));
    assert_eq!(plan.last(), Some(&Action::Persist));
    let vm = store.get("vm2").unwrap();
    assert_eq!(vm.iso, "/iso/x.iso");
    let step = first_boot(vm, true);
    assert_eq!(
        step,
        Some(Action::Launch(
            "setsid qemu-system-x86_64 -name vm2 -m 4G -cpu host -smp 1 -enable-kvm -drive file=/home/u/vms/vm2/vm2.qcow2,format=qcow2 -cdrom /iso/x.iso -boot order=d -display none > /dev/null 2>&1 &"
                .to_string()
        ))
    );
    assert!(store.contains("vm2"));
}

#[test]
fn create_with_medium_in_gui_mode_has_no_display_flag() {
    let mut store = VMConfig::new();
    create_vm_with(&mut store, Some("/home/u"), &request("vm2", "4G", "10G", "1", "~/iso/x.iso"));
    let vm = store.get("vm2").unwrap();
    assert_eq!(vm.iso, "/home/u/iso/x.iso");
    match first_boot(vm, false) {
        Some(Action::Launch(line)) => {
            assert!(!line.contains("-display none"));
            assert!(line.contains("-cdrom /home/u/iso/x.iso -boot order=d"));
        }
        other => panic!("unexpected step: {:?}", other),
    }
}

#[test]
fn second_create_under_same_name_wins() {
    let mut store = VMConfig::new();
    create_vm_with(&mut store, Some("/home/u"), &request("vm1", "2G", "5G", "2", ""));
    create_vm_with(&mut store, Some("/home/u"), &request("vm1", "8G", "5G", "2", ""));
    assert_eq!(store.len(), 1);
    assert_eq!(store.get("vm1").unwrap().memory, "8G");
}

#[test]
fn create_against_current_home_agrees_with_expand_path() {
    let mut store = VMConfig::new();
    let plan = create_vm(&mut store, &request("vm1", "2G", "5G", "2", ""));
    assert_eq!(plan.len(), 4);
    assert_eq!(plan[0], Action::MakeDir(expand_path("~/vms")));
    let vm = store.get("vm1").unwrap();
    assert_eq!(vm.name, "vm1");
    assert_eq!(vm.memory, "2G");
    assert_eq!(vm.cpu, "host");
    assert_eq!(vm.threads, "2");
    assert!(vm.disk.ends_with("/vms/vm1/vm1.qcow2"));
}

#[test]
fn request_defaults() {
    assert_eq!(create_request("n", "", "", "", ""), request("n", "4G", "10G", "1", ""));
    assert_eq!(
        create_request("n", "2G", "5G", "2", "/i.iso"),
        request("n", "2G", "5G", "2", "/i.iso")
    );
}

#[test]
fn start_of_defined_machine_launches_it() {
    let mut store = VMConfig::new();
    create_vm_with(&mut store, Some("/h"), &request("vm1", "2G", "5G", "2", "/iso/x.iso"));
    assert_eq!(
        start_vm(&store, "vm1", true),
        Ok(Action::Launch(
            "setsid qemu-system-x86_64 -name vm1 -m 2G -cpu host -smp 2 -enable-kvm -drive file=/h/vms/vm1/vm1.qcow2,format=qcow2 -display none > /dev/null 2>&1 &"
                .to_string()
        ))
    );
    assert_eq!(
        start_vm(&store, "vm1", false),
        Ok(Action::Launch(
            "setsid qemu-system-x86_64 -name vm1 -m 2G -cpu host -smp 2 -enable-kvm -drive file=/h/vms/vm1/vm1.qcow2,format=qcow2  > /dev/null 2>&1 &"
                .to_string()
        ))
    );
}

#[test]
fn start_of_undefined_machine_is_not_found() {
    let store = VMConfig::new();
    assert_eq!(start_vm(&store, "ghost", false), Err(LifecycleError::NotFound));
    assert_eq!(start_vm(&store, "ghost", true), Err(LifecycleError::NotFound));
}

#[test]
fn stop_asks_politely_first() {
    let mut store = VMConfig::new();
    create_vm_with(&mut store, Some("/h"), &request("web", "2G", "5G", "2", ""));
    assert_eq!(
        stop_vm(&store, "web"),
        Ok(Action::Terminate("qemu-system-x86_64 -name web".to_string()))
    );
    assert_eq!(store.len(), 1);
}

#[test]
fn stop_of_undefined_machine_is_not_found() {
    let store = VMConfig::new();
    assert_eq!(stop_vm(&store, "web"), Err(LifecycleError::NotFound));
}

#[test]
fn stop_falls_back_only_when_request_could_not_be_made() {
    assert_eq!(after_terminate("web", true), None);
    assert_eq!(
        after_terminate("web", false),
        Some(Action::Enumerate("qemu-system-x86_64 -name web".to_string()))
    );
}

#[test]
fn fallback_kills_each_listed_process() {
    assert_eq!(
        after_enumerate(Some("101\n202\n")),
        vec![Action::ForceKill("101".to_string()), Action::ForceKill("202".to_string())]
    );
    assert!(after_enumerate(Some("")).is_empty());
    assert!(after_enumerate(None).is_empty());
}

#[test]
fn delete_of_undefined_machine_is_not_found_and_changes_nothing() {
    let mut store = VMConfig::new();
    create_vm_with(&mut store, Some("/h"), &request("vm1", "2G", "5G", "2", ""));
    assert_eq!(
        delete_vm_with(&mut store, Some("/h"), "other", false),
        Err(LifecycleError::NotFound)
    );
    assert_eq!(delete_vm_with(&mut store, Some("/h"), "other", true), Err(LifecycleError::NotFound));
    assert_eq!(store.len(), 1);
    assert_eq!(store.get("vm1").unwrap().memory, "2G");
}

#[test]
fn delete_after_create_removes_record_and_artifacts() {
    let mut store = VMConfig::new();
    create_vm_with(&mut store, Some("/h"), &request("vm1", "2G", "5G", "2", ""));
    create_vm_with(&mut store, Some("/h"), &request("vm2", "2G", "5G", "2", ""));
    let plan = delete_vm_with(&mut store, Some("/h"), "vm1", false);
    assert_eq!(
        plan,
        Ok(vec![
            Action::RemoveFile("/h/vms/vm1/vm1.qcow2".to_string()),
            Action::RemoveDir("/h/vms/vm1".to_string()),
            Action::Persist,
        ])
    );
    assert!(store.get("vm1").is_none());
    assert!(store.contains("vm2"));
    assert_eq!(store.len(), 1);
}

#[test]
fn delete_of_running_machine_stops_it_first() {
    let mut store = VMConfig::new();
    create_vm_with(&mut store, Some("/h"), &request("vm1", "2G", "5G", "2", ""));
    let plan = delete_vm_with(&mut store, Some("/h"), "vm1", true);
    assert_eq!(
        plan,
        Ok(vec![
            Action::Terminate("qemu-system-x86_64 -name vm1".to_string()),
            Action::RemoveFile("/h/vms/vm1/vm1.qcow2".to_string()),
            Action::RemoveDir("/h/vms/vm1".to_string()),
            Action::Persist,
        ])
    );
    assert_eq!(store.len(), 0);
}

#[test]
fn delete_against_current_home() {
    let mut store = VMConfig::new();
    create_vm(&mut store, &request("vm1", "2G", "5G", "2", ""));
    let disk = store.get("vm1").unwrap().disk.clone();
    let plan = delete_vm(&mut store, "vm1", false).unwrap();
    assert_eq!(plan.len(), 3);
    assert_eq!(plan[0], Action::RemoveFile(disk));
    assert_eq!(plan[2], Action::Persist);
    assert!(store.get("vm1").is_none());
    assert_eq!(delete_vm(&mut store, "vm1", false), Err(LifecycleError::NotFound));
}

#[test]
fn listing_has_one_line_for_each_machine() {
    let mut store = VMConfig::new();
    assert!(list_defined_vms(&store).is_empty());
    create_vm_with(&mut store, Some("/h"), &request("a", "2G", "5G", "2", ""));
    create_vm_with(&mut store, Some("/h"), &request("b", "1G", "5G", "1", ""));
    assert_eq!(
        list_defined_vms(&store),
        words(&[
            "- a: host CPU, 2 threads, 2G RAM, Disk: /h/vms/a/a.qcow2",
            "- b: host CPU, 1 threads, 1G RAM, Disk: /h/vms/b/b.qcow2",
        ])
    );
}
