//! The lifecycle of a machine: create, start, stop, delete.
//!
//! Each operation consults the registry, updates it where the operation
//! changes it, and answers with the steps that the caller is to carry out in
//! order.  Whether a machine runs is never stored: it is asked of the process
//! table each time.

use vstd::prelude::*;
use crate::command::{
    describe, first_boot_line, first_boot_text, image_args, image_args_text, launch_text,
    listing_text, plan_of, start_vm_common, texts, Action, ActionView, LifecycleError,
};
use crate::path::{
    disk_path_text, disk_path_with, expand_with, expanded, home_dir, text_of,
    vm_dir_text, vm_dir_with, vm_folder_text, vm_folder_with,
};
use crate::process::{find_pids, force_kill_plan, kill_plan, pattern_text, pids_text, process_pattern};
use crate::record::{VMConfig, VMInfo, VMInfoView};

verus! {

/// What the caller supplies to define a machine.
#[derive(Debug, PartialEq, Eq)]
pub struct CreateRequest {
    pub name: String,
    pub memory: String,
    pub disk_size: String,
    pub threads: String,
    pub iso: String,
}

/// A `CreateRequest` as mathematical text.
pub struct CreateRequestView {
    pub name: Seq<char>,
    pub memory: Seq<char>,
    pub disk_size: Seq<char>,
    pub threads: Seq<char>,
    pub iso: Seq<char>,
}

impl View for CreateRequest {
    type V = CreateRequestView;

    open spec fn view(&self) -> CreateRequestView {
        CreateRequestView {
            name: self.name@,
            memory: self.memory@,
            disk_size: self.disk_size@,
            threads: self.threads@,
            iso: self.iso@,
        }
    }
}

/// An answer, or the fallback where the answer is empty.
pub open spec fn or_default_text(answer: Seq<char>, fallback: Seq<char>) -> Seq<char> {
    if answer.len() == 0 {
        fallback
    } else {
        answer
    }
}

/// The request that a caller's answers amount to: an empty answer stands for
/// 4G of memory, a disk of 10G and one thread.
pub open spec fn request_text(
    name: Seq<char>,
    memory: Seq<char>,
    disk_size: Seq<char>,
    threads: Seq<char>,
    iso: Seq<char>,
) -> CreateRequestView {
    CreateRequestView {
        name,
        memory: or_default_text(memory, "4G"@),
        disk_size: or_default_text(disk_size, "10G"@),
        threads: or_default_text(threads, "1"@),
        iso,
    }
}

/// The record that a request defines: the request's own texts, the CPU model
/// `host`, the machine's disk image under its directory, and the boot medium
/// with its path expanded.
pub open spec fn created_record(req: CreateRequestView, home: Option<Seq<char>>) -> VMInfoView {
    VMInfoView {
        name: req.name,
        memory: req.memory,
        cpu: "host"@,
        threads: req.threads,
        disk: disk_path_text(home, req.name),
        iso: expanded(req.iso, home),
    }
}

/// The steps of a create, in order: the base directory, the machine's
/// directory, the disk image, the registry.
pub open spec fn create_plan(req: CreateRequestView, home: Option<Seq<char>>) -> Seq<ActionView> {
    seq![
        ActionView::MakeDir(vm_folder_text(home)),
        ActionView::MakeDir(vm_dir_text(home, req.name)),
        ActionView::CreateImage(image_args_text(disk_path_text(home, req.name), req.disk_size)),
        ActionView::Persist,
    ]
}

/// The first launch of a machine, where it has a boot medium.
pub open spec fn first_boot_plan(vm: VMInfoView, headless: bool) -> Option<ActionView> {
    if vm.iso.len() > 0 {
        Some(ActionView::Launch(first_boot_text(vm, headless)))
    } else {
        None
    }
}

/// The steps of a delete, in order: stop the machine where it appears to
/// run, remove its disk image and its directory, write the registry.
pub open spec fn delete_plan(
    vm: VMInfoView,
    home: Option<Seq<char>>,
    running: bool,
) -> Seq<ActionView> {
    let rest = seq![
        ActionView::RemoveFile(vm.disk),
        ActionView::RemoveDir(vm_dir_text(home, vm.name)),
        ActionView::Persist,
    ];
    if running {
        seq![ActionView::Terminate(pattern_text(vm.name))] + rest
    } else {
        rest
    }
}

/// The view of an optional action.
pub open spec fn step_of(step: Option<Action>) -> Option<ActionView> {
    match step {
        Some(a) => Some(a@),
        None => None,
    }
}

fn or_default(answer: &str, fallback: &str) -> (text: String)
    ensures
        text@ == or_default_text(answer@, fallback@),
{
    if answer.unicode_len() == 0 {
        String::from_str(fallback)
    } else {
        String::from_str(answer)
    }
}

/// Builds a request from a caller's answers, filling in the defaults for
/// those left empty.
pub fn create_request(name: &str, memory: &str, disk_size: &str, threads: &str, iso: &str) -> (req:
    CreateRequest)
    ensures
        req@ == request_text(name@, memory@, disk_size@, threads@, iso@),
{
    CreateRequest {
        name: String::from_str(name),
        memory: or_default(memory, "4G"),
        disk_size: or_default(disk_size, "10G"),
        threads: or_default(threads, "1"),
        iso: String::from_str(iso),
    }
}

/// Defines a machine against the given home directory.  The record is stored under the request's name,
/// replacing any earlier definition of that name, and the answer lists what
/// is to be done on disk before the registry is written.  That the disk image
/// could not be created does not undo the definition.
pub fn create_vm_with(config: &mut VMConfig, home: Option<&str>, req: &CreateRequest) -> (plan:
    Vec<Action>)
    requires
        old(config).wf(),
        req.name@.len() > 0,
    ensures
        final(config).wf(),
        final(config)@ == old(config)@.insert(req.name@, created_record(req@, text_of(home))),
        plan_of(plan@) == create_plan(req@, text_of(home)),
{
    let name = req.name.as_str();
    let folder = vm_folder_with(home);
    let vm_dir = vm_dir_with(home, name);
    let disk = disk_path_with(home, name);
    let args = image_args(disk.as_str(), req.disk_size.as_str());
    let record = VMInfo {
        name: req.name.clone(),
        memory: req.memory.clone(),
        cpu: String::from_str("host"),
        threads: req.threads.clone(),
        disk,
        iso: expand_with(req.iso.as_str(), home),
    };
    config.insert(record);
    let mut plan: Vec<Action> = Vec::new();
    plan.push(Action::MakeDir(folder));
    plan.push(Action::MakeDir(vm_dir));
    plan.push(Action::CreateImage(args));
    plan.push(Action::Persist);
    assert(plan_of(plan@) =~= create_plan(req@, text_of(home)));
    plan
}

/// The launch that follows a create: a machine with a boot medium is started
/// from it at once, a machine without one is not started.
pub fn first_boot(vm: &VMInfo, headless: bool) -> (step: Option<Action>)
    ensures
        step_of(step) == first_boot_plan(vm@, headless),
{
    if vm.iso.as_str().unicode_len() > 0 {
        Some(Action::Launch(first_boot_line(vm, headless)))
    } else {
        None
    }
}

/// Starts the machine `name`: the answer is the launch of its stored
/// definition, or `NotFound`, and then nothing is to be launched.  Whether the
/// machine already runs is not asked.
pub fn start_vm(config: &VMConfig, name: &str, headless: bool) -> (step: Result<
    Action,
    LifecycleError,
>)
    requires
        config.wf(),
    ensures
        match step {
            Ok(a) => config@.contains_key(name@) && a@ == ActionView::Launch(
                launch_text(config@[name@], headless),
            ),
            Err(e) => !config@.contains_key(name@) && e == LifecycleError::NotFound,
        },
{
    match config.get(name) {
        Some(vm) => Ok(Action::Launch(start_vm_common(vm, headless))),
        None => Err(LifecycleError::NotFound),
    }
}

/// Stops the machine `name`: the answer is the polite request to terminate
/// its processes, or `NotFound`.  The registry is not touched.
pub fn stop_vm(config: &VMConfig, name: &str) -> (step: Result<Action, LifecycleError>)
    ensures
        match step {
            Ok(a) => config@.contains_key(name@) && a@ == ActionView::Terminate(
                pattern_text(name@),
            ),
            Err(e) => !config@.contains_key(name@) && e == LifecycleError::NotFound,
        },
{
    if config.contains(name) {
        Ok(Action::Terminate(process_pattern(name)))
    } else {
        Err(LifecycleError::NotFound)
    }
}

/// What follows the polite request for the machine `name`.  Where the request
/// was made, the stop has succeeded and nothing follows.  Where it could not
/// be made at all, the stop has not succeeded, and the processes are to be
/// enumerated so that each can be killed.
pub fn after_terminate(name: &str, invoked: bool) -> (step: Option<Action>)
    ensures
        step_of(step) == if invoked {
            None
        } else {
            Some(ActionView::Enumerate(pattern_text(name@)))
        },
{
    if invoked {
        None
    } else {
        Some(Action::Enumerate(process_pattern(name)))
    }
}

/// What follows the enumeration: one unconditional kill for each process
/// listed, and none where the listing could not be had.
pub fn after_enumerate(listing: Option<&str>) -> (plan: Vec<Action>)
    ensures
        plan_of(plan@) == kill_plan(pids_text(text_of(listing))),
{
    let pids = find_pids(listing);
    force_kill_plan(&pids)
}

/// Deletes the machine `name` against the given home directory.  `running` says whether a process of the
/// machine appeared alive just before.  On a name that is not defined the
/// answer is `NotFound` and the registry stays as it was.  Otherwise the
/// record leaves the registry, and the answer lists the steps that stop the
/// machine where it runs, remove its disk image and its directory, and write
/// the registry; a removal that fails does not keep the registry from being
/// written.
pub fn delete_vm_with(config: &mut VMConfig, home: Option<&str>, name: &str, running: bool) -> (plan:
    Result<Vec<Action>, LifecycleError>)
    requires
        old(config).wf(),
    ensures
        final(config).wf(),
        !final(config)@.contains_key(name@),
        match plan {
            Ok(steps) => {
                &&& old(config)@.contains_key(name@)
                &&& final(config)@ == old(config)@.remove(name@)
                &&& plan_of(steps@) == delete_plan(old(config)@[name@], text_of(home), running)
            },
            Err(e) => {
                &&& !old(config)@.contains_key(name@)
                &&& e == LifecycleError::NotFound
                &&& final(config)@ == old(config)@
            },
        },
{
    match config.remove(name) {
        Some(vm) => {
            let mut steps: Vec<Action> = Vec::new();
            if running {
                steps.push(Action::Terminate(process_pattern(name)));
            }
            steps.push(Action::RemoveFile(vm.disk));
            steps.push(Action::RemoveDir(vm_dir_with(home, name)));
            steps.push(Action::Persist);
            assert(plan_of(steps@) =~= delete_plan(old(config)@[name@], text_of(home), running));
            Ok(steps)
        },
        None => Err(LifecycleError::NotFound),
    }
}

/// The lines under which the defined machines appear in a listing.
pub open spec fn listing_lines(entries: Seq<VMInfo>) -> Seq<Seq<char>> {
    entries.map_values(|vm: VMInfo| listing_text(vm@))
}

/// One line of description for every defined machine.
pub fn list_defined_vms(config: &VMConfig) -> (lines: Vec<String>)
    ensures
        texts(lines@) == listing_lines(config.entries()),
{
    let all = config.records();
    let mut lines: Vec<String> = Vec::new();
    let mut i: usize = 0;
    while i < all.len()
        invariant
            i <= all@.len(),
            lines@.len() == i,
            forall|j: int| 0 <= j < i ==> (#[trigger] lines@[j])@ == listing_text(all@[j]@),
        decreases all@.len() - i,
    {
        lines.push(describe(&all[i]));
        i += 1;
    }
    assert(texts(lines@) =~= listing_lines(all@));
    lines
}

/// What a create against `home` makes of a registry: the new registry and the
/// steps.
pub open spec fn create_holds(
    before: Map<Seq<char>, VMInfoView>,
    after: Map<Seq<char>, VMInfoView>,
    plan: Seq<ActionView>,
    req: CreateRequestView,
    home: Option<Seq<char>>,
) -> bool {
    &&& after == before.insert(req.name, created_record(req, home))
    &&& plan == create_plan(req, home)
}

/// What a delete against `home` makes of a registry that defines `name`.
pub open spec fn delete_holds(
    before: Map<Seq<char>, VMInfoView>,
    after: Map<Seq<char>, VMInfoView>,
    plan: Seq<ActionView>,
    name: Seq<char>,
    home: Option<Seq<char>>,
    running: bool,
) -> bool {
    &&& after == before.remove(name)
    &&& plan == delete_plan(before[name], home, running)
}

/// Defines a machine against the current user's home directory, as
/// `create_vm_with` does against a given one.
pub fn create_vm(config: &mut VMConfig, req: &CreateRequest) -> (plan: Vec<Action>)
    requires
        old(config).wf(),
        req.name@.len() > 0,
    ensures
        final(config).wf(),
        exists|home: Option<Seq<char>>|
            create_holds(old(config)@, final(config)@, plan_of(plan@), req@, home),
        final(config)@.contains_key(req.name@),
        final(config)@[req.name@].name == req.name@,
        final(config)@[req.name@].memory == req.memory@,
        final(config)@[req.name@].cpu == "host"@,
        final(config)@[req.name@].threads == req.threads@,
{
    let home = home_dir();
    let plan = match &home {
        Some(h) => create_vm_with(config, Some(h.as_str()), req),
        None => create_vm_with(config, None, req),
    };
    proof {
        let at: Option<Seq<char>> = match home {
            Some(h) => Some(h@),
            None => None,
        };
        assert(create_holds(old(config)@, config@, plan_of(plan@), req@, at));
    }
    plan
}

/// Deletes the machine `name` against the current user's home directory, as
/// `delete_vm_with` does against a given one.
pub fn delete_vm(config: &mut VMConfig, name: &str, running: bool) -> (plan: Result<
    Vec<Action>,
    LifecycleError,
>)
    requires
        old(config).wf(),
    ensures
        final(config).wf(),
        !final(config)@.contains_key(name@),
        match plan {
            Ok(steps) => {
                &&& old(config)@.contains_key(name@)
                &&& exists|home: Option<Seq<char>>|
                    delete_holds(
                        old(config)@,
                        final(config)@,
                        plan_of(steps@),
                        name@,
                        home,
                        running,
                    )
            },
            Err(e) => {
                &&& !old(config)@.contains_key(name@)
                &&& e == LifecycleError::NotFound
                &&& final(config)@ == old(config)@
            },
        },
{
    let home = home_dir();
    let plan = match &home {
        Some(h) => delete_vm_with(config, Some(h.as_str()), name, running),
        None => delete_vm_with(config, None, name, running),
    };
    proof {
        let at: Option<Seq<char>> = match home {
            Some(h) => Some(h@),
            None => None,
        };
        if plan is Ok {
            assert(delete_holds(
                old(config)@,
                config@,
                plan_of(plan->Ok_0@),
                name@,
                at,
                running,
            ));
        }
    }
    plan
}

/// A machine that has been created is found under its name, and its record
/// holds what was supplied: name, memory and thread count as given, the CPU
/// model `host`, the disk image under the machine's directory, and the boot
/// medium with its path expanded.
pub proof fn created_machine_is_found(
    store: Map<Seq<char>, VMInfoView>,
    req: CreateRequestView,
    home: Option<Seq<char>>,
)
    requires
        req.name.len() > 0,
    ensures
        ({
            let after = store.insert(req.name, created_record(req, home));
            &&& after.contains_key(req.name)
            &&& after[req.name].name == req.name
            &&& after[req.name].memory == req.memory
            &&& after[req.name].cpu == "host"@
            &&& after[req.name].threads == req.threads
            &&& after[req.name].disk == disk_path_text(home, req.name)
            &&& after[req.name].iso == expanded(req.iso, home)
            &&& forall|other: Seq<char>|
                other != req.name ==> (after.contains_key(other) == store.contains_key(other))
            &&& forall|other: Seq<char>|
                other != req.name && store.contains_key(other) ==> after[other] == store[other]
        }),
{
}

/// Deleting a machine that has been created succeeds and undoes the create:
/// the name is no longer defined, the other definitions are as they were
/// before the delete, and the steps remove the disk image that the create
/// allocated and the directory that it made.
pub proof fn deleted_machine_is_gone(
    store: Map<Seq<char>, VMInfoView>,
    req: CreateRequestView,
    home: Option<Seq<char>>,
    running: bool,
)
    requires
        req.name.len() > 0,
    ensures
        ({
            let defined = store.insert(req.name, created_record(req, home));
            let after = defined.remove(req.name);
            let steps = delete_plan(defined[req.name], home, running);
            &&& defined.contains_key(req.name)
            &&& !after.contains_key(req.name)
            &&& after == store.remove(req.name)
            &&& !store.contains_key(req.name) ==> after == store
            &&& steps.contains(ActionView::RemoveFile(disk_path_text(home, req.name)))
            &&& steps.contains(ActionView::RemoveDir(vm_dir_text(home, req.name)))
            &&& create_plan(req, home).contains(ActionView::MakeDir(vm_dir_text(home, req.name)))
            &&& steps.last() == ActionView::Persist
        }),
{
    let defined = store.insert(req.name, created_record(req, home));
    let after = defined.remove(req.name);
    let steps = delete_plan(defined[req.name], home, running);
    assert(after =~= store.remove(req.name));
    if !store.contains_key(req.name) {
        assert(after =~= store);
    }
    let shift: int = if running { 1 } else { 0 };
    assert(steps[shift] == ActionView::RemoveFile(disk_path_text(home, req.name)));
    assert(steps[shift + 1] == ActionView::RemoveDir(vm_dir_text(home, req.name)));
    assert(create_plan(req, home)[1] == ActionView::MakeDir(vm_dir_text(home, req.name)));
}

/// Of two creates under one name the second wins: the registry is as if the
/// first had never been made.
pub proof fn last_definition_wins(
    store: Map<Seq<char>, VMInfoView>,
    first: CreateRequestView,
    second: CreateRequestView,
    home: Option<Seq<char>>,
)
    requires
        first.name == second.name,
    ensures
        store.insert(first.name, created_record(first, home)).insert(
            second.name,
            created_record(second, home),
        ) == store.insert(second.name, created_record(second, home)),
{
    assert(store.insert(first.name, created_record(first, home)).insert(
        second.name,
        created_record(second, home),
    ) =~= store.insert(second.name, created_record(second, home)));
}

} // verus!
