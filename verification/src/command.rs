//! The external commands that realise lifecycle operations, as data.

use vstd::prelude::*;
use crate::record::{VMInfo, VMInfoView};

verus! {

/// The texts of a sequence of strings.
pub open spec fn texts(v: Seq<String>) -> Seq<Seq<char>> {
    v.map_values(|s: String| s@)
}

/// One step that the caller carries out on the library's behalf.
#[derive(Debug, PartialEq, Eq)]
pub enum Action {
    /// Create the directory, and its parents, unless it exists.
    MakeDir(String),
    /// Run the disk-image tool with these arguments and wait for it; its exit
    /// status is not consulted.
    CreateImage(Vec<String>),
    /// Write the registry to its persisted document.
    Persist,
    /// Hand the line to the shell, detached from the caller.
    Launch(String),
    /// Ask every process whose command line matches the pattern to terminate.
    Terminate(String),
    /// List the identifiers of the processes whose command line matches the
    /// pattern.
    Enumerate(String),
    /// Kill the process with this identifier, unconditionally.
    ForceKill(String),
    /// Remove the file if it is present.
    RemoveFile(String),
    /// Remove the directory and all it holds if it is present.
    RemoveDir(String),
}

/// An `Action` as mathematical text.
pub enum ActionView {
    MakeDir(Seq<char>),
    CreateImage(Seq<Seq<char>>),
    Persist,
    Launch(Seq<char>),
    Terminate(Seq<char>),
    Enumerate(Seq<char>),
    ForceKill(Seq<char>),
    RemoveFile(Seq<char>),
    RemoveDir(Seq<char>),
}

impl View for Action {
    type V = ActionView;

    open spec fn view(&self) -> ActionView {
        match self {
            Action::MakeDir(p) => ActionView::MakeDir(p@),
            Action::CreateImage(a) => ActionView::CreateImage(texts(a@)),
            Action::Persist => ActionView::Persist,
            Action::Launch(c) => ActionView::Launch(c@),
            Action::Terminate(p) => ActionView::Terminate(p@),
            Action::Enumerate(p) => ActionView::Enumerate(p@),
            Action::ForceKill(p) => ActionView::ForceKill(p@),
            Action::RemoveFile(p) => ActionView::RemoveFile(p@),
            Action::RemoveDir(p) => ActionView::RemoveDir(p@),
        }
    }
}

/// The views of a sequence of actions, in order.
pub open spec fn plan_of(actions: Seq<Action>) -> Seq<ActionView> {
    actions.map_values(|a: Action| a@)
}

/// What can go wrong with a lifecycle operation.
#[derive(Debug, Clone, Copy, PartialEq, Eq, Structural)]
pub enum LifecycleError {
    /// No machine is defined under the given name.
    NotFound,
    /// An external tool could not be invoked at all.
    ExternalCommandFailed,
    /// The registry could not be written.
    PersistFailed,
}

impl LifecycleError {
    /// Whether the error ends the whole program: only a registry that could
    /// not be written does.
    pub fn is_fatal(&self) -> (fatal: bool)
        ensures
            fatal == (*self == LifecycleError::PersistFailed),
    {
        match self {
            LifecycleError::PersistFailed => true,
            _ => false,
        }
    }
}

/// The error that a step which could not be carried out amounts to, if any.
pub open spec fn failure_text(action: ActionView) -> Option<LifecycleError> {
    match action {
        ActionView::Persist => Some(LifecycleError::PersistFailed),
        ActionView::MakeDir(_) | ActionView::RemoveFile(_) | ActionView::RemoveDir(_) => None,
        _ => Some(LifecycleError::ExternalCommandFailed),
    }
}

/// The error that `action` amounts to when it could not be carried out.  A
/// failed write of the registry is `PersistFailed`, a tool that could not be
/// invoked is `ExternalCommandFailed`, and trouble with a file or a directory
/// is reported by the caller without becoming an error.
pub fn failure_of(action: &Action) -> (error: Option<LifecycleError>)
    ensures
        error == failure_text(action@),
{
    match action {
        Action::Persist => Some(LifecycleError::PersistFailed),
        Action::MakeDir(_) => None,
        Action::RemoveFile(_) => None,
        Action::RemoveDir(_) => None,
        _ => Some(LifecycleError::ExternalCommandFailed),
    }
}

/// How a step ended: well where it was carried out, and with the error that
/// the step amounts to where it was not.  Trouble with a file or a directory
/// is no error.
pub open spec fn outcome_text(action: ActionView, carried_out: bool) -> Result<(), LifecycleError> {
    match failure_text(action) {
        Some(e) => if carried_out {
            Ok(())
        } else {
            Err(e)
        },
        None => Ok(()),
    }
}

/// How `action` ended, given whether it could be carried out.  A tool that
/// ran and failed counts as carried out: only a tool that could not be invoked
/// is an error.
pub fn outcome_of(action: &Action, carried_out: bool) -> (outcome: Result<(), LifecycleError>)
    ensures
        outcome == outcome_text(action@, carried_out),
{
    match failure_of(action) {
        Some(e) => if carried_out {
            Ok(())
        } else {
            Err(e)
        },
        None => Ok(()),
    }
}

/// The arguments with which the disk-image tool allocates an image of `size`
/// at `disk`.
pub open spec fn image_args_text(disk: Seq<char>, size: Seq<char>) -> Seq<Seq<char>> {
    seq!["create"@, "-f"@, "qcow2"@, disk, size]
}

/// The option that suppresses the graphical display, or nothing.
pub open spec fn display_flag_text(headless: bool) -> Seq<char> {
    if headless {
        "-display none"@
    } else {
        ""@
    }
}

/// The shell line that launches `vm` from its disk, detached and silent.
pub open spec fn launch_text(vm: VMInfoView, headless: bool) -> Seq<char> {
    "setsid qemu-system-x86_64 -name "@ + vm.name + " -m "@ + vm.memory + " -cpu "@ + vm.cpu
        + " -smp "@ + vm.threads + " -enable-kvm -drive file="@ + vm.disk + ",format=qcow2 "@
        + display_flag_text(headless) + " > /dev/null 2>&1 &"@
}

/// The shell line that launches `vm` for the first time: with its boot medium
/// attached and the boot order overridden in its favour.
pub open spec fn first_boot_text(vm: VMInfoView, headless: bool) -> Seq<char> {
    "setsid qemu-system-x86_64 -name "@ + vm.name + " -m "@ + vm.memory + " -cpu "@ + vm.cpu
        + " -smp "@ + vm.threads + " -enable-kvm -drive file="@ + vm.disk + ",format=qcow2 -cdrom "@
        + vm.iso + " -boot order=d "@ + display_flag_text(headless) + " > /dev/null 2>&1 &"@
}

/// The line under which `vm` appears in a listing.
pub open spec fn listing_text(vm: VMInfoView) -> Seq<char> {
    "- "@ + vm.name + ": "@ + vm.cpu + " CPU, "@ + vm.threads + " threads, "@ + vm.memory
        + " RAM, Disk: "@ + vm.disk
}

/// The arguments for the disk-image tool.
pub fn image_args(disk: &str, size: &str) -> (args: Vec<String>)
    ensures
        texts(args@) == image_args_text(disk@, size@),
{
    let mut args: Vec<String> = Vec::new();
    args.push(String::from_str("create"));
    args.push(String::from_str("-f"));
    args.push(String::from_str("qcow2"));
    args.push(String::from_str(disk));
    args.push(String::from_str(size));
    assert(texts(args@) =~= image_args_text(disk@, size@));
    args
}

fn display_flag(headless: bool) -> (flag: &'static str)
    ensures
        flag@ == display_flag_text(headless),
{
    if headless {
        "-display none"
    } else {
        ""
    }
}

/// The shell line that launches `vm` from its disk.
pub fn start_vm_common(vm: &VMInfo, headless: bool) -> (line: String)
    ensures
        line@ == launch_text(vm@, headless),
{
    let mut line = String::from_str("setsid qemu-system-x86_64 -name ");
    line.append(vm.name.as_str());
    line.append(" -m ");
    line.append(vm.memory.as_str());
    line.append(" -cpu ");
    line.append(vm.cpu.as_str());
    line.append(" -smp ");
    line.append(vm.threads.as_str());
    line.append(" -enable-kvm -drive file=");
    line.append(vm.disk.as_str());
    line.append(",format=qcow2 ");
    line.append(display_flag(headless));
    line.append(" > /dev/null 2>&1 &");
    line
}

/// The shell line that launches `vm` for the first time, from its boot
/// medium.
pub fn first_boot_line(vm: &VMInfo, headless: bool) -> (line: String)
    ensures
        line@ == first_boot_text(vm@, headless),
{
    let mut line = String::from_str("setsid qemu-system-x86_64 -name ");
    line.append(vm.name.as_str());
    line.append(" -m ");
    line.append(vm.memory.as_str());
    line.append(" -cpu ");
    line.append(vm.cpu.as_str());
    line.append(" -smp ");
    line.append(vm.threads.as_str());
    line.append(" -enable-kvm -drive file=");
    line.append(vm.disk.as_str());
    line.append(",format=qcow2 -cdrom ");
    line.append(vm.iso.as_str());
    line.append(" -boot order=d ");
    line.append(display_flag(headless));
    line.append(" > /dev/null 2>&1 &");
    line
}

/// The line under which `vm` appears in a listing.
pub fn describe(vm: &VMInfo) -> (line: String)
    ensures
        line@ == listing_text(vm@),
{
    let mut line = String::from_str("- ");
    line.append(vm.name.as_str());
    line.append(": ");
    line.append(vm.cpu.as_str());
    line.append(" CPU, ");
    line.append(vm.threads.as_str());
    line.append(" threads, ");
    line.append(vm.memory.as_str());
    line.append(" RAM, Disk: ");
    line.append(vm.disk.as_str());
    line
}

/// The program and arguments by which a step reaches an external tool; a
/// step that touches only files or the registry has none.
pub open spec fn argv_text(action: ActionView) -> Option<Seq<Seq<char>>> {
    match action {
        ActionView::CreateImage(args) => Some(seq!["qemu-img"@] + args),
        ActionView::Launch(line) => Some(seq!["sh"@, "-c"@, line]),
        ActionView::Terminate(pattern) => Some(seq!["pkill"@, "-f"@, pattern]),
        ActionView::Enumerate(pattern) => Some(seq!["pgrep"@, "-f"@, pattern]),
        ActionView::ForceKill(pid) => Some(seq!["kill"@, "-9"@, pid]),
        _ => None,
    }
}

fn three_words(first: &str, second: &str, third: &str) -> (words: Vec<String>)
    ensures
        texts(words@) == seq![first@, second@, third@],
{
    let mut words: Vec<String> = Vec::new();
    words.push(String::from_str(first));
    words.push(String::from_str(second));
    words.push(String::from_str(third));
    assert(texts(words@) =~= seq![first@, second@, third@]);
    words
}

/// The program and arguments by which `action` reaches an external tool, the
/// program first.
pub fn argv(action: &Action) -> (words: Option<Vec<String>>)
    ensures
        match words {
            Some(w) => argv_text(action@) == Some(texts(w@)),
            None => argv_text(action@).is_none(),
        },
{
    match action {
        Action::CreateImage(args) => {
            let mut words: Vec<String> = Vec::new();
            words.push(String::from_str("qemu-img"));
            let mut i: usize = 0;
            while i < args.len()
                invariant
                    i <= args@.len(),
                    words@.len() == i + 1,
                    words@[0]@ == "qemu-img"@,
                    forall|k: int| 1 <= k <= i ==> (#[trigger] words@[k])@ == args@[k - 1]@,
                decreases args@.len() - i,
            {
                words.push(args[i].clone());
                i += 1;
            }
            assert(texts(words@) =~= seq!["qemu-img"@] + texts(args@));
            Some(words)
        },
        Action::Launch(line) => Some(three_words("sh", "-c", line.as_str())),
        Action::Terminate(pattern) => Some(three_words("pkill", "-f", pattern.as_str())),
        Action::Enumerate(pattern) => Some(three_words("pgrep", "-f", pattern.as_str())),
        Action::ForceKill(pid) => Some(three_words("kill", "-9", pid.as_str())),
        _ => None,
    }
}

} // verus!
