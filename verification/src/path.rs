//! Resolution of home-relative paths and of the places where machines keep
//! their disk images.

use vstd::prelude::*;

verus! {

/// The text of an optional string.
pub open spec fn text_of(s: Option<&str>) -> Option<Seq<char>> {
    match s {
        Some(t) => Some(t@),
        None => None,
    }
}

/// Whether `path` begins with the home-directory marker.
pub open spec fn starts_with_marker(path: Seq<char>) -> bool {
    path.len() > 0 && path[0] == '~'
}

/// `path` with a leading home-directory marker replaced by `home`.  A path
/// without the marker, and any path while the home directory is unknown,
/// stands for itself.
pub open spec fn expanded(path: Seq<char>, home: Option<Seq<char>>) -> Seq<char> {
    match home {
        Some(h) => if starts_with_marker(path) {
            h + path.skip(1)
        } else {
            path
        },
        None => path,
    }
}

/// The base directory under which every machine has a directory of its own.
pub open spec fn vm_folder_text(home: Option<Seq<char>>) -> Seq<char> {
    expanded("~/vms"@, home)
}

/// The directory of the machine `name`.
pub open spec fn vm_dir_text(home: Option<Seq<char>>, name: Seq<char>) -> Seq<char> {
    expanded(vm_folder_text(home) + "/"@ + name, home)
}

/// The disk image of the machine `name`.
pub open spec fn disk_path_text(home: Option<Seq<char>>, name: Seq<char>) -> Seq<char> {
    expanded(vm_dir_text(home, name) + "/"@ + name + ".qcow2"@, home)
}

/// Asks `home::home_dir` for the current user's home directory and hands it
/// back as text.  Nothing is claimed of the answer: it depends on the
/// environment of the process, and is absent where the directory cannot be
/// determined or is not valid Unicode.
#[verifier::external_body]
pub(crate) fn home_dir() -> (dir: Option<String>) {
    match home::home_dir() {
        Some(p) => p.into_os_string().into_string().ok(),
        None => None,
    }
}

/// Expands `path` against the given home directory.
pub fn expand_with(path: &str, home: Option<&str>) -> (full: String)
    ensures
        full@ == expanded(path@, text_of(home)),
{
    match home {
        Some(h) => {
            let n: usize = path.unicode_len();
            if n > 0 && path.get_char(0) == '~' {
                let mut full = String::from_str(h);
                full.append(path.substring_char(1, n));
                assert(path@.subrange(1, n as int) == path@.skip(1));
                full
            } else {
                String::from_str(path)
            }
        },
        None => String::from_str(path),
    }
}

/// Expands `path` against the current user's home directory.  This never
/// fails: where the home directory cannot be determined the path comes back
/// unchanged.
pub fn expand_path(path: &str) -> (full: String)
    ensures
        exists|home: Option<Seq<char>>| full@ == expanded(path@, home),
        !starts_with_marker(path@) ==> full@ == path@,
{
    let home = home_dir();
    let full = match &home {
        Some(h) => expand_with(path, Some(h.as_str())),
        None => expand_with(path, None),
    };
    proof {
        let ghost_home: Option<Seq<char>> = match home {
            Some(h) => Some(h@),
            None => None,
        };
        assert(full@ == expanded(path@, ghost_home));
    }
    full
}

/// The base directory of all machines, against the given home directory.
pub fn vm_folder_with(home: Option<&str>) -> (folder: String)
    ensures
        folder@ == vm_folder_text(text_of(home)),
{
    expand_with("~/vms", home)
}

/// The base directory of all machines, against the current user's home
/// directory.  Creating it is left to the caller.
pub fn get_vm_folder() -> (folder: String)
    ensures
        exists|home: Option<Seq<char>>| folder@ == vm_folder_text(home),
{
    let home = home_dir();
    let folder = match &home {
        Some(h) => vm_folder_with(Some(h.as_str())),
        None => vm_folder_with(None),
    };
    proof {
        let ghost_home: Option<Seq<char>> = match home {
            Some(h) => Some(h@),
            None => None,
        };
        assert(folder@ == vm_folder_text(ghost_home));
    }
    folder
}

/// The directory of the machine `name`, against the given home directory.
pub fn vm_dir_with(home: Option<&str>, name: &str) -> (dir: String)
    ensures
        dir@ == vm_dir_text(text_of(home), name@),
{
    let mut joined = vm_folder_with(home);
    joined.append("/");
    joined.append(name);
    expand_with(joined.as_str(), home)
}

/// The disk image of the machine `name`, against the given home directory.
pub fn disk_path_with(home: Option<&str>, name: &str) -> (disk: String)
    ensures
        disk@ == disk_path_text(text_of(home), name@),
{
    let mut joined = vm_dir_with(home, name);
    joined.append("/");
    joined.append(name);
    joined.append(".qcow2");
    expand_with(joined.as_str(), home)
}

} // verus!
