//! Installing an unpacked release: what to do with each archive entry, and
//! the configuration handed to the dependent build.

use vstd::prelude::*;
use vstd::string::*;

verus! {

/// What to do with one archive entry.
#[derive(Clone, Copy, Debug, PartialEq, Eq, Structural)]
pub enum EntryAction {
    /// The entry's path would leave the target directory: leave it out.
    Skip,
    /// Create the directory, with any missing parents.
    CreateDir,
    /// Create the file's missing parent directories, then write its contents.
    WriteFile,
}

/// The handling of one archive entry.
#[derive(Clone, Copy, Debug, PartialEq, Eq, Structural)]
pub struct EntryPlan {
    pub action: EntryAction,
    /// Permission bits to set on the written path, where the platform has them.
    pub mode: Option<u32>,
}

/// Plans one archive entry from what the archive says of it: whether its path
/// stays inside the target directory, whether it is a directory, and the Unix
/// permission bits it stores, if any. An entry that is extracted keeps its
/// stored permission bits, so that executables stay executable.
pub fn plan_entry(path_enclosed: bool, is_dir: bool, unix_mode: Option<u32>) -> (r: EntryPlan)
    ensures
        !path_enclosed ==> r == (EntryPlan { action: EntryAction::Skip, mode: None }),
        path_enclosed && is_dir ==> r == (EntryPlan { action: EntryAction::CreateDir, mode: unix_mode }),
        path_enclosed && !is_dir ==> r == (EntryPlan { action: EntryAction::WriteFile, mode: unix_mode }),
{
    if !path_enclosed {
        EntryPlan { action: EntryAction::Skip, mode: None }
    } else if is_dir {
        EntryPlan { action: EntryAction::CreateDir, mode: unix_mode }
    } else {
        EntryPlan { action: EntryAction::WriteFile, mode: unix_mode }
    }
}

/// Path of the compiler executable inside an installation directory.
pub open spec fn compiler_path(dir: Seq<char>) -> Seq<char> {
    dir + "/bin/slangc"@
}

/// Native library directory inside an installation directory.
pub open spec fn library_dir(dir: Seq<char>) -> Seq<char> {
    dir + "/lib"@
}

/// The lines a build script prints to hand an installation at `dir` to the
/// dependent build: the compiler's path as the compile-time variable
/// `SLANGC_BIN_PATH`, then the native library search path.
pub fn build_directives(dir: &str) -> (r: Vec<String>)
    ensures
        r@.map_values(|s: String| s@) == seq![
            "cargo:rustc-env=SLANGC_BIN_PATH="@ + compiler_path(dir@),
            "cargo:rustc-link-search=native="@ + library_dir(dir@),
        ],
{
    let mut bin = "cargo:rustc-env=SLANGC_BIN_PATH=".to_owned();
    bin.append(dir);
    bin.append("/bin/slangc");
    assert(bin@ =~= "cargo:rustc-env=SLANGC_BIN_PATH="@ + compiler_path(dir@));
    let mut lib = "cargo:rustc-link-search=native=".to_owned();
    lib.append(dir);
    lib.append("/lib");
    assert(lib@ =~= "cargo:rustc-link-search=native="@ + library_dir(dir@));
    let mut r: Vec<String> = Vec::new();
    r.push(bin);
    r.push(lib);
    proof {
        assert(r@.map_values(|s: String| s@) =~= seq![
            "cargo:rustc-env=SLANGC_BIN_PATH="@ + compiler_path(dir@),
            "cargo:rustc-link-search=native="@ + library_dir(dir@),
        ]);
    }
    r
}

} // verus!
