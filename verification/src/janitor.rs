//! Health checking of installed dependencies and post-install cleanup
//! planning.
use vstd::prelude::*;
use vstd::string::*;
use crate::config::Dependency;
use crate::errors::InstallError;

verus! {

/// The on-disk directory name of an installed dependency,
/// `<name>-<version>`.
pub open spec fn spec_dependency_dir(name: Seq<char>, version: Seq<char>) -> Seq<char> {
    name + "-"@ + version
}

/// The staged archive file name of a dependency, `<name>-<version>.zip`.
pub open spec fn spec_archive_file(name: Seq<char>, version: Seq<char>) -> Seq<char> {
    spec_dependency_dir(name, version) + ".zip"@
}

pub fn dependency_dir_name(name: &str, version: &str) -> (r: String)
    ensures
        r@ == spec_dependency_dir(name@, version@),
{
    let mut s = name.to_owned();
    s.append("-");
    s.append(version);
    s
}

pub fn archive_file_name(name: &str, version: &str) -> (r: String)
    ensures
        r@ == spec_archive_file(name@, version@),
{
    let mut s = dependency_dir_name(name, version);
    s.append(".zip");
    s
}

/// The dependency's directory is among the observed populated ones.
pub open spec fn dir_present(dirs: Seq<String>, name: Seq<char>, version: Seq<char>) -> bool {
    exists|i: int| 0 <= i < dirs.len() && dirs[i]@ == spec_dependency_dir(name, version)
}

/// Pure verification of one installed dependency: given the names of the
/// populated directories under the dependency root, confirms that the
/// dependency's own directory is among them, and reports it missing
/// otherwise.
pub fn healthcheck_dependency(name: &str, version: &str, populated_dirs: &Vec<String>) -> (r:
    Result<(), InstallError>)
    ensures
        match r {
            Ok(_) => dir_present(populated_dirs@, name@, version@),
            Err(e) => !dir_present(populated_dirs@, name@, version@) && (e
                matches InstallError::MissingDependency { name: n, version: v } && n@ == name@
                && v@ == version@),
        },
{
    let want = dependency_dir_name(name, version);
    let n = populated_dirs.len();
    let mut i: usize = 0;
    while i < n
        invariant
            i <= n,
            n == populated_dirs@.len(),
            want@ == spec_dependency_dir(name@, version@),
            forall|j: int| 0 <= j < i ==> populated_dirs@[j]@ != want@,
        decreases n - i,
    {
        if populated_dirs[i] == want {
            proof {
                assert(populated_dirs@[i as int]@ == spec_dependency_dir(name@, version@));
            }
            return Ok(());
        }
        i += 1;
    }
    Err(InstallError::MissingDependency { name: name.to_owned(), version: version.to_owned() })
}

/// Pure verification of a batch: every entry must have a populated
/// directory; stops at the first missing one and names it.
pub fn healthcheck_dependencies(dependencies: &Vec<Dependency>, populated_dirs: &Vec<String>) -> (r:
    Result<(), InstallError>)
    ensures
        match r {
            Ok(_) => forall|i: int|
                0 <= i < dependencies@.len() ==> dir_present(
                    populated_dirs@,
                    dependencies@[i].name@,
                    dependencies@[i].version@,
                ),
            Err(e) => exists|i: int|
                0 <= i < dependencies@.len() && !dir_present(
                    populated_dirs@,
                    dependencies@[i].name@,
                    dependencies@[i].version@,
                ) && (forall|j: int|
                    0 <= j < i ==> dir_present(
                        populated_dirs@,
                        dependencies@[j].name@,
                        dependencies@[j].version@,
                    )) && (e matches InstallError::MissingDependency { name: n, version: v } && n@
                    == dependencies@[i].name@ && v@ == dependencies@[i].version@),
        },
{
    let n = dependencies.len();
    let mut i: usize = 0;
    while i < n
        invariant
            i <= n,
            n == dependencies@.len(),
            forall|j: int|
                0 <= j < i ==> dir_present(
                    populated_dirs@,
                    dependencies@[j].name@,
                    dependencies@[j].version@,
                ),
        decreases n - i,
    {
        let dep = &dependencies[i];
        match healthcheck_dependency(dep.name.as_str(), dep.version.as_str(), populated_dirs) {
            Ok(_) => {},
            Err(e) => {
                proof {
                    assert(!dir_present(
                        populated_dirs@,
                        dependencies@[i as int].name@,
                        dependencies@[i as int].version@,
                    ));
                }
                return Err(e);
            },
        }
        i += 1;
    }
    Ok(())
}

/// The health-check round trip: once an install has populated the
/// dependency's directory `d`, the health check's success condition holds
/// for that key; and if the directory is removed externally before the
/// check — no observed directory carries its name — the condition fails,
/// so the check reports the dependency missing.
pub proof fn lemma_healthcheck_round_trip(
    dirs: Seq<String>,
    d: String,
    name: Seq<char>,
    version: Seq<char>,
)
    requires
        d@ == spec_dependency_dir(name, version),
    ensures
        dir_present(dirs.push(d), name, version),
        (forall|i: int| 0 <= i < dirs.len() ==> dirs[i]@ != spec_dependency_dir(name, version))
            ==> !dir_present(dirs, name, version),
{
    assert(dirs.push(d)[dirs.len() as int]@ == spec_dependency_dir(name, version));
}

/// What the janitor can observe before cleaning: whether the staged
/// archive file is still present, and whether the dependency directory
/// wraps all content in one redundant top-level folder.
pub struct CleanupObservation {
    pub archive_present: bool,
    pub redundant_nesting: bool,
}

/// One filesystem action of the janitor.
pub enum CleanupTask {
    /// Remove the staged archive file.
    RemoveArchiveFile { file: String },
    /// Lift the contents of the single wrapping folder into the dependency
    /// directory and drop the wrapper.
    FlattenNesting { directory: String },
}

/// Plans the cleanup after an install: removal of the staged archive if it
/// is still there, then flattening of a detected redundant nesting level.
/// On an already-clean directory the plan is empty, so running cleanup
/// again is a no-op, not an error.
pub fn cleanup_dependency(name: &str, version: &str, obs: &CleanupObservation) -> (tasks: Vec<
    CleanupTask,
>)
    ensures
        tasks@.len() == (if obs.archive_present {
            1int
        } else {
            0int
        }) + (if obs.redundant_nesting {
            1int
        } else {
            0int
        }),
        obs.archive_present ==> (tasks@[0] matches CleanupTask::RemoveArchiveFile { file } && file@
            == spec_archive_file(name@, version@)),
        obs.redundant_nesting ==> (tasks@[tasks@.len() - 1] matches CleanupTask::FlattenNesting {
            directory,
        } && directory@ == spec_dependency_dir(name@, version@)),
{
    let mut tasks: Vec<CleanupTask> = Vec::new();
    if obs.archive_present {
        tasks.push(CleanupTask::RemoveArchiveFile { file: archive_file_name(name, version) });
    }
    if obs.redundant_nesting {
        tasks.push(CleanupTask::FlattenNesting { directory: dependency_dir_name(name, version) });
    }
    tasks
}

} // verus!
