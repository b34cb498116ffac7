//! The orchestrator: state machines for a single install and for a bulk
//! update.
//!
//! Each machine exposes the outside action it needs next; the surrounding
//! binary performs that action (network transfer, archive extraction,
//! file probing) and reports the outcome back as an event.  Every
//! decision — which URL to download, what the manifest becomes, whether a
//! run has failed and with which error — is taken here, under contract.
use vstd::prelude::*;
use vstd::string::*;
use crate::commands::DependencySpec;
use crate::config::{clone_dependencies, upsert_seq, Dependency, Manifest};
use crate::errors::InstallError;
use crate::janitor::{dir_present, healthcheck_dependencies, healthcheck_dependency};
use crate::registry::{registry_lookup, resolve_dependency_url, REMOTE_REPOSITORY};
use crate::FOUNDRY;

verus! {

/// One outside action a machine asks the surrounding binary to perform.
pub enum Action {
    /// Fetch the registry listing document at `url`.
    FetchRegistry { url: String },
    /// Stream the artifact at `url` to a staging file and move it to
    /// `<name>-<version>.zip` only once the transfer has fully completed,
    /// so that no file stands at the final path after an interrupted
    /// transfer.
    Download { url: String, name: String, version: String },
    /// Unpack `<name>-<version>.zip` into the dependency's own directory,
    /// overwriting prior content for that key.
    Extract { name: String, version: String },
    /// Atomically replace the manifest file with these entries (write a
    /// temporary file, then rename).
    WriteManifest { entries: Vec<Dependency> },
    /// Report which directories under the dependency root are populated.
    ProbeDependencyDirs,
    /// Observe the dependency's directory and perform the janitor's
    /// cleanup plan for it.
    CleanupDependency { name: String, version: String },
    /// Regenerate the build tool's import remappings.
    RegenerateRemappings,
}

/// The outcome of a performed action, reported back to the single-install
/// machine.
pub enum Event {
    RegistryFetched { entries: Vec<Dependency> },
    RegistryFetchFailed,
    DownloadCompleted,
    DownloadFailed,
    ExtractionCompleted,
    /// `ArchiveInvalid` for corrupt content, `IOFailure` for filesystem
    /// errors.
    ExtractionFailed { error: InstallError },
    ManifestWritten,
    ManifestWriteFailed,
    /// The names of the populated directories under the dependency root.
    DirsProbed { populated_dirs: Vec<String> },
    CleanupCompleted,
    CleanupFailed { error: InstallError },
    RemappingsRegenerated,
}

/// Where a single install stands.
pub enum Stage {
    /// Waiting for the registry listing to resolve the download URL.
    Resolving,
    /// Waiting for the artifact at `url` to be downloaded.
    Downloading { url: String },
    /// Waiting for the downloaded archive to be unpacked.
    Extracting { url: String },
    /// Waiting for the updated manifest to reach disk.
    RecordingManifest,
    /// Waiting for the directory probe of the health check.
    CheckingHealth,
    /// Waiting for the janitor.
    CleaningUp,
    /// Waiting for the remappings regeneration.
    Remapping,
    Completed,
    Failed { error: InstallError },
}

/// Which events can answer the pending action of each stage.  Completed
/// and failed runs are terminal: no event fits them.
pub open spec fn install_event_fits(stage: Stage, event: Event) -> bool {
    match stage {
        Stage::Resolving => event is RegistryFetched || event is RegistryFetchFailed,
        Stage::Downloading { .. } => event is DownloadCompleted || event is DownloadFailed,
        Stage::Extracting { .. } => event is ExtractionCompleted || event is ExtractionFailed,
        Stage::RecordingManifest => event is ManifestWritten || event is ManifestWriteFailed,
        Stage::CheckingHealth => event is DirsProbed,
        Stage::CleaningUp => event is CleanupCompleted || event is CleanupFailed,
        Stage::Remapping => event is RemappingsRegenerated,
        Stage::Completed => false,
        Stage::Failed { .. } => false,
    }
}

/// A single install: resolve the URL (unless one was given explicitly),
/// download, extract, record in the manifest, health-check, clean up,
/// and regenerate remappings where the build-tool setup asks for it.
pub struct InstallRun {
    pub dependency_name: String,
    pub dependency_version: String,
    pub remappings_enabled: bool,
    pub manifest: Manifest,
    pub stage: Stage,
}

impl InstallRun {
    pub open spec fn wf(&self) -> bool {
        self.manifest.wf()
    }

    /// Starts a single install.  A non-empty `explicit_url` is used
    /// directly; an empty one means the URL is resolved via the registry.
    pub fn begin(
        dep: DependencySpec,
        explicit_url: String,
        foundry: &FOUNDRY,
        manifest: Manifest,
    ) -> (run: InstallRun)
        requires
            manifest.wf(),
        ensures
            run.wf(),
            run.dependency_name@ == dep.name@,
            run.dependency_version@ == dep.version@,
            run.remappings_enabled == foundry.remappings,
            run.manifest@ == manifest@,
            explicit_url@.len() > 0 ==> (run.stage matches Stage::Downloading { url } && url@
                == explicit_url@),
            explicit_url@.len() == 0 ==> run.stage is Resolving,
    {
        let stage = if explicit_url.as_str().unicode_len() > 0 {
            Stage::Downloading { url: explicit_url }
        } else {
            Stage::Resolving
        };
        InstallRun {
            dependency_name: dep.name,
            dependency_version: dep.version,
            remappings_enabled: foundry.remappings,
            manifest,
            stage,
        }
    }

    /// The next outside action this run needs; `None` once the run has
    /// completed or failed.
    pub fn pending_action(&self) -> (a: Option<Action>)
        ensures
            match self.stage {
                Stage::Resolving => a matches Some(Action::FetchRegistry { url }) && url@
                    == REMOTE_REPOSITORY@,
                Stage::Downloading { url: u } => a matches Some(
                    Action::Download { url, name, version },
                ) && url@ == u@ && name@ == self.dependency_name@ && version@
                    == self.dependency_version@,
                Stage::Extracting { .. } => a matches Some(Action::Extract { name, version })
                    && name@ == self.dependency_name@ && version@ == self.dependency_version@,
                Stage::RecordingManifest => a matches Some(Action::WriteManifest { entries })
                    && entries@ == self.manifest@,
                Stage::CheckingHealth => a matches Some(Action::ProbeDependencyDirs),
                Stage::CleaningUp => a matches Some(Action::CleanupDependency { name, version })
                    && name@ == self.dependency_name@ && version@ == self.dependency_version@,
                Stage::Remapping => a matches Some(Action::RegenerateRemappings),
                Stage::Completed => a is None,
                Stage::Failed { .. } => a is None,
            },
    {
        match &self.stage {
            Stage::Resolving => Some(Action::FetchRegistry { url: REMOTE_REPOSITORY.to_owned() }),
            Stage::Downloading { url } => Some(
                Action::Download {
                    url: url.clone(),
                    name: self.dependency_name.clone(),
                    version: self.dependency_version.clone(),
                },
            ),
            Stage::Extracting { .. } => Some(
                Action::Extract {
                    name: self.dependency_name.clone(),
                    version: self.dependency_version.clone(),
                },
            ),
            Stage::RecordingManifest => Some(
                Action::WriteManifest { entries: clone_dependencies(self.manifest.list_all()) },
            ),
            Stage::CheckingHealth => Some(Action::ProbeDependencyDirs),
            Stage::CleaningUp => Some(
                Action::CleanupDependency {
                    name: self.dependency_name.clone(),
                    version: self.dependency_version.clone(),
                },
            ),
            Stage::Remapping => Some(Action::RegenerateRemappings),
            Stage::Completed => None,
            Stage::Failed { .. } => None,
        }
    }

    /// Advances the run on the reported outcome of its pending action.
    /// Identity and build-tool setup never change; the manifest changes
    /// exactly when the extraction completed, by upserting the installed
    /// dependency; each failure event moves the run to the terminal
    /// failed stage carrying that stage's error.
    pub fn step(&mut self, event: Event)
        requires
            install_event_fits(old(self).stage, event),
            old(self).wf(),
        ensures
            final(self).wf(),
            final(self).dependency_name@ == old(self).dependency_name@,
            final(self).dependency_version@ == old(self).dependency_version@,
            final(self).remappings_enabled == old(self).remappings_enabled,
            !(event is ExtractionCompleted) ==> final(self).manifest@ == old(self).manifest@,
            (event matches Event::RegistryFetched { entries } ==> (match registry_lookup(
                entries@,
                old(self).dependency_name@,
                old(self).dependency_version@,
            ) {
                Some(u) => final(self).stage matches Stage::Downloading { url } && url@ == u,
                None => final(self).stage matches Stage::Failed { error } && error
                    is NotFoundInRegistry,
            })),
            event is RegistryFetchFailed ==> (final(self).stage matches Stage::Failed { error }
                && error is RegistryUnavailable),
            event is DownloadCompleted ==> (old(self).stage matches Stage::Downloading { url: u }
                && final(self).stage matches Stage::Extracting { url } && url@ == u@),
            event is DownloadFailed ==> (final(self).stage matches Stage::Failed { error } && error
                is DownloadFailed),
            event is ExtractionCompleted ==> (old(self).stage matches Stage::Extracting { url }
                && final(self).manifest@ == upsert_seq(
                old(self).manifest@,
                (Dependency {
                    name: old(self).dependency_name,
                    version: old(self).dependency_version,
                    url,
                }),
            ) && final(self).stage is RecordingManifest),
            (event matches Event::ExtractionFailed { error: e } ==> (final(self).stage
                matches Stage::Failed { error } && error == e)),
            event is ManifestWritten ==> final(self).stage is CheckingHealth,
            event is ManifestWriteFailed ==> (final(self).stage matches Stage::Failed { error }
                && error is ManifestIOError),
            (event matches Event::DirsProbed { populated_dirs } ==> (if dir_present(
                populated_dirs@,
                old(self).dependency_name@,
                old(self).dependency_version@,
            ) {
                final(self).stage is CleaningUp
            } else {
                final(self).stage matches Stage::Failed { error } && (error
                    matches InstallError::MissingDependency { name, version } && name@ == old(
                    self,
                ).dependency_name@ && version@ == old(self).dependency_version@)
            })),
            event is CleanupCompleted ==> (if old(self).remappings_enabled {
                final(self).stage is Remapping
            } else {
                final(self).stage is Completed
            }),
            (event matches Event::CleanupFailed { error: e } ==> (final(self).stage
                matches Stage::Failed { error } && error == e)),
            event is RemappingsRegenerated ==> final(self).stage is Completed,
            final(self).stage is Extracting ==> (old(self).stage is Downloading && event
                is DownloadCompleted),
    {
        match event {
            Event::RegistryFetched { entries } => {
                match resolve_dependency_url(
                    &entries,
                    &self.dependency_name,
                    &self.dependency_version,
                ) {
                    Ok(url) => {
                        self.stage = Stage::Downloading { url };
                    },
                    Err(e) => {
                        self.stage = Stage::Failed { error: e };
                    },
                }
            },
            Event::RegistryFetchFailed => {
                self.stage = Stage::Failed { error: InstallError::RegistryUnavailable };
            },
            Event::DownloadCompleted => {
                let url = match &self.stage {
                    Stage::Downloading { url } => url.clone(),
                    _ => {
                        proof {
                            assert(false);
                        }
                        String::new()
                    },
                };
                self.stage = Stage::Extracting { url };
            },
            Event::DownloadFailed => {
                self.stage = Stage::Failed { error: InstallError::DownloadFailed };
            },
            Event::ExtractionCompleted => {
                let url = match &self.stage {
                    Stage::Extracting { url } => url.clone(),
                    _ => {
                        proof {
                            assert(false);
                        }
                        String::new()
                    },
                };
                let dep = Dependency {
                    name: self.dependency_name.clone(),
                    version: self.dependency_version.clone(),
                    url,
                };
                self.manifest.upsert(dep);
                self.stage = Stage::RecordingManifest;
            },
            Event::ExtractionFailed { error } => {
                self.stage = Stage::Failed { error };
            },
            Event::ManifestWritten => {
                self.stage = Stage::CheckingHealth;
            },
            Event::ManifestWriteFailed => {
                self.stage = Stage::Failed { error: InstallError::ManifestIOError };
            },
            Event::DirsProbed { populated_dirs } => {
                match healthcheck_dependency(
                    self.dependency_name.as_str(),
                    self.dependency_version.as_str(),
                    &populated_dirs,
                ) {
                    Ok(_) => {
                        self.stage = Stage::CleaningUp;
                    },
                    Err(e) => {
                        self.stage = Stage::Failed { error: e };
                    },
                }
            },
            Event::CleanupCompleted => {
                if self.remappings_enabled {
                    self.stage = Stage::Remapping;
                } else {
                    self.stage = Stage::Completed;
                }
            },
            Event::CleanupFailed { error } => {
                self.stage = Stage::Failed { error };
            },
            Event::RemappingsRegenerated => {
                self.stage = Stage::Completed;
            },
        }
    }
}

/// Where a bulk update stands.  Phases are barriers: each one finishes
/// for the whole batch before the next begins.
pub enum UpdatePhase {
    Downloading,
    Extracting,
    CheckingHealth,
    CleaningUp,
    Remapping,
    Completed,
    Failed { error: InstallError },
}

/// The collective outcome of a bulk phase, reported back to the update
/// machine.
pub enum BulkEvent {
    DownloadsCompleted,
    DownloadsFailed,
    ExtractionsCompleted,
    ExtractionsFailed { error: InstallError },
    /// The names of the populated directories under the dependency root.
    DirsProbed { populated_dirs: Vec<String> },
    CleanupCompleted,
    CleanupFailed { error: InstallError },
    RemappingsRegenerated,
}

/// Which events can answer each phase.  Completed and failed updates are
/// terminal: no event fits them.
pub open spec fn update_event_fits(phase: UpdatePhase, event: BulkEvent) -> bool {
    match phase {
        UpdatePhase::Downloading => event is DownloadsCompleted || event is DownloadsFailed,
        UpdatePhase::Extracting => event is ExtractionsCompleted || event is ExtractionsFailed,
        UpdatePhase::CheckingHealth => event is DirsProbed,
        UpdatePhase::CleaningUp => event is CleanupCompleted || event is CleanupFailed,
        UpdatePhase::Remapping => event is RemappingsRegenerated,
        UpdatePhase::Completed => false,
        UpdatePhase::Failed { .. } => false,
    }
}

/// A bulk update: replays download, extraction, health check and cleanup
/// for every dependency the manifest declares, phase by phase.
pub struct UpdateRun {
    pub dependencies: Vec<Dependency>,
    pub remappings_enabled: bool,
    pub phase: UpdatePhase,
}

impl UpdateRun {
    /// Starts a bulk update over every dependency the manifest declares,
    /// each to be re-fetched from its recorded URL.
    pub fn begin(manifest: &Manifest, foundry: &FOUNDRY) -> (run: UpdateRun)
        ensures
            run.dependencies@ == manifest@,
            run.remappings_enabled == foundry.remappings,
            run.phase is Downloading,
    {
        UpdateRun {
            dependencies: clone_dependencies(manifest.list_all()),
            remappings_enabled: foundry.remappings,
            phase: UpdatePhase::Downloading,
        }
    }

    /// The batch of outside actions of the current phase: one download
    /// per declared dependency (from its recorded URL), then one
    /// extraction per dependency, one probe of the dependency
    /// directories, one cleanup per dependency, and at last the
    /// remappings regeneration.  An empty manifest yields an empty
    /// download batch: zero downloads.
    pub fn pending_actions(&self) -> (acts: Vec<Action>)
        ensures
            self.phase is Downloading ==> acts@.len() == self.dependencies@.len() && (forall|
                i: int,
            |
                0 <= i < acts@.len() ==> (#[trigger] acts@[i] matches Action::Download { url, name, version }
                    && url@ == self.dependencies@[i].url@ && name@ == self.dependencies@[i].name@
                    && version@ == self.dependencies@[i].version@)),
            self.phase is Extracting ==> acts@.len() == self.dependencies@.len() && (forall|i: int|
                0 <= i < acts@.len() ==> (#[trigger] acts@[i] matches Action::Extract { name, version }
                    && name@ == self.dependencies@[i].name@ && version@
                    == self.dependencies@[i].version@)),
            self.phase is CheckingHealth ==> acts@.len() == 1 && acts@[0]
                is ProbeDependencyDirs,
            self.phase is CleaningUp ==> acts@.len() == self.dependencies@.len() && (forall|i: int|
                0 <= i < acts@.len() ==> (#[trigger] acts@[i] matches Action::CleanupDependency {
                    name,
                    version,
                } && name@ == self.dependencies@[i].name@ && version@
                    == self.dependencies@[i].version@)),
            self.phase is Remapping ==> acts@.len() == 1 && acts@[0] is RegenerateRemappings,
            self.phase is Completed || self.phase is Failed ==> acts@.len() == 0,
    {
        let mut acts: Vec<Action> = Vec::new();
        match &self.phase {
            UpdatePhase::Downloading => {
                let n = self.dependencies.len();
                let mut i: usize = 0;
                while i < n
                    invariant
                        i <= n,
                        n == self.dependencies@.len(),
                        acts@.len() == i,
                        forall|j: int|
                            0 <= j < i ==> (#[trigger] acts@[j] matches Action::Download {
                                url,
                                name,
                                version,
                            } && url@ == self.dependencies@[j].url@ && name@
                                == self.dependencies@[j].name@ && version@
                                == self.dependencies@[j].version@),
                    decreases n - i,
                {
                    let dep = &self.dependencies[i];
                    acts.push(
                        Action::Download {
                            url: dep.url.clone(),
                            name: dep.name.clone(),
                            version: dep.version.clone(),
                        },
                    );
                    i += 1;
                }
            },
            UpdatePhase::Extracting => {
                let n = self.dependencies.len();
                let mut i: usize = 0;
                while i < n
                    invariant
                        i <= n,
                        n == self.dependencies@.len(),
                        acts@.len() == i,
                        forall|j: int|
                            0 <= j < i ==> (#[trigger] acts@[j] matches Action::Extract { name, version }
                                && name@ == self.dependencies@[j].name@ && version@
                                == self.dependencies@[j].version@),
                    decreases n - i,
                {
                    let dep = &self.dependencies[i];
                    acts.push(
                        Action::Extract { name: dep.name.clone(), version: dep.version.clone() },
                    );
                    i += 1;
                }
            },
            UpdatePhase::CheckingHealth => {
                acts.push(Action::ProbeDependencyDirs);
            },
            UpdatePhase::CleaningUp => {
                let n = self.dependencies.len();
                let mut i: usize = 0;
                while i < n
                    invariant
                        i <= n,
                        n == self.dependencies@.len(),
                        acts@.len() == i,
                        forall|j: int|
                            0 <= j < i ==> (#[trigger] acts@[j] matches Action::CleanupDependency {
                                name,
                                version,
                            } && name@ == self.dependencies@[j].name@ && version@
                                == self.dependencies@[j].version@),
                    decreases n - i,
                {
                    let dep = &self.dependencies[i];
                    acts.push(
                        Action::CleanupDependency {
                            name: dep.name.clone(),
                            version: dep.version.clone(),
                        },
                    );
                    i += 1;
                }
            },
            UpdatePhase::Remapping => {
                acts.push(Action::RegenerateRemappings);
            },
            UpdatePhase::Completed => {},
            UpdatePhase::Failed { .. } => {},
        }
        acts
    }

    /// Advances the update on the collective outcome of the current
    /// phase.  The batch and the build-tool setup never change; a failed
    /// phase moves the update to the terminal failed phase carrying that
    /// phase's error, the health check failing with the first dependency
    /// whose directory is missing.
    pub fn step(&mut self, event: BulkEvent)
        requires
            update_event_fits(old(self).phase, event),
        ensures
            final(self).dependencies@ == old(self).dependencies@,
            final(self).remappings_enabled == old(self).remappings_enabled,
            event is DownloadsCompleted ==> final(self).phase is Extracting,
            event is DownloadsFailed ==> (final(self).phase matches UpdatePhase::Failed { error }
                && error is DownloadFailed),
            event is ExtractionsCompleted ==> final(self).phase is CheckingHealth,
            (event matches BulkEvent::ExtractionsFailed { error: e } ==> (final(self).phase
                matches UpdatePhase::Failed { error } && error == e)),
            (event matches BulkEvent::DirsProbed { populated_dirs } ==> ({
                let deps = old(self).dependencies@;
                if forall|i: int|
                    0 <= i < deps.len() ==> dir_present(
                        populated_dirs@,
                        deps[i].name@,
                        deps[i].version@,
                    ) {
                    final(self).phase is CleaningUp
                } else {
                    final(self).phase matches UpdatePhase::Failed { error } && (exists|i: int|
                        0 <= i < deps.len() && !dir_present(
                            populated_dirs@,
                            deps[i].name@,
                            deps[i].version@,
                        ) && (forall|j: int|
                            0 <= j < i ==> dir_present(
                                populated_dirs@,
                                deps[j].name@,
                                deps[j].version@,
                            )) && (error matches InstallError::MissingDependency {
                            name,
                            version,
                        } && name@ == deps[i].name@ && version@ == deps[i].version@))
                }
            })),
            event is CleanupCompleted ==> (if old(self).remappings_enabled {
                final(self).phase is Remapping
            } else {
                final(self).phase is Completed
            }),
            (event matches BulkEvent::CleanupFailed { error: e } ==> (final(self).phase
                matches UpdatePhase::Failed { error } && error == e)),
            event is RemappingsRegenerated ==> final(self).phase is Completed,
    {
        match event {
            BulkEvent::DownloadsCompleted => {
                self.phase = UpdatePhase::Extracting;
            },
            BulkEvent::DownloadsFailed => {
                self.phase = UpdatePhase::Failed { error: InstallError::DownloadFailed };
            },
            BulkEvent::ExtractionsCompleted => {
                self.phase = UpdatePhase::CheckingHealth;
            },
            BulkEvent::ExtractionsFailed { error } => {
                self.phase = UpdatePhase::Failed { error };
            },
            BulkEvent::DirsProbed { populated_dirs } => {
                match healthcheck_dependencies(&self.dependencies, &populated_dirs) {
                    Ok(_) => {
                        self.phase = UpdatePhase::CleaningUp;
                    },
                    Err(e) => {
                        self.phase = UpdatePhase::Failed { error: e };
                    },
                }
            },
            BulkEvent::CleanupCompleted => {
                if self.remappings_enabled {
                    self.phase = UpdatePhase::Remapping;
                } else {
                    self.phase = UpdatePhase::Completed;
                }
            },
            BulkEvent::CleanupFailed { error } => {
                self.phase = UpdatePhase::Failed { error };
            },
            BulkEvent::RemappingsRegenerated => {
                self.phase = UpdatePhase::Completed;
            },
        }
    }
}

} // verus!
