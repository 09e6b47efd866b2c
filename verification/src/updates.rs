//! The course of an update: checking, downloading, installing.
//!
//! Every step that changes what is shown moves the settings revision.
use vstd::prelude::*;

use crate::live_capture::LiveCapturePhase;
use crate::reducer::{advance_generation, next_generation};
use crate::text::{same_text, shown};

verus! {

#[derive(Clone, Copy, Debug, PartialEq, Eq, Structural)]
pub enum UpdateComponent {
    App,
    ModsPlugin,
}

#[derive(Clone, Copy, Debug, PartialEq, Eq, Structural)]
pub enum UpdateStatus {
    Idle,
    Checking,
    UpToDate,
    Available,
    NotConfigured,
    Downloading,
    Ready,
    Installing,
    Restarting,
    Error,
}

impl UpdateStatus {
    pub fn text(self) -> (result: &'static str)
        ensures
            result@ == (match self {
                UpdateStatus::Idle => "idle"@,
                UpdateStatus::Checking => "checking"@,
                UpdateStatus::UpToDate => "up-to-date"@,
                UpdateStatus::Available => "available"@,
                UpdateStatus::NotConfigured => "not-configured"@,
                UpdateStatus::Downloading => "downloading"@,
                UpdateStatus::Ready => "ready"@,
                UpdateStatus::Installing => "installing"@,
                UpdateStatus::Restarting => "restarting"@,
                UpdateStatus::Error => "error"@,
            }),
    {
        match self {
            UpdateStatus::Idle => "idle",
            UpdateStatus::Checking => "checking",
            UpdateStatus::UpToDate => "up-to-date",
            UpdateStatus::Available => "available",
            UpdateStatus::NotConfigured => "not-configured",
            UpdateStatus::Downloading => "downloading",
            UpdateStatus::Ready => "ready",
            UpdateStatus::Installing => "installing",
            UpdateStatus::Restarting => "restarting",
            UpdateStatus::Error => "error",
        }
    }

    /// Something is under way that another step would disturb.
    pub open spec fn busy(self) -> bool {
        self == UpdateStatus::Checking || self == UpdateStatus::Downloading || self
            == UpdateStatus::Installing || self == UpdateStatus::Restarting
    }
}

pub fn update_is_busy(status: UpdateStatus) -> (result: bool)
    ensures
        result == status.busy(),
{
    matches!(
        status,
        UpdateStatus::Checking
            | UpdateStatus::Downloading
            | UpdateStatus::Installing
            | UpdateStatus::Restarting
    )
}

#[derive(Clone, Debug)]
pub struct AvailableComponentUpdate {
    pub component: UpdateComponent,
    pub release_id: String,
    pub version: String,
    pub published_at: String,
    pub notes: String,
    pub artifact_url: String,
    pub artifact_size: u64,
    pub artifact_sha256: [u8; 32],
}

impl AvailableComponentUpdate {
    fn copied(&self) -> (result: Self)
        ensures
            result == *self,
    {
        AvailableComponentUpdate {
            component: self.component,
            release_id: self.release_id.clone(),
            version: self.version.clone(),
            published_at: self.published_at.clone(),
            notes: self.notes.clone(),
            artifact_url: self.artifact_url.clone(),
            artifact_size: self.artifact_size,
            artifact_sha256: self.artifact_sha256,
        }
    }
}

/// A downloaded and verified update. Where its files are is known to whoever
/// installs it.
#[derive(Clone, Debug)]
pub struct PreparedUpdate {
    pub component: UpdateComponent,
    pub version: String,
}

#[derive(Clone, Copy, Debug, PartialEq, Eq, Structural)]
pub enum UpdateActionError {
    Busy,
    Unavailable,
    NotPrepared,
}

/// What is under way, and how far it has come.
#[derive(Clone, Copy, Debug, PartialEq, Eq, Structural)]
pub struct UpdateProgress {
    pub status: UpdateStatus,
    pub active_component: Option<UpdateComponent>,
    pub downloaded_bytes: u64,
    pub total_bytes: u64,
}

/// Nothing is under way.
pub open spec fn at_rest(status: UpdateStatus) -> UpdateProgress {
    UpdateProgress { status, active_component: None, downloaded_bytes: 0, total_bytes: 0 }
}

fn rest(status: UpdateStatus) -> (result: UpdateProgress)
    ensures
        result == at_rest(status),
{
    UpdateProgress { status, active_component: None, downloaded_bytes: 0, total_bytes: 0 }
}

#[derive(Clone, Debug)]
pub struct UpdateRuntimeState {
    pub progress: UpdateProgress,
    pub message_key: &'static str,
    pub message_arguments: Vec<String>,
    pub available: Vec<AvailableComponentUpdate>,
    pub prepared: Option<PreparedUpdate>,
}

impl Default for UpdateRuntimeState {
    fn default() -> (result: Self)
        ensures
            result.progress == at_rest(UpdateStatus::Idle),
            result.message_key@ == "Updates have not been checked in this session"@,
            result.message_arguments@.len() == 0,
            result.available@.len() == 0,
            result.prepared is None,
    {
        UpdateRuntimeState {
            progress: rest(UpdateStatus::Idle),
            message_key: "Updates have not been checked in this session",
            message_arguments: Vec::new(),
            available: Vec::new(),
            prepared: None,
        }
    }
}

/// The first update of a component in a list.
pub open spec fn first_of(
    available: Seq<AvailableComponentUpdate>,
    component: UpdateComponent,
) -> Option<int>
    decreases available.len(),
{
    if available.len() == 0 {
        None
    } else {
        match first_of(available.drop_last(), component) {
            Some(at) => Some(at),
            None => if available.last().component == component {
                Some(available.len() - 1)
            } else {
                None
            },
        }
    }
}

/// A position that is found is in the list and has the component.
proof fn first_of_is_valid(available: Seq<AvailableComponentUpdate>, component: UpdateComponent)
    ensures
        match first_of(available, component) {
            Some(at) => 0 <= at < available.len() && available[at].component == component,
            None => forall|k: int|
                0 <= k < available.len() ==> (#[trigger] available[k]).component != component,
        },
    decreases available.len(),
{
    if available.len() > 0 {
        first_of_is_valid(available.drop_last(), component);
        assert forall|k: int| 0 <= k < available.len() - 1 implies #[trigger] available[k]
            == available.drop_last()[k] by {}
    }
}

fn find_component(
    available: &Vec<AvailableComponentUpdate>,
    component: UpdateComponent,
) -> (result: Option<usize>)
    ensures
        match result {
            Some(at) => first_of(available@, component) == Some(at as int) && at < available@.len(),
            None => first_of(available@, component) is None,
        },
{
    let mut found: Option<usize> = None;
    let mut i: usize = 0;
    while i < available.len()
        invariant
            i <= available@.len(),
            match found {
                Some(at) => first_of(available@.take(i as int), component) == Some(at as int) && at
                    < available@.len(),
                None => first_of(available@.take(i as int), component) is None,
            },
        decreases available.len() - i,
    {
        assert(available@.take(i + 1).drop_last() =~= available@.take(i as int));
        if found.is_none() && available[i].component == component {
            found = Some(i);
        }
        i = i + 1;
    }
    assert(available@.take(i as int) =~= available@);
    found
}

/// The update that a check announces: that of the application, or the first.
pub open spec fn announced(available: Seq<AvailableComponentUpdate>) -> int {
    match first_of(available, UpdateComponent::App) {
        Some(at) => at,
        None => 0,
    }
}

/// What is left of a list without a component.
pub open spec fn without(
    available: Seq<AvailableComponentUpdate>,
    component: UpdateComponent,
) -> Seq<AvailableComponentUpdate> {
    available.filter(|item: AvailableComponentUpdate| item.component != component)
}

fn remove_component(
    available: Vec<AvailableComponentUpdate>,
    component: UpdateComponent,
) -> (kept: Vec<AvailableComponentUpdate>)
    ensures
        kept@ == without(available@, component),
{
    let ghost all = available@;
    let ghost wanted = |item: AvailableComponentUpdate| item.component != component;
    let mut rest = available;
    let mut kept: Vec<AvailableComponentUpdate> = Vec::new();
    let ghost mut done: int = 0;
    proof {
        reveal(Seq::filter);
        assert(all.take(0) =~= Seq::empty());
    }
    while rest.len() > 0
        invariant
            0 <= done <= all.len(),
            rest@ == all.skip(done),
            wanted == (|item: AvailableComponentUpdate| item.component != component),
            kept@ == all.take(done).filter(wanted),
        decreases rest.len(),
    {
        let item = rest.remove(0);
        proof {
            reveal(Seq::filter);
            assert(item == all[done]);
            assert(rest@ =~= all.skip(done + 1));
            assert(all.take(done + 1).drop_last() =~= all.take(done));
            done = done + 1;
        }
        if item.component != component {
            kept.push(item);
        }
    }
    assert(all.take(done) =~= all);
    kept
}

impl UpdateRuntimeState {
    /// Begins to look for updates. Whatever was announced before stays listed.
    pub fn begin_update_check(&mut self, revision: &mut u64) -> (result: Result<
        (),
        UpdateActionError,
    >)
        ensures
            if old(self).progress.status.busy() || old(self).prepared is Some {
                &&& result == Err::<(), _>(UpdateActionError::Busy)
                &&& *final(self) == *old(self)
                &&& *final(revision) == *old(revision)
            } else {
                &&& result is Ok
                &&& final(self).progress == at_rest(UpdateStatus::Checking)
                &&& final(self).message_key@ == "Checking for updates..."@
                &&& final(self).message_arguments@.len() == 0
                &&& final(self).available == old(self).available
                &&& final(self).prepared == old(self).prepared
                &&& *final(revision) == next_generation(*old(revision))
            },
    {
        if update_is_busy(self.progress.status) || self.prepared.is_some() {
            return Err(UpdateActionError::Busy);
        }
        self.progress = rest(UpdateStatus::Checking);
        self.message_key = "Checking for updates...";
        self.message_arguments = Vec::new();
        *revision = advance_generation(*revision);
        Ok(())
    }

    /// Takes what a check found.
    pub fn finish_update_check(
        &mut self,
        available: Vec<AvailableComponentUpdate>,
        revision: &mut u64,
    )
        ensures
            final(self).prepared is None,
            *final(revision) == next_generation(*old(revision)),
            final(self).available@ == available@,
            if available@.len() == 0 {
                &&& final(self).progress == at_rest(UpdateStatus::UpToDate)
                &&& final(self).message_key@ == "All available update components are up to date"@
                &&& final(self).message_arguments@.len() == 0
            } else {
                let shown = available@[announced(available@)];
                &&& final(self).progress == at_rest(UpdateStatus::Available)
                &&& final(self).message_key@ == (match shown.component {
                    UpdateComponent::App => "Version {} is available"@,
                    UpdateComponent::ModsPlugin => "Mod loader version {} is available"@,
                })
                &&& final(self).message_arguments@ == seq![shown.version]
            },
    {
        self.prepared = None;
        if available.len() == 0 {
            self.available = available;
            self.progress = rest(UpdateStatus::UpToDate);
            self.message_key = "All available update components are up to date";
            self.message_arguments = Vec::new();
        } else {
            let at: usize = match find_component(&available, UpdateComponent::App) {
                Some(at) => at,
                None => 0,
            };
            self.progress = rest(UpdateStatus::Available);
            self.message_key =
            match available[at].component {
                UpdateComponent::App => "Version {} is available",
                UpdateComponent::ModsPlugin => "Mod loader version {} is available",
            };
            let mut arguments: Vec<String> = Vec::new();
            arguments.push(available[at].version.clone());
            assert(arguments@ =~= seq![available@[announced(available@)].version]);
            self.message_arguments = arguments;
            self.available = available;
        }
        *revision = advance_generation(*revision);
    }

    /// A check failed. Without a configured channel there is nothing wrong.
    pub fn fail_update_check(&mut self, message_key: &'static str, revision: &mut u64)
        ensures
            final(self).progress == at_rest(
                if message_key@
                    == "The official update channel is not configured in this build"@ {
                    UpdateStatus::NotConfigured
                } else {
                    UpdateStatus::Error
                },
            ),
            final(self).message_key == message_key,
            final(self).message_arguments@.len() == 0,
            final(self).available@.len() == 0,
            final(self).prepared is None,
            *final(revision) == next_generation(*old(revision)),
    {
        let status = if same_text(
            message_key,
            "The official update channel is not configured in this build",
        ) {
            UpdateStatus::NotConfigured
        } else {
            UpdateStatus::Error
        };
        self.progress = rest(status);
        self.message_key = message_key;
        self.message_arguments = Vec::new();
        self.available = Vec::new();
        self.prepared = None;
        *revision = advance_generation(*revision);
    }

    /// Begins to download an update that was announced.
    pub fn begin_update_download(
        &mut self,
        component: UpdateComponent,
        revision: &mut u64,
    ) -> (result: Result<AvailableComponentUpdate, UpdateActionError>)
        ensures
            final(self).available == old(self).available,
            final(self).prepared == old(self).prepared,
            if old(self).progress.status.busy() || old(self).prepared is Some {
                &&& result == Err::<AvailableComponentUpdate, _>(UpdateActionError::Busy)
                &&& *final(self) == *old(self)
                &&& *final(revision) == *old(revision)
            } else {
                match first_of(old(self).available@, component) {
                    None => {
                        &&& result == Err::<AvailableComponentUpdate, _>(
                            UpdateActionError::Unavailable,
                        )
                        &&& *final(self) == *old(self)
                        &&& *final(revision) == *old(revision)
                    },
                    Some(at) => {
                        &&& result == Ok::<_, UpdateActionError>(old(self).available@[at])
                        &&& final(self).progress == (UpdateProgress {
                            status: UpdateStatus::Downloading,
                            active_component: Some(component),
                            downloaded_bytes: 0,
                            total_bytes: old(self).available@[at].artifact_size,
                        })
                        &&& final(self).message_key@ == (match component {
                            UpdateComponent::App => "Downloading verified update..."@,
                            UpdateComponent::ModsPlugin => "Downloading verified Mod loader..."@,
                        })
                        &&& final(self).message_arguments@.len() == 0
                        &&& *final(revision) == next_generation(*old(revision))
                    },
                }
            },
    {
        if update_is_busy(self.progress.status) || self.prepared.is_some() {
            return Err(UpdateActionError::Busy);
        }
        match find_component(&self.available, component) {
            None => Err(UpdateActionError::Unavailable),
            Some(at) => {
                let selected = self.available[at].copied();
                self.progress =
                UpdateProgress {
                    status: UpdateStatus::Downloading,
                    active_component: Some(component),
                    downloaded_bytes: 0,
                    total_bytes: selected.artifact_size,
                };
                self.message_key =
                match component {
                    UpdateComponent::App => "Downloading verified update...",
                    UpdateComponent::ModsPlugin => "Downloading verified Mod loader...",
                };
                self.message_arguments = Vec::new();
                *revision = advance_generation(*revision);
                Ok(selected)
            },
        }
    }

    /// Takes note of how far a download has come. What comes late is ignored.
    pub fn update_download_progress(
        &mut self,
        component: UpdateComponent,
        downloaded_bytes: u64,
        total_bytes: u64,
        revision: &mut u64,
    )
        ensures
            if old(self).progress.status == UpdateStatus::Downloading && old(
                self).progress.active_component == Some(component) {
                &&& *final(self) == (UpdateRuntimeState {
                    progress: UpdateProgress {
                        downloaded_bytes: if downloaded_bytes <= total_bytes {
                            downloaded_bytes
                        } else {
                            total_bytes
                        },
                        total_bytes,
                        ..old(self).progress
                    },
                    ..*old(self)
                })
                &&& *final(revision) == next_generation(*old(revision))
            } else {
                *final(self) == *old(self) && *final(revision) == *old(revision)
            },
    {
        if self.progress.status != UpdateStatus::Downloading || self.progress.active_component
            != Some(component) {
            return;
        }
        self.progress.downloaded_bytes =
        if downloaded_bytes <= total_bytes {
            downloaded_bytes
        } else {
            total_bytes
        };
        self.progress.total_bytes = total_bytes;
        *revision = advance_generation(*revision);
    }

    /// A download is complete and can be installed.
    pub fn finish_update_download(&mut self, prepared: PreparedUpdate, revision: &mut u64)
        ensures
            final(self).progress == (UpdateProgress {
                status: UpdateStatus::Ready,
                active_component: None,
                downloaded_bytes: old(self).progress.total_bytes,
                total_bytes: old(self).progress.total_bytes,
            }),
            final(self).message_key@ == (match prepared.component {
                UpdateComponent::App => "Version {} is ready to install"@,
                UpdateComponent::ModsPlugin => "Mod loader {} is ready to install"@,
            }),
            final(self).message_arguments@ == seq![prepared.version],
            final(self).available == old(self).available,
            final(self).prepared == Some(prepared),
            *final(revision) == next_generation(*old(revision)),
    {
        self.message_key =
        match prepared.component {
            UpdateComponent::App => "Version {} is ready to install",
            UpdateComponent::ModsPlugin => "Mod loader {} is ready to install",
        };
        let mut arguments: Vec<String> = Vec::new();
        arguments.push(prepared.version.clone());
        assert(arguments@ =~= seq![prepared.version]);
        self.message_arguments = arguments;
        self.progress.status = UpdateStatus::Ready;
        self.progress.active_component = None;
        self.progress.downloaded_bytes = self.progress.total_bytes;
        self.prepared = Some(prepared);
        *revision = advance_generation(*revision);
    }

    /// A download failed.
    pub fn fail_update_download(&mut self, revision: &mut u64)
        ensures
            old(self).fails_with("Update download failed."@, *final(self)),
            *final(revision) == next_generation(*old(revision)),
    {
        self.fail_update_operation("Update download failed.", revision);
    }

    /// An installation could not start.
    pub fn fail_update_install(&mut self, revision: &mut u64)
        ensures
            old(self).fails_with("Update installation could not start."@, *final(self)),
            *final(revision) == next_generation(*old(revision)),
    {
        self.fail_update_operation("Update installation could not start.", revision);
    }

    /// `after` is `self` after a step that failed. What is listed and what is
    /// prepared stays.
    pub open spec fn fails_with(self, message: Seq<char>, after: Self) -> bool {
        &&& after.progress == at_rest(UpdateStatus::Error)
        &&& after.message_key@ == message
        &&& after.message_arguments@.len() == 0
        &&& after.available == self.available
        &&& after.prepared == self.prepared
    }

    fn fail_update_operation(&mut self, message_key: &'static str, revision: &mut u64)
        ensures
            old(self).fails_with(message_key@, *final(self)),
            *final(revision) == next_generation(*old(revision)),
    {
        self.progress = rest(UpdateStatus::Error);
        self.message_key = message_key;
        self.message_arguments = Vec::new();
        *revision = advance_generation(*revision);
    }

    /// Begins to install what is prepared.
    pub fn begin_update_install(&mut self, revision: &mut u64) -> (result: Result<
        PreparedUpdate,
        UpdateActionError,
    >)
        ensures
            final(self).available == old(self).available,
            final(self).prepared == old(self).prepared,
            if old(self).progress.status.busy() {
                &&& result == Err::<PreparedUpdate, _>(UpdateActionError::Busy)
                &&& *final(self) == *old(self)
                &&& *final(revision) == *old(revision)
            } else {
                match old(self).prepared {
                    None => {
                        &&& result == Err::<PreparedUpdate, _>(UpdateActionError::NotPrepared)
                        &&& *final(self) == *old(self)
                        &&& *final(revision) == *old(revision)
                    },
                    Some(prepared) => {
                        &&& result == Ok::<_, UpdateActionError>(prepared)
                        &&& final(self).progress == (UpdateProgress {
                            status: match prepared.component {
                                UpdateComponent::App => UpdateStatus::Restarting,
                                UpdateComponent::ModsPlugin => UpdateStatus::Installing,
                            },
                            active_component: Some(prepared.component),
                            ..old(self).progress
                        })
                        &&& final(self).message_key@ == (match prepared.component {
                            UpdateComponent::App => "Restarting to install the update..."@,
                            UpdateComponent::ModsPlugin => "Installing Mod loader update..."@,
                        })
                        &&& final(self).message_arguments@.len() == 0
                        &&& *final(revision) == next_generation(*old(revision))
                    },
                }
            },
    {
        if update_is_busy(self.progress.status) {
            return Err(UpdateActionError::Busy);
        }
        let prepared = match &self.prepared {
            None => {
                return Err(UpdateActionError::NotPrepared);
            },
            Some(prepared) => PreparedUpdate {
                component: prepared.component,
                version: prepared.version.clone(),
            },
        };
        match prepared.component {
            UpdateComponent::App => {
                self.progress.status = UpdateStatus::Restarting;
                self.message_key = "Restarting to install the update...";
            },
            UpdateComponent::ModsPlugin => {
                self.progress.status = UpdateStatus::Installing;
                self.message_key = "Installing Mod loader update...";
            },
        }
        self.message_arguments = Vec::new();
        self.progress.active_component = Some(prepared.component);
        *revision = advance_generation(*revision);
        Ok(prepared)
    }

    /// The mod loader was installed and is no longer listed.
    pub fn finish_plugin_update_install(&mut self, version: String, revision: &mut u64)
        ensures
            final(self).available@ == without(old(self).available@, UpdateComponent::ModsPlugin),
            final(self).progress == at_rest(
                if final(self).available@.len() == 0 {
                    UpdateStatus::UpToDate
                } else {
                    UpdateStatus::Available
                },
            ),
            final(self).message_key@ == "Mod loader {} was installed"@,
            final(self).message_arguments@ == seq![version],
            final(self).prepared is None,
            *final(revision) == next_generation(*old(revision)),
    {
        let mut available: Vec<AvailableComponentUpdate> = Vec::new();
        std::mem::swap(&mut self.available, &mut available);
        self.available = remove_component(available, UpdateComponent::ModsPlugin);
        self.progress =
        rest(
            if self.available.len() == 0 {
                UpdateStatus::UpToDate
            } else {
                UpdateStatus::Available
            },
        );
        self.message_key = "Mod loader {} was installed";
        let mut arguments: Vec<String> = Vec::new();
        arguments.push(version);
        assert(arguments@ =~= seq![version]);
        self.message_arguments = arguments;
        self.prepared = None;
        *revision = advance_generation(*revision);
    }
}

/// What keeps a prepared update from being installed. `game_running` is what
/// is known of the game, or that it could not be found out.
pub fn install_blocked_message_key(
    prepared: Option<UpdateComponent>,
    phase: LiveCapturePhase,
    game_running: Result<bool, ()>,
) -> (result: Option<&'static str>)
    ensures
        shown(result) == (match prepared {
            Some(UpdateComponent::App) => if phase.active() {
                Some("Stop capture or replay before installing the update"@)
            } else {
                None
            },
            Some(UpdateComponent::ModsPlugin) => match game_running {
                Ok(true) => Some("Close HTGame.exe before installing the Mod loader update"@),
                Ok(false) => None,
                Err(_) => Some("Game process state could not be checked."@),
            },
            None => None,
        }),
{
    match prepared {
        Some(UpdateComponent::App) => if phase.is_active() {
            Some("Stop capture or replay before installing the update")
        } else {
            None
        },
        Some(UpdateComponent::ModsPlugin) => match game_running {
            Ok(true) => Some("Close HTGame.exe before installing the Mod loader update"),
            Ok(false) => None,
            Err(_) => Some("Game process state could not be checked."),
        },
        None => None,
    }
}

/// An update that was announced can be downloaded, unless something is under
/// way or already prepared, and only such an update can.
pub proof fn announced_updates_can_be_downloaded(
    available: Seq<AvailableComponentUpdate>,
    component: UpdateComponent,
)
    ensures
        first_of(available, component) is Some <==> exists|k: int|
            0 <= k < available.len() && (#[trigger] available[k]).component == component,
        available.len() > 0 ==> first_of(
            available,
            available[announced(available)].component,
        ) is Some,
{
    first_of_is_valid(available, component);
    first_of_is_valid(available, UpdateComponent::App);
    if available.len() > 0 {
        first_of_is_valid(available, available[announced(available)].component);
    }
}

} // verus!
