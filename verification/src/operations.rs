//! Small runtimes of single pages: the equipment operation under way, the
//! encrypted file that is open, and the teams of a prediction.
use vstd::prelude::*;

use crate::desktop::AppState;
use crate::model::CombatState;
use crate::reducer::{advance_generation, next_generation};
use crate::rpc::ModsPluginSubmitError;
use crate::settings::{DpsTimeMode, SettingsStore};
use crate::text::{decimal, decimal_text};

verus! {

#[derive(Clone, Copy, Debug, PartialEq, Eq, Structural)]
pub enum OperationStatus {
    Idle,
    Pending,
    Success,
    Error,
}

impl OperationStatus {
    pub fn text(self) -> (result: &'static str)
        ensures
            result@ == (match self {
                OperationStatus::Idle => "idle"@,
                OperationStatus::Pending => "pending"@,
                OperationStatus::Success => "success"@,
                OperationStatus::Error => "error"@,
            }),
    {
        match self {
            OperationStatus::Idle => "idle",
            OperationStatus::Pending => "pending",
            OperationStatus::Success => "success",
            OperationStatus::Error => "error",
        }
    }
}

/// The equipment operation that was asked for last.
#[derive(Clone, Debug)]
pub struct EmptyCurtainOperationState {
    pub status: OperationStatus,
    pub message_key: &'static str,
    pub message_arguments: Vec<String>,
    /// The request that the mod loader has not answered.
    pub request_id: Option<u64>,
    /// Moves whenever the operation changes.
    pub revision: u64,
}

/// What the mod loader answered: a status, or why there is none.
#[derive(Debug)]
pub struct LoaderResponse {
    pub request_id: u64,
    pub status: Result<u32, String>,
}

/// What was heard of the mod loader.
#[derive(Debug)]
pub enum LoaderNews {
    Nothing,
    Answered(LoaderResponse),
    Disconnected,
}

/// What an operation shows.
pub open spec fn tells(
    state: EmptyCurtainOperationState,
    status: OperationStatus,
    message: Seq<char>,
) -> bool {
    state.status == status && state.message_key@ == message
}

/// What an operation shows once it is answered.
pub open spec fn tells_answer(state: EmptyCurtainOperationState, answer: Result<u32, String>) -> bool {
    match answer {
        Ok(0) => tells(
            state,
            OperationStatus::Success,
            "Equipment RPC dispatched; waiting for game synchronization"@,
        ) && state.message_arguments@.len() == 0,
        Ok(1) => tells(
            state,
            OperationStatus::Success,
            "Equipment request passed plugin dry-run validation"@,
        ) && state.message_arguments@.len() == 0,
        Ok(status) => tells(
            state,
            OperationStatus::Error,
            "Mod loader rejected the request (status {})"@,
        ) && state.message_arguments@.len() == 1 && state.message_arguments@[0]@ == decimal(
            status as nat,
        ),
        Err(error) => tells(
            state,
            OperationStatus::Error,
            "Mod loader is unavailable: {}"@,
        ) && state.message_arguments@ == seq![error],
    }
}

impl EmptyCurtainOperationState {
    pub fn new() -> (result: Self)
        ensures
            tells(result, OperationStatus::Idle, "No equipment operation is pending"@),
            result.message_arguments@.len() == 0,
            result.request_id is None,
            result.revision == 0,
    {
        EmptyCurtainOperationState {
            status: OperationStatus::Idle,
            message_key: "No equipment operation is pending",
            message_arguments: Vec::new(),
            request_id: None,
            revision: 0,
        }
    }

    fn settle(
        &mut self,
        status: OperationStatus,
        message_key: &'static str,
        message_arguments: Vec<String>,
    )
        ensures
            *final(self) == (EmptyCurtainOperationState {
                status,
                message_key,
                message_arguments,
                request_id: None,
                revision: next_generation(old(self).revision),
            }),
    {
        self.status = status;
        self.message_key = message_key;
        self.message_arguments = message_arguments;
        self.request_id = None;
        self.revision = advance_generation(self.revision);
    }

    /// Takes in what was heard of the mod loader. An answer to another request
    /// is passed over, and so is the loss of a loader that owes nothing.
    pub fn refresh(&mut self, news: LoaderNews)
        ensures
            match news {
                LoaderNews::Nothing => *final(self) == *old(self),
                LoaderNews::Disconnected => if old(self).request_id is Some {
                    &&& tells(
                        *final(self),
                        OperationStatus::Error,
                        "Mod loader worker disconnected"@,
                    )
                    &&& final(self).message_arguments@.len() == 0
                    &&& final(self).request_id is None
                    &&& final(self).revision == next_generation(old(self).revision)
                } else {
                    *final(self) == *old(self)
                },
                LoaderNews::Answered(response) => if old(self).request_id == Some(
                    response.request_id,
                ) {
                    &&& tells_answer(*final(self), response.status)
                    &&& final(self).request_id is None
                    &&& final(self).revision == next_generation(old(self).revision)
                } else {
                    *final(self) == *old(self)
                },
            },
    {
        match news {
            LoaderNews::Nothing => {},
            LoaderNews::Disconnected => {
                if self.request_id.is_some() {
                    self.settle(
                        OperationStatus::Error,
                        "Mod loader worker disconnected",
                        Vec::new(),
                    );
                }
            },
            LoaderNews::Answered(response) => {
                if self.request_id == Some(response.request_id) {
                    match response.status {
                        Ok(0) => self.settle(
                            OperationStatus::Success,
                            "Equipment RPC dispatched; waiting for game synchronization",
                            Vec::new(),
                        ),
                        Ok(1) => self.settle(
                            OperationStatus::Success,
                            "Equipment request passed plugin dry-run validation",
                            Vec::new(),
                        ),
                        Ok(status) => {
                            let mut arguments: Vec<String> = Vec::new();
                            arguments.push(decimal_text(status as u64));
                            self.settle(
                                OperationStatus::Error,
                                "Mod loader rejected the request (status {})",
                                arguments,
                            );
                        },
                        Err(error) => {
                            let mut arguments: Vec<String> = Vec::new();
                            arguments.push(error);
                            assert(arguments@ =~= seq![error]);
                            self.settle(
                                OperationStatus::Error,
                                "Mod loader is unavailable: {}",
                                arguments,
                            );
                        },
                    }
                }
            },
        }
    }

    /// Whether another operation can be asked for.
    pub fn can_submit(&self) -> (result: bool)
        ensures
            result == (self.request_id is None),
    {
        self.request_id.is_none()
    }

    /// Takes in whether the mod loader took an operation.
    pub fn finish_submit(&mut self, submitted: Result<u64, ModsPluginSubmitError>) -> (result:
        Result<u64, ModsPluginSubmitError>)
        ensures
            if old(self).request_id is Some {
                &&& result == Err::<u64, _>(ModsPluginSubmitError::Busy)
                &&& *final(self) == *old(self)
            } else {
                &&& result == submitted
                &&& match submitted {
                    Err(_) => *final(self) == *old(self),
                    Ok(request_id) => {
                        &&& tells(
                            *final(self),
                            OperationStatus::Pending,
                            "Sending equipment request..."@,
                        )
                        &&& final(self).message_arguments@.len() == 0
                        &&& final(self).request_id == Some(request_id)
                        &&& final(self).revision == next_generation(old(self).revision)
                    },
                }
            },
    {
        if self.request_id.is_some() {
            return Err(ModsPluginSubmitError::Busy);
        }
        if let Ok(request_id) = submitted {
            self.status = OperationStatus::Pending;
            self.message_key = "Sending equipment request...";
            self.message_arguments = Vec::new();
            self.request_id = Some(request_id);
            self.revision = advance_generation(self.revision);
        }
        submitted
    }
}

/// Why the open file could not be used.
#[derive(Clone, Debug)]
pub enum EncryptedIniRuntimeError<X> {
    NoFile,
    StaleGeneration,
    Document(X),
}

/// What an encrypted file holds: its key, its text, and how many of its lines
/// are encrypted.
#[derive(Clone, Debug)]
pub struct EncryptedIniContent<K> {
    pub key: K,
    pub plaintext: String,
    pub encrypted_line_count: usize,
}

/// What a page shows of the encrypted file that is open.
#[derive(Clone, Debug)]
pub struct EncryptedIniProjection<K> {
    pub generation: u64,
    pub display_path: Option<String>,
    pub file_name: Option<String>,
    pub key: K,
    pub plaintext: String,
    pub encrypted_line_count: usize,
}

/// The encrypted file that is open. Its generation moves whenever what a page
/// shows of it can have changed, so that an old page cannot overwrite it.
#[derive(Clone, Debug)]
pub struct EncryptedIniRuntimeState<P, D> {
    pub generation: u64,
    pub path: Option<P>,
    pub document: Option<D>,
}

impl<P, D> EncryptedIniRuntimeState<P, D> {
    pub fn new() -> (result: Self)
        ensures
            result.generation == 0,
            result.path is None,
            result.document is None,
    {
        EncryptedIniRuntimeState { generation: 0, path: None, document: None }
    }

    /// Takes in a file that was read. One that could not be read changes
    /// nothing.
    pub fn open<X>(&mut self, path: P, loaded: Result<D, X>) -> (result: Result<
        (),
        EncryptedIniRuntimeError<X>,
    >)
        ensures
            match loaded {
                Err(error) => {
                    &&& result == Err::<(), _>(EncryptedIniRuntimeError::Document(error))
                    &&& *final(self) == *old(self)
                },
                Ok(document) => {
                    &&& result is Ok
                    &&& *final(self) == (EncryptedIniRuntimeState {
                        generation: next_generation(old(self).generation),
                        path: Some(path),
                        document: Some(document),
                    })
                },
            },
    {
        match loaded {
            Err(error) => Err(EncryptedIniRuntimeError::Document(error)),
            Ok(document) => {
                self.generation = advance_generation(self.generation);
                self.path = Some(path);
                self.document = Some(document);
                Ok(())
            },
        }
    }

    /// Reads the open file again.
    pub fn reload<X, L: Fn(&P) -> Result<D, X>>(&mut self, load: &L) -> (result: Result<
        (),
        EncryptedIniRuntimeError<X>,
    >)
        requires
            forall|path: P| #[trigger] call_requires(*load, (&path,)),
        ensures
            match old(self).path {
                None => {
                    &&& result == Err::<(), _>(EncryptedIniRuntimeError::<X>::NoFile)
                    &&& *final(self) == *old(self)
                },
                Some(path) => exists|loaded: Result<D, X>| #[trigger]
                    call_ensures(*load, (&path,), loaded) && match loaded {
                        Err(error) => {
                            &&& result == Err::<(), _>(EncryptedIniRuntimeError::Document(error))
                            &&& *final(self) == *old(self)
                        },
                        Ok(document) => {
                            &&& result is Ok
                            &&& *final(self) == (EncryptedIniRuntimeState {
                                generation: next_generation(old(self).generation),
                                path: Some(path),
                                document: Some(document),
                            })
                        },
                    },
            },
    {
        let loaded = match &self.path {
            None => {
                return Err(EncryptedIniRuntimeError::NoFile);
            },
            Some(path) => load(path),
        };
        assert(call_ensures(*load, (&old(self).path->0,), loaded));
        match loaded {
            Err(error) => Err(EncryptedIniRuntimeError::Document(error)),
            Ok(document) => {
                self.generation = advance_generation(self.generation);
                self.document = Some(document);
                Ok(())
            },
        }
    }

    /// Whether a page that shows a generation can be saved. A page that is out
    /// of date cannot, whatever is open.
    pub open spec fn save_refused<X>(self, expected_generation: u64) -> Option<
        EncryptedIniRuntimeError<X>,
    > {
        if self.generation != expected_generation {
            Some(EncryptedIniRuntimeError::StaleGeneration)
        } else if self.path is None || self.document is None {
            Some(EncryptedIniRuntimeError::NoFile)
        } else {
            None
        }
    }

    /// Saves the open file with the text and the key that a page holds. Writing
    /// it gives the document as it is afterwards, and how it went. One that
    /// could not be written keeps its generation.
    pub fn save<X, O, K, W: Fn(&P, &D, String, K) -> (D, Result<O, X>)>(
        &mut self,
        expected_generation: u64,
        plaintext: String,
        key: K,
        write: &W,
    ) -> (result: Result<O, EncryptedIniRuntimeError<X>>)
        requires
            forall|path: P, document: D, plaintext: String, key: K| #[trigger]
                call_requires(*write, (&path, &document, plaintext, key)),
        ensures
            match old(self).save_refused::<X>(expected_generation) {
                Some(error) => result == Err::<O, _>(error) && *final(self) == *old(self),
                None => exists|written: (D, Result<O, X>)| #[trigger]
                    call_ensures(
                        *write,
                        (&old(self).path->0, &old(self).document->0, plaintext, key),
                        written,
                    ) && match written.1 {
                        Err(error) => {
                            &&& result == Err::<O, _>(EncryptedIniRuntimeError::Document(error))
                            &&& *final(self) == (EncryptedIniRuntimeState {
                                document: Some(written.0),
                                ..*old(self)
                            })
                        },
                        Ok(outcome) => {
                            &&& result == Ok::<O, EncryptedIniRuntimeError<X>>(outcome)
                            &&& *final(self) == (EncryptedIniRuntimeState {
                                generation: next_generation(old(self).generation),
                                document: Some(written.0),
                                ..*old(self)
                            })
                        },
                    },
            },
    {
        if self.generation != expected_generation {
            return Err(EncryptedIniRuntimeError::StaleGeneration);
        }
        let written = match (&self.path, &self.document) {
            (Some(path), Some(document)) => write(path, document, plaintext, key),
            _ => {
                return Err(EncryptedIniRuntimeError::NoFile);
            },
        };
        assert(call_ensures(
            *write,
            (&old(self).path->0, &old(self).document->0, plaintext, key),
            written,
        ));
        let (document, outcome) = written;
        self.document = Some(document);
        match outcome {
            Err(error) => Err(EncryptedIniRuntimeError::Document(error)),
            Ok(outcome) => {
                self.generation = advance_generation(self.generation);
                Ok(outcome)
            },
        }
    }

    /// Closes the file.
    pub fn clear(&mut self)
        ensures
            *final(self) == (EncryptedIniRuntimeState::<P, D> {
                generation: next_generation(old(self).generation),
                path: None,
                document: None,
            }),
    {
        self.generation = advance_generation(self.generation);
        self.path = None;
        self.document = None;
    }

    /// What a page shows of the open file. `path_text` and `file_name` read its
    /// path, `read` its document. With no file open there is no path, and the
    /// text is empty under the key `no_key`.
    pub fn projection<
        K,
        S: Fn(&P) -> String,
        N: Fn(&P) -> Option<String>,
        R: Fn(&D) -> EncryptedIniContent<K>,
    >(&self, path_text: &S, file_name: &N, read: &R, no_key: K) -> (shown: EncryptedIniProjection<
        K,
    >)
        requires
            forall|path: P| #[trigger] call_requires(*path_text, (&path,)),
            forall|path: P| #[trigger] call_requires(*file_name, (&path,)),
            forall|document: D| #[trigger] call_requires(*read, (&document,)),
        ensures
            shown.generation == self.generation,
            match self.path {
                Some(path) => {
                    &&& shown.display_path matches Some(text)
                    &&& call_ensures(*path_text, (&path,), text)
                    &&& call_ensures(*file_name, (&path,), shown.file_name)
                },
                None => shown.display_path is None && shown.file_name is None,
            },
            match self.document {
                Some(document) => call_ensures(
                    *read,
                    (&document,),
                    EncryptedIniContent {
                        key: shown.key,
                        plaintext: shown.plaintext,
                        encrypted_line_count: shown.encrypted_line_count,
                    },
                ),
                None => {
                    &&& shown.key == no_key
                    &&& shown.plaintext@.len() == 0
                    &&& shown.encrypted_line_count == 0
                },
            },
    {
        let (display_path, name) = match &self.path {
            Some(path) => (Some(path_text(path)), file_name(path)),
            None => (None, None),
        };
        let content = match &self.document {
            Some(document) => read(document),
            None => EncryptedIniContent {
                key: no_key,
                plaintext: String::new(),
                encrypted_line_count: 0,
            },
        };
        EncryptedIniProjection {
            generation: self.generation,
            display_path,
            file_name: name,
            key: content.key,
            plaintext: content.plaintext,
            encrypted_line_count: content.encrypted_line_count,
        }
    }
}

/// A page that was drawn before the file was opened, saved or closed again
/// cannot be saved.
pub proof fn old_pages_cannot_be_saved<P, D, X>(
    before: EncryptedIniRuntimeState<P, D>,
    path: Option<P>,
    document: Option<D>,
)
    ensures
        ({
            let after = EncryptedIniRuntimeState {
                generation: next_generation(before.generation),
                path,
                document,
            };
            after.save_refused::<X>(before.generation) == Some(
                EncryptedIniRuntimeError::<X>::StaleGeneration,
            )
        }),
{
}

/// The teams of a prediction, for the upper and the lower line.
#[derive(Clone, Debug)]
pub struct PredictionTeams<T> {
    pub upper: Option<T>,
    pub lower: Option<T>,
}

/// Teams as they were exported.
#[derive(Clone, Debug)]
pub struct TeamExport<T> {
    pub single: Option<T>,
    pub upper: Option<T>,
    pub lower: Option<T>,
}

impl<T: Clone> PredictionTeams<T> {
    pub open spec fn line(self, upper: bool) -> Option<T> {
        if upper {
            self.upper
        } else {
            self.lower
        }
    }

    /// `self` with one line set.
    pub open spec fn with_line(self, upper: bool, team: Option<T>) -> Self {
        if upper {
            PredictionTeams { upper: team, ..self }
        } else {
            PredictionTeams { lower: team, ..self }
        }
    }

    /// The lines exchanged.
    pub open spec fn swapped(self) -> Self {
        PredictionTeams { upper: self.lower, lower: self.upper }
    }

    pub fn new() -> (result: Self)
        ensures
            result.upper is None,
            result.lower is None,
    {
        PredictionTeams { upper: None, lower: None }
    }

    /// Sets one line.
    pub fn set_line(&mut self, upper: bool, team: Option<T>, revision: &mut u64)
        ensures
            *final(self) == old(self).with_line(upper, team),
            *final(revision) == next_generation(*old(revision)),
    {
        if upper {
            self.upper = team;
        } else {
            self.lower = team;
        }
        *revision = advance_generation(*revision);
    }

    /// Takes both lines of an export; a line that it lacks gets its single
    /// team.
    pub fn import_team_data(&mut self, export: TeamExport<T>, revision: &mut u64)
        ensures
            *final(revision) == next_generation(*old(revision)),
            match (export.upper, export.single) {
                (Some(team), _) => final(self).upper == Some(team),
                (None, Some(team)) => final(self).upper matches Some(copy) && cloned(team, copy),
                (None, None) => final(self).upper is None,
            },
            final(self).lower == (if export.lower is Some {
                export.lower
            } else {
                export.single
            }),
    {
        self.upper =
        match export.upper {
            Some(team) => Some(team),
            None => match &export.single {
                Some(team) => Some(team.clone()),
                None => None,
            },
        };
        self.lower =
        match export.lower {
            Some(team) => Some(team),
            None => export.single,
        };
        *revision = advance_generation(*revision);
    }

    /// Takes one line of an export, or its single team. An export that has
    /// neither changes nothing.
    pub fn import_abyss_team(
        &mut self,
        export: TeamExport<T>,
        upper: bool,
        revision: &mut u64,
    ) -> (imported: bool)
        ensures
            ({
                let preferred = if upper {
                    export.upper
                } else {
                    export.lower
                };
                let team = if preferred is Some {
                    preferred
                } else {
                    export.single
                };
                &&& imported == (team is Some)
                &&& *final(self) == (if imported {
                    old(self).with_line(upper, team)
                } else {
                    *old(self)
                })
                &&& *final(revision) == (if imported {
                    next_generation(*old(revision))
                } else {
                    *old(revision)
                })
            }),
    {
        let preferred = if upper {
            export.upper
        } else {
            export.lower
        };
        let team = match preferred {
            Some(team) => Some(team),
            None => export.single,
        };
        if team.is_none() {
            return false;
        }
        self.set_line(upper, team, revision);
        true
    }

    /// Exchanges the lines.
    pub fn swap_abyss_teams(&mut self, revision: &mut u64)
        ensures
            *final(self) == old(self).swapped(),
            *final(revision) == next_generation(*old(revision)),
    {
        std::mem::swap(&mut self.upper, &mut self.lower);
        *revision = advance_generation(*revision);
    }
}

/// Setting a line leaves the other, and exchanging the lines twice leaves both.
pub proof fn prediction_lines_stay_apart<T: Clone>(
    teams: PredictionTeams<T>,
    upper: bool,
    team: Option<T>,
)
    ensures
        teams.with_line(upper, team).line(upper) == team,
        teams.with_line(upper, team).line(!upper) == teams.line(!upper),
        teams.swapped().line(upper) == teams.line(!upper),
        teams.swapped().swapped() == teams,
{
}

/// The team that a session offers for a line: within a challenge that of the
/// half, else its only one.
pub open spec fn offered<T>(
    export: Option<TeamExport<T>>,
    abyss_active: bool,
    upper: bool,
) -> Option<T> {
    match export {
        None => None,
        Some(export) => if !abyss_active {
            export.single
        } else if upper {
            export.upper
        } else {
            export.lower
        },
    }
}

/// Picks the team that a session offers for a line.
pub fn offered_team<T: Clone>(export: Option<TeamExport<T>>, abyss_active: bool, upper: bool) -> (
    team: Option<T>)
    ensures
        team == offered(export, abyss_active, upper),
{
    match export {
        None => None,
        Some(export) => if !abyss_active {
            export.single
        } else if upper {
            export.upper
        } else {
            export.lower
        },
    }
}

/// The engine exports the teams of every session.
pub open spec fn exports_all<
    T,
    X: Fn(&CombatState, bool, bool, Option<&T>, Option<&T>) -> Option<TeamExport<T>>,
>(export: X) -> bool {
    forall|
        state: CombatState,
        subtract_time_stop: bool,
        separate_reaction_damage: bool,
        upper: Option<&T>,
        lower: Option<&T>,
    | #[trigger]
        call_requires(
            export,
            (&state, subtract_time_stop, separate_reaction_damage, upper, lower),
        )
}

/// Whether the engine exports these teams of the presented session, as the
/// settings have it read and with the imported teams given.
pub open spec fn exports_presented<
    T,
    X: Fn(&CombatState, bool, bool, Option<&T>, Option<&T>) -> Option<TeamExport<T>>,
>(
    export: X,
    app: AppState,
    upper: Option<&T>,
    lower: Option<&T>,
    exported: Option<TeamExport<T>>,
) -> bool {
    let capture = app.settings.config.plain.capture;
    call_ensures(
        export,
        (
            &app.presents(),
            capture.dps_time_mode == DpsTimeMode::TimeStopAdjusted,
            capture.separate_reaction_damage,
            upper,
            lower,
        ),
        exported,
    )
}

/// What an optional value refers to.
pub open spec fn borrowed<T>(value: Option<T>) -> Option<&'static T> {
    match value {
        Some(value) => Some(&value),
        None => None,
    }
}

impl AppState {
    fn exported<
        T,
        X: Fn(&CombatState, bool, bool, Option<&T>, Option<&T>) -> Option<TeamExport<T>>,
    >(&mut self, upper: Option<&T>, lower: Option<&T>, export: &X) -> (exported: Option<
        TeamExport<T>,
    >)
        requires
            exports_all(*export),
        ensures
            *final(self) == old(self).refreshed(),
            exports_presented(*export, *old(self), upper, lower, exported),
    {
        let capture = self.settings.config.plain.capture;
        self.refresh();
        export(
            self.presentation.presented(&self.live.state),
            capture.dps_time_mode.subtracts_time_stop(),
            capture.separate_reaction_damage,
            upper,
            lower,
        )
    }

    /// Exports the teams of the presented session with the imported ones.
    pub fn export_team_data<
        T: Clone,
        X: Fn(&CombatState, bool, bool, Option<&T>, Option<&T>) -> Option<TeamExport<T>>,
    >(&mut self, teams: &PredictionTeams<T>, export: &X) -> (exported: Option<TeamExport<T>>)
        requires
            exports_all(*export),
        ensures
            *final(self) == old(self).refreshed(),
            exports_presented(
                *export,
                *old(self),
                borrowed(teams.upper),
                borrowed(teams.lower),
                exported,
            ),
    {
        let upper: Option<&T> = match &teams.upper {
            Some(team) => Some(team),
            None => None,
        };
        let lower: Option<&T> = match &teams.lower {
            Some(team) => Some(team),
            None => None,
        };
        self.exported(upper, lower, export)
    }

    /// The team that the presented session offers for a line.
    pub fn current_abyss_team<
        T: Clone,
        X: Fn(&CombatState, bool, bool, Option<&T>, Option<&T>) -> Option<TeamExport<T>>,
    >(&mut self, upper: bool, export: &X) -> (team: Option<T>)
        requires
            exports_all(*export),
        ensures
            *final(self) == old(self).refreshed(),
            exists|exported: Option<TeamExport<T>>| #[trigger]
                exports_presented(*export, *old(self), None, None, exported) && team == offered(
                    exported,
                    old(self).presents().battle.abyss.active,
                    upper,
                ),
    {
        let exported = self.exported(None, None, export);
        let active = self.presentation.presented(&self.live.state).battle.abyss.is_active();
        offered_team(exported, active, upper)
    }

    /// Takes the team that the presented session offers for a line. Where it
    /// offers none, no line changes.
    pub fn import_current_abyss_team<
        T: Clone,
        X: Fn(&CombatState, bool, bool, Option<&T>, Option<&T>) -> Option<TeamExport<T>>,
    >(&mut self, teams: &mut PredictionTeams<T>, upper: bool, export: &X) -> (imported: bool)
        requires
            exports_all(*export),
        ensures
            exists|exported: Option<TeamExport<T>>|
                {
                    let team = offered(exported, old(self).presents().battle.abyss.active, upper);
                    let shown = old(self).refreshed();
                    &&& #[trigger] exports_presented(*export, *old(self), None, None, exported)
                    &&& imported == (team is Some)
                    &&& *final(teams) == (if imported {
                        old(teams).with_line(upper, team)
                    } else {
                        *old(teams)
                    })
                    &&& *final(self) == (if imported {
                        AppState {
                            settings: SettingsStore {
                                settings_revision: next_generation(
                                    shown.settings.settings_revision,
                                ),
                                ..shown.settings
                            },
                            ..shown
                        }
                    } else {
                        shown
                    })
                },
    {
        let team = self.current_abyss_team(upper, export);
        if team.is_none() {
            return false;
        }
        teams.set_line(upper, team, &mut self.settings.settings_revision);
        true
    }
}

} // verus!
