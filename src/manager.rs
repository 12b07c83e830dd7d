//! The lifecycle manager. Each operation is a step function: it is handed
//! the outcome of the previous action (or `Start`) and names the next action,
//! which the caller performs against the catalog, the credential store, the
//! filesystem or the process table, until the action is `Finish`.
use vstd::prelude::*;

use crate::codec::encode_view;
use crate::config::{join, join_path, Config};
use crate::error::{ErrorKind, GameError};
use crate::record::{GameView, InstalledGame};
use crate::store::{
    dir_after_delete, dir_after_save, lemma_delete_then_load, lemma_save_then_load, listed, load_view, opt_text, record_file_for,
    record_file_name, stored_record, Loaded, RecordFile, RegistryDir, RegistryEntry,
};

verus! {

/// Version recorded for an install while no content pipeline supplies one.
pub open spec fn default_version() -> Seq<char> {
    seq!['1', '.', '0', '.', '0']
}

pub open spec fn exe_suffix() -> Seq<char> {
    seq!['.', 'e', 'x', 'e']
}

/// The record that installing `app_name` under `install_dir` creates.
pub open spec fn install_view(install_dir: Seq<char>, app_name: Seq<char>) -> GameView {
    GameView {
        app_name: app_name,
        app_title: app_name,
        app_version: default_version(),
        install_path: join_path(install_dir, app_name),
        executable: app_name + exe_suffix(),
    }
}

/// The next thing to do.
pub enum Action {
    /// Ask the credential manager for a valid token.
    FetchToken,
    /// Ask the catalog for the install manifest of `app_name`.
    ResolveManifest { token: String, app_name: String },
    /// Create directory `path`, with any missing parents.
    CreateDir { path: String },
    /// Make sure the registry directory found, then write this record file
    /// into it, replacing any file of that name.
    WriteRecord(RecordFile),
    /// Read the record file `name` of the registry directory.
    ReadRecord { name: String },
    /// Tell whether `path` found; `game` is handed back with the answer.
    CheckPath { path: String, game: InstalledGame },
    /// Start `program` as a detached child process in `working_dir`.
    Spawn { program: String, working_dir: String },
    /// Remove directory `path` with everything in it.
    RemoveDir { path: String },
    /// Remove the record file `name` of the registry directory if present.
    RemoveRecord { name: String },
    /// The operation is over, with this result.
    Finish(Result<(), GameError>),
}

/// What happened in the previous step of an install.
pub enum InstallEvent {
    Start,
    Token(Option<String>),
    Manifest(Result<String, GameError>),
    DirCreated(Result<(), String>),
    RecordWritten(Result<(), String>),
}

/// What happened in the previous step of a launch.
pub enum LaunchEvent {
    Start,
    /// The record file's contents (`None` when there is no such file), or
    /// the message of a read failure.
    RecordRead(Result<Option<String>, String>),
    ExecutableChecked { game: InstalledGame, found: bool },
    Spawned(Result<(), String>),
}

/// What happened in the previous step of an uninstall.
pub enum UninstallEvent {
    Start,
    /// The record file's contents (`None` when there is no such file), or
    /// the message of a read failure.
    RecordRead(Result<Option<String>, String>),
    InstallDirChecked { game: InstalledGame, found: bool },
    InstallDirRemoved(Result<(), String>),
    RecordRemoved(Result<(), String>),
}

/// `a` ends the operation with error `e`.
pub open spec fn finishes_with(a: Action, e: ErrorKind) -> bool {
    a is Finish && a->Finish_0 is Err && a->Finish_0->Err_0@ == e
}

/// `a` ends the operation successfully.
pub open spec fn finishes_ok(a: Action) -> bool {
    a is Finish && a->Finish_0 is Ok
}

/// What an action does to the registry directory.
pub open spec fn apply_action(dir: RegistryDir, a: Action) -> RegistryDir {
    match a {
        Action::WriteRecord(f) => dir.insert(f.name@, f.text@),
        Action::RemoveRecord { name } => dir.remove(name@),
        _ => dir,
    }
}

/// Whether `a` is the right step after reading a record file: a failed read
/// or a missing or corrupt record ends the operation with that error, and a
/// record that loads is handed on with a check of the path `path_of` gives.
pub open spec fn read_then_check(
    read: Result<Option<String>, String>,
    a: Action,
    path_of: spec_fn(GameView) -> Seq<char>,
) -> bool {
    match read {
        Err(m) => finishes_with(a, ErrorKind::IoError(m@)),
        Ok(stored) => match load_view(opt_text(stored)) {
            Loaded::Found(g) => a is CheckPath && a->CheckPath_game@ == g && a->CheckPath_path@
                == path_of(g),
            Loaded::Missing => finishes_with(a, ErrorKind::NotFound),
            Loaded::Corrupt => finishes_with(a, ErrorKind::CorruptRecord),
        },
    }
}

fn finish_err(e: GameError) -> (r: Action)
    ensures
        finishes_with(r, e@),
{
    Action::Finish(Err(e))
}

fn io_failure(m: String) -> (r: Action)
    ensures
        finishes_with(r, ErrorKind::IoError(m@)),
{
    Action::Finish(Err(GameError::IoError(m)))
}

/// Runs install, launch and uninstall for one configuration.
pub struct GameManager {
    pub config: Config,
}

impl GameManager {
    pub fn new(config: Config) -> (r: GameManager)
        ensures
            r.config == config,
    {
        GameManager { config }
    }

    /// The registry directory of this configuration.
    pub fn registry_dir(&self) -> (r: String)
        ensures
            r@ == join_path(
                self.config.data_dir@,
                crate::store::registry_name(),
            ),
    {
        InstalledGame::installed_games_dir(&self.config)
    }

    /// The installed records among the files of the registry directory.
    pub fn list_installed(&self, entries: &Vec<RegistryEntry>) -> (r: Vec<InstalledGame>)
        ensures
            r@.map_values(|g: InstalledGame| g@) == listed(
                entries@.map_values(|e: RegistryEntry| e@),
            ),
    {
        InstalledGame::list_installed(entries)
    }

    /// The token to list the remote library with, or `AuthRequired` when
    /// the credential manager has none. The catalog's answer to that request
    /// is handed to the caller unchanged.
    pub fn list_library(&self, token: Option<String>) -> (r: Result<String, GameError>)
        ensures
            match token {
                Some(t) => r is Ok && r->Ok_0@ == t@,
                None => r is Err && r->Err_0 is AuthRequired,
            },
    {
        match token {
            Some(t) => Ok(t),
            None => Err(GameError::AuthRequired),
        }
    }

    /// The directory a game named `app_name` is installed into.
    pub fn install_path_for(&self, app_name: &str) -> (r: String)
        ensures
            r@ == join_path(self.config.install_dir@, app_name@),
    {
        join(self.config.install_dir.as_str(), app_name)
    }

    /// The record that installing `app_name` writes: the name doubles as
    /// title, the version is a default marker and the executable is named
    /// after the game.
    pub fn install_record(&self, app_name: &str) -> (r: InstalledGame)
        ensures
            r@ == install_view(self.config.install_dir@, app_name@),
    {
        let mut executable = String::from_str(app_name);
        executable.append(".exe");
        proof {
            reveal_strlit(".exe");
            reveal_strlit("1.0.0");
        }
        assert(executable@ =~= app_name@ + exe_suffix());
        let version = String::from_str("1.0.0");
        assert(version@ =~= default_version());
        InstalledGame {
            app_name: String::from_str(app_name),
            app_title: String::from_str(app_name),
            app_version: version,
            install_path: self.install_path_for(app_name),
            executable,
        }
    }

    /// One step of installing `app_name`: fetch a token, resolve the
    /// manifest with it, create the install directory, write the record.
    /// Each failure ends the operation; no record is written unless the
    /// directory was created.
    pub fn install_game(&self, app_name: &str, event: InstallEvent) -> (r: Action)
        ensures
            match event {
                InstallEvent::Start => r is FetchToken,
                InstallEvent::Token(None) => finishes_with(r, ErrorKind::AuthRequired),
                InstallEvent::Token(Some(t)) => r is ResolveManifest && r->ResolveManifest_token@
                    == t@ && r->ResolveManifest_app_name@ == app_name@,
                InstallEvent::Manifest(Err(e)) => finishes_with(r, e@),
                InstallEvent::Manifest(Ok(_)) => r is CreateDir && r->CreateDir_path@ == join_path(
                    self.config.install_dir@,
                    app_name@,
                ),
                InstallEvent::DirCreated(Err(m)) => finishes_with(r, ErrorKind::IoError(m@)),
                InstallEvent::DirCreated(Ok(())) => r is WriteRecord && r->WriteRecord_0.name@
                    == record_file_name(app_name@) && r->WriteRecord_0.text@
                    == encode_view(install_view(self.config.install_dir@, app_name@)),
                InstallEvent::RecordWritten(Err(m)) => finishes_with(r, ErrorKind::IoError(m@)),
                InstallEvent::RecordWritten(Ok(())) => finishes_ok(r),
            },
            !(event is DirCreated && event->DirCreated_0 is Ok) ==> forall|dir: RegistryDir|
                #[trigger] apply_action(dir, r) == dir,
            // once the directory exists, the written record loads under the name
            event is DirCreated && event->DirCreated_0 is Ok ==> forall|dir: RegistryDir|
                #[trigger] load_view(stored_record(apply_action(dir, r), app_name@))
                    == Loaded::Found(install_view(self.config.install_dir@, app_name@)),
    {
        let r = match event {
            InstallEvent::Start => Action::FetchToken,
            InstallEvent::Token(None) => finish_err(GameError::AuthRequired),
            InstallEvent::Token(Some(token)) => Action::ResolveManifest {
                token,
                app_name: String::from_str(app_name),
            },
            InstallEvent::Manifest(Err(e)) => finish_err(e),
            InstallEvent::Manifest(Ok(_)) => Action::CreateDir { path: self.install_path_for(app_name) },
            InstallEvent::DirCreated(Err(m)) => io_failure(m),
            InstallEvent::DirCreated(Ok(())) => Action::WriteRecord(
                self.install_record(app_name).save(),
            ),
            InstallEvent::RecordWritten(Err(m)) => io_failure(m),
            InstallEvent::RecordWritten(Ok(())) => Action::Finish(Ok(())),
        };
        proof {
            let g = install_view(self.config.install_dir@, app_name@);
            assert forall|dir: RegistryDir| r is WriteRecord && r->WriteRecord_0.name@
                == record_file_name(app_name@) && r->WriteRecord_0.text@ == encode_view(
                g,
            ) implies #[trigger] load_view(stored_record(apply_action(dir, r), app_name@))
                == Loaded::Found(g) by {
                lemma_save_then_load(dir, g);
                assert(apply_action(dir, r) == dir_after_save(dir, g));
            }
        }
        r
    }

    /// Reads the record, or ends the operation with the read or load failure.
    fn after_read(
        read: Result<Option<String>, String>,
        executable_path: bool,
    ) -> (r: Action)
        ensures
            read_then_check(
                read,
                r,
                |g: GameView|
                    if executable_path {
                        join_path(g.install_path, g.executable)
                    } else {
                        g.install_path
                    },
            ),
    {
        match read {
            Err(m) => io_failure(m),
            Ok(stored) => match InstalledGame::load(stored) {
                Err(e) => finish_err(e),
                Ok(game) => {
                    let path = if executable_path {
                        join(game.install_path.as_str(), game.executable.as_str())
                    } else {
                        game.install_path.clone()
                    };
                    Action::CheckPath { path, game }
                },
            },
        }
    }

    /// One step of launching `app_name`: read its record, check that the
    /// executable found, start it in the install directory without waiting.
    pub fn launch_game(&self, app_name: &str, event: LaunchEvent) -> (r: Action)
        ensures
            match event {
                LaunchEvent::Start => r is ReadRecord && r->ReadRecord_name@ == record_file_name(
                    app_name@,
                ),
                LaunchEvent::RecordRead(read) => read_then_check(
                    read,
                    r,
                    |g: GameView| join_path(g.install_path, g.executable),
                ),
                LaunchEvent::ExecutableChecked { game, found } => if found {
                    r is Spawn && r->Spawn_program@ == join_path(
                        game.install_path@,
                        game.executable@,
                    ) && r->Spawn_working_dir@ == game.install_path@
                } else {
                    finishes_with(
                        r,
                        ErrorKind::ExecutableMissing(
                            join_path(game.install_path@, game.executable@),
                        ),
                    )
                },
                LaunchEvent::Spawned(Err(m)) => finishes_with(r, ErrorKind::LaunchFailed(m@)),
                LaunchEvent::Spawned(Ok(())) => finishes_ok(r),
            },
            forall|dir: RegistryDir| apply_action(dir, r) == dir,
    {
        match event {
            LaunchEvent::Start => Action::ReadRecord { name: record_file_for(app_name) },
            LaunchEvent::RecordRead(read) => Self::after_read(read, true),
            LaunchEvent::ExecutableChecked { game, found } => {
                let program = join(game.install_path.as_str(), game.executable.as_str());
                if found {
                    Action::Spawn { program, working_dir: game.install_path }
                } else {
                    finish_err(GameError::ExecutableMissing(program))
                }
            },
            LaunchEvent::Spawned(Err(m)) => finish_err(GameError::LaunchFailed(m)),
            LaunchEvent::Spawned(Ok(())) => Action::Finish(Ok(())),
        }
    }

    /// One step of uninstalling `app_name`: read its record, remove the
    /// install directory if it found, and only then remove the record file.
    /// When removing the directory fails, the record stays where it was.
    pub fn uninstall_game(&self, app_name: &str, event: UninstallEvent) -> (r: Action)
        ensures
            match event {
                UninstallEvent::Start => r is ReadRecord && r->ReadRecord_name@ == record_file_name(
                    app_name@,
                ),
                UninstallEvent::RecordRead(read) => read_then_check(
                    read,
                    r,
                    |g: GameView| g.install_path,
                ),
                UninstallEvent::InstallDirChecked { game, found } => if found {
                    r is RemoveDir && r->RemoveDir_path@ == game.install_path@
                } else {
                    r is RemoveRecord && r->RemoveRecord_name@ == record_file_name(app_name@)
                },
                UninstallEvent::InstallDirRemoved(Err(m)) => finishes_with(
                    r,
                    ErrorKind::IoError(m@),
                ),
                UninstallEvent::InstallDirRemoved(Ok(())) => r is RemoveRecord
                    && r->RemoveRecord_name@ == record_file_name(app_name@),
                UninstallEvent::RecordRemoved(Err(m)) => finishes_with(r, ErrorKind::IoError(m@)),
                UninstallEvent::RecordRemoved(Ok(())) => finishes_ok(r),
            },
            // a failed removal of the files keeps the record loadable
            event is InstallDirRemoved && event->InstallDirRemoved_0 is Err ==> forall|
                dir: RegistryDir,
            | #[trigger] apply_action(dir, r) == dir,
            // once the files are gone (or were never there) the record goes too
            (event is InstallDirRemoved && event->InstallDirRemoved_0 is Ok) || (
            event is InstallDirChecked && !event->InstallDirChecked_found) ==> forall|
                dir: RegistryDir,
            | #[trigger] load_view(stored_record(apply_action(dir, r), app_name@))
                == Loaded::Missing,
    {
        let r = match event {
            UninstallEvent::Start => Action::ReadRecord { name: record_file_for(app_name) },
            UninstallEvent::RecordRead(read) => Self::after_read(read, false),
            UninstallEvent::InstallDirChecked { game, found } => {
                if found {
                    Action::RemoveDir { path: game.install_path }
                } else {
                    Action::RemoveRecord { name: record_file_for(app_name) }
                }
            },
            UninstallEvent::InstallDirRemoved(Err(m)) => io_failure(m),
            UninstallEvent::InstallDirRemoved(Ok(())) => Action::RemoveRecord {
                name: record_file_for(app_name),
            },
            UninstallEvent::RecordRemoved(Err(m)) => io_failure(m),
            UninstallEvent::RecordRemoved(Ok(())) => Action::Finish(Ok(())),
        };
        proof {
            assert forall|dir: RegistryDir| r is RemoveRecord && r->RemoveRecord_name@
                == record_file_name(app_name@) implies #[trigger] load_view(
                stored_record(apply_action(dir, r), app_name@),
            ) == Loaded::Missing by {
                lemma_delete_then_load(dir, app_name@);
                assert(apply_action(dir, r) == dir_after_delete(dir, app_name@));
            }
        }
        r
    }
}

} // verus!
