use r_games_launcher::config::Config;
use r_games_launcher::error::GameError;
use r_games_launcher::manager::{Action, GameManager, InstallEvent, LaunchEvent, UninstallEvent};
use r_games_launcher::record::InstalledGame;

/// An in-memory stand-in for the credential store, the catalog, the
/// filesystem and the process table.
struct World {
    token: Option<String>,
    manifest: Result<String, GameError>,
    dirs: Vec<String>,
    files: Vec<String>,
    registry: Vec<(String, String)>,
    remove_dir_fails: bool,
    spawned: Vec<(String, String)>,
}

impl World {
    fn new() -> World {
        World {
            token: Some("tok".to_string()),
            manifest: Ok("manifest-1".to_string()),
            dirs: Vec::new(),
            files: Vec::new(),
            registry: Vec::new(),
            remove_dir_fails: false,
            spawned: Vec::new(),
        }
    }

    fn read(&self, name: &str) -> Option<String> {
        self.registry.iter().find(|(n, _)| n == name).map(|(_, t)| t.clone())
    }

    fn write(&mut self, name: String, text: String) {
        self.registry.retain(|(n, _)| *n != name);
        self.registry.push((name, text));
    }

    fn has_path(&self, path: &str) -> bool {
        self.dirs.iter().any(|d| d == path) || self.files.iter().any(|f| f == path)
    }

    fn register(&mut self, g: &InstalledGame) {
        let f = g.save();
        self.write(f.name, f.text);
    }
}

fn manager() -> GameManager {
    GameManager::new(Config {
        install_dir: "/games".to_string(),
        data_dir: "/data".to_string(),
        log_level: "info".to_string(),
    })
}

fn install(m: &GameManager, w: &mut World, app: &str) -> Result<(), GameError> {
    let mut ev = InstallEvent::Start;
    loop {
        ev = match m.install_game(app, ev) {
            Action::FetchToken => InstallEvent::Token(w.token.clone()),
            Action::ResolveManifest { token, app_name } => {
                assert_eq!(token, "tok");
                assert_eq!(app_name, app);
                InstallEvent::Manifest(w.manifest.clone())
            }
            Action::CreateDir { path } => {
                w.dirs.push(path);
                InstallEvent::DirCreated(Ok(()))
            }
            Action::WriteRecord(f) => {
                w.write(f.name, f.text);
                InstallEvent::RecordWritten(Ok(()))
            }
            Action::Finish(r) => return r,
            _ => panic!("unexpected action"),
        };
    }
}

fn launch(m: &GameManager, w: &mut World, app: &str) -> Result<(), GameError> {
    let mut ev = LaunchEvent::Start;
    loop {
        ev = match m.launch_game(app, ev) {
            Action::ReadRecord { name } => LaunchEvent::RecordRead(Ok(w.read(&name))),
            Action::CheckPath { path, game } => {
                LaunchEvent::ExecutableChecked { found: w.has_path(&path), game }
            }
            Action::Spawn { program, working_dir } => {
                w.spawned.push((program, working_dir));
                LaunchEvent::Spawned(Ok(()))
            }
            Action::Finish(r) => return r,
            _ => panic!("unexpected action"),
        };
    }
}

fn uninstall(m: &GameManager, w: &mut World, app: &str) -> Result<(), GameError> {
    let mut ev = UninstallEvent::Start;
    loop {
        ev = match m.uninstall_game(app, ev) {
            Action::ReadRecord { name } => UninstallEvent::RecordRead(Ok(w.read(&name))),
            Action::CheckPath { path, game } => {
                UninstallEvent::InstallDirChecked { found: w.has_path(&path), game }
            }
            Action::RemoveDir { path } => {
                if w.remove_dir_fails {
                    UninstallEvent::InstallDirRemoved(Err("permission denied".to_string()))
                } else {
                    w.dirs.retain(|d| *d != path);
                    UninstallEvent::InstallDirRemoved(Ok(()))
                }
            }
            Action::RemoveRecord { name } => {
                w.registry.retain(|(n, _)| *n != name);
                UninstallEvent::RecordRemoved(Ok(()))
            }
            Action::Finish(r) => return r,
            _ => panic!("unexpected action"),
        };
    }
}

fn beta() -> InstalledGame {
    InstalledGame {
        app_name: "beta".to_string(),
        app_title: "Beta".to_string(),
        app_version: "1.0.0".to_string(),
        install_path: "/games/beta".to_string(),
        executable: "beta.exe".to_string(),
    }
}

#[test]
fn install_alpha_creates_dir_and_record() {
    let m = manager();
    let mut w = World::new();
    assert!(install(&m, &mut w, "alpha").is_ok());
    assert_eq!(w.dirs, vec!["/games/alpha".to_string()]);
    let g = InstalledGame::load(w.read("alpha.game")).unwrap();
    assert_eq!(g.app_name, "alpha");
    assert_eq!(g.app_title, "alpha");
    assert_eq!(g.app_version, "1.0.0");
    assert_eq!(g.install_path, "/games/alpha");
    assert_eq!(g.executable, "alpha.exe");
}

#[test]
fn reinstall_overwrites_record() {
    let m = manager();
    let mut w = World::new();
    install(&m, &mut w, "alpha").unwrap();
    install(&m, &mut w, "alpha").unwrap();
    assert_eq!(w.registry.len(), 1);
    let entries: Vec<r_games_launcher::store::RegistryEntry> = w
        .registry
        .iter()
        .map(|(n, t)| r_games_launcher::store::RegistryEntry {
            name: n.clone(),
            contents: Some(t.clone()),
        })
        .collect();
    assert_eq!(m.list_installed(&entries).len(), 1);
}

#[test]
fn install_without_credential_is_auth_required() {
    let m = manager();
    let mut w = World::new();
    w.token = None;
    assert!(matches!(install(&m, &mut w, "gamma"), Err(GameError::AuthRequired)));
    assert!(w.dirs.is_empty());
    assert!(w.registry.is_empty());
}

#[test]
fn install_passes_catalog_failure_through() {
    let m = manager();
    let mut w = World::new();
    w.manifest = Err(GameError::GameNotFound);
    assert!(matches!(install(&m, &mut w, "zeta"), Err(GameError::GameNotFound)));
    w.manifest = Err(GameError::CatalogError("timeout".to_string()));
    match install(&m, &mut w, "zeta") {
        Err(GameError::CatalogError(msg)) => assert_eq!(msg, "timeout"),
        _ => panic!("expected a catalog error"),
    }
    assert!(w.dirs.is_empty());
    assert!(w.registry.is_empty());
}

#[test]
fn install_dir_failure_writes_no_record() {
    let m = manager();
    let a = m.install_game("eta", InstallEvent::DirCreated(Err("read-only".to_string())));
    match a {
        Action::Finish(Err(GameError::IoError(msg))) => assert_eq!(msg, "read-only"),
        _ => panic!("expected an io error"),
    }
}

#[test]
fn launch_with_missing_executable_fails() {
    let m = manager();
    let mut w = World::new();
    w.register(&beta());
    w.dirs.push("/games/beta".to_string());
    match launch(&m, &mut w, "beta") {
        Err(GameError::ExecutableMissing(p)) => assert_eq!(p, "/games/beta/beta.exe"),
        _ => panic!("expected ExecutableMissing"),
    }
    assert!(w.spawned.is_empty());
}

#[test]
fn launch_spawns_in_install_dir() {
    let m = manager();
    let mut w = World::new();
    w.register(&beta());
    w.files.push("/games/beta/beta.exe".to_string());
    assert!(launch(&m, &mut w, "beta").is_ok());
    assert_eq!(
        w.spawned,
        vec![("/games/beta/beta.exe".to_string(), "/games/beta".to_string())]
    );
}

#[test]
fn launch_spawn_failure_is_launch_failed() {
    let m = manager();
    let a = m.launch_game("beta", LaunchEvent::Spawned(Err("no loader".to_string())));
    assert!(matches!(a, Action::Finish(Err(GameError::LaunchFailed(_)))));
}

#[test]
fn launch_unregistered_is_not_found() {
    let m = manager();
    let mut w = World::new();
    assert!(matches!(launch(&m, &mut w, "omega"), Err(GameError::NotFound)));
}

#[test]
fn uninstall_unregistered_is_not_found() {
    let m = manager();
    let mut w = World::new();
    assert!(matches!(uninstall(&m, &mut w, "delta"), Err(GameError::NotFound)));
}

#[test]
fn uninstall_failed_removal_keeps_record() {
    let m = manager();
    let mut w = World::new();
    w.register(&beta());
    w.dirs.push("/games/beta".to_string());
    w.remove_dir_fails = true;
    assert!(matches!(uninstall(&m, &mut w, "beta"), Err(GameError::IoError(_))));
    assert!(InstalledGame::load(w.read("beta.game")).is_ok());
    w.remove_dir_fails = false;
    assert!(uninstall(&m, &mut w, "beta").is_ok());
    assert!(matches!(InstalledGame::load(w.read("beta.game")), Err(GameError::NotFound)));
}

#[test]
fn uninstall_removes_files_then_record() {
    let m = manager();
    let mut w = World::new();
    w.register(&beta());
    w.dirs.push("/games/beta".to_string());
    assert!(uninstall(&m, &mut w, "beta").is_ok());
    assert!(w.dirs.is_empty());
    assert!(matches!(InstalledGame::load(w.read("beta.game")), Err(GameError::NotFound)));
}

#[test]
fn uninstall_with_absent_dir_removes_record() {
    let m = manager();
    let mut w = World::new();
    w.register(&beta());
    assert!(uninstall(&m, &mut w, "beta").is_ok());
    assert!(w.registry.is_empty());
}

#[test]
fn delete_of_absent_record_is_no_op() {
    let mut w = World::new();
    w.register(&beta());
    let name = InstalledGame { app_name: "ghost".to_string(), ..beta() }.delete();
    w.registry.retain(|(n, _)| *n != name);
    assert_eq!(w.registry.len(), 1);
}

#[test]
fn list_library_needs_token() {
    let m = manager();
    assert!(matches!(m.list_library(None), Err(GameError::AuthRequired)));
    assert_eq!(m.list_library(Some("tok".to_string())).unwrap(), "tok");
}

#[test]
fn manager_lists_installed_records() {
    let m = manager();
    let f = beta().save();
    let entries = vec![r_games_launcher::store::RegistryEntry { name: f.name, contents: Some(f.text) }];
    let listed = m.list_installed(&entries);
    assert_eq!(listed.len(), 1);
    assert_eq!(listed[0].app_name, "beta");
    assert_eq!(m.registry_dir(), "/data/installed");
    assert_eq!(m.install_path_for("beta"), "/games/beta");
}
