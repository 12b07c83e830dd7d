use vstd::prelude::*;

verus! {

/// One locally registered game.
///
/// `install_path` is the absolute root directory of the installed game and
/// `executable` the launchable binary, relative to that root.
#[derive(Clone, Debug)]
pub struct InstalledGame {
    pub app_name: String,
    pub app_title: String,
    pub app_version: String,
    pub install_path: String,
    pub executable: String,
}

/// The mathematical value of an `InstalledGame`: its five fields as text.
pub struct GameView {
    pub app_name: Seq<char>,
    pub app_title: Seq<char>,
    pub app_version: Seq<char>,
    pub install_path: Seq<char>,
    pub executable: Seq<char>,
}

impl View for InstalledGame {
    type V = GameView;

    open spec fn view(&self) -> GameView {
        GameView {
            app_name: self.app_name@,
            app_title: self.app_title@,
            app_version: self.app_version@,
            install_path: self.install_path@,
            executable: self.executable@,
        }
    }
}

/// The fields of a record, in the order in which they are stored.
pub open spec fn record_fields(g: GameView) -> Seq<Seq<char>> {
    seq![g.app_name, g.app_title, g.app_version, g.install_path, g.executable]
}

/// The record whose stored fields are `f` (which holds five of them).
pub open spec fn record_from_fields(f: Seq<Seq<char>>) -> GameView {
    GameView {
        app_name: f[0],
        app_title: f[1],
        app_version: f[2],
        install_path: f[3],
        executable: f[4],
    }
}

} // verus!
