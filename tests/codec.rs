use r_games_launcher::codec::{decode_record, encode_record};
use r_games_launcher::record::InstalledGame;

fn game(name: &str, path: &str) -> InstalledGame {
    InstalledGame {
        app_name: name.to_string(),
        app_title: format!("{} title", name),
        app_version: "2.1".to_string(),
        install_path: path.to_string(),
        executable: format!("bin/{}.exe", name),
    }
}

fn same(a: &InstalledGame, b: &InstalledGame) -> bool {
    a.app_name == b.app_name
        && a.app_title == b.app_title
        && a.app_version == b.app_version
        && a.install_path == b.install_path
        && a.executable == b.executable
}

#[test]
fn encode_gives_one_escaped_line_per_field() {
    let g = InstalledGame {
        app_name: "a".to_string(),
        app_title: "x\\y".to_string(),
        app_version: "1\n2".to_string(),
        install_path: "/g/a".to_string(),
        executable: "".to_string(),
    };
    assert_eq!(encode_record(&g), "a\nx\\\\y\n1\\n2\n/g/a\n\n");
}

#[test]
fn decode_reads_back_plain_record() {
    let g = game("alpha", "/games/alpha");
    let back = decode_record(&encode_record(&g)).unwrap();
    assert!(same(&g, &back));
}

#[test]
fn decode_reads_back_escapes_and_unicode() {
    let mut g = game("ünï\\code", "/games/with\nnewline");
    g.app_title = "\\n is not a newline\\".to_string();
    g.app_version = String::new();
    let back = decode_record(&encode_record(&g)).unwrap();
    assert!(same(&g, &back));
}

#[test]
fn decode_rejects_wrong_field_count() {
    assert!(decode_record("a\nb\nc\nd\n").is_none());
    assert!(decode_record("a\nb\nc\nd\ne\nf\n").is_none());
    assert!(decode_record("").is_none());
}

#[test]
fn decode_rejects_missing_final_line_break() {
    assert!(decode_record("a\nb\nc\nd\ne").is_none());
}

#[test]
fn decode_rejects_bad_escape() {
    assert!(decode_record("a\\q\nb\nc\nd\ne\n").is_none());
    assert!(decode_record("a\nb\nc\nd\ne\\").is_none());
}

#[test]
fn decode_accepts_handwritten_record() {
    let g = decode_record("beta\nBeta Game\n1.0.0\n/games/beta\nbeta.exe\n").unwrap();
    assert_eq!(g.app_name, "beta");
    assert_eq!(g.app_title, "Beta Game");
    assert_eq!(g.app_version, "1.0.0");
    assert_eq!(g.install_path, "/games/beta");
    assert_eq!(g.executable, "beta.exe");
}
