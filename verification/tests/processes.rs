use gprofiles::extract::{bgra_to_rgba, encode_wide, foreground_apps, icon_buffer_size, ForegroundWindow};
use gprofiles::processes::{get_processes, resolve_path, select_executables, Candidate, RunningProcess};

fn text(value: &str) -> String {
    value.to_string()
}

fn process(name: &str, executable: Option<&str>) -> RunningProcess {
    RunningProcess { name: text(name), executable: executable.map(text) }
}

fn candidate(matches: bool, in_system_folder: bool, executable: Option<&str>) -> Candidate {
    Candidate { matches, in_system_folder, executable: executable.map(text) }
}

fn window(visible: bool, title: &str, executable: Option<&str>, file_name: Option<&str>) -> ForegroundWindow {
    ForegroundWindow {
        visible,
        title: text(title),
        executable: executable.map(text),
        file_name: file_name.map(text),
    }
}

#[test]
fn verbatim_prefix_is_taken_off() {
    assert_eq!(resolve_path("\\\\?\\C:\\Games\\game.exe"), "C:\\Games\\game.exe");
    assert_eq!(resolve_path("\\\\?\\"), "");
    assert_eq!(resolve_path("\\\\?\\ü"), "ü");
}

#[test]
fn path_without_verbatim_prefix_stays() {
    assert_eq!(resolve_path("C:\\Games\\game.exe"), "C:\\Games\\game.exe");
    assert_eq!(resolve_path("\\\\?"), "\\\\?");
    assert_eq!(resolve_path("\\\\server\\share"), "\\\\server\\share");
    assert_eq!(resolve_path("/usr/bin/game"), "/usr/bin/game");
    assert_eq!(resolve_path(""), "");
    assert_eq!(resolve_path("a\\\\?\\b"), "a\\\\?\\b");
}

#[test]
fn eligible_executables_are_selected_once_in_order() {
    let candidates = vec![
        candidate(true, false, Some("b.exe")),
        candidate(false, false, Some("skipped.exe")),
        candidate(true, true, Some("system.exe")),
        candidate(true, false, None),
        candidate(true, false, Some("a.exe")),
        candidate(true, false, Some("b.exe")),
    ];
    assert_eq!(select_executables(&candidates), vec![text("b.exe"), text("a.exe")]);
    assert_eq!(select_executables(&Vec::new()), Vec::<String>::new());
}

#[test]
fn processes_are_chosen_by_lowercase_name() {
    let running = vec![
        process("GAME.exe", Some("/opt/games/game")),
        process("other", Some("/opt/other")),
        process("MyGame", Some("/opt/mygame")),
        process("game-helper", None),
        process("Game2", Some("/opt/games/game")),
    ];
    assert_eq!(
        get_processes("game", &running),
        vec![text("/opt/games/game"), text("/opt/mygame")]
    );
    assert_eq!(get_processes("GAME", &running), Vec::<String>::new());
    assert_eq!(get_processes("", &running).len(), 3);
    assert_eq!(get_processes("game", &Vec::new()), Vec::<String>::new());
}

#[test]
fn process_in_the_system_folder_is_left_out() {
    let running = vec![
        process("svc", Some("C:\\Windows\\System")),
        process("svc2", Some("D:\\svc2.exe")),
    ];
    assert_eq!(get_processes("svc", &running), vec![text("D:\\svc2.exe")]);
}

#[test]
fn windows_in_front_are_chosen_by_their_executable_name() {
    let windows = vec![
        window(true, "Game", Some("C:\\Games\\GAME.exe"), Some("GAME.exe")),
        window(false, "Hidden", Some("C:\\hidden\\game.exe"), Some("game.exe")),
        window(true, "", Some("C:\\untitled\\game.exe"), Some("game.exe")),
        window(true, "No process", None, None),
        window(true, "No name", Some("C:\\"), None),
        window(true, "Other", Some("C:\\other.exe"), Some("other.exe")),
        window(true, "Game again", Some("C:\\Games\\GAME.exe"), Some("GAME.exe")),
        window(true, "Second", Some("C:\\Games\\game2.exe"), Some("game2.exe")),
    ];
    assert_eq!(
        foreground_apps("game", &windows),
        vec![text("C:\\Games\\GAME.exe"), text("C:\\Games\\game2.exe")]
    );
    assert_eq!(
        foreground_apps("", &windows),
        vec![text("C:\\Games\\GAME.exe"), text("C:\\other.exe"), text("C:\\Games\\game2.exe")]
    );
    assert_eq!(foreground_apps("Game", &windows), Vec::<String>::new());
}

#[test]
fn wide_text_ends_with_zero() {
    assert_eq!(encode_wide(""), vec![0]);
    assert_eq!(encode_wide("AB"), vec![0x41, 0x42, 0]);
    assert_eq!(encode_wide("GProfiles"), "GProfiles\0".encode_utf16().collect::<Vec<u16>>());
}

#[test]
fn wide_text_is_utf16() {
    assert_eq!(encode_wide("é"), vec![0x00E9, 0]);
    assert_eq!(encode_wide("€"), vec![0x20AC, 0]);
    assert_eq!(encode_wide("\u{FFFF}"), vec![0xFFFF, 0]);
    assert_eq!(encode_wide("\u{10000}"), vec![0xD800, 0xDC00, 0]);
    assert_eq!(encode_wide("😀"), vec![0xD83D, 0xDE00, 0]);
    assert_eq!(encode_wide("\u{10FFFF}"), vec![0xDBFF, 0xDFFF, 0]);
    for sample in ["C:\\Program Files\\LGHUB", "ünïcödé 😀 text", "a\u{1F600}b\u{E000}c"] {
        let mut expected: Vec<u16> = sample.encode_utf16().collect();
        expected.push(0);
        assert_eq!(encode_wide(sample), expected);
    }
}

#[test]
fn icon_buffer_holds_four_bytes_to_the_pixel() {
    assert_eq!(icon_buffer_size(32, 32), Some(4096));
    assert_eq!(icon_buffer_size(0, 32), Some(0));
    assert_eq!(icon_buffer_size(1, 1), Some(4));
    assert_eq!(icon_buffer_size(256, 256), Some(262144));
    assert_eq!(icon_buffer_size(-1, 32), None);
    assert_eq!(icon_buffer_size(32, -1), None);
    assert_eq!(icon_buffer_size(i32::MIN, i32::MIN), None);
    let largest = icon_buffer_size(i32::MAX, i32::MAX);
    let bytes = (i32::MAX as u128) * (i32::MAX as u128) * 4;
    if bytes <= usize::MAX as u128 {
        assert_eq!(largest, Some(bytes as usize));
    } else {
        assert_eq!(largest, None);
    }
}

#[test]
fn red_and_blue_change_places() {
    let mut pixels = vec![1, 2, 3, 4, 5, 6, 7, 8];
    bgra_to_rgba(&mut pixels);
    assert_eq!(pixels, vec![3, 2, 1, 4, 7, 6, 5, 8]);
    let mut ragged = vec![1, 2, 3, 4, 5, 6, 7];
    bgra_to_rgba(&mut ragged);
    assert_eq!(ragged, vec![3, 2, 1, 4, 5, 6, 7]);
    let mut short = vec![1, 2, 3];
    bgra_to_rgba(&mut short);
    assert_eq!(short, vec![1, 2, 3]);
    let mut empty: Vec<u8> = Vec::new();
    bgra_to_rgba(&mut empty);
    assert!(empty.is_empty());
    let mut twice = vec![9, 8, 7, 6];
    bgra_to_rgba(&mut twice);
    bgra_to_rgba(&mut twice);
    assert_eq!(twice, vec![9, 8, 7, 6]);
}
