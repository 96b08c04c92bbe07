use alarm::config::{encode_config, parse_config, ConfigContents};
use alarm::launch::{open_command, Platform};

#[test]
fn encode_writes_single_marker_line() {
    assert_eq!(encode_config("/tmp/x.mp3"), "Audio: /tmp/x.mp3");
}

#[test]
fn round_trip_yields_same_path() {
    let written = encode_config("/tmp/x.mp3");
    match parse_config(&written) {
        ConfigContents::Selected(path) => assert_eq!(path, "/tmp/x.mp3"),
        _ => panic!("expected the recorded path back"),
    }
}

#[test]
fn round_trip_empty_path() {
    let written = encode_config("");
    match parse_config(&written) {
        ConfigContents::Selected(path) => assert_eq!(path, ""),
        _ => panic!("expected the recorded path back"),
    }
}

#[test]
fn empty_file_means_no_selection() {
    assert!(matches!(parse_config(""), ConfigContents::NoSelection));
}

#[test]
fn text_without_marker_means_no_selection() {
    assert!(matches!(
        parse_config("Volume: 11"),
        ConfigContents::NoSelection
    ));
}

#[test]
fn marker_without_separator_is_malformed() {
    assert!(matches!(parse_config("Audio"), ConfigContents::Malformed));
}

#[test]
fn second_separator_cuts_the_path() {
    match parse_config("Audio: a: b") {
        ConfigContents::Selected(path) => assert_eq!(path, "a"),
        _ => panic!("expected a path"),
    }
}

#[test]
fn marker_anywhere_in_the_text_counts() {
    match parse_config("xAudiox: p") {
        ConfigContents::Selected(path) => assert_eq!(path, "p"),
        _ => panic!("expected a path"),
    }
}

#[test]
fn open_command_linux() {
    let cmd = open_command(Platform::Linux, String::from("/tmp/x.mp3")).unwrap();
    assert_eq!(cmd.program, "xdg-open");
    assert_eq!(cmd.args, vec![String::from("/tmp/x.mp3")]);
}

#[test]
fn open_command_windows() {
    let cmd = open_command(Platform::Windows, String::from("C:\\alarm.wav")).unwrap();
    assert_eq!(cmd.program, "cmd");
    assert_eq!(
        cmd.args,
        vec![
            String::from("/C"),
            String::from("start"),
            String::from("C:\\alarm.wav")
        ]
    );
}

#[test]
fn open_command_elsewhere_is_none() {
    assert!(open_command(Platform::Other, String::from("/tmp/x.mp3")).is_none());
}
