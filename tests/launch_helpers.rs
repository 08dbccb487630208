use single_instance::launch::{classify_argument, cli_url, diff_pairs, is_url_argument, LaunchArgument};
use single_instance::legacy::{
    decode_legacy_message, legacy_mutex_name, legacy_pipe_name, LegacyMessageError,
    LEGACY_BUFFER_SIZE,
};
use single_instance::shell::parse_env_output;
use std::collections::HashMap;

fn env_map(bytes: &[u8]) -> HashMap<String, String> {
    parse_env_output(bytes).into_iter().collect()
}

#[test]
fn parses_env_listing() {
    let env = env_map(b"PATH=C:\\bin\r\n HOME = /home/me \nEMPTY=\nNOEQUALS\n=orphan\nA=1=2");
    assert_eq!(env.get("PATH").map(String::as_str), Some("C:\\bin"));
    assert_eq!(env.get("HOME").map(String::as_str), Some("/home/me"));
    assert_eq!(env.get("EMPTY").map(String::as_str), Some(""));
    assert_eq!(env.get("A").map(String::as_str), Some("1=2"));
    assert!(!env.contains_key("NOEQUALS"));
    assert!(!env.contains_key(""));
    assert_eq!(env.len(), 4);
}

#[test]
fn later_env_entries_override() {
    let entries = parse_env_output(b"K=1\nK=2\n");
    assert_eq!(entries.len(), 2);
    assert_eq!(env_map(b"K=1\nK=2\n").get("K").map(String::as_str), Some("2"));
    assert!(parse_env_output(b"").is_empty());
    assert_eq!(env_map(&[b'K', b'=', 0xff]).get("K").map(String::as_str), Some("\u{FFFD}"));
}

#[test]
fn legacy_names() {
    assert_eq!(legacy_mutex_name("dev.zed.Zed"), "dev.zed.Zed-Instance-Mutex");
    assert_eq!(legacy_pipe_name("dev.zed.Zed"), "\\\\.\\pipe\\dev.zed.Zed-Named-Pipe");
}

#[test]
fn legacy_messages_end_at_the_first_zero() {
    let mut buffer = [0u8; LEGACY_BUFFER_SIZE];
    buffer[..4].copy_from_slice(b"ping");
    assert_eq!(decode_legacy_message(&buffer), Ok(String::from("ping")));
    assert_eq!(decode_legacy_message(b"a\0b\0"), Ok(String::from("a")));
    assert_eq!(decode_legacy_message(b"\0"), Ok(String::new()));
    assert_eq!(decode_legacy_message(&[b'x'; 8]), Err(LegacyMessageError::MissingTerminator));
}

#[test]
fn launch_arguments() {
    assert!(is_url_argument("zed://settings"));
    assert!(is_url_argument("ssh://host/path"));
    assert!(!is_url_argument("ftp://host"));
    assert!(!is_url_argument("notes.txt"));
    match classify_argument("notes.txt", Some(String::from(r"C:\notes.txt"))) {
        LaunchArgument::Path(p) => assert_eq!(p, r"C:\notes.txt"),
        _ => panic!("expected a path"),
    }
    match classify_argument("https://zed.dev", None) {
        LaunchArgument::Url(u) => assert_eq!(u, "https://zed.dev"),
        _ => panic!("expected a URL"),
    }
    assert!(matches!(classify_argument("missing.txt", None), LaunchArgument::Unusable));
    assert_eq!(cli_url("server-7"), "zed-cli://server-7");
}

#[test]
fn diff_arguments_pair_up() {
    let canonical = vec![
        Some(String::from("a")),
        Some(String::from("b")),
        None,
        Some(String::from("d")),
        Some(String::from("e")),
        Some(String::from("f")),
        Some(String::from("odd")),
    ];
    assert_eq!(
        diff_pairs(&canonical),
        vec![(String::from("a"), String::from("b")), (String::from("e"), String::from("f"))]
    );
    assert!(diff_pairs(&Vec::new()).is_empty());
}
