use single_instance::askpass::{
    ensure_pipe_prefix, unique_pipe_name, NamedPipeListener, PipeNameError, ASKPASS_PIPE_PREFIX,
};
use single_instance::git::credential_env_overrides;
use single_instance::ime::{candidate_form, composition_form, Point, CFS_CANDIDATEPOS, CFS_POINT};
use single_instance::paths::{normalize_path_for_git, normalize_utf16, to_win_long_path, Utf16Error};
use single_instance::proxy::ProxySettings;
use single_instance::renderer::{
    clamp_swapchain_extent, parse_toggle, HdrMode, RendererToggles, WindowsRendererConfig,
};
use single_instance::shell::{capture_env, detect_shells, ShellError, ShellKind};

#[test]
fn test_long_path_prefix() {
    let path = String::from(r"C:\\Temp");
    let long = to_win_long_path(&path);
    assert!(long.starts_with(r"\\\\?\"));
}

#[test]
fn long_path_keeps_relative_and_marked_paths() {
    assert_eq!(to_win_long_path(r"relative\dir"), r"relative\dir");
    assert_eq!(to_win_long_path(r"\\\\?\C:\x"), r"\\\\?\C:\x");
    assert_eq!(to_win_long_path(r"C:\x"), r"\\\\?\C:\x");
    assert_eq!(to_win_long_path(r"\\server\share"), r"\\\\?\\\server\share");
}

#[test]
fn test_normalize_utf16_basic() {
    let units = [0x0041u16, 0xD83D, 0xDE00];
    let text = normalize_utf16(&units).unwrap();
    assert_eq!(text, "A\u{1F600}");
}

#[test]
fn normalize_utf16_rejects_unpaired_surrogates() {
    assert_eq!(normalize_utf16(&[0x0041, 0xD83D]), Err(Utf16Error::InvalidUtf16));
    assert_eq!(normalize_utf16(&[0xDE00, 0x0041]), Err(Utf16Error::InvalidUtf16));
    assert_eq!(normalize_utf16(&[]), Ok(String::new()));
    assert_eq!(normalize_utf16(&[0x007A, 0x00E9]), Ok(String::from("z\u{e9}")));
}

#[test]
fn normalize_path_removes_extended_prefix() {
    let input = String::from(r"\\\\?\\C:\\workspace\\repo");
    let normalized = normalize_path_for_git(&input);
    assert_eq!(normalized, String::from(r"C:\\workspace\\repo"));
}

#[test]
fn normalize_path_keeps_plain_paths() {
    assert_eq!(normalize_path_for_git(r"C:\repo"), r"C:\repo");
    assert_eq!(normalize_path_for_git(r"\\?\C:\repo"), r"C:\repo");
    assert_eq!(normalize_path_for_git(r"\?\C:\repo"), r"\?\C:\repo");
    assert_eq!(normalize_path_for_git(r"\\?C:\repo"), r"\\?C:\repo");
}

#[test]
fn builds_candidate_form() {
    let point = Point { x: 10, y: 20 };
    let form = candidate_form(point);
    assert_eq!(form.style, CFS_CANDIDATEPOS);
    assert_eq!(form.current_pos.x, 10);
    assert_eq!(form.current_pos.y, 20);
}

#[test]
fn builds_composition_form() {
    let form = composition_form(Point { x: -3, y: 7 });
    assert_eq!(form.style, CFS_POINT);
    assert_eq!(form.current_pos, Point { x: -3, y: 7 });
}

#[test]
fn parses_toggle_values() {
    assert!(parse_toggle(Some("1"), false));
    assert!(parse_toggle(Some("true"), false));
    assert!(parse_toggle(Some("True"), false));
    assert!(!parse_toggle(Some("0"), true));
    assert!(!parse_toggle(Some("off"), true));
    assert!(parse_toggle(None, true));
    assert!(!parse_toggle(None, false));
}

#[test]
fn toggle_values_are_trimmed() {
    assert!(parse_toggle(Some("  ON \t"), false));
    assert!(parse_toggle(Some("\u{3000}true\u{a0}"), false));
    assert!(!parse_toggle(Some(" yes "), true));
    assert!(!parse_toggle(Some("o n"), true));
}

#[test]
fn computes_clamped_extent() {
    assert_eq!(clamp_swapchain_extent(0, 0), (1, 1));
    assert_eq!(clamp_swapchain_extent(1920, 1080), (1920, 1080));
}

#[test]
fn hdr_mode_from_env() {
    assert_eq!(HdrMode::from_env(Some("on")), HdrMode::On);
    assert_eq!(HdrMode::from_env(Some("Off")), HdrMode::Off);
    assert_eq!(HdrMode::from_env(None), HdrMode::Auto);
}

#[test]
fn hdr_mode_words_and_use() {
    assert_eq!(HdrMode::from_env(Some(" FALSE ")), HdrMode::Off);
    assert_eq!(HdrMode::from_env(Some("maybe")), HdrMode::Auto);
    assert!(HdrMode::Auto.should_enable(true));
    assert!(!HdrMode::Auto.should_enable(false));
    assert!(HdrMode::On.should_enable(false));
    assert!(!HdrMode::Off.should_enable(true));
    assert_eq!(HdrMode::Off.name(), "off");
}

#[test]
fn renderer_config_from_toggles() {
    let toggles = RendererToggles { vsync: None, composition: Some("0"), hdr: Some("1"), dred: None };
    let config = WindowsRendererConfig::detect(&toggles, true, false, Some(String::from("logs")));
    assert!(config.vsync_enabled());
    assert!(!config.composition_enabled(false));
    assert_eq!(config.hdr_mode(), HdrMode::On);
    assert!(!config.dred_enabled());
    assert_eq!(config.diagnostics_root(), Some(String::from("logs")));

    let toggles = RendererToggles { vsync: Some("off"), composition: None, hdr: None, dred: None };
    let config = WindowsRendererConfig::detect(&toggles, true, true, None);
    assert!(!config.vsync_enabled());
    assert!(config.composition_enabled(false));
    assert!(!config.composition_enabled(true));
    assert!(config.dred_enabled());
}

#[test]
fn pipe_names_need_the_namespace() {
    let listener = NamedPipeListener::bind(r"\\\\.\\pipe\\askpass").unwrap();
    assert_eq!(listener.name(), r"\\\\.\\pipe\\askpass");
    assert!(matches!(
        NamedPipeListener::bind(r"\\.\pipe\askpass"),
        Err(PipeNameError::MissingPipePrefix)
    ));
    assert_eq!(ensure_pipe_prefix("pipe"), Err(PipeNameError::MissingPipePrefix));
}

#[test]
fn unique_pipe_names_bind_and_differ() {
    let a = unique_pipe_name();
    let b = unique_pipe_name();
    assert!(a.starts_with(ASKPASS_PIPE_PREFIX));
    assert_eq!(a.len(), ASKPASS_PIPE_PREFIX.len() + 36);
    let id = &a[ASKPASS_PIPE_PREFIX.len()..];
    for (i, c) in id.chars().enumerate() {
        if [8, 13, 18, 23].contains(&i) {
            assert_eq!(c, '-');
        } else {
            assert!(c.is_ascii_digit() || ('a'..='f').contains(&c));
        }
    }
    assert_ne!(a, b);
    assert!(NamedPipeListener::bind(&a).is_ok());
}

#[test]
fn credential_overrides_name_the_helper() {
    assert!(credential_env_overrides(None).is_empty());
    let env = credential_env_overrides(Some(r"C:\\temp\\gcm.exe"));
    assert_eq!(
        env,
        vec![
            (String::from("GIT_ASKPASS"), String::from(r"C:\\temp\\gcm.exe")),
            (String::from("SSH_ASKPASS"), String::from(r"C:\\temp\\gcm.exe")),
        ]
    );
}

#[test]
fn proxy_prefers_https() {
    let both = ProxySettings {
        http: Some(String::from("http://h:1")),
        https: Some(String::from("http://s:2")),
        no_proxy: None,
    };
    assert_eq!(both.proxy_url(), Some(&String::from("http://s:2")));
    let http_only = ProxySettings { http: Some(String::from("http://h:1")), https: None, no_proxy: None };
    assert_eq!(http_only.proxy_url(), Some(&String::from("http://h:1")));
    let none = ProxySettings { http: None, https: None, no_proxy: Some(String::from("localhost")) };
    assert_eq!(none.proxy_url(), None);
}

#[test]
fn shells_and_capture_commands() {
    assert_eq!(
        detect_shells(false, true),
        vec![ShellKind::Powershell, ShellKind::Cmd, ShellKind::Nushell, ShellKind::Wsl]
    );
    assert_eq!(detect_shells(true, true).len(), 5);
    let cmd = capture_env(ShellKind::Cmd, None, None).unwrap();
    assert_eq!(cmd.program, "cmd");
    assert_eq!(cmd.args, vec![String::from("/C"), String::from("set")]);
    let wsl = capture_env(ShellKind::Wsl, None, Some("Ubuntu")).unwrap();
    assert_eq!(wsl.program, "wsl");
    assert_eq!(wsl.args, vec![String::from("-d"), String::from("Ubuntu"), String::from("env")]);
    let bash = capture_env(ShellKind::GitBash, Some(r"C:\Git\bin\bash.exe"), None).unwrap();
    assert_eq!(bash.program, r"C:\Git\bin\bash.exe");
    assert!(matches!(capture_env(ShellKind::GitBash, None, None), Err(ShellError::GitBashNotFound)));
    assert!(matches!(capture_env(ShellKind::Wsl, None, None), Err(ShellError::WslUnavailable)));
}
