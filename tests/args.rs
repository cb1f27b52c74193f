use systeroid_tui::args::{Args, EarlyExit, Explicit, OptionValues, Resolution, Section, Settings};

fn command_line(items: &[&str]) -> Vec<String> {
    let mut v = vec![String::new()];
    for item in items {
        v.push(String::from(*item));
    }
    v
}

fn no_values() -> OptionValues {
    OptionValues {
        help: false,
        version: false,
        tick_rate: Ok(None),
        kernel_docs: None,
        save_path: None,
        section: None,
        search_query: None,
        fg_color: None,
        bg_color: None,
        no_docs: false,
        display_deprecated: false,
        config: None,
    }
}

#[test]
fn test_args() {
    for env_args in [
        vec![String::new(), String::from("-h")],
        vec![String::new(), String::from("-V")],
    ] {
        assert!(Args::parse(env_args, None, None).is_none());
    }

    let args = Args::parse(
        vec![
            String::new(),
            String::from("-t"),
            String::from("1000"),
            String::from("-D"),
            String::from("/docs"),
            String::from("--no-docs"),
            String::from("-s"),
            String::from("vm"),
            String::from("-q"),
            String::from("test"),
        ],
        None,
        None,
    )
    .expect("failed to parse arguments");

    assert_eq!(1000, args.tick_rate);
    assert_eq!(Some(String::from("/docs")), args.kernel_docs);
    assert_eq!(Some(Section::Vm), args.section);
    assert_eq!(Some("test"), args.search_query.as_deref());
    assert!(args.no_docs);
}

#[test]
fn help_wins_over_other_flags() {
    let r = Args::resolve(command_line(&["-t", "abc", "--no-docs", "--help"]), None, None);
    assert!(matches!(r, Resolution::ExitEarly(EarlyExit::Help)));
    let r = Args::resolve(command_line(&["-s", "vm", "-V", "-q", "x"]), None, None);
    assert!(matches!(r, Resolution::ExitEarly(EarlyExit::Version)));
    let r = Args::resolve(command_line(&["-h", "-V"]), None, None);
    assert!(matches!(r, Resolution::ExitEarly(EarlyExit::Help)));
}

#[test]
fn early_exits_for_help_and_version_are_not_errors() {
    assert!(!EarlyExit::Help.is_error());
    assert!(!EarlyExit::Version.is_error());
    assert!(EarlyExit::Error(String::from("bad")).is_error());
}

#[test]
fn defaults_when_flags_are_omitted() {
    let args = Args::parse(command_line(&[]), None, None).expect("no arguments resolve");
    assert_eq!(250, args.tick_rate);
    assert_eq!("white", args.fg_color);
    assert_eq!("black", args.bg_color);
    assert_eq!(None, args.kernel_docs);
    assert_eq!(None, args.config);
    assert_eq!(None, args.save_path);
    assert_eq!(None, args.section);
    assert_eq!(None, args.search_query);
    assert!(!args.no_docs);
    assert!(!args.display_deprecated);
}

#[test]
fn long_forms_and_colors() {
    let args = Args::parse(
        command_line(&[
            "--tick-rate", "40", "--save-path", "/tmp/saved", "--fg-color", "red", "--bg-color", "blue",
            "--deprecated", "--config", "/etc/cfg", "--section", "NET", "--query", "tcp",
        ]),
        None,
        None,
    )
    .expect("long forms resolve");
    assert_eq!(40, args.tick_rate);
    assert_eq!(Some(String::from("/tmp/saved")), args.save_path);
    assert_eq!("red", args.fg_color);
    assert_eq!("blue", args.bg_color);
    assert!(args.display_deprecated);
    assert_eq!(Some(String::from("/etc/cfg")), args.config);
    assert_eq!(Some(Section::Net), args.section);
    assert_eq!(Some(String::from("tcp")), args.search_query);
}

#[test]
fn unknown_section_name() {
    let args = Args::parse(command_line(&["-s", "nothing"]), None, None).expect("resolves");
    assert_eq!(Some(Section::Unknown), args.section);
}

#[test]
fn environment_fallbacks_and_flag_precedence() {
    let args = Args::parse(
        command_line(&[]),
        Some(String::from("/env/docs")),
        Some(String::from("/env/config")),
    )
    .expect("resolves");
    assert_eq!(Some(String::from("/env/docs")), args.kernel_docs);
    assert_eq!(Some(String::from("/env/config")), args.config);

    let args = Args::parse(
        command_line(&["-D", "/flag/docs", "-c", "/flag/config"]),
        Some(String::from("/env/docs")),
        Some(String::from("/env/config")),
    )
    .expect("resolves");
    assert_eq!(Some(String::from("/flag/docs")), args.kernel_docs);
    assert_eq!(Some(String::from("/flag/config")), args.config);
}

#[test]
fn non_numeric_tick_rate_is_an_error() {
    let r = Args::resolve(command_line(&["-t", "fast"]), None, None);
    match r {
        Resolution::ExitEarly(e) => assert!(e.is_error()),
        Resolution::Proceed(_) => panic!("a non-numeric tick rate must not proceed"),
    }
    assert!(Args::parse(command_line(&["-t", "-5"]), None, None).is_none());
    assert!(Args::parse(command_line(&["-t", "99999999999999999999999"]), None, None).is_none());
}

#[test]
fn zero_tick_rate_is_an_error() {
    let r = Args::resolve(command_line(&["-t", "0"]), None, None);
    assert!(matches!(r, Resolution::ExitEarly(EarlyExit::Error(_))));
}

#[test]
fn plus_signed_tick_rate_is_read() {
    let args = Args::parse(command_line(&["-t", "+75"]), None, None).expect("resolves");
    assert_eq!(75, args.tick_rate);
}

#[test]
fn parser_failures_are_errors() {
    let r = Args::resolve(command_line(&["--unknown"]), None, None);
    assert!(matches!(r, Resolution::ExitEarly(EarlyExit::Error(_))));
    let r = Args::resolve(command_line(&["-t"]), None, None);
    assert!(matches!(r, Resolution::ExitEarly(EarlyExit::Error(_))));
    let r = Args::resolve(command_line(&["-q", "a", "-q", "b"]), None, None);
    assert!(matches!(r, Resolution::ExitEarly(EarlyExit::Error(_))));
}

#[test]
fn from_values_error_message_is_kept() {
    let mut v = no_values();
    v.tick_rate = Err(String::from("invalid digit found in string"));
    match Args::from_values(v, None, None) {
        Resolution::ExitEarly(EarlyExit::Error(m)) => assert_eq!("invalid digit found in string", m),
        _ => panic!("expected an error"),
    }
}

#[test]
fn from_values_settings() {
    let mut v = no_values();
    v.tick_rate = Ok(Some(1000));
    v.kernel_docs = Some(String::from("/docs"));
    v.section = Some(Section::Vm);
    v.search_query = Some(String::from("test"));
    v.no_docs = true;
    match Args::from_values(v, Some(String::from("/env")), None) {
        Resolution::Proceed(a) => {
            assert_eq!(1000, a.tick_rate);
            assert_eq!(Some(String::from("/docs")), a.kernel_docs);
            assert_eq!(Some(Section::Vm), a.section);
            assert_eq!(Some(String::from("test")), a.search_query);
            assert!(a.no_docs);
            assert_eq!("white", a.fg_color);
            assert_eq!("black", a.bg_color);
        }
        _ => panic!("expected settings"),
    }
    let mut v = no_values();
    v.help = true;
    v.tick_rate = Err(String::from("bad"));
    assert!(matches!(Args::from_values(v, None, None), Resolution::ExitEarly(EarlyExit::Help)));
}

#[test]
fn empty_color_names_are_errors() {
    let r = Args::resolve(command_line(&["--fg-color", ""]), None, None);
    assert!(matches!(r, Resolution::ExitEarly(EarlyExit::Error(_))));
    let r = Args::resolve(command_line(&["--bg-color", ""]), None, None);
    assert!(matches!(r, Resolution::ExitEarly(EarlyExit::Error(_))));
}

#[test]
fn explicit_flags_are_recorded() {
    let a = Args::parse(command_line(&["-t", "10", "--bg-color", "red"]), None, None).expect("resolves");
    assert_eq!(Explicit { tick_rate: true, fg_color: false, bg_color: true }, a.explicit);
}

fn file_settings() -> Settings {
    Settings {
        tick_rate: 500,
        kernel_docs: Some(String::from("/file/docs")),
        save_path: Some(String::from("/file/save")),
        no_docs: true,
        display_deprecated: false,
        fg_color: String::from("green"),
        bg_color: String::from("blue"),
    }
}

#[test]
fn flags_win_over_the_configuration_file() {
    let a = Args::parse(
        command_line(&["-t", "1000", "--fg-color", "red", "--save-path", "/flag/save"]),
        Some(String::from("/env/docs")),
        None,
    )
    .expect("resolves");
    let s = a.merged(file_settings()).expect("valid settings");
    assert_eq!(1000, s.tick_rate);
    assert_eq!("red", s.fg_color);
    assert_eq!("blue", s.bg_color);
    assert_eq!(Some(String::from("/env/docs")), s.kernel_docs);
    assert_eq!(Some(String::from("/flag/save")), s.save_path);
    assert!(s.no_docs);
}

#[test]
fn the_configuration_file_wins_over_defaults() {
    let a = Args::parse(command_line(&[]), None, None).expect("resolves");
    let s = a.merged(file_settings()).expect("valid settings");
    assert_eq!(500, s.tick_rate);
    assert_eq!("green", s.fg_color);
    assert_eq!("blue", s.bg_color);
    assert_eq!(Some(String::from("/file/docs")), s.kernel_docs);
    assert_eq!(Some(String::from("/file/save")), s.save_path);
}

#[test]
fn help_in_a_short_cluster() {
    assert!(Args::parse(command_line(&["-nh"]), None, None).is_none());
    let a = Args::parse(command_line(&["-q", "-h"]), None, None).expect("-h is the query here");
    assert_eq!(Some(String::from("-h")), a.search_query);
}

#[test]
fn merged_settings_are_checked() {
    let a = Args::parse(command_line(&[]), None, None).expect("resolves");
    let mut base = file_settings();
    base.tick_rate = 0;
    assert!(a.merged(base).is_err());
    let a = Args::parse(command_line(&[]), None, None).expect("resolves");
    let mut base = file_settings();
    base.fg_color = String::new();
    assert!(a.merged(base).is_err());
    let a = Args::parse(command_line(&["-t", "20"]), None, None).expect("resolves");
    let mut base = file_settings();
    base.tick_rate = 0;
    assert_eq!(20, a.merged(base).expect("the flag wins").tick_rate);
}

#[test]
fn help_and_version_win_over_refused_lines() {
    let r = Args::resolve(command_line(&["--bogus", "-h"]), None, None);
    assert!(matches!(r, Resolution::ExitEarly(EarlyExit::Help)));
    let r = Args::resolve(command_line(&["-V", "-t"]), None, None);
    assert!(matches!(r, Resolution::ExitEarly(EarlyExit::Version)));
    let r = Args::resolve(command_line(&["--bogus", "--version", "--help"]), None, None);
    assert!(matches!(r, Resolution::ExitEarly(EarlyExit::Help)));
    let r = Args::resolve(command_line(&["--bogus", "--", "-h"]), None, None);
    assert!(matches!(r, Resolution::ExitEarly(EarlyExit::Error(_))));
}
