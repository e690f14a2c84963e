use aki_image_view_gtk::conf::{
    cmdline_args_lexable, conf_from_tokens, config_file_path, parse_cmdopts, CmdOptConf, CmdOptError,
    OptUcXParam, WindowObservation, WindowProfile, CMD_OP_CONFIG, CMD_OP_HELP, CMD_OP_UC_X,
    CMD_OP_VERSION,
};
use aki_image_view_gtk::geometry::{Point2Di, Size2Di};

fn conf(x: Vec<OptUcXParam>, args: Vec<&str>) -> CmdOptConf {
    CmdOptConf {
        prog_name: "aki-image-view-gtk".to_string(),
        opt_config: None,
        opt_uc_x: x,
        arg_params: args.into_iter().map(|s| s.to_string()).collect(),
    }
}

#[test]
fn uc_x_flags() {
    let c = conf(vec![], vec![]);
    assert!(!c.is_opt_uc_x_help());
    assert!(!c.is_opt_uc_x_package_version_info());
    let c = conf(vec![OptUcXParam::PackageVersionInfo, OptUcXParam::Help], vec![]);
    assert!(c.is_opt_uc_x_help());
    assert!(c.is_opt_uc_x_package_version_info());
    let c = conf(vec![OptUcXParam::Help], vec![]);
    assert!(c.is_opt_uc_x_help());
    assert!(!c.is_opt_uc_x_package_version_info());
}

#[test]
fn image_path_is_first_argument() {
    assert_eq!(conf(vec![], vec![]).image_path(), "");
    assert_eq!(conf(vec![], vec!["a.png", "b.png"]).image_path(), "a.png");
}

fn profile() -> WindowProfile {
    WindowProfile {
        geometry_x: 1,
        geometry_y: 2,
        geometry_w: 3,
        geometry_h: 4,
        decorated: true,
        sticky: false,
        above: false,
        below: false,
    }
}

#[test]
fn window_state_recorded() {
    let mut p = profile();
    p.record_window_state(&WindowObservation {
        maximized: false,
        position: Point2Di::new(10, 20),
        size: Size2Di::new(820, 500),
        decorated: false,
        sticky: true,
        above: true,
        below: false,
    });
    assert_eq!((p.geometry_x, p.geometry_y, p.geometry_w, p.geometry_h), (10, 20, 820, 500));
    assert!(!p.decorated && p.sticky && p.above && !p.below);
}

#[test]
fn maximized_window_keeps_geometry() {
    let mut p = profile();
    p.record_window_state(&WindowObservation {
        maximized: true,
        position: Point2Di::new(10, 20),
        size: Size2Di::new(820, 500),
        decorated: true,
        sticky: false,
        above: false,
        below: true,
    });
    assert_eq!((p.geometry_x, p.geometry_y, p.geometry_w, p.geometry_h), (1, 2, 3, 4));
    assert!(p.below);
}

fn args(v: &[&str]) -> Vec<String> {
    v.iter().map(|s| s.to_string()).collect()
}

fn parse(v: &[&str]) -> Result<CmdOptConf, CmdOptError> {
    let a = args(v);
    assert!(cmdline_args_lexable(&a));
    parse_cmdopts("aki-image-view-gtk", &a)
}

fn invalid(r: Result<CmdOptConf, CmdOptError>) -> Vec<String> {
    match r {
        Err(CmdOptError::Invalid(m)) => m,
        _ => panic!("expected an invalid command line"),
    }
}

#[test]
fn parse_no_options() {
    let c = parse(&[]).ok().unwrap();
    assert_eq!(c.prog_name, "aki-image-view-gtk");
    assert_eq!(c.opt_config, None);
    assert!(c.opt_uc_x.is_empty());
    assert!(c.arg_params.is_empty());
    assert_eq!(c.image_path(), "");
}

#[test]
fn parse_config_and_image() {
    let c = parse(&["-c", "my.conf", "a.png", "b.png"]).ok().unwrap();
    assert_eq!(c.opt_config.as_deref(), Some("my.conf"));
    assert_eq!(c.arg_params, args(&["a.png", "b.png"]));
    assert_eq!(c.image_path(), "a.png");
    let c = parse(&["--config", "x.conf"]).ok().unwrap();
    assert_eq!(c.opt_config.as_deref(), Some("x.conf"));
    let c = parse(&["--config=y.conf", "-cz.conf"]).ok().unwrap();
    assert_eq!(c.opt_config.as_deref(), Some("z.conf"));
}

#[test]
fn parse_uc_x_values() {
    let c = parse(&["-X", "package-version-info", "-Xhelp"]).ok().unwrap();
    assert_eq!(c.opt_uc_x, vec![OptUcXParam::PackageVersionInfo, OptUcXParam::Help]);
    assert!(c.is_opt_uc_x_help());
    assert!(c.is_opt_uc_x_package_version_info());
}

#[test]
fn parse_invalid_uc_x_value() {
    let m = invalid(parse(&["-X", "nothing", "-X", "other"]));
    assert_eq!(m, args(&["Invalid option argument: X: nothing", "Invalid option argument: X: other"]));
}

#[test]
fn parse_help_and_version() {
    assert!(matches!(parse(&["-H"]), Err(CmdOptError::Help)));
    assert!(matches!(parse(&["--help"]), Err(CmdOptError::Help)));
    assert!(matches!(parse(&["-V"]), Err(CmdOptError::Version)));
    assert!(matches!(parse(&["--version", "-H"]), Err(CmdOptError::Version)));
    // help asked before a bad value wins over its error
    assert!(matches!(parse(&["-H", "-X", "bad"]), Err(CmdOptError::Help)));
}

#[test]
fn parse_lexer_errors() {
    let m = invalid(parse(&["-z"]));
    assert_eq!(m, args(&["Invalid option: z"]));
    let m = invalid(parse(&["--nothing"]));
    assert_eq!(m, args(&["Invalid option: nothing"]));
    let m = invalid(parse(&["-c"]));
    assert_eq!(m, args(&["Missing option argument: c"]));
    let m = invalid(parse(&["--help=x"]));
    assert_eq!(m, args(&["Unexpected option argument: help: x"]));
}

#[test]
fn parse_double_minus_ends_options() {
    let c = parse(&["--", "-H", "x.png"]).ok().unwrap();
    assert_eq!(c.arg_params, args(&["-H", "x.png"]));
}

#[test]
fn lexable_arguments() {
    assert!(cmdline_args_lexable(&args(&["-Hc", "\u{5199}.conf", "\u{5199}.png"])));
    assert!(cmdline_args_lexable(&args(&["-c\u{5199}.conf", "--\u{5199}"])));
    assert!(!cmdline_args_lexable(&args(&["-\u{e9}"])));
    assert!(!cmdline_args_lexable(&args(&["x", "-H\u{e9}"])));
}

#[test]
fn tokens_to_conf() {
    let r = conf_from_tokens(
        "prog",
        Ok((
            vec![(CMD_OP_CONFIG, Some("a.conf".to_string())), (CMD_OP_UC_X, Some("help".to_string()))],
            args(&["f.png"]),
        )),
    );
    let c = r.ok().unwrap();
    assert_eq!(c.prog_name, "prog");
    assert_eq!(c.opt_config.as_deref(), Some("a.conf"));
    assert_eq!(c.opt_uc_x, vec![OptUcXParam::Help]);
    assert_eq!(c.arg_params, args(&["f.png"]));
    let r = conf_from_tokens("prog", Ok((vec![(CMD_OP_UC_X, None)], vec![])));
    assert_eq!(invalid(r), args(&["Missing option argument: X"]));
    let r = conf_from_tokens("prog", Ok((vec![(CMD_OP_CONFIG, None)], vec![])));
    assert_eq!(invalid(r), args(&["Missing option argument: config"]));
    let r = conf_from_tokens("prog", Ok((vec![(CMD_OP_VERSION, None), (CMD_OP_HELP, None)], vec![])));
    assert!(matches!(r, Err(CmdOptError::Version)));
    let r = conf_from_tokens("prog", Err(args(&["Invalid option: q"])));
    assert_eq!(invalid(r), args(&["Invalid option: q"]));
}

#[test]
fn config_path_choice() {
    assert_eq!(config_file_path(Some("/x/y.conf".to_string()), Some("/home/u".to_string())), "/x/y.conf");
    assert_eq!(
        config_file_path(None, Some("/home/u".to_string())),
        "/home/u/.config/aki-image-view-gtk.conf"
    );
    assert_eq!(config_file_path(None, None), "/etcaki-image-view-gtk.conf");
}
