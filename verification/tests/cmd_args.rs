use cargo_gen::cmd_args::CLArgs;
use cargo_gen::cmd_args::UsageError;

fn args(suffix: &[&str]) -> Vec<String> {
    let mut a = vec!["cargo", "gen"];
    a.extend(suffix.iter());
    a.into_iter().map(String::from).collect()
}

#[test]
fn it_sets_the_list_flag() {
    assert_eq!(false, CLArgs::parse(args(&["app"])).unwrap().list);
    assert_eq!(true, CLArgs::parse(args(&["-l"])).unwrap().list);
    assert_eq!(true, CLArgs::parse(args(&["--list"])).unwrap().list);
}

#[test]
fn it_sets_the_crate_dir() {
    assert_eq!(
        "/tmp/the-crate",
        CLArgs::parse(args(&["--crate-dir", "/tmp/the-crate", "app"])).unwrap().crate_dir
    );
    assert_eq!(
        "/tmp/the-crate",
        CLArgs::parse(args(&["-d", "/tmp/the-crate", "app"])).unwrap().crate_dir
    );
}

#[test]
fn it_defaults_the_crate_dir_to_the_current_dir_if_unset() {
    assert_eq!(".", CLArgs::parse(args(&["app"])).unwrap().crate_dir);
}

#[test]
fn it_accepts_a_generator_identifier() {
    assert_eq!(
        Some("app".to_string()),
        CLArgs::parse(args(&["app"])).unwrap().gen_id
    );
}

#[test]
fn it_gathers_the_remaining_arguments_into_generator_arguments() {
    assert_eq!(
        vec!["--dry-run", "--quiet"],
        CLArgs::parse(args(&["app", "--dry-run", "--quiet"])).unwrap().gen_args
    );
}

#[test]
fn a_listing_names_no_generator() {
    let clargs = CLArgs::parse(args(&["--list"])).unwrap();
    assert_eq!(None, clargs.gen_id);
    assert!(clargs.gen_args.is_empty());
    assert_eq!(".", clargs.crate_dir);
}

#[test]
fn a_generator_without_arguments_gets_none() {
    let clargs = CLArgs::parse(args(&["app"])).unwrap();
    assert!(clargs.gen_args.is_empty());
}

#[test]
fn the_whole_command_line_is_read() {
    let clargs = CLArgs::parse(args(&["-d", "here", "the.gen", "one", "--two", "3"])).unwrap();
    assert_eq!(
        CLArgs {
            list: false,
            crate_dir: "here".to_string(),
            gen_id: Some("the.gen".to_string()),
            gen_args: vec!["one".to_string(), "--two".to_string(), "3".to_string()],
        },
        clargs
    );
}

#[test]
fn a_command_line_without_the_subcommand_is_refused() {
    let refusal = CLArgs::parse(vec!["cargo".to_string()]).unwrap_err();
    assert!(refusal.use_stderr);
    assert!(!refusal.message.is_empty());
}

#[test]
fn the_subcommand_alone_is_refused() {
    let refusal = CLArgs::parse(args(&[])).unwrap_err();
    assert!(refusal.use_stderr);
    assert!(refusal.message.contains("--help"));
}

#[test]
fn an_unknown_flag_is_refused() {
    assert!(CLArgs::parse(args(&["--no-such-flag"])).is_err());
}

#[test]
fn the_help_is_no_complaint() {
    let refusal = CLArgs::parse(args(&["--help"])).unwrap_err();
    assert!(!refusal.use_stderr);
    assert!(refusal.message.contains("--list"));
    assert!(refusal.message.contains("--crate-dir"));
}

#[test]
fn parts_make_the_arguments() {
    let clargs = CLArgs::from_parts(true, None, None);
    assert_eq!(
        CLArgs { list: true, crate_dir: ".".to_string(), gen_id: None, gen_args: vec![] },
        clargs
    );
    let clargs = CLArgs::from_parts(
        false,
        Some("dir".to_string()),
        Some(("app".to_string(), Some(vec!["x".to_string()]))),
    );
    assert_eq!(
        CLArgs {
            list: false,
            crate_dir: "dir".to_string(),
            gen_id: Some("app".to_string()),
            gen_args: vec!["x".to_string()],
        },
        clargs
    );
    let clargs = CLArgs::from_parts(false, None, Some(("app".to_string(), None)));
    assert_eq!(
        CLArgs {
            list: false,
            crate_dir: ".".to_string(),
            gen_id: Some("app".to_string()),
            gen_args: vec![],
        },
        clargs
    );
}

#[test]
fn the_complaints_of_the_library_name_what_was_expected() {
    let error = UsageError::no_subcommand("gen");
    assert_eq!("'gen' subcommand expected but not provided", error.message);
    assert!(error.use_stderr);
    let error = UsageError::no_value("crate-root");
    assert_eq!("'crate-root' value expected but not provided", error.message);
    assert!(error.use_stderr);
}
