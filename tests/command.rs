use composer_modify::command::{
    handle, handle_modify_commands, handle_parse_commands, Action, Channel, Commands, Message, ModifyCommands,
    ModifyOutcome, Outcome, ParseCommands, ParseFileType,
};
use composer_modify::directive::ModifyComposerJson;
use composer_modify::manifest::ComposerJson;
use composer_modify::paths::{assert_exists, assert_is_file, get_file_path, FileError, PathKind};

fn lines(v: &[Message]) -> Vec<(Channel, String)> {
    v.iter().map(|m| (m.channel, m.text.clone())).collect()
}

#[test]
fn parse_report_success_with_print() {
    let r = ParseFileType::ComposerJson.handle_parse("c.json", true, &Outcome::Rendered("{}".to_string()));
    assert_eq!(
        lines(&r),
        vec![
            (Channel::Stdout, "successfully parsed composer.json file: c.json".to_string()),
            (Channel::Stdout, "\nc.json:\n{}".to_string()),
        ]
    );
}

#[test]
fn parse_report_success_without_print() {
    let r = ParseFileType::ModifyComposerJson.handle_parse("m.json", false, &Outcome::Rendered("{}".to_string()));
    assert_eq!(lines(&r), vec![(Channel::Stdout, "successfully parsed modify-composer.json file: m.json".to_string())]);
}

#[test]
fn parse_report_failure() {
    let r = ParseFileType::ComposerJson.handle_parse("c.json", true, &Outcome::Failed("bad".to_string()));
    assert_eq!(lines(&r), vec![(Channel::Stderr, "error parsing c.json: bad".to_string())]);
}

#[test]
fn parse_report_unrenderable() {
    let r = ParseFileType::ComposerJson.handle_parse("c.json", true, &Outcome::Unrenderable("x".to_string()));
    assert_eq!(
        lines(&r),
        vec![
            (Channel::Stdout, "successfully parsed composer.json file: c.json".to_string()),
            (Channel::Stderr, "error prettifying JSON: x".to_string()),
        ]
    );
}

#[test]
fn kind_names() {
    assert_eq!(ParseFileType::ComposerJson.name(), "composer.json");
    assert_eq!(ParseFileType::ModifyComposerJson.name(), "modify-composer.json");
}

#[test]
fn commands_map_to_actions() {
    let a = handle_parse_commands(&ParseCommands::Modify { file: "m.json".to_string(), print: true });
    match a {
        Action::Parse { kind, file, print } => {
            assert_eq!(kind, ParseFileType::ModifyComposerJson);
            assert_eq!(file, "m.json");
            assert!(print);
        },
        _ => panic!("expected a parse action"),
    }
    let b = handle(&Commands::Modify(ModifyCommands::Run {
        composer_json: "c.json".to_string(),
        modify: "m.json".to_string(),
        print: false,
        dry_run: true,
    }));
    match b {
        Action::Modify { composer_json, modify, print, dry_run } => {
            assert_eq!(composer_json, "c.json");
            assert_eq!(modify, "m.json");
            assert!(!print);
            assert!(dry_run);
        },
        _ => panic!("expected a modify action"),
    }
}

fn run(print: bool, dry_run: bool) -> ModifyCommands {
    ModifyCommands::Run { composer_json: "c.json".to_string(), modify: "m.json".to_string(), print, dry_run }
}

#[test]
fn modify_report_dry_run_does_not_write() {
    let r = handle_modify_commands(&run(true, true), &ModifyOutcome::Rendered("{}".to_string()));
    assert_eq!(
        lines(&r.messages),
        vec![
            (Channel::Stdout, "Modifying c.json using m.json (in dry-run mode)".to_string()),
            (Channel::Stdout, "\nc.json:\n{}".to_string()),
        ]
    );
    assert!(r.write.is_none());
}

#[test]
fn modify_report_writes_outside_dry_run() {
    let r = handle_modify_commands(&run(false, false), &ModifyOutcome::Rendered("{}".to_string()));
    assert_eq!(lines(&r.messages), vec![(Channel::Stdout, "Modifying c.json using m.json".to_string())]);
    assert_eq!(r.write, Some("{}".to_string()));
}

#[test]
fn modify_report_failure() {
    let failed = ModifyOutcome::LoadFailed { file: "m.json".to_string(), cause: "oops".to_string() };
    let r = handle_modify_commands(&run(true, false), &failed);
    assert_eq!(
        lines(&r.messages),
        vec![
            (Channel::Stdout, "Modifying c.json using m.json".to_string()),
            (Channel::Stderr, "error parsing m.json: oops".to_string()),
        ]
    );
    assert!(r.write.is_none());
}

#[test]
fn modify_report_unrenderable() {
    let r = handle_modify_commands(&run(true, false), &ModifyOutcome::Unrenderable("bad".to_string()));
    assert_eq!(
        lines(&r.messages),
        vec![
            (Channel::Stdout, "Modifying c.json using m.json".to_string()),
            (Channel::Stderr, "error prettifying JSON: bad".to_string()),
        ]
    );
    assert!(r.write.is_none());
}

#[test]
fn path_checks() {
    assert_eq!(get_file_path("a.json", PathKind::File).unwrap(), "a.json");
    match get_file_path("a.json", PathKind::Missing) {
        Err(e @ FileError::NotFound(_)) => assert_eq!(e.message(), "File not found: a.json"),
        _ => panic!("expected not found"),
    }
    match get_file_path("dir", PathKind::Other) {
        Err(e @ FileError::NotAFile(_)) => assert_eq!(e.message(), "Path is not a file: dir"),
        _ => panic!("expected not a file"),
    }
    assert!(assert_exists("dir", PathKind::Other).is_ok());
    assert!(assert_is_file("dir", PathKind::Other).is_err());
}

#[test]
fn documents_know_their_kind() {
    assert_eq!(ComposerJson::parse_file_type(), ParseFileType::ComposerJson);
    assert_eq!(ModifyComposerJson::parse_file_type(), ParseFileType::ModifyComposerJson);
}
