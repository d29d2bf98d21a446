use dcbothub::bot_parser::{
    descriptor_paths, load_bots, parse_bots, repo_path_of, repo_paths, BotPaths, EntryProbe,
    PathProbe,
};
use dcbothub::config::{find, parse_document, ConfigEntry, ConfigValue};
use dcbothub::Bots;

fn text(s: &str) -> ConfigValue {
    ConfigValue::Text(s.to_string())
}

fn entry(key: &str, value: ConfigValue) -> ConfigEntry {
    ConfigEntry { key: key.to_string(), value }
}

// A probe that finds everything, with the executable resolved to `/real/run`.
fn found(resolved_repo: Option<&str>) -> EntryProbe {
    EntryProbe {
        resolved_repo: resolved_repo.map(|s| s.to_string()),
        resolved_executable: Some("/real/run".to_string()),
        paths: PathProbe { repo_is_git: true, executable_is_file: true },
    }
}

fn names(bots: &Bots) -> Vec<String> {
    (0..bots.len()).map(|i| bots.key_at(i).clone()).collect()
}

fn failure(text: &str, probes: Vec<EntryProbe>) -> String {
    parse_bots(text, &probes).unwrap_err()
}

const TWO_BOTS: &str = r#"
control_bot = "echo"

[[bot]]
name = "greeter"
repo_path = "../greeter"
build_args = ["--release"]

[[bot]]
name = "echo"
executable_path = "/bin/cat"
run_args = ["-u"]
"#;

#[test]
fn document_is_parsed_into_a_table() {
    let document = parse_document("title = \"x\"\ncount = 3\nflag = true\n").unwrap();
    assert_eq!(
        document,
        ConfigValue::Table(vec![
            entry("count", ConfigValue::Integer(3)),
            entry("flag", ConfigValue::Boolean(true)),
            entry("title", text("x")),
        ])
    );
}

#[test]
fn document_keeps_lists_and_nested_tables() {
    let document = parse_document("[[bot]]\nname = \"a\"\nrun_args = [\"x\", \"y\"]\n").unwrap();
    assert_eq!(
        document,
        ConfigValue::Table(vec![entry(
            "bot",
            ConfigValue::List(vec![ConfigValue::Table(vec![
                entry("name", text("a")),
                entry("run_args", ConfigValue::List(vec![text("x"), text("y")])),
            ])])
        )])
    );
}

#[test]
fn document_marks_floats_and_dates() {
    let document = parse_document("pi = 3.5\nday = 1979-05-27\n").unwrap();
    assert_eq!(document.get("pi"), Some(&ConfigValue::Float));
    assert_eq!(document.get("day"), Some(&ConfigValue::Datetime));
}

#[test]
fn empty_text_is_an_empty_document() {
    assert_eq!(parse_document(""), Ok(ConfigValue::Table(vec![])));
}

#[test]
fn malformed_text_is_refused_with_the_parser_message() {
    let message = parse_document("name = ").unwrap_err();
    assert!(!message.is_empty());
    assert_ne!(message, "name = ");
    assert!(parse_document("[[bot]\n").is_err());
    assert!(parse_document("a = 1\na = 2\n").is_err());
}

#[test]
fn get_reads_tables_only() {
    let document = parse_document("a = 1\n").unwrap();
    assert_eq!(document.get("a"), Some(&ConfigValue::Integer(1)));
    assert_eq!(document.get("b"), None);
    assert_eq!(text("a").get("a"), None);
    assert_eq!(ConfigValue::List(vec![text("a")]).get("a"), None);
}

#[test]
fn find_takes_the_first_entry_of_a_key() {
    let entries = vec![entry("a", text("1")), entry("b", text("2")), entry("a", text("3"))];
    assert_eq!(find(&entries, "a"), Some(&text("1")));
    assert_eq!(find(&entries, "b"), Some(&text("2")));
    assert_eq!(find(&entries, "c"), None);
    assert_eq!(find(&entries, ""), None);
}

#[test]
fn configuration_with_two_bots() {
    let (bots, control_bot) = parse_bots(TWO_BOTS, &vec![found(Some("/srv/greeter")), found(None)]).unwrap();
    assert_eq!(names(&bots), vec!["greeter".to_string(), "echo".to_string()]);
    assert_eq!(control_bot, Some("echo".to_string()));
    let greeter = bots.get(&"greeter".to_string()).unwrap();
    assert_eq!(greeter.paths().executable, "/real/run");
    assert_eq!(greeter.paths().repo, Some("/srv/greeter".to_string()));
    assert_eq!(greeter.build().unwrap().args, vec!["build".to_string(), "--release".to_string()]);
    let echo = bots.get(&"echo".to_string()).unwrap();
    assert_eq!(echo.run().args, vec!["-u".to_string()]);
    assert!(!echo.has_repo());
}

#[test]
fn configuration_without_control_bot() {
    let (bots, control_bot) =
        parse_bots("[[bot]]\nname = \"echo\"\nexecutable_path = \"/bin/cat\"\n", &vec![found(None)]).unwrap();
    assert_eq!(bots.len(), 1);
    assert_eq!(control_bot, None);
}

#[test]
fn configuration_with_no_bots_at_all() {
    let (bots, control_bot) = parse_bots("bot = []\n", &vec![]).unwrap();
    assert_eq!(bots.len(), 0);
    assert_eq!(control_bot, None);
}

#[test]
fn malformed_configuration() {
    let message = failure("bot = [", vec![]);
    assert!(message.starts_with("Failed to parse bots.toml as a valid toml file:\n\t"));
    assert!(message.len() > "Failed to parse bots.toml as a valid toml file:\n\t".len());
}

#[test]
fn configuration_without_bot_list() {
    assert_eq!(failure("", vec![]), "No bot is presented in bots.toml!");
    assert_eq!(failure("control_bot = \"echo\"\n", vec![]), "No bot is presented in bots.toml!");
}

#[test]
fn bot_list_must_be_a_list_of_tables() {
    assert_eq!(failure("bot = 3\n", vec![]), "bot in bots.toml should be a array of table!");
    assert_eq!(failure("[bot]\nname = \"a\"\n", vec![]), "bot in bots.toml should be a array of table!");
    assert_eq!(failure("bot = [\"a\"]\n", vec![]), "bot in bots.toml should be a array of table!");
}

#[test]
fn faulty_bot_is_reported_with_its_fault() {
    assert_eq!(
        failure("[[bot]]\nname = 3\n", vec![found(None)]),
        "Failed to parse bot in bots.toml:\n\tbot.name should be a string!"
    );
    assert_eq!(
        failure("[[bot]]\nname = \"a\"\nrepo_path = \"x\"\n", vec![found(None)]),
        "Failed to parse bot in bots.toml:\n\tbot.repo_path should be resolvable to a directory!"
    );
}

#[test]
fn unverified_paths_are_reported_with_the_bot() {
    let text = "[[bot]]\nname = \"a\"\nrepo_path = \"x\"\n";
    let no_git = EntryProbe {
        resolved_repo: Some("/srv/a".to_string()),
        resolved_executable: Some("/srv/a/target/release/a".to_string()),
        paths: PathProbe { repo_is_git: false, executable_is_file: true },
    };
    assert_eq!(
        failure(text, vec![no_git]),
        "Failed on verifying paths for a:\n\tbot.repo_path should lead to a git directiory!"
    );
    let no_file = EntryProbe {
        resolved_repo: Some("/srv/a".to_string()),
        resolved_executable: Some("/srv/a/target/release/a".to_string()),
        paths: PathProbe { repo_is_git: true, executable_is_file: false },
    };
    assert_eq!(
        failure(text, vec![no_file]),
        "Failed on verifying paths for a:\n\tGiven executable_path doesn't lead to a executable file!"
    );
}

#[test]
fn entry_without_probe_counts_as_not_found() {
    assert_eq!(
        failure("[[bot]]\nname = \"a\"\nexecutable_path = \"/bin/a\"\n", vec![]),
        "Failed on verifying paths for a:\n\tGiven executable_path doesn't lead to a executable file!"
    );
    assert_eq!(
        failure(TWO_BOTS, vec![found(Some("/srv/greeter"))]),
        "Failed on verifying paths for echo:\n\tGiven executable_path doesn't lead to a executable file!"
    );
}

#[test]
fn repeated_name_is_refused() {
    let text = "[[bot]]\nname = \"a\"\nexecutable_path = \"/bin/a\"\n[[bot]]\nname = \"a\"\nexecutable_path = \"/bin/b\"\n";
    assert_eq!(failure(text, vec![found(None), found(None)]), "Multiple bots in bots.toml have identical name!");
}

#[test]
fn first_faulty_entry_is_reported() {
    let text = "[[bot]]\nname = \"a\"\nexecutable_path = \"/bin/a\"\n[[bot]]\nname = \"b c\"\n[[bot]]\nname = \"a\"\nexecutable_path = \"/bin/b\"\n";
    assert_eq!(
        failure(text, vec![found(None), found(None), found(None)]),
        "Failed to parse bot in bots.toml:\n\tbot.name should contain no whitespace!"
    );
}

#[test]
fn control_bot_must_name_a_bot() {
    let text = "control_bot = \"ghost\"\n[[bot]]\nname = \"a\"\nexecutable_path = \"/bin/a\"\n";
    assert_eq!(failure(text, vec![found(None)]), "control_bot should contain a bot name presented in a bot table");
}

#[test]
fn control_bot_must_be_text() {
    let text = "control_bot = 1\n[[bot]]\nname = \"a\"\nexecutable_path = \"/bin/a\"\n";
    assert_eq!(failure(text, vec![found(None)]), "control_bot should contain a bot name presented in a bot table");
}

#[test]
fn bots_are_checked_before_the_control_bot() {
    let text = "control_bot = 1\n[[bot]]\nname = 1\n";
    assert_eq!(failure(text, vec![found(None)]), "Failed to parse bot in bots.toml:\n\tbot.name should be a string!");
}

#[test]
fn load_bots_reads_a_document_built_by_hand() {
    let document = ConfigValue::Table(vec![
        entry(
            "bot",
            ConfigValue::List(vec![ConfigValue::Table(vec![
                entry("name", text("echo")),
                entry("executable_path", text("/bin/cat")),
            ])]),
        ),
        entry("control_bot", text("echo")),
    ]);
    let (bots, control_bot) = load_bots(&document, &vec![found(None)]).unwrap();
    assert_eq!(names(&bots), vec!["echo".to_string()]);
    assert_eq!(control_bot, Some("echo".to_string()));
}

#[test]
fn load_bots_refuses_a_document_that_is_no_table() {
    assert_eq!(load_bots(&text("bot"), &vec![]).unwrap_err(), "No bot is presented in bots.toml!");
}

#[test]
fn descriptors_hold_resolved_executables() {
    let text = "[[bot]]\nname = \"a\"\nrepo_path = \"x\"\nexecutable_path = \"bin/../run\"\n";
    let probe = EntryProbe {
        resolved_repo: Some("/srv/a".to_string()),
        resolved_executable: Some("/srv/a/run".to_string()),
        paths: PathProbe { repo_is_git: true, executable_is_file: true },
    };
    let (bots, _) = parse_bots(text, &vec![probe]).unwrap();
    let bot = bots.get(&"a".to_string()).unwrap();
    assert_eq!(bot.paths(), BotPaths { repo: Some("/srv/a".to_string()), executable: "/srv/a/run".to_string() });
    assert_eq!(bot.run().program, "/srv/a/run");
    assert_eq!(bot.clean().unwrap().program, "bash");
}

#[test]
fn executable_that_does_not_resolve_counts_as_no_file() {
    let text = "[[bot]]\nname = \"a\"\nexecutable_path = \"/bin/a\"\n";
    let probe = EntryProbe {
        resolved_repo: None,
        resolved_executable: None,
        paths: PathProbe { repo_is_git: true, executable_is_file: true },
    };
    assert_eq!(
        failure(text, vec![probe]),
        "Failed on verifying paths for a:\n\tGiven executable_path doesn't lead to a executable file!"
    );
}

#[test]
fn repo_path_of_a_table() {
    let with = vec![entry("name", text("a")), entry("repo_path", text("../a"))];
    assert_eq!(repo_path_of(&with), Some(&"../a".to_string()));
    assert_eq!(repo_path_of(&vec![entry("name", text("a"))]), None);
    assert_eq!(repo_path_of(&vec![entry("repo_path", ConfigValue::Integer(1))]), None);
    assert_eq!(repo_path_of(&vec![]), None);
}

#[test]
fn repo_paths_of_a_document() {
    let document = parse_document(TWO_BOTS).unwrap();
    assert_eq!(repo_paths(&document), vec![Some("../greeter".to_string()), None]);
    let odd = parse_document("bot = [1, { repo_path = 2 }, { repo_path = \"r\" }]\n").unwrap();
    assert_eq!(repo_paths(&odd), vec![None, None, Some("r".to_string())]);
    assert_eq!(repo_paths(&parse_document("").unwrap()), Vec::<Option<String>>::new());
    assert_eq!(repo_paths(&parse_document("bot = 1\n").unwrap()), Vec::<Option<String>>::new());
}

#[test]
fn descriptor_paths_of_a_document() {
    let document = parse_document(TWO_BOTS).unwrap();
    assert_eq!(
        descriptor_paths(&document, &vec![Some("/srv/greeter".to_string()), None]),
        vec![
            Some(BotPaths {
                repo: Some("/srv/greeter".to_string()),
                executable: "/srv/greeter/target/release/greeter".to_string(),
            }),
            Some(BotPaths { repo: None, executable: "/bin/cat".to_string() }),
        ]
    );
    assert_eq!(
        descriptor_paths(&document, &vec![]),
        vec![None, Some(BotPaths { repo: None, executable: "/bin/cat".to_string() })]
    );
    assert_eq!(descriptor_paths(&parse_document("bot = [1]\n").unwrap(), &vec![None]), vec![None]);
    assert_eq!(descriptor_paths(&parse_document("").unwrap(), &vec![None]), vec![]);
}
