use pin::cmd::{err_parse_msg, parse_args, topic_of, Add, Cmd, Command, Delete, Help, List, ParseErr, Pin, Topic, Update};
use pin::field_edit::{FieldEdit, Progress};
use pin::key::Key;
use pin::path::{parse_path, resolution, PathForm};
use pin::run::{exit_saving, exit_with, AwaitConfirm, AwaitEdit, AwaitPath, AwaitStore, Edited, Outcome, Request};
use pin::selector::Field;
use pin::store::Store;
use pin::tty::{Confirmation, Tty};

fn s(text: &str) -> String {
    String::from(text)
}

fn args(words: &[&str]) -> Vec<String> {
    words.iter().map(|word| s(word)).collect()
}

fn store_of(pairs: &[(&str, &str)]) -> Store {
    let mut store = Store::init(None);
    for (alias, path) in pairs {
        let _ = store.add(s(alias), s(path));
    }
    store
}

fn exit(request: Request) -> Outcome {
    match request {
        Request::Exit(outcome) => outcome,
        _ => panic!("the command has not ended"),
    }
}

fn load(request: Request, store: Store) -> Request {
    match request {
        Request::Load(next) => next.loaded(store),
        _ => panic!("the command does not ask for the store"),
    }
}

fn confirm(request: Request) -> (Option<String>, AwaitConfirm) {
    match request {
        Request::Confirm(notice, next) => (notice, next),
        _ => panic!("the command does not ask for confirmation"),
    }
}

fn resolve(request: Request) -> (String, AwaitPath) {
    match request {
        Request::Resolve(path, next) => (path, next),
        _ => panic!("the command does not ask for a path"),
    }
}

fn edit(request: Request) -> AwaitEdit {
    match request {
        Request::Edit(next) => next,
        _ => panic!("the command does not ask for an edit"),
    }
}

fn parse_error(command: Command) -> String {
    match command {
        Command::ParseErr(err) => err.msg,
        _ => panic!("the arguments were accepted"),
    }
}

#[test]
fn arguments_name_the_commands() {
    for flag in ["--add", "-a"] {
        match parse_args(&args(&["pin", flag, "docs", "/tmp", "more"])) {
            Command::Add(add) => {
                assert_eq!(add.alias, "docs");
                assert_eq!(add.path, "/tmp");
            },
            _ => panic!("not an add"),
        }
    }
    for flag in ["--delete", "-d"] {
        assert!(matches!(parse_args(&args(&["pin", flag, "docs"])), Command::Delete(Delete { alias }) if alias == "docs"));
    }
    for flag in ["--update", "-u"] {
        assert!(matches!(parse_args(&args(&["pin", flag, "docs"])), Command::Update(Update { alias }) if alias == "docs"));
    }
    for flag in ["--list", "-l"] {
        assert!(matches!(parse_args(&args(&["pin", flag, "ignored"])), Command::List(List {})));
    }
    for flag in ["--help", "-h"] {
        assert!(matches!(parse_args(&args(&["pin", flag])), Command::Help(Help { cmd: None })));
        assert!(matches!(parse_args(&args(&["pin", flag, "add"])), Command::Help(Help { cmd: Some(word) }) if word == "add"));
    }
    assert!(matches!(parse_args(&args(&["pin", "docs"])), Command::Pin(Pin { alias }) if alias == "docs"));
    assert!(matches!(parse_args(&args(&["pin", "docs", "-a"])), Command::Pin(Pin { alias }) if alias == "docs"));
    assert!(matches!(parse_args(&args(&["pin"])), Command::Pin(Pin { alias }) if alias.is_empty()));
    assert!(matches!(parse_args(&args(&[])), Command::Pin(Pin { alias }) if alias.is_empty()));
    assert!(matches!(parse_args(&args(&["pin", ""])), Command::Pin(Pin { alias }) if alias.is_empty()));
}

#[test]
fn arguments_that_name_no_command() {
    assert_eq!(
        parse_error(parse_args(&args(&["pin", "--add"]))),
        "Error: missing alias from command. Please use \"pin --add [alias] [path]\"."
    );
    assert_eq!(
        parse_error(parse_args(&args(&["pin", "-a", "docs"]))),
        "Error: missing alias from command. Please use \"pin --add [alias] [path]\"."
    );
    assert_eq!(
        parse_error(parse_args(&args(&["pin", "-d"]))),
        "Error: missing alias from command. Please use \"pin --delete [alias]\"."
    );
    assert_eq!(
        parse_error(parse_args(&args(&["pin", "--update"]))),
        "Error: missing alias from command. Please use \"pin --update [alias]\"."
    );
    assert_eq!(
        parse_error(parse_args(&args(&["pin", "--frobnicate", "x"]))),
        "No function named --frobnicate, type --help to list all commands."
    );
    assert_eq!(parse_error(parse_args(&args(&["pin", "-"]))), "No function named -, type --help to list all commands.");
    assert_eq!(parse_error(parse_args(&args(&["pin", "-A"]))), "No function named -A, type --help to list all commands.");
}

#[test]
fn missing_argument_message() {
    assert_eq!(err_parse_msg("path", "pin x").msg, "Error: missing path from command. Please use \"pin x\".");
    assert_eq!(err_parse_msg("", "").msg, "Error: missing  from command. Please use \"\".");
}

#[test]
fn the_store_is_asked_for_when_it_is_first_needed() {
    assert!(matches!(parse_args(&args(&["pin", "docs"])).execute(), Request::Load(AwaitStore::Pin { alias }) if alias == "docs"));
    assert!(matches!(parse_args(&args(&["pin", "-l"])).execute(), Request::Load(AwaitStore::List)));
    assert!(matches!(parse_args(&args(&["pin", "-u", "a"])).execute(), Request::Load(AwaitStore::Update { alias }) if alias == "a"));
    assert!(matches!(parse_args(&args(&["pin", "-a", "a", "/b"])).execute(), Request::Resolve(path, AwaitPath::Add { alias }) if path == "/b" && alias == "a"));
    assert!(matches!(parse_args(&args(&["pin", "-d", "a"])).execute(), Request::Confirm(None, AwaitConfirm::Delete { alias }) if alias == "a"));
    assert!(matches!(parse_args(&args(&["pin", "-h"])).execute(), Request::Exit(_)));
    assert!(matches!(parse_args(&args(&["pin", "-x"])).execute(), Request::Exit(_)));
    let (_, next) = resolve(Add { alias: s("a"), path: s("/b") }.execute());
    assert!(matches!(next.resolved(Ok(s("/c"))), Request::Load(AwaitStore::Add { alias, path }) if alias == "a" && path == "/c"));
    let (_, next) = confirm(Delete { alias: s("a") }.execute());
    assert!(matches!(next.confirmed(Some(true)), Request::Load(AwaitStore::Delete { alias }) if alias == "a"));
}

#[test]
fn pin_gives_the_path_with_status_3() {
    let outcome = exit(load(Pin { alias: s("proj") }.execute(), store_of(&[("proj", "/home/u/proj")])));
    assert_eq!(outcome.message, "/home/u/proj");
    assert_eq!(outcome.code, 3);
    assert!(outcome.store.is_none());
}

#[test]
fn pin_of_an_unknown_alias_is_an_error() {
    let outcome = exit(load(Pin { alias: s("pro") }.execute(), store_of(&[("proj", "/home/u/proj")])));
    assert_eq!(outcome.message, "Error: Alias not found in store. Type \"pin --help\" for help");
    assert_eq!(outcome.code, 1);
    assert!(outcome.store.is_none());
}

#[test]
fn list_prints_the_table_with_status_2() {
    let outcome = exit(load(List {}.execute(), store_of(&[("a", "/b")])));
    let expected = "\
+-------+------+
| Alias | Path |
+-------+------+
| a     | /b   |
+-------+------+
";
    assert_eq!(outcome.message, expected);
    assert_eq!(outcome.code, 2);
    assert!(outcome.store.is_none());
}

#[test]
fn parse_error_prints_its_message_with_status_1() {
    let outcome = exit(ParseErr { msg: s("no") }.execute());
    assert_eq!(outcome.message, "no");
    assert_eq!(outcome.code, 1);
    assert!(outcome.store.is_none());
}

#[test]
fn help_for_one_command() {
    let help = |word: &str| exit(Help { cmd: Some(s(word)) }.execute());
    assert_eq!(
        help("add").message,
        "add (-a):\n  Usage: pin --add [alias] [path]\n  Description: Add the supplied alias to the supplied path."
    );
    assert_eq!(
        help("delete").message,
        "delete (-d):\n  Usage: pin --delete [alias]\n  Description: Delete an alias from it's store."
    );
    assert_eq!(help("list").message, "list (-l):\n  Usage: pin --list\n  Description: List all alias-path pairs");
    assert_eq!(
        help("update").message,
        "update (-u):\n  Usage: pin --update [alias]\n  Description: Update an alias-path pair"
    );
    assert_eq!(help("pin").message, "pin:\n  Usage: pin [alias]\n  Description: Go to the path aliased");
    assert_eq!(
        help("help").message,
        "help (-h):\n  Usage: pin --help [cmd(optional)]\n  Description: List all commands for pin or get specifics about one command."
    );
    assert_eq!(help("Add").message, "Unknown command: Add");
    assert_eq!(help("").message, "Unknown command: ");
    assert_eq!(help("add").code, 2);
    assert_eq!(help("nothing").code, 2);
}

#[test]
fn help_for_all_commands_is_a_table() {
    let outcome = exit(Help { cmd: None }.execute());
    let expected = "\
+---------+---------------------------------------------------------------+----------------------------+
| Command | Description                                                   | Usage                      |
+---------+---------------------------------------------------------------+----------------------------+
| pin     | Go to the path aliased                                        | pin [alias]                |
+---------+---------------------------------------------------------------+----------------------------+
| add     | Add the supplied alias to the supplied path.                  | pin --add [alias] [path]   |
+---------+---------------------------------------------------------------+----------------------------+
| delete  | Delete an alias from it's store.                              | pin --delete [alias]       |
+---------+---------------------------------------------------------------+----------------------------+
| help    | List all commands for pin or get specifics about one command. | pin --help [cmd(optional)] |
+---------+---------------------------------------------------------------+----------------------------+
| list    | List all alias-path pairs                                     | pin --list                 |
+---------+---------------------------------------------------------------+----------------------------+
| update  | Update an alias-path pair                                     | pin --update [alias]       |
+---------+---------------------------------------------------------------+----------------------------+
";
    assert_eq!(outcome.message, expected);
    assert_eq!(outcome.code, 2);
    assert!(outcome.store.is_none());
}

#[test]
fn topics_by_name() {
    assert_eq!(topic_of("add"), Some(Topic::Add));
    assert_eq!(topic_of("delete"), Some(Topic::Delete));
    assert_eq!(topic_of("list"), Some(Topic::List));
    assert_eq!(topic_of("update"), Some(Topic::Update));
    assert_eq!(topic_of("pin"), Some(Topic::Pin));
    assert_eq!(topic_of("help"), Some(Topic::Help));
    assert_eq!(topic_of("--add"), None);
    assert_eq!(Topic::Add.row(), vec![s("add"), s("Add the supplied alias to the supplied path."), s("pin --add [alias] [path]")]);
}

#[test]
fn add_of_a_new_alias_is_saved() {
    let (path, next) = resolve(Add { alias: s("docs"), path: s("~/docs") }.execute());
    assert_eq!(path, "~/docs");
    let outcome = exit(load(next.resolved(Ok(s("/home/u/docs"))), Store::init(None)));
    assert_eq!(outcome.message, "");
    assert_eq!(outcome.code, 0);
    let store = outcome.store.expect("the store is to be saved");
    assert_eq!(store.get(&s("docs")), Some(s("/home/u/docs")));
}

#[test]
fn add_with_a_path_that_cannot_be_resolved_changes_nothing() {
    let (_, next) = resolve(Add { alias: s("docs"), path: s("/nowhere") }.execute());
    let outcome = exit(next.resolved(Err(s("Error: unable to canonicalise path. Check path exists"))));
    assert_eq!(outcome.message, "Error: unable to canonicalise path. Check path exists");
    assert_eq!(outcome.code, 1);
    assert!(outcome.store.is_none());
}

#[test]
fn add_of_a_known_alias_asks_first() {
    let start = || {
        let (_, next) = resolve(Add { alias: s("proj"), path: s("/new") }.execute());
        confirm(load(next.resolved(Ok(s("/new"))), store_of(&[("proj", "/home/u/proj")])))
    };
    let (notice, next) = start();
    assert_eq!(notice, Some(s("This action will overwrite existing alias to /home/u/proj.\n")));
    let outcome = exit(next.confirmed(Some(true)));
    assert_eq!((outcome.message.as_str(), outcome.code), ("", 0));
    assert_eq!(outcome.store.expect("the store is to be saved").get(&s("proj")), Some(s("/new")));

    let (_, next) = start();
    let outcome = exit(next.confirmed(Some(false)));
    assert_eq!((outcome.message.as_str(), outcome.code), ("", 0));
    assert!(outcome.store.is_none());

    let (_, next) = start();
    let outcome = exit(next.confirmed(None));
    assert_eq!((outcome.message.as_str(), outcome.code), ("Error: unable to access /dev/tty", 1));
    assert!(outcome.store.is_none());
}

#[test]
fn overwrite_notice_is_drawn_with_a_carriage_return() {
    let (_, next) = resolve(Add { alias: s("a"), path: s("/new") }.execute());
    let (notice, _) = confirm(load(next.resolved(Ok(s("/new"))), store_of(&[("a", "/old")])));
    let mut tty = Tty::new();
    tty.write(notice.expect("a notice"));
    assert_eq!(tty.take_output(), "This action will overwrite existing alias to /old.\n\r");
}

#[test]
fn declined_delete_leaves_the_store_unchanged() {
    let store = store_of(&[("proj", "/home/u/proj")]);
    let before = store.pairs();
    let (notice, next) = confirm(Delete { alias: s("proj") }.execute());
    assert_eq!(notice, None);
    let mut tty = Tty::new();
    assert_eq!(tty.ask_confirmation(None), Confirmation::Prompting);
    assert_eq!(tty.ask_confirmation(Some(Key::Char('n'))), Confirmation::Declined);
    let outcome = exit(next.confirmed(Some(false)));
    assert_eq!((outcome.message.as_str(), outcome.code), ("", 0));
    assert!(outcome.store.is_none());
    assert_eq!(store.pairs(), before);
    assert_eq!(store.get(&s("proj")), Some(s("/home/u/proj")));
}

#[test]
fn confirmed_delete_is_saved() {
    let (_, next) = confirm(Delete { alias: s("proj") }.execute());
    let outcome = exit(load(next.confirmed(Some(true)), store_of(&[("proj", "/p"), ("docs", "/d")])));
    assert_eq!((outcome.message.as_str(), outcome.code), ("", 0));
    let store = outcome.store.expect("the store is to be saved");
    assert_eq!(store.get(&s("proj")), None);
    assert_eq!(store.get(&s("docs")), Some(s("/d")));
}

#[test]
fn confirmed_delete_of_an_unknown_alias_is_an_error() {
    let (_, next) = confirm(Delete { alias: s("nope") }.execute());
    let outcome = exit(load(next.confirmed(Some(true)), store_of(&[("proj", "/p")])));
    assert_eq!((outcome.message.as_str(), outcome.code), ("Error: Alias not found in store", 1));
    let store = outcome.store.expect("the store is still saved");
    assert_eq!(store.get(&s("proj")), Some(s("/p")));
}

#[test]
fn delete_without_a_terminal_is_an_error() {
    let (_, next) = confirm(Delete { alias: s("proj") }.execute());
    let outcome = exit(next.confirmed(None));
    assert_eq!((outcome.message.as_str(), outcome.code), ("Error: unable to access /dev/tty", 1));
    assert!(outcome.store.is_none());
}

#[test]
fn update_of_an_unknown_alias_is_an_error() {
    let outcome = exit(load(Update { alias: s("nope") }.execute(), store_of(&[("proj", "/p")])));
    assert_eq!(outcome.message, "Error: alias not in store. You can't update an alias that doesn't exist.");
    assert_eq!(outcome.code, 1);
    assert!(outcome.store.is_none());
}

#[test]
fn update_edits_the_path_of_an_entry() {
    let next = edit(load(Update { alias: s("proj") }.execute(), store_of(&[("proj", "/home/u/proj")])));
    assert_eq!(next.alias, "proj");
    assert_eq!(next.path, "/home/u/proj");
    let mut tty = Tty::new();
    let mut flow = FieldEdit::new(next.alias.clone(), next.path.clone());
    let mut keys = vec![None, Some(Key::Char('p')), Some(Key::Char('2')), Some(Key::Enter)].into_iter();
    let answer = loop {
        match flow.advance(&mut tty, keys.next().expect("a key")) {
            Progress::Pending(on) => flow = on,
            Progress::Canceled => break Edited::Canceled,
            Progress::Committed(field, text) => break Edited::Committed(field, text),
        }
    };
    let (path, next) = resolve(next.edited(answer));
    assert_eq!(path, "/home/u/proj2");
    let outcome = exit(next.resolved(Ok(s("/home/u/proj2"))));
    assert_eq!((outcome.message.as_str(), outcome.code), ("", 0));
    let store = outcome.store.expect("the store is to be saved");
    assert_eq!(store.get(&s("proj")), Some(s("/home/u/proj2")));
    assert_eq!(store.list_all(), store_of(&[("proj", "/home/u/proj2")]).list_all());
}

#[test]
fn update_with_a_path_that_cannot_be_resolved_changes_nothing() {
    let next = edit(load(Update { alias: s("proj") }.execute(), store_of(&[("proj", "/p")])));
    let (_, next) = resolve(next.edited(Edited::Committed(Field::Path, s("/gone"))));
    let outcome = exit(next.resolved(Err(s("Error: unable to canonicalise path. Check path exists"))));
    assert_eq!(outcome.code, 1);
    assert!(outcome.store.is_none());
}

#[test]
fn update_renames_an_alias() {
    let next = edit(load(Update { alias: s("proj") }.execute(), store_of(&[("proj", "/p"), ("docs", "/d")])));
    let outcome = exit(next.edited(Edited::Committed(Field::Alias, s("work"))));
    assert_eq!((outcome.message.as_str(), outcome.code), ("", 0));
    let store = outcome.store.expect("the store is to be saved");
    assert_eq!(store.get(&s("proj")), None);
    assert_eq!(store.get(&s("work")), Some(s("/p")));
    assert_eq!(store.list_all(), store_of(&[("docs", "/d"), ("work", "/p")]).list_all());
}

#[test]
fn update_to_an_alias_in_use_takes_its_place() {
    let next = edit(load(Update { alias: s("proj") }.execute(), store_of(&[("proj", "/p"), ("docs", "/d")])));
    let outcome = exit(next.edited(Edited::Committed(Field::Alias, s("docs"))));
    let store = outcome.store.expect("the store is to be saved");
    assert_eq!(store.list_all(), store_of(&[("docs", "/p")]).list_all());
}

#[test]
fn update_given_up_or_without_a_terminal() {
    let next = edit(load(Update { alias: s("proj") }.execute(), store_of(&[("proj", "/p")])));
    let outcome = exit(next.edited(Edited::Canceled));
    assert_eq!((outcome.message.as_str(), outcome.code), ("Canceled", 2));
    assert!(outcome.store.is_none());
    let next = edit(load(Update { alias: s("proj") }.execute(), store_of(&[("proj", "/p")])));
    let outcome = exit(next.edited(Edited::Unavailable));
    assert_eq!((outcome.message.as_str(), outcome.code), ("Error: unable to access /dev/tty", 1));
    assert!(outcome.store.is_none());
}

#[test]
fn any_command_runs_through_the_enum() {
    let outcome = exit(load(parse_args(&args(&["pin", "proj"])).execute(), store_of(&[("proj", "/p")])));
    assert_eq!((outcome.message.as_str(), outcome.code), ("/p", 3));
    let outcome = exit(parse_args(&args(&["pin", "--what"])).execute());
    assert_eq!(outcome.code, 1);
    assert!(matches!(parse_args(&args(&["pin", "-a", "a", "/b"])).execute(), Request::Resolve(path, _) if path == "/b"));
    assert!(matches!(parse_args(&args(&["pin", "-d", "a"])).execute(), Request::Confirm(None, _)));
    assert!(matches!(load(parse_args(&args(&["pin", "-u", "a"])).execute(), store_of(&[("a", "/b")])), Request::Edit(_)));
    assert_eq!(exit(load(parse_args(&args(&["pin", "-l"])).execute(), Store::init(None))).code, 2);
    assert_eq!(exit(parse_args(&args(&["pin", "-h", "list"])).execute()).code, 2);
}

#[test]
fn plain_exits() {
    let outcome = exit(exit_with(s("bye"), 7));
    assert_eq!((outcome.message.as_str(), outcome.code), ("bye", 7));
    assert!(outcome.store.is_none());
    let outcome = exit(exit_saving(store_of(&[("a", "b")])));
    assert_eq!((outcome.message.as_str(), outcome.code), ("", 0));
    assert_eq!(outcome.store.expect("a store").get(&s("a")), Some(s("b")));
}

#[test]
fn path_shorthands() {
    assert!(matches!(parse_path(&s("~")), PathForm::Home));
    assert!(matches!(parse_path(&s("~/docs/x")), PathForm::UnderHome(rest) if rest == "docs/x"));
    assert!(matches!(parse_path(&s("~/é")), PathForm::UnderHome(rest) if rest == "é"));
    assert!(matches!(parse_path(&s("~//abs")), PathForm::UnderHome(rest) if rest == "/abs"));
    assert!(matches!(parse_path(&s("~/")), PathForm::Plain));
    assert!(matches!(parse_path(&s("~x")), PathForm::Plain));
    assert!(matches!(parse_path(&s("")), PathForm::Plain));
    assert!(matches!(parse_path(&s("/tmp")), PathForm::Plain));
    assert!(matches!(parse_path(&s("a/~/b")), PathForm::Plain));
    assert!(matches!(parse_path(&s("é~/")), PathForm::Plain));
}

#[test]
fn path_resolution_messages() {
    assert_eq!(resolution(&PathForm::Home, Some(s("/home/u"))), Ok(s("/home/u")));
    assert_eq!(resolution(&PathForm::Plain, Some(s("/tmp"))), Ok(s("/tmp")));
    assert_eq!(resolution(&PathForm::Home, None), Err(s("Error: unable to find home directory")));
    assert_eq!(resolution(&PathForm::UnderHome(s("x")), None), Err(s("Error: unable to find home directory")));
    assert_eq!(
        resolution(&PathForm::Plain, None),
        Err(s("Error: unable to canonicalise path. Check path exists"))
    );
}
