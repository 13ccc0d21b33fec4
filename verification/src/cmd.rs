//! The commands, how the arguments name them, and what each of them does.

use vstd::prelude::*;
use vstd::string::{StrSliceExecFns, StringExecFns};
use crate::run::{
    exit_with, leave, AwaitConfirm, AwaitConfirmModel, AwaitPath, AwaitPathModel, AwaitStore,
    AwaitStoreModel, Request, RequestModel,
};
use crate::table::{printable_rows, render_table, table_text};
use crate::text::same_text;

verus! {

/// Go to the path that an alias stands for.
pub struct Pin {
    pub alias: String,
}

/// Let an alias stand for a path.
pub struct Add {
    pub alias: String,
    pub path: String,
}

/// Take an alias out of the store.
pub struct Delete {
    pub alias: String,
}

/// Explain all commands, or one.
pub struct Help {
    pub cmd: Option<String>,
}

/// List all entries.
pub struct List {}

/// Edit the alias or the path of an entry.
pub struct Update {
    pub alias: String,
}

/// The arguments named no command.
pub struct ParseErr {
    pub msg: String,
}

/// Any of the commands.
pub enum Command {
    Pin(Pin),
    Add(Add),
    Delete(Delete),
    Help(Help),
    List(List),
    Update(Update),
    ParseErr(ParseErr),
}

/// A command, as mathematics.
pub enum CommandModel {
    Pin(Seq<char>),
    Add(Seq<char>, Seq<char>),
    Delete(Seq<char>),
    Help(Option<Seq<char>>),
    List,
    Update(Seq<char>),
    ParseErr(Seq<char>),
}

/// The commands that the help explains.
#[derive(Clone, Copy, Debug, PartialEq, Eq)]
pub enum Topic {
    Pin,
    Add,
    Delete,
    Help,
    List,
    Update,
}

impl Topic {
    /// The command's name.
    pub open spec fn spec_name(self) -> Seq<char> {
        match self {
            Topic::Pin => "pin"@,
            Topic::Add => "add"@,
            Topic::Delete => "delete"@,
            Topic::Help => "help"@,
            Topic::List => "list"@,
            Topic::Update => "update"@,
        }
    }

    /// The command's flag, in parentheses behind a space; nothing for the
    /// command that has no flag.
    pub open spec fn spec_short(self) -> Seq<char> {
        match self {
            Topic::Pin => ""@,
            Topic::Add => " (-a)"@,
            Topic::Delete => " (-d)"@,
            Topic::Help => " (-h)"@,
            Topic::List => " (-l)"@,
            Topic::Update => " (-u)"@,
        }
    }

    /// How the command is called.
    pub open spec fn spec_usage(self) -> Seq<char> {
        match self {
            Topic::Pin => "pin [alias]"@,
            Topic::Add => "pin --add [alias] [path]"@,
            Topic::Delete => "pin --delete [alias]"@,
            Topic::Help => "pin --help [cmd(optional)]"@,
            Topic::List => "pin --list"@,
            Topic::Update => "pin --update [alias]"@,
        }
    }

    /// What the command does.
    pub open spec fn spec_desc(self) -> Seq<char> {
        match self {
            Topic::Pin => "Go to the path aliased"@,
            Topic::Add => "Add the supplied alias to the supplied path."@,
            Topic::Delete => "Delete an alias from it's store."@,
            Topic::Help => "List all commands for pin or get specifics about one command."@,
            Topic::List => "List all alias-path pairs"@,
            Topic::Update => "Update an alias-path pair"@,
        }
    }

    /// The help for this command alone.
    pub open spec fn spec_details(self) -> Seq<char> {
        self.spec_name() + self.spec_short() + ":\n  Usage: "@ + self.spec_usage()
            + "\n  Description: "@ + self.spec_desc()
    }

    /// The command's row in the summary.
    pub open spec fn spec_row(self) -> Seq<Seq<char>> {
        seq![self.spec_name(), self.spec_desc(), self.spec_usage()]
    }

    /// The command's name.
    pub fn name(self) -> (name: &'static str)
        ensures
            name@ == self.spec_name(),
    {
        match self {
            Topic::Pin => "pin",
            Topic::Add => "add",
            Topic::Delete => "delete",
            Topic::Help => "help",
            Topic::List => "list",
            Topic::Update => "update",
        }
    }

    /// The command's flag, in parentheses behind a space; nothing for the
    /// command that has no flag.
    pub fn short(self) -> (short: &'static str)
        ensures
            short@ == self.spec_short(),
    {
        match self {
            Topic::Pin => "",
            Topic::Add => " (-a)",
            Topic::Delete => " (-d)",
            Topic::Help => " (-h)",
            Topic::List => " (-l)",
            Topic::Update => " (-u)",
        }
    }

    /// How the command is called.
    pub fn usage(self) -> (usage: &'static str)
        ensures
            usage@ == self.spec_usage(),
    {
        match self {
            Topic::Pin => "pin [alias]",
            Topic::Add => "pin --add [alias] [path]",
            Topic::Delete => "pin --delete [alias]",
            Topic::Help => "pin --help [cmd(optional)]",
            Topic::List => "pin --list",
            Topic::Update => "pin --update [alias]",
        }
    }

    /// What the command does.
    pub fn desc(self) -> (desc: &'static str)
        ensures
            desc@ == self.spec_desc(),
    {
        match self {
            Topic::Pin => "Go to the path aliased",
            Topic::Add => "Add the supplied alias to the supplied path.",
            Topic::Delete => "Delete an alias from it's store.",
            Topic::Help => "List all commands for pin or get specifics about one command.",
            Topic::List => "List all alias-path pairs",
            Topic::Update => "Update an alias-path pair",
        }
    }

    /// The help for this command alone.
    pub fn details(self) -> (text: String)
        ensures
            text@ == self.spec_details(),
    {
        let mut text = String::from_str(self.name());
        text.append(self.short());
        text.append(":\n  Usage: ");
        text.append(self.usage());
        text.append("\n  Description: ");
        text.append(self.desc());
        text
    }

    /// The command's row in the summary.
    pub fn row(self) -> (row: Vec<String>)
        ensures
            row.deep_view() == self.spec_row(),
    {
        let mut row: Vec<String> = Vec::new();
        row.push(String::from_str(self.name()));
        row.push(String::from_str(self.desc()));
        row.push(String::from_str(self.usage()));
        assert(row.deep_view() =~= self.spec_row());
        row
    }
}

/// The topic that `word` names, if it names one.
pub open spec fn topic_named(word: Seq<char>) -> Option<Topic> {
    if word == "add"@ {
        Some(Topic::Add)
    } else if word == "delete"@ {
        Some(Topic::Delete)
    } else if word == "list"@ {
        Some(Topic::List)
    } else if word == "update"@ {
        Some(Topic::Update)
    } else if word == "pin"@ {
        Some(Topic::Pin)
    } else if word == "help"@ {
        Some(Topic::Help)
    } else {
        None
    }
}

/// The rows of the summary of all commands.
pub open spec fn summary() -> Seq<Seq<Seq<char>>> {
    seq![
        seq!["Command"@, "Description"@, "Usage"@],
        Topic::Pin.spec_row(),
        Topic::Add.spec_row(),
        Topic::Delete.spec_row(),
        Topic::Help.spec_row(),
        Topic::List.spec_row(),
        Topic::Update.spec_row(),
    ]
}

/// The help text: for a word that names a command, that command's details;
/// for another word, that it is unknown; without a word, the summary as a
/// table.
pub open spec fn help_text(word: Option<Seq<char>>) -> Seq<char> {
    match word {
        Some(word) => match topic_named(word) {
            Some(topic) => topic.spec_details(),
            None => "Unknown command: "@ + word,
        },
        None => table_text(printable_rows(summary())),
    }
}

/// The message for a command line that lacks `missing`, where `cmd` is how
/// the command is called.
pub open spec fn missing_text(missing: Seq<char>, cmd: Seq<char>) -> Seq<char> {
    "Error: missing "@ + missing + " from command. Please use \""@ + cmd + "\"."@
}

/// The message for a flag that names no command.
pub open spec fn unknown_flag_text(word: Seq<char>) -> Seq<char> {
    "No function named "@ + word + ", type --help to list all commands."@
}

/// The command that the arguments name. The first argument is the program's
/// own name; the second is a flag, or an alias to go to.
pub open spec fn parsed(args: Seq<Seq<char>>) -> CommandModel {
    let word = if args.len() > 1 {
        args[1]
    } else {
        Seq::empty()
    };
    if word == "--add"@ || word == "-a"@ {
        if args.len() > 3 {
            CommandModel::Add(args[2], args[3])
        } else {
            CommandModel::ParseErr(missing_text("alias"@, "pin --add [alias] [path]"@))
        }
    } else if word == "--delete"@ || word == "-d"@ {
        if args.len() > 2 {
            CommandModel::Delete(args[2])
        } else {
            CommandModel::ParseErr(missing_text("alias"@, "pin --delete [alias]"@))
        }
    } else if word == "--help"@ || word == "-h"@ {
        CommandModel::Help(
            if args.len() > 2 {
                Some(args[2])
            } else {
                None
            },
        )
    } else if word == "--list"@ || word == "-l"@ {
        CommandModel::List
    } else if word == "--update"@ || word == "-u"@ {
        if args.len() > 2 {
            CommandModel::Update(args[2])
        } else {
            CommandModel::ParseErr(missing_text("alias"@, "pin --update [alias]"@))
        }
    } else if word.len() > 0 && word[0] == '-' {
        CommandModel::ParseErr(unknown_flag_text(word))
    } else {
        CommandModel::Pin(word)
    }
}

impl CommandModel {
    /// What the command asks for first. A command that looks into the store
    /// asks for it; an addition first has its path resolved, and a deletion
    /// first has the user confirm.
    pub open spec fn plan(self) -> RequestModel {
        match self {
            CommandModel::Pin(alias) => RequestModel::Load(AwaitStoreModel::Pin { alias }),
            CommandModel::Add(alias, path) => RequestModel::Resolve(
                path,
                AwaitPathModel::Add { alias },
            ),
            CommandModel::Delete(alias) => RequestModel::Confirm(
                None,
                AwaitConfirmModel::Delete { alias },
            ),
            CommandModel::Help(word) => leave(help_text(word), 2),
            CommandModel::List => RequestModel::Load(AwaitStoreModel::List),
            CommandModel::Update(alias) => RequestModel::Load(AwaitStoreModel::Update { alias }),
            CommandModel::ParseErr(msg) => leave(msg, 1),
        }
    }
}

/// What every command can do: run, up to the first thing that it needs from
/// outside.
pub trait Cmd: Sized {
    /// The command, as mathematics.
    spec fn model(&self) -> CommandModel;

    /// Runs the command up to its first request.
    fn execute(self) -> (request: Request)
        ensures
            request@ == self.model().plan(),
    ;
}

impl Cmd for Pin {
    open spec fn model(&self) -> CommandModel {
        CommandModel::Pin(self.alias@)
    }

    fn execute(self) -> (request: Request) {
        Request::Load(AwaitStore::Pin { alias: self.alias })
    }
}

impl Cmd for Add {
    open spec fn model(&self) -> CommandModel {
        CommandModel::Add(self.alias@, self.path@)
    }

    fn execute(self) -> (request: Request) {
        Request::Resolve(self.path, AwaitPath::Add { alias: self.alias })
    }
}

impl Cmd for Delete {
    open spec fn model(&self) -> CommandModel {
        CommandModel::Delete(self.alias@)
    }

    fn execute(self) -> (request: Request) {
        Request::Confirm(None, AwaitConfirm::Delete { alias: self.alias })
    }
}

/// The topic that `word` names, if it names one.
pub fn topic_of(word: &str) -> (topic: Option<Topic>)
    ensures
        topic == topic_named(word@),
{
    if same_text(word, "add") {
        Some(Topic::Add)
    } else if same_text(word, "delete") {
        Some(Topic::Delete)
    } else if same_text(word, "list") {
        Some(Topic::List)
    } else if same_text(word, "update") {
        Some(Topic::Update)
    } else if same_text(word, "pin") {
        Some(Topic::Pin)
    } else if same_text(word, "help") {
        Some(Topic::Help)
    } else {
        None
    }
}

impl Cmd for Help {
    open spec fn model(&self) -> CommandModel {
        CommandModel::Help(
            match self.cmd {
                Some(word) => Some(word@),
                None => None,
            },
        )
    }

    fn execute(self) -> (request: Request) {
        let help = match self.cmd {
            Some(word) => match topic_of(word.as_str()) {
                Some(topic) => topic.details(),
                None => {
                    let mut text = String::from_str("Unknown command: ");
                    text.append(word.as_str());
                    text
                },
            },
            None => {
                let mut heading: Vec<String> = Vec::new();
                heading.push(String::from_str("Command"));
                heading.push(String::from_str("Description"));
                heading.push(String::from_str("Usage"));
                assert(heading.deep_view() =~= seq!["Command"@, "Description"@, "Usage"@]);
                let mut rows: Vec<Vec<String>> = Vec::new();
                rows.push(heading);
                rows.push(Topic::Pin.row());
                rows.push(Topic::Add.row());
                rows.push(Topic::Delete.row());
                rows.push(Topic::Help.row());
                rows.push(Topic::List.row());
                rows.push(Topic::Update.row());
                assert(rows.deep_view() =~= summary());
                render_table(&rows)
            },
        };
        exit_with(help, 2)
    }
}

impl Cmd for List {
    open spec fn model(&self) -> CommandModel {
        CommandModel::List
    }

    fn execute(self) -> (request: Request) {
        Request::Load(AwaitStore::List)
    }
}

impl Cmd for Update {
    open spec fn model(&self) -> CommandModel {
        CommandModel::Update(self.alias@)
    }

    fn execute(self) -> (request: Request) {
        Request::Load(AwaitStore::Update { alias: self.alias })
    }
}

impl Cmd for ParseErr {
    open spec fn model(&self) -> CommandModel {
        CommandModel::ParseErr(self.msg@)
    }

    fn execute(self) -> (request: Request) {
        exit_with(self.msg, 1)
    }
}

impl Cmd for Command {
    open spec fn model(&self) -> CommandModel {
        match self {
            Command::Pin(cmd) => cmd.model(),
            Command::Add(cmd) => cmd.model(),
            Command::Delete(cmd) => cmd.model(),
            Command::Help(cmd) => cmd.model(),
            Command::List(cmd) => cmd.model(),
            Command::Update(cmd) => cmd.model(),
            Command::ParseErr(cmd) => cmd.model(),
        }
    }

    fn execute(self) -> (request: Request) {
        match self {
            Command::Pin(cmd) => cmd.execute(),
            Command::Add(cmd) => cmd.execute(),
            Command::Delete(cmd) => cmd.execute(),
            Command::Help(cmd) => cmd.execute(),
            Command::List(cmd) => cmd.execute(),
            Command::Update(cmd) => cmd.execute(),
            Command::ParseErr(cmd) => cmd.execute(),
        }
    }
}

/// The error for a command line that lacks `missing`, where `cmd` is how the
/// command is called.
pub fn err_parse_msg(missing: &str, cmd: &str) -> (err: Box<ParseErr>)
    ensures
        err.msg@ == missing_text(missing@, cmd@),
{
    let mut msg = String::from_str("Error: missing ");
    msg.append(missing);
    msg.append(" from command. Please use \"");
    msg.append(cmd);
    msg.append("\".");
    Box::new(ParseErr { msg })
}

fn missing_alias(cmd: &str) -> (command: Command)
    ensures
        command.model() == CommandModel::ParseErr(missing_text("alias"@, cmd@)),
{
    let err = err_parse_msg("alias", cmd);
    Command::ParseErr(ParseErr { msg: err.msg.clone() })
}

/// Reads the command from the arguments of the program, the program's own
/// name first.
pub fn parse_args(args: &Vec<String>) -> (command: Command)
    ensures
        command.model() == parsed(args.deep_view()),
{
    let empty = String::new();
    let word: &String = if args.len() > 1 {
        &args[1]
    } else {
        &empty
    };
    let flag = word.as_str();
    if same_text(flag, "--add") || same_text(flag, "-a") {
        if args.len() > 3 {
            Command::Add(Add { alias: args[2].clone(), path: args[3].clone() })
        } else {
            missing_alias("pin --add [alias] [path]")
        }
    } else if same_text(flag, "--delete") || same_text(flag, "-d") {
        if args.len() > 2 {
            Command::Delete(Delete { alias: args[2].clone() })
        } else {
            missing_alias("pin --delete [alias]")
        }
    } else if same_text(flag, "--help") || same_text(flag, "-h") {
        if args.len() > 2 {
            Command::Help(Help { cmd: Some(args[2].clone()) })
        } else {
            Command::Help(Help { cmd: None })
        }
    } else if same_text(flag, "--list") || same_text(flag, "-l") {
        Command::List(List {  })
    } else if same_text(flag, "--update") || same_text(flag, "-u") {
        if args.len() > 2 {
            Command::Update(Update { alias: args[2].clone() })
        } else {
            missing_alias("pin --update [alias]")
        }
    } else if flag.unicode_len() > 0 && flag.get_char(0) == '-' {
        let mut msg = String::from_str("No function named ");
        msg.append(flag);
        msg.append(", type --help to list all commands.");
        Command::ParseErr(ParseErr { msg })
    } else {
        Command::Pin(Pin { alias: word.clone() })
    }
}

} // verus!
