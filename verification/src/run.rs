//! How a command runs: what it asks of the outside, and how it goes on with
//! each answer.
//!
//! A command never touches a file or a terminal. It hands back a `Request`;
//! whoever drives it does what the request names and gives the answer to the
//! state that the request carries, until the request is `Exit`. The store is
//! asked for when the command first needs it: a deletion that the user
//! declines, or an addition whose path cannot be resolved, never reads it.

use vstd::prelude::*;
use vstd::string::StringExecFns;
use crate::entries::{knows, lookup, lookup_is_mapping, put, without, Entries};
use crate::selector::Field;
use crate::store::{listing, Store};
use crate::table::{printable_rows, table_text};

verus! {

/// How a command ends, as mathematics.
pub struct OutcomeModel {
    /// The entries to save, if the store is to be saved.
    pub store: Option<Entries>,
    /// The text for the standard output.
    pub message: Seq<char>,
    /// The exit status.
    pub code: i32,
}

/// What waits for the store, as mathematics.
pub enum AwaitStoreModel {
    Pin { alias: Seq<char> },
    Add { alias: Seq<char>, path: Seq<char> },
    Delete { alias: Seq<char> },
    List,
    Update { alias: Seq<char> },
}

/// What waits for a path, as mathematics.
pub enum AwaitPathModel {
    Add { alias: Seq<char> },
    Update { alias: Seq<char>, store: Entries },
}

/// What waits for a yes or no, as mathematics.
pub enum AwaitConfirmModel {
    Add { store: Entries },
    Delete { alias: Seq<char> },
}

/// What waits for an edited field, as mathematics.
pub struct AwaitEditModel {
    pub alias: Seq<char>,
    pub path: Seq<char>,
    pub store: Entries,
}

/// The answer of the field-edit dialog, as mathematics.
pub enum EditedModel {
    Unavailable,
    Canceled,
    Committed(Field, Seq<char>),
}

/// A request, as mathematics.
pub enum RequestModel {
    Load(AwaitStoreModel),
    Resolve(Seq<char>, AwaitPathModel),
    Confirm(Option<Seq<char>>, AwaitConfirmModel),
    Edit(AwaitEditModel),
    Exit(OutcomeModel),
}

/// The end without saving: `message` and `code`.
pub open spec fn leave(message: Seq<char>, code: i32) -> RequestModel {
    RequestModel::Exit(OutcomeModel { store: None, message, code })
}

/// The good end: `store` is saved, nothing is said, the status is 0.
pub open spec fn commit(store: Entries) -> RequestModel {
    RequestModel::Exit(OutcomeModel { store: Some(store), message: Seq::empty(), code: 0 })
}

/// The end when no terminal can be had.
pub open spec fn no_terminal() -> RequestModel {
    leave("Error: unable to access /dev/tty"@, 1)
}

/// The warning shown before an alias is given another path.
pub open spec fn overwrite_notice(old_path: Seq<char>) -> Seq<char> {
    "This action will overwrite existing alias to "@ + old_path + ".\n"@
}

impl AwaitStoreModel {
    /// How the command goes on once the store is read.
    ///
    /// Going to an alias gives its path with status 3. An addition is saved
    /// at once where the alias is new; where it is not, the user is asked
    /// first, and what waits holds the store with the new path in it. A
    /// deletion is saved whether or not the alias was there. An update opens
    /// the dialog on the entry.
    pub open spec fn loaded(self, store: Entries) -> RequestModel {
        match self {
            AwaitStoreModel::Pin { alias } => match lookup(store, alias) {
                Some(path) => leave(path, 3),
                None => leave("Error: Alias not found in store. Type \"pin --help\" for help"@, 1),
            },
            AwaitStoreModel::Add { alias, path } => match lookup(store, alias) {
                None => commit(put(store, alias, path)),
                Some(old_path) => RequestModel::Confirm(
                    Some(overwrite_notice(old_path)),
                    AwaitConfirmModel::Add { store: put(store, alias, path) },
                ),
            },
            AwaitStoreModel::Delete { alias } => RequestModel::Exit(
                if knows(store, alias) {
                    OutcomeModel {
                        store: Some(without(store, alias)),
                        message: Seq::empty(),
                        code: 0,
                    }
                } else {
                    OutcomeModel {
                        store: Some(store),
                        message: "Error: Alias not found in store"@,
                        code: 1,
                    }
                },
            ),
            AwaitStoreModel::List => leave(table_text(printable_rows(listing(store))), 2),
            AwaitStoreModel::Update { alias } => match lookup(store, alias) {
                Some(path) => RequestModel::Edit(AwaitEditModel { alias, path, store }),
                None => leave(
                    "Error: alias not in store. You can't update an alias that doesn't exist."@,
                    1,
                ),
            },
        }
    }
}

impl AwaitPathModel {
    /// How the command goes on once the path is resolved, or is not. An
    /// addition now needs the store; an update has it and is saved.
    pub open spec fn resolved(self, found: Result<Seq<char>, Seq<char>>) -> RequestModel {
        match found {
            Err(message) => leave(message, 1),
            Ok(path) => match self {
                AwaitPathModel::Add { alias } => RequestModel::Load(
                    AwaitStoreModel::Add { alias, path },
                ),
                AwaitPathModel::Update { alias, store } => commit(put(store, alias, path)),
            },
        }
    }
}

impl AwaitConfirmModel {
    /// How the command goes on once the user has answered; `None` where no
    /// terminal could be had to ask on.
    pub open spec fn confirmed(self, answer: Option<bool>) -> RequestModel {
        match answer {
            None => no_terminal(),
            Some(false) => leave(Seq::empty(), 0),
            Some(true) => match self {
                AwaitConfirmModel::Add { store } => commit(store),
                AwaitConfirmModel::Delete { alias } => RequestModel::Load(
                    AwaitStoreModel::Delete { alias },
                ),
            },
        }
    }
}

impl AwaitEditModel {
    /// How the command goes on once the dialog is over. A new alias takes
    /// the place of the old one and keeps its path; a new path is resolved
    /// before it is stored.
    pub open spec fn edited(self, answer: EditedModel) -> RequestModel {
        match answer {
            EditedModel::Unavailable => no_terminal(),
            EditedModel::Canceled => leave("Canceled"@, 2),
            EditedModel::Committed(Field::Alias, text) => commit(
                put(without(self.store, self.alias), text, self.path),
            ),
            EditedModel::Committed(Field::Path, text) => RequestModel::Resolve(
                text,
                AwaitPathModel::Update { alias: self.alias, store: self.store },
            ),
        }
    }
}

/// Whether a request ends the command without saving.
pub open spec fn leaves_store_alone(request: RequestModel) -> bool {
    request matches RequestModel::Exit(outcome) && outcome.store is None
}

/// A command that is given up saves nothing: not when the user declines, not
/// when the dialog is canceled, not when there is no terminal to ask on, and
/// not when a path cannot be resolved.
pub proof fn giving_up_saves_nothing(
    path: AwaitPathModel,
    confirm: AwaitConfirmModel,
    edit: AwaitEditModel,
    message: Seq<char>,
)
    ensures
        leaves_store_alone(path.resolved(Err(message))),
        leaves_store_alone(confirm.confirmed(Some(false))),
        leaves_store_alone(confirm.confirmed(None)),
        leaves_store_alone(edit.edited(EditedModel::Canceled)),
        leaves_store_alone(edit.edited(EditedModel::Unavailable)),
{
}

/// How a command ends.
pub struct Outcome {
    /// The store to save, if it is to be saved.
    pub store: Option<Store>,
    /// The text for the standard output.
    pub message: String,
    /// The exit status.
    pub code: i32,
}

/// A command that waits for the store to be read.
pub enum AwaitStore {
    Pin { alias: String },
    Add { alias: String, path: String },
    Delete { alias: String },
    List,
    Update { alias: String },
}

/// A command that waits for a path to be resolved.
pub enum AwaitPath {
    Add { alias: String },
    Update { alias: String, store: Store },
}

/// A command that waits for the user's yes or no.
pub enum AwaitConfirm {
    Add { store: Store },
    Delete { alias: String },
}

/// A command that waits for the field-edit dialog on its entry.
pub struct AwaitEdit {
    pub alias: String,
    pub path: String,
    pub store: Store,
}

/// The answer of the field-edit dialog.
pub enum Edited {
    /// No terminal could be had.
    Unavailable,
    /// The user gave up.
    Canceled,
    /// The user accepted this text for this field.
    Committed(Field, String),
}

/// What a command asks of whoever drives it.
pub enum Request {
    /// Read the store from its file, then call `loaded`.
    Load(AwaitStore),
    /// Resolve this path, then call `resolved` with the path found or with
    /// the reason why none was.
    Resolve(String, AwaitPath),
    /// Show the notice, if there is one, and ask for confirmation; then call
    /// `confirmed`.
    Confirm(Option<String>, AwaitConfirm),
    /// Run the field-edit dialog on the entry; then call `edited`.
    Edit(AwaitEdit),
    /// Save the store if there is one, print the message, leave with the
    /// status.
    Exit(Outcome),
}

impl View for Outcome {
    type V = OutcomeModel;

    open spec fn view(&self) -> OutcomeModel {
        OutcomeModel {
            store: match self.store {
                Some(store) => Some(store.entries()),
                None => None,
            },
            message: self.message@,
            code: self.code,
        }
    }
}

impl View for AwaitStore {
    type V = AwaitStoreModel;

    open spec fn view(&self) -> AwaitStoreModel {
        match self {
            AwaitStore::Pin { alias } => AwaitStoreModel::Pin { alias: alias@ },
            AwaitStore::Add { alias, path } => AwaitStoreModel::Add { alias: alias@, path: path@ },
            AwaitStore::Delete { alias } => AwaitStoreModel::Delete { alias: alias@ },
            AwaitStore::List => AwaitStoreModel::List,
            AwaitStore::Update { alias } => AwaitStoreModel::Update { alias: alias@ },
        }
    }
}

impl View for AwaitPath {
    type V = AwaitPathModel;

    open spec fn view(&self) -> AwaitPathModel {
        match self {
            AwaitPath::Add { alias } => AwaitPathModel::Add { alias: alias@ },
            AwaitPath::Update { alias, store } => AwaitPathModel::Update {
                alias: alias@,
                store: store.entries(),
            },
        }
    }
}

impl View for AwaitConfirm {
    type V = AwaitConfirmModel;

    open spec fn view(&self) -> AwaitConfirmModel {
        match self {
            AwaitConfirm::Add { store } => AwaitConfirmModel::Add { store: store.entries() },
            AwaitConfirm::Delete { alias } => AwaitConfirmModel::Delete { alias: alias@ },
        }
    }
}

impl View for AwaitEdit {
    type V = AwaitEditModel;

    open spec fn view(&self) -> AwaitEditModel {
        AwaitEditModel { alias: self.alias@, path: self.path@, store: self.store.entries() }
    }
}

impl View for Edited {
    type V = EditedModel;

    open spec fn view(&self) -> EditedModel {
        match self {
            Edited::Unavailable => EditedModel::Unavailable,
            Edited::Canceled => EditedModel::Canceled,
            Edited::Committed(field, text) => EditedModel::Committed(*field, text@),
        }
    }
}

impl View for Request {
    type V = RequestModel;

    open spec fn view(&self) -> RequestModel {
        match self {
            Request::Load(next) => RequestModel::Load(next@),
            Request::Resolve(path, next) => RequestModel::Resolve(path@, next@),
            Request::Confirm(notice, next) => RequestModel::Confirm(
                match notice {
                    Some(notice) => Some(notice@),
                    None => None,
                },
                next@,
            ),
            Request::Edit(next) => RequestModel::Edit(next@),
            Request::Exit(outcome) => RequestModel::Exit(outcome@),
        }
    }
}

/// The view of a resolved path, or of the reason why there is none.
pub open spec fn found_view(found: Result<String, String>) -> Result<Seq<char>, Seq<char>> {
    match found {
        Ok(path) => Ok(path@),
        Err(message) => Err(message@),
    }
}

/// The end without saving.
pub fn exit_with(message: String, code: i32) -> (request: Request)
    ensures
        request@ == leave(message@, code),
{
    Request::Exit(Outcome { store: None, message, code })
}

/// The good end: `store` is to be saved.
pub fn exit_saving(store: Store) -> (request: Request)
    ensures
        request@ == commit(store.entries()),
{
    Request::Exit(Outcome { store: Some(store), message: String::new(), code: 0 })
}

impl AwaitStore {
    /// Goes on with the store that was read.
    pub fn loaded(self, store: Store) -> (request: Request)
        ensures
            request@ == self@.loaded(store.entries()),
    {
        let mut store = store;
        match self {
            AwaitStore::Pin { alias } => {
                proof {
                    lookup_is_mapping(store.entries(), alias@);
                }
                match store.get(&alias) {
                    Some(path) => exit_with(path, 3),
                    None => exit_with(
                        String::from_str(
                            "Error: Alias not found in store. Type \"pin --help\" for help",
                        ),
                        1,
                    ),
                }
            },
            AwaitStore::Add { alias, path } => {
                proof {
                    lookup_is_mapping(store.entries(), alias@);
                }
                match store.add(alias, path) {
                    Ok(()) => exit_saving(store),
                    Err(old_path) => {
                        let mut notice = String::from_str(
                            "This action will overwrite existing alias to ",
                        );
                        notice.append(old_path.as_str());
                        notice.append(".\n");
                        Request::Confirm(Some(notice), AwaitConfirm::Add { store })
                    },
                }
            },
            AwaitStore::Delete { alias } => {
                proof {
                    lookup_is_mapping(store.entries(), alias@);
                }
                match store.delete(alias) {
                    Ok(()) => exit_saving(store),
                    Err(()) => Request::Exit(
                        Outcome {
                            store: Some(store),
                            message: String::from_str("Error: Alias not found in store"),
                            code: 1,
                        },
                    ),
                }
            },
            AwaitStore::List => exit_with(store.list_all(), 2),
            AwaitStore::Update { alias } => {
                proof {
                    lookup_is_mapping(store.entries(), alias@);
                }
                match store.get(&alias) {
                    Some(path) => Request::Edit(AwaitEdit { alias, path, store }),
                    None => exit_with(
                        String::from_str(
                            "Error: alias not in store. You can't update an alias that doesn't exist.",
                        ),
                        1,
                    ),
                }
            },
        }
    }
}

impl AwaitPath {
    /// Goes on with the resolved path, or with the reason why there is none.
    pub fn resolved(self, found: Result<String, String>) -> (request: Request)
        ensures
            request@ == self@.resolved(found_view(found)),
    {
        match found {
            Err(message) => exit_with(message, 1),
            Ok(path) => match self {
                AwaitPath::Add { alias } => Request::Load(AwaitStore::Add { alias, path }),
                AwaitPath::Update { alias, store } => {
                    let mut store = store;
                    let _ = store.add(alias, path);
                    exit_saving(store)
                },
            },
        }
    }
}

impl AwaitConfirm {
    /// Goes on with the user's answer; `None` where no terminal could be
    /// had to ask on.
    pub fn confirmed(self, answer: Option<bool>) -> (request: Request)
        ensures
            request@ == self@.confirmed(answer),
    {
        match answer {
            None => exit_with(String::from_str("Error: unable to access /dev/tty"), 1),
            Some(false) => exit_with(String::new(), 0),
            Some(true) => match self {
                AwaitConfirm::Add { store } => exit_saving(store),
                AwaitConfirm::Delete { alias } => Request::Load(AwaitStore::Delete { alias }),
            },
        }
    }
}

impl AwaitEdit {
    /// Goes on with what the dialog gave.
    pub fn edited(self, answer: Edited) -> (request: Request)
        ensures
            request@ == self@.edited(answer@),
    {
        let AwaitEdit { alias, path, store } = self;
        match answer {
            Edited::Unavailable => exit_with(
                String::from_str("Error: unable to access /dev/tty"),
                1,
            ),
            Edited::Canceled => exit_with(String::from_str("Canceled"), 2),
            Edited::Committed(Field::Alias, text) => {
                let mut store = store;
                let _ = store.delete(alias);
                let _ = store.add(text, path);
                exit_saving(store)
            },
            Edited::Committed(Field::Path, text) => Request::Resolve(
                text,
                AwaitPath::Update { alias, store },
            ),
        }
    }
}

} // verus!
