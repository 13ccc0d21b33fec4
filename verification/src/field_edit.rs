//! The dialog that edits one field of an entry: first the selector picks the
//! field, then the editor changes its text.

use vstd::prelude::*;
use vstd::string::StringExecFns;
use crate::editor::{status_after, EditStatus, Editor, Line};
use crate::key::Key;
use crate::selector::{choice, draw_selector, select, selector_line, Choice, Field};
use crate::text::{chars_of, decimal, decimal_string, string_of};
use crate::tty::Tty;

verus! {

/// Where the dialog stands, as mathematics.
pub enum StageModel {
    /// The selector is open with this field highlighted.
    Selecting(Field),
    /// The editor is open on this field.
    Editing(Field, Line),
}

/// The dialog's state, as mathematics.
pub struct FieldEditModel {
    pub alias: Seq<char>,
    pub path: Seq<char>,
    pub stage: StageModel,
}

/// What one step of the dialog led to, as mathematics.
pub enum ProgressModel {
    /// The dialog goes on from this state.
    Pending(FieldEditModel),
    /// The user gave up; nothing is to change.
    Canceled,
    /// The user accepted this text for this field.
    Committed(Field, Seq<char>),
}

/// The editor's line for `field`: the cleared line, the field's name and the
/// text, then the cursor set to its column, counted from 1.
pub open spec fn editor_line(field: Field, line: Line) -> Seq<char> {
    "\r\x1B[2K"@ + field.spec_label() + ": "@ + line.text + "\r\x1B["@ + decimal(
        field.spec_label().len() + 3 + line.cursor,
    ) + "G"@
}

impl FieldEditModel {
    /// The dialog as it opens on an entry: the selector, the alias highlighted.
    pub open spec fn opening(alias: Seq<char>, path: Seq<char>) -> FieldEditModel {
        FieldEditModel { alias, path, stage: StageModel::Selecting(Field::Alias) }
    }

    /// The entry's text for `field`.
    pub open spec fn value(self, field: Field) -> Seq<char> {
        match field {
            Field::Alias => self.alias,
            Field::Path => self.path,
        }
    }

    /// The same entry at another stage.
    pub open spec fn at(self, stage: StageModel) -> FieldEditModel {
        FieldEditModel { alias: self.alias, path: self.path, stage }
    }

    /// What is on the screen at this state.
    pub open spec fn frame(self) -> Seq<char> {
        match self.stage {
            StageModel::Selecting(field) => selector_line(field),
            StageModel::Editing(field, line) => editor_line(field, line),
        }
    }

    /// One step: where `key` leads, and what is drawn on the way. `None` is
    /// the moment before any key, when the first frame is drawn.
    pub open spec fn advance(self, key: Option<Key>) -> (ProgressModel, Seq<char>) {
        match key {
            None => (ProgressModel::Pending(self), self.frame()),
            Some(key) => match self.stage {
                StageModel::Selecting(field) => match choice(field, key) {
                    Choice::Pending(moved) => {
                        let next = self.at(StageModel::Selecting(moved));
                        (ProgressModel::Pending(next), next.frame())
                    },
                    Choice::Chosen(chosen) => {
                        let next = self.at(
                            StageModel::Editing(chosen, Line::at_end(self.value(chosen))),
                        );
                        (ProgressModel::Pending(next), "\r\n"@ + next.frame())
                    },
                    Choice::Canceled => (ProgressModel::Canceled, Seq::empty()),
                },
                StageModel::Editing(field, line) => match status_after(key) {
                    EditStatus::Editing => {
                        let next = self.at(StageModel::Editing(field, line.press(key)));
                        (ProgressModel::Pending(next), next.frame())
                    },
                    EditStatus::Committed => (ProgressModel::Committed(field, line.text), "\r\n"@),
                    EditStatus::Canceled => (ProgressModel::Canceled, Seq::empty()),
                },
            },
        }
    }
}

/// Where the dialog stands.
pub enum Stage {
    Selecting(Field),
    Editing(Field, Editor),
}

/// The dialog on one entry.
pub struct FieldEdit {
    alias: String,
    path: String,
    stage: Stage,
}

/// What one step of the dialog led to.
pub enum Progress {
    /// The dialog goes on: draw what is queued, read a key, step again.
    Pending(FieldEdit),
    /// The user gave up; nothing is to change.
    Canceled,
    /// The user accepted this text for this field.
    Committed(Field, String),
}

impl View for Stage {
    type V = StageModel;

    open spec fn view(&self) -> StageModel {
        match self {
            Stage::Selecting(field) => StageModel::Selecting(*field),
            Stage::Editing(field, editor) => StageModel::Editing(*field, editor@),
        }
    }
}

impl View for FieldEdit {
    type V = FieldEditModel;

    closed spec fn view(&self) -> FieldEditModel {
        FieldEditModel { alias: self.alias@, path: self.path@, stage: self.stage@ }
    }
}

impl View for Progress {
    type V = ProgressModel;

    open spec fn view(&self) -> ProgressModel {
        match self {
            Progress::Pending(flow) => ProgressModel::Pending(flow@),
            Progress::Canceled => ProgressModel::Canceled,
            Progress::Committed(field, text) => ProgressModel::Committed(*field, text@),
        }
    }
}

/// Draws the editor's line for `field`.
pub fn draw_editor(field: Field, editor: &Editor) -> (line: String)
    ensures
        line@ == editor_line(field, editor@),
{
    let label = field.label();
    let column: u128 = label.unicode_len() as u128 + 3 + editor.cursor() as u128;
    let mut line = String::from_str("\r\x1B[2K");
    line.append(label);
    line.append(": ");
    line.append(string_of(editor.text()).as_str());
    line.append("\r\x1B[");
    line.append(decimal_string(column).as_str());
    line.append("G");
    line
}

impl FieldEdit {
    /// The dialog as it opens on the entry `alias`, `path`.
    pub fn new(alias: String, path: String) -> (flow: FieldEdit)
        ensures
            flow@ == FieldEditModel::opening(alias@, path@),
    {
        FieldEdit { alias, path, stage: Stage::Selecting(Field::Alias) }
    }

    /// One step of the dialog.
    ///
    /// Called with `None` it draws the first frame; called with the key that
    /// was read it moves on. What is to be drawn is queued on `tty`.
    pub fn advance(self, tty: &mut Tty, key: Option<Key>) -> (progress: Progress)
        ensures
            progress@ == self@.advance(key).0,
            final(tty)@ == old(tty)@ + self@.advance(key).1,
    {
        let FieldEdit { alias, path, stage } = self;
        match key {
            None => {
                match &stage {
                    Stage::Selecting(field) => tty.draw(draw_selector(*field).as_str()),
                    Stage::Editing(field, editor) => tty.draw(draw_editor(*field, editor).as_str()),
                }
                Progress::Pending(FieldEdit { alias, path, stage })
            },
            Some(key) => match stage {
                Stage::Selecting(field) => match select(field, key) {
                    Choice::Pending(moved) => {
                        tty.draw(draw_selector(moved).as_str());
                        Progress::Pending(FieldEdit { alias, path, stage: Stage::Selecting(moved) })
                    },
                    Choice::Chosen(chosen) => {
                        let editor = match chosen {
                            Field::Alias => Editor::new(chars_of(alias.as_str())),
                            Field::Path => Editor::new(chars_of(path.as_str())),
                        };
                        let mut frame = String::from_str("\r\n");
                        frame.append(draw_editor(chosen, &editor).as_str());
                        tty.draw(frame.as_str());
                        Progress::Pending(
                            FieldEdit { alias, path, stage: Stage::Editing(chosen, editor) },
                        )
                    },
                    Choice::Canceled => {
                        proof {
                            assert(old(tty)@ + Seq::<char>::empty() == old(tty)@);
                        }
                        Progress::Canceled
                    },
                },
                Stage::Editing(field, editor) => {
                    let mut editor = editor;
                    match editor.press(key) {
                        EditStatus::Editing => {
                            tty.draw(draw_editor(field, &editor).as_str());
                            Progress::Pending(
                                FieldEdit { alias, path, stage: Stage::Editing(field, editor) },
                            )
                        },
                        EditStatus::Committed => {
                            tty.draw("\r\n");
                            Progress::Committed(field, string_of(editor.text()))
                        },
                        EditStatus::Canceled => {
                            proof {
                                assert(old(tty)@ + Seq::<char>::empty() == old(tty)@);
                            }
                            Progress::Canceled
                        },
                    }
                },
            },
        }
    }
}

} // verus!
