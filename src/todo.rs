use vstd::prelude::*;
use vstd::string::StringExecFns;

verus! {

/// The modal screen that decides which keys are live and what is drawn.
#[derive(Clone, Copy, Debug, PartialEq, Eq, Structural)]
pub enum CurrentScreen {
    Main,
    Add,
    Edit,
    Exit,
}

/// The row text of a task.
pub open spec fn label_of(done: bool, description: Seq<char>) -> Seq<char> {
    (if done {
        seq![' ', '\u{2713}', ' ']
    } else {
        seq![' ', '\u{2610}', ' ']
    }) + description
}

/// One entry of the list.
#[derive(Clone, Debug)]
pub struct TodoItem {
    pub done: bool,
    pub description: String,
}

impl View for TodoItem {
    /// The `done` flag and the description's characters.
    type V = (bool, Seq<char>);

    open spec fn view(&self) -> (bool, Seq<char>) {
        (self.done, self.description@)
    }
}

impl TodoItem {
    pub fn new(done: bool, description: String) -> (r: TodoItem)
        ensures
            r@ == (done, description@),
    {
        TodoItem { done, description }
    }

    /// What the list shows for this entry: a tick or a blank box, then its description.
    pub fn label(&self) -> (r: String)
        ensures
            r@ == label_of(self.done, self.description@),
    {
        let head = if self.done {
            String::from_str(" \u{2713} ")
        } else {
            String::from_str(" \u{2610} ")
        };
        proof {
            reveal_strlit(" \u{2713} ");
            reveal_strlit(" \u{2610} ");
        }
        head.concat(self.description.as_str())
    }

    /// A copy of this item with the same flag and text.
    pub fn duplicate(&self) -> (r: TodoItem)
        ensures
            r@ == self@,
    {
        TodoItem { done: self.done, description: self.description.clone() }
    }
}

} // verus!
