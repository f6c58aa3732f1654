use crate::input::{key_edit, TextInput};
use crate::key::{KeyCode, KeyEvent, KeyEventKind};
use crate::todo::{CurrentScreen, TodoItem};
use vstd::prelude::*;

verus! {

/// The whole application state as mathematical values.
pub struct AppView {
    pub screen: CurrentScreen,
    /// Each task as its `done` flag and its description.
    pub items: Seq<(bool, Seq<char>)>,
    pub selected: Option<usize>,
    /// Text and cursor of the input buffer.
    pub text: Seq<char>,
    pub cursor: nat,
    /// The saved copy of the task under edit.
    pub editing: Option<(bool, Seq<char>)>,
    pub edit_index: usize,
}

impl AppView {
    /// The selection names an item of the list: none on an empty list.
    pub open spec fn wf(self) -> bool {
        self.selected matches Some(i) ==> i < self.items.len()
    }

    /// The same state with an empty input buffer.
    pub open spec fn cleared(self) -> AppView {
        AppView { text: Seq::empty(), cursor: 0, ..self }
    }
}

/// The selection after moving down: the first item when none is selected,
/// never past the last item, and none on an empty list.
pub open spec fn select_down(sel: Option<usize>, len: nat) -> Option<usize> {
    if len == 0 {
        None
    } else {
        let want: int = match sel {
            None => 0,
            Some(i) => if i == usize::MAX { i as int } else { i + 1 },
        };
        Some(if want < len { want as usize } else { (len - 1) as usize })
    }
}

/// The selection after moving up: the last item when none is selected,
/// never before the first item, and none on an empty list.
pub open spec fn select_up(sel: Option<usize>, len: nat) -> Option<usize> {
    if len == 0 {
        None
    } else {
        let want: int = match sel {
            None => usize::MAX as int,
            Some(i) => if i == 0 { 0 } else { i - 1 },
        };
        Some(if want < len { want as usize } else { (len - 1) as usize })
    }
}

/// The state that one key event leads to: only presses act.
pub open spec fn next(v: AppView, key: KeyEvent) -> AppView {
    if key.kind != KeyEventKind::Press {
        v
    } else {
        match v.screen {
            CurrentScreen::Main => match key.code {
                KeyCode::Char('a') => AppView { screen: CurrentScreen::Add, ..v.cleared() },
                KeyCode::Char('q') => AppView { screen: CurrentScreen::Exit, ..v },
                KeyCode::Enter => match v.selected {
                    Some(i) if i < v.items.len() => AppView {
                        screen: CurrentScreen::Edit,
                        text: v.items[i as int].1,
                        cursor: v.items[i as int].1.len(),
                        editing: Some(v.items[i as int]),
                        edit_index: i,
                        ..v
                    },
                    _ => v,
                },
                KeyCode::Char(' ') => match v.selected {
                    Some(i) if i < v.items.len() => AppView {
                        items: v.items.update(i as int, (!v.items[i as int].0, v.items[i as int].1)),
                        ..v
                    },
                    _ => v,
                },
                KeyCode::Up => AppView { selected: select_up(v.selected, v.items.len()), ..v },
                KeyCode::Down => AppView { selected: select_down(v.selected, v.items.len()), ..v },
                _ => v,
            },
            CurrentScreen::Add => match key.code {
                KeyCode::Esc => AppView { screen: CurrentScreen::Main, ..v.cleared() },
                KeyCode::Enter => AppView {
                    screen: CurrentScreen::Main,
                    items: v.items.push((false, v.text)),
                    ..v.cleared()
                },
                _ => AppView { text: key_edit(v.text, v.cursor, key.code, key.modifiers).0,
                    cursor: key_edit(v.text, v.cursor, key.code, key.modifiers).1, ..v },
            },
            CurrentScreen::Edit => match key.code {
                KeyCode::Esc => AppView { screen: CurrentScreen::Main, editing: None, ..v.cleared() },
                KeyCode::Enter => AppView {
                    screen: CurrentScreen::Main,
                    editing: None,
                    items: match (v.selected, v.editing) {
                        (Some(i), Some(e)) if i < v.items.len() => v.items.update(i as int, (e.0, v.text)),
                        _ => v.items,
                    },
                    ..v.cleared()
                },
                _ => AppView { text: key_edit(v.text, v.cursor, key.code, key.modifiers).0,
                    cursor: key_edit(v.text, v.cursor, key.code, key.modifiers).1, ..v },
            },
            CurrentScreen::Exit => v,
        }
    }
}

/// The application: current screen, task list, selection and input buffer.
pub struct AppState {
    pub current_screen: CurrentScreen,
    pub input: TextInput,
    pub currently_editing: Option<TodoItem>,
    pub edit_index: usize,
    /// The highlighted row of the list, if any.
    pub selected: Option<usize>,
    pub items: Vec<TodoItem>,
}

impl View for AppState {
    type V = AppView;

    open spec fn view(&self) -> AppView {
        AppView {
            screen: self.current_screen,
            items: self.items@.map_values(|t: TodoItem| t@),
            selected: self.selected,
            text: self.input.text(),
            cursor: self.input.cursor_pos(),
            editing: match self.currently_editing {
                Some(t) => Some(t@),
                None => None,
            },
            edit_index: self.edit_index,
        }
    }
}

impl AppState {
    /// A valid selection, and an input cursor within its text.
    pub open spec fn wf(&self) -> bool {
        self@.wf() && self.input.wf()
    }

    /// The start state: the main screen, an empty list, nothing selected.
    pub fn new() -> (r: AppState)
        ensures
            r.wf(),
            r@.screen == CurrentScreen::Main,
            r@.items == Seq::<(bool, Seq<char>)>::empty(),
            r@.selected is None,
            r@.text == Seq::<char>::empty(),
            r@.cursor == 0,
            r@.editing is None,
            r@.edit_index == 0,
    {
        let r = AppState {
            input: TextInput::empty(),
            current_screen: CurrentScreen::Main,
            currently_editing: None,
            edit_index: 0,
            selected: None,
            items: Vec::new(),
        };
        assert(r@.items =~= Seq::<(bool, Seq<char>)>::empty());
        r
    }

    /// Appends a task at the end of the list.
    pub fn add_item(&mut self, todo_item: TodoItem)
        ensures
            final(self)@ == (AppView { items: old(self)@.items.push(todo_item@), ..old(self)@ }),
    {
        self.items.push(todo_item);
        assert(self@.items =~= old(self)@.items.push(todo_item@));
    }

    /// Removes the task at `index`. The selection is left as it is: keeping
    /// it on the list is up to the caller.
    pub fn remove_at(&mut self, index: usize)
        requires
            index < old(self).items.len(),
        ensures
            final(self)@ == (AppView { items: old(self)@.items.remove(index as int), ..old(self)@ }),
    {
        self.items.remove(index);
        assert(self@.items =~= old(self)@.items.remove(index as int));
    }

    /// Puts `todo_item` in place of the task at `index`.
    pub fn replace(&mut self, todo_item: TodoItem, index: usize)
        requires
            index < old(self).items.len(),
        ensures
            final(self)@ == (AppView {
                items: old(self)@.items.update(index as int, todo_item@),
                ..old(self)@
            }),
    {
        self.items.remove(index);
        self.items.insert(index, todo_item);
        assert(self@.items =~= old(self)@.items.update(index as int, todo_item@));
    }

    /// Moves the selection one row down, clamped to the list.
    pub fn select_next(&mut self)
        ensures
            final(self)@ == (AppView {
                selected: select_down(old(self)@.selected, old(self)@.items.len()),
                ..old(self)@
            }),
    {
        let len = self.items.len();
        if len == 0 {
            self.selected = None;
        } else {
            let want = match self.selected {
                None => 0,
                Some(i) => i.saturating_add(1),
            };
            self.selected = Some(if want < len { want } else { len - 1 });
        }
    }

    /// Moves the selection one row up, clamped to the list.
    pub fn select_previous(&mut self)
        ensures
            final(self)@ == (AppView {
                selected: select_up(old(self)@.selected, old(self)@.items.len()),
                ..old(self)@
            }),
    {
        let len = self.items.len();
        if len == 0 {
            self.selected = None;
        } else {
            let want = match self.selected {
                None => usize::MAX,
                Some(i) => i.saturating_sub(1),
            };
            self.selected = Some(if want < len { want } else { len - 1 });
        }
    }

    /// Acts on one key press according to the current screen. Key releases and
    /// repeats change nothing.
    pub fn handle_key(&mut self, key: KeyEvent)
        requires
            old(self).wf(),
        ensures
            final(self).wf(),
            final(self)@ == next(old(self)@, key),
    {
        if !key.is_press() {
            return;
        }
        match self.current_screen {
            CurrentScreen::Main => self.handle_main(key),
            CurrentScreen::Add => match key.code {
                KeyCode::Esc => {
                    self.input.reset();
                    self.current_screen = CurrentScreen::Main;
                },
                KeyCode::Enter => {
                    let description = self.input.value_and_reset();
                    self.add_item(TodoItem::new(false, description));
                    self.current_screen = CurrentScreen::Main;
                },
                _ => self.input.handle_key(key.code, key.modifiers),
            },
            CurrentScreen::Edit => match key.code {
                KeyCode::Esc => {
                    self.input.reset();
                    self.currently_editing = None;
                    self.current_screen = CurrentScreen::Main;
                },
                KeyCode::Enter => {
                    let saved_done = match &self.currently_editing {
                        Some(e) => Some(e.done),
                        None => None,
                    };
                    let description = self.input.value_and_reset();
                    match (self.selected, saved_done) {
                        (Some(i), Some(done)) => {
                            if i < self.items.len() {
                                self.replace(TodoItem::new(done, description), i);
                            }
                        },
                        _ => {},
                    }
                    self.currently_editing = None;
                    self.current_screen = CurrentScreen::Main;
                },
                _ => self.input.handle_key(key.code, key.modifiers),
            },
            CurrentScreen::Exit => {},
        }
    }

    fn handle_main(&mut self, key: KeyEvent)
        requires
            old(self).wf(),
            old(self).current_screen == CurrentScreen::Main,
            key.kind == KeyEventKind::Press,
        ensures
            final(self)@ == next(old(self)@, key),
    {
        match key.code {
            KeyCode::Char('a') => {
                self.input.reset();
                self.current_screen = CurrentScreen::Add;
            },
            KeyCode::Char('q') => {
                self.current_screen = CurrentScreen::Exit;
            },
            KeyCode::Enter => {
                if let Some(i) = self.selected {
                    if i < self.items.len() {
                        let saved = self.items[i].duplicate();
                        self.input = TextInput::new(saved.description.clone());
                        self.currently_editing = Some(saved);
                        self.edit_index = i;
                        self.current_screen = CurrentScreen::Edit;
                    }
                }
            },
            KeyCode::Char(' ') => {
                if let Some(i) = self.selected {
                    if i < self.items.len() {
                        let flipped = TodoItem::new(!self.items[i].done, self.items[i].description.clone());
                        self.replace(flipped, i);
                    }
                }
            },
            KeyCode::Up => self.select_previous(),
            KeyCode::Down => self.select_next(),
            _ => {},
        }
    }
}

} // verus!
