use crate::key::{KeyCode, KeyEvent, KeyEventKind};
use crate::state::{next, select_down, select_up, AppView};
use crate::todo::CurrentScreen;
use vstd::prelude::*;

verus! {

/// A press of `code` without modifiers.
pub open spec fn pressed(code: KeyCode) -> KeyEvent {
    KeyEvent { code, modifiers: 0, kind: KeyEventKind::Press }
}

/// The state after each key of `keys`, in order.
pub open spec fn run(v: AppView, keys: Seq<KeyEvent>) -> AppView
    decreases keys.len(),
{
    if keys.len() == 0 {
        v
    } else {
        run(next(v, keys[0]), keys.drop_first())
    }
}

/// Keys that neither commit nor cancel: every key event but a press of Enter
/// or Esc.
pub open spec fn typing_keys(keys: Seq<KeyEvent>) -> bool {
    forall|k: int|
        0 <= k < keys.len() ==> (#[trigger] keys[k]).kind != KeyEventKind::Press || (
        keys[k].code != KeyCode::Enter && keys[k].code != KeyCode::Esc)
}

/// Presses of character keys without modifiers: the keys that type text.
pub open spec fn char_presses(keys: Seq<KeyEvent>) -> bool {
    forall|k: int|
        0 <= k < keys.len() ==> (#[trigger] keys[k]).code is Char && keys[k].modifiers == 0
            && keys[k].kind == KeyEventKind::Press
}

/// The characters that a sequence of character presses carries.
pub open spec fn chars_of(keys: Seq<KeyEvent>) -> Seq<char> {
    keys.map_values(|k: KeyEvent| k.code->Char_0)
}

/// On the add or edit screen with the cursor at the end of the text, pressing
/// character keys appends their characters and leaves the cursor at the end.
pub proof fn lemma_type_text(v: AppView, keys: Seq<KeyEvent>)
    requires
        v.screen == CurrentScreen::Add || v.screen == CurrentScreen::Edit,
        v.cursor == v.text.len(),
        char_presses(keys),
    ensures
        run(v, keys) == (AppView {
            text: v.text + chars_of(keys),
            cursor: (v.text + chars_of(keys)).len(),
            ..v
        }),
    decreases keys.len(),
{
    if keys.len() == 0 {
        assert(v.text + chars_of(keys) =~= v.text);
    } else {
        let c = keys[0].code->Char_0;
        let w = next(v, keys[0]);
        assert(v.text.take(v.cursor as int) =~= v.text);
        assert(v.text.skip(v.cursor as int) =~= Seq::<char>::empty());
        assert(w.text =~= v.text.push(c));
        let rest = keys.drop_first();
        assert(char_presses(rest)) by {
            assert forall|k: int| 0 <= k < rest.len() implies (#[trigger] rest[k]).code is Char
                && rest[k].modifiers == 0 && rest[k].kind == KeyEventKind::Press by {
                assert(rest[k] == keys[k + 1]);
            }
        }
        lemma_type_text(w, rest);
        assert(w.text + chars_of(rest) =~= v.text + chars_of(keys));
    }
}

/// From the main screen of `v`: open the add screen, press `keys`, press Enter.
pub open spec fn add_commit(v: AppView, keys: Seq<KeyEvent>) -> AppView {
    next(run(next(v, pressed(KeyCode::Char('a'))), keys), pressed(KeyCode::Enter))
}

/// One add commit for each key sequence of `ts`, in order.
pub open spec fn add_commits(v: AppView, ts: Seq<Seq<KeyEvent>>) -> AppView
    decreases ts.len(),
{
    if ts.len() == 0 {
        v
    } else {
        add_commit(add_commits(v, ts.drop_last()), ts.last())
    }
}

/// Each add commit appends one task, not done, with the typed text: after N
/// commits the list has grown by N, in commit order, the selection has not
/// moved, and the main screen is shown.
pub proof fn lemma_add_commits(v: AppView, ts: Seq<Seq<KeyEvent>>)
    requires
        v.screen == CurrentScreen::Main,
        forall|n: int| 0 <= n < ts.len() ==> char_presses(#[trigger] ts[n]),
    ensures
        add_commits(v, ts).screen == CurrentScreen::Main,
        add_commits(v, ts).items.len() == v.items.len() + ts.len(),
        add_commits(v, ts).items == v.items + ts.map_values(
            |keys: Seq<KeyEvent>| (false, chars_of(keys)),
        ),
        add_commits(v, ts).selected == v.selected,
    decreases ts.len(),
{
    if ts.len() > 0 {
        let init = ts.drop_last();
        assert forall|n: int| 0 <= n < init.len() implies char_presses(#[trigger] init[n]) by {
            assert(init[n] == ts[n]);
        }
        lemma_add_commits(v, init);
        let before = add_commits(v, init);
        assert(char_presses(ts[ts.len() - 1]));
        lemma_type_text(next(before, pressed(KeyCode::Char('a'))), ts.last());
        assert(Seq::<char>::empty() + chars_of(ts.last()) =~= chars_of(ts.last()));
        assert(ts.map_values(|keys: Seq<KeyEvent>| (false, chars_of(keys))) =~= init.map_values(
            |keys: Seq<KeyEvent>| (false, chars_of(keys)),
        ).push((false, chars_of(ts.last()))));
        assert(add_commits(v, ts).items =~= before.items.push((false, chars_of(ts.last()))));
    }
}

/// Space on the main screen flips the `done` flag of the selected task and of
/// no other, and keeps every description.
pub proof fn lemma_toggle(v: AppView, key: KeyEvent, i: usize)
    requires
        v.wf(),
        v.screen == CurrentScreen::Main,
        v.selected == Some(i),
        key.code == KeyCode::Char(' '),
        key.kind == KeyEventKind::Press,
    ensures
        next(v, key).items.len() == v.items.len(),
        next(v, key).items[i as int] == (!v.items[i as int].0, v.items[i as int].1),
        forall|j: int| 0 <= j < v.items.len() && j != i ==> next(v, key).items[j] == v.items[j],
        next(v, key).screen == CurrentScreen::Main,
{
}

/// On the add or edit screen, keys other than a pressed Enter or Esc change only
/// the input buffer.
pub proof fn lemma_typing_keeps_list(v: AppView, keys: Seq<KeyEvent>)
    requires
        v.screen == CurrentScreen::Add || v.screen == CurrentScreen::Edit,
        typing_keys(keys),
    ensures
        run(v, keys) == (AppView { text: run(v, keys).text, cursor: run(v, keys).cursor, ..v }),
        v.wf() ==> run(v, keys).wf(),
    decreases keys.len(),
{
    if keys.len() > 0 {
        let w = next(v, keys[0]);
        assert(typing_keys(keys.drop_first())) by {
            assert forall|k: int| 0 <= k < keys.drop_first().len() implies (#[trigger] keys.drop_first()[k]).kind
                != KeyEventKind::Press || (keys.drop_first()[k].code != KeyCode::Enter
                && keys.drop_first()[k].code != KeyCode::Esc) by {
                assert(keys.drop_first()[k] == keys[k + 1]);
            }
        }
        assert(keys[0].kind != KeyEventKind::Press || (keys[0].code != KeyCode::Enter
            && keys[0].code != KeyCode::Esc));
        if v.wf() {
            lemma_next_wf(v, keys[0]);
        }
        lemma_typing_keeps_list(w, keys.drop_first());
    }
}

/// Entering an edit, typing, and committing replaces the description of the
/// selected task by the typed text, keeps its `done` flag as it was before the
/// edit began, and leaves every other task alone.
pub proof fn lemma_edit_commit(
    v: AppView,
    open: KeyEvent,
    keys: Seq<KeyEvent>,
    commit: KeyEvent,
    i: usize,
)
    requires
        v.wf(),
        v.screen == CurrentScreen::Main,
        v.selected == Some(i),
        open.code == KeyCode::Enter,
        open.kind == KeyEventKind::Press,
        typing_keys(keys),
        commit.code == KeyCode::Enter,
        commit.kind == KeyEventKind::Press,
    ensures
        ({
            let typed = run(next(v, open), keys);
            let done = next(typed, commit);
            &&& typed.screen == CurrentScreen::Edit
            &&& done.screen == CurrentScreen::Main
            &&& done.items.len() == v.items.len()
            &&& done.items[i as int] == (v.items[i as int].0, typed.text)
            &&& forall|j: int| 0 <= j < v.items.len() && j != i ==> done.items[j] == v.items[j]
        }),
{
    lemma_typing_keeps_list(next(v, open), keys);
}

/// Cancelling the add screen with Esc, whatever was typed, leaves the list as
/// it was before the screen was opened.
pub proof fn lemma_escape_add(v: AppView, open: KeyEvent, keys: Seq<KeyEvent>, esc: KeyEvent)
    requires
        v.screen == CurrentScreen::Main,
        open.code == KeyCode::Char('a'),
        open.kind == KeyEventKind::Press,
        typing_keys(keys),
        esc.code == KeyCode::Esc,
        esc.kind == KeyEventKind::Press,
    ensures
        next(run(next(v, open), keys), esc).screen == CurrentScreen::Main,
        next(run(next(v, open), keys), esc).items == v.items,
        next(run(next(v, open), keys), esc).selected == v.selected,
{
    lemma_typing_keeps_list(next(v, open), keys);
}

/// Cancelling the edit screen with Esc, whatever was typed, leaves the list as
/// it was before the screen was opened.
pub proof fn lemma_escape_edit(v: AppView, open: KeyEvent, keys: Seq<KeyEvent>, esc: KeyEvent)
    requires
        v.wf(),
        v.selected is Some,
        v.screen == CurrentScreen::Main,
        open.code == KeyCode::Enter,
        open.kind == KeyEventKind::Press,
        typing_keys(keys),
        esc.code == KeyCode::Esc,
        esc.kind == KeyEventKind::Press,
    ensures
        next(run(next(v, open), keys), esc).screen == CurrentScreen::Main,
        next(run(next(v, open), keys), esc).items == v.items,
        next(run(next(v, open), keys), esc).selected == v.selected,
{
    lemma_typing_keeps_list(next(v, open), keys);
}

/// Every key keeps the selection on a task of the list, and none on an empty list.
pub proof fn lemma_next_wf(v: AppView, key: KeyEvent)
    requires
        v.wf(),
    ensures
        next(v, key).wf(),
{
}

/// Every sequence of keys keeps the selection on a task of the list.
pub proof fn lemma_run_wf(v: AppView, keys: Seq<KeyEvent>)
    requires
        v.wf(),
    ensures
        run(v, keys).wf(),
        run(v, keys).items.len() == 0 ==> run(v, keys).selected is None,
    decreases keys.len(),
{
    if keys.len() > 0 {
        lemma_next_wf(v, keys[0]);
        lemma_run_wf(next(v, keys[0]), keys.drop_first());
    }
}

/// Up and Down select a task of the list, clamped at both ends, and nothing on
/// an empty list.
pub proof fn lemma_selection_clamped(sel: Option<usize>, len: nat)
    ensures
        select_up(sel, len) is None <==> len == 0,
        select_down(sel, len) is None <==> len == 0,
        select_up(sel, len) matches Some(i) ==> i < len,
        select_down(sel, len) matches Some(i) ==> i < len,
        sel == Some(0usize) && len > 0 ==> select_up(sel, len) == Some(0usize),
        (sel matches Some(i) && i + 1 == len) ==> select_down(sel, len) == sel,
{
}

/// `q` on the main screen always leads to the exit screen, whatever the list holds.
pub proof fn lemma_quit(v: AppView, key: KeyEvent)
    requires
        v.screen == CurrentScreen::Main,
        key.code == KeyCode::Char('q'),
        key.kind == KeyEventKind::Press,
    ensures
        next(v, key).screen == CurrentScreen::Exit,
        next(v, key).items == v.items,
{
}

/// A key release, or a repeat of a held key, changes nothing, whatever its key.
pub proof fn lemma_not_pressed(v: AppView, key: KeyEvent)
    requires
        key.kind != KeyEventKind::Press,
    ensures
        next(v, key) == v,
{
}

} // verus!
