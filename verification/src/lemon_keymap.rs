//! The interactive keymap-capture screen's state: the actions still waiting
//! for a key, and the bindings captured so far. The surrounding application
//! feeds keycodes in as the user presses keys and writes the finished keymap
//! out.

use vstd::prelude::*;
use crate::keymap::{Action, Keycode, KeycodeView};

verus! {

/// Mathematical state of a capture run.
#[verifier::ext_equal]
pub struct CaptureView {
    /// Where the finished keymap will be written.
    pub file_path: Seq<char>,
    /// The actions still waiting for a key, next first.
    pub pending: Seq<Action>,
    /// The bindings captured so far, in capture order.
    pub bindings: Seq<(Action, KeycodeView)>,
}

/// The keymap-capture screen's state.
pub struct LemonKeymap {
    file_path: String,
    actions: Vec<Action>,
    keymap: Vec<(Action, Keycode)>,
}

impl View for LemonKeymap {
    type V = CaptureView;

    closed spec fn view(&self) -> CaptureView {
        CaptureView {
            file_path: self.file_path@,
            pending: self.actions@,
            bindings: self.keymap@.map_values(|p: (Action, Keycode)| (p.0, p.1@)),
        }
    }
}

/// Every action, in the order keys are asked for.
pub open spec fn all_actions() -> Seq<Action> {
    seq![
        Action::CursorUp,
        Action::CursorDown,
        Action::PageUp,
        Action::PageDown,
        Action::Select,
        Action::Back,
        Action::Favourite,
    ]
}

impl LemonKeymap {
    /// A fresh capture run: every action waits for a key, nothing is bound.
    pub fn new(file_path: String) -> (r: Self)
        ensures
            r@ == (CaptureView {
                file_path: file_path@,
                pending: all_actions(),
                bindings: Seq::empty(),
            }),
    {
        let mut actions: Vec<Action> = Vec::new();
        actions.push(Action::CursorUp);
        actions.push(Action::CursorDown);
        actions.push(Action::PageUp);
        actions.push(Action::PageDown);
        actions.push(Action::Select);
        actions.push(Action::Back);
        actions.push(Action::Favourite);
        let r = LemonKeymap { file_path, actions, keymap: Vec::new() };
        proof {
            assert(r@.pending =~= all_actions());
            assert(r@.bindings =~= Seq::<(Action, KeycodeView)>::empty());
            assert(r@ =~= CaptureView {
                file_path: r.file_path@,
                pending: all_actions(),
                bindings: Seq::empty(),
            });
        }
        r
    }

    /// The action the next key press will be bound to.
    pub fn next_action(&self) -> (r: Option<Action>)
        ensures
            match r {
                Option::Some(a) => self@.pending.len() > 0 && a == self@.pending[0],
                Option::None => self@.pending.len() == 0,
            },
    {
        if self.actions.len() > 0 {
            Option::Some(self.actions[0])
        } else {
            Option::None
        }
    }

    /// Binds the next waiting action to the pressed key; the run is done
    /// when no action waits any more.
    pub fn record_key(&mut self, keycode: i32) -> (done: bool)
        requires
            old(self)@.pending.len() > 0,
        ensures
            final(self)@.file_path == old(self)@.file_path,
            final(self)@.pending == old(self)@.pending.drop_first(),
            final(self)@.bindings == old(self)@.bindings.push(
                (old(self)@.pending[0], KeycodeView::Single(keycode)),
            ),
            done == (old(self)@.pending.len() == 1),
    {
        let action = self.actions.remove(0);
        self.keymap.push((action, Keycode::Single(keycode)));
        proof {
            assert(final(self)@.pending =~= old(self)@.pending.drop_first());
            assert(final(self)@.bindings =~= old(self)@.bindings.push(
                (old(self)@.pending[0], KeycodeView::Single(keycode)),
            ));
        }
        self.actions.is_empty()
    }

    /// The bindings captured so far, for writing out.
    pub fn bindings(&self) -> (r: &Vec<(Action, Keycode)>)
        ensures
            r@.map_values(|p: (Action, Keycode)| (p.0, p.1@)) == self@.bindings,
    {
        &self.keymap
    }

    /// Where the finished keymap is to be written.
    pub fn target_path(&self) -> (r: &str)
        ensures
            r@ == self@.file_path,
    {
        self.file_path.as_str()
    }
}

} // verus!
