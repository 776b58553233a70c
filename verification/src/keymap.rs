//! User actions, key bindings from actions to keycodes, and the expansion
//! into a keycode-to-action table the event loop looks keys up in. Keycodes
//! are the integers the windowing layer reports for keys.

use vstd::prelude::*;

verus! {

/// One user action the engine understands.
#[derive(PartialEq, Eq, Structural, Hash, Clone, Copy, Debug)]
pub enum Action {
    CursorUp,
    CursorDown,
    PageUp,
    PageDown,
    Select,
    Back,
    Favourite,
}

/// The key or keys bound to one action.
pub enum Keycode {
    Single(i32),
    Many(Vec<i32>),
}

/// Mathematical view of a binding's keys.
#[verifier::ext_equal]
pub enum KeycodeView {
    Single(i32),
    Many(Seq<i32>),
}

impl View for Keycode {
    type V = KeycodeView;

    open spec fn view(&self) -> KeycodeView {
        match self {
            Keycode::Single(k) => KeycodeView::Single(*k),
            Keycode::Many(ks) => KeycodeView::Many(ks@),
        }
    }
}

impl Clone for Keycode {
    fn clone(&self) -> (r: Self)
        ensures
            r@ == self@,
    {
        match self {
            Keycode::Single(k) => Keycode::Single(*k),
            Keycode::Many(ks) => {
                let n = ks.len();
                let mut out: Vec<i32> = Vec::new();
                let mut i: usize = 0;
                while i < n
                    invariant
                        n == ks@.len(),
                        i <= n,
                        out@ == ks@.take(i as int),
                    decreases n - i,
                {
                    out.push(ks[i]);
                    proof {
                        assert(out@ =~= ks@.take(i + 1));
                    }
                    i = i + 1;
                }
                proof {
                    assert(ks@.take(n as int) =~= ks@);
                }
                Keycode::Many(out)
            },
        }
    }
}

/// A keymap: one keycode binding per action.
pub struct Keymap {
    /// The bindings, in order; on lookup, a later binding for the same
    /// keycode shadows an earlier one.
    pub keymap: Vec<(Action, Keycode)>,
}

impl View for Keymap {
    type V = Seq<(Action, KeycodeView)>;

    open spec fn view(&self) -> Seq<(Action, KeycodeView)> {
        self.keymap@.map_values(|p: (Action, Keycode)| (p.0, p.1@))
    }
}

/// The keycode-to-action pairs one binding expands to.
pub open spec fn expand_one(a: Action, k: KeycodeView) -> Seq<(i32, Action)> {
    match k {
        KeycodeView::Single(c) => seq![(c, a)],
        KeycodeView::Many(cs) => cs.map_values(|c: i32| (c, a)),
    }
}

/// The keycode-to-action table a keymap expands to, binding by binding.
pub open spec fn expand_keymap(s: Seq<(Action, KeycodeView)>) -> Seq<(i32, Action)>
    decreases s.len(),
{
    if s.len() == 0 {
        Seq::<(i32, Action)>::empty()
    } else {
        expand_keymap(s.drop_last()) + expand_one(s.last().0, s.last().1)
    }
}

/// The action bound to a keycode; the last matching pair wins, as a later
/// binding shadows an earlier one.
pub open spec fn lookup_key(s: Seq<(i32, Action)>, keycode: i32) -> Option<Action>
    decreases s.len(),
{
    if s.len() == 0 {
        Option::None
    } else if s.last().0 == keycode {
        Option::Some(s.last().1)
    } else {
        lookup_key(s.drop_last(), keycode)
    }
}

impl Keymap {
    /// Expands the bindings into the keycode-to-action table.
    pub fn to_keycode_map(&self) -> (r: Vec<(i32, Action)>)
        ensures
            r@ == expand_keymap(self@),
    {
        let n = self.keymap.len();
        let mut out: Vec<(i32, Action)> = Vec::new();
        let mut i: usize = 0;
        proof {
            assert(self@.take(0) =~= Seq::<(Action, KeycodeView)>::empty());
        }
        while i < n
            invariant
                n == self.keymap@.len(),
                i <= n,
                out@ == expand_keymap(self@.take(i as int)),
            decreases n - i,
        {
            let action = self.keymap[i].0;
            proof {
                assert(self@.take(i + 1).drop_last() =~= self@.take(i as int));
                assert(self@.take(i + 1).last() == self@[i as int]);
            }
            match &self.keymap[i].1 {
                Keycode::Single(k) => {
                    out.push((*k, action));
                    proof {
                        assert(out@ =~= expand_keymap(self@.take(i + 1)));
                    }
                },
                Keycode::Many(ks) => {
                    let m = ks.len();
                    let mut j: usize = 0;
                    while j < m
                        invariant
                            m == ks@.len(),
                            j <= m,
                            out@ == expand_keymap(self@.take(i as int)) + ks@.take(
                                j as int,
                            ).map_values(|c: i32| (c, action)),
                        decreases m - j,
                    {
                        out.push((ks[j], action));
                        proof {
                            assert(ks@.take(j + 1).map_values(|c: i32| (c, action)) =~= ks@.take(
                                j as int,
                            ).map_values(|c: i32| (c, action)).push((ks@[j as int], action)));
                            assert(out@ =~= expand_keymap(self@.take(i as int)) + ks@.take(
                                j + 1,
                            ).map_values(|c: i32| (c, action)));
                        }
                        j = j + 1;
                    }
                    proof {
                        assert(ks@.take(m as int) =~= ks@);
                        assert(self@[i as int].1 == KeycodeView::Many(ks@));
                        assert(out@ =~= expand_keymap(self@.take(i + 1)));
                    }
                },
            }
            i = i + 1;
        }
        proof {
            assert(self@.take(n as int) =~= self@);
        }
        out
    }
}

impl Default for Keymap {
    /// The default bindings: arrows step and page the cursor, return
    /// selects, backspace goes back, and the F key toggles a favourite.
    fn default() -> (r: Self)
        ensures
            r@ == default_bindings(),
    {
        let mut keymap: Vec<(Action, Keycode)> = Vec::new();
        keymap.push((Action::CursorUp, Keycode::Single(1073741906)));
        keymap.push((Action::CursorDown, Keycode::Single(1073741905)));
        keymap.push((Action::PageUp, Keycode::Single(1073741904)));
        keymap.push((Action::PageDown, Keycode::Single(1073741903)));
        keymap.push((Action::Select, Keycode::Single(13)));
        keymap.push((Action::Back, Keycode::Single(8)));
        keymap.push((Action::Favourite, Keycode::Single(102)));
        let r = Keymap { keymap };
        proof {
            assert(r@ =~= default_bindings());
        }
        r
    }
}

/// The default bindings: the arrow keys, return, backspace, and the F key,
/// by the keycodes the windowing layer reports for them.
pub open spec fn default_bindings() -> Seq<(Action, KeycodeView)> {
    seq![
        (Action::CursorUp, KeycodeView::Single(1073741906)),
        (Action::CursorDown, KeycodeView::Single(1073741905)),
        (Action::PageUp, KeycodeView::Single(1073741904)),
        (Action::PageDown, KeycodeView::Single(1073741903)),
        (Action::Select, KeycodeView::Single(13)),
        (Action::Back, KeycodeView::Single(8)),
        (Action::Favourite, KeycodeView::Single(102)),
    ]
}

/// Looks an incoming keycode up in the expanded table; the last matching
/// binding wins.
pub fn lookup_action(table: &Vec<(i32, Action)>, keycode: i32) -> (r: Option<Action>)
    ensures
        r == lookup_key(table@, keycode),
{
    let mut i: usize = table.len();
    proof {
        assert(table@.take(table@.len() as int) =~= table@);
    }
    while i > 0
        invariant
            i <= table@.len(),
            lookup_key(table@, keycode) == lookup_key(table@.take(i as int), keycode),
        decreases i,
    {
        i = i - 1;
        if table[i].0 == keycode {
            proof {
                assert(table@.take(i + 1).last() == table@[i as int]);
            }
            return Option::Some(table[i].1);
        }
        proof {
            assert(table@.take(i + 1).drop_last() =~= table@.take(i as int));
        }
    }
    Option::None
}

} // verus!
