//! The input mapper: a configurable many-keys-to-one-action table over
//! logical key codes. Every raw code that no binding names is ignored.

use vstd::prelude::*;

use crate::game::Action;

verus! {

/// A logical key code, as the terminal reports it.
#[derive(Clone, Copy, PartialEq, Eq, Structural, Debug)]
pub enum Key {
    Left,
    Right,
    Enter,
    Esc,
    Char(char),
    Other,
}

/// Whether a key occurs in a binding list.
fn key_in(keys: &Vec<Key>, k: Key) -> (r: bool)
    ensures
        r == keys@.contains(k),
{
    let mut i: usize = 0;
    while i < keys.len()
        invariant
            i <= keys@.len(),
            forall|j: int| 0 <= j < i ==> keys@[j] != k,
        decreases keys@.len() - i,
    {
        if keys[i] == k {
            return true;
        }
        i = i + 1;
    }
    false
}

/// The binding table: which key codes mean which semantic action.
pub struct InputConfig {
    pub left: Vec<Key>,
    pub right: Vec<Key>,
    pub fire: Vec<Key>,
    pub quit: Vec<Key>,
    pub pause: Vec<Key>,
}

/// The action a key is translated to, with the same precedence the loop
/// applies: pause before quit, quit before the game actions. A key bound
/// nowhere maps to nothing and is ignored.
pub open spec fn action_of(cfg: InputConfig, k: Key) -> Option<Action> {
    if cfg.pause@.contains(k) {
        Some(Action::Pause)
    } else if cfg.quit@.contains(k) {
        Some(Action::Quit)
    } else if cfg.fire@.contains(k) {
        Some(Action::Fire)
    } else if cfg.left@.contains(k) {
        Some(Action::Left)
    } else if cfg.right@.contains(k) {
        Some(Action::Right)
    } else {
        None
    }
}

impl InputConfig {
    pub fn is_left(&self, code: Key) -> (r: bool)
        ensures
            r == self.left@.contains(code),
    {
        key_in(&self.left, code)
    }

    pub fn is_right(&self, code: Key) -> (r: bool)
        ensures
            r == self.right@.contains(code),
    {
        key_in(&self.right, code)
    }

    pub fn is_fire(&self, code: Key) -> (r: bool)
        ensures
            r == self.fire@.contains(code),
    {
        key_in(&self.fire, code)
    }

    pub fn is_quit(&self, code: Key) -> (r: bool)
        ensures
            r == self.quit@.contains(code),
    {
        key_in(&self.quit, code)
    }

    pub fn is_pause(&self, code: Key) -> (r: bool)
        ensures
            r == self.pause@.contains(code),
    {
        key_in(&self.pause, code)
    }

    /// Translate one key; keys bound to no action give nothing back.
    pub fn action_for(&self, code: Key) -> (a: Option<Action>)
        ensures
            a == action_of(*self, code),
    {
        if self.is_pause(code) {
            Some(Action::Pause)
        } else if self.is_quit(code) {
            Some(Action::Quit)
        } else if self.is_fire(code) {
            Some(Action::Fire)
        } else if self.is_left(code) {
            Some(Action::Left)
        } else if self.is_right(code) {
            Some(Action::Right)
        } else {
            None
        }
    }
}

impl Default for InputConfig {
    /// The default bindings: arrows and letter keys for movement, space,
    /// enter and letter keys for fire, escape or q to quit, p to pause.
    fn default() -> (cfg: Self)
        ensures
            cfg.left@ == seq![Key::Left, Key::Char('a'), Key::Char('h')],
            cfg.right@ == seq![Key::Right, Key::Char('d'), Key::Char('l')],
            cfg.fire@ == seq![Key::Char(' '), Key::Enter, Key::Char('k'), Key::Char('w')],
            cfg.quit@ == seq![Key::Esc, Key::Char('q')],
            cfg.pause@ == seq![Key::Char('p')],
    {
        let mut left: Vec<Key> = Vec::new();
        left.push(Key::Left);
        left.push(Key::Char('a'));
        left.push(Key::Char('h'));
        let mut right: Vec<Key> = Vec::new();
        right.push(Key::Right);
        right.push(Key::Char('d'));
        right.push(Key::Char('l'));
        let mut fire: Vec<Key> = Vec::new();
        fire.push(Key::Char(' '));
        fire.push(Key::Enter);
        fire.push(Key::Char('k'));
        fire.push(Key::Char('w'));
        let mut quit: Vec<Key> = Vec::new();
        quit.push(Key::Esc);
        quit.push(Key::Char('q'));
        let mut pause: Vec<Key> = Vec::new();
        pause.push(Key::Char('p'));
        proof {
            assert(left@ =~= seq![Key::Left, Key::Char('a'), Key::Char('h')]);
            assert(right@ =~= seq![Key::Right, Key::Char('d'), Key::Char('l')]);
            assert(fire@ =~= seq![Key::Char(' '), Key::Enter, Key::Char('k'), Key::Char('w')]);
            assert(quit@ =~= seq![Key::Esc, Key::Char('q')]);
            assert(pause@ =~= seq![Key::Char('p')]);
        }
        InputConfig { left, right, fire, quit, pause }
    }
}

} // verus!
