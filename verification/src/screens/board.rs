//! A board: a screen whose state the shell keeps. The library holds what decides
//! where a key goes and what the footer says; everything else is handed on.

use crate::action::{Action, Effect, Outcome};
use crate::keys::KeyEvent;
use crate::line::Footer;
use crate::screens::ScreenKind;
use vstd::prelude::*;

verus! {

/// Which keys a board takes before the keymap sees them: none, these, or every
/// one, as while it takes text.
#[derive(Debug)]
pub enum Claims {
    Nothing,
    These(Vec<KeyEvent>),
    Every,
}

/// What the shell last showed of a board: the keys it takes and its footer.
#[derive(Debug)]
pub struct Board {
    pub claims: Claims,
    pub footer: Footer,
}

impl Board {
    /// A board that the shell has shown nothing of.
    pub open spec fn fresh(self) -> bool {
        self.claims is Nothing && self.footer.offers(Seq::empty())
    }

    /// A board that the shell has shown nothing of.
    pub fn blank() -> (res: Self)
        ensures
            res.fresh(),
    {
        Board { claims: Claims::Nothing, footer: Footer::Keys(Vec::new()) }
    }

    /// Whether the board takes a key.
    pub open spec fn takes(self, key: KeyEvent) -> bool {
        match self.claims {
            Claims::Nothing => false,
            Claims::These(keys) => keys@.contains(key),
            Claims::Every => true,
        }
    }

    /// What a key does before the keymap sees it.
    pub open spec fn intercepted(self, key: KeyEvent) -> Option<Action> {
        if self.takes(key) {
            Some(Action::BoardKey(key))
        } else {
            None
        }
    }

    /// What a key does before the keymap sees it.
    pub fn intercept_key(&self, key: KeyEvent) -> (res: Option<Action>)
        ensures
            res == self.intercepted(key),
    {
        let taken = match &self.claims {
            Claims::Nothing => false,
            Claims::These(keys) => has_key(keys, key),
            Claims::Every => true,
        };
        if taken {
            Some(Action::BoardKey(key))
        } else {
            None
        }
    }

    /// How a board of this kind answers an action: what the shell shows of it is
    /// kept, and anything else is handed on.
    pub open spec fn handled(
        pre: Self,
        kind: ScreenKind,
        action: Action,
        post: Self,
        out: Outcome,
    ) -> bool {
        match action {
            Action::BoardShown { kind: shown, board } => {
                &&& post == (if shown == kind {
                    *board
                } else {
                    pre
                })
                &&& out.quiet()
            },
            _ => post == pre && out.asks(seq![Effect::Shell(action)]),
        }
    }

    /// How a board of this kind answers an action.
    pub fn handle(&mut self, kind: ScreenKind, action: Action) -> (out: Outcome)
        ensures
            Self::handled(*old(self), kind, action, *final(self), out),
    {
        match action {
            Action::BoardShown { kind: shown, board } => {
                if shown == kind {
                    *self = *board;
                }
                Outcome::none()
            },
            other => Outcome::ask(Effect::Shell(other)),
        }
    }

    /// What the footer offers: what the shell last showed.
    pub open spec fn offered(self, f: Footer) -> bool {
        f.same(self.footer)
    }

    /// What the footer offers.
    pub fn hints(&self) -> (res: Footer)
        ensures
            self.offered(res),
    {
        self.footer.dup()
    }
}

fn has_key(keys: &Vec<KeyEvent>, key: KeyEvent) -> (res: bool)
    ensures
        res == keys@.contains(key),
{
    let mut i: usize = 0;
    while i < keys.len()
        invariant
            i <= keys.len(),
            forall|j: int| 0 <= j < i ==> keys@[j] != key,
        decreases keys.len() - i,
    {
        if keys[i] == key {
            assert(keys@[i as int] == key);
            return true;
        }
        i = i + 1;
    }
    false
}

/// A key that a board took reaches it as it was struck, and changes nothing here.
pub proof fn a_taken_key_reaches_the_board(
    pre: Board,
    kind: ScreenKind,
    key: KeyEvent,
    post: Board,
    out: Outcome,
)
    requires
        pre.takes(key),
        Board::handled(pre, kind, pre.intercepted(key)->0, post, out),
    ensures
        post == pre,
        out.asks(seq![Effect::Shell(Action::BoardKey(key))]),
{
}

/// What the shell shows of a board stands until it shows something else.
pub proof fn what_is_shown_stands(
    pre: Board,
    kind: ScreenKind,
    action: Action,
    post: Board,
    out: Outcome,
)
    requires
        Board::handled(pre, kind, action, post, out),
    ensures
        !(action is BoardShown) ==> post == pre,
        action matches Action::BoardShown { kind: shown, board } && shown == kind ==> post
            == *action->board,
{
}

} // verus!
