use vstd::prelude::*;

verus! {

/// Where a screen asks the application to go.
#[derive(Clone, Copy, PartialEq, Eq, Structural, Debug)]
pub enum Target {
    Pomodoro,
    PopStack,
    Quit,
}

/// An abstract input symbol, as screens see it for one frame.
#[derive(Clone, Copy, PartialEq, Eq, Structural, Debug)]
pub enum UserInput {
    Idle,
    Up,
    Right,
    Left,
    Down,
    Enter,
    /// Defines a redirection to another part of the ui
    Goto(Target),
    Consumed,
}

impl UserInput {
    /// Whether a screen has used this input up.
    pub open spec fn spec_is_consumed(self) -> bool {
        self is Goto || self is Consumed
    }

    /// If `pattern` accepts the input, marks it consumed and hands it to `ev`,
    /// which gives back the input to keep and a result, and returns that
    /// result; otherwise leaves the input as it is.
    pub fn consume_matches<T, P: FnOnce(&UserInput) -> bool, E: FnOnce(UserInput) -> (
        UserInput,
        T,
    )>(&mut self, pattern: P, ev: E) -> (r: Option<T>)
        requires
            pattern.requires((&*old(self),)),
            ev.requires((UserInput::Consumed,)),
        ensures
            r is None ==> pattern.ensures((&*old(self),), false) && *final(self) == *old(self),
            forall|t: T|
                r == Some(t) ==> pattern.ensures((&*old(self),), true) && ev.ensures(
                    (UserInput::Consumed,),
                    (*final(self), t),
                ),
    {
        if pattern(self) {
            *self = UserInput::Consumed;
            let (next, t) = ev(*self);
            *self = next;
            return Some(t);
        }
        None
    }

    pub fn is_consumed(&self) -> (r: bool)
        ensures
            r == self.spec_is_consumed(),
    {
        matches!(self, UserInput::Goto(_) | UserInput::Consumed)
    }
}

} // verus!
