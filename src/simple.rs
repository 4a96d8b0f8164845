use vstd::prelude::*;

use crate::actions::{clone_of, Action, ActionView, Interactive};
use crate::camera::Ignores;
use crate::message::{Message, MessageView};
use crate::state::WorldState;

verus! {

/// The game state of interactives that never change it.
#[derive(Clone, Copy, Debug, PartialEq, Eq, Structural, Hash)]
pub enum NoState {
    State,
}

/// An interactive that answers every interaction with the same actions.
#[derive(Debug)]
pub struct Simple<State> {
    actions: Vec<Action<State>>,
}

impl<State> View for Simple<State> {
    type V = Seq<Action<State>>;

    closed spec fn view(&self) -> Seq<Action<State>> {
        self.actions@
    }
}

impl<State> Simple<State> {
    /// Adds an action.
    pub fn push(&mut self, action: Action<State>) -> (r: &mut Self)
        ensures
            r@ == old(self)@.push(action),
            *final(self) == *final(r),
    {
        self.actions.push(action);
        self
    }

    /// Adds actions, in order.
    pub fn extend(&mut self, actions: Vec<Action<State>>) -> (r: &mut Self)
        ensures
            r@ == old(self)@ + actions@,
            *final(self) == *final(r),
    {
        let mut more = actions;
        self.actions.append(&mut more);
        self
    }

    /// Adds the playing of a named animation.
    pub fn animation(self, name: &str) -> (r: Self)
        ensures
            r@.len() == self@.len() + 1,
            r@.drop_last() == self@,
            r@.last()@ == ActionView::<State>::Animation(name@),
    {
        let mut s = self;
        s.actions.push(Action::Animation(name.to_owned()));
        s
    }

    /// Adds the playing of a named audio clip.
    pub fn audio(self, name: &str) -> (r: Self)
        ensures
            r@.len() == self@.len() + 1,
            r@.drop_last() == self@,
            r@.last()@ == ActionView::<State>::Audio(name@),
    {
        let mut s = self;
        s.actions.push(Action::Audio(name.to_owned()));
        s
    }

    /// Adds a jump of the camera to a named spot.
    pub fn jump(self, name: &str) -> (r: Self)
        ensures
            r@.len() == self@.len() + 1,
            r@.drop_last() == self@,
            r@.last()@ == ActionView::<State>::Jump(name@),
    {
        let mut s = self;
        s.actions.push(Action::Jump(name.to_owned()));
        s
    }
}

impl<State> From<Vec<Action<State>>> for Simple<State> {
    fn from(actions: Vec<Action<State>>) -> (r: Simple<State>)
        ensures
            r@ == actions@,
    {
        Simple { actions }
    }
}

impl<State> vstd::std_specs::convert::FromSpecImpl<Vec<Action<State>>> for Simple<State> {
    open spec fn obeys_from_spec() -> bool {
        false
    }

    open spec fn from_spec(actions: Vec<Action<State>>) -> Simple<State> {
        arbitrary()
    }
}

impl<State> From<Action<State>> for Simple<State> {
    fn from(action: Action<State>) -> (r: Simple<State>)
        ensures
            r@ == seq![action],
    {
        Simple { actions: action.single() }
    }
}

impl<State> vstd::std_specs::convert::FromSpecImpl<Action<State>> for Simple<State> {
    open spec fn obeys_from_spec() -> bool {
        false
    }

    open spec fn from_spec(action: Action<State>) -> Simple<State> {
        arbitrary()
    }
}

impl<State: Clone> Interactive for Simple<State> {
    type State = State;

    fn interact(&mut self, state: &mut WorldState) -> (r: Vec<Action<State>>)
        ensures
            r@.len() == old(self)@.len(),
            forall|i: int| 0 <= i < r@.len() ==> clone_of(#[trigger] old(self)@[i]@, r@[i]@),
            *final(self) == *old(self),
            *final(state) == *old(state),
    {
        self.actions.clone()
    }
}

/// An interactive that shows a message.
pub struct Description;

impl Description {
    /// A `Simple` that shows `text` when interacted with.
    pub fn build(text: &str) -> (r: Simple<NoState>)
        ensures
            r@.len() == 1,
            r@[0]@ == ActionView::<NoState>::Message(MessageView::Text(text@)),
    {
        Action::Message(Message::new(text)).into()
    }
}

/// An interactive that moves the camera to a spot.
pub struct MoveTo;

impl MoveTo {
    /// A `Simple` that moves the camera to `spot` when interacted with.
    pub fn build(spot: &str) -> (r: Simple<NoState>)
        ensures
            r@.len() == 1,
            r@[0]@ == ActionView::<NoState>::Move(spot@),
    {
        Action::Move(spot.to_owned()).into()
    }
}

/// An interactive that changes the game state.
pub struct Portal;

impl Portal {
    /// A `Simple` that changes the game state to `state` when interacted with.
    pub fn build<State>(state: State) -> (r: Simple<State>)
        ensures
            r@ == seq![Action::Transition(state)],
    {
        Action::Transition(state).into()
    }
}

/// An interactive that does nothing: an object only to look at.
#[derive(Clone, Copy, Debug)]
pub struct Prop;

impl Interactive for Prop {
    type State = NoState;

    fn interact(&mut self, state: &mut WorldState) -> (r: Vec<Action<NoState>>)
        ensures
            r@.len() == 0,
            *final(state) == *old(state),
    {
        Vec::new()
    }
}

/// An interactive that does nothing, used as a camera trigger: it hides
/// what stands behind it until its spot is reached.
#[derive(Clone, Copy, Debug)]
pub struct Trigger;

impl Trigger {
    /// The trigger, with `Ignores` for the entity named `name` so that it
    /// stops hiding things once its spot is reached.
    pub fn build(name: &str) -> (r: (Ignores, Trigger))
        ensures
            r.0.names@.len() == 1,
            r.0.names@[0]@ == name@,
    {
        (Ignores::single(name), Trigger)
    }
}

impl Interactive for Trigger {
    type State = NoState;

    fn interact(&mut self, state: &mut WorldState) -> (r: Vec<Action<NoState>>)
        ensures
            r@.len() == 0,
            *final(state) == *old(state),
    {
        Vec::new()
    }
}

} // verus!
