use vstd::prelude::*;

use crate::entity::EntityId;
use crate::inventory::{Inventory, Item};
use crate::message::{Message, MessageView};
use crate::state::WorldState;

verus! {

/// What an interactive asks for after it has been used.
#[derive(Debug)]
pub enum Action<State> {
    /// Add an item to the inventory.
    AddItem(Item),
    /// Play the animation with this name.
    Animation(String),
    /// Play the audio clip with this name.
    Audio(String),
    /// Show a message.
    Message(Message),
    /// Change the game state.
    Transition(State),
    /// Move the camera to the spot with this name.
    Move(String),
    /// Jump the camera to the spot with this name, without animation.
    Jump(String),
}

/// An action as plain values.
pub enum ActionView<State> {
    AddItem(Seq<char>),
    Animation(Seq<char>),
    Audio(Seq<char>),
    Message(MessageView),
    Transition(State),
    Move(Seq<char>),
    Jump(Seq<char>),
}

impl<State> View for Action<State> {
    type V = ActionView<State>;

    open spec fn view(&self) -> ActionView<State> {
        match self {
            Action::AddItem(i) => ActionView::AddItem(i@),
            Action::Animation(n) => ActionView::Animation(n@),
            Action::Audio(n) => ActionView::Audio(n@),
            Action::Message(m) => ActionView::Message(m@),
            Action::Transition(s) => ActionView::Transition(*s),
            Action::Move(n) => ActionView::Move(n@),
            Action::Jump(n) => ActionView::Jump(n@),
        }
    }
}

/// The views of a sequence of actions.
pub open spec fn action_views<State>(v: Seq<Action<State>>) -> Seq<ActionView<State>> {
    v.map_values(|a: Action<State>| a@)
}

/// `b` is a clone of `a`: equal, but for a state, which is a clone of the other.
pub open spec fn clone_of<State: Clone>(a: ActionView<State>, b: ActionView<State>) -> bool {
    match a {
        ActionView::Transition(s) => b matches ActionView::Transition(t) && cloned::<State>(s, t),
        _ => b == a,
    }
}

impl<State: Clone> Clone for Action<State> {
    fn clone(&self) -> (r: Action<State>)
        ensures
            clone_of(self@, r@),
    {
        match self {
            Action::AddItem(i) => Action::AddItem(i.clone()),
            Action::Animation(n) => Action::Animation(n.clone()),
            Action::Audio(n) => Action::Audio(n.clone()),
            Action::Message(m) => Action::Message(m.clone()),
            Action::Transition(s) => Action::Transition(s.clone()),
            Action::Move(n) => Action::Move(n.clone()),
            Action::Jump(n) => Action::Jump(n.clone()),
        }
    }
}

impl<State> Action<State> {
    /// A list that holds this one action.
    pub fn single(self) -> (r: Vec<Action<State>>)
        ensures
            r@ == seq![self],
    {
        let mut v: Vec<Action<State>> = Vec::new();
        v.push(self);
        assert(v@ =~= seq![self]);
        v
    }
}

impl<T> From<Action<T>> for Vec<Action<T>> {
    fn from(action: Action<T>) -> (r: Vec<Action<T>>)
        ensures
            r@ == seq![action],
    {
        action.single()
    }
}

impl<T> vstd::std_specs::convert::FromSpecImpl<Action<T>> for Vec<Action<T>> {
    open spec fn obeys_from_spec() -> bool {
        false
    }

    open spec fn from_spec(action: Action<T>) -> Vec<Action<T>> {
        arbitrary()
    }
}

impl<T> From<Item> for Action<T> {
    fn from(item: Item) -> (r: Action<T>)
        ensures
            r == Action::<T>::AddItem(item),
    {
        Action::AddItem(item)
    }
}

impl<T> vstd::std_specs::convert::FromSpecImpl<Item> for Action<T> {
    open spec fn obeys_from_spec() -> bool {
        false
    }

    open spec fn from_spec(item: Item) -> Action<T> {
        arbitrary()
    }
}

impl<T> From<Item> for Vec<Action<T>> {
    fn from(item: Item) -> (r: Vec<Action<T>>)
        ensures
            r@ == seq![Action::<T>::AddItem(item)],
    {
        Action::AddItem(item).single()
    }
}

impl<T> vstd::std_specs::convert::FromSpecImpl<Item> for Vec<Action<T>> {
    open spec fn obeys_from_spec() -> bool {
        false
    }

    open spec fn from_spec(item: Item) -> Vec<Action<T>> {
        arbitrary()
    }
}

impl<T> From<Message> for Action<T> {
    fn from(message: Message) -> (r: Action<T>)
        ensures
            r == Action::<T>::Message(message),
    {
        Action::Message(message)
    }
}

impl<T> vstd::std_specs::convert::FromSpecImpl<Message> for Action<T> {
    open spec fn obeys_from_spec() -> bool {
        false
    }

    open spec fn from_spec(message: Message) -> Action<T> {
        arbitrary()
    }
}

impl<T> From<Message> for Vec<Action<T>> {
    fn from(message: Message) -> (r: Vec<Action<T>>)
        ensures
            r@ == seq![Action::<T>::Message(message)],
    {
        Action::Message(message).single()
    }
}

impl<T> vstd::std_specs::convert::FromSpecImpl<Message> for Vec<Action<T>> {
    open spec fn obeys_from_spec() -> bool {
        false
    }

    open spec fn from_spec(message: Message) -> Vec<Action<T>> {
        arbitrary()
    }
}

/// The actions that answer an item used where it does not work: one message.
pub fn invalid_item_used<T>() -> (r: Vec<Action<T>>)
    ensures
        action_views(r@) == seq![ActionView::<T>::Message(MessageView::InvalidItemUsed)],
{
    let r = Action::Message(Message::InvalidItemUsed).single();
    assert(action_views(r@) =~= seq![ActionView::<T>::Message(MessageView::InvalidItemUsed)]);
    r
}

/// An item handed to an interactive, which may consume it.
pub struct ItemRef<'a> {
    item: &'a Item,
    consumed: bool,
}

impl<'a> View for ItemRef<'a> {
    /// The item's name, and whether it was consumed.
    type V = (Seq<char>, bool);

    closed spec fn view(&self) -> (Seq<char>, bool) {
        (self.item@, self.consumed)
    }
}

impl<'a> ItemRef<'a> {
    /// The item, not consumed.
    pub fn new(item: &'a Item) -> (r: ItemRef<'a>)
        ensures
            r@ == (item@, false),
    {
        ItemRef { item, consumed: false }
    }

    /// Marks the item to be taken out of the inventory.
    pub fn consume(&mut self)
        ensures
            final(self)@ == (old(self)@.0, true),
    {
        self.consumed = true;
    }

    /// Undoes `consume`.
    pub fn restore(&mut self)
        ensures
            final(self)@ == (old(self)@.0, false),
    {
        self.consumed = false;
    }

    /// Whether the item was consumed.
    pub fn consumed(&self) -> (r: bool)
        ensures
            r == self@.1,
    {
        self.consumed
    }

    /// The name of the item.
    pub fn as_str(&self) -> (r: &str)
        ensures
            r@ == self@.0,
    {
        self.item.as_str()
    }
}

/// The behaviour of an object of a scene that the player can interact with.
pub trait Interactive {
    /// The game state type that the actions move between.
    type State;

    /// Called when an item is used on the object; by default the item does
    /// not work here.
    fn use_item(&mut self, state: &mut WorldState, item: &mut ItemRef<'_>) -> Vec<
        Action<Self::State>,
    > {
        invalid_item_used()
    }

    /// Called when the object is interacted with.
    fn interact(&mut self, state: &mut WorldState) -> Vec<Action<Self::State>>;
}

/// What the host world is asked to do after an interaction.
#[derive(Debug)]
pub enum Effect<State> {
    /// Show a message.
    Show(Message),
    /// Play the named animation.
    PlayAnimation(String),
    /// Play the named audio clip.
    PlayAudio(String),
    /// Change the game state.
    SetState(State),
    /// Move the camera to the named spot.
    MoveTo(String),
    /// Move the camera to the named spot without animation.
    JumpTo(String),
    /// Remember the entity that the camera moves to look at.
    LookAt(EntityId),
    /// Forget the entity that the camera was looking at.
    StopLooking,
}

/// An effect as plain values.
pub enum EffectView<State> {
    Show(MessageView),
    PlayAnimation(Seq<char>),
    PlayAudio(Seq<char>),
    SetState(State),
    MoveTo(Seq<char>),
    JumpTo(Seq<char>),
    LookAt(EntityId),
    StopLooking,
}

impl<State> View for Effect<State> {
    type V = EffectView<State>;

    open spec fn view(&self) -> EffectView<State> {
        match self {
            Effect::Show(m) => EffectView::Show(m@),
            Effect::PlayAnimation(n) => EffectView::PlayAnimation(n@),
            Effect::PlayAudio(n) => EffectView::PlayAudio(n@),
            Effect::SetState(s) => EffectView::SetState(*s),
            Effect::MoveTo(n) => EffectView::MoveTo(n@),
            Effect::JumpTo(n) => EffectView::JumpTo(n@),
            Effect::LookAt(e) => EffectView::LookAt(*e),
            Effect::StopLooking => EffectView::StopLooking,
        }
    }
}

/// The views of a sequence of effects.
pub open spec fn effect_views<State>(v: Seq<Effect<State>>) -> Seq<EffectView<State>> {
    v.map_values(|e: Effect<State>| e@)
}

/// The effect of one action: a picked-up item is announced, the rest is
/// passed on to the host world.
pub open spec fn effect_of<State>(a: ActionView<State>) -> EffectView<State> {
    match a {
        ActionView::AddItem(n) => EffectView::Show(MessageView::ItemPickup(n)),
        ActionView::Animation(n) => EffectView::PlayAnimation(n),
        ActionView::Audio(n) => EffectView::PlayAudio(n),
        ActionView::Message(m) => EffectView::Show(m),
        ActionView::Transition(s) => EffectView::SetState(s),
        ActionView::Move(n) => EffectView::MoveTo(n),
        ActionView::Jump(n) => EffectView::JumpTo(n),
    }
}

/// The names of the items that the actions add.
pub open spec fn added_items<State>(acts: Seq<ActionView<State>>) -> Set<Seq<char>>
    decreases acts.len(),
{
    if acts.len() == 0 {
        Set::empty()
    } else {
        let rest = added_items(acts.drop_last());
        match acts.last() {
            ActionView::AddItem(n) => rest.insert(n),
            _ => rest,
        }
    }
}

/// Carries out a list of actions in order: added items join the inventory,
/// and each action gives one effect for the host world.
pub fn apply_actions<State>(actions: Vec<Action<State>>, inventory: &mut Inventory) -> (r: Vec<
    Effect<State>,
>)
    requires
        old(inventory).wf(),
    ensures
        final(inventory).wf(),
        effect_views(r@) == action_views(actions@).map_values(|a: ActionView<State>| effect_of(a)),
        final(inventory)@ == old(inventory)@.union(added_items(action_views(actions@))),
{
    let ghost all = action_views(actions@);
    let ghost n = actions@.len();
    let mut rest = actions;
    let mut out: Vec<Effect<State>> = Vec::new();
    proof {
        assert(all.subrange(0, 0) =~= Seq::<ActionView<State>>::empty());
        assert(inventory@ =~= old(inventory)@.union(added_items(all.subrange(0, 0))));
        assert(rest@ =~= actions@.subrange(0, n as int));
    }
    while rest.len() > 0
        invariant
            inventory.wf(),
            all == action_views(actions@),
            n == actions@.len(),
            rest@.len() <= n,
            rest@ == actions@.subrange(n - rest@.len(), n as int),
            effect_views(out@) == all.subrange(0, n - rest@.len()).map_values(
                |a: ActionView<State>| effect_of(a),
            ),
            inventory@ == old(inventory)@.union(added_items(all.subrange(0, n - rest@.len()))),
        decreases rest@.len(),
    {
        let ghost k = n - rest@.len();
        let action = rest.remove(0);
        proof {
            assert(action == actions@[k]);
            assert(all[k] == action@);
            assert(all.subrange(0, k + 1).drop_last() =~= all.subrange(0, k));
            assert(all.subrange(0, k + 1).last() == action@);
            assert(rest@ =~= actions@.subrange(k + 1, n as int));
        }
        let ghost av = action@;
        let effect = match action {
            Action::AddItem(item) => {
                let shown = Effect::Show(Message::ItemPickup(item.clone()));
                inventory.insert(item);
                shown
            },
            Action::Animation(name) => Effect::PlayAnimation(name),
            Action::Audio(name) => Effect::PlayAudio(name),
            Action::Message(m) => Effect::Show(m),
            Action::Transition(s) => Effect::SetState(s),
            Action::Move(name) => Effect::MoveTo(name),
            Action::Jump(name) => Effect::JumpTo(name),
        };
        let ghost prev = effect_views(out@);
        out.push(effect);
        proof {
            assert(effect@ == effect_of(av));
            assert(effect_views(out@) =~= prev.push(effect@));
            assert(all.subrange(0, k + 1).map_values(|a: ActionView<State>| effect_of(a))
                =~= all.subrange(0, k).map_values(|a: ActionView<State>| effect_of(a)).push(
                effect_of(av),
            ));
            assert(inventory@ =~= old(inventory)@.union(added_items(all.subrange(0, k + 1))));
        }
    }
    proof {
        assert(all.subrange(0, n as int) =~= all);
    }
    out
}

} // verus!
