use vstd::prelude::*;

use crate::actions::{
    action_views, added_items, apply_actions, effect_of, effect_views, ActionView, Effect,
    EffectView, Interactive, ItemRef,
};
use crate::camera::{BackToSpot, BackToState, CameraSpots, CurrentSpot, Ignores, SpotView, MAIN_CAMERA};
use crate::commands::{entities_of, string_views, with_any_name, CommandsExt};
use crate::entity::{component_index, component_of, contains_entity, EntityId};
use crate::inventory::{DraggingItem, Inventory, Item};
use crate::state::WorldState;

verus! {

/// Where a click stands in the frame that handles it.
#[derive(Clone, Copy, Debug, PartialEq, Eq, Structural)]
pub enum State {
    /// Nothing has handled the click yet.
    Ready,
    /// The click was seen.
    Prepared,
    /// The click is on the scene and waits for an interactive to take it.
    Interact,
    /// The click was used up.
    Complete,
}

/// The progress of the current click; reset at the start of every frame.
#[derive(Debug)]
pub struct Interaction {
    state: State,
}

impl View for Interaction {
    type V = State;

    closed spec fn view(&self) -> State {
        self.state
    }
}

impl Interaction {
    /// A fresh frame: nothing handled yet.
    pub fn new() -> (r: Interaction)
        ensures
            r@ == State::Ready,
    {
        Interaction { state: State::Ready }
    }

    /// Moves from `Ready` to `Prepared`; false, with no change, from any other state.
    pub fn ready(&mut self) -> (r: bool)
        ensures
            r == (old(self)@ == State::Ready),
            final(self)@ == if r { State::Prepared } else { old(self)@ },
    {
        if let State::Ready = self.state {
            self.state = State::Prepared;
            true
        } else {
            false
        }
    }

    /// Moves from `Prepared` to `Interact`; false, with no change, from any other state.
    pub fn begin(&mut self) -> (r: bool)
        ensures
            r == (old(self)@ == State::Prepared),
            final(self)@ == if r { State::Interact } else { old(self)@ },
    {
        if let State::Prepared = self.state {
            self.state = State::Interact;
            true
        } else {
            false
        }
    }

    /// Where the click stands.
    pub fn state(&self) -> (r: State)
        ensures
            r == self@,
    {
        self.state
    }

    /// Whether a click waits for an interactive.
    pub fn ok(&self) -> (r: bool)
        ensures
            r == (self@ == State::Interact),
    {
        matches!(self.state, State::Interact)
    }

    /// The click is used up.
    pub fn done(&mut self)
        ensures
            final(self)@ == State::Complete,
    {
        self.state = State::Complete;
    }

    /// Hands a waiting click to the hovered entity when it is an interactive
    /// (`hovered_is_interactive` says whether it is); the click is then used up.
    pub fn claim(&mut self, hovering: &Hovering, hovered_is_interactive: bool) -> (r: Option<EntityId>)
        ensures
            if old(self)@ == State::Interact && hovering.entity is Some && hovered_is_interactive {
                r == hovering.entity && final(self)@ == State::Complete
            } else {
                r is None && final(self)@ == old(self)@
            },
    {
        if self.ok() {
            if let Some(entity) = hovering.entity {
                if hovered_is_interactive {
                    self.done();
                    return Some(entity);
                }
            }
        }
        None
    }
}

/// The entity that the camera moved to look at.
#[derive(Clone, Copy, Debug, PartialEq, Eq, Structural)]
pub struct LookingAt(pub EntityId);

/// The entity under the cursor, if any; it need not be an interactive.
#[derive(Clone, Copy, Debug, PartialEq, Eq, Structural)]
pub struct Hovering {
    /// The entity.
    pub entity: Option<EntityId>,
}

/// The spot that "back" leads to from `here`: the one marked on the spot
/// itself, else the one marked on the interactive that the spot belongs to.
pub open spec fn back_spot_name<T: Copy>(
    here: SpotView<T>,
    spots: CameraSpots<T>,
    back_spots: Seq<(EntityId, BackToSpot)>,
) -> Option<Seq<char>> {
    match component_index(back_spots, here.entity) {
        Some(i) => Some(back_spots[i].1.name@),
        None => match spots.for_spot_spec(here.name) {
            Some(e) => match component_index(back_spots, e) {
                Some(j) => Some(back_spots[j].1.name@),
                None => None,
            },
            None => None,
        },
    }
}

/// Reacts to the mouse button at the start of a frame. A click on the scene
/// (`in_scene`) is left for the interactives. A click outside it, when no
/// item is dragged, goes back: to the spot marked by `BackToSpot` if there
/// is one, else to the main spot, changing the game state first where the
/// current spot has a `BackToState`.
pub fn prepare_interaction<S: Clone, T: Copy>(
    interaction: &mut Interaction,
    released: bool,
    in_scene: bool,
    dragging: &DraggingItem,
    current: &CurrentSpot<T>,
    spots: &CameraSpots<T>,
    back_spots: &Vec<(EntityId, BackToSpot)>,
    back_states: &Vec<(EntityId, BackToState<S>)>,
) -> (r: Vec<Effect<S>>)
    requires
        old(interaction)@ == State::Ready && released && !in_scene && !dragging.is_dragging()
            ==> current@ is Some,
    ensures
        ({
            let before = old(interaction)@;
            let after = final(interaction)@;
            &&& before != State::Ready ==> r@.len() == 0 && after == before
            &&& before == State::Ready && !released ==> r@.len() == 0 && after == State::Prepared
            &&& before == State::Ready && released && in_scene ==> r@.len() == 0 && after
                == State::Interact
            &&& before == State::Ready && released && !in_scene && dragging.is_dragging()
                ==> r@.len() == 0 && after == State::Prepared
        }),
        old(interaction)@ == State::Ready && released && !in_scene && !dragging.is_dragging() ==> {
            let here = current@->0;
            &&& final(interaction)@ == State::Complete
            &&& match back_spot_name(here, *spots, back_spots@) {
                Some(name) => effect_views(r@) == seq![
                    EffectView::<S>::MoveTo(name),
                    EffectView::<S>::StopLooking,
                ],
                None => match component_index(back_states@, here.entity) {
                    Some(i) => {
                        &&& effect_views(r@).len() == 3
                        &&& effect_views(r@)[0] matches EffectView::SetState(s) && cloned::<S>(
                            back_states@[i].1.state,
                            s,
                        )
                        &&& effect_views(r@)[1] == EffectView::<S>::MoveTo(MAIN_CAMERA@)
                        &&& effect_views(r@)[2] == EffectView::<S>::StopLooking
                    },
                    None => effect_views(r@) == seq![
                        EffectView::<S>::MoveTo(MAIN_CAMERA@),
                        EffectView::<S>::StopLooking,
                    ],
                },
            }
        },
{
    let mut out: Vec<Effect<S>> = Vec::new();
    if interaction.ready() {
        if released {
            if in_scene {
                interaction.begin();
            } else if !dragging.is_dragging() {
                interaction.done();
                let here = current.get();
                let back = match component_of(back_spots, here.entity()) {
                    Some(b) => Some(b),
                    None => match spots.for_spot(here) {
                        Some(looking_at) => component_of(back_spots, looking_at),
                        None => None,
                    },
                };
                match back {
                    Some(spot) => {
                        out.push(Effect::MoveTo(spot.name.clone()));
                    },
                    None => {
                        if let Some(b) = component_of(back_states, here.entity()) {
                            out.push(Effect::SetState(b.state.clone()));
                        }
                        out.push(Effect::MoveTo(MAIN_CAMERA.to_owned()));
                    },
                }
                out.push(Effect::StopLooking);
                proof {
                    if back_spot_name(current@->0, *spots, back_spots@) is Some {
                        assert(effect_views(out@) =~= seq![
                            EffectView::<S>::MoveTo(back_spot_name(current@->0, *spots, back_spots@)->0),
                            EffectView::<S>::StopLooking,
                        ]);
                    } else if component_index(back_states@, current@->0.entity) is None {
                        assert(effect_views(out@) =~= seq![
                            EffectView::<S>::MoveTo(MAIN_CAMERA@),
                            EffectView::<S>::StopLooking,
                        ]);
                    }
                }
            }
        }
    }
    out
}

/// Whether the camera must first move to the spot of interactive `entity`
/// before the player can use it: it has a spot, and that is not where the
/// player stands.
pub open spec fn must_approach<T: Copy>(
    entity: EntityId,
    spots: CameraSpots<T>,
    current: Option<SpotView<T>>,
) -> bool {
    spots.for_interactive_spec(entity) matches Some(spot) && spot.entity != current->0.entity
}

/// The actions `acts` were carried out, after the dragged item `src` was
/// consumed if `consumed`: they gave `effects` and turned the inventory
/// `before` into `after`.
pub open spec fn carried_out<S>(
    acts: Seq<ActionView<S>>,
    consumed: bool,
    src: Option<Item>,
    before: Set<Seq<char>>,
    effects: Seq<EffectView<S>>,
    after: Set<Seq<char>>,
) -> bool {
    &&& (src is None ==> !consumed)
    &&& effects == acts.map_values(|a: ActionView<S>| effect_of(a))
    &&& after == (if consumed {
        before.remove(src->0@)
    } else {
        before
    }).union(added_items(acts))
}

/// Uses the interactive `entity` that took the click. If the camera is not
/// at the interactive's spot it moves there and looks at it. Otherwise the
/// dragged item, if any, is used on it (and leaves the inventory when it is
/// consumed), or else it is interacted with, and its actions are carried out.
pub fn interactive<I: Interactive, T: Copy>(
    entity: EntityId,
    target: &mut I,
    spots: &CameraSpots<T>,
    current: &CurrentSpot<T>,
    dragging: &DraggingItem,
    inventory: &mut Inventory,
    state: &mut WorldState,
) -> (r: Vec<Effect<I::State>>)
    requires
        old(inventory).wf(),
        spots.for_interactive_spec(entity) is Some ==> current@ is Some,
    ensures
        final(inventory).wf(),
        must_approach(entity, *spots, current@) ==> {
            &&& effect_views(r@) == seq![
                EffectView::<I::State>::MoveTo(spots.for_interactive_spec(entity)->0.name),
                EffectView::<I::State>::LookAt(entity),
            ]
            &&& final(inventory)@ == old(inventory)@
            &&& final(state)@ == old(state)@
            &&& *final(target) == *old(target)
        },
        !must_approach(entity, *spots, current@) ==> exists|
            acts: Seq<ActionView<I::State>>,
            consumed: bool,
        |
            #[trigger] carried_out(
                acts,
                consumed,
                dragging.src,
                old(inventory)@,
                effect_views(r@),
                final(inventory)@,
            ),
{
    if let Some(spot) = spots.for_interactive(entity) {
        if current.get().entity() != spot.entity() {
            let mut out: Vec<Effect<I::State>> = Vec::new();
            out.push(Effect::MoveTo(spot.name().to_owned()));
            out.push(Effect::LookAt(entity));
            proof {
                assert(effect_views(out@) =~= seq![
                    EffectView::<I::State>::MoveTo(spots.for_interactive_spec(entity)->0.name),
                    EffectView::<I::State>::LookAt(entity),
                ]);
            }
            return out;
        }
    }
    let ghost consumed = false;
    let actions = match &dragging.src {
        Some(dragged) => {
            let mut item = ItemRef::new(dragged);
            let actions = target.use_item(state, &mut item);
            if item.consumed() {
                inventory.remove(dragged);
                proof {
                    consumed = true;
                }
            }
            actions
        },
        None => target.interact(state),
    };
    let ghost acts = action_views(actions@);
    let out = apply_actions(actions, inventory);
    proof {
        assert(carried_out(
            acts,
            consumed,
            dragging.src,
            old(inventory)@,
            effect_views(out@),
            inventory@,
        ));
    }
    out
}

/// The entities that cannot be hovered from the current spot: those named
/// by the `Ignores` of the spot, then those named by the `Ignores` of the
/// interactive that the spot belongs to.
pub fn hover_ignores<T: Copy>(
    commands: &CommandsExt,
    spots: &CameraSpots<T>,
    current: &CurrentSpot<T>,
    ignores: &Vec<(EntityId, Ignores)>,
) -> (r: Vec<EntityId>)
    requires
        current@ is Some,
    ensures
        ({
            let here = current@->0;
            let own = match component_index(ignores@, here.entity) {
                Some(i) => entities_of(with_any_name(commands.entries@, string_views(ignores@[i].1.names@))),
                None => Seq::empty(),
            };
            let looked = match spots.for_spot_spec(here.name) {
                Some(e) => match component_index(ignores@, e) {
                    Some(j) => entities_of(with_any_name(commands.entries@, string_views(ignores@[j].1.names@))),
                    None => Seq::empty(),
                },
                None => Seq::empty(),
            };
            r@ == own + looked
        }),
{
    let here = current.get();
    let mut out: Vec<EntityId> = Vec::new();
    if let Some(ignored) = component_of(ignores, here.entity()) {
        out = commands.named_any(&ignored.names);
    }
    let ghost own = out@;
    if let Some(looking_at) = spots.for_spot(here) {
        if let Some(ignored) = component_of(ignores, looking_at) {
            let mut more = commands.named_any(&ignored.names);
            out.append(&mut more);
        }
    }
    proof {
        assert(out@ =~= own + (out@.subrange(own.len() as int, out@.len() as int)));
        if spots.for_spot_spec(current@->0.name) is None || component_index(ignores@, spots.for_spot_spec(current@->0.name)->0) is None {
            assert(out@ =~= own + Seq::<EntityId>::empty());
        }
    }
    out
}

/// Whether the ray under the cursor may stop at `entity`.
pub fn hoverable(ignored: &Vec<EntityId>, entity: EntityId) -> (r: bool)
    ensures
        r == !ignored@.contains(entity),
{
    !contains_entity(ignored, entity)
}

} // verus!
