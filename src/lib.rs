//! Point-and-click adventure mechanics: interactive objects, camera spots,
//! inventory, item recipes, messages and animation queues, modelled on plain
//! values so that the decisions can be proved.
use vstd::prelude::*;

pub mod actions;
pub mod animation;
pub mod camera;
pub mod commands;
pub mod entity;
pub mod interaction;
pub mod inventory;
pub mod message;
pub mod scene;
pub mod simple;
pub mod state;

pub use crate::actions::{invalid_item_used, Action, Effect, Interactive, ItemRef};
pub use crate::animation::{AnimationQueue, AnimationRegistry, AudioRegistry, ClipRegistry, Tween};
pub use crate::camera::{
    BackToSpot, BackToState, CameraSpot, CameraSpots, CurrentSpot, Ignores, NamedEntity, NextSpot,
    SkipAnimation, SpotEntity, MAIN_CAMERA,
};
pub use crate::commands::CommandsExt;
pub use crate::entity::{EntityId, EntityMap};
pub use crate::interaction::{Hovering, Interaction, LookingAt};
pub use crate::inventory::{handle_combine, DraggingItem, Inventory, Item, Recipes};
pub use crate::message::{Message, NewMessage};
pub use crate::simple::{Description, MoveTo, NoState, Portal, Prop, Simple, Trigger};
pub use crate::state::WorldState;

verus! {

} // verus!
