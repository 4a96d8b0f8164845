use vstd::prelude::*;

use crate::camera::{CameraSpot, SpotView, MAIN_CAMERA};
use crate::entity::EntityId;

verus! {

/// What loading a scene does with one of its entities.
pub struct HookPlan<T> {
    /// The spot that becomes the current one: the main camera's.
    pub main_spot: Option<CameraSpot<T>>,
    /// The entity's camera is taken off and the entity becomes a camera spot.
    pub make_spot: bool,
    /// The entity's light is made to cast shadows.
    pub enable_shadows: bool,
}

/// Decides what loading a scene does with an entity: every camera of the
/// scene becomes a camera spot, the one named `MAIN_CAMERA` also becomes
/// the current spot (and the live camera takes its transform), and every
/// point light casts shadows.
pub fn scene_hook<T: Copy>(
    entity: EntityId,
    has_camera: bool,
    name: Option<&str>,
    transform: Option<T>,
    has_light: bool,
) -> (r: HookPlan<T>)
    requires
        has_camera && name is Some && name->0@ == MAIN_CAMERA@ ==> transform is Some,
    ensures
        r.make_spot == has_camera,
        r.enable_shadows == has_light,
        has_camera && name is Some && name->0@ == MAIN_CAMERA@ ==> (r.main_spot matches Some(s)
            && s@ == (SpotView { name: MAIN_CAMERA@, entity, transform: transform->0 })),
        !(has_camera && name is Some && name->0@ == MAIN_CAMERA@) ==> r.main_spot is None,
{
    let mut main_spot: Option<CameraSpot<T>> = None;
    if has_camera {
        if let Some(n) = name {
            if n.to_owned() == MAIN_CAMERA.to_owned() {
                main_spot = Some(CameraSpot::new(n, entity, transform.unwrap()));
            }
        }
    }
    HookPlan { main_spot, make_spot: has_camera, enable_shadows: has_light }
}

} // verus!
