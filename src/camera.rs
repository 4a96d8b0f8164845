use vstd::prelude::*;
use vstd::string::StringExecFns;

use crate::entity::EntityId;

verus! {

/// The name of the camera spot that the player returns to by default.
pub const MAIN_CAMERA: &'static str = "Camera_Main";

/// The text put before an interactive's name to name its camera spot.
pub const SPOT_PREFIX: &'static str = "Camera_";

/// Marks a camera spot with the spot that "back" leads to from there; it
/// overrides `BackToState`.
#[derive(Debug)]
pub struct BackToSpot {
    /// The name of the target spot.
    pub name: String,
}

impl BackToSpot {
    /// Back leads to the spot with this name.
    pub fn new(name: &str) -> (r: BackToSpot)
        ensures
            r.name@ == name@,
    {
        BackToSpot { name: name.to_owned() }
    }
}

/// Marks a camera spot with the game state that "back" leads to from there.
#[derive(Debug)]
pub struct BackToState<S> {
    /// The state to go back to.
    pub state: S,
}

impl<S> BackToState<S> {
    /// Back leads to this state.
    pub fn new(state: S) -> (r: BackToState<S>)
        ensures
            r.state == state,
    {
        BackToState { state }
    }
}

/// The names of the entities that cannot be hovered from a camera spot.
pub struct Ignores {
    /// The names of the entities to ignore.
    pub names: Vec<String>,
}

impl Ignores {
    /// Ignores the entities with these names.
    pub fn new(names: Vec<&str>) -> (r: Ignores)
        ensures
            r.names@.len() == names@.len(),
            forall|i: int| 0 <= i < names@.len() ==> #[trigger] r.names@[i]@ == names@[i]@,
    {
        let mut out: Vec<String> = Vec::new();
        let mut i: usize = 0;
        while i < names.len()
            invariant
                i <= names@.len(),
                out@.len() == i,
                forall|j: int| 0 <= j < i ==> #[trigger] out@[j]@ == names@[j]@,
            decreases names@.len() - i,
        {
            out.push(names[i].to_owned());
            i = i + 1;
        }
        Ignores { names: out }
    }

    /// Ignores the entities with this one name.
    pub fn single(name: &str) -> (r: Ignores)
        ensures
            r.names@.len() == 1,
            r.names@[0]@ == name@,
    {
        let mut v: Vec<&str> = Vec::new();
        v.push(name);
        Ignores::new(v)
    }
}

/// The spot that the camera moves to next.
pub struct NextSpot(pub String);

/// Asks the camera to jump to the next spot without animation.
pub struct SkipAnimation;

/// A camera spot as plain values: its name, its entity and its transform.
pub struct SpotView<T> {
    pub name: Seq<char>,
    pub entity: EntityId,
    pub transform: T,
}

/// A place where the camera can stand.
pub struct CameraSpot<T> {
    name: String,
    entity: EntityId,
    transform: T,
}

impl<T> View for CameraSpot<T> {
    type V = SpotView<T>;

    closed spec fn view(&self) -> SpotView<T> {
        SpotView { name: self.name@, entity: self.entity, transform: self.transform }
    }
}

impl<T: Copy> CameraSpot<T> {
    /// The spot with this name, entity and transform.
    pub fn new(name: &str, entity: EntityId, transform: T) -> (r: CameraSpot<T>)
        ensures
            r@ == (SpotView { name: name@, entity, transform }),
    {
        CameraSpot { name: name.to_owned(), entity, transform }
    }

    /// The name of the spot.
    pub fn name(&self) -> (r: &str)
        ensures
            r@ == self@.name,
    {
        self.name.as_str()
    }

    /// The entity that stands for the spot.
    pub fn entity(&self) -> (r: EntityId)
        ensures
            r == self@.entity,
    {
        self.entity
    }

    /// Changes the entity of the spot.
    pub fn set_entity(&mut self, entity: EntityId)
        ensures
            final(self)@ == (SpotView { entity, ..old(self)@ }),
    {
        self.entity = entity;
    }

    /// The transform of the spot.
    pub fn transform(&self) -> (r: T)
        ensures
            r == self@.transform,
    {
        self.transform
    }
}

/// The camera spot that the player is at, once a scene has set one.
pub struct CurrentSpot<T> {
    spot: Option<CameraSpot<T>>,
}

impl<T> View for CurrentSpot<T> {
    type V = Option<SpotView<T>>;

    closed spec fn view(&self) -> Option<SpotView<T>> {
        match self.spot {
            Some(s) => Some(s@),
            None => None,
        }
    }
}

impl<T: Copy> CurrentSpot<T> {
    /// No spot yet.
    pub fn empty() -> (r: CurrentSpot<T>)
        ensures
            r@ is None,
    {
        CurrentSpot { spot: None }
    }

    /// The player is at `spot`.
    pub fn new(spot: CameraSpot<T>) -> (r: CurrentSpot<T>)
        ensures
            r@ == Some(spot@),
    {
        CurrentSpot { spot: Some(spot) }
    }

    /// The spot the player is at.
    pub fn get(&self) -> (r: &CameraSpot<T>)
        requires
            self@ is Some,
        ensures
            Some(r@) == self@,
    {
        self.spot.as_ref().unwrap()
    }

    /// The name of the spot the player is at.
    pub fn name(&self) -> (r: &str)
        requires
            self@ is Some,
        ensures
            r@ == self@->0.name,
    {
        self.get().name()
    }

    /// Whether a spot is set.
    pub fn is_some(&self) -> (r: bool)
        ensures
            r == self@ is Some,
    {
        self.spot.is_some()
    }
}

/// A named entity of the world.
pub struct NamedEntity {
    pub entity: EntityId,
    pub name: String,
}

/// A camera spot as it stands in the world.
pub struct SpotEntity<T> {
    pub entity: EntityId,
    pub name: String,
    pub transform: T,
}

/// Whether `i` is the first position in `s` where `p` occurs.
pub open spec fn first_at(s: Seq<char>, p: Seq<char>, i: int) -> bool {
    &&& 0 <= i && i + p.len() <= s.len()
    &&& s.subrange(i, i + p.len()) == p
    &&& forall|j: int| 0 <= j < i ==> #[trigger] s.subrange(j, j + p.len()) != p
}

/// The first position in `s` where `p` occurs, if any.
pub open spec fn first_occurrence(s: Seq<char>, p: Seq<char>) -> Option<int> {
    if exists|i: int| first_at(s, p, i) {
        Some(choose|i: int| first_at(s, p, i))
    } else {
        None
    }
}

/// What follows the first occurrence of `p` in `s`, if `p` occurs.
pub open spec fn after_first(s: Seq<char>, p: Seq<char>) -> Option<Seq<char>> {
    match first_occurrence(s, p) {
        Some(i) => Some(s.subrange(i + p.len(), s.len() as int)),
        None => None,
    }
}

/// Relies on `str::split_once`: it splits at the first occurrence of the
/// delimiter, or gives `None` when there is none.
#[verifier::external_body]
fn split_once<'a>(s: &'a str, delim: &str) -> (r: Option<(&'a str, &'a str)>)
    ensures
        match r {
            Some(parts) => first_occurrence(s@, delim@) matches Some(i) && parts.0@ == s@.subrange(
                0,
                i,
            ) && parts.1@ == s@.subrange(i + delim@.len(), s@.len() as int),
            None => first_occurrence(s@, delim@) is None,
        },
{
    s.split_once(delim)
}

/// The position of the first spot named `name`, if any.
pub open spec fn spot_index<T>(spots: Seq<SpotEntity<T>>, name: Seq<char>) -> Option<int> {
    if exists|i: int| 0 <= i < spots.len() && spots[i].name@ == name && forall|j: int|
        0 <= j < i ==> #[trigger] spots[j].name@ != name {
        Some(
            choose|i: int|
                0 <= i < spots.len() && spots[i].name@ == name && forall|j: int|
                    0 <= j < i ==> #[trigger] spots[j].name@ != name,
        )
    } else {
        None
    }
}

/// The position of the first named entity that is `e`, if any.
pub open spec fn named_index(named: Seq<NamedEntity>, e: EntityId) -> Option<int> {
    if exists|i: int| 0 <= i < named.len() && named[i].entity == e && forall|j: int|
        0 <= j < i ==> #[trigger] named[j].entity != e {
        Some(
            choose|i: int|
                0 <= i < named.len() && named[i].entity == e && forall|j: int|
                    0 <= j < i ==> #[trigger] named[j].entity != e,
        )
    } else {
        None
    }
}

/// The position of the first named entity called `name`, if any.
pub open spec fn name_index(named: Seq<NamedEntity>, name: Seq<char>) -> Option<int> {
    if exists|i: int| 0 <= i < named.len() && named[i].name@ == name && forall|j: int|
        0 <= j < i ==> #[trigger] named[j].name@ != name {
        Some(
            choose|i: int|
                0 <= i < named.len() && named[i].name@ == name && forall|j: int|
                    0 <= j < i ==> #[trigger] named[j].name@ != name,
        )
    } else {
        None
    }
}

/// The spot of an interactive is named by its name after `SPOT_PREFIX`.
pub open spec fn spot_name_for(name: Seq<char>) -> Seq<char> {
    SPOT_PREFIX@ + name
}

/// The camera spots of a scene and its other named entities.
pub struct CameraSpots<T> {
    /// Named entities that are not camera spots.
    pub named: Vec<NamedEntity>,
    /// The camera spots.
    pub spots: Vec<SpotEntity<T>>,
}

impl<T: Copy> CameraSpots<T> {
    /// The spot of this name, as the view of a `CameraSpot`.
    pub open spec fn spot_spec(&self, name: Seq<char>) -> Option<SpotView<T>> {
        match spot_index(self.spots@, name) {
            Some(i) => Some(
                SpotView {
                    name: self.spots@[i].name@,
                    entity: self.spots@[i].entity,
                    transform: self.spots@[i].transform,
                },
            ),
            None => None,
        }
    }

    /// The spot of the interactive `e`, found through its name.
    pub open spec fn for_interactive_spec(&self, e: EntityId) -> Option<SpotView<T>> {
        match named_index(self.named@, e) {
            Some(i) => self.spot_spec(spot_name_for(self.named@[i].name@)),
            None => None,
        }
    }

    /// The interactive that a spot belongs to, found through the spot's name.
    pub open spec fn for_spot_spec(&self, spot_name: Seq<char>) -> Option<EntityId> {
        match after_first(spot_name, SPOT_PREFIX@) {
            Some(target) => match name_index(self.named@, target) {
                Some(i) => Some(self.named@[i].entity),
                None => None,
            },
            None => None,
        }
    }

    /// Spots and named entities as given.
    pub fn new(named: Vec<NamedEntity>, spots: Vec<SpotEntity<T>>) -> (r: CameraSpots<T>)
        ensures
            r.named == named,
            r.spots == spots,
    {
        CameraSpots { named, spots }
    }

    /// The first spot with the given name.
    pub fn get(&self, spot: &str) -> (r: Option<CameraSpot<T>>)
        ensures
            match r {
                Some(c) => self.spot_spec(spot@) == Some(c@),
                None => self.spot_spec(spot@) is None,
            },
    {
        let key = spot.to_owned();
        let mut i: usize = 0;
        while i < self.spots.len()
            invariant
                i <= self.spots@.len(),
                key@ == spot@,
                forall|j: int| 0 <= j < i ==> #[trigger] self.spots@[j].name@ != spot@,
            decreases self.spots@.len() - i,
        {
            let s = &self.spots[i];
            if s.name == key {
                let ghost k = i as int;
                assert(0 <= k < self.spots@.len() && self.spots@[k].name@ == spot@ && forall|j: int|
                    0 <= j < k ==> #[trigger] self.spots@[j].name@ != spot@);
                return Some(
                    CameraSpot { name: s.name.clone(), entity: s.entity, transform: s.transform },
                );
            }
            i = i + 1;
        }
        None
    }

    /// The position of the named entity `e`.
    fn find_entity(&self, e: EntityId) -> (r: Option<usize>)
        ensures
            match r {
                Some(i) => named_index(self.named@, e) == Some(i as int) && i < self.named@.len(),
                None => named_index(self.named@, e) is None,
            },
    {
        let mut i: usize = 0;
        while i < self.named.len()
            invariant
                i <= self.named@.len(),
                forall|j: int| 0 <= j < i ==> #[trigger] self.named@[j].entity != e,
            decreases self.named@.len() - i,
        {
            if self.named[i].entity == e {
                let ghost k = i as int;
                assert(0 <= k < self.named@.len() && self.named@[k].entity == e && forall|j: int|
                    0 <= j < k ==> #[trigger] self.named@[j].entity != e);
                return Some(i);
            }
            i = i + 1;
        }
        None
    }

    /// The position of the first named entity called `name`.
    fn find_name(&self, name: &str) -> (r: Option<usize>)
        ensures
            match r {
                Some(i) => name_index(self.named@, name@) == Some(i as int) && i < self.named@.len(),
                None => name_index(self.named@, name@) is None,
            },
    {
        let key = name.to_owned();
        let mut i: usize = 0;
        while i < self.named.len()
            invariant
                i <= self.named@.len(),
                key@ == name@,
                forall|j: int| 0 <= j < i ==> #[trigger] self.named@[j].name@ != name@,
            decreases self.named@.len() - i,
        {
            if self.named[i].name == key {
                let ghost k = i as int;
                assert(0 <= k < self.named@.len() && self.named@[k].name@ == name@ && forall|j: int|
                    0 <= j < k ==> #[trigger] self.named@[j].name@ != name@);
                return Some(i);
            }
            i = i + 1;
        }
        None
    }

    /// The spot of an interactive: the spot named `SPOT_PREFIX` followed by
    /// the interactive's name.
    pub fn for_interactive(&self, entity: EntityId) -> (r: Option<CameraSpot<T>>)
        ensures
            match r {
                Some(c) => self.for_interactive_spec(entity) == Some(c@),
                None => self.for_interactive_spec(entity) is None,
            },
    {
        match self.find_entity(entity) {
            Some(i) => {
                let mut key = String::from_str(SPOT_PREFIX);
                key.append(self.named[i].name.as_str());
                self.get(key.as_str())
            },
            None => None,
        }
    }

    /// The interactive whose name follows `SPOT_PREFIX` in the spot's name.
    pub fn for_spot(&self, spot: &CameraSpot<T>) -> (r: Option<EntityId>)
        ensures
            r == self.for_spot_spec(spot@.name),
    {
        match split_once(spot.name(), SPOT_PREFIX) {
            Some(parts) => match self.find_name(parts.1) {
                Some(i) => Some(self.named[i].entity),
                None => None,
            },
            None => None,
        }
    }
}

/// The spot that the camera moves to this frame: none until the scene has
/// finished loading (`ready`), then the spot named by `next`, when there is
/// such a spot.
pub fn resolve_next_spot<T: Copy>(ready: bool, next: Option<&NextSpot>, spots: &CameraSpots<T>) -> (r: Option<CameraSpot<T>>)
    ensures
        !ready || next is None ==> r is None,
        ready ==> (next matches Some(n) ==> match r {
            Some(c) => spots.spot_spec(n.0@) == Some(c@),
            None => spots.spot_spec(n.0@) is None,
        }),
{
    if !ready {
        return None;
    }
    match next {
        Some(n) => spots.get(n.0.as_str()),
        None => None,
    }
}

/// Sends the camera to `spot`: its tween aims at the spot's transform, it
/// stands there at once when `skip`, and the spot becomes the current one.
pub fn move_camera<T: Copy>(
    spot: CameraSpot<T>,
    skip: bool,
    transform: &mut T,
    tween: &mut crate::animation::Tween<T>,
    current: &mut CurrentSpot<T>,
)
    ensures
        final(tween).target == spot@.transform,
        *final(transform) == if skip { spot@.transform } else { *old(transform) },
        final(current)@ == Some(spot@),
{
    if skip {
        *transform = spot.transform();
    }
    tween.target = spot.transform();
    *current = CurrentSpot::new(spot);
}

} // verus!
