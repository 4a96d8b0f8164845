use vstd::hash_map::StringHashMap;
use vstd::prelude::*;
use vstd::string::{StrSliceExecFns, StringExecFns};

use crate::entity::{contains_entity, EntityId, EntityMap};

verus! {

/// Makes an entity move towards a target value over time.
#[derive(Debug)]
pub struct Tween<T> {
    pub target: T,
}

impl<T> Tween<T> {
    /// A tween towards `target`.
    pub fn new(target: T) -> (r: Tween<T>)
        ensures
            r.target == target,
    {
        Tween { target }
    }
}

/// Clips known by name; each name stands for the handle of a loaded clip,
/// given as a number that the host maps back to the handle.
pub struct ClipRegistry {
    map: StringHashMap<u64>,
}

/// The registry of named animation clips.
pub type AnimationRegistry = ClipRegistry;

/// The registry of named audio clips.
pub type AudioRegistry = ClipRegistry;

impl View for ClipRegistry {
    type V = Map<Seq<char>, u64>;

    closed spec fn view(&self) -> Map<Seq<char>, u64> {
        self.map@
    }
}

impl ClipRegistry {
    /// An empty registry.
    pub fn new() -> (r: ClipRegistry)
        ensures
            r@ == Map::<Seq<char>, u64>::empty(),
    {
        ClipRegistry { map: StringHashMap::new() }
    }

    /// Registers `handle` under `name`, replacing an earlier one.
    pub fn insert(&mut self, name: &str, handle: u64)
        ensures
            final(self)@ == old(self)@.insert(name@, handle),
    {
        self.map.insert(name.to_owned(), handle);
    }

    /// The handle registered under `name`, if any.
    pub fn get(&self, name: &str) -> (r: Option<u64>)
        ensures
            r is Some <==> self@.contains_key(name@),
            r is Some ==> r->0 == self@[name@],
    {
        match self.map.get(name) {
            Some(h) => Some(*h),
            None => None,
        }
    }
}

/// The position of the last `c` in `s`, if any.
pub open spec fn last_index_of(s: Seq<char>, c: char) -> Option<int> {
    if exists|i: int| 0 <= i < s.len() && s[i] == c {
        Some(choose|i: int| 0 <= i < s.len() && s[i] == c && forall|j: int| i < j < s.len() ==> #[trigger] s[j] != c)
    } else {
        None
    }
}

/// The scene file of a scene path: what stands before its last `#`, or the
/// whole path when it has none.
pub open spec fn scene_file(path: Seq<char>) -> Seq<char> {
    match last_index_of(path, '#') {
        Some(i) => path.subrange(0, i),
        None => path,
    }
}

/// The asset path of the animation `name` in the scene at `path`.
pub open spec fn animation_path_spec(path: Seq<char>, name: Seq<char>) -> Seq<char> {
    scene_file(path) + seq!['#'] + name
}

/// The asset path of the animation `name` stored in the scene file of the
/// scene at `scene`: the part of the path before its last `#`, then `#`,
/// then the name.
pub fn animation_path(scene: &str, name: &str) -> (r: String)
    ensures
        r@ == animation_path_spec(scene@, name@),
{
    let n = scene.unicode_len();
    let mut i: usize = n;
    let mut found = false;
    while i > 0
        invariant_except_break
            !found,
            i <= n,
            n == scene@.len(),
            forall|j: int| i <= j < n ==> #[trigger] scene@[j] != '#',
        ensures
            i <= n,
            n == scene@.len(),
            found ==> i < n && scene@[i as int] == '#' && forall|j: int| i < j < n ==> #[trigger] scene@[j] != '#',
            !found ==> forall|j: int| 0 <= j < n ==> #[trigger] scene@[j] != '#',
        decreases i,
    {
        if scene.get_char(i - 1) == '#' {
            i = i - 1;
            found = true;
            break;
        }
        i = i - 1;
    }
    let file = if found {
        proof {
            let k = choose|k: int| 0 <= k < scene@.len() && scene@[k] == '#' && forall|j: int| k < j < scene@.len() ==> #[trigger] scene@[j] != '#';
            if k < i {
                assert(scene@[i as int] != '#');
            }
            if k > i {
                assert(scene@[k] != '#');
            }
        }
        scene.substring_char(0, i)
    } else {
        scene
    };
    assert(file@ == scene_file(scene@));
    let mut r = String::from_str(file);
    r.append("#");
    r.append(name);
    proof {
        reveal_strlit("#");
        assert(r@ =~= animation_path_spec(scene@, name@));
    }
    r
}

/// What an animation queue holds: the clips waiting on each entity, the
/// last one to play first, and the clip each entity is playing.
pub struct QueueView {
    pub queued: Map<EntityId, Seq<u64>>,
    pub playing: Map<EntityId, u64>,
}

/// The queue `q` after `clip` was pushed for entity `e`.
pub open spec fn pushed(q: Map<EntityId, Seq<u64>>, e: EntityId, clip: u64) -> Map<EntityId, Seq<u64>> {
    q.insert(e, if q.contains_key(e) { q[e] } else { Seq::empty() }.push(clip))
}

/// The queue `q` after `clip` was pushed for each of `targets` in order.
pub open spec fn pushed_all(q: Map<EntityId, Seq<u64>>, targets: Seq<EntityId>, clip: u64) -> Map<EntityId, Seq<u64>>
    decreases targets.len(),
{
    if targets.len() == 0 {
        q
    } else {
        pushed(pushed_all(q, targets.drop_last(), clip), targets.last(), clip)
    }
}

/// Animation clips waiting to be played on entities, and those playing.
pub struct AnimationQueue {
    queued: EntityMap<Vec<u64>>,
    playing: EntityMap<u64>,
}

impl View for AnimationQueue {
    type V = QueueView;

    closed spec fn view(&self) -> QueueView {
        QueueView {
            queued: self.queued@.map_values(|v: Vec<u64>| v@),
            playing: self.playing@,
        }
    }
}

impl AnimationQueue {
    /// The internal maps are well formed.
    pub closed spec fn wf(&self) -> bool {
        self.queued.wf() && self.playing.wf()
    }

    /// An empty queue.
    pub fn new() -> (r: AnimationQueue)
        ensures
            r.wf(),
            r@.queued == Map::<EntityId, Seq<u64>>::empty(),
            r@.playing == Map::<EntityId, u64>::empty(),
    {
        let r = AnimationQueue { queued: EntityMap::new(), playing: EntityMap::new() };
        assert(r@.queued =~= Map::<EntityId, Seq<u64>>::empty());
        r
    }

    /// Queues `handle` on `entity`.
    pub fn push(&mut self, entity: EntityId, handle: u64)
        requires
            old(self).wf(),
        ensures
            final(self).wf(),
            final(self)@.queued == pushed(old(self)@.queued, entity, handle),
            final(self)@.playing == old(self)@.playing,
    {
        let mut list = match self.queued.remove(entity) {
            Some(v) => v,
            None => Vec::new(),
        };
        list.push(handle);
        self.queued.insert(entity, list);
        proof {
            assert(self@.queued =~= pushed(old(self)@.queued, entity, handle));
        }
    }

    /// Takes the clip queued last on `entity`. An entity whose queue has
    /// run empty is dropped from the queue.
    pub fn pop(&mut self, entity: EntityId) -> (r: Option<u64>)
        requires
            old(self).wf(),
        ensures
            final(self).wf(),
            final(self)@.playing == old(self)@.playing,
            !old(self)@.queued.contains_key(entity) ==> r is None && final(self)@.queued == old(
                self,
            )@.queued,
            old(self)@.queued.contains_key(entity) && old(self)@.queued[entity].len() > 0 ==> r
                == Some(old(self)@.queued[entity].last()) && final(self)@.queued == old(
                self,
            )@.queued.insert(entity, old(self)@.queued[entity].drop_last()),
            old(self)@.queued.contains_key(entity) && old(self)@.queued[entity].len() == 0 ==> r is None
                && final(self)@.queued == old(self)@.queued.remove(entity),
    {
        match self.queued.remove(entity) {
            Some(mut list) => {
                match list.pop() {
                    Some(handle) => {
                        self.queued.insert(entity, list);
                        proof {
                            assert(self@.queued =~= old(self)@.queued.insert(
                                entity,
                                old(self)@.queued[entity].drop_last(),
                            ));
                        }
                        Some(handle)
                    },
                    None => {
                        proof {
                            assert(self@.queued =~= old(self)@.queued.remove(entity));
                        }
                        None
                    },
                }
            },
            None => {
                proof {
                    assert(self@.queued =~= old(self)@.queued);
                }
                None
            },
        }
    }

    /// The entities with a queue, each once.
    pub fn keys(&self) -> (r: Vec<EntityId>)
        requires
            self.wf(),
        ensures
            r@.no_duplicates(),
            forall|e: EntityId| self@.queued.contains_key(e) <==> r@.contains(e),
    {
        self.queued.keys()
    }

    /// The clip that `entity` is playing, if any.
    pub fn playing(&self, entity: EntityId) -> (r: Option<u64>)
        requires
            self.wf(),
        ensures
            r is Some <==> self@.playing.contains_key(entity),
            r is Some ==> r->0 == self@.playing[entity],
    {
        match self.playing.get(entity) {
            Some(h) => Some(*h),
            None => None,
        }
    }

    /// The entities that are playing a clip, each once.
    pub fn playing_entities(&self) -> (r: Vec<EntityId>)
        requires
            self.wf(),
        ensures
            r@.no_duplicates(),
            forall|e: EntityId| self@.playing.contains_key(e) <==> r@.contains(e),
    {
        self.playing.keys()
    }

    /// Queues `handle` on each of `targets`, in order.
    pub fn push_all(&mut self, targets: &Vec<EntityId>, handle: u64)
        requires
            old(self).wf(),
        ensures
            final(self).wf(),
            final(self)@.queued == pushed_all(old(self)@.queued, targets@, handle),
            final(self)@.playing == old(self)@.playing,
    {
        let mut i: usize = 0;
        while i < targets.len()
            invariant
                self.wf(),
                i <= targets@.len(),
                self@.queued == pushed_all(old(self)@.queued, targets@.subrange(0, i as int), handle),
                self@.playing == old(self)@.playing,
            decreases targets@.len() - i,
        {
            proof {
                assert(targets@.subrange(0, i + 1).drop_last() =~= targets@.subrange(0, i as int));
                assert(targets@.subrange(0, i + 1).last() == targets@[i as int]);
            }
            self.push(targets[i], handle);
            i = i + 1;
        }
        proof {
            assert(targets@.subrange(0, targets@.len() as int) =~= targets@);
        }
    }
}

/// Entity `e` starts its next clip: it has a queue, a player, and is not
/// playing anything once the finished clips were stopped.
pub open spec fn starts(
    q: Map<EntityId, Seq<u64>>,
    playing: Map<EntityId, u64>,
    players: Seq<EntityId>,
    e: EntityId,
) -> bool {
    q.contains_key(e) && players.contains(e) && !playing.contains_key(e)
}

/// The waiting clips once the entities in `done` were given their turn.
pub open spec fn step_queued(
    q: Map<EntityId, Seq<u64>>,
    playing: Map<EntityId, u64>,
    players: Seq<EntityId>,
    done: Set<EntityId>,
) -> Map<EntityId, Seq<u64>> {
    Map::new(
        |e: EntityId|
            q.contains_key(e) && !(done.contains(e) && starts(q, playing, players, e) && q[e].len()
                == 0),
        |e: EntityId|
            if done.contains(e) && starts(q, playing, players, e) {
                q[e].drop_last()
            } else {
                q[e]
            },
    )
}

/// The playing clips once the entities in `done` were given their turn.
pub open spec fn step_playing(
    q: Map<EntityId, Seq<u64>>,
    playing: Map<EntityId, u64>,
    players: Seq<EntityId>,
    done: Set<EntityId>,
) -> Map<EntityId, u64> {
    Map::new(
        |e: EntityId|
            playing.contains_key(e) || (done.contains(e) && starts(q, playing, players, e)
                && q[e].len() > 0),
        |e: EntityId|
            if playing.contains_key(e) {
                playing[e]
            } else {
                q[e].last()
            },
    )
}

/// Entity `e` among `done` started clip `h`.
pub open spec fn started(
    q: Map<EntityId, Seq<u64>>,
    playing: Map<EntityId, u64>,
    players: Seq<EntityId>,
    done: Set<EntityId>,
    e: EntityId,
    h: u64,
) -> bool {
    done.contains(e) && starts(q, playing, players, e) && q[e].len() > 0 && h == q[e].last()
}

/// Advances the animations of one frame. Clips of the entities in
/// `finished` stop. Then every entity with a queue and a player (one of
/// `with_player`) that is not playing takes the clip queued last, or leaves
/// the queue if it has none left. Returns the clips that start, each with
/// its entity.
pub fn play_animations(
    queue: &mut AnimationQueue,
    finished: &Vec<EntityId>,
    with_player: &Vec<EntityId>,
) -> (r: Vec<(EntityId, u64)>)
    requires
        old(queue).wf(),
    ensures
        final(queue).wf(),
        ({
            let q = old(queue)@.queued;
            let p = old(queue)@.playing.remove_keys(finished@.to_set());
            &&& final(queue)@.queued == step_queued(q, p, with_player@, q.dom())
            &&& final(queue)@.playing == step_playing(q, p, with_player@, q.dom())
            &&& forall|e: EntityId, h: u64|
                #![trigger r@.contains((e, h))]
                r@.contains((e, h)) <==> started(q, p, with_player@, q.dom(), e, h)
        }),
{
    let ghost q = old(queue)@.queued;
    let ghost players = with_player@;
    let mut k: usize = 0;
    while k < finished.len()
        invariant
            queue.wf(),
            k <= finished@.len(),
            queue@.queued == q,
            queue@.playing == old(queue)@.playing.remove_keys(finished@.subrange(0, k as int).to_set()),
        decreases finished@.len() - k,
    {
        queue.playing.remove(finished[k]);
        proof {
            assert(finished@.subrange(0, k + 1) =~= finished@.subrange(0, k as int).push(finished@[k as int]));
            finished@.subrange(0, k as int).lemma_push_to_set_commute(finished@[k as int]);
            assert(queue@.playing =~= old(queue)@.playing.remove_keys(finished@.subrange(0, k + 1).to_set()));
        }
        k = k + 1;
    }
    proof {
        assert(finished@.subrange(0, finished@.len() as int) =~= finished@);
    }
    let ghost p = queue@.playing;
    let targets = queue.keys();
    let mut out: Vec<(EntityId, u64)> = Vec::new();
    let mut i: usize = 0;
    proof {
        assert(targets@.subrange(0, 0).to_set() =~= Set::<EntityId>::empty());
        assert(queue@.queued =~= step_queued(q, p, players, Set::empty()));
        assert(queue@.playing =~= step_playing(q, p, players, Set::empty()));
    }
    while i < targets.len()
        invariant
            queue.wf(),
            i <= targets@.len(),
            targets@.no_duplicates(),
            forall|e: EntityId| q.contains_key(e) <==> targets@.contains(e),
            players == with_player@,
            queue@.queued == step_queued(q, p, players, targets@.subrange(0, i as int).to_set()),
            queue@.playing == step_playing(q, p, players, targets@.subrange(0, i as int).to_set()),
            forall|e: EntityId, h: u64|
                #![trigger out@.contains((e, h))]
                out@.contains((e, h)) <==> started(q, p, players, targets@.subrange(0, i as int).to_set(), e, h),
        decreases targets@.len() - i,
    {
        let e = targets[i];
        let ghost done = targets@.subrange(0, i as int).to_set();
        let ghost done2 = targets@.subrange(0, i + 1).to_set();
        proof {
            assert(targets@.subrange(0, i + 1) =~= targets@.subrange(0, i as int).push(e));
            targets@.subrange(0, i as int).lemma_push_to_set_commute(e);
            assert(!done.contains(e)) by {
                if done.contains(e) {
                    let j = choose|j: int| 0 <= j < i && targets@.subrange(0, i as int)[j] == e;
                    assert(targets@[j] == targets@[i as int]);
                }
            }
            assert(q.contains_key(e));
        }
        let ghost prev_out = out@;
        if contains_entity(with_player, e) && queue.playing(e).is_none() {
            match queue.pop(e) {
                Some(next) => {
                    queue.playing.insert(e, next);
                    out.push((e, next));
                },
                None => {},
            }
        }
        proof {
            assert(queue@.queued =~= step_queued(q, p, players, done2));
            assert(queue@.playing =~= step_playing(q, p, players, done2));
            assert forall|x: EntityId, h: u64|
                #![trigger out@.contains((x, h))]
                out@.contains((x, h)) <==> started(q, p, players, done2, x, h) by {
                if out@.contains((x, h)) && !prev_out.contains((x, h)) {
                    assert(out@.last() == (x, h)) by {
                        let j = choose|j: int| 0 <= j < out@.len() && out@[j] == (x, h);
                        if j < prev_out.len() {
                            assert(prev_out[j] == (x, h));
                        }
                    }
                }
                if prev_out.contains((x, h)) {
                    let j = choose|j: int| 0 <= j < prev_out.len() && prev_out[j] == (x, h);
                    assert(out@[j] == (x, h));
                }
                if started(q, p, players, done2, x, h) && x == e {
                    assert(out@.last() == (x, h));
                    assert(out@[out@.len() - 1] == (x, h));
                }
            }
        }
        i = i + 1;
    }
    proof {
        assert(targets@.subrange(0, targets@.len() as int) =~= targets@);
        assert(targets@.to_set() =~= q.dom());
    }
    out
}

/// Queues the animation registered under `name` on each of `targets`, in
/// order; nothing happens when no animation has that name.
pub fn play_animation(
    registry: &AnimationRegistry,
    queue: &mut AnimationQueue,
    name: &str,
    targets: &Vec<EntityId>,
)
    requires
        old(queue).wf(),
    ensures
        final(queue).wf(),
        final(queue)@.playing == old(queue)@.playing,
        registry@.contains_key(name@) ==> final(queue)@.queued == pushed_all(
            old(queue)@.queued,
            targets@,
            registry@[name@],
        ),
        !registry@.contains_key(name@) ==> final(queue)@ == old(queue)@,
{
    if let Some(handle) = registry.get(name) {
        queue.push_all(targets, handle);
    }
}

} // verus!
