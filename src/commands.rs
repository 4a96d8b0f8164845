use vstd::prelude::*;

use crate::camera::NamedEntity;
use crate::entity::EntityId;

verus! {

/// The entities of `s` in order.
pub open spec fn entities_of(s: Seq<NamedEntity>) -> Seq<EntityId> {
    s.map_values(|ne: NamedEntity| ne.entity)
}

/// The views of a sequence of strings.
pub open spec fn string_views(v: Seq<String>) -> Seq<Seq<char>> {
    v.map_values(|s: String| s@)
}

/// The entries of `s` named `name`, in order.
pub open spec fn with_name(s: Seq<NamedEntity>, name: Seq<char>) -> Seq<NamedEntity> {
    s.filter(|ne: NamedEntity| ne.name@ == name)
}

/// The entries of `s` whose name is one of `names`, in order.
pub open spec fn with_any_name(s: Seq<NamedEntity>, names: Seq<Seq<char>>) -> Seq<NamedEntity> {
    s.filter(|ne: NamedEntity| names.contains(ne.name@))
}

/// The named entities of the world, looked up by name.
pub struct CommandsExt {
    /// Every named entity, in the order in which the world lists them.
    pub entries: Vec<NamedEntity>,
}

impl CommandsExt {
    /// Lookups over the given named entities.
    pub fn new(entries: Vec<NamedEntity>) -> (r: CommandsExt)
        ensures
            r.entries == entries,
    {
        CommandsExt { entries }
    }

    /// The entities named `target`, in order.
    pub fn named(&self, target: &str) -> (r: Vec<EntityId>)
        ensures
            r@ == entities_of(with_name(self.entries@, target@)),
    {
        let key = target.to_owned();
        let mut out: Vec<EntityId> = Vec::new();
        let mut i: usize = 0;
        while i < self.entries.len()
            invariant
                i <= self.entries@.len(),
                key@ == target@,
                out@ == entities_of(with_name(self.entries@.subrange(0, i as int), target@)),
            decreases self.entries@.len() - i,
        {
            proof {
                assert(self.entries@.subrange(0, i + 1).drop_last() =~= self.entries@.subrange(
                    0,
                    i as int,
                ));
            }
            if self.entries[i].name == key {
                out.push(self.entries[i].entity);
            }
            proof {
                reveal(Seq::filter);
                let x = self.entries@[i as int];
                let pre = with_name(self.entries@.subrange(0, i as int), target@);
                assert(self.entries@.subrange(0, i + 1).last() == x);
                if x.name@ == target@ {
                    assert(with_name(self.entries@.subrange(0, i + 1), target@) == pre.push(x));
                    assert(entities_of(pre.push(x)) =~= entities_of(pre).push(x.entity));
                } else {
                    assert(with_name(self.entries@.subrange(0, i + 1), target@) == pre);
                }
            }
            i = i + 1;
        }
        proof {
            assert(self.entries@.subrange(0, self.entries@.len() as int) =~= self.entries@);
        }
        out
    }

    /// Whether `name` is one of `targets`.
    fn is_target(name: &String, targets: &Vec<String>) -> (r: bool)
        ensures
            r == string_views(targets@).contains(name@),
    {
        let mut j: usize = 0;
        while j < targets.len()
            invariant
                j <= targets@.len(),
                forall|k: int| 0 <= k < j ==> #[trigger] targets@[k]@ != name@,
            decreases targets@.len() - j,
        {
            if targets[j] == *name {
                assert(string_views(targets@)[j as int] == name@);
                return true;
            }
            j = j + 1;
        }
        proof {
            if string_views(targets@).contains(name@) {
                let k = choose|k: int|
                    0 <= k < string_views(targets@).len() && string_views(targets@)[k] == name@;
                assert(targets@[k]@ == name@);
            }
        }
        false
    }

    /// The entities whose name is any of `targets`, in order, each once.
    pub fn named_any(&self, targets: &Vec<String>) -> (r: Vec<EntityId>)
        ensures
            r@ == entities_of(with_any_name(self.entries@, string_views(targets@))),
    {
        let ghost names = string_views(targets@);
        let mut out: Vec<EntityId> = Vec::new();
        let mut i: usize = 0;
        while i < self.entries.len()
            invariant
                i <= self.entries@.len(),
                names == string_views(targets@),
                out@ == entities_of(with_any_name(self.entries@.subrange(0, i as int), names)),
            decreases self.entries@.len() - i,
        {
            proof {
                assert(self.entries@.subrange(0, i + 1).drop_last() =~= self.entries@.subrange(
                    0,
                    i as int,
                ));
            }
            if Self::is_target(&self.entries[i].name, targets) {
                out.push(self.entries[i].entity);
            }
            proof {
                reveal(Seq::filter);
                let x = self.entries@[i as int];
                let pre = with_any_name(self.entries@.subrange(0, i as int), names);
                assert(self.entries@.subrange(0, i + 1).last() == x);
                if names.contains(x.name@) {
                    assert(with_any_name(self.entries@.subrange(0, i + 1), names) == pre.push(x));
                    assert(entities_of(pre.push(x)) =~= entities_of(pre).push(x.entity));
                } else {
                    assert(with_any_name(self.entries@.subrange(0, i + 1), names) == pre);
                }
            }
            i = i + 1;
        }
        proof {
            assert(self.entries@.subrange(0, self.entries@.len() as int) =~= self.entries@);
        }
        out
    }
}

} // verus!
