use vstd::prelude::*;

use crate::message::{Message, MessageView};

verus! {

/// An item that the player can hold, known by its name.
#[derive(Debug, Hash)]
pub struct Item {
    name: String,
}

impl View for Item {
    type V = Seq<char>;

    closed spec fn view(&self) -> Seq<char> {
        self.name@
    }
}

impl Item {
    /// The item with the given name.
    pub fn new(name: &str) -> (r: Item)
        ensures
            r@ == name@,
    {
        Item { name: name.to_owned() }
    }

    /// The name of the item.
    pub fn as_str(&self) -> (r: &str)
        ensures
            r@ == self@,
    {
        self.name.as_str()
    }
}

impl Clone for Item {
    fn clone(&self) -> (r: Item)
        ensures
            r@ == self@,
    {
        Item { name: self.name.clone() }
    }
}

impl PartialEq for Item {
    fn eq(&self, other: &Item) -> (r: bool)
        ensures
            r == (self@ == other@),
    {
        self.name == other.name
    }
}

impl vstd::std_specs::cmp::PartialEqSpecImpl for Item {
    open spec fn obeys_eq_spec() -> bool {
        true
    }

    open spec fn eq_spec(&self, other: &Item) -> bool {
        self@ == other@
    }
}

impl Eq for Item {
}

impl From<&str> for Item {
    fn from(name: &str) -> (r: Item)
        ensures
            r@ == name@,
    {
        Item::new(name)
    }
}

impl vstd::std_specs::convert::FromSpecImpl<&str> for Item {
    open spec fn obeys_from_spec() -> bool {
        false
    }

    open spec fn from_spec(name: &str) -> Item {
        arbitrary()
    }
}

impl From<String> for Item {
    fn from(name: String) -> (r: Item)
        ensures
            r@ == name@,
    {
        Item { name }
    }
}

impl vstd::std_specs::convert::FromSpecImpl<String> for Item {
    open spec fn obeys_from_spec() -> bool {
        false
    }

    open spec fn from_spec(name: String) -> Item {
        arbitrary()
    }
}

/// The names of a sequence of items.
pub open spec fn item_names(items: Seq<Item>) -> Seq<Seq<char>> {
    items.map_values(|i: Item| i@)
}

/// The items that the player holds; no two of them share a name.
pub struct Inventory {
    items: Vec<Item>,
}

impl Inventory {
    /// No two held items share a name.
    pub closed spec fn wf(self) -> bool {
        item_names(self.items@).no_duplicates()
    }

    /// The names of the held items, in the order in which they were added.
    pub closed spec fn names(self) -> Seq<Seq<char>> {
        item_names(self.items@)
    }
}

impl View for Inventory {
    type V = Set<Seq<char>>;

    closed spec fn view(&self) -> Set<Seq<char>> {
        self.names().to_set()
    }
}

impl Inventory {
    /// An empty inventory.
    pub fn new() -> (r: Inventory)
        ensures
            r.wf(),
            r@ == Set::<Seq<char>>::empty(),
    {
        let r = Inventory { items: Vec::new() };
        proof {
            assert(item_names(r.items@) =~= Seq::<Seq<char>>::empty());
            assert(r@ =~= Set::<Seq<char>>::empty());
        }
        r
    }

    /// The held items, each once.
    pub fn items(&self) -> (r: &Vec<Item>)
        requires
            self.wf(),
        ensures
            item_names(r@) == self.names(),
            item_names(r@).to_set() == self@,
            item_names(r@).no_duplicates(),
    {
        &self.items
    }

    /// The position of the item named `name`, if it is held.
    fn find(&self, name: &Item) -> (r: Option<usize>)
        ensures
            match r {
                Some(i) => i < self.items@.len() && self.names()[i as int] == name@,
                None => !self.names().contains(name@),
            },
    {
        let mut i: usize = 0;
        while i < self.items.len()
            invariant
                i <= self.items@.len(),
                forall|j: int| 0 <= j < i ==> self.names()[j] != name@,
            decreases self.items@.len() - i,
        {
            if self.items[i] == *name {
                return Some(i);
            }
            i = i + 1;
        }
        None
    }

    /// Whether an item with this name is held.
    pub fn contains(&self, item: &Item) -> (r: bool)
        ensures
            r == self@.contains(item@),
    {
        self.find(item).is_some()
    }

    /// Adds the item; returns false, and changes nothing, when it was held already.
    pub fn insert(&mut self, item: Item) -> (r: bool)
        requires
            old(self).wf(),
        ensures
            final(self).wf(),
            r == !old(self)@.contains(item@),
            final(self)@ == old(self)@.insert(item@),
    {
        match self.find(&item) {
            Some(_) => {
                proof {
                    assert(self@.insert(item@) =~= self@);
                }
                false
            },
            None => {
                let ghost old_names = self.names();
                let ghost n = item@;
                self.items.push(item);
                proof {
                    assert(self.names() =~= old_names.push(n));
                    assert forall|x: Seq<char>| self.names().contains(x) <==> (old_names.contains(x) || x == n) by {
                        if old_names.contains(x) {
                            let k = choose|k: int| 0 <= k < old_names.len() && old_names[k] == x;
                            assert(self.names()[k] == x);
                        }
                        if x == n {
                            assert(self.names()[old_names.len() as int] == x);
                        }
                    }
                    assert(self@ =~= old_names.to_set().insert(n));
                }
                true
            },
        }
    }

    /// Removes the item with this name; returns whether it was held.
    pub fn remove(&mut self, item: &Item) -> (r: bool)
        requires
            old(self).wf(),
        ensures
            final(self).wf(),
            r == old(self)@.contains(item@),
            final(self)@ == old(self)@.remove(item@),
    {
        match self.find(item) {
            Some(i) => {
                let ghost old_names = self.names();
                self.items.remove(i);
                proof {
                    assert(self.names() =~= old_names.remove(i as int));
                    assert forall|n: Seq<char>| self.names().contains(n) <==> (old_names.contains(n) && n != item@) by {
                        if old_names.contains(n) && n != item@ {
                            let k = choose|k: int| 0 <= k < old_names.len() && old_names[k] == n;
                            assert(k != i);
                            if k < i {
                                assert(self.names()[k] == n);
                            } else {
                                assert(self.names()[k - 1] == n);
                            }
                        }
                        if self.names().contains(n) {
                            let k = choose|k: int| 0 <= k < self.names().len() && self.names()[k] == n;
                            if k < i {
                                assert(old_names[k] == n);
                            } else {
                                assert(old_names[k + 1] == n);
                            }
                        }
                    }
                    assert(self@ =~= old_names.to_set().remove(item@));
                }
                true
            },
            None => {
                proof {
                    assert(self@.remove(item@) =~= self@);
                }
                false
            },
        }
    }
}

/// The items being dragged, if any: the one picked up and the one it is over.
pub struct DraggingItem {
    /// The item that is being dragged.
    pub src: Option<Item>,
    /// The item that the dragged one is over.
    pub dst: Option<Item>,
}

impl DraggingItem {
    /// Nothing is being dragged.
    pub fn new() -> (r: DraggingItem)
        ensures
            r.src is None,
            r.dst is None,
    {
        DraggingItem { src: None, dst: None }
    }

    /// Whether either end of a drag is set.
    pub open spec fn spec_is_dragging(&self) -> bool {
        self.src is Some || self.dst is Some
    }

    /// Whether either end of a drag is set.
    #[verifier::when_used_as_spec(spec_is_dragging)]
    pub fn is_dragging(&self) -> (r: bool)
        ensures
            r == (self.src is Some || self.dst is Some),
    {
        self.src.is_some() || self.dst.is_some()
    }
}

/// One way of combining two items into a third.
pub struct Recipe {
    pub a: Item,
    pub b: Item,
    pub result: Item,
}

/// The result of combining `a` with `b` under the recipes `rs`, where a later
/// recipe overrides an earlier one for the same ordered pair.
pub open spec fn recipe_lookup(rs: Seq<Recipe>, a: Seq<char>, b: Seq<char>) -> Option<Seq<char>>
    decreases rs.len(),
{
    if rs.len() == 0 {
        None
    } else if rs.last().a@ == a && rs.last().b@ == b {
        Some(rs.last().result@)
    } else {
        recipe_lookup(rs.drop_last(), a, b)
    }
}

/// All registered item combinations; the order of the two items does not matter.
pub struct Recipes {
    list: Vec<Recipe>,
}

impl View for Recipes {
    type V = Map<(Seq<char>, Seq<char>), Seq<char>>;

    closed spec fn view(&self) -> Map<(Seq<char>, Seq<char>), Seq<char>> {
        Map::new(
            |k: (Seq<char>, Seq<char>)| recipe_lookup(self.list@, k.0, k.1) is Some,
            |k: (Seq<char>, Seq<char>)| recipe_lookup(self.list@, k.0, k.1)->0,
        )
    }
}

impl Recipes {
    /// The combinations are symmetric: `a` on `b` gives what `b` on `a` gives.
    pub closed spec fn symmetric(self) -> bool {
        forall|a: Seq<char>, b: Seq<char>|
            #[trigger] recipe_lookup(self.list@, a, b) == recipe_lookup(self.list@, b, a)
    }

    /// Recipes built by `new` and `insert` ignore the order of the two items:
    /// `a` on `b` combines exactly when `b` on `a` does, into the same item.
    pub proof fn lemma_order_ignored(&self, a: Seq<char>, b: Seq<char>)
        requires
            self.symmetric(),
        ensures
            self@.contains_key((a, b)) == self@.contains_key((b, a)),
            self@.contains_key((a, b)) ==> self@[(a, b)] == self@[(b, a)],
    {
        assert(recipe_lookup(self.list@, a, b) == recipe_lookup(self.list@, b, a));
    }

    /// No recipes.
    pub fn new() -> (r: Recipes)
        ensures
            r@ == Map::<(Seq<char>, Seq<char>), Seq<char>>::empty(),
            r.symmetric(),
    {
        let r = Recipes { list: Vec::new() };
        assert(r@ =~= Map::<(Seq<char>, Seq<char>), Seq<char>>::empty());
        r
    }

    /// Registers that `a` and `b`, in either order, combine into `result`.
    pub fn insert(&mut self, a: &str, b: &str, result: &str)
        ensures
            final(self)@ == old(self)@.insert((a@, b@), result@).insert((b@, a@), result@),
            old(self).symmetric() ==> final(self).symmetric(),
    {
        let ghost old_list = self.list@;
        self.list.push(Recipe { a: Item::new(a), b: Item::new(b), result: Item::new(result) });
        let ghost mid = self.list@;
        self.list.push(Recipe { a: Item::new(b), b: Item::new(a), result: Item::new(result) });
        proof {
            assert(self.list@.drop_last() == mid);
            assert(mid.drop_last() == old_list);
            assert forall|x: Seq<char>, y: Seq<char>|
                #[trigger] recipe_lookup(self.list@, x, y) == if x == b@ && y == a@ {
                    Some(result@)
                } else if x == a@ && y == b@ {
                    Some(result@)
                } else {
                    recipe_lookup(old_list, x, y)
                } by {
                reveal_with_fuel(recipe_lookup, 3);
            }
            assert(final(self)@ =~= old(self)@.insert((a@, b@), result@).insert((b@, a@), result@));
        }
    }

    /// The item that `src` combined with `dst` gives, if any.
    pub fn get(&self, src: &Item, dst: &Item) -> (r: Option<&Item>)
        ensures
            match r {
                Some(i) => self@.contains_key((src@, dst@)) && i@ == self@[(src@, dst@)],
                None => !self@.contains_key((src@, dst@)),
            },
    {
        let mut i: usize = self.list.len();
        assert(self.list@.subrange(0, i as int) =~= self.list@);
        while i > 0
            invariant
                i <= self.list@.len(),
                recipe_lookup(self.list@, src@, dst@) == recipe_lookup(self.list@.subrange(0, i as int), src@, dst@),
            decreases i,
        {
            let r = &self.list[i - 1];
            proof {
                assert(self.list@.subrange(0, i as int).drop_last() =~= self.list@.subrange(0, i - 1));
            }
            if r.a == *src && r.b == *dst {
                return Some(&r.result);
            }
            i = i - 1;
        }
        None
    }
}

/// Combines the dragged item with the one it was dropped on, when the mouse
/// button was just released over a pair: both leave the inventory and the
/// result of their recipe joins it. Returns the message to show, if any.
pub fn handle_combine(
    released: bool,
    inventory: &mut Inventory,
    recipes: &Recipes,
    dragging: &DraggingItem,
) -> (r: Option<Message>)
    requires
        old(inventory).wf(),
    ensures
        final(inventory).wf(),
        match (released, dragging.src, dragging.dst) {
            (true, Some(src), Some(dst)) => if recipes@.contains_key((src@, dst@)) {
                &&& r matches Some(m) && m@ == MessageView::ItemCombine {
                    src: src@,
                    dst: dst@,
                    result: recipes@[(src@, dst@)],
                }
                &&& final(inventory)@ == old(inventory)@.remove(src@).remove(dst@).insert(
                    recipes@[(src@, dst@)],
                )
            } else {
                &&& r matches Some(m) && m@ == MessageView::InvalidItemCombination
                &&& final(inventory)@ == old(inventory)@
            },
            _ => r is None && final(inventory)@ == old(inventory)@,
        },
{
    if released {
        match (&dragging.src, &dragging.dst) {
            (Some(src), Some(dst)) => {
                match recipes.get(src, dst) {
                    Some(result) => {
                        inventory.remove(src);
                        inventory.remove(dst);
                        inventory.insert(result.clone());
                        Some(
                            Message::ItemCombine {
                                src: src.clone(),
                                dst: dst.clone(),
                                result: result.clone(),
                            },
                        )
                    },
                    None => Some(Message::InvalidItemCombination),
                }
            },
            _ => None,
        }
    } else {
        None
    }
}

} // verus!
