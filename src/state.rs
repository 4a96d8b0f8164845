use vstd::hash_map::StringHashMap;
use vstd::prelude::*;

verus! {

/// The text that `bool` parses from.
pub open spec fn bool_text(b: bool) -> Seq<char> {
    if b {
        seq!['t', 'r', 'u', 'e']
    } else {
        seq!['f', 'a', 'l', 's', 'e']
    }
}

/// What `bool` parses from `s`: only the exact texts `true` and `false`.
pub open spec fn parse_bool_spec(s: Seq<char>) -> Option<bool> {
    if s == bool_text(true) {
        Some(true)
    } else if s == bool_text(false) {
        Some(false)
    } else {
        None
    }
}

/// Relies on `<bool as FromStr>::from_str`: it accepts exactly `true` and `false`.
#[verifier::external_body]
fn parse_bool(s: &str) -> (r: Option<bool>)
    ensures
        r == parse_bool_spec(s@),
{
    s.parse::<bool>().ok()
}

/// A key-value store of strings that tracks the progression of the game.
pub struct WorldState {
    map: StringHashMap<String>,
}

impl View for WorldState {
    type V = Map<Seq<char>, Seq<char>>;

    closed spec fn view(&self) -> Map<Seq<char>, Seq<char>> {
        Map::new(|k: Seq<char>| self.map@.contains_key(k), |k: Seq<char>| self.map@[k]@)
    }
}

impl WorldState {
    /// An empty store.
    pub fn new() -> (r: WorldState)
        ensures
            r@ == Map::<Seq<char>, Seq<char>>::empty(),
    {
        let r = WorldState { map: StringHashMap::new() };
        assert(r@ =~= Map::<Seq<char>, Seq<char>>::empty());
        r
    }

    /// The value stored under `key`, if any.
    pub fn get(&self, key: &str) -> (r: Option<String>)
        ensures
            r is Some <==> self@.contains_key(key@),
            r is Some ==> r->0@ == self@[key@],
    {
        match self.map.get(key) {
            Some(v) => Some(v.clone()),
            None => None,
        }
    }

    /// The value under `key` read as a `bool`; false when the key is absent
    /// or its value is neither `true` nor `false`.
    pub fn get_bool(&self, key: &str) -> (r: bool)
        ensures
            r == (self@.contains_key(key@) && self@[key@] == bool_text(true)),
    {
        match self.map.get(key) {
            Some(v) => match parse_bool(v.as_str()) {
                Some(b) => b,
                None => false,
            },
            None => false,
        }
    }

    /// Stores `value` under `key`, replacing what was there.
    pub fn insert(&mut self, key: &str, value: &str)
        ensures
            final(self)@ == old(self)@.insert(key@, value@),
    {
        let k = key.to_owned();
        let v = value.to_owned();
        self.map.insert(k, v);
        assert(final(self)@ =~= old(self)@.insert(key@, value@));
    }

    /// Stores `value` under `key`, as `insert` does.
    pub fn set(&mut self, key: &str, value: &str)
        ensures
            final(self)@ == old(self)@.insert(key@, value@),
    {
        self.insert(key, value);
    }

    /// Stores the text of a `bool` under `key`.
    pub fn insert_bool(&mut self, key: &str, value: bool)
        ensures
            final(self)@ == old(self)@.insert(key@, bool_text(value)),
    {
        let text = if value { "true" } else { "false" };
        proof {
            reveal_strlit("true");
            reveal_strlit("false");
        }
        assert(text@ == bool_text(value));
        self.insert(key, text);
    }
}

} // verus!
