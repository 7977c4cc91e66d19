use std::collections::HashMap;
use vstd::prelude::*;
use crate::input::KeyCode;

verus! {

broadcast use vstd::std_specs::hash::group_hash_axioms;

/// The user-installed key handlers: at most one handler per key code.
#[derive(Debug)]
pub struct HandlerRegistry<H> {
    handlers: HashMap<u32, H>,
}

impl<H> View for HandlerRegistry<H> {
    type V = Map<u32, H>;

    closed spec fn view(&self) -> Map<u32, H> {
        self.handlers@
    }
}

impl<H: Copy> HandlerRegistry<H> {
    /// An empty registry.
    pub fn new() -> (r: HandlerRegistry<H>)
        ensures
            r@ == Map::<u32, H>::empty(),
    {
        HandlerRegistry { handlers: HashMap::new() }
    }

    /// Installs `handler` for `key`, replacing any handler it had.
    pub fn insert(&mut self, key: KeyCode, handler: H)
        ensures
            final(self)@ == old(self)@.insert(key.0, handler),
    {
        self.handlers.insert(key.0, handler);
    }

    /// The handler installed for `key`, if any.
    pub fn get(&self, key: KeyCode) -> (r: Option<H>)
        ensures
            r == handler_of(self@, key),
    {
        match self.handlers.get(&key.0) {
            Some(h) => Some(*h),
            None => None,
        }
    }

    /// Whether a handler is installed for `key`.
    pub fn contains(&self, key: KeyCode) -> (r: bool)
        ensures
            r == self@.contains_key(key.0),
    {
        self.handlers.contains_key(&key.0)
    }
}

/// The handler that `m` holds for `key`, if any.
pub open spec fn handler_of<H>(m: Map<u32, H>, key: KeyCode) -> Option<H> {
    if m.contains_key(key.0) {
        Some(m[key.0])
    } else {
        None
    }
}

} // verus!
