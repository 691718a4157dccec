//! Window-state lookup with the fallback chain: a window entity's own
//! component, then the component of an entity it links to, then the global
//! default, which is itself either data or one more link.
use crate::entity_map::EntityMap;
use vstd::prelude::*;

verus! {

/// The global default for one window-state component type: the data
/// itself, or a link to the entity holding it.
pub enum DefaultLink<V> {
    Data(V),
    Link(u64),
}

/// A component that makes a window entity share the state of another
/// entity.
#[derive(Clone, Copy, Debug, PartialEq, Eq, Structural)]
pub struct Link {
    pub target: u64,
}

/// Where the fallback chain lands for an entity.
#[derive(Clone, Copy, Debug, PartialEq, Eq, Structural)]
pub enum Resolution {
    /// The entity owns the component.
    Own,
    /// The entity links to this entity, which owns the component.
    Linked(u64),
    /// The global default holds the data itself.
    DefaultData,
    /// The global default links to this entity, which owns the component.
    DefaultLinked(u64),
    /// Nothing holds the component.
    Unresolved,
}

/// One window-state component type's slice of the entity store: which
/// entities own the component, which carry a link, and the global
/// default, if any.
pub struct ComponentStore<V> {
    pub comps: EntityMap<V>,
    pub links: EntityMap<u64>,
    pub default_link: Option<DefaultLink<V>>,
}

impl<V> ComponentStore<V> {
    /// Both maps are well formed.
    pub open spec fn wf(&self) -> bool {
        self.comps.wf() && self.links.wf()
    }

    /// Where the fallback chain lands for `entity`.
    pub open spec fn spec_resolution(&self, entity: u64) -> Resolution {
        if self.comps@.contains_key(entity) {
            Resolution::Own
        } else if self.links@.contains_key(entity) && self.comps@.contains_key(
            self.links@[entity],
        ) {
            Resolution::Linked(self.links@[entity])
        } else {
            match self.default_link {
                Some(DefaultLink::Data(_)) => Resolution::DefaultData,
                Some(DefaultLink::Link(l)) => if self.comps@.contains_key(l) {
                    Resolution::DefaultLinked(l)
                } else {
                    Resolution::Unresolved
                },
                None => Resolution::Unresolved,
            }
        }
    }

    /// The component value the fallback chain finds for `entity`.
    pub open spec fn spec_lookup(&self, entity: u64) -> Option<V> {
        match self.spec_resolution(entity) {
            Resolution::Own => Some(self.comps@[entity]),
            Resolution::Linked(t) => Some(self.comps@[t]),
            Resolution::DefaultData => match self.default_link {
                Some(DefaultLink::Data(v)) => Some(v),
                _ => None,
            },
            Resolution::DefaultLinked(l) => Some(self.comps@[l]),
            Resolution::Unresolved => None,
        }
    }

    /// `post` is `pre` with `v` written into the slot the fallback chain
    /// finds for `entity`: its own component, the linked entity's, the
    /// default data, or the default link's target component.
    pub open spec fn writes_back(pre: Self, post: Self, entity: u64, v: V) -> bool {
        post.links == pre.links && match pre.spec_resolution(entity) {
            Resolution::Own => post.comps@ == pre.comps@.insert(entity, v) && post.default_link
                == pre.default_link,
            Resolution::Linked(t) => post.comps@ == pre.comps@.insert(t, v) && post.default_link
                == pre.default_link,
            Resolution::DefaultData => post.comps == pre.comps && post.default_link == Some(
                DefaultLink::Data(v),
            ),
            Resolution::DefaultLinked(l) => post.comps@ == pre.comps@.insert(l, v)
                && post.default_link == pre.default_link,
            Resolution::Unresolved => false,
        }
    }

    /// An empty store: no components, no links, no default.
    pub fn new() -> (r: ComponentStore<V>)
        ensures
            r.wf(),
            r.comps@ == Map::<u64, V>::empty(),
            r.links@ == Map::<u64, u64>::empty(),
            r.default_link.is_none(),
    {
        ComponentStore { comps: EntityMap::new(), links: EntityMap::new(), default_link: None }
    }

    /// Gives `entity` its own component value.
    pub fn insert_component(&mut self, entity: u64, v: V)
        requires
            old(self).wf(),
        ensures
            final(self).wf(),
            final(self).comps@ == old(self).comps@.insert(entity, v),
            final(self).links == old(self).links,
            final(self).default_link == old(self).default_link,
    {
        self.comps.insert(entity, v);
    }

    /// Makes `entity` share the state of `link.target`.
    pub fn insert_link(&mut self, entity: u64, link: Link)
        requires
            old(self).wf(),
        ensures
            final(self).wf(),
            final(self).links@ == old(self).links@.insert(entity, link.target),
            final(self).comps == old(self).comps,
            final(self).default_link == old(self).default_link,
    {
        self.links.insert(entity, link.target);
    }

    /// Sets the global default.
    pub fn set_default_link(&mut self, d: Option<DefaultLink<V>>)
        requires
            old(self).wf(),
        ensures
            final(self).wf(),
            final(self).default_link == d,
            final(self).comps == old(self).comps,
            final(self).links == old(self).links,
    {
        self.default_link = d;
    }
}

/// What a window callback sees of its own place in the store: the entity
/// its window instance lives on.
#[derive(Clone, Copy, Debug, PartialEq, Eq, Structural)]
pub struct EditorWindowContext {
    pub entity: u64,
}

impl EditorWindowContext {
    /// Where the fallback chain lands for this window.
    pub fn resolve<V>(&self, world: &ComponentStore<V>) -> (r: Resolution)
        requires
            world.wf(),
        ensures
            r == world.spec_resolution(self.entity),
    {
        if world.comps.contains_key(self.entity) {
            return Resolution::Own;
        }
        if let Some(t) = world.links.get(self.entity) {
            if world.comps.contains_key(*t) {
                return Resolution::Linked(*t);
            }
        }
        match &world.default_link {
            Some(DefaultLink::Data(_)) => Resolution::DefaultData,
            Some(DefaultLink::Link(l)) => {
                if world.comps.contains_key(*l) {
                    Resolution::DefaultLinked(*l)
                } else {
                    Resolution::Unresolved
                }
            },
            None => Resolution::Unresolved,
        }
    }

    /// The window's state component, through the fallback chain: its own,
    /// else its linked entity's, else the global default's.
    pub fn get<'a, V>(&self, world: &'a ComponentStore<V>) -> (r: Option<&'a V>)
        requires
            world.wf(),
        ensures
            match r {
                Some(v) => world.spec_lookup(self.entity) == Some(*v),
                None => world.spec_lookup(self.entity).is_none(),
            },
    {
        if let Some(v) = world.comps.get(self.entity) {
            return Some(v);
        }
        if let Some(t) = world.links.get(self.entity) {
            if let Some(v) = world.comps.get(*t) {
                return Some(v);
            }
        }
        match &world.default_link {
            Some(DefaultLink::Data(v)) => Some(v),
            Some(DefaultLink::Link(l)) => world.comps.get(*l),
            None => None,
        }
    }

    /// A mutable borrow of the window's state component, found through
    /// the same fallback chain as [`Self::get`]; the slot the chain found
    /// ends up with whatever the borrower leaves there.
    pub fn get_mut<'a, V>(&self, world: &'a mut ComponentStore<V>) -> (r: Option<&'a mut V>)
        requires
            old(world).wf(),
        ensures
            final(world).wf(),
            r.is_none() ==> old(world).spec_lookup(self.entity).is_none()
                && *final(world) == *old(world),
            r.is_some() ==> old(world).spec_lookup(self.entity) == Some(*r.unwrap())
                && ComponentStore::writes_back(
                *old(world),
                *final(world),
                self.entity,
                *final(r.unwrap()),
            ),
    {
        if world.comps.contains_key(self.entity) {
            return world.comps.get_mut(self.entity);
        }
        let target: Option<u64> = match world.links.get(self.entity) {
            Some(t) => Some(*t),
            None => None,
        };
        if let Some(t) = target {
            if world.comps.contains_key(t) {
                return world.comps.get_mut(t);
            }
        }
        let has_default_data = matches!(&world.default_link, Some(DefaultLink::Data(_)));
        if has_default_data {
            return match &mut world.default_link {
                Some(DefaultLink::Data(v)) => Some(v),
                _ => {
                    assert(false);
                    None
                },
            };
        }
        let default_target: Option<u64> = match &world.default_link {
            Some(DefaultLink::Link(l)) => Some(*l),
            _ => None,
        };
        if let Some(l) = default_target {
            if world.comps.contains_key(l) {
                return world.comps.get_mut(l);
            }
        }
        None
    }
}

} // verus!
