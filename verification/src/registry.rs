//! The registry of external images shared by all external-image
//! consumers. It hands out unique image identifiers and remembers which
//! kind of handler serves each one.

use vstd::prelude::*;

use std::collections::HashMap;

verus! {

broadcast use vstd::std_specs::hash::group_hash_axioms;

/// The kind of handler that serves an external image.
#[derive(Clone, Copy, Debug, PartialEq, Eq, Structural)]
pub enum WebrenderImageHandlerType {
    WebGL,
    Media,
}

/// Tracks every generated external image id and the handler kind it
/// belongs to. Identifiers count up from one, so they are unique across
/// all consumers.
pub struct WebrenderExternalImageRegistry {
    external_images: HashMap<u64, WebrenderImageHandlerType>,
    next_image_id: u64,
}

impl WebrenderExternalImageRegistry {
    /// The registered images: each live id and its handler kind.
    pub closed spec fn images(&self) -> Map<u64, WebrenderImageHandlerType> {
        self.external_images@
    }

    /// The last identifier handed out.
    pub closed spec fn last_id(&self) -> u64 {
        self.next_image_id
    }

    pub fn new() -> (r: Self)
        ensures
            r.images() == Map::<u64, WebrenderImageHandlerType>::empty(),
            r.last_id() == 0,
    {
        WebrenderExternalImageRegistry { external_images: HashMap::new(), next_image_id: 0 }
    }

    /// Allocates the next external image identifier and registers its
    /// handler kind.
    pub fn next_id(&mut self, handler_type: WebrenderImageHandlerType) -> (key: u64)
        requires
            old(self).last_id() < u64::MAX,
        ensures
            key == old(self).last_id() + 1,
            final(self).last_id() == key,
            final(self).images() == old(self).images().insert(key, handler_type),
    {
        self.next_image_id = self.next_image_id + 1;
        let key = self.next_image_id;
        self.external_images.insert(key, handler_type);
        key
    }

    /// Forgets an external image identifier.
    pub fn remove(&mut self, key: u64)
        ensures
            final(self).images() == old(self).images().remove(key),
            final(self).last_id() == old(self).last_id(),
    {
        self.external_images.remove(&key);
    }

    /// The handler kind registered for an identifier, if it is live.
    pub fn get(&self, key: u64) -> (r: Option<WebrenderImageHandlerType>)
        ensures
            r == (if self.images().contains_key(key) {
                Some(self.images()[key])
            } else {
                None
            }),
    {
        match self.external_images.get(&key) {
            Some(t) => Some(*t),
            None => None,
        }
    }
}

} // verus!
