//! Scene textures: a texture with its own sampler and a unique id, the
//! allocator that issues the ids, and the registry that tracks textures
//! by id.

use vstd::prelude::*;
use std::collections::HashMap;
use crate::error::EguiBackendError;
use crate::sampler::Sampler;
use crate::transform::ScreenSize;

verus! {

broadcast use vstd::std_specs::hash::group_hash_axioms;

/// An allocator of unique texture ids. Each scene owns one; every id it
/// hands out is distinct from every earlier one.
#[derive(Debug, Clone, Copy, PartialEq, Eq, Structural)]
pub struct IdAllocator {
    /// The next id to hand out.
    pub next: u64,
}

impl IdAllocator {
    /// A fresh allocator; the first id handed out is 1.
    pub fn new() -> (a: Self)
        ensures
            a.next == 1,
    {
        IdAllocator { next: 1 }
    }

    /// Hand out the next id: ids are issued in increasing order, so no
    /// two calls return the same one.
    pub fn get_id(&mut self) -> (id: u64)
        requires
            old(self).next < u64::MAX,
        ensures
            id == old(self).next,
            final(self).next == old(self).next + 1,
    {
        let id = self.next;
        self.next = self.next + 1;
        id
    }
}

/// A scene texture: a texture of the layer below together with its own
/// sampler, a unique id, and a name.
#[derive(Debug, Clone)]
pub struct Texture {
    /// The unique id of the texture within its scene.
    pub id: u64,
    /// The sampler the texture is drawn with.
    pub sampler: Sampler,
    /// The underlying texture.
    pub texture: crate::texture::Texture,
    /// Name of the texture.
    pub name: String,
}

impl Texture {
    /// Wrap a texture and sampler under a fresh id from the scene's
    /// allocator.
    pub fn new(
        texture: crate::texture::Texture,
        sampler: Sampler,
        name: String,
        ids: &mut IdAllocator,
    ) -> (t: Self)
        requires
            old(ids).next < u64::MAX,
        ensures
            t.id == old(ids).next,
            final(ids).next == old(ids).next + 1,
            t.sampler == sampler,
            t.texture == texture,
            t.name == name,
    {
        let id = ids.get_id();
        Texture { id, sampler, texture, name }
    }

    /// Returns the size of the texture in pixels.
    pub fn size(&self) -> (s: ScreenSize)
        ensures
            s == self.texture.size,
    {
        self.texture.size
    }
}

/// What a registry does with one incoming texture datum: update a region
/// of a known texture, rewrite a known texture whole, or create an
/// unknown one.
#[derive(Debug, Clone, Copy, PartialEq, Eq, Structural)]
pub enum TextureSetAction {
    /// The id is known and a region is given: update that region.
    UpdateRegion,
    /// The id is known and no region is given: rewrite the whole
    /// texture.
    UpdateWhole,
    /// The id is unknown and no region is given: create the texture.
    Create,
}

/// Pushing an element onto a run adds exactly that element to the set
/// of the run's elements.
proof fn lemma_push_to_set(s: Seq<u64>, x: u64)
    ensures
        s.push(x).to_set() == s.to_set().insert(x),
{
    assert forall|y: u64| #[trigger] s.push(x).to_set().contains(y) implies s.to_set().insert(
        x,
    ).contains(y) by {
        let j = choose|j: int| 0 <= j < s.push(x).len() && s.push(x)[j] == y;
        if j < s.len() {
            assert(s[j] == y);
            assert(s.contains(y));
        }
    }
    assert forall|y: u64| s.to_set().insert(x).contains(y) implies s.push(x).to_set().contains(
        y,
    ) by {
        if y == x {
            assert(s.push(x)[s.len() as int] == y);
            assert(s.push(x).contains(y));
        } else {
            let j = choose|j: int| 0 <= j < s.len() && s[j] == y;
            assert(s.push(x)[j] == y);
            assert(s.push(x).contains(y));
        }
    }
    assert(s.push(x).to_set() =~= s.to_set().insert(x));
}

/// A registry of scene textures, keyed by their unique ids.
#[derive(Debug)]
pub struct TextureRegistry {
    /// The registered textures by id.
    pub map: HashMap<u64, Texture>,
}

impl TextureRegistry {
    /// An empty registry.
    pub fn new() -> (r: Self)
        ensures
            r.map@ == Map::<u64, Texture>::empty(),
    {
        TextureRegistry { map: HashMap::new() }
    }

    /// Whether the registry knows the id.
    pub fn contains(&self, tex_id: u64) -> (b: bool)
        ensures
            b == self.map@.contains_key(tex_id),
    {
        self.map.contains_key(&tex_id)
    }

    /// Register a texture under its id, replacing any texture the id
    /// already named.
    pub fn insert(&mut self, tex: Texture)
        ensures
            final(self).map@ == old(self).map@.insert(tex.id, tex),
    {
        self.map.insert(tex.id, tex);
    }

    /// Decide what to do with one incoming texture datum: a known id is
    /// updated — in the given region if one is given, else whole — and
    /// an unknown id is created, unless a region of it was asked for,
    /// which fails. Nothing is decided for any other combination.
    pub fn plan_set(&self, tex_id: u64, has_region: bool) -> (r: Result<
        TextureSetAction,
        EguiBackendError,
    >)
        ensures
            self.map@.contains_key(tex_id) && has_region ==> r == Ok::<_, EguiBackendError>(
                TextureSetAction::UpdateRegion,
            ),
            self.map@.contains_key(tex_id) && !has_region ==> r == Ok::<_, EguiBackendError>(
                TextureSetAction::UpdateWhole,
            ),
            !self.map@.contains_key(tex_id) && !has_region ==> r == Ok::<_, EguiBackendError>(
                TextureSetAction::Create,
            ),
            !self.map@.contains_key(tex_id) && has_region ==> r == Err::<TextureSetAction, _>(
                EguiBackendError::UnknownTextureId(tex_id),
            ),
    {
        if self.map.contains_key(&tex_id) {
            if has_region {
                Ok(TextureSetAction::UpdateRegion)
            } else {
                Ok(TextureSetAction::UpdateWhole)
            }
        } else {
            if has_region {
                Err(EguiBackendError::UnknownTextureId(tex_id))
            } else {
                Ok(TextureSetAction::Create)
            }
        }
    }

    /// Free the textures the given ids name, in order. Every id must
    /// name a registered texture at its turn; the first that does not
    /// stops the walk with an error, with exactly the ids before it
    /// already freed. The walk succeeds exactly when the ids are
    /// distinct and all registered.
    pub fn free_textures(&mut self, ids: &[u64]) -> (r: Result<(), EguiBackendError>)
        ensures
            r is Ok <==> ids@.no_duplicates() && forall|i: int|
                0 <= i < ids@.len() ==> old(self).map@.contains_key(#[trigger] ids@[i]),
            r is Ok ==> final(self).map@ == old(self).map@.remove_keys(ids@.to_set()),
            r matches Err(e) ==> exists|i: int|
                {
                    &&& 0 <= i < ids@.len()
                    &&& e == EguiBackendError::UnknownTextureId(#[trigger] ids@[i])
                    &&& final(self).map@ == old(self).map@.remove_keys(ids@.take(i).to_set())
                    &&& forall|j: int| 0 <= j < i ==> old(self).map@.contains_key(
                        #[trigger] ids@[j],
                    )
                },
    {
        let n = ids.len();
        let mut i: usize = 0;
        while i < n
            invariant
                n == ids@.len(),
                0 <= i <= n,
                ids@.take(i as int).no_duplicates(),
                forall|j: int| 0 <= j < i ==> old(self).map@.contains_key(#[trigger] ids@[j]),
                self.map@ == old(self).map@.remove_keys(ids@.take(i as int).to_set()),
            decreases n - i,
        {
            let id = ids[i];
            if self.map.contains_key(&id) {
                self.map.remove(&id);
                proof {
                    assert(ids@.take(i + 1).drop_last() =~= ids@.take(i as int));
                    assert(ids@.take(i + 1) =~= ids@.take(i as int).push(ids@[i as int]));
                    assert(!ids@.take(i as int).to_set().contains(ids@[i as int]));
                    lemma_push_to_set(ids@.take(i as int), id);
                    assert(self.map@ =~= old(self).map@.remove_keys(ids@.take(i + 1).to_set()));
                }
            } else {
                return Err(EguiBackendError::UnknownTextureId(id));
            }
            i = i + 1;
        }
        proof {
            assert(ids@.take(n as int) =~= ids@);
        }
        Ok(())
    }
}

} // verus!
