//! The texture set: a two-way table between small indices and texture
//! handles, so that animation data can name a texture by an integer.

use crate::fnv_map::fnv_map_get;
use crate::fnv_map::fnv_map_insert;
use crate::fnv_map::fnv_map_new;
use crate::fnv_map::fnv_map_remove;
use fnv::FnvHashMap;
use vstd::prelude::*;

verus! {

/// A reference to a loaded texture. Two handles are the same reference exactly
/// when their ids are equal.
#[derive(Debug, Clone, Copy, PartialEq, Eq, Structural, Hash)]
pub struct TextureHandle {
    pub id: u32,
}

/// The mathematical content of a [`MaterialTextureSet`]: the forward table
/// from index to handle and the inverse table from handle to index.
pub struct TextureSetView {
    pub forward: Map<usize, TextureHandle>,
    pub inverse: Map<TextureHandle, usize>,
}

impl TextureSetView {
    /// The set with no binding in either direction.
    pub open spec fn empty() -> TextureSetView {
        TextureSetView { forward: Map::empty(), inverse: Map::empty() }
    }

    /// The handle bound to `index`, if any.
    pub open spec fn handle(self, index: usize) -> Option<TextureHandle> {
        if self.forward.contains_key(index) {
            Some(self.forward[index])
        } else {
            None
        }
    }

    /// The index recorded for `handle`, if any.
    pub open spec fn index(self, handle: TextureHandle) -> Option<usize> {
        if self.inverse.contains_key(handle) {
            Some(self.inverse[handle])
        } else {
            None
        }
    }

    /// Binds `index` to `handle` and records `index` for `handle`. Whatever
    /// the inverse table held for a handle displaced from `index` stays.
    pub open spec fn insert(self, index: usize, handle: TextureHandle) -> TextureSetView {
        TextureSetView {
            forward: self.forward.insert(index, handle),
            inverse: self.inverse.insert(handle, index),
        }
    }

    /// Unbinds `index`, and with it the inverse entry of the handle it was
    /// bound to. Nothing changes where `index` was unbound.
    pub open spec fn remove(self, index: usize) -> TextureSetView {
        if self.forward.contains_key(index) {
            TextureSetView {
                forward: self.forward.remove(index),
                inverse: self.inverse.remove(self.forward[index]),
            }
        } else {
            self
        }
    }

    /// The two tables mirror each other: every forward binding has its
    /// inverse entry and every inverse entry its forward binding.
    pub open spec fn consistent(self) -> bool {
        &&& forall|i: usize| #[trigger]
            self.forward.contains_key(i) ==> self.inverse.contains_key(self.forward[i])
                && self.inverse[self.forward[i]] == i
        &&& forall|h: TextureHandle| #[trigger]
            self.inverse.contains_key(h) ==> self.forward.contains_key(self.inverse[h])
                && self.forward[self.inverse[h]] == h
    }
}

/// Textures that animations may refer to, each under an index.
#[derive(Debug)]
pub struct MaterialTextureSet {
    textures: FnvHashMap<usize, u32>,
    texture_inverse: FnvHashMap<u32, usize>,
}

impl View for MaterialTextureSet {
    type V = TextureSetView;

    closed spec fn view(&self) -> TextureSetView {
        TextureSetView {
            forward: Map::new(
                |i: usize| self.textures@.contains_key(i),
                |i: usize| TextureHandle { id: self.textures@[i] },
            ),
            inverse: Map::new(
                |h: TextureHandle| self.texture_inverse@.contains_key(h.id),
                |h: TextureHandle| self.texture_inverse@[h.id],
            ),
        }
    }
}

impl Default for MaterialTextureSet {
    fn default() -> (set: Self)
        ensures
            set@ == TextureSetView::empty(),
    {
        MaterialTextureSet::new()
    }
}

impl MaterialTextureSet {
    /// A set without any texture.
    pub fn new() -> (set: Self)
        ensures
            set@ == TextureSetView::empty(),
    {
        let set = MaterialTextureSet { textures: fnv_map_new(), texture_inverse: fnv_map_new() };
        assert(set@.forward =~= Map::empty());
        assert(set@.inverse =~= Map::empty());
        set
    }

    /// The handle stored under `index`.
    pub fn handle(&self, index: usize) -> (found: Option<TextureHandle>)
        ensures
            found == self@.handle(index),
    {
        broadcast use vstd::std_specs::hash::group_hash_axioms;

        match fnv_map_get(&self.textures, &index) {
            Some(id) => Some(TextureHandle { id: *id }),
            None => None,
        }
    }

    /// The index under which `handle` was last stored.
    pub fn index(&self, handle: &TextureHandle) -> (found: Option<usize>)
        ensures
            found == self@.index(*handle),
    {
        broadcast use vstd::std_specs::hash::group_hash_axioms;

        match fnv_map_get(&self.texture_inverse, &handle.id) {
            Some(index) => Some(*index),
            None => None,
        }
    }

    /// Stores `handle` under `index`, replacing what `index` held.
    pub fn insert(&mut self, index: usize, handle: TextureHandle)
        ensures
            final(self)@ == old(self)@.insert(index, handle),
    {
        broadcast use vstd::std_specs::hash::group_hash_axioms;

        fnv_map_insert(&mut self.textures, index, handle.id);
        fnv_map_insert(&mut self.texture_inverse, handle.id, index);
        assert(self@.forward =~= old(self)@.forward.insert(index, handle));
        assert(self@.inverse =~= old(self)@.inverse.insert(handle, index));
    }

    /// Removes the texture stored under `index`, if there is one.
    pub fn remove(&mut self, index: usize)
        ensures
            final(self)@ == old(self)@.remove(index),
    {
        broadcast use vstd::std_specs::hash::group_hash_axioms;

        if let Some(id) = fnv_map_remove(&mut self.textures, &index) {
            fnv_map_remove(&mut self.texture_inverse, &id);
            assert(self@.forward =~= old(self)@.forward.remove(index));
            assert(self@.inverse =~= old(self)@.inverse.remove(TextureHandle { id }));
        } else {
            assert(self@.forward =~= old(self)@.forward);
            assert(self@.inverse =~= old(self)@.inverse);
        }
    }

    /// Removes every texture.
    pub fn clear(&mut self)
        ensures
            final(self)@ == TextureSetView::empty(),
    {
        self.textures.clear();
        self.texture_inverse.clear();
        assert(self@.forward =~= Map::empty());
        assert(self@.inverse =~= Map::empty());
    }
}

/// A binding just made is found in both directions: right after `handle` is
/// stored under `index`, looking up `index` gives `handle` and looking up
/// `handle` gives `index`.
pub proof fn lemma_insert_round_trip(set: TextureSetView, index: usize, handle: TextureHandle)
    ensures
        set.insert(index, handle).handle(index) == Some(handle),
        set.insert(index, handle).index(handle) == Some(index),
{
}

/// Removing an index right after it was bound leaves neither the index nor
/// the handle to be found.
pub proof fn lemma_insert_remove(set: TextureSetView, index: usize, handle: TextureHandle)
    ensures
        set.insert(index, handle).remove(index).handle(index).is_none(),
        set.insert(index, handle).remove(index).index(handle).is_none(),
{
}

/// Binding an index a second time replaces its handle, while the inverse
/// entry of the first handle stays as the first binding left it.
pub proof fn lemma_insert_overwrite(
    set: TextureSetView,
    index: usize,
    first: TextureHandle,
    second: TextureHandle,
)
    ensures
        set.insert(index, first).insert(index, second).handle(index) == Some(second),
        set.insert(index, first).insert(index, second).index(first) == set.insert(
            index,
            first,
        ).index(first),
        set.insert(index, first).insert(index, second).index(first) == Some(index),
{
}

/// Binding one index leaves the binding of every other index as it was.
pub proof fn lemma_insert_keeps_other_indices(
    set: TextureSetView,
    index: usize,
    handle: TextureHandle,
    other: usize,
)
    requires
        other != index,
    ensures
        set.insert(index, handle).handle(other) == set.handle(other),
{
}

/// Binding an index to a handle leaves the index recorded for every other
/// handle as it was: a handle displaced from the index keeps its entry.
pub proof fn lemma_insert_keeps_other_handles(
    set: TextureSetView,
    index: usize,
    handle: TextureHandle,
    other: TextureHandle,
)
    requires
        other != handle,
    ensures
        set.insert(index, handle).index(other) == set.index(other),
{
}

/// Removing an index that is not bound changes nothing.
pub proof fn lemma_remove_unbound(set: TextureSetView, index: usize)
    requires
        set.handle(index).is_none(),
    ensures
        set.remove(index) == set,
{
}

/// Removing an index leaves the binding of every other index as it was.
pub proof fn lemma_remove_keeps_other_indices(set: TextureSetView, index: usize, other: usize)
    requires
        other != index,
    ensures
        set.remove(index).handle(other) == set.handle(other),
{
}

/// The empty set is consistent.
pub proof fn lemma_empty_consistent()
    ensures
        TextureSetView::empty().consistent(),
{
}

/// A consistent set stays consistent when an unbound index is bound to a
/// handle that the set does not know yet.
pub proof fn lemma_insert_fresh_consistent(
    set: TextureSetView,
    index: usize,
    handle: TextureHandle,
)
    requires
        set.consistent(),
        set.handle(index).is_none(),
        set.index(handle).is_none(),
    ensures
        set.insert(index, handle).consistent(),
{
}

/// A consistent set stays consistent when an index is removed.
pub proof fn lemma_remove_consistent(set: TextureSetView, index: usize)
    requires
        set.consistent(),
    ensures
        set.remove(index).consistent(),
{
}

/// In a consistent set the two lookups invert each other.
pub proof fn lemma_consistent_lookups_invert(
    set: TextureSetView,
    index: usize,
    handle: TextureHandle,
)
    requires
        set.consistent(),
    ensures
        set.handle(index) == Some(handle) <==> set.index(handle) == Some(index),
{
}

} // verus!
