//! The geometry cache: vertex and index lists kept on the CPU side and
//! addressed by the handle that registering them returned.

use vstd::prelude::*;
use crate::vertex::Vertex;

verus! {

/// A store of vertex lists and index lists. A handle is the position at which
/// a list was registered; lists are never changed or removed, so a handle
/// stays valid for as long as the cache lives.
#[derive(Debug)]
pub struct GeometryCache {
    vertices: Vec<Vec<Vertex>>,
    indices: Vec<Vec<u16>>,
}

impl GeometryCache {
    /// The vertex lists registered so far, by handle.
    pub closed spec fn vertex_lists(&self) -> Seq<Seq<Vertex>> {
        Seq::new(self.vertices@.len(), |i: int| self.vertices@[i]@)
    }

    /// The index lists registered so far, by handle.
    pub closed spec fn index_lists(&self) -> Seq<Seq<u16>> {
        Seq::new(self.indices@.len(), |i: int| self.indices@[i]@)
    }

    /// A cache with nothing in it.
    pub fn new() -> (cache: GeometryCache)
        ensures
            cache.vertex_lists() == Seq::<Seq<Vertex>>::empty(),
            cache.index_lists() == Seq::<Seq<u16>>::empty(),
    {
        let cache = GeometryCache { vertices: Vec::new(), indices: Vec::new() };
        assert(cache.vertex_lists() =~= Seq::<Seq<Vertex>>::empty());
        assert(cache.index_lists() =~= Seq::<Seq<u16>>::empty());
        cache
    }

    /// Stores a vertex list and returns its handle: the next one that was
    /// not in use. Every list stored before keeps its handle.
    pub fn alloc_vertex(&mut self, vertex: Vec<Vertex>) -> (handle: usize)
        ensures
            handle == old(self).vertex_lists().len(),
            final(self).vertex_lists() == old(self).vertex_lists().push(vertex@),
            final(self).index_lists() == old(self).index_lists(),
    {
        let handle = self.vertices.len();
        self.vertices.push(vertex);
        assert(self.vertex_lists() =~= old(self).vertex_lists().push(vertex@));
        assert(self.index_lists() =~= old(self).index_lists());
        handle
    }

    /// Stores an index list and returns its handle: the next one that was
    /// not in use. Every list stored before keeps its handle.
    pub fn alloc_index(&mut self, index: Vec<u16>) -> (handle: usize)
        ensures
            handle == old(self).index_lists().len(),
            final(self).index_lists() == old(self).index_lists().push(index@),
            final(self).vertex_lists() == old(self).vertex_lists(),
    {
        let handle = self.indices.len();
        self.indices.push(index);
        assert(self.index_lists() =~= old(self).index_lists().push(index@));
        assert(self.vertex_lists() =~= old(self).vertex_lists());
        handle
    }

    /// The vertex list behind `handle`, if a list was registered under it.
    pub fn get_vertex(&self, handle: usize) -> (list: Option<&Vec<Vertex>>)
        ensures
            list is Some <==> handle < self.vertex_lists().len(),
            list matches Some(l) ==> l@ == self.vertex_lists()[handle as int],
    {
        if handle < self.vertices.len() {
            Some(&self.vertices[handle])
        } else {
            None
        }
    }

    /// The index list behind `handle`, if a list was registered under it.
    pub fn get_index(&self, handle: usize) -> (list: Option<&Vec<u16>>)
        ensures
            list is Some <==> handle < self.index_lists().len(),
            list matches Some(l) ==> l@ == self.index_lists()[handle as int],
    {
        if handle < self.indices.len() {
            Some(&self.indices[handle])
        } else {
            None
        }
    }

    /// The number of vertex lists in the cache.
    pub fn vertex_count(&self) -> (n: usize)
        ensures
            n == self.vertex_lists().len(),
    {
        self.vertices.len()
    }

    /// The number of index lists in the cache.
    pub fn index_count(&self) -> (n: usize)
        ensures
            n == self.index_lists().len(),
    {
        self.indices.len()
    }
}

/// The store and the handles that come of registering `lists` one after the
/// other in a store that holds `store`.
pub open spec fn register_all<T>(store: Seq<Seq<T>>, lists: Seq<Seq<T>>) -> (Seq<Seq<T>>, Seq<int>)
    decreases lists.len(),
{
    if lists.len() == 0 {
        (store, Seq::empty())
    } else {
        let (before, handles) = register_all(store, lists.drop_last());
        (before.push(lists.last()), handles.push(before.len() as int))
    }
}

/// Registering lists one after the other appends them to the store, and the
/// handles count up from the size the store had.
pub proof fn register_all_appends<T>(store: Seq<Seq<T>>, lists: Seq<Seq<T>>)
    ensures
        register_all(store, lists).0 == store + lists,
        register_all(store, lists).1.len() == lists.len(),
        forall|i: int|
            0 <= i < lists.len() ==> #[trigger] register_all(store, lists).1[i] == store.len() + i,
    decreases lists.len(),
{
    if lists.len() == 0 {
        assert(store + lists =~= store);
    } else {
        register_all_appends(store, lists.drop_last());
        assert((store + lists.drop_last()).push(lists.last()) =~= store + lists);
    }
}

/// The round trip: of any number of lists registered one after the other,
/// each is found again under its own handle, unchanged; no two of them share
/// a handle; and what the store held before is still found where it was.
pub proof fn registered_lists_round_trip<T>(store: Seq<Seq<T>>, lists: Seq<Seq<T>>)
    ensures
        register_all(store, lists).1.len() == lists.len(),
        forall|i: int|
            0 <= i < lists.len() ==> 0 <= #[trigger] register_all(store, lists).1[i]
                < register_all(store, lists).0.len(),
        forall|i: int|
            0 <= i < lists.len() ==> register_all(store, lists).0[#[trigger] register_all(
                store,
                lists,
            ).1[i]] == lists[i],
        forall|i: int, j: int|
            0 <= i < j < lists.len() ==> #[trigger] register_all(store, lists).1[i]
                != #[trigger] register_all(store, lists).1[j],
        forall|h: int|
            0 <= h < store.len() ==> #[trigger] register_all(store, lists).0[h] == store[h],
{
    register_all_appends(store, lists);
}

} // verus!
