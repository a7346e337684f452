//! Identity and liveness of the resources that the caches refer to.
//!
//! A resource (a texture, a shader program, a mesh buffer) is owned by the
//! asset system. The caches never own one: they remember its identity and
//! ask at each use whether the resource still has an owner. The identity is
//! a number that belongs to one resource alone for as long as any reference
//! to it, strong or weak, is held; what the resource contains plays no part
//! in it. A [`Handle`] stands for an owner's strong reference, a
//! [`WeakHandle`] for a reference that does not keep the resource alive.
//! Which resources are alive at the moment of a call is given by the caller
//! as the set of their identities, `live`.

use std::collections::HashSet;
use std::marker::PhantomData;
use vstd::prelude::*;

verus! {

/// Resource kind: a linked shader program.
#[derive(Clone, Copy, Debug)]
pub struct ShaderProgram {}

/// Resource kind: a vertex and index buffer pair.
#[derive(Clone, Copy, Debug)]
pub struct MeshBuffer {}

/// Resource kind: a texture.
#[derive(Clone, Copy, Debug)]
pub struct Texture {}

/// Resource kind: a material.
#[derive(Clone, Copy, Debug)]
pub struct Material {}

/// A strong reference to a resource of kind `T`, known by its identity.
#[derive(Debug)]
pub struct Handle<T> {
    pub id: u64,
    pub kind: PhantomData<T>,
}

/// A reference to a resource of kind `T` that does not keep it alive. It is
/// either empty or remembers the identity of the resource it was made from.
#[derive(Debug)]
pub struct WeakHandle<T> {
    pub target: Option<u64>,
    pub kind: PhantomData<T>,
}

impl<T> Clone for Handle<T> {
    fn clone(&self) -> (copy: Self)
        ensures
            copy == *self,
    {
        Handle { id: self.id, kind: PhantomData }
    }
}

impl<T> Copy for Handle<T> {

}

impl<T> Clone for WeakHandle<T> {
    fn clone(&self) -> (copy: Self)
        ensures
            copy == *self,
    {
        WeakHandle { target: self.target, kind: PhantomData }
    }
}

impl<T> Copy for WeakHandle<T> {

}

impl<T> Handle<T> {
    /// The weak reference that `downgrade` makes from this handle.
    pub open spec fn weak(&self) -> WeakHandle<T> {
        WeakHandle { target: Some(self.id), kind: PhantomData }
    }

    /// The handle of the resource whose identity is `id`.
    pub fn new(id: u64) -> (handle: Self)
        ensures
            handle.id == id,
    {
        Handle { id, kind: PhantomData }
    }

    /// A weak reference to the same resource.
    pub fn downgrade(&self) -> (weak: WeakHandle<T>)
        ensures
            weak == self.weak(),
    {
        WeakHandle { target: Some(self.id), kind: PhantomData }
    }

    /// Whether two handles refer to the same resource. Contents play no
    /// part: two resources with equal contents are still two resources.
    pub fn ptr_eq(this: &Self, other: &Self) -> (same: bool)
        ensures
            same == (this.id == other.id),
    {
        this.id == other.id
    }
}

impl<T> WeakHandle<T> {
    /// The weak reference that refers to nothing and never resolves.
    pub open spec fn empty() -> WeakHandle<T> {
        WeakHandle { target: None, kind: PhantomData }
    }

    /// Whether the reference resolves while exactly the resources in `live`
    /// are alive.
    pub open spec fn resolves(&self, live: Set<u64>) -> bool {
        match self.target {
            Some(id) => live.contains(id),
            None => false,
        }
    }

    /// What `upgrade` returns while exactly the resources in `live` are
    /// alive.
    pub open spec fn upgraded(&self, live: Set<u64>) -> Option<Handle<T>> {
        match self.target {
            Some(id) => if live.contains(id) {
                Some(Handle { id, kind: PhantomData })
            } else {
                None
            },
            None => None,
        }
    }

    /// Whether the reference resolves, and to the very resource that
    /// `handle` refers to.
    pub open spec fn points_to(&self, handle: Handle<T>, live: Set<u64>) -> bool {
        self.resolves(live) && self.target == Some(handle.id)
    }

    /// A weak reference that refers to nothing.
    pub fn new() -> (weak: Self)
        ensures
            weak == Self::empty(),
    {
        WeakHandle { target: None, kind: PhantomData }
    }

    /// A strong handle to the resource, if it is still alive.
    pub fn upgrade(&self, live: &HashSet<u64>) -> (strong: Option<Handle<T>>)
        ensures
            strong == self.upgraded(live@),
            strong is Some <==> self.resolves(live@),
    {
        broadcast use vstd::std_specs::hash::group_hash_axioms;

        match self.target {
            Some(id) => {
                if live.contains(&id) {
                    Some(Handle { id, kind: PhantomData })
                } else {
                    None
                }
            },
            None => None,
        }
    }

    /// Whether the reference resolves to the resource of `handle`.
    pub fn refers_to(&self, handle: &Handle<T>, live: &HashSet<u64>) -> (same: bool)
        ensures
            same == self.points_to(*handle, live@),
    {
        match self.upgrade(live) {
            None => false,
            Some(strong) => Handle::ptr_eq(handle, &strong),
        }
    }
}

} // verus!
