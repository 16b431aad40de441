//! Shared resources: values registered once with the router and handed, by
//! type, to every request.

use crate::extractor::{ExtractorError, FromRequest};
use crate::list_map::{key_index, lemma_key_index, map_of};
use crate::request::HttpRequest;
use core::any::{Any, TypeId};
use std::sync::Arc;
use vstd::prelude::*;

verus! {

/// `core::any::TypeId`: the token that stands for a type.
#[verifier::external_type_specification]
#[verifier::external_body]
pub struct ExTypeId(TypeId);

/// `==` on `TypeId`: whether two tokens stand for the same type.
#[verifier::external_body]
pub(crate) fn same_type(a: &TypeId, b: &TypeId) -> (same: bool)
    ensures
        same == (*a == *b),
{
    a == b
}

/// A handle to a resource of any type. Handles are cheap to copy, and every
/// copy leads to the same resource.
#[verifier::external_body]
pub struct SharedResource {
    handle: Arc<dyn Any + Send + Sync>,
}

/// `Arc::new`: a first handle to a value.
#[verifier::external_body]
fn new_handle<T: Send + Sync + 'static>(value: T) -> SharedResource {
    SharedResource { handle: Arc::new(value) }
}

/// `Arc::clone`: another handle to the same value.
#[verifier::external_body]
fn clone_handle(resource: &SharedResource) -> (copy: SharedResource)
    ensures
        copy == *resource,
{
    SharedResource { handle: Arc::clone(&resource.handle) }
}

/// `<dyn Any>::downcast_ref`: the value behind a handle, if it is of type `T`.
#[verifier::external_body]
fn downcast_handle<T: 'static>(resource: &SharedResource) -> Option<&T> {
    resource.handle.downcast_ref::<T>()
}

impl SharedResource {
    /// A handle to a value.
    pub fn new<T: Send + Sync + 'static>(value: T) -> SharedResource {
        new_handle(value)
    }

    /// Another handle to the same resource.
    pub fn share(&self) -> (copy: SharedResource)
        ensures
            copy == *self,
    {
        clone_handle(self)
    }

    /// The resource, if it is of type `T`.
    pub fn get<T: 'static>(&self) -> Option<&T> {
        downcast_handle(self)
    }
}

/// `TypeId::of`: the token of a type.
#[verifier::external_body]
fn type_id_of<T: 'static>() -> TypeId {
    TypeId::of::<T>()
}

/// A resource of type `T`, as a handler receives it.
pub struct Resource<T>(pub T);

impl<T> Resource<T> {
    pub fn new(value: T) -> (resource: Self)
        ensures
            resource.0 == value,
    {
        Resource(value)
    }

    /// The value of a resource that was found, if one was found.
    pub fn value_of(found: Option<&Resource<T>>) -> (value: Option<&T>)
        ensures
            value == match found {
                Some(resource) => Some(&resource.0),
                None => None,
            },
    {
        match found {
            Some(resource) => Some(&resource.0),
            None => None,
        }
    }

    /// The resource a handler asked for, if the request's flow holds one.
    pub fn from_found(found: Option<T>) -> (result: Result<Self, ExtractorError>)
        ensures
            result == match found {
                Some(value) => Ok::<Self, ExtractorError>(Resource(value)),
                None => Err(ExtractorError::UnregisteredExtension),
            },
    {
        match found {
            Some(value) => Ok(Resource(value)),
            None => Err(ExtractorError::UnregisteredExtension),
        }
    }
}

/// What a value offers that is kept as a resource: a handle to a copy of it
/// can be made.
pub trait ResourceObligations {
    /// A handle to a copy of the resource.
    fn clone_box(&self) -> SharedResource;
}

impl<T: Clone + Send + Sync + 'static> ResourceObligations for Resource<T> {
    fn clone_box(&self) -> SharedResource {
        SharedResource::new(Resource(self.0.clone()))
    }
}

impl<T: Clone + Send + Sync + 'static> FromRequest for Resource<T> {
    /// The resource is a copy of the one that the flow of the request holds
    /// for the type. A flow without resources has none, and then the
    /// extension is not registered; no other failure occurs.
    open spec fn extracts(index: usize, request: HttpRequest, result: Result<Self, ExtractorError>) -> bool {
        &&& result matches Err(e) ==> e == ExtractorError::UnregisteredExtension
        &&& (request.flow matches Some(flow) && flow.resources.listing().len() > 0) || result is Err
    }

    fn from_request(index: usize, request: &HttpRequest) -> (result: Result<Self, ExtractorError>) {
        let id = type_id_of::<Resource<T>>();
        match &request.flow {
            Some(flow) => match flow.resources.get(&id) {
                Some(handle) => match handle.get::<Resource<T>>() {
                    Some(resource) => {
                        proof {
                            crate::list_map::lemma_key_index(flow.resources.listing(), id, 0);
                        }
                        Ok(Resource(resource.0.clone()))
                    },
                    None => Err(ExtractorError::UnregisteredExtension),
                },
                None => Err(ExtractorError::UnregisteredExtension),
            },
            None => Err(ExtractorError::UnregisteredExtension),
        }
    }
}

/// The resources of a router or of a request, each under the token of its
/// type.
pub struct ResourceMap {
    entries: Vec<(TypeId, SharedResource)>,
}

impl ResourceMap {
    /// The entries in the order in which their types were first registered.
    pub closed spec fn listing(&self) -> Seq<(TypeId, SharedResource)> {
        self.entries@
    }

    pub open spec fn has(&self, id: TypeId) -> bool {
        key_index(self.listing(), id, 0) < self.listing().len()
    }

    pub fn new() -> (map: Self)
        ensures
            map.listing() == Seq::<(TypeId, SharedResource)>::empty(),
    {
        ResourceMap { entries: Vec::new() }
    }

    pub fn len(&self) -> (n: usize)
        ensures
            n == self.listing().len(),
    {
        self.entries.len()
    }

    fn position(&self, id: &TypeId) -> (at: usize)
        ensures
            at == key_index(self.listing(), *id, 0),
            at <= self.listing().len(),
    {
        let mut i: usize = 0;
        while i < self.entries.len()
            invariant
                i <= self.entries@.len(),
                key_index(self.listing(), *id, 0) == key_index(self.listing(), *id, i as int),
            decreases self.entries@.len() - i,
        {
            if same_type(&self.entries[i].0, id) {
                return i;
            }
            i += 1;
        }
        i
    }

    pub fn contains_key(&self, id: &TypeId) -> (b: bool)
        ensures
            b == self.has(*id),
            b == self@.contains_key(*id),
    {
        self.position(id) < self.entries.len()
    }

    pub fn get(&self, id: &TypeId) -> (found: Option<&SharedResource>)
        ensures
            found is Some == self.has(*id),
            found matches Some(r) ==> *r == self@[*id],
    {
        let at = self.position(id);
        if at < self.entries.len() {
            Some(&self.entries[at].1)
        } else {
            None
        }
    }

    /// Puts a resource under a token. A token that is new goes to the end;
    /// one that is present keeps its place and gets the new resource.
    pub fn insert(&mut self, id: TypeId, resource: SharedResource) -> (previous: Option<
        SharedResource,
    >)
        ensures
            previous is Some == old(self).has(id),
            previous matches Some(p) ==> p == old(self)@[id],
            final(self).listing() == (if old(self).has(id) {
                old(self).listing().update(key_index(old(self).listing(), id, 0), (id, resource))
            } else {
                old(self).listing().push((id, resource))
            }),
    {
        let at = self.position(&id);
        if at < self.entries.len() {
            let (_, previous) = self.entries.remove(at);
            self.entries.insert(at, (id, resource));
            assert(self.entries@ == old(self).entries@.update(at as int, (id, resource)));
            Some(previous)
        } else {
            self.entries.push((id, resource));
            None
        }
    }

    /// A map with another handle to each resource, under the same tokens in
    /// the same order.
    pub fn clone_all(&self) -> (copy: ResourceMap)
        ensures
            copy.listing() == self.listing(),
    {
        let mut entries: Vec<(TypeId, SharedResource)> = Vec::new();
        let mut i: usize = 0;
        while i < self.entries.len()
            invariant
                i <= self.entries@.len(),
                entries@.len() == i,
                forall|j: int| 0 <= j < i ==> #[trigger] entries@[j] == self.entries@[j],
            decreases self.entries@.len() - i,
        {
            let id = self.entries[i].0;
            let handle = self.entries[i].1.share();
            entries.push((id, handle));
            i += 1;
        }
        assert(entries@ == self.entries@);
        ResourceMap { entries }
    }
}

/// Putting a value under a key of a listing, at the key's place or at the
/// end, is an insertion into the map that the listing stands for.
pub proof fn lemma_insert_is_map_insert<A, B>(l: Seq<(A, B)>, k: A, v: B)
    ensures
        map_of(
            if key_index(l, k, 0) < l.len() {
                l.update(key_index(l, k, 0), (k, v))
            } else {
                l.push((k, v))
            },
        ) == map_of(l).insert(k, v),
{
    let at = key_index(l, k, 0);
    let m = if at < l.len() {
        l.update(at, (k, v))
    } else {
        l.push((k, v))
    };
    lemma_key_index(l, k, 0);
    assert forall|q: A| #[trigger]
        key_index(m, q, 0) == (if q == k {
            at
        } else if key_index(l, q, 0) < l.len() {
            key_index(l, q, 0)
        } else {
            m.len() as int
        }) by {
        lemma_key_index(l, q, 0);
        let found = key_index(l, q, 0);
        if q == k {
            assert forall|j: int| 0 <= j < at implies (#[trigger] m[j]).0 != q by {
                assert(l[j].0 != q);
            }
            crate::list_map::lemma_key_index_is(m, q, 0, at);
        } else if found < l.len() {
            assert forall|j: int| 0 <= j < found implies (#[trigger] m[j]).0 != q by {
                assert(l[j].0 != q);
            }
            crate::list_map::lemma_key_index_is(m, q, 0, found);
        } else {
            assert forall|j: int| 0 <= j < m.len() implies (#[trigger] m[j]).0 != q by {
                if j < l.len() {
                    assert(l[j].0 != q);
                }
            }
            crate::list_map::lemma_key_index_is(m, q, 0, m.len() as int);
        }
    }
    let want = map_of(l).insert(k, v);
    assert forall|q: A| map_of(m).contains_key(q) == want.contains_key(q) by {
        let _ = key_index(m, q, 0);
    }
    assert forall|q: A| map_of(m).contains_key(q) implies map_of(m)[q] == want[q] by {
        let _ = key_index(m, q, 0);
        lemma_key_index(l, q, 0);
    }
    assert(map_of(m) =~= want);
}

impl View for ResourceMap {
    type V = Map<TypeId, SharedResource>;

    open spec fn view(&self) -> Map<TypeId, SharedResource> {
        map_of(self.listing())
    }
}

} // verus!
