//! The flow of a request: what the router hands to middleware and handlers
//! along with it.

use crate::extractor::state::{Resource, ResourceMap, SharedResource};
use core::any::TypeId;
use std::sync::Arc;
use vstd::prelude::*;

verus! {

/// The resources of one request and a flag that says whether handling it was
/// interrupted. Made anew for every request.
pub struct RequestFlow {
    pub resources: ResourceMap,
    pub interrupted: bool,
}

/// `Arc::clone`: another handle to the same flow.
#[verifier::external_body]
pub(crate) fn share_flow(flow: &Arc<RequestFlow>) -> (copy: Arc<RequestFlow>)
    ensures
        copy == *flow,
{
    Arc::clone(flow)
}

impl RequestFlow {
    pub fn new(resources: ResourceMap) -> (flow: Self)
        ensures
            flow.resources == resources,
            !flow.interrupted,
    {
        Self { resources, interrupted: false }
    }

    pub fn set_resources(&mut self, resources: ResourceMap)
        ensures
            final(self).resources == resources,
            final(self).interrupted == old(self).interrupted,
    {
        self.resources = resources;
    }

    /// Puts a handle to a resource under the token of its type.
    pub fn insert_resource(&mut self, id: TypeId, resource: SharedResource)
        ensures
            final(self).resources@ == old(self).resources@.insert(id, resource),
            final(self).interrupted == old(self).interrupted,
    {
        let ghost before = self.resources.listing();
        self.resources.insert(id, resource);
        proof {
            crate::extractor::state::lemma_insert_is_map_insert(before, id, resource);
        }
    }

    /// Puts a resource under the token of its type.
    pub fn add_resource<T: Clone + Send + Sync + 'static>(&mut self, id: TypeId, resource: Resource<T>)
        ensures
            final(self).resources@.dom() == old(self).resources@.dom().insert(id),
            forall|other: TypeId|
                other != id && old(self).resources@.contains_key(other)
                    ==> final(self).resources@[other] == old(self).resources@[other],
            final(self).interrupted == old(self).interrupted,
    {
        self.insert_resource(id, SharedResource::new(resource));
    }

    /// The handle under the token of a type, if the flow holds one.
    pub fn find_resource(&self, id: &TypeId) -> (found: Option<&SharedResource>)
        ensures
            found is Some == self.resources@.contains_key(*id),
            found matches Some(r) ==> *r == self.resources@[*id],
    {
        self.resources.get(id)
    }

    /// The resource of type `T` under the token `id`. There is none where
    /// the flow holds nothing under the token, or something of another type.
    pub fn get_resource<T: Clone + Send + Sync + 'static>(&self, id: &TypeId) -> (found: Option<&T>)
        ensures
            !self.resources@.contains_key(*id) ==> found is None,
    {
        match self.resources.get(id) {
            Some(handle) => Resource::value_of(handle.get::<Resource<T>>()),
            None => None,
        }
    }

    pub fn interrupt(&mut self)
        ensures
            final(self).interrupted,
            final(self).resources == old(self).resources,
    {
        self.interrupted = true;
    }
}

} // verus!
