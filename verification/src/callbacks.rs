//! Data that is attached to a session of a TLS engine, so that a callback of
//! the engine finds it again.
//!
//! An engine gives a session one slot for a pointer and never frees what the
//! pointer leads to. The registry is what goes into that slot: it owns every
//! value attached to the session, one for each type, and frees them when the
//! session ends.

use std::any::Any;
use std::any::TypeId;
use std::collections::HashMap;
use vstd::prelude::*;

verus! {

#[verifier::external_type_specification]
#[verifier::external_body]
pub struct ExTypeId(TypeId);

/// One value attached to a session. The value can be of any type, so nothing
/// is known of it here: it is only kept and handed back.
#[verifier::external_body]
pub struct UserData {
    pub data: Box<dyn Any>,
}

/// The values attached to one session, by their types.
pub struct ExtraUserDataRegistry {
    pub user_data: HashMap<TypeId, UserData>,
}

impl ExtraUserDataRegistry {
    /// A registry to which nothing is attached yet.
    pub fn new() -> (registry: Self)
        ensures
            registry.user_data@ == Map::<TypeId, UserData>::empty(),
    {
        Self { user_data: HashMap::new() }
    }
}

} // verus!
