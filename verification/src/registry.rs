//! The provider registry: one adapter per known vendor, built eagerly at
//! startup, with lookup by vendor id. Lookup is total: an unknown id
//! cannot arise, since `ConnectionProvider` is a closed enum.
use vstd::prelude::*;

use crate::notion::NotionConnectionProvider;
use crate::provider::{ConnectionProvider, Provider};

verus! {

pub struct ProviderRegistry {
    pub notion: NotionConnectionProvider,
}

impl ProviderRegistry {
    /// Construction is eager: every known vendor gets its adapter here,
    /// so that lookup can never fail later.
    pub fn new(notion: NotionConnectionProvider) -> (r: Self)
        ensures
            r.notion == notion,
    {
        ProviderRegistry { notion }
    }

    /// The adapter serving `id`. With one known vendor the result type is
    /// that vendor's adapter; its `spec_id` always matches the key.
    pub fn provider_for(&self, id: ConnectionProvider) -> (r: &NotionConnectionProvider)
        ensures
            r.spec_id() == id,
            r == &self.notion,
    {
        match id {
            ConnectionProvider::Notion => &self.notion,
        }
    }
}

} // verus!
