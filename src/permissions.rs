use vstd::prelude::*;

use crate::models::McpServerConfig;

verus! {

/// The operation categories that a capability flag can enable.
#[derive(Debug, Clone, Copy, PartialEq, Eq, Structural)]
pub enum Category {
    Query,
    Create,
    Update,
    Delete,
}

/// The capability flags fixed when a server starts.
#[derive(Debug, Clone, Copy, PartialEq, Eq, Structural)]
pub struct ServerPermissions {
    pub allow_query: bool,
    pub allow_create: bool,
    pub allow_update: bool,
    pub allow_delete: bool,
}

impl ServerPermissions {
    /// Whether the flag of a category is set.
    pub open spec fn permits(self, category: Category) -> bool {
        match category {
            Category::Query => self.allow_query,
            Category::Create => self.allow_create,
            Category::Update => self.allow_update,
            Category::Delete => self.allow_delete,
        }
    }

    /// Evaluates the flag of a category at the time of the call.
    pub fn allows(&self, category: Category) -> (r: bool)
        ensures
            r == self.permits(category),
    {
        match category {
            Category::Query => self.allow_query,
            Category::Create => self.allow_create,
            Category::Update => self.allow_update,
            Category::Delete => self.allow_delete,
        }
    }
}

impl McpServerConfig {
    /// The capability flags of this configuration.
    pub fn permissions(&self) -> (r: ServerPermissions)
        ensures
            r.allow_query == self.allow_query,
            r.allow_create == self.allow_create,
            r.allow_update == self.allow_update,
            r.allow_delete == self.allow_delete,
    {
        ServerPermissions {
            allow_query: self.allow_query,
            allow_create: self.allow_create,
            allow_update: self.allow_update,
            allow_delete: self.allow_delete,
        }
    }
}

} // verus!
