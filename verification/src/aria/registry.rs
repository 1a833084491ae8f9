//! The error every registry operation reports.

use vstd::prelude::*;
use vstd::string::*;

verus! {

/// Error type for all registry operations.
#[derive(Debug)]
pub enum RegistryError {
    NotFound { entity: String, id: String },
    Duplicate { entity: String, name: String, tenant_id: String },
    InvalidInput(String),
    Database(String),
    Serialization(String),
}

impl RegistryError {
    /// The text an error is shown with.
    pub open spec fn text(&self) -> Seq<char> {
        match self {
            RegistryError::NotFound { entity, id } => "Not found: "@ + entity@ + " with id "@ + id@,
            RegistryError::Duplicate { entity, name, tenant_id } => "Duplicate: "@ + entity@ + " '"@
                + name@ + "' already exists for tenant "@ + tenant_id@,
            RegistryError::InvalidInput(m) => "Invalid input: "@ + m@,
            RegistryError::Database(m) => "Database error: "@ + m@,
            RegistryError::Serialization(m) => "Serialization error: "@ + m@,
        }
    }

    /// The error's message.
    pub fn message(&self) -> (s: String)
        ensures
            s@ == self.text(),
    {
        match self {
            RegistryError::NotFound { entity, id } => String::from_str("Not found: ").concat(
                entity.as_str(),
            ).concat(" with id ").concat(id.as_str()),
            RegistryError::Duplicate { entity, name, tenant_id } => String::from_str(
                "Duplicate: ",
            ).concat(entity.as_str()).concat(" '").concat(name.as_str()).concat(
                "' already exists for tenant ",
            ).concat(tenant_id.as_str()),
            RegistryError::InvalidInput(m) => String::from_str("Invalid input: ").concat(m.as_str()),
            RegistryError::Database(m) => String::from_str("Database error: ").concat(m.as_str()),
            RegistryError::Serialization(m) => String::from_str("Serialization error: ").concat(
                m.as_str(),
            ),
        }
    }
}

} // verus!
