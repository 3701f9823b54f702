//! Field-level UI descriptions for record types.
//!
//! A record type registers, once, an ordered list of field descriptors:
//! which fields are visible to a user interface and which widget each one
//! is rendered with. From that registry the library derives a serializable
//! presentation, and applies incoming change events to a record instance
//! with full type checking: an event either updates exactly the named
//! field or fails with a typed error and leaves the instance untouched.

pub mod change;
pub mod export;
pub mod record;
pub mod registry;
pub mod representation;
pub mod toggle;

pub use change::UIChangable;
pub use change::UIChangableError;
pub use change::UIChangeEvent;
pub use change::UIChangeEventVariant;
pub use representation::UIRepresentation;
pub use representation::UIRepresentationVariant;
pub use representation::UIRepresented;
