//! Finds which native package managers of the host can install a package,
//! composes their install commands, and narrows registry metadata down to the
//! repositories those managers serve.
pub mod error;
pub mod operating_system;
pub mod repology;
pub mod text;
