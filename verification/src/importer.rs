//! Importers turn source file contents into typed assets.
//!
//! The file reading itself is I/O and lives with the host; the importers
//! here hold the value-level part: given the text of a source file and
//! the per-source importer state, produce the asset and its pinned
//! identifier.

mod ron_importer;
mod text_importer;

pub use ron_importer::RonImporter;
pub use text_importer::Text;
pub use text_importer::TextImporter;
