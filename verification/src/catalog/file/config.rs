//! Configuration for the file-backed catalog.

use vstd::prelude::*;

verus! {

/// The textual encoding a catalog configuration document is written in.
#[derive(Debug, Clone, Copy, PartialEq, Eq, Structural)]
pub enum FileFormat {
    /// JSON encoding.
    Json,
    /// YAML encoding.
    Yaml,
    /// TOML encoding.
    Toml,
}

/// The mathematical content of a [`FileCatalogConfig`].
pub struct FileCatalogConfigView {
    /// View of the path of the configuration document.
    pub path: Seq<char>,
    /// The encoding of the configuration document.
    pub format: FileFormat,
}

/// Where the catalog configuration document lives and how it is encoded.
/// The path is kept for the embedding application, which reads the document;
/// the catalog itself only interprets the document's content.
#[derive(Debug, Clone)]
pub struct FileCatalogConfig {
    path: String,
    format: FileFormat,
}

impl View for FileCatalogConfig {
    type V = FileCatalogConfigView;

    closed spec fn view(&self) -> FileCatalogConfigView {
        FileCatalogConfigView { path: self.path@, format: self.format }
    }
}

impl FileCatalogConfig {
    /// Create a configuration for the document at `path`, encoded as YAML by
    /// default.
    pub fn new(path: &str) -> (r: Self)
        ensures
            r@ == (FileCatalogConfigView { path: path@, format: FileFormat::Yaml }),
    {
        Self { path: path.to_owned(), format: FileFormat::Yaml }
    }

    /// Set the encoding of the configuration document.
    pub fn with_format(self, format: FileFormat) -> (r: Self)
        ensures
            r@ == (FileCatalogConfigView { format, ..self@ }),
    {
        Self { format, ..self }
    }

    /// Return the path of the configuration document.
    pub fn path(&self) -> (r: &str)
        ensures
            r@ == self@.path,
    {
        self.path.as_str()
    }

    /// Return the encoding of the configuration document.
    pub fn format(&self) -> (r: FileFormat)
        ensures
            r == self@.format,
    {
        self.format
    }
}

} // verus!
