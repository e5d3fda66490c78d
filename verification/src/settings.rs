//! The settings document, as the resolver reads it.
//!
//! The host keeps per-project configuration under the `workman-lsp`
//! namespace and hands it over as an opaque key-value document.  Only five
//! keys matter to the resolver: `binary.path` and `binary.arguments` from
//! the binary override, and `serverPath`, `denoConfig` and `serverRoot`
//! from the location settings.  The adapter extracts those keys into
//! [`SettingsDoc`]; a missing document is the document with every field
//! absent.
//!
//! Contracts speak of the document through [`SettingsView`], which
//! flattens the two optional sub-documents: an absent sub-document and a
//! present one whose fields are all absent read the same way, and the
//! resolver treats them the same way.

use vstd::prelude::*;

verus! {

/// The `binary` sub-document: an explicit interpreter override.
pub struct BinaryOverride {
    /// `binary.path`: the interpreter to use, verbatim.
    pub path: Option<String>,
    /// `binary.arguments`: the full argument vector, verbatim.
    pub arguments: Option<Vec<String>>,
}

/// The location keys of the `settings` sub-document.
pub struct LocationOverride {
    /// `serverPath`: the entry script itself.
    pub server_path: Option<String>,
    /// `denoConfig`: the configuration file, next to an explicit script.
    pub deno_config: Option<String>,
    /// `serverRoot`: a directory holding the conventional server layout.
    pub server_root: Option<String>,
}

/// The settings document for one project, reduced to the keys the
/// resolver consumes.
pub struct SettingsDoc {
    /// The binary override, where the document has one.
    pub binary: Option<BinaryOverride>,
    /// The location settings, where the document has them.
    pub settings: Option<LocationOverride>,
}

/// The mathematical reading of a settings document: each consumed key,
/// present or absent.
pub struct SettingsView {
    pub binary_path: Option<Seq<char>>,
    pub binary_arguments: Option<Seq<Seq<char>>>,
    pub server_path: Option<Seq<char>>,
    pub deno_config: Option<Seq<char>>,
    pub server_root: Option<Seq<char>>,
}

impl View for SettingsDoc {
    type V = SettingsView;

    open spec fn view(&self) -> SettingsView {
        SettingsView {
            binary_path: match self.binary {
                Some(b) => b.path.deep_view(),
                None => None,
            },
            binary_arguments: match self.binary {
                Some(b) => b.arguments.deep_view(),
                None => None,
            },
            server_path: match self.settings {
                Some(s) => s.server_path.deep_view(),
                None => None,
            },
            deno_config: match self.settings {
                Some(s) => s.deno_config.deep_view(),
                None => None,
            },
            server_root: match self.settings {
                Some(s) => s.server_root.deep_view(),
                None => None,
            },
        }
    }
}

impl SettingsDoc {
    /// The document with every key absent: what an absent or unreadable
    /// settings document falls back to.
    pub fn empty() -> (r: SettingsDoc)
        ensures
            r@.binary_path is None,
            r@.binary_arguments is None,
            r@.server_path is None,
            r@.deno_config is None,
            r@.server_root is None,
    {
        SettingsDoc { binary: None, settings: None }
    }
}

} // verus!
