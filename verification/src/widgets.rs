//! Rendering-agnostic descriptions of the configuration controls the
//! sandboxed module asks the host to show. The module hands back the same
//! shared list while its structure is unchanged, so the host compares widget
//! lists by an identity token rather than structurally.

use vstd::prelude::*;

verus! {

/// One option of a choice control.
pub struct ChoiceOption {
    pub key: String,
    pub description: String,
}

/// A pattern that a file-select control filters files by.
pub enum FileFilter {
    /// A name with an optional human description and a glob-like pattern.
    Name { description: Option<String>, pattern: String },
    /// A MIME type, possibly with a wildcard subtype.
    MimeType(String),
}

/// What kind of control a widget is, with its defaults.
pub enum WidgetKind {
    Title { heading_level: u32 },
    Bool { default_value: bool },
    Choice { default_option_key: String, options: Vec<ChoiceOption> },
    FileSelect { filters: Vec<FileFilter> },
}

/// One configuration control: its settings key, what to show the user, and
/// its kind.
pub struct WidgetDescriptor {
    pub key: String,
    pub description: String,
    pub tooltip: Option<String>,
    pub kind: WidgetKind,
}

} // verus!
