//! What the user's settings say of the tool.

use vstd::prelude::*;
use vstd::string::*;

verus! {

/// The settings of the tool's executable.
#[derive(Debug, PartialEq, Eq)]
pub struct BinarySettings {
    /// Where the executable lies.
    pub path: Option<String>,
}

/// The settings filed under the tool's name.
#[derive(Debug, PartialEq, Eq)]
pub struct ToolSettings {
    pub binary: Option<BinarySettings>,
}

/// [`BinarySettings`] as plain values.
pub struct BinarySettingsView {
    pub path: Option<Seq<char>>,
}

/// [`ToolSettings`] as plain values.
pub struct ToolSettingsView {
    pub binary: Option<BinarySettingsView>,
}

impl View for BinarySettings {
    type V = BinarySettingsView;

    open spec fn view(&self) -> BinarySettingsView {
        BinarySettingsView {
            path: match self.path {
                Some(path) => Some(path@),
                None => None,
            },
        }
    }
}

impl View for ToolSettings {
    type V = ToolSettingsView;

    open spec fn view(&self) -> ToolSettingsView {
        ToolSettingsView {
            binary: match self.binary {
                Some(binary) => Some(binary@),
                None => None,
            },
        }
    }
}

/// The path that `settings` give for the executable: the one at
/// `binary.path`, where the settings exist, hold one, and it is not empty.
pub open spec fn configured_path_of(settings: Option<ToolSettingsView>) -> Option<Seq<char>> {
    match settings {
        Some(ToolSettingsView { binary: Some(BinarySettingsView { path: Some(path) }) }) => {
            if path.len() > 0 {
                Some(path)
            } else {
                None
            }
        },
        _ => None,
    }
}

/// The path that `settings` give for the executable, as it was written:
/// nothing is checked of it, not even that a file lies there.
pub fn configured_path(settings: Option<ToolSettings>) -> (path: Option<String>)
    ensures
        match path {
            Some(path) => configured_path_of(crate::model::option_view(settings)) == Some(path@),
            None => configured_path_of(crate::model::option_view(settings)) is None,
        },
{
    match settings {
        Some(ToolSettings { binary: Some(BinarySettings { path: Some(path) }) }) => {
            if path.as_str().is_empty() {
                None
            } else {
                Some(path)
            }
        },
        _ => None,
    }
}

} // verus!
