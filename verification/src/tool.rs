//! What is known of the tool that is to be found or installed.

use vstd::prelude::*;
use vstd::string::*;

verus! {

/// An external tool: where it is published and how its files are named.
#[derive(Debug, PartialEq, Eq)]
pub struct Tool {
    /// The name of the executable. It is searched for under this name, its
    /// settings are filed under it, and published files begin with it.
    pub name: String,
    /// The repository whose releases publish the tool, as `owner/name`.
    pub repository: String,
    /// What to tell the user when the tool cannot be installed. It ends
    /// every error message.
    pub remediation: String,
}

/// A [`Tool`] as plain values.
pub struct ToolView {
    pub name: Seq<char>,
    pub repository: Seq<char>,
    pub remediation: Seq<char>,
}

impl View for Tool {
    type V = ToolView;

    open spec fn view(&self) -> ToolView {
        ToolView {
            name: self.name@,
            repository: self.repository@,
            remediation: self.remediation@,
        }
    }
}

impl Clone for Tool {
    fn clone(&self) -> (copy: Tool)
        ensures
            copy@ == self@,
    {
        Tool {
            name: self.name.clone(),
            repository: self.repository.clone(),
            remediation: self.remediation.clone(),
        }
    }
}

/// The FlatBuffers language server.
pub open spec fn flatbuffers_language_server() -> ToolView {
    ToolView {
        name: "flatbuffers-language-server"@,
        repository: "smpanaro/flatbuffers-language-server"@,
        remediation: "You can download a release manually or build from source here: https://github.com/smpanaro/flatbuffers-language-server\nOr open an issue here: https://github.com/smpanaro/zed-flatbuffers/issues"@,
    }
}

impl Tool {
    /// The FlatBuffers language server.
    pub fn flatbuffers() -> (tool: Tool)
        ensures
            tool@ == flatbuffers_language_server(),
    {
        Tool {
            name: String::from_str("flatbuffers-language-server"),
            repository: String::from_str("smpanaro/flatbuffers-language-server"),
            remediation: String::from_str(
                "You can download a release manually or build from source here: https://github.com/smpanaro/flatbuffers-language-server\nOr open an issue here: https://github.com/smpanaro/zed-flatbuffers/issues",
            ),
        }
    }
}

} // verus!
