//! The ways in which finding or installing a tool fails.

use crate::text::contains;
use vstd::prelude::*;
use vstd::string::*;

verus! {

/// Why no path to the tool could be produced. Each is final for the attempt
/// in which it arises: nothing is retried.
#[derive(Debug, PartialEq, Eq)]
pub enum ResolveError {
    /// The release feed could not be reached or holds no stable release with
    /// files attached.
    ReleaseLookup { cause: String },
    /// The release has no file of the name that this platform needs.
    AssetNotFound { asset_name: String },
    /// The directory for the release could not be created.
    DirectoryCreate { directory: String, cause: String },
    /// The file could not be fetched or unpacked.
    Download { cause: String },
    /// The installed file could not be made executable.
    Permission { cause: String },
    /// The working directory could not be listed.
    DirectoryList { cause: String },
}

/// A [`ResolveError`] as plain values.
pub enum ResolveErrorView {
    ReleaseLookup { cause: Seq<char> },
    AssetNotFound { asset_name: Seq<char> },
    DirectoryCreate { directory: Seq<char>, cause: Seq<char> },
    Download { cause: Seq<char> },
    Permission { cause: Seq<char> },
    DirectoryList { cause: Seq<char> },
}

impl View for ResolveError {
    type V = ResolveErrorView;

    open spec fn view(&self) -> ResolveErrorView {
        match self {
            ResolveError::ReleaseLookup { cause } => ResolveErrorView::ReleaseLookup {
                cause: cause@,
            },
            ResolveError::AssetNotFound { asset_name } => ResolveErrorView::AssetNotFound {
                asset_name: asset_name@,
            },
            ResolveError::DirectoryCreate { directory, cause } => ResolveErrorView::DirectoryCreate {
                directory: directory@,
                cause: cause@,
            },
            ResolveError::Download { cause } => ResolveErrorView::Download { cause: cause@ },
            ResolveError::Permission { cause } => ResolveErrorView::Permission { cause: cause@ },
            ResolveError::DirectoryList { cause } => ResolveErrorView::DirectoryList {
                cause: cause@,
            },
        }
    }
}

impl Clone for ResolveError {
    fn clone(&self) -> (copy: ResolveError)
        ensures
            copy@ == self@,
    {
        match self {
            ResolveError::ReleaseLookup { cause } => ResolveError::ReleaseLookup {
                cause: cause.clone(),
            },
            ResolveError::AssetNotFound { asset_name } => ResolveError::AssetNotFound {
                asset_name: asset_name.clone(),
            },
            ResolveError::DirectoryCreate { directory, cause } => ResolveError::DirectoryCreate {
                directory: directory.clone(),
                cause: cause.clone(),
            },
            ResolveError::Download { cause } => ResolveError::Download { cause: cause.clone() },
            ResolveError::Permission { cause } => ResolveError::Permission {
                cause: cause.clone(),
            },
            ResolveError::DirectoryList { cause } => ResolveError::DirectoryList {
                cause: cause.clone(),
            },
        }
    }
}

/// What went wrong, in one line, without the advice that follows it.
pub open spec fn headline_of(error: ResolveErrorView) -> Seq<char> {
    match error {
        ResolveErrorView::ReleaseLookup { cause } => cause,
        ResolveErrorView::AssetNotFound { asset_name } => "no asset found matching \""@
            + asset_name + "\""@,
        ResolveErrorView::DirectoryCreate { directory, cause } => "failed to create directory '"@
            + directory + "': "@ + cause,
        ResolveErrorView::Download { cause } => "failed to download file: "@ + cause,
        ResolveErrorView::Permission { cause } => cause,
        ResolveErrorView::DirectoryList { cause } => "failed to list working directory "@ + cause,
    }
}

/// The text shown to the user: the headline, an empty line, and the advice.
pub open spec fn message_of(error: ResolveErrorView, remediation: Seq<char>) -> Seq<char> {
    headline_of(error) + "\n\n"@ + remediation
}

impl ResolveError {
    /// The text to show to the user, which ends with `remediation`.
    pub fn message(&self, remediation: &str) -> (text: String)
        ensures
            text@ == message_of(self@, remediation@),
    {
        let mut text = match self {
            ResolveError::ReleaseLookup { cause } => cause.clone(),
            ResolveError::AssetNotFound { asset_name } => {
                let mut line = String::from_str("no asset found matching \"");
                line.append(asset_name.as_str());
                line.append("\"");
                line
            },
            ResolveError::DirectoryCreate { directory, cause } => {
                let mut line = String::from_str("failed to create directory '");
                line.append(directory.as_str());
                line.append("': ");
                line.append(cause.as_str());
                line
            },
            ResolveError::Download { cause } => {
                let mut line = String::from_str("failed to download file: ");
                line.append(cause.as_str());
                line
            },
            ResolveError::Permission { cause } => cause.clone(),
            ResolveError::DirectoryList { cause } => {
                let mut line = String::from_str("failed to list working directory ");
                line.append(cause.as_str());
                line
            },
        };
        text.append("\n\n");
        text.append(remediation);
        text
    }
}

/// Every message ends with the advice, whatever went wrong.
pub proof fn lemma_message_ends_with_remediation(error: ResolveErrorView, remediation: Seq<char>)
    ensures
        remediation.is_suffix_of(message_of(error, remediation)),
{
    let text = message_of(error, remediation);
    let lead = headline_of(error) + "\n\n"@;
    assert(text == lead + remediation);
    assert(text.subrange(text.len() - remediation.len(), text.len() as int) =~= remediation);
}

/// The message for a missing file quotes the name that was looked for.
pub proof fn lemma_missing_asset_is_named(asset_name: Seq<char>, remediation: Seq<char>)
    ensures
        contains(
            message_of(ResolveErrorView::AssetNotFound { asset_name }, remediation),
            asset_name,
        ),
{
    let text = message_of(ResolveErrorView::AssetNotFound { asset_name }, remediation);
    let lead = "no asset found matching \""@;
    let at = lead.len() as int;
    assert(text.subrange(at, at + asset_name.len()) =~= asset_name);
}

} // verus!
