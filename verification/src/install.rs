//! What an install of a release consists of: the file to fetch, where it is
//! unpacked, and where the executable then lies.

use crate::error::{ResolveError, ResolveErrorView};
use crate::model::result_view;
use crate::platform::{
    arch_token, archive_extension, archive_kind_of, os_token, Arch, ArchiveKind, Os,
    PlatformTarget,
};
use crate::release::{first_named, ReleaseDescriptor, ReleaseView};
use crate::tool::{Tool, ToolView};
use vstd::prelude::*;
use vstd::string::*;

verus! {

/// The name under which the build of `version` of the tool for `arch` and
/// `os` is published: the tool's name, the version, the word for the
/// architecture and the word for the operating system, joined by hyphens,
/// and then the extension of the operating system's archive format.
pub open spec fn asset_name_of(tool_name: Seq<char>, version: Seq<char>, arch: Arch, os: Os) -> Seq<
    char,
> {
    tool_name + "-"@ + version + "-"@ + arch_token(arch) + "-"@ + os_token(os) + archive_extension(
        archive_kind_of(os),
    )
}

/// What the name of every install directory of the tool begins with.
pub open spec fn version_dir_prefix_of(tool_name: Seq<char>) -> Seq<char> {
    tool_name + "-"@
}

/// The directory, below the working directory, that holds `version` of the
/// tool.
pub open spec fn version_dir_of(tool_name: Seq<char>, version: Seq<char>) -> Seq<char> {
    version_dir_prefix_of(tool_name) + version
}

/// Where the executable of `version` of the tool lies once installed.
pub open spec fn binary_path_of(tool_name: Seq<char>, version: Seq<char>) -> Seq<char> {
    version_dir_of(tool_name, version) + "/"@ + tool_name
}

/// The name under which the build of `version` of the tool for `arch` and
/// `os` is published.
pub fn asset_name(tool_name: &str, version: &str, arch: Arch, os: Os) -> (name: String)
    ensures
        name@ == asset_name_of(tool_name@, version@, arch, os),
{
    let mut name = String::from_str(tool_name);
    name.append("-");
    name.append(version);
    name.append("-");
    name.append(arch.token());
    name.append("-");
    name.append(os.token());
    name.append(os.archive_kind().extension());
    name
}

/// What the name of every install directory of the tool begins with.
pub fn version_dir_prefix(tool_name: &str) -> (prefix: String)
    ensures
        prefix@ == version_dir_prefix_of(tool_name@),
{
    let mut prefix = String::from_str(tool_name);
    prefix.append("-");
    prefix
}

/// The directory, below the working directory, that holds `version` of the
/// tool.
pub fn version_dir(tool_name: &str, version: &str) -> (dir: String)
    ensures
        dir@ == version_dir_of(tool_name@, version@),
{
    let mut dir = version_dir_prefix(tool_name);
    dir.append(version);
    dir
}

/// Where the executable of `version` of the tool lies once installed.
pub fn binary_path(tool_name: &str, version: &str) -> (path: String)
    ensures
        path@ == binary_path_of(tool_name@, version@),
{
    let mut path = version_dir(tool_name, version);
    path.append("/");
    path.append(tool_name);
    path
}

/// Everything that installing one release on one platform needs to know.
#[derive(Debug, PartialEq, Eq)]
pub struct InstallPlan {
    /// The name of the file to fetch.
    pub asset_name: String,
    /// Where to fetch it from.
    pub download_url: String,
    /// How it is packed.
    pub archive_kind: ArchiveKind,
    /// The directory into which it is unpacked.
    pub version_dir: String,
    /// Where the executable then lies.
    pub binary_path: String,
}

/// An [`InstallPlan`] as plain values.
pub struct InstallPlanView {
    pub asset_name: Seq<char>,
    pub download_url: Seq<char>,
    pub archive_kind: ArchiveKind,
    pub version_dir: Seq<char>,
    pub binary_path: Seq<char>,
}

impl View for InstallPlan {
    type V = InstallPlanView;

    open spec fn view(&self) -> InstallPlanView {
        InstallPlanView {
            asset_name: self.asset_name@,
            download_url: self.download_url@,
            archive_kind: self.archive_kind,
            version_dir: self.version_dir@,
            binary_path: self.binary_path@,
        }
    }
}

impl Clone for InstallPlan {
    fn clone(&self) -> (copy: InstallPlan)
        ensures
            copy@ == self@,
    {
        InstallPlan {
            asset_name: self.asset_name.clone(),
            download_url: self.download_url.clone(),
            archive_kind: self.archive_kind,
            version_dir: self.version_dir.clone(),
            binary_path: self.binary_path.clone(),
        }
    }
}

/// The plan for installing `release` of `tool` on `platform`. The file is
/// the first of the release whose name is exactly the one computed for the
/// platform; where the release has none, there is no plan, and the error
/// carries the name that was looked for.
pub open spec fn plan_of(tool: ToolView, release: ReleaseView, platform: PlatformTarget) -> Result<
    InstallPlanView,
    ResolveErrorView,
> {
    let asset_name = asset_name_of(tool.name, release.version, platform.arch, platform.os);
    match first_named(release.assets, asset_name) {
        Some(asset) => Ok(
            InstallPlanView {
                asset_name,
                download_url: asset.download_url,
                archive_kind: archive_kind_of(platform.os),
                version_dir: version_dir_of(tool.name, release.version),
                binary_path: binary_path_of(tool.name, release.version),
            },
        ),
        None => Err(ResolveErrorView::AssetNotFound { asset_name }),
    }
}

/// Plans the install of `release` of `tool` on `platform`.
pub fn plan_install(tool: &Tool, release: &ReleaseDescriptor, platform: PlatformTarget) -> (plan:
    Result<InstallPlan, ResolveError>)
    ensures
        result_view(plan) == plan_of(tool@, release@, platform),
{
    let asset_name = asset_name(
        tool.name.as_str(),
        release.version.as_str(),
        platform.arch,
        platform.os,
    );
    match release.find_asset(asset_name.as_str()) {
        Some(asset) => Ok(
            InstallPlan {
                asset_name,
                download_url: asset.download_url.clone(),
                archive_kind: platform.os.archive_kind(),
                version_dir: version_dir(tool.name.as_str(), release.version.as_str()),
                binary_path: binary_path(tool.name.as_str(), release.version.as_str()),
            },
        ),
        None => Err(ResolveError::AssetNotFound { asset_name }),
    }
}

} // verus!
