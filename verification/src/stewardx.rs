//! The lifecycle of the service process: which released binary fits the host, the steps that
//! install it, the steps that start it in the background, and how it is told to stop.
//!
//! The library decides; the caller acts. Every step function takes what has just happened
//! and answers with what to do next, so that no network, file or process is touched here.

use crate::json::{json_document, views, Json, JsonView};
use crate::output::{texts, CONNECTION_FAILURE, JSON_FAILURE};
use crate::text::{contains, is_substring, same_text};
use crate::utils::{binary_path, get_binary_path, get_nodejs_compatible_arch, nodejs_arch};
use vstd::prelude::*;

verus! {

/// Where the latest release is described.
pub const RELEASE_INDEX_URL: &'static str =
    "https://api.github.com/repos/gokayokyay/stewardx/releases/latest";

/// The permission bits of an installed binary: everything for the owner, nothing for anyone else.
pub const BINARY_MODE: u32 = 0o700;

/// The variable that must carry the connection string of the service's storage.
pub const DATABASE_URL_VARIABLE: &'static str = "STEWARDX_DATABASE_URL";

/// What is requested over the control channel to stop the service.
pub const STOP_URL: &'static str = "http://stop";

/// The reply by which the service acknowledges a stop.
pub const GOODBYE: &'static str = "Goodbye!";

/// Said when the service has acknowledged the stop.
pub const STOPPED: &'static str = "Successfully stopped StewardX.";

/// Said in front of any other reply of the service.
pub const UNEXPECTED_REPLY: &'static str =
    "StewardX returned other than a goodbye message, here it is: ";

/// Said when the configuration is there.
pub const CONFIGURATION_FOUND: &'static str =
    "\u{2713} - STEWARDX_DATABASE_URL environment variable has been found.";

/// Said when the configuration is not there.
pub const CONFIGURATION_MISSING: &'static str =
    "X - STEWARDX_DATABASE_URL environment variable doesn't exist. Quitting.";

/// Said in front of the control channel's path when the service is taken to be running.
pub const ALREADY_RUNNING: &'static str =
    "StewardX seems to be running already. If it is not, remove the stale control socket at: ";

/// Said when the process cannot be moved to the background.
pub const DETACH_FAILED: &'static str =
    "Couldn't start StewardX. Is it installed? Run the install command first.";

/// Said when the binary cannot be executed.
pub const EXECUTION_FAILED: &'static str = "failed to execute process";

/// Said when the binary has been executed.
pub const STARTED: &'static str = "Started StewardX!";

/// Said when the latest release has no assets.
pub const NO_ASSETS: &'static str =
    "Latest release doesn't have any assets. Please manually check: \"https://github.com/gokayokyay/stewardx/releases/latest\"";

/// Said when an asset for the platform has been found.
pub const FOUND_BINARY: &'static str = "Found the matching binary! Downloading it...";

/// Said in front of the binary's path when it has been installed.
pub const FETCHED_BINARY: &'static str =
    "Fetched latest binary for your platform! It's located at: ";

/// Said when the binary cannot be written.
pub const DOWNLOAD_ERROR: &'static str = "Error while downloading the latest binary.";

/// The tag by which released binaries name a platform: `{os}_{arch}`, the architecture in
/// the naming of the releases.
pub open spec fn platform_tag(os: Seq<char>, arch: Seq<char>) -> Seq<char> {
    os + "_"@ + nodejs_arch(arch)
}

/// An asset of a release, as far as the library reads it. A member that is missing or no
/// string is `None`.
#[derive(Debug, PartialEq, Eq)]
pub struct Asset {
    pub name: Option<String>,
    pub download_url: Option<String>,
}

/// The mathematical value of an [`Asset`].
pub struct AssetView {
    pub name: Option<Seq<char>>,
    pub download_url: Option<Seq<char>>,
}

impl View for Asset {
    type V = AssetView;

    open spec fn view(&self) -> AssetView {
        AssetView {
            name: match self.name {
                Some(s) => Some(s@),
                None => None,
            },
            download_url: match self.download_url {
                Some(s) => Some(s@),
                None => None,
            },
        }
    }
}

/// The values of a list of assets.
pub open spec fn asset_views(assets: Seq<Asset>) -> Seq<AssetView> {
    Seq::new(assets.len(), |i: int| assets[i]@)
}

/// The asset that an element of the `assets` array describes.
pub open spec fn asset_of(item: JsonView) -> AssetView {
    AssetView {
        name: item.at("name"@).text(),
        download_url: item.at("browser_download_url"@).text(),
    }
}

/// The assets that the elements of the `assets` array describe.
pub open spec fn assets_of(items: Seq<JsonView>) -> Seq<AssetView> {
    Seq::new(items.len(), |i: int| asset_of(items[i]))
}

/// The asset is for the platform: its name contains the tag.
pub open spec fn fits(asset: AssetView, tag: Seq<char>) -> bool {
    asset.name matches Some(name) && is_substring(tag, name)
}

/// The scan of the assets ends at this one: it fits, or it has no name to go by.
pub open spec fn stops(asset: AssetView, tag: Seq<char>) -> bool {
    asset.name is None || fits(asset, tag)
}

/// The position at which the scan ends, or the number of assets where it runs through.
pub open spec fn first_stop(assets: Seq<AssetView>, tag: Seq<char>) -> int
    decreases assets.len(),
{
    if assets.len() == 0 {
        0
    } else if stops(assets[0], tag) {
        0
    } else {
        1 + first_stop(assets.drop_first(), tag)
    }
}

/// How the scan of a release's assets ends.
#[derive(Clone, Copy, Debug, PartialEq, Eq, Structural)]
pub enum Selection {
    /// The asset at this position is the first that fits, and it says where to download it.
    Found(usize),
    /// The asset at this position has no name, or fits and has no download URL.
    Malformed(usize),
    /// No asset fits.
    Missing,
}

/// The asset to install: the first in the listed order whose name contains the tag. Assets
/// behind it are not looked at.
pub open spec fn selection(assets: Seq<AssetView>, tag: Seq<char>) -> Selection {
    let i = first_stop(assets, tag);
    if i >= assets.len() {
        Selection::Missing
    } else if assets[i].name is None || assets[i].download_url is None {
        Selection::Malformed(i as usize)
    } else {
        Selection::Found(i as usize)
    }
}

/// The scan ends inside the list or at its end, at the first asset that stops it.
pub proof fn lemma_first_stop(assets: Seq<AssetView>, tag: Seq<char>)
    ensures
        0 <= first_stop(assets, tag) <= assets.len(),
        forall|j: int| 0 <= j < first_stop(assets, tag) ==> !stops(#[trigger] assets[j], tag),
        first_stop(assets, tag) < assets.len() ==> stops(assets[first_stop(assets, tag)], tag),
    decreases assets.len(),
{
    if assets.len() != 0 && !stops(assets[0], tag) {
        let rest = assets.drop_first();
        lemma_first_stop(rest, tag);
        assert forall|j: int| 0 <= j < first_stop(assets, tag) implies !stops(
            #[trigger] assets[j],
            tag,
        ) by {
            if j > 0 {
                assert(assets[j] == rest[j - 1]);
            }
        }
        if first_stop(assets, tag) < assets.len() {
            assert(assets[first_stop(assets, tag)] == rest[first_stop(rest, tag)]);
        }
    }
}

/// Selection is first-match over the listed order: the asset that is found fits the
/// platform, and no asset listed before it does. Whatever fits is listed at or behind it.
pub proof fn lemma_first_match_wins(assets: Seq<AssetView>, tag: Seq<char>, other: int)
    requires
        assets.len() <= usize::MAX,
        selection(assets, tag) is Found,
        0 <= other < assets.len(),
        fits(assets[other], tag),
    ensures
        selection(assets, tag)->Found_0 < assets.len(),
        fits(assets[selection(assets, tag)->Found_0 as int], tag),
        selection(assets, tag)->Found_0 <= other,
{
    lemma_first_stop(assets, tag);
    let i = first_stop(assets, tag);
    if other < i {
        assert(!stops(assets[other], tag));
    }
}

/// Where every asset has a name and a download URL, an asset is found exactly if one fits.
pub proof fn lemma_selection_of_well_formed(assets: Seq<AssetView>, tag: Seq<char>)
    requires
        forall|j: int|
            0 <= j < assets.len() ==> (#[trigger] assets[j]).name is Some
                && assets[j].download_url is Some,
    ensures
        selection(assets, tag) is Found <==> exists|j: int|
            0 <= j < assets.len() && fits(#[trigger] assets[j], tag),
        selection(assets, tag) is Missing <==> !exists|j: int|
            0 <= j < assets.len() && fits(#[trigger] assets[j], tag),
{
    lemma_first_stop(assets, tag);
    let i = first_stop(assets, tag);
    if i < assets.len() {
        assert(fits(assets[i], tag));
    } else {
        assert forall|j: int| 0 <= j < assets.len() implies !fits(#[trigger] assets[j], tag) by {
            assert(!stops(assets[j], tag));
        }
    }
}

/// The platform tag of a host.
pub fn get_platform_tag(os: &str, arch: &str) -> (r: String)
    ensures
        r@ == platform_tag(os@, arch@),
{
    let mut r = os.to_owned();
    r.append("_");
    r.append(get_nodejs_compatible_arch(arch).as_str());
    r
}

/// Whether an asset of this name is for the host with the given operating system and
/// architecture.
pub fn check_os_and_arch(name: &str, os: &str, arch: &str) -> (r: bool)
    ensures
        r == is_substring(platform_tag(os@, arch@), name@),
{
    let tag = get_platform_tag(os, arch);
    contains(name, tag.as_str())
}

/// What a member of an asset holds, where it is a string.
fn owned_text_at(item: &Json, key: &str) -> (r: Option<String>)
    ensures
        match r {
            Some(s) => item@.at(key@).text() == Some(s@),
            None => item@.at(key@).text() is None,
        },
{
    match item.get(key) {
        Some(member) => match member.as_str() {
            Some(s) => Some(s.to_owned()),
            None => None,
        },
        None => None,
    }
}

/// The assets of a release, in the listed order; `None` where the release has no `assets`
/// array.
pub fn release_assets(release: &Json) -> (r: Option<Vec<Asset>>)
    ensures
        match r {
            Some(assets) => {
                &&& release@.at("assets"@).items() is Some
                &&& asset_views(assets@) == assets_of(release@.at("assets"@).items()->0)
            },
            None => release@.at("assets"@).items() is None,
        },
{
    let items = match release.get("assets") {
        Some(member) => match member.as_array() {
            Some(items) => items,
            None => {
                return None;
            },
        },
        None => {
            return None;
        },
    };
    let mut assets: Vec<Asset> = Vec::new();
    let mut i: usize = 0;
    while i < items.len()
        invariant
            i <= items.len(),
            assets@.len() == i,
            forall|j: int| 0 <= j < i ==> (#[trigger] assets@[j])@ == asset_of(items@[j]@),
        decreases items.len() - i,
    {
        let name = owned_text_at(&items[i], "name");
        let download_url = owned_text_at(&items[i], "browser_download_url");
        assets.push(Asset { name, download_url });
        i += 1;
    }
    assert(asset_views(assets@) =~= assets_of(views(items@)));
    Some(assets)
}

/// Scans the assets in the listed order for the first that fits the platform tag.
pub fn select_asset(assets: &Vec<Asset>, tag: &str) -> (r: Selection)
    ensures
        r == selection(asset_views(assets@), tag@),
{
    let ghost all = asset_views(assets@);
    let mut i: usize = 0;
    while i < assets.len()
        invariant
            i <= assets.len(),
            all == asset_views(assets@),
            forall|j: int| 0 <= j < i ==> !stops(#[trigger] all[j], tag@),
        decreases assets.len() - i,
    {
        assert(all[i as int] == assets@[i as int]@);
        match &assets[i].name {
            None => {
                assert(stops(all[i as int], tag@));
                assert(first_stop(all, tag@) == i) by {
                    lemma_first_stop(all, tag@);
                }
                return Selection::Malformed(i);
            },
            Some(name) => {
                if contains(name.as_str(), tag) {
                    assert(stops(all[i as int], tag@));
                    assert(first_stop(all, tag@) == i) by {
                        lemma_first_stop(all, tag@);
                    }
                    return match &assets[i].download_url {
                        Some(_) => Selection::Found(i),
                        None => Selection::Malformed(i),
                    };
                }
            },
        }
        i += 1;
    }
    assert(first_stop(all, tag@) == assets@.len()) by {
        lemma_first_stop(all, tag@);
        if first_stop(all, tag@) < all.len() {
            assert(!stops(all[first_stop(all, tag@)], tag@));
        }
    }
    Selection::Missing
}

/// What reading the release index comes to.
#[derive(Clone, Copy, Debug, PartialEq, Eq, Structural)]
pub enum IndexVerdict {
    /// The body is no JSON document.
    Unreadable,
    /// The release has no assets at all: its `assets` array is missing or empty.
    NoAssets,
    /// An asset that the scan came to is not of the expected form.
    Malformed,
    /// The release has assets, and none is for this platform.
    NoMatch,
    /// An asset is for this platform.
    Match,
}

/// What installing the binary takes: where to download it, the directory that must exist,
/// the file that the payload overwrites, and the permission bits that the file gets.
#[derive(Debug, PartialEq, Eq)]
pub struct InstallPlan {
    pub url: String,
    pub directory: String,
    pub destination: String,
    pub mode: u32,
}

/// What a release comes to for a platform. A release without assets, be it that the
/// `assets` array is missing or that it is empty, has nothing to choose from; only a release
/// that lists assets can fail to have one for the platform.
pub open spec fn release_verdict(release: JsonView, tag: Seq<char>) -> IndexVerdict {
    match release.at("assets"@).items() {
        None => IndexVerdict::NoAssets,
        Some(items) => if items.len() == 0 {
            IndexVerdict::NoAssets
        } else {
            match selection(assets_of(items), tag) {
                Selection::Found(_) => IndexVerdict::Match,
                Selection::Malformed(_) => IndexVerdict::Malformed,
                Selection::Missing => IndexVerdict::NoMatch,
            }
        },
    }
}

/// Where the asset for a platform is downloaded from, given that the release has one.
pub open spec fn release_url(release: JsonView, tag: Seq<char>) -> Seq<char> {
    let assets = assets_of(release.at("assets"@).items()->0);
    assets[first_stop(assets, tag)].download_url->0
}

/// What the body of the release index comes to for a platform.
pub open spec fn index_verdict(body: Seq<u8>, tag: Seq<char>) -> IndexVerdict {
    match json_document(body) {
        None => IndexVerdict::Unreadable,
        Some(release) => release_verdict(release, tag),
    }
}

/// The plan for the asset of a release that is for the host, or why there is none.
///
/// A release without assets is turned down as such, whether `assets` is missing or empty.
/// The binary goes to `stewardx` inside `directory` whatever the asset is called, and gets
/// the permission bits `0o700`.
pub fn plan_install(release: &Json, os: &str, arch: &str, directory: &str) -> (r: Result<
    InstallPlan,
    IndexVerdict,
>)
    ensures
        match r {
            Ok(plan) => {
                &&& release_verdict(release@, platform_tag(os@, arch@)) == IndexVerdict::Match
                &&& plan.url@ == release_url(release@, platform_tag(os@, arch@))
                &&& plan.directory@ == directory@
                &&& plan.destination@ == binary_path(directory@)
                &&& plan.mode == BINARY_MODE
            },
            Err(verdict) => {
                &&& verdict != IndexVerdict::Match
                &&& verdict != IndexVerdict::Unreadable
                &&& verdict == release_verdict(release@, platform_tag(os@, arch@))
            },
        },
{
    let tag = get_platform_tag(os, arch);
    let assets = match release_assets(release) {
        Some(assets) => assets,
        None => {
            return Err(IndexVerdict::NoAssets);
        },
    };
    if assets.len() == 0 {
        return Err(IndexVerdict::NoAssets);
    }
    match select_asset(&assets, tag.as_str()) {
        Selection::Found(i) => {
            proof {
                lemma_first_stop(asset_views(assets@), tag@);
                assert(asset_views(assets@)[i as int] == assets@[i as int]@);
            }
            match &assets[i].download_url {
                Some(url) => Ok(
                    InstallPlan {
                        url: url.clone(),
                        directory: directory.to_owned(),
                        destination: get_binary_path(directory),
                        mode: BINARY_MODE,
                    },
                ),
                None => Err(IndexVerdict::Malformed),
            }
        },
        Selection::Malformed(_) => Err(IndexVerdict::Malformed),
        Selection::Missing => Err(IndexVerdict::NoMatch),
    }
}

/// Reads the body of the release index and plans the installation for the host.
pub fn read_index(body: &[u8], os: &str, arch: &str, directory: &str) -> (r: Result<
    InstallPlan,
    IndexVerdict,
>)
    ensures
        match r {
            Ok(plan) => {
                &&& index_verdict(body@, platform_tag(os@, arch@)) == IndexVerdict::Match
                &&& plan.url@ == release_url(json_document(body@)->0, platform_tag(os@, arch@))
                &&& plan.directory@ == directory@
                &&& plan.destination@ == binary_path(directory@)
                &&& plan.mode == BINARY_MODE
            },
            Err(verdict) => {
                &&& verdict != IndexVerdict::Match
                &&& verdict == index_verdict(body@, platform_tag(os@, arch@))
            },
        },
{
    match Json::parse(body) {
        Ok(release) => plan_install(&release, os, arch, directory),
        Err(_) => Err(IndexVerdict::Unreadable),
    }
}

/// The permission bits of an installed binary give the owner read, write and execute, and
/// give no other principal anything.
pub proof fn lemma_binary_mode()
    ensures
        BINARY_MODE & 0o700 == 0o700,
        BINARY_MODE & 0o077 == 0,
{
    assert(0o700u32 & 0o700u32 == 0o700u32) by (bit_vector);
    assert(0o700u32 & 0o077u32 == 0u32) by (bit_vector);
}

/// What can go wrong in the lifecycle of the service.
#[derive(Clone, Copy, Debug, PartialEq, Eq, Structural)]
pub enum Failure {
    /// The release index, the asset host or the control channel cannot be reached.
    ConnectionFailure,
    /// A response is not the structured data that was expected.
    ParseFailure,
    /// The connection string of the service's storage is not in the environment.
    ConfigurationMissing,
    /// The control channel exists: the service is taken to be running.
    AlreadyRunning,
    /// The latest release has no assets at all.
    NoMatchingAsset,
    /// The install directory cannot be created, or the binary not written or not given its
    /// permission bits.
    FilesystemFailure,
    /// The process could not be moved to the background.
    DetachFailure,
    /// The installed binary could not be executed.
    ExecutionFailure,
}

/// How a command ends after a failure.
#[derive(Clone, Copy, Debug, PartialEq, Eq, Structural)]
pub enum Ending {
    /// The failure is reported and the process exits with this code.
    Exit(u8),
    /// The failure is fatal: the process aborts with a diagnostic.
    Abort,
}

impl Failure {
    /// How a command ends after this failure: a file that is half written or has the wrong
    /// permission bits, and a binary that does not execute, abort the process; every other
    /// failure is reported and ends it with exit code 1.
    pub open spec fn spec_ending(self) -> Ending {
        match self {
            Failure::FilesystemFailure | Failure::ExecutionFailure => Ending::Abort,
            _ => Ending::Exit(1),
        }
    }

    /// How a command ends after this failure.
    pub fn ending(self) -> (r: Ending)
        ensures
            r == self.spec_ending(),
    {
        match self {
            Failure::FilesystemFailure | Failure::ExecutionFailure => Ending::Abort,
            _ => Ending::Exit(1),
        }
    }
}

/// How far an installation has got.
#[derive(Clone, Copy, Debug, PartialEq, Eq, Structural)]
pub enum ProvisionState {
    /// Nothing has been asked for yet.
    Idle,
    /// The release index has been asked for.
    AwaitingIndex,
    /// The install directory is being made sure of.
    AwaitingDirectory,
    /// The asset is being downloaded to the binary's path.
    AwaitingPayload,
    /// The binary is being given its permission bits.
    AwaitingPermissions,
    /// The installation is over, one way or the other.
    Done,
}

/// What has just happened to an installation.
#[derive(Clone, Copy, Debug, PartialEq, Eq, Structural)]
pub enum ProvisionEvent {
    /// The operator asks for the latest binary.
    Requested,
    /// The request for the release index could not be made.
    IndexUnreachable,
    /// The release index has arrived and has been read.
    IndexRead(IndexVerdict),
    /// The install directory exists, newly made or from before.
    DirectoryReady,
    /// The install directory does not exist and cannot be made.
    DirectoryFailed,
    /// The payload has been written to the binary's path.
    PayloadStored,
    /// The request for the asset could not be made.
    PayloadUnreachable,
    /// The payload could not be written in full.
    WriteFailed,
    /// The binary has its permission bits.
    PermissionsSet,
    /// The permission bits could not be set.
    PermissionsFailed,
}

/// What to do next in an installation. The URL, the paths and the mode that the actions
/// speak of are those of the [`InstallPlan`].
#[derive(Clone, Copy, Debug, PartialEq, Eq, Structural)]
pub enum ProvisionAction {
    /// Ask for the release index.
    FetchIndex,
    /// Create the plan's directory and what is missing above it; one that exists is no error.
    EnsureDirectory,
    /// Download the plan's URL, following redirects, over the plan's destination.
    Download,
    /// Give the plan's destination the plan's mode.
    SetPermissions,
    /// Tell the operator where the binary is, and end.
    ReportInstalled,
    /// End without a word: the release has assets, and none is for this platform.
    Finish,
    /// Report the failure and end as it says.
    Fail(Failure),
    /// The event is none that this state waits for: do nothing.
    Ignore,
}

/// One step of an installation: the state after the event, and what to do.
pub open spec fn provision_step(state: ProvisionState, event: ProvisionEvent) -> (
    ProvisionState,
    ProvisionAction,
) {
    match (state, event) {
        (ProvisionState::Idle, ProvisionEvent::Requested) => (
            ProvisionState::AwaitingIndex,
            ProvisionAction::FetchIndex,
        ),
        (ProvisionState::AwaitingIndex, ProvisionEvent::IndexUnreachable) => (
            ProvisionState::Done,
            ProvisionAction::Fail(Failure::ConnectionFailure),
        ),
        (ProvisionState::AwaitingIndex, ProvisionEvent::IndexRead(verdict)) => match verdict {
            IndexVerdict::Unreadable => (
                ProvisionState::Done,
                ProvisionAction::Fail(Failure::ParseFailure),
            ),
            IndexVerdict::NoAssets => (
                ProvisionState::Done,
                ProvisionAction::Fail(Failure::NoMatchingAsset),
            ),
            IndexVerdict::Malformed => (
                ProvisionState::Done,
                ProvisionAction::Fail(Failure::ParseFailure),
            ),
            IndexVerdict::NoMatch => (ProvisionState::Done, ProvisionAction::Finish),
            IndexVerdict::Match => (
                ProvisionState::AwaitingDirectory,
                ProvisionAction::EnsureDirectory,
            ),
        },
        (ProvisionState::AwaitingDirectory, ProvisionEvent::DirectoryReady) => (
            ProvisionState::AwaitingPayload,
            ProvisionAction::Download,
        ),
        (ProvisionState::AwaitingDirectory, ProvisionEvent::DirectoryFailed) => (
            ProvisionState::Done,
            ProvisionAction::Fail(Failure::FilesystemFailure),
        ),
        (ProvisionState::AwaitingPayload, ProvisionEvent::PayloadStored) => (
            ProvisionState::AwaitingPermissions,
            ProvisionAction::SetPermissions,
        ),
        (ProvisionState::AwaitingPayload, ProvisionEvent::PayloadUnreachable) => (
            ProvisionState::Done,
            ProvisionAction::Fail(Failure::ConnectionFailure),
        ),
        (ProvisionState::AwaitingPayload, ProvisionEvent::WriteFailed) => (
            ProvisionState::Done,
            ProvisionAction::Fail(Failure::FilesystemFailure),
        ),
        (ProvisionState::AwaitingPermissions, ProvisionEvent::PermissionsSet) => (
            ProvisionState::Done,
            ProvisionAction::ReportInstalled,
        ),
        (ProvisionState::AwaitingPermissions, ProvisionEvent::PermissionsFailed) => (
            ProvisionState::Done,
            ProvisionAction::Fail(Failure::FilesystemFailure),
        ),
        _ => (state, ProvisionAction::Ignore),
    }
}

/// What an installation does, step by step, when these events come in this order.
pub open spec fn provision_run(state: ProvisionState, events: Seq<ProvisionEvent>) -> Seq<
    ProvisionAction,
>
    decreases events.len(),
{
    if events.len() == 0 {
        Seq::empty()
    } else {
        seq![provision_step(state, events[0]).1] + provision_run(
            provision_step(state, events[0]).0,
            events.drop_first(),
        )
    }
}

/// Installs the latest binary for the host, one step at a time.
///
/// The release index is fetched and read. A release without any assets is a failure that
/// is reported. A release whose assets are all for other platforms installs nothing, and
/// nothing is said. With an asset for the platform, the install directory is made sure of, the
/// asset is downloaded over the binary's path, the file is given its permission bits, and
/// the operator is told where it is. The first failure ends the installation.
pub fn fetch_latest_binary(state: ProvisionState, event: ProvisionEvent) -> (r: (
    ProvisionState,
    ProvisionAction,
))
    ensures
        r == provision_step(state, event),
{
    match (state, event) {
        (ProvisionState::Idle, ProvisionEvent::Requested) => (
            ProvisionState::AwaitingIndex,
            ProvisionAction::FetchIndex,
        ),
        (ProvisionState::AwaitingIndex, ProvisionEvent::IndexUnreachable) => (
            ProvisionState::Done,
            ProvisionAction::Fail(Failure::ConnectionFailure),
        ),
        (ProvisionState::AwaitingIndex, ProvisionEvent::IndexRead(verdict)) => match verdict {
            IndexVerdict::Unreadable | IndexVerdict::Malformed => (
                ProvisionState::Done,
                ProvisionAction::Fail(Failure::ParseFailure),
            ),
            IndexVerdict::NoAssets => (
                ProvisionState::Done,
                ProvisionAction::Fail(Failure::NoMatchingAsset),
            ),
            IndexVerdict::NoMatch => (ProvisionState::Done, ProvisionAction::Finish),
            IndexVerdict::Match => (
                ProvisionState::AwaitingDirectory,
                ProvisionAction::EnsureDirectory,
            ),
        },
        (ProvisionState::AwaitingDirectory, ProvisionEvent::DirectoryReady) => (
            ProvisionState::AwaitingPayload,
            ProvisionAction::Download,
        ),
        (ProvisionState::AwaitingPayload, ProvisionEvent::PayloadStored) => (
            ProvisionState::AwaitingPermissions,
            ProvisionAction::SetPermissions,
        ),
        (ProvisionState::AwaitingPayload, ProvisionEvent::PayloadUnreachable) => (
            ProvisionState::Done,
            ProvisionAction::Fail(Failure::ConnectionFailure),
        ),
        (ProvisionState::AwaitingPermissions, ProvisionEvent::PermissionsSet) => (
            ProvisionState::Done,
            ProvisionAction::ReportInstalled,
        ),
        (ProvisionState::AwaitingDirectory, ProvisionEvent::DirectoryFailed)
        | (ProvisionState::AwaitingPayload, ProvisionEvent::WriteFailed)
        | (ProvisionState::AwaitingPermissions, ProvisionEvent::PermissionsFailed) => (
            ProvisionState::Done,
            ProvisionAction::Fail(Failure::FilesystemFailure),
        ),
        _ => (state, ProvisionAction::Ignore),
    }
}

/// A release with no assets at all, be it that `assets` is missing or that it is empty,
/// fails the installation whatever the platform: the operator is pointed to the release
/// page, the process ends with exit code 1, and nothing is downloaded.
pub proof fn lemma_release_without_assets(body: Seq<u8>, tag: Seq<char>, socket_path: Seq<char>)
    requires
        json_document(body) is Some,
        json_document(body)->0.at("assets"@).items() matches Some(items) ==> items.len() == 0,
    ensures
        index_verdict(body, tag) == IndexVerdict::NoAssets,
        provision_step(ProvisionState::AwaitingIndex, ProvisionEvent::IndexRead(index_verdict(body, tag)))
            == (ProvisionState::Done, ProvisionAction::Fail(Failure::NoMatchingAsset)),
        Failure::NoMatchingAsset.spec_ending() == Ending::Exit(1),
        failure_text(Failure::NoMatchingAsset, socket_path) == NO_ASSETS@,
{
}

/// A release whose assets all have a name, none of which contains the platform tag, ends
/// the installation without a word and without a failure.
pub proof fn lemma_release_without_match(body: Seq<u8>, tag: Seq<char>, destination: Seq<char>)
    requires
        json_document(body) is Some,
        json_document(body)->0.at("assets"@).items() matches Some(items) && items.len() > 0 && (
        forall|j: int|
            0 <= j < items.len() ==> (#[trigger] assets_of(items)[j]).name is Some && !fits(
                assets_of(items)[j],
                tag,
            )),
    ensures
        index_verdict(body, tag) == IndexVerdict::NoMatch,
        provision_step(ProvisionState::AwaitingIndex, ProvisionEvent::IndexRead(index_verdict(body, tag)))
            == (ProvisionState::Done, ProvisionAction::Finish),
        provision_text(ProvisionAction::Finish, destination) is None,
{
    let assets = assets_of(json_document(body)->0.at("assets"@).items()->0);
    lemma_first_stop(assets, tag);
    if first_stop(assets, tag) < assets.len() {
        assert(!stops(assets[first_stop(assets, tag)], tag));
    }
}

/// A run answers every event with one action.
pub proof fn lemma_provision_run_len(state: ProvisionState, events: Seq<ProvisionEvent>)
    ensures
        provision_run(state, events).len() == events.len(),
    decreases events.len(),
{
    if events.len() != 0 {
        lemma_provision_run_len(provision_step(state, events[0]).0, events.drop_first());
    }
}

/// An installation that is over stays over: it answers every further event by doing nothing.
pub proof fn lemma_provision_done_is_final(events: Seq<ProvisionEvent>, k: int)
    requires
        0 <= k < events.len(),
    ensures
        provision_run(ProvisionState::Done, events)[k] == ProvisionAction::Ignore,
    decreases events.len(),
{
    let rest = events.drop_first();
    lemma_provision_run_len(ProvisionState::Done, rest);
    assert(provision_run(ProvisionState::Done, events) =~= seq![ProvisionAction::Ignore]
        + provision_run(ProvisionState::Done, rest));
    if k > 0 {
        lemma_provision_done_is_final(rest, k - 1);
    }
}

/// No binary is presented as installed before it has its permission bits: whenever a run
/// tells the operator where the binary is, the event just before was that the permission
/// bits are set, and an earlier step of the same run asked for them to be set. This holds
/// of every order of events, from any state but the one that waits for the permissions.
pub proof fn lemma_installed_after_permissions(
    state: ProvisionState,
    events: Seq<ProvisionEvent>,
    k: int,
)
    requires
        state != ProvisionState::AwaitingPermissions,
        0 <= k < events.len(),
        provision_run(state, events)[k] == ProvisionAction::ReportInstalled,
    ensures
        events[k] == ProvisionEvent::PermissionsSet,
        exists|j: int|
            0 <= j < k && #[trigger] provision_run(state, events)[j]
                == ProvisionAction::SetPermissions,
    decreases events.len(),
{
    let (next, action) = provision_step(state, events[0]);
    let rest = events.drop_first();
    lemma_provision_run_len(next, rest);
    let run = provision_run(state, events);
    let tail = provision_run(next, rest);
    assert(run =~= seq![action] + tail);
    assert(k > 0);
    assert(run[k] == tail[k - 1]);
    assert(events[k] == rest[k - 1]);
    if next == ProvisionState::AwaitingPermissions {
        assert(action == ProvisionAction::SetPermissions);
        assert(run[0] == ProvisionAction::SetPermissions);
        if k == 1 {
            assert(rest[0] == ProvisionEvent::PermissionsSet);
        } else {
            lemma_installed_after_waiting(rest, k - 1);
        }
    } else {
        lemma_installed_after_permissions(next, rest, k - 1);
        let j = choose|j: int|
            0 <= j < k - 1 && #[trigger] tail[j] == ProvisionAction::SetPermissions;
        assert(run[j + 1] == ProvisionAction::SetPermissions);
    }
}

/// From the state that waits for the permissions, the binary is presented as installed only
/// in answer to the event that they are set.
proof fn lemma_installed_after_waiting(events: Seq<ProvisionEvent>, k: int)
    requires
        0 <= k < events.len(),
        provision_run(ProvisionState::AwaitingPermissions, events)[k]
            == ProvisionAction::ReportInstalled,
    ensures
        events[k] == ProvisionEvent::PermissionsSet,
    decreases events.len(),
{
    let state = ProvisionState::AwaitingPermissions;
    let (next, action) = provision_step(state, events[0]);
    let rest = events.drop_first();
    lemma_provision_run_len(next, rest);
    let run = provision_run(state, events);
    let tail = provision_run(next, rest);
    assert(run =~= seq![action] + tail);
    if k > 0 {
        assert(run[k] == tail[k - 1]);
        assert(events[k] == rest[k - 1]);
        if next == ProvisionState::AwaitingPermissions {
            lemma_installed_after_waiting(rest, k - 1);
        } else {
            lemma_installed_after_permissions(next, rest, k - 1);
        }
    }
}

/// How far a start of the service has got.
#[derive(Clone, Copy, Debug, PartialEq, Eq, Structural)]
pub enum StartState {
    /// Nothing has been asked for yet.
    Idle,
    /// The control channel is being looked for.
    Probing,
    /// The process is being moved to the background.
    Detaching,
    /// The installed binary is being executed.
    Executing,
    /// The start is over, one way or the other.
    Done,
}

/// What has just happened to a start of the service.
#[derive(Clone, Copy, Debug, PartialEq, Eq, Structural)]
pub enum StartEvent {
    /// The operator asks for a start; `configured` says whether the environment holds the
    /// connection string of the service's storage.
    Requested { configured: bool },
    /// The control channel has been looked for; `running` says whether it exists.
    Probed { running: bool },
    /// This process is now the one in the background.
    Detached,
    /// This process stays in the foreground; the one in the background goes on.
    Released,
    /// The process could not be moved to the background.
    DetachFailed,
    /// The binary was executed.
    Executed,
    /// The binary could not be executed.
    ExecutionFailed,
}

/// What to do next in a start of the service.
#[derive(Clone, Copy, Debug, PartialEq, Eq, Structural)]
pub enum StartAction {
    /// Say that the configuration is there, and look whether the control channel exists.
    Probe,
    /// Move to the background, into a session of its own.
    Detach,
    /// Execute the installed binary, without arguments.
    Execute,
    /// Tell the operator that the service was started, and end.
    ReportStarted,
    /// End without a word.
    Finish,
    /// Report the failure and end as it says.
    Fail(Failure),
    /// The event is none that this state waits for: do nothing.
    Ignore,
}

/// One step of a start: the state after the event, and what to do.
pub open spec fn start_step(state: StartState, event: StartEvent) -> (StartState, StartAction) {
    match (state, event) {
        (StartState::Idle, StartEvent::Requested { configured }) => if configured {
            (StartState::Probing, StartAction::Probe)
        } else {
            (StartState::Done, StartAction::Fail(Failure::ConfigurationMissing))
        },
        (StartState::Probing, StartEvent::Probed { running }) => if running {
            (StartState::Done, StartAction::Fail(Failure::AlreadyRunning))
        } else {
            (StartState::Detaching, StartAction::Detach)
        },
        (StartState::Detaching, StartEvent::Detached) => (
            StartState::Executing,
            StartAction::Execute,
        ),
        (StartState::Detaching, StartEvent::Released) => (StartState::Done, StartAction::Finish),
        (StartState::Detaching, StartEvent::DetachFailed) => (
            StartState::Done,
            StartAction::Fail(Failure::DetachFailure),
        ),
        (StartState::Executing, StartEvent::Executed) => (
            StartState::Done,
            StartAction::ReportStarted,
        ),
        (StartState::Executing, StartEvent::ExecutionFailed) => (
            StartState::Done,
            StartAction::Fail(Failure::ExecutionFailure),
        ),
        _ => (state, StartAction::Ignore),
    }
}

/// What a start does, step by step, when these events come in this order.
pub open spec fn start_run(state: StartState, events: Seq<StartEvent>) -> Seq<StartAction>
    decreases events.len(),
{
    if events.len() == 0 {
        Seq::empty()
    } else {
        seq![start_step(state, events[0]).1] + start_run(
            start_step(state, events[0]).0,
            events.drop_first(),
        )
    }
}

/// The action launches the service: it moves the process to the background or executes the
/// binary.
pub open spec fn launches(action: StartAction) -> bool {
    action == StartAction::Detach || action == StartAction::Execute
}

/// Starts the service in the background, one step at a time.
///
/// The configuration is checked first, and a start without it ends at once. Then the
/// control channel is looked for, and a start that finds it ends without launching a second
/// instance. Only then the process moves to the background and executes the binary; the
/// operator is told once the binary has been executed, and nothing waits for the service
/// to answer on its control channel.
pub fn start_stewardx(state: StartState, event: StartEvent) -> (r: (StartState, StartAction))
    ensures
        r == start_step(state, event),
{
    match (state, event) {
        (StartState::Idle, StartEvent::Requested { configured }) => {
            if configured {
                (StartState::Probing, StartAction::Probe)
            } else {
                (StartState::Done, StartAction::Fail(Failure::ConfigurationMissing))
            }
        },
        (StartState::Probing, StartEvent::Probed { running }) => {
            if running {
                (StartState::Done, StartAction::Fail(Failure::AlreadyRunning))
            } else {
                (StartState::Detaching, StartAction::Detach)
            }
        },
        (StartState::Detaching, StartEvent::Detached) => (
            StartState::Executing,
            StartAction::Execute,
        ),
        (StartState::Detaching, StartEvent::Released) => (StartState::Done, StartAction::Finish),
        (StartState::Detaching, StartEvent::DetachFailed) => (
            StartState::Done,
            StartAction::Fail(Failure::DetachFailure),
        ),
        (StartState::Executing, StartEvent::Executed) => (
            StartState::Done,
            StartAction::ReportStarted,
        ),
        (StartState::Executing, StartEvent::ExecutionFailed) => (
            StartState::Done,
            StartAction::Fail(Failure::ExecutionFailure),
        ),
        _ => (state, StartAction::Ignore),
    }
}

/// A run answers every event with one action.
pub proof fn lemma_start_run_len(state: StartState, events: Seq<StartEvent>)
    ensures
        start_run(state, events).len() == events.len(),
    decreases events.len(),
{
    if events.len() != 0 {
        lemma_start_run_len(start_step(state, events[0]).0, events.drop_first());
    }
}

/// A start that is over stays over: it answers every further event by doing nothing.
pub proof fn lemma_start_done_is_final(events: Seq<StartEvent>, k: int)
    requires
        0 <= k < events.len(),
    ensures
        start_run(StartState::Done, events)[k] == StartAction::Ignore,
    decreases events.len(),
{
    let rest = events.drop_first();
    lemma_start_run_len(StartState::Done, rest);
    assert(start_run(StartState::Done, events) =~= seq![StartAction::Ignore] + start_run(
        StartState::Done,
        rest,
    ));
    if k > 0 {
        lemma_start_done_is_final(rest, k - 1);
    }
}

/// While the control channel is found whenever it is looked for, a start never launches the
/// service: no step of the run moves the process to the background or executes the binary,
/// whatever else happens and in whatever order.
pub proof fn lemma_running_service_is_not_launched(events: Seq<StartEvent>, k: int)
    requires
        forall|i: int|
            0 <= i < events.len() ==> (#[trigger] events[i] matches StartEvent::Probed {
                running,
            } ==> running),
        0 <= k < events.len(),
    ensures
        !launches(start_run(StartState::Idle, events)[k]),
{
    lemma_no_launch_before_a_clear_probe(StartState::Idle, events, k);
}

/// While the configuration is found missing whenever a start is asked for, a start does
/// nothing but fail: every step of the run reports the missing configuration or does
/// nothing, so none looks for the control channel, moves the process to the background or
/// executes the binary, whatever else happens and in whatever order.
pub proof fn lemma_missing_configuration_fails_fast(events: Seq<StartEvent>, k: int)
    requires
        forall|i: int|
            0 <= i < events.len() ==> (#[trigger] events[i] matches StartEvent::Requested {
                configured,
            } ==> !configured),
        0 <= k < events.len(),
    ensures
        start_run(StartState::Idle, events)[k] == StartAction::Fail(Failure::ConfigurationMissing)
            || start_run(StartState::Idle, events)[k] == StartAction::Ignore,
        start_run(StartState::Idle, events)[k] != StartAction::Probe,
        !launches(start_run(StartState::Idle, events)[k]),
{
    lemma_nothing_before_configuration(StartState::Idle, events, k);
}

/// From a state before the launch, no step launches while the control channel is found
/// whenever it is looked for.
proof fn lemma_no_launch_before_a_clear_probe(state: StartState, events: Seq<StartEvent>, k: int)
    requires
        state == StartState::Idle || state == StartState::Probing || state == StartState::Done,
        forall|i: int|
            0 <= i < events.len() ==> (#[trigger] events[i] matches StartEvent::Probed {
                running,
            } ==> running),
        0 <= k < events.len(),
    ensures
        !launches(start_run(state, events)[k]),
    decreases events.len(),
{
    let (next, action) = start_step(state, events[0]);
    let rest = events.drop_first();
    lemma_start_run_len(next, rest);
    assert(start_run(state, events) =~= seq![action] + start_run(next, rest));
    if k > 0 {
        assert forall|i: int| 0 <= i < rest.len() implies (#[trigger] rest[i] matches StartEvent::Probed {
            running,
        } ==> running) by {
            assert(rest[i] == events[i + 1]);
        }
        lemma_no_launch_before_a_clear_probe(next, rest, k - 1);
    }
}

/// From a state before the probe, no step probes or launches while the configuration is
/// found missing whenever a start is asked for.
proof fn lemma_nothing_before_configuration(state: StartState, events: Seq<StartEvent>, k: int)
    requires
        state == StartState::Idle || state == StartState::Done,
        forall|i: int|
            0 <= i < events.len() ==> (#[trigger] events[i] matches StartEvent::Requested {
                configured,
            } ==> !configured),
        0 <= k < events.len(),
    ensures
        start_run(state, events)[k] == StartAction::Fail(Failure::ConfigurationMissing)
            || start_run(state, events)[k] == StartAction::Ignore,
    decreases events.len(),
{
    let (next, action) = start_step(state, events[0]);
    let rest = events.drop_first();
    lemma_start_run_len(next, rest);
    assert(start_run(state, events) =~= seq![action] + start_run(next, rest));
    if k > 0 {
        assert forall|i: int| 0 <= i < rest.len() implies (#[trigger] rest[i] matches StartEvent::Requested {
            configured,
        } ==> !configured) by {
            assert(rest[i] == events[i + 1]);
        }
        lemma_nothing_before_configuration(next, rest, k - 1);
    }
}

/// What the operator is told about a failure. The one about a service that is running
/// already names the control channel, so that a stale one can be removed.
pub open spec fn failure_text(failure: Failure, socket_path: Seq<char>) -> Seq<char> {
    match failure {
        Failure::ConnectionFailure => CONNECTION_FAILURE@,
        Failure::ParseFailure => JSON_FAILURE@,
        Failure::ConfigurationMissing => CONFIGURATION_MISSING@,
        Failure::AlreadyRunning => ALREADY_RUNNING@ + socket_path,
        Failure::NoMatchingAsset => NO_ASSETS@,
        Failure::FilesystemFailure => DOWNLOAD_ERROR@,
        Failure::DetachFailure => DETACH_FAILED@,
        Failure::ExecutionFailure => EXECUTION_FAILED@,
    }
}

/// What the operator is told when an installation takes this action, if anything.
pub open spec fn provision_text(action: ProvisionAction, destination: Seq<char>) -> Option<
    Seq<char>,
> {
    match action {
        ProvisionAction::EnsureDirectory => Some(FOUND_BINARY@),
        ProvisionAction::ReportInstalled => Some(FETCHED_BINARY@ + destination),
        _ => None,
    }
}

/// What the operator is told when a start takes this action, if anything.
pub open spec fn start_text(action: StartAction) -> Option<Seq<char>> {
    match action {
        StartAction::Probe => Some(CONFIGURATION_FOUND@),
        StartAction::ReportStarted => Some(STARTED@),
        _ => None,
    }
}

/// The diagnostic for a failure, for the error stream.
pub fn failure_message(failure: Failure, socket_path: &str) -> (r: String)
    ensures
        r@ == failure_text(failure, socket_path@),
{
    match failure {
        Failure::ConnectionFailure => CONNECTION_FAILURE.to_owned(),
        Failure::ParseFailure => JSON_FAILURE.to_owned(),
        Failure::ConfigurationMissing => CONFIGURATION_MISSING.to_owned(),
        Failure::AlreadyRunning => {
            let mut r = ALREADY_RUNNING.to_owned();
            r.append(socket_path);
            r
        },
        Failure::NoMatchingAsset => NO_ASSETS.to_owned(),
        Failure::FilesystemFailure => DOWNLOAD_ERROR.to_owned(),
        Failure::DetachFailure => DETACH_FAILED.to_owned(),
        Failure::ExecutionFailure => EXECUTION_FAILED.to_owned(),
    }
}

/// The confirmation that goes with an action of an installation, for the standard stream.
pub fn provision_message(action: ProvisionAction, destination: &str) -> (r: Option<String>)
    ensures
        match r {
            Some(s) => provision_text(action, destination@) == Some(s@),
            None => provision_text(action, destination@) is None,
        },
{
    match action {
        ProvisionAction::EnsureDirectory => Some(FOUND_BINARY.to_owned()),
        ProvisionAction::ReportInstalled => {
            let mut r = FETCHED_BINARY.to_owned();
            r.append(destination);
            Some(r)
        },
        _ => None,
    }
}

/// The confirmation that goes with an action of a start, for the standard stream.
pub fn start_message(action: StartAction) -> (r: Option<String>)
    ensures
        match r {
            Some(s) => start_text(action) == Some(s@),
            None => start_text(action) is None,
        },
{
    match action {
        StartAction::Probe => Some(CONFIGURATION_FOUND.to_owned()),
        StartAction::ReportStarted => Some(STARTED.to_owned()),
        _ => None,
    }
}

/// What came back when the stop was requested over the control channel.
#[derive(Debug, PartialEq, Eq)]
pub enum StopReply {
    /// No connection: the channel is absent or nobody listens. The text is the transport's
    /// own account of it.
    Unreachable(String),
    /// The text that the service replied with.
    Answered(String),
}

/// What a stop came to.
#[derive(Clone, Copy, Debug, PartialEq, Eq, Structural)]
pub enum StopOutcome {
    /// The service acknowledged the stop.
    Stopped,
    /// The service replied with something else, which may be its own account of its state.
    UnexpectedReply,
    /// The service could not be reached.
    Unreachable,
}

/// What the operator is told about a stop. None of the outcomes ends the process by force.
#[derive(Debug, PartialEq, Eq)]
pub struct StopReport {
    pub outcome: StopOutcome,
    /// For the standard stream.
    pub lines: Vec<String>,
    /// For the error stream.
    pub diagnostics: Vec<String>,
}

/// Reads the reply to a stop request.
///
/// The stop has succeeded if the reply is exactly the acknowledgment. Any other reply is
/// handed on as it is, and is no failure. Where the service cannot be reached, the operator
/// gets the transport's account and the advice for a failed connection.
pub fn stop_stewardx(reply: &StopReply) -> (r: StopReport)
    ensures
        match reply {
            StopReply::Answered(text) => if text@ == GOODBYE@ {
                &&& r.outcome == StopOutcome::Stopped
                &&& texts(r.lines@) == seq![STOPPED@]
                &&& r.diagnostics@.len() == 0
            } else {
                &&& r.outcome == StopOutcome::UnexpectedReply
                &&& texts(r.lines@) == seq![UNEXPECTED_REPLY@ + text@]
                &&& r.diagnostics@.len() == 0
            },
            StopReply::Unreachable(error) => {
                &&& r.outcome == StopOutcome::Unreachable
                &&& texts(r.lines@) == seq![error@]
                &&& texts(r.diagnostics@) == seq![CONNECTION_FAILURE@]
            },
        },
{
    let mut lines: Vec<String> = Vec::new();
    let mut diagnostics: Vec<String> = Vec::new();
    match reply {
        StopReply::Answered(text) => {
            if same_text(text.as_str(), GOODBYE) {
                lines.push(STOPPED.to_owned());
                assert(texts(lines@) =~= seq![STOPPED@]);
                StopReport { outcome: StopOutcome::Stopped, lines, diagnostics }
            } else {
                let mut line = UNEXPECTED_REPLY.to_owned();
                line.append(text.as_str());
                lines.push(line);
                assert(texts(lines@) =~= seq![UNEXPECTED_REPLY@ + text@]);
                StopReport { outcome: StopOutcome::UnexpectedReply, lines, diagnostics }
            }
        },
        StopReply::Unreachable(error) => {
            lines.push(error.clone());
            diagnostics.push(CONNECTION_FAILURE.to_owned());
            assert(texts(lines@) =~= seq![error@]);
            assert(texts(diagnostics@) =~= seq![CONNECTION_FAILURE@]);
            StopReport { outcome: StopOutcome::Unreachable, lines, diagnostics }
        },
    }
}

} // verus!
