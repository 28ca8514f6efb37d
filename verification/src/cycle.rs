//! One target's decision step. The loop outside fetches the bootstrap
//! script, extracts the version, fetches the site configuration for it, and
//! hands the response body here; this function decides everything that
//! follows — failed, already archived, or a full plan for a new version —
//! and records the new version in the ledger before any download begins.

use vstd::prelude::*;
use crate::archiver::{plan_downloads, spec_asset_url, AssetJob};
use crate::config::Target;
use crate::detector::{
    archive_dir_path, spec_archive_dir, spec_is_new, spec_trailing_segment, trailing_segment,
    ArchiveLedger,
};
use crate::locator::{resolve_resource_path, spec_resolve, LocatorError};
use crate::notify::{new_version_notification, spec_new_version_notification, Notification};

verus! {

/// Everything the loop must do for a newly detected version: create the
/// directory, send the notification, run the downloads.
pub struct NewVersionPlan {
    /// The resolved resource path.
    pub resource_path: String,
    /// Its trailing segment: the canonical version name for archival.
    pub segment: String,
    /// The archive directory to create before any download.
    pub dir_path: String,
    /// One download job per configured asset name, in order.
    pub jobs: Vec<AssetJob>,
    /// The message announcing the version.
    pub notification: Notification,
}

/// The outcome of one target's cycle, once the site-configuration response
/// is in hand.
pub enum CycleStep {
    /// Resolution failed at the named stage; the ledger is untouched and the
    /// loop goes on to the next target.
    Failed(LocatorError),
    /// The resolved version was archived before; nothing is downloaded and
    /// nothing is sent.
    AlreadyArchived { resource_path: String },
    /// A version not seen before: it is recorded at once, and the plan says
    /// what to create, send and download.
    NewVersion(NewVersionPlan),
}

/// Decides one target's cycle from the site-configuration response body.
///
/// A body that does not resolve — malformed JSON among else — yields
/// `Failed` with the stage, and the ledger stays as it was: one target's
/// failure never touches another's state. A resolved path whose (host,
/// trailing segment) pair is already in the ledger yields
/// `AlreadyArchived` and changes nothing. A new pair is recorded
/// immediately — before any download could begin — and the returned plan
/// carries the directory path, the download jobs in configured order, and
/// the notification.
pub fn process_config_response(
    ledger: &mut ArchiveLedger,
    target: &Target,
    version: &str,
    body: &str,
    scripts: &Vec<String>,
) -> (r: CycleStep)
    ensures
        r matches CycleStep::Failed(e) ==> spec_resolve(body@) == Err::<Seq<char>, LocatorError>(e)
            && final(ledger)@ == old(ledger)@,
        spec_resolve(body@) is Err ==> r is Failed,
        r matches CycleStep::AlreadyArchived { resource_path } ==> spec_resolve(body@) == Ok::<
            Seq<char>,
            LocatorError,
        >(resource_path@) && !spec_is_new(
            old(ledger)@,
            target.host@,
            spec_trailing_segment(resource_path@),
        ) && final(ledger)@ == old(ledger)@,
        r matches CycleStep::NewVersion(plan) ==> {
            &&& spec_resolve(body@) == Ok::<Seq<char>, LocatorError>(plan.resource_path@)
            &&& spec_is_new(old(ledger)@, target.host@, spec_trailing_segment(plan.resource_path@))
            &&& plan.segment@ == spec_trailing_segment(plan.resource_path@)
            &&& plan.dir_path@ == spec_archive_dir(target.host@, plan.segment@)
            &&& plan.jobs@.len() == scripts@.len()
            &&& (forall|i: int|
                0 <= i < scripts@.len() ==> (#[trigger] plan.jobs@[i]).file@ == scripts@[i]@
                    && plan.jobs@[i].url@ == spec_asset_url(plan.resource_path@, scripts@[i]@))
            &&& spec_new_version_notification(
                plan.notification,
                target.host@,
                target.sitekey@,
                version@,
                plan.resource_path@,
            )
            &&& final(ledger)@ == old(ledger)@.insert((target.host@, plan.segment@))
        },
        spec_resolve(body@) matches Ok(p) ==> (r is NewVersion <==> spec_is_new(
            old(ledger)@,
            target.host@,
            spec_trailing_segment(p),
        )),
{
    let path = match resolve_resource_path(body) {
        Ok(p) => p,
        Err(e) => {
            return CycleStep::Failed(e);
        },
    };
    let segment = trailing_segment(path.as_str());
    if !ledger.is_new(target.host.as_str(), segment.as_str()) {
        return CycleStep::AlreadyArchived { resource_path: path };
    }
    ledger.mark_archived(target.host.as_str(), segment.as_str());
    let dir_path = archive_dir_path(target.host.as_str(), segment.as_str());
    let jobs = plan_downloads(path.as_str(), scripts);
    let notification = new_version_notification(
        target.host.as_str(),
        target.sitekey.as_str(),
        version,
        path.as_str(),
    );
    CycleStep::NewVersion(
        NewVersionPlan { resource_path: path, segment, dir_path, jobs, notification },
    )
}

} // verus!
