//! Correcting the timestamps of an album's assets, one asset after the other.

use vstd::prelude::*;

use crate::album;
use crate::album::Reply;
use crate::asset;
use crate::asset::{AssetDetail, HostFile};
use crate::client;
use crate::client::{Body, Client, Request};
use crate::datetime;
use crate::datetime::DateTime;
use crate::metadata;
use crate::offset;
use crate::offset::Offset;
use crate::text;

verus! {

/// How far the work on an album has come.
#[derive(Debug, Clone, Copy, PartialEq, Eq, Structural)]
pub struct FixRun {
    /// Whether timestamps are changed. If not, it is a dry run.
    pub apply: bool,
    /// The number of assets in the album.
    pub total: usize,
    /// The number of assets that were looked at.
    pub seen: usize,
    /// The number of assets that were updated.
    pub success: usize,
    /// Whether the work is over before the last asset.
    pub stopped: bool,
    /// Whether an update was sent whose answer is still to come.
    pub awaiting: bool,
}

/// What is to be done for an asset.
#[derive(Debug, PartialEq, Eq)]
pub enum FixAction {
    /// Show this request, do not send it, and stop.
    Example(Request),
    /// Send this request, and tell the run how it was answered.
    Update(Request),
    /// Print this line, which tells what would be done.
    WouldUpdate(String),
    /// Print this line, which tells that no timestamp was found.
    Failed(String),
}

/// What an action says.
pub enum FixActionView {
    Example(client::RequestView),
    Update(client::RequestView),
    WouldUpdate(Seq<char>),
    Failed(Seq<char>),
}

impl View for FixAction {
    type V = FixActionView;

    open spec fn view(&self) -> FixActionView {
        match self {
            FixAction::Example(request) => FixActionView::Example(request@),
            FixAction::Update(request) => FixActionView::Update(request@),
            FixAction::WouldUpdate(line) => FixActionView::WouldUpdate(line@),
            FixAction::Failed(line) => FixActionView::Failed(line@),
        }
    }
}

/// The request that sets the timestamp of an asset.
pub open spec fn update_of(
    client: Client,
    asset: AssetDetail,
    timestamp: Seq<char>,
) -> client::RequestView {
    client::body_request(
        client,
        client::Method::Put,
        "assets/"@ + asset.id@,
        client::BodyView::DateTimeOriginal { timestamp },
    )
}

/// The line that tells that an asset gave no timestamp.
pub open spec fn failed_line(asset: AssetDetail) -> Seq<char> {
    "Failed to get timestamp for "@ + asset.original_filename@ + " - "@ + asset.original_path@
}

/// The line that tells what a dry run leaves undone.
pub open spec fn would_update_line(timestamp: Seq<char>) -> Seq<char> {
    "Would update timestamp here to: "@ + timestamp
}

/// The line that tells how many assets were updated.
pub open spec fn summary_line(success: nat, total: nat) -> Seq<char> {
    "Successfully updated ["@ + text::decimal(success) + "/"@ + text::decimal(total) + "] assets"@
}

/// The start of the work on an album of so many assets.
pub open spec fn start_run(apply: bool, total: nat) -> FixRun {
    FixRun { apply, total: total as usize, seen: 0, success: 0, stopped: false, awaiting: false }
}

/// Where a run stands after an asset.
pub open spec fn next_run(run: FixRun, found: bool) -> FixRun {
    let example = found && !run.apply && run.success == 0;
    FixRun {
        seen: (run.seen + 1) as usize,
        success: if found && !run.apply && !example {
            (run.success + 1) as usize
        } else {
            run.success
        },
        stopped: example,
        awaiting: found && run.apply,
        ..run
    }
}

/// Where a run stands after the answer to an update.
pub open spec fn answered_run(run: FixRun, accepted: bool) -> FixRun {
    FixRun {
        success: if accepted {
            (run.success + 1) as usize
        } else {
            run.success
        },
        awaiting: false,
        ..run
    }
}

/// What is to be done for an asset with the timestamp that it gave.
pub open spec fn action_for(
    run: FixRun,
    client: Client,
    asset: AssetDetail,
    timestamp: Option<(DateTime, Option<Offset>)>,
) -> FixActionView {
    match timestamp {
        None => FixActionView::Failed(failed_line(asset)),
        Some((datetime, offset)) => {
            let written = datetime::datetime_text(datetime, offset);
            if run.apply {
                FixActionView::Update(update_of(client, asset, written))
            } else if run.success == 0 {
                FixActionView::Example(update_of(client, asset, written))
            } else {
                FixActionView::WouldUpdate(would_update_line(written))
            }
        },
    }
}

/// The request that sets the timestamp of an asset.
pub fn update_request(client: &Client, asset: &AssetDetail, timestamp: String) -> (r: Request)
    ensures
        r@ == update_of(*client, *asset, timestamp@),
{
    let mut path = "assets/".to_owned();
    path.append(asset.id.as_str());
    client.put(path.as_str(), Body::DateTimeOriginal { timestamp })
}

/// The line that tells that the server turned an update down.
pub open spec fn refused_line(asset: AssetDetail, status: Seq<char>, text: Seq<char>) -> Seq<char> {
    "Failed to update "@ + asset.original_filename@ + ": "@ + status + " - "@ + text
}

impl FixRun {
    /// Whether the counts fit together.
    pub open spec fn wf(self) -> bool {
        self.seen <= self.total && if self.awaiting {
            self.success < self.seen
        } else {
            self.success <= self.seen
        }
    }

    /// The start of the work on an album of so many assets.
    pub fn new(apply: bool, total: usize) -> (r: Self)
        ensures
            r.wf(),
            r == start_run(apply, total as nat),
    {
        FixRun { apply, total, seen: 0, success: 0, stopped: false, awaiting: false }
    }

    /// Takes the next asset, with the timestamp that it gave, and tells what is
    /// to be done for it.
    pub fn step(
        &mut self,
        client: &Client,
        asset: &AssetDetail,
        timestamp: Option<(DateTime, Option<Offset>)>,
    ) -> (r: FixAction)
        requires
            old(self).wf(),
            old(self).seen < old(self).total,
            !old(self).stopped,
            !old(self).awaiting,
            can_be_written(timestamp),
        ensures
            final(self).wf(),
            *final(self) == next_run(*old(self), timestamp is Some),
            final(self).apply == old(self).apply,
            final(self).total == old(self).total,
            final(self).seen == old(self).seen + 1,
            final(self).awaiting == (timestamp is Some && old(self).apply),
            final(self).stopped == (timestamp is Some && !old(self).apply && old(self).success
                == 0),
            r@ == action_for(*old(self), *client, *asset, timestamp),
    {
        self.seen = self.seen + 1;
        match timestamp {
            None => {
                let mut line = "Failed to get timestamp for ".to_owned();
                line.append(asset.original_filename.as_str());
                line.append(" - ");
                line.append(asset.original_path.as_str());
                FixAction::Failed(line)
            },
            Some((datetime, offset)) => {
                let written = datetime::get_datetime_string(datetime, offset);
                if !self.apply {
                    if self.success == 0 {
                        self.stopped = true;
                        return FixAction::Example(update_request(client, asset, written));
                    }
                    self.success = self.success + 1;
                    let mut line = "Would update timestamp here to: ".to_owned();
                    line.append(written.as_str());
                    return FixAction::WouldUpdate(line);
                }
                self.awaiting = true;
                FixAction::Update(update_request(client, asset, written))
            },
        }
    }

    /// Takes the answer to an asset's update. One that was accepted counts as a
    /// success; of one that was turned down there is a line to print, and the
    /// work goes on.
    pub fn take_answer(&mut self, asset: &AssetDetail, reply: Reply<()>) -> (r: Option<String>)
        requires
            old(self).wf(),
            old(self).awaiting,
        ensures
            final(self).wf(),
            *final(self) == answered_run(*old(self), reply is Success),
            final(self).seen == old(self).seen,
            final(self).success == old(self).success + if reply is Success {
                1int
            } else {
                0int
            },
            !final(self).awaiting,
            match reply {
                Reply::Success(_) => r is None,
                Reply::Refused { status, text } => r matches Some(line) && line@ == refused_line(
                    *asset,
                    status@,
                    text@,
                ),
            },
    {
        self.awaiting = false;
        match reply {
            Reply::Success(_) => {
                self.success = self.success + 1;
                None
            },
            Reply::Refused { status, text } => {
                let mut line = "Failed to update ".to_owned();
                line.append(asset.original_filename.as_str());
                line.append(": ");
                line.append(status.as_str());
                line.append(" - ");
                line.append(text.as_str());
                Some(line)
            },
        }
    }

    /// The line that tells how many assets were updated.
    pub fn summary(&self) -> (r: String)
        ensures
            r@ == summary_line(self.success as nat, self.total as nat),
    {
        let mut r = "Successfully updated [".to_owned();
        text::append_decimal(&mut r, self.success as u64);
        r.append("/");
        text::append_decimal(&mut r, self.total as u64);
        r.append("] assets");
        r
    }
}

/// What is to be done for an asset, and what is said before.
#[derive(Debug, PartialEq, Eq)]
pub struct FixStep {
    pub notice: Option<String>,
    pub action: FixAction,
}

/// The timestamp that an asset gives, whose file is as found. That it gives
/// none has many reasons, which do not matter here.
pub open spec fn found_timestamp(
    container_prefix: Seq<char>,
    asset: AssetDetail,
    file: HostFile,
) -> Option<(DateTime, Option<Offset>)> {
    match asset::original_timestamp(container_prefix, asset.original_path@, file) {
        Ok(timestamp) => Some(timestamp),
        Err(_) => None,
    }
}

/// Whether a timestamp, if there is one, has a text.
pub open spec fn can_be_written(timestamp: Option<(DateTime, Option<Offset>)>) -> bool {
    timestamp matches Some((datetime, offset)) ==> datetime::has_text(datetime, offset)
}

/// Takes the next asset and what was found at its path on this machine, and
/// tells what is to be done for it. Where the asset gives a timestamp that has
/// no text, nothing is done and nothing is told.
pub fn fix_asset(
    run: &mut FixRun,
    client: &Client,
    container_prefix: &str,
    host_prefix: &str,
    asset: &AssetDetail,
    file: &HostFile,
) -> (r: Option<FixStep>)
    requires
        old(run).wf(),
        old(run).seen < old(run).total,
        !old(run).stopped,
        !old(run).awaiting,
    ensures
        final(run).wf(),
        r is Some <==> can_be_written(found_timestamp(container_prefix@, *asset, *file)),
        match r {
            None => *final(run) == *old(run),
            Some(step) => {
                let timestamp = found_timestamp(container_prefix@, *asset, *file);
                &&& *final(run) == next_run(*old(run), timestamp is Some)
                &&& step.action@ == action_for(*old(run), *client, *asset, timestamp)
                &&& match step.notice {
                    Some(line) => asset::missing_file_line(
                        container_prefix@,
                        host_prefix@,
                        *asset,
                        *file,
                    ) == Some(line@),
                    None => asset::missing_file_line(
                        container_prefix@,
                        host_prefix@,
                        *asset,
                        *file,
                    ) is None,
                }
            },
        },
{
    let timestamp = match asset::get_original_timestamp(
        container_prefix,
        host_prefix,
        asset,
        file,
    ) {
        Ok(timestamp) => Some(timestamp),
        Err(_) => None,
    };
    if let Some((datetime, offset)) = &timestamp {
        if datetime::checked_datetime_string(datetime, offset).is_none() {
            return None;
        }
    }
    let notice = asset::missing_file_notice(container_prefix, host_prefix, asset, file);
    Some(FixStep { notice, action: run.step(client, asset, timestamp) })
}

/// An asset, the timestamp that it gave, and whether the server accepts its
/// update if there is one.
pub struct Finding {
    pub asset: AssetDetail,
    pub timestamp: Option<(DateTime, Option<Offset>)>,
    pub accepted: bool,
}

/// Where a run stands after an asset and the answer to its update, if there is one.
pub open spec fn run_after(run: FixRun, finding: Finding) -> FixRun {
    let next = next_run(run, finding.timestamp is Some);
    if next.awaiting {
        answered_run(next, finding.accepted)
    } else {
        next
    }
}

/// Where a run stands, and what was done, after assets were taken one after
/// the other until the work was over.
pub open spec fn run_over(client: Client, start: FixRun, findings: Seq<Finding>) -> (
    FixRun,
    Seq<FixActionView>,
)
    decreases findings.len(),
{
    if findings.len() == 0 {
        (start, Seq::empty())
    } else {
        let (run, actions) = run_over(client, start, findings.drop_last());
        if run.stopped {
            (run, actions)
        } else {
            let finding = findings.last();
            (
                run_after(run, finding),
                actions.push(action_for(run, client, finding.asset, finding.timestamp)),
            )
        }
    }
}

/// How many assets gave a timestamp.
pub open spec fn found_count(findings: Seq<Finding>) -> nat
    decreases findings.len(),
{
    if findings.len() == 0 {
        0
    } else if findings.last().timestamp is Some {
        found_count(findings.drop_last()) + 1
    } else {
        found_count(findings.drop_last())
    }
}

/// How many assets gave a timestamp and had their update accepted.
pub open spec fn updated_count(findings: Seq<Finding>) -> nat
    decreases findings.len(),
{
    if findings.len() == 0 {
        0
    } else if findings.last().timestamp is Some && findings.last().accepted {
        updated_count(findings.drop_last()) + 1
    } else {
        updated_count(findings.drop_last())
    }
}

/// Whether the server accepts every update.
pub open spec fn all_accepted(findings: Seq<Finding>) -> bool {
    forall|i: int| 0 <= i < findings.len() ==> (#[trigger] findings[i]).accepted
}

/// The text of the timestamp that an asset gave.
pub open spec fn finding_text(finding: Finding) -> Seq<char> {
    datetime::datetime_text(finding.timestamp->Some_0.0, finding.timestamp->Some_0.1)
}

/// Whether the actions are those of an applied run: each asset that gave a
/// timestamp is updated to that timestamp, each other one is reported.
pub open spec fn updates_or_reports(
    client: Client,
    findings: Seq<Finding>,
    actions: Seq<FixActionView>,
) -> bool {
    &&& actions.len() == findings.len()
    &&& forall|i: int|
        0 <= i < findings.len() ==> #[trigger] actions[i] == (if findings[i].timestamp is Some {
            FixActionView::Update(
                update_of(client, findings[i].asset, finding_text(findings[i])),
            )
        } else {
            FixActionView::Failed(failed_line(findings[i].asset))
        })
}

/// Whether the first so many actions report the first so many assets.
pub open spec fn reports_first(
    findings: Seq<Finding>,
    actions: Seq<FixActionView>,
    count: int,
) -> bool {
    forall|i: int|
        0 <= i < count ==> #[trigger] actions[i] == FixActionView::Failed(
            failed_line(findings[i].asset),
        )
}

/// Whether none of the first so many assets gave a timestamp.
pub open spec fn none_found(findings: Seq<Finding>, count: int) -> bool {
    forall|i: int| 0 <= i < count ==> (#[trigger] findings[i]).timestamp is None
}

/// Whether the actions end with the example that an asset gives, and report
/// the assets before it.
pub open spec fn ends_with_example(
    client: Client,
    findings: Seq<Finding>,
    actions: Seq<FixActionView>,
    first: int,
) -> bool {
    &&& actions.len() == first + 1
    &&& actions[first] == FixActionView::Example(
        update_of(client, findings[first].asset, finding_text(findings[first])),
    )
    &&& reports_first(findings, actions, first)
}

/// When changes are applied, every asset is taken; each that gave a timestamp
/// is sent an update to that timestamp, each other one is reported, and the
/// successes are the updates that the server accepted: if it accepts all, the
/// assets that gave a timestamp.
pub proof fn law_applied_run(client: Client, findings: Seq<Finding>)
    requires
        findings.len() <= usize::MAX,
    ensures
        ({
            let (run, actions) = run_over(client, start_run(true, findings.len()), findings);
            &&& run.wf() && !run.stopped && !run.awaiting
            &&& run.total == findings.len()
            &&& run.seen == findings.len()
            &&& run.success == updated_count(findings)
            &&& all_accepted(findings) ==> run.success == found_count(findings)
            &&& updates_or_reports(client, findings, actions)
        }),
{
    lemma_applied_prefix(client, start_run(true, findings.len()), findings);
}

proof fn lemma_applied_prefix(client: Client, start: FixRun, findings: Seq<Finding>)
    requires
        start == start_run(true, start.total as nat),
        findings.len() <= start.total,
    ensures
        ({
            let (run, actions) = run_over(client, start, findings);
            &&& run == (FixRun {
                seen: findings.len() as usize,
                success: updated_count(findings) as usize,
                ..start
            })
            &&& updated_count(findings) <= findings.len()
            &&& all_accepted(findings) ==> updated_count(findings) == found_count(findings)
            &&& updates_or_reports(client, findings, actions)
        }),
    decreases findings.len(),
{
    if findings.len() > 0 {
        lemma_applied_prefix(client, start, findings.drop_last());
    }
}

/// When changes are applied to what a complete search has found, every asset
/// of the album is updated or reported, whatever their number.
pub proof fn law_every_asset_is_fixed(
    client: Client,
    album_id: Seq<char>,
    size: nat,
    size_is_count: bool,
    all: Seq<AssetDetail>,
    per_page: nat,
    pages: nat,
    findings: Seq<Finding>,
)
    requires
        per_page > 0,
        pages > all.len(),
        all.len() <= usize::MAX,
        findings.map_values(|finding: Finding| finding.asset) == album::search_over(
            album::start_search(album_id, size, size_is_count),
            all,
            per_page,
            pages,
        ).items,
    ensures
        ({
            let (run, actions) = run_over(client, start_run(true, all.len()), findings);
            &&& !run.stopped && !run.awaiting
            &&& run.total == all.len()
            &&& run.seen == all.len()
            &&& actions.len() == all.len()
            &&& forall|i: int|
                0 <= i < all.len() ==> #[trigger] actions[i] == (if findings[i].timestamp is Some {
                    FixActionView::Update(update_of(client, all[i], finding_text(findings[i])))
                } else {
                    FixActionView::Failed(failed_line(all[i]))
                })
        }),
{
    album::law_every_asset_is_found(album_id, size, size_is_count, all, per_page, pages);
    let assets = findings.map_values(|finding: Finding| finding.asset);
    assert(forall|i: int| 0 <= i < findings.len() ==> assets[i] == findings[i].asset);
    law_applied_run(client, findings);
}

/// A dry run in which no asset gives a timestamp takes every asset and only
/// reports them.
pub proof fn law_dry_run_without_timestamps(client: Client, findings: Seq<Finding>)
    requires
        findings.len() <= usize::MAX,
        none_found(findings, findings.len() as int),
    ensures
        ({
            let (run, actions) = run_over(client, start_run(false, findings.len()), findings);
            &&& !run.stopped && !run.awaiting
            &&& run.total == findings.len()
            &&& run.seen == findings.len()
            &&& run.success == 0
            &&& actions.len() == findings.len()
            &&& reports_first(findings, actions, findings.len() as int)
        }),
{
    lemma_dry_prefix(client, start_run(false, findings.len()), findings);
}

proof fn lemma_dry_prefix(client: Client, start: FixRun, findings: Seq<Finding>)
    requires
        start == start_run(false, start.total as nat),
        findings.len() <= start.total,
        none_found(findings, findings.len() as int),
    ensures
        ({
            let (run, actions) = run_over(client, start, findings);
            &&& run == (FixRun { seen: findings.len() as usize, ..start })
            &&& actions.len() == findings.len()
            &&& reports_first(findings, actions, findings.len() as int)
        }),
    decreases findings.len(),
{
    if findings.len() > 0 {
        lemma_dry_prefix(client, start, findings.drop_last());
    }
}

/// A dry run stops at the first asset that gives a timestamp. Up to there it
/// only reports assets; for that one it shows the request that would set its
/// timestamp. So it sends nothing and counts no success.
pub proof fn law_dry_run_stops_at_first_timestamp(
    client: Client,
    findings: Seq<Finding>,
    first: int,
)
    requires
        findings.len() <= usize::MAX,
        0 <= first < findings.len(),
        findings[first].timestamp is Some,
        none_found(findings, first),
    ensures
        ({
            let (run, actions) = run_over(client, start_run(false, findings.len()), findings);
            &&& run.stopped && !run.awaiting
            &&& run.total == findings.len()
            &&& run.seen == first + 1
            &&& run.success == 0
            &&& ends_with_example(client, findings, actions, first)
        }),
{
    lemma_dry_stop(client, start_run(false, findings.len()), findings, first);
}

proof fn lemma_dry_stop(client: Client, start: FixRun, findings: Seq<Finding>, first: int)
    requires
        start == start_run(false, start.total as nat),
        findings.len() <= start.total,
        0 <= first < findings.len(),
        findings[first].timestamp is Some,
        none_found(findings, first),
    ensures
        ({
            let (run, actions) = run_over(client, start, findings);
            &&& run == (FixRun { seen: (first + 1) as usize, stopped: true, ..start })
            &&& ends_with_example(client, findings, actions, first)
        }),
    decreases findings.len(),
{
    let before = findings.drop_last();
    if first == findings.len() - 1 {
        lemma_dry_prefix(client, start, before);
    } else {
        lemma_dry_stop(client, start, before, first);
    }
}

/// Whether every action only prints: a report or an example.
pub open spec fn only_prints(actions: Seq<FixActionView>) -> bool {
    forall|i: int|
        0 <= i < actions.len() ==> (#[trigger] actions[i]) is Failed || actions[i] is Example
}

/// Whatever the assets give, a dry run sends nothing, counts no success, and
/// never comes to tell what it would do.
pub proof fn law_dry_run_sends_nothing(client: Client, findings: Seq<Finding>)
    ensures
        ({
            let (run, actions) = run_over(client, start_run(false, findings.len()), findings);
            &&& run.success == 0
            &&& only_prints(actions)
        }),
{
    lemma_dry_actions(client, start_run(false, findings.len()), findings);
}

proof fn lemma_dry_actions(client: Client, start: FixRun, findings: Seq<Finding>)
    requires
        !start.apply && start.success == 0,
    ensures
        ({
            let (run, actions) = run_over(client, start, findings);
            &&& !run.apply && run.success == 0
            &&& only_prints(actions)
        }),
    decreases findings.len(),
{
    if findings.len() > 0 {
        lemma_dry_actions(client, start, findings.drop_last());
    }
}

/// A view shows an action as it is.
pub proof fn law_action_views(request: Request, line: String)
    ensures
        FixAction::Example(request)@ == FixActionView::Example(request@),
        FixAction::Update(request)@ == FixActionView::Update(request@),
        FixAction::WouldUpdate(line)@ == FixActionView::WouldUpdate(line@),
        FixAction::Failed(line)@ == FixActionView::Failed(line@),
{
}

/// A run starts with nothing seen. Every asset is seen once. A success is
/// counted when an update was accepted, and not before; a dry run stops at its
/// first timestamp, and nothing else stops a run.
pub proof fn law_run_counts(apply: bool, total: usize, run: FixRun, found: bool, accepted: bool)
    requires
        run.seen < usize::MAX,
        run.success < usize::MAX,
    ensures
        start_run(apply, total as nat).apply == apply,
        start_run(apply, total as nat).total == total,
        start_run(apply, total as nat).seen == 0,
        start_run(apply, total as nat).success == 0,
        !start_run(apply, total as nat).stopped,
        !start_run(apply, total as nat).awaiting,
        next_run(run, found).apply == run.apply,
        next_run(run, found).total == run.total,
        next_run(run, found).seen == run.seen + 1,
        run.apply || !found || run.success == 0 ==> next_run(run, found).success == run.success,
        !run.apply && found && run.success > 0 ==> next_run(run, found).success == run.success + 1,
        next_run(run, found).stopped <==> found && !run.apply && run.success == 0,
        next_run(run, found).awaiting <==> found && run.apply,
        answered_run(run, accepted).apply == run.apply,
        answered_run(run, accepted).total == run.total,
        answered_run(run, accepted).seen == run.seen,
        answered_run(run, accepted).stopped == run.stopped,
        !answered_run(run, accepted).awaiting,
        answered_run(run, true).success == run.success + 1,
        answered_run(run, false).success == run.success,
{
}

/// The lines name the asset's file and path, the timestamp, what the server
/// answered, and the two counts.
pub proof fn law_lines(
    asset: AssetDetail,
    timestamp: Seq<char>,
    status: Seq<char>,
    text: Seq<char>,
    success: nat,
    total: nat,
)
    ensures
        failed_line(asset) == "Failed to get timestamp for "@ + asset.original_filename@ + " - "@
            + asset.original_path@,
        would_update_line(timestamp) == "Would update timestamp here to: "@ + timestamp,
        refused_line(asset, status, text) == "Failed to update "@ + asset.original_filename@
            + ": "@ + status + " - "@ + text,
        summary_line(success, total) == "Successfully updated ["@ + text::decimal(success) + "/"@
            + text::decimal(total) + "] assets"@,
{
}

/// Whether a request sets the timestamp of an asset: it is a PUT to the asset's
/// own address, with the key, and its body holds that timestamp and no more.
pub open spec fn sets_timestamp(
    request: client::RequestView,
    client: Client,
    asset: AssetDetail,
    timestamp: Seq<char>,
) -> bool {
    &&& request.method == client::Method::Put
    &&& request.url == client.base_url@ + "/assets/"@ + asset.id@
    &&& request.headers == seq![
        ("x-api-key"@, client.api_key@),
        ("Content-Type"@, "application/json"@),
        ("Accept"@, "application/json"@),
    ]
    &&& request.query.len() == 0
    &&& request.body == Some(client::BodyView::DateTimeOriginal { timestamp })
}

/// The request that is made for an asset sets the timestamp of that asset.
pub proof fn law_update_sets_the_timestamp(
    client: Client,
    asset: AssetDetail,
    timestamp: Seq<char>,
)
    ensures
        sets_timestamp(update_of(client, asset, timestamp), client, asset, timestamp),
{
    reveal_strlit("/");
    reveal_strlit("assets/");
    reveal_strlit("/assets/");
    let request = update_of(client, asset, timestamp);
    client::law_body_requests(
        client,
        client::Method::Put,
        "assets/"@ + asset.id@,
        client::BodyView::DateTimeOriginal { timestamp },
    );
    assert(request.url =~= client.base_url@ + "/assets/"@ + asset.id@);
}

/// An asset without a timestamp is reported with its file name and path. For
/// one with a timestamp the text of just that moment and offset is sent if
/// changes are applied, and shown if not.
pub proof fn law_actions(
    run: FixRun,
    client: Client,
    asset: AssetDetail,
    datetime: DateTime,
    offset: Option<Offset>,
)
    ensures
        action_for(run, client, asset, None) == FixActionView::Failed(
            "Failed to get timestamp for "@ + asset.original_filename@ + " - "@
                + asset.original_path@,
        ),
        run.apply ==> (action_for(run, client, asset, Some((datetime, offset))) matches
            FixActionView::Update(request) && sets_timestamp(
            request,
            client,
            asset,
            datetime::datetime_text(datetime, offset),
        )),
        !run.apply && run.success == 0 ==> (action_for(
            run,
            client,
            asset,
            Some((datetime, offset)),
        ) matches FixActionView::Example(request) && sets_timestamp(
            request,
            client,
            asset,
            datetime::datetime_text(datetime, offset),
        )),
        !run.apply && run.success > 0 ==> action_for(run, client, asset, Some((datetime, offset)))
            == FixActionView::WouldUpdate(
            "Would update timestamp here to: "@ + datetime::datetime_text(datetime, offset),
        ),
{
    law_update_sets_the_timestamp(client, asset, datetime::datetime_text(datetime, offset));
}

/// An asset gives a timestamp exactly if its file does, and then the same: the
/// moment as it is and the offset as it is, with its sign. It can be written
/// exactly if that moment with that offset has a text.
pub proof fn law_timestamp_is_passed_on(
    container_prefix: Seq<char>,
    asset: AssetDetail,
    file: HostFile,
    datetime: DateTime,
    offset: Option<Offset>,
)
    ensures
        found_timestamp(container_prefix, asset, file) == Some((datetime, offset))
            <==> asset::original_timestamp(container_prefix, asset.original_path@, file) == Ok::<
            (DateTime, Option<Offset>),
            metadata::TimestampError,
        >((datetime, offset)),
        found_timestamp(container_prefix, asset, file) is None <==> asset::original_timestamp(
            container_prefix,
            asset.original_path@,
            file,
        ) is Err,
        can_be_written(None),
        can_be_written(Some((datetime, offset))) <==> datetime::has_text(datetime, offset),
{
}

/// What an asset gives goes into its request unchanged. Its path is the prefix
/// followed by anything; its file's first date string is a date; its file's
/// first offset string is a sign, two digits of hours, from one to
/// twenty-three, any byte and two digits of minutes. Then the timestamp of the
/// request is the date string with dashes in the date and a `T` before the time,
/// followed by that same sign, those same two digits and `:00`.
pub proof fn law_photo_reaches_its_request(
    run: FixRun,
    client: Client,
    container_prefix: Seq<char>,
    rest: Seq<char>,
    asset: AssetDetail,
    contents: Vec<u8>,
    fields: Map<(u16, u16), Option<Seq<Seq<u8>>>>,
    dates: Seq<Seq<u8>>,
    offsets: Seq<Seq<u8>>,
)
    requires
        run.apply || run.success == 0,
        asset.original_path@ == container_prefix + rest,
        metadata::container_fields(contents@) == Some(fields),
        fields.get((0u16, 0x9003u16)) == Some(Some(dates)),
        dates.len() > 0,
        metadata::is_exif_date(dates[0]),
        fields.get((0u16, 0x9011u16)) == Some(Some(offsets)),
        offsets.len() > 0,
        offsets[0].len() == 6,
        offsets[0][0] == 43 || offsets[0][0] == 45,
        48 <= offsets[0][1] <= 57 && 48 <= offsets[0][2] <= 57,
        48 <= offsets[0][4] <= 57 && 48 <= offsets[0][5] <= 57,
        0 < (offsets[0][1] - 48) * 10 + (offsets[0][2] - 48) < 24,
    ensures
        ({
            let date = dates[0];
            let zone = offsets[0];
            let found = found_timestamp(container_prefix, asset, HostFile::Contents(contents));
            let action = action_for(run, client, asset, found);
            let request = if run.apply {
                action->Update_0
            } else {
                action->Example_0
            };
            let sent = request.body->Some_0->timestamp;
            &&& found matches Some((datetime, Some(offset))) && {
                &&& datetime == metadata::exif_date(date)
                &&& offset.hours == (zone[1] - 48) * 10 + (zone[2] - 48)
                &&& offset.minutes == (zone[4] - 48) * 10 + (zone[5] - 48)
                &&& offset.is_negative == (zone[0] == 45)
            }
            &&& run.apply ==> action is Update
            &&& !run.apply ==> action is Example
            &&& sets_timestamp(request, client, asset, sent)
            &&& metadata::repeats_date_and_zone(sent, date, zone)
        }),
{
    let date = dates[0];
    let zone = offsets[0];
    offset::law_signed_offset(zone[0], zone[1], zone[2], zone[3], zone[4], zone[5]);
    assert(zone =~= seq![zone[0], zone[1], zone[2], zone[3], zone[4], zone[5]]);
    let offset = offset::offset_of(zone)->Ok_0;
    asset::law_file_decides_the_moment(
        container_prefix,
        rest,
        asset.original_path@,
        contents,
        HostFile::Contents(contents),
    );
    metadata::law_contents_give_what_the_fields_give(contents@);
    metadata::law_text_of_a_photo(fields, dates, offsets, offset);
    law_actions(run, client, asset, metadata::exif_date(date), Some(offset));
    let sent = datetime::datetime_text(metadata::exif_date(date), Some(offset));
    let hours = offset.hours as nat;
    assert((3600 * hours + 30) / 60 / 60 == hours && (3600 * hours + 30) / 60 % 60 == 0);
    text::lemma_two_wide(hours);
    text::lemma_two_wide(0);
    let suffix = datetime::zone_suffix(datetime::zone_seconds(offset));
    assert(hours / 10 == zone[1] - 48 && hours % 10 == zone[2] - 48);
    assert(suffix =~= seq![
        zone[0] as char,
        zone[1] as char,
        zone[2] as char,
        ':',
        '0',
        '0',
    ]);
    let repeated = metadata::repeated_string(date);
    assert(sent == repeated + suffix);
    assert(forall|i: int| 0 <= i < 19 ==> sent[i] == repeated[i]);
    assert(sent[19] == suffix[0] && sent[20] == suffix[1] && sent[21] == suffix[2]);
    assert(sent[22] == suffix[3] && sent[23] == suffix[4] && sent[24] == suffix[5]);
}

/// As `law_photo_reaches_its_request`, for a file whose offset is missing or
/// cannot be read: the timestamp of the request repeats the date string, and
/// nothing follows it.
pub proof fn law_photo_without_offset_reaches_its_request(
    run: FixRun,
    client: Client,
    container_prefix: Seq<char>,
    rest: Seq<char>,
    asset: AssetDetail,
    contents: Vec<u8>,
    fields: Map<(u16, u16), Option<Seq<Seq<u8>>>>,
    dates: Seq<Seq<u8>>,
)
    requires
        run.apply || run.success == 0,
        asset.original_path@ == container_prefix + rest,
        metadata::container_fields(contents@) == Some(fields),
        fields.get((0u16, 0x9003u16)) == Some(Some(dates)),
        dates.len() > 0,
        metadata::is_exif_date(dates[0]),
        !metadata::has_readable_offset(fields),
    ensures
        ({
            let found = found_timestamp(container_prefix, asset, HostFile::Contents(contents));
            let action = action_for(run, client, asset, found);
            let request = if run.apply {
                action->Update_0
            } else {
                action->Example_0
            };
            let sent = request.body->Some_0->timestamp;
            &&& found == Some((metadata::exif_date(dates[0]), None::<Offset>))
            &&& can_be_written(found)
            &&& run.apply ==> action is Update
            &&& !run.apply ==> action is Example
            &&& sets_timestamp(request, client, asset, sent)
            &&& metadata::repeats_date(sent, dates[0])
        }),
{
    asset::law_file_decides_the_moment(
        container_prefix,
        rest,
        asset.original_path@,
        contents,
        HostFile::Contents(contents),
    );
    metadata::law_contents_give_what_the_fields_give(contents@);
    metadata::law_photo_without_offset(fields, dates);
    law_actions(run, client, asset, metadata::exif_date(dates[0]), None);
}

/// The counts of a run are numbers of assets: those that gave a timestamp, and
/// those of them whose update was accepted.
pub proof fn law_counts_are_numbers_of_assets(findings: Seq<Finding>)
    ensures
        found_count(findings) == findings.filter(
            |finding: Finding| finding.timestamp is Some,
        ).len(),
        updated_count(findings) == findings.filter(
            |finding: Finding| finding.timestamp is Some && finding.accepted,
        ).len(),
    decreases findings.len(),
{
    reveal(Seq::filter);
    if findings.len() > 0 {
        law_counts_are_numbers_of_assets(findings.drop_last());
    }
}

} // verus!
