//! How long a conversation with the host can last.

use vstd::prelude::*;

use crate::cleanup::CleanupModel;
use crate::command::{LaunchModel, LaunchPhase};
use crate::download::DownloadModel;
use crate::existing::LookupModel;
use crate::host::{answers, in_order, Machine, Progress, ReplyModel};
use crate::install::{DeliveryModel, InstallModel};
use crate::latest::LatestPhase;
use crate::search::SearchPhase;
use crate::update::replies_left;

verus! {

/// How many replies a cleanup can still take if no more entries come.
pub open spec fn cleanup_bound(machine: CleanupModel) -> int {
    match machine {
        CleanupModel::Opening { .. } => 2,
        CleanupModel::Scanning { .. } => 1,
        CleanupModel::Inspecting { .. } => 4,
        CleanupModel::Removing { .. } => 3,
        CleanupModel::Warning { .. } => 2,
    }
}

/// How many replies an installation can still take if no more entries come.
pub open spec fn install_bound(machine: InstallModel) -> int {
    match machine {
        InstallModel::Choosing { .. } => 9,
        InstallModel::Naming { .. } => 8,
        InstallModel::Probing { .. } => 7,
        InstallModel::Downloading { download, .. } => match download {
            DownloadModel::Selecting { .. } => 6,
            DownloadModel::Fetching { .. } => 5,
            DownloadModel::Marking { .. } => 4,
        },
        InstallModel::Recording { .. } => 3,
        InstallModel::Cleaning { cleanup, .. } => cleanup_bound(cleanup),
    }
}

/// How many replies a delivery can still take if no more entries come.
pub open spec fn delivery_bound(machine: DeliveryModel) -> int {
    match machine {
        DeliveryModel::Installing { install } => install_bound(install) + 1,
        DeliveryModel::Reporting { .. } => 1,
    }
}

/// How many replies a lookup can still take.
pub open spec fn lookup_bound(machine: LookupModel) -> int {
    match machine {
        LookupModel::ReadingVersion => 3,
        LookupModel::Naming { .. } => 2,
        LookupModel::Probing { .. } => 1,
    }
}

/// How many replies the search for the latest binary can still take if no more entries come.
pub open spec fn latest_bound(phase: LatestPhase) -> int {
    match phase {
        LatestPhase::Announcing => 19,
        LatestPhase::Checking { check } => 12 + replies_left(check),
        LatestPhase::Preparing { .. } => 12,
        LatestPhase::Delivering { delivery } => delivery_bound(delivery) + 1,
        LatestPhase::Loading { lookup, .. } => lookup_bound(lookup) + 1,
        LatestPhase::Settling { .. } => 1,
    }
}

/// How many replies a launch can still take if no more entries come.
pub open spec fn launch_bound(phase: LaunchPhase) -> int {
    match phase {
        LaunchPhase::Searching { search } => match search {
            SearchPhase::Development => 23,
            SearchPhase::System => 22,
            SearchPhase::Cached { .. } => 21,
            SearchPhase::Latest { latest } => latest_bound(latest) + 1,
        },
        LaunchPhase::Rooting { .. } => 1,
    }
}

/// How many of `replies` are about directory entries.
pub open spec fn entry_count(replies: Seq<ReplyModel>) -> nat {
    replies.filter(|reply: ReplyModel| reply is Entry).len()
}

/// A reply brings a launch closer to its end, unless it is about a directory entry, which can
/// lead to three more questions.
proof fn lemma_launch_progress(machine: LaunchModel, reply: ReplyModel)
    requires
        machine.wf(),
        answers(machine.pending(), reply),
    ensures
        1 <= launch_bound(machine.phase),
        machine.step(reply) matches Progress::Ask(next) ==> {
            &&& next.wf()
            &&& launch_bound(next.phase) <= launch_bound(machine.phase) + (if reply is Entry {
                3int
            } else {
                -1int
            })
        },
{
}

/// A launch ends: it takes at most 23 replies, and four more for each reply about an entry of the
/// directory that is cleaned up.
pub proof fn law_launch_ends(cache: Option<Seq<char>>, replies: Seq<ReplyModel>)
    requires
        in_order(Progress::Ask(LaunchModel::new(cache)), replies),
    ensures
        replies.len() <= 23 + 4 * entry_count(replies),
{
    lemma_launch_ends(LaunchModel::new(cache), replies);
}

proof fn lemma_launch_ends(machine: LaunchModel, replies: Seq<ReplyModel>)
    requires
        machine.wf(),
        in_order(Progress::Ask(machine), replies),
    ensures
        replies.len() <= launch_bound(machine.phase) + 4 * entry_count(replies),
    decreases replies.len(),
{
    reveal_with_fuel(in_order, 2);
    let pred = |reply: ReplyModel| reply is Entry;
    if replies.len() == 0 {
        assert(launch_bound(machine.phase) >= 0);
    } else {
        let reply = replies.first();
        let rest = replies.drop_first();
        lemma_launch_progress(machine, reply);
        assert(entry_count(replies) == entry_count(rest) + (if reply is Entry {
            1int
        } else {
            0int
        })) by {
            assert(replies =~= seq![reply] + rest);
            Seq::filter_distributes_over_add(seq![reply], rest, pred);
            reveal_with_fuel(Seq::filter, 2);
            assert(seq![reply].drop_last() =~= seq![]);
        }
        match machine.step(reply) {
            Progress::Ask(next) => {
                lemma_launch_ends(next, rest);
            },
            Progress::Done(_) => {
                assert(rest =~= seq![]);
            },
        }
    }
}

} // verus!
