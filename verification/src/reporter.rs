//! Result aggregation: the overall verdict, the templated review
//! message addressed to the submitter, and the structured report
//! handed to the reporting layer.

use vstd::prelude::*;
use vstd::slice::slice_index_get;
use vstd::slice::slice_subrange;
use vstd::string::StringExecFns;

use crate::entities::{
    spec_completed_keys, spec_rejected_messages, views_of, AutoReviewConfig, Checklists,
    ChecklistsView, Report, CHECKLIST_KEYS_COUNT,
};

verus! {

/// The messages joined one per line.
pub open spec fn spec_join_newline(msgs: Seq<Seq<char>>) -> Seq<char>
    decreases msgs.len(),
{
    if msgs.len() == 0 {
        Seq::<char>::empty()
    } else if msgs.len() == 1 {
        msgs[0]
    } else {
        msgs[0] + "\n"@ + spec_join_newline(msgs.drop_first())
    }
}

/// Joins the messages one per line.
fn join_newline(msgs: &[String]) -> (r: String)
    ensures
        r@ == spec_join_newline(views_of(msgs@)),
    decreases msgs@.len(),
{
    let n = msgs.len();
    if n == 0 {
        let r = String::new();
        proof {
            assert(r@ =~= spec_join_newline(views_of(msgs@)));
        }
        r
    } else if n == 1 {
        let r = slice_index_get(msgs, 0).clone();
        proof {
            assert(r@ =~= spec_join_newline(views_of(msgs@)));
        }
        r
    } else {
        let mut r = slice_index_get(msgs, 0).clone();
        r.append("\n");
        let rest = join_newline(slice_subrange(msgs, 1, n));
        r.append(rest.as_str());
        proof {
            assert(views_of(msgs@.subrange(1, n as int)) =~= views_of(msgs@).drop_first());
            assert(r@ =~= spec_join_newline(views_of(msgs@)));
        }
        r
    }
}

/// The templated message addressed to the submitter: a pass greeting,
/// or a failure notice listing the unmet criteria one per line.
pub open spec fn spec_review_message(
    approved: bool,
    username: Seq<char>,
    rejected: Seq<Seq<char>>,
) -> Seq<char> {
    if approved {
        "Selamat <b>"@ + username
            + "</b>! Kamu telah memenuhi semua kriteria dan lulus dari submission ini"@
    } else {
        "Mohon maaf <b>"@ + username
            + "</b>! Kamu belum memenuhi semua kriteria dan tidak lulus dari submission ini. Berikut adalah kriteria yang belum terpenuhi: \n <ul>"@
            + spec_join_newline(rejected) + "</ul> Silakan diperbaiki, ya. Semangat!"@
    }
}

/// Renders the message addressed to the submitter by name: a greeting
/// when every criterion was met, otherwise a notice listing the unmet
/// criteria.
pub fn generate_review_message(
    is_submission_approved: bool,
    username: String,
    rejected_checklist_messages: &[String],
) -> (r: String)
    ensures
        r@ == spec_review_message(
            is_submission_approved,
            username@,
            views_of(rejected_checklist_messages@),
        ),
{
    if is_submission_approved {
        let mut r = String::from_str("Selamat <b>");
        r.append(username.as_str());
        r.append("</b>! Kamu telah memenuhi semua kriteria dan lulus dari submission ini");
        proof {
            assert(r@ =~= spec_review_message(
                true,
                username@,
                views_of(rejected_checklist_messages@),
            ));
        }
        r
    } else {
        let mut r = String::from_str("Mohon maaf <b>");
        r.append(username.as_str());
        r.append(
            "</b>! Kamu belum memenuhi semua kriteria dan tidak lulus dari submission ini. Berikut adalah kriteria yang belum terpenuhi: \n <ul>",
        );
        let joined = join_newline(rejected_checklist_messages);
        r.append(joined.as_str());
        r.append("</ul> Silakan diperbaiki, ya. Semangat!");
        proof {
            assert(r@ =~= spec_review_message(
                false,
                username@,
                views_of(rejected_checklist_messages@),
            ));
        }
        r
    }
}

/// Whether the submission passes: all six rubric keys are present in
/// the completed-key list.
pub fn is_submission_approved(checklists: &Checklists) -> (r: bool)
    ensures
        r == (checklists@.completed_checklists_key.len() == CHECKLIST_KEYS_COUNT as int),
{
    checklists.completed_checklists_key.len() == CHECKLIST_KEYS_COUNT
}

/// A checklist set whose recorded keys are those of its passed items
/// records all six keys exactly when every rubric item passed.
pub proof fn lemma_approved_iff_all_passed(v: ChecklistsView)
    requires
        v.completed_checklists_key == spec_completed_keys(v),
    ensures
        (v.completed_checklists_key.len() == CHECKLIST_KEYS_COUNT as int) <==> (
        v.package_json_exists.status && v.main_js_exists.status
            && v.main_js_have_student_id_comment.status && v.root_showing_html.status
            && v.serve_in_port_5000.status && v.html_contain_h1_element_with_student_id.status),
{
}

/// Builds the structured report for a graded submission: the verdict,
/// the full rating exactly on a pass, the recorded keys of the passed
/// items, and the templated review message.
pub fn generate_report(checklists: Checklists, auto_review_config: AutoReviewConfig) -> (r: Report)
    ensures
        r.submission_id == auto_review_config.id,
        r.is_passed == (checklists@.completed_checklists_key.len() == CHECKLIST_KEYS_COUNT as int),
        r.rating == (if r.is_passed {
            5u8
        } else {
            0u8
        }),
        views_of(r.checklist_keys@) == checklists@.completed_checklists_key,
        r.message@ == spec_review_message(
            r.is_passed,
            auto_review_config.submitter_name@,
            spec_rejected_messages(checklists@),
        ),
{
    let approved = is_submission_approved(&checklists);
    let rejected = checklists.get_rejected_checklist_messages();
    let message = generate_review_message(approved, auto_review_config.submitter_name, rejected.as_slice());
    Report {
        submission_id: auto_review_config.id,
        rating: if approved {
            5
        } else {
            0
        },
        checklist_keys: checklists.completed_checklists_key,
        message,
        is_passed: approved,
    }
}

} // verus!
