//! Core data model: single checklist entries, the fixed six-item
//! checklist set, and the report records exchanged with the
//! surrounding tooling.

use vstd::prelude::*;
use vstd::string::StringExecFns;

verus! {

/// How many items the rubric holds.
pub const CHECKLIST_KEYS_COUNT: usize = 6;

/// The views of a sequence of strings.
pub open spec fn views_of(ss: Seq<String>) -> Seq<Seq<char>> {
    ss.map_values(|s: String| s@)
}

/// Mathematical view of one checklist entry: whether it passed and
/// the rejection reason (empty when passed).
#[verifier::ext_equal]
pub ghost struct CheckView {
    pub status: bool,
    pub message: Seq<char>,
}

/// An approved entry: passed, with no message.
pub open spec fn spec_approved() -> CheckView {
    CheckView { status: true, message: Seq::<char>::empty() }
}

/// A rejected entry carrying the given reason.
pub open spec fn spec_rejected(message: Seq<char>) -> CheckView {
    CheckView { status: false, message }
}

/// One rubric item's result: pass/fail plus a human-readable
/// rejection reason, empty when passed.
pub struct Checklist {
    pub status: bool,
    pub message: String,
}

impl View for Checklist {
    type V = CheckView;

    open spec fn view(&self) -> CheckView {
        CheckView { status: self.status, message: self.message@ }
    }
}

impl Checklist {
    /// A passed entry with an empty message.
    pub fn approve() -> (r: Self)
        ensures
            r@ == spec_approved(),
    {
        let r = Checklist { status: true, message: String::new() };
        proof {
            assert(r@ =~= spec_approved());
        }
        r
    }

    /// A failed entry carrying the given rejection reason.
    pub fn reject(message: String) -> (r: Self)
        ensures
            r@ == spec_rejected(message@),
    {
        let r = Checklist { status: false, message };
        proof {
            assert(r@ =~= spec_rejected(r.message@));
        }
        r
    }
}

impl Default for Checklist {
    /// A not-yet-evaluated entry: failed with an empty message.
    fn default() -> (r: Self)
        ensures
            r@ == spec_rejected(Seq::<char>::empty()),
    {
        let r = Checklist { status: false, message: String::new() };
        proof {
            assert(r@ =~= spec_rejected(Seq::<char>::empty()));
        }
        r
    }
}

/// Key naming the manifest-file rubric item.
pub open spec fn key_package_json_exists() -> Seq<char> {
    "PACKAGE_JSON_EXISTS"@
}

/// Key naming the entry-script rubric item.
pub open spec fn key_main_js_exists() -> Seq<char> {
    "MAIN_JS_EXISTS"@
}

/// Key naming the identity-comment rubric item.
pub open spec fn key_main_js_have_student_id_comment() -> Seq<char> {
    "MAIN_JS_HAVE_STUDENT_ID_COMMENT"@
}

/// Key naming the HTML-root rubric item.
pub open spec fn key_root_showing_html() -> Seq<char> {
    "ROOT_SHOWING_HTML"@
}

/// Key naming the port-listener rubric item.
pub open spec fn key_serve_in_port_5000() -> Seq<char> {
    "SERVE_IN_PORT_5000"@
}

/// Key naming the identity-marker rubric item.
pub open spec fn key_html_contain_h1_element_with_student_id() -> Seq<char> {
    "HTML_CONTAIN_H_1_ELEMENT_WITH_STUDENT_ID"@
}

/// Reason shown while the identity-comment check is blocked on the
/// entry script's absence.
pub open spec fn msg_blocked_main_js_comment() -> Seq<char> {
    "Kriteria 'Komentar ID Anda pada main.js' tidak bisa diperiksa karena file main.js tidak ditemukan."@
}

/// Reason shown while the HTML-root check is blocked on the project
/// not running.
pub open spec fn msg_blocked_root_showing_html() -> Seq<char> {
    "Kriteria 'Root menampilkan HTML' tidak bisa diperiksa karena package.json tidak bisa jalankan."@
}

/// Reason shown while the port check is blocked on the project not
/// running.
pub open spec fn msg_blocked_serve_in_port() -> Seq<char> {
    "Kriteria 'Aplikasi Berjalan di port 5000' tidak bisa diperiksa karena package.json tidak bisa jalankan."@
}

/// Reason shown while the identity-marker check is blocked on the
/// project not running.
pub open spec fn msg_blocked_h1_element() -> Seq<char> {
    "Kriteria 'Menampilkan ID pada element H1' tidak bisa diperiksa karena project tiak bisa dijalankan."@
}

/// Mathematical view of the whole checklist set, one field per
/// rubric item, plus the recorded keys of the passed items.
#[verifier::ext_equal]
pub ghost struct ChecklistsView {
    pub package_json_exists: CheckView,
    pub main_js_exists: CheckView,
    pub main_js_have_student_id_comment: CheckView,
    pub root_showing_html: CheckView,
    pub serve_in_port_5000: CheckView,
    pub html_contain_h1_element_with_student_id: CheckView,
    pub completed_checklists_key: Seq<Seq<char>>,
}

/// The full checklist set: one entry per rubric item. Every item is
/// always present — a blocked item holds its inherited reason, never
/// a missing slot.
pub struct Checklists {
    pub package_json_exists: Checklist,
    pub main_js_exists: Checklist,
    pub main_js_have_student_id_comment: Checklist,
    pub root_showing_html: Checklist,
    pub serve_in_port_5000: Checklist,
    pub html_contain_h1_element_with_student_id: Checklist,
    pub completed_checklists_key: Vec<String>,
}

impl View for Checklists {
    type V = ChecklistsView;

    open spec fn view(&self) -> ChecklistsView {
        ChecklistsView {
            package_json_exists: self.package_json_exists@,
            main_js_exists: self.main_js_exists@,
            main_js_have_student_id_comment: self.main_js_have_student_id_comment@,
            root_showing_html: self.root_showing_html@,
            serve_in_port_5000: self.serve_in_port_5000@,
            html_contain_h1_element_with_student_id: self.html_contain_h1_element_with_student_id@,
            completed_checklists_key: views_of(self.completed_checklists_key@),
        }
    }
}

/// The checklist set before any check has run: the two file checks
/// are unevaluated with an empty reason, the four dependent checks
/// carry the reason naming their unmet prerequisite.
pub open spec fn spec_initial_checklists() -> ChecklistsView {
    ChecklistsView {
        package_json_exists: spec_rejected(Seq::<char>::empty()),
        main_js_exists: spec_rejected(Seq::<char>::empty()),
        main_js_have_student_id_comment: spec_rejected(msg_blocked_main_js_comment()),
        root_showing_html: spec_rejected(msg_blocked_root_showing_html()),
        serve_in_port_5000: spec_rejected(msg_blocked_serve_in_port()),
        html_contain_h1_element_with_student_id: spec_rejected(msg_blocked_h1_element()),
        completed_checklists_key: Seq::<Seq<char>>::empty(),
    }
}

/// A one-entry sequence holding `x` when `cond` holds, else empty.
pub open spec fn cond_entry(cond: bool, x: Seq<char>) -> Seq<Seq<char>> {
    if cond {
        seq![x]
    } else {
        Seq::<Seq<char>>::empty()
    }
}

/// A rejection reason rendered as an HTML list item.
pub open spec fn li_wrap(message: Seq<char>) -> Seq<char> {
    "<li>"@ + message + "</li>"@
}

/// The keys of the passed rubric items, in rubric order.
pub open spec fn spec_completed_keys(v: ChecklistsView) -> Seq<Seq<char>> {
    cond_entry(v.package_json_exists.status, key_package_json_exists())
        + cond_entry(v.main_js_exists.status, key_main_js_exists())
        + cond_entry(
        v.main_js_have_student_id_comment.status,
        key_main_js_have_student_id_comment(),
    ) + cond_entry(v.root_showing_html.status, key_root_showing_html())
        + cond_entry(v.serve_in_port_5000.status, key_serve_in_port_5000())
        + cond_entry(
        v.html_contain_h1_element_with_student_id.status,
        key_html_contain_h1_element_with_student_id(),
    )
}

/// The rendered reason of `c` when it did not pass, else empty.
pub open spec fn cond_rejected(c: CheckView) -> Seq<Seq<char>> {
    if c.status {
        Seq::<Seq<char>>::empty()
    } else {
        seq![li_wrap(c.message)]
    }
}

/// The rendered reasons of the rubric items that did not pass, in
/// rubric order.
pub open spec fn spec_rejected_messages(v: ChecklistsView) -> Seq<Seq<char>> {
    cond_rejected(v.package_json_exists) + cond_rejected(v.main_js_exists)
        + cond_rejected(v.main_js_have_student_id_comment) + cond_rejected(v.root_showing_html)
        + cond_rejected(v.serve_in_port_5000) + cond_rejected(
        v.html_contain_h1_element_with_student_id,
    )
}

/// Appends `key` to `keys` when `status` holds.
fn append_key_if(keys: &mut Vec<String>, status: bool, key: &str)
    ensures
        views_of(final(keys)@) == views_of(old(keys)@) + cond_entry(status, key@),
{
    if status {
        keys.push(String::from_str(key));
    }
    proof {
        assert(views_of(keys@) =~= views_of(old(keys)@) + cond_entry(status, key@));
    }
}

/// Appends the rendered reason of `entry` to `msgs` when it did not
/// pass.
fn append_rejected_if(msgs: &mut Vec<String>, entry: &Checklist)
    ensures
        views_of(final(msgs)@) == views_of(old(msgs)@) + cond_rejected(entry@),
{
    if !entry.status {
        let mut item = String::from_str("<li>");
        item.append(entry.message.as_str());
        item.append("</li>");
        proof {
            assert(item@ =~= li_wrap(entry.message@));
        }
        msgs.push(item);
    }
    proof {
        assert(views_of(msgs@) =~= views_of(old(msgs)@) + cond_rejected(entry@));
    }
}

impl Checklists {
    /// The checklist set ready for grading, every rubric item present
    /// with its initial blocked result.
    pub fn initialize() -> (r: Checklists)
        ensures
            r@ == spec_initial_checklists(),
    {
        let r = Checklists {
            package_json_exists: Checklist::default(),
            main_js_exists: Checklist::default(),
            main_js_have_student_id_comment: Checklist::reject(
                String::from_str(
                    "Kriteria 'Komentar ID Anda pada main.js' tidak bisa diperiksa karena file main.js tidak ditemukan.",
                ),
            ),
            root_showing_html: Checklist::reject(
                String::from_str(
                    "Kriteria 'Root menampilkan HTML' tidak bisa diperiksa karena package.json tidak bisa jalankan.",
                ),
            ),
            serve_in_port_5000: Checklist::reject(
                String::from_str(
                    "Kriteria 'Aplikasi Berjalan di port 5000' tidak bisa diperiksa karena package.json tidak bisa jalankan.",
                ),
            ),
            html_contain_h1_element_with_student_id: Checklist::reject(
                String::from_str(
                    "Kriteria 'Menampilkan ID pada element H1' tidak bisa diperiksa karena project tiak bisa dijalankan.",
                ),
            ),
            completed_checklists_key: Vec::new(),
        };
        proof {
            assert(r@ =~~= spec_initial_checklists());
        }
        r
    }

    /// The keys of the rubric items that passed, in rubric order.
    pub fn get_completed_checklist_keys(&self) -> (r: Vec<String>)
        ensures
            views_of(r@) == spec_completed_keys(self@),
    {
        let mut r: Vec<String> = Vec::new();
        proof {
            assert(views_of(r@) =~= Seq::<Seq<char>>::empty());
        }
        append_key_if(&mut r, self.package_json_exists.status, "PACKAGE_JSON_EXISTS");
        append_key_if(&mut r, self.main_js_exists.status, "MAIN_JS_EXISTS");
        append_key_if(
            &mut r,
            self.main_js_have_student_id_comment.status,
            "MAIN_JS_HAVE_STUDENT_ID_COMMENT",
        );
        append_key_if(&mut r, self.root_showing_html.status, "ROOT_SHOWING_HTML");
        append_key_if(&mut r, self.serve_in_port_5000.status, "SERVE_IN_PORT_5000");
        append_key_if(
            &mut r,
            self.html_contain_h1_element_with_student_id.status,
            "HTML_CONTAIN_H_1_ELEMENT_WITH_STUDENT_ID",
        );
        proof {
            assert(views_of(r@) =~= spec_completed_keys(self@));
        }
        r
    }

    /// The rejection reasons of the rubric items that did not pass,
    /// each rendered as an HTML list item, in rubric order.
    pub fn get_rejected_checklist_messages(&self) -> (r: Vec<String>)
        ensures
            views_of(r@) == spec_rejected_messages(self@),
    {
        let mut r: Vec<String> = Vec::new();
        proof {
            assert(views_of(r@) =~= Seq::<Seq<char>>::empty());
        }
        append_rejected_if(&mut r, &self.package_json_exists);
        append_rejected_if(&mut r, &self.main_js_exists);
        append_rejected_if(&mut r, &self.main_js_have_student_id_comment);
        append_rejected_if(&mut r, &self.root_showing_html);
        append_rejected_if(&mut r, &self.serve_in_port_5000);
        append_rejected_if(&mut r, &self.html_contain_h1_element_with_student_id);
        proof {
            assert(views_of(r@) =~= spec_rejected_messages(self@));
        }
        r
    }
}

/// A check's result together with the artifact it produced on
/// success, handed to at most one dependent check.
pub struct ChecklistResult<T> {
    pub checklist: Checklist,
    pub extra_data: Option<T>,
}

/// The per-submission grading configuration, as read from the
/// grading harness's descriptor.
pub struct AutoReviewConfig {
    pub id: u32,
    pub submitter_id: u32,
    pub submitter_name: String,
    pub rating: u8,
    pub course_id: u32,
}

/// The structured grading report handed to the reporting layer.
pub struct Report {
    pub submission_id: u32,
    pub rating: u8,
    pub checklist_keys: Vec<String>,
    pub message: String,
    pub is_passed: bool,
}

} // verus!
