//! The checklist grading engine: evaluates the six rubric items from
//! the observations handed in by the surrounding tooling (located
//! files, entry-script text, port probe, fetched root response) and
//! aggregates them into the final checklist set.

use vstd::prelude::*;
use vstd::string::StringExecFns;

use crate::entities::{
    key_html_contain_h1_element_with_student_id, key_main_js_exists,
    key_main_js_have_student_id_comment, key_package_json_exists, key_root_showing_html,
    key_serve_in_port_5000, msg_blocked_h1_element, msg_blocked_main_js_comment,
    msg_blocked_root_showing_html, msg_blocked_serve_in_port, spec_approved, spec_completed_keys,
    spec_initial_checklists, spec_rejected, spec_rejected_messages, CheckView, Checklist,
    ChecklistResult, Checklists, ChecklistsView, CHECKLIST_KEYS_COUNT,
};
use crate::text::{
    contains_substr, h1_pattern, has_comment_with_id, regex_is_match, spec_comment_with_id,
    spec_contains, spec_dec_digits, spec_h1_pattern, u32_to_dec_string,
};

verus! {

/// Reason given when the manifest file is absent.
pub open spec fn msg_package_json_not_found() -> Seq<char> {
    "Kami tidak bisa menemukan file package.json pada submission yang kamu kirimkan"@
}

/// Reason given when the entry script is absent.
pub open spec fn msg_main_js_not_found() -> Seq<char> {
    "Kami tidak bisa menemukan file main.js pada submission yang kamu kirimkan"@
}

/// Reason given when the entry script holds no identity comment.
pub open spec fn msg_no_comment() -> Seq<char> {
    "File main.js tidak mengandung komentar yang mengandung ID Anda"@
}

/// Reason given when no listener is reachable on the grading port.
pub open spec fn msg_server_down() -> Seq<char> {
    "Server tidak dapat dijalankan pada port 5000"@
}

/// Reason given when the root response could not be fetched.
pub open spec fn msg_fetch_error(error: Seq<char>) -> Seq<char> {
    "Gagal mendapatkan HTML dengan error: "@ + error
}

/// Reason given when the root response is not HTML.
pub open spec fn msg_not_html(content_type: Seq<char>) -> Seq<char> {
    "Content root tidak menampilkan HTML, melainkan "@ + content_type
}

/// Reason given when the root response declares no content type.
pub open spec fn msg_no_content_type() -> Seq<char> {
    "Content root tidak menampilkan HTML, melainkan tanpa Content-Type"@
}

/// Reason given when the root response lacks the marker element.
pub open spec fn msg_no_h1() -> Seq<char> {
    "HTML tidak menampilkan H1 element dengan ID Anda"@
}

/// What fetching the root response yielded: a transport failure with
/// its description, or a response with its declared content type (if
/// any) and full body text.
pub enum FetchOutcome {
    Failure { error: String },
    Success { content_type: Option<String>, body: String },
}

/// Mathematical view of a fetch outcome.
#[verifier::ext_equal]
pub ghost enum FetchView {
    Failure { error: Seq<char> },
    Success { content_type: Option<Seq<char>>, body: Seq<char> },
}

impl View for FetchOutcome {
    type V = FetchView;

    open spec fn view(&self) -> FetchView {
        match self {
            FetchOutcome::Failure { error } => FetchView::Failure { error: error@ },
            FetchOutcome::Success { content_type, body } => FetchView::Success {
                content_type: match content_type {
                    Option::Some(ct) => Option::Some(ct@),
                    Option::None => Option::None,
                },
                body: body@,
            },
        }
    }
}

/// What the dynamic branch observed: either the port probe reached no
/// listener — then no fetch was attempted — or it did, together with
/// what the subsequent fetch of the root yielded.
pub enum DynamicObservation {
    Unreachable,
    Reachable { fetch: FetchOutcome },
}

/// Mathematical view of a dynamic-branch observation.
#[verifier::ext_equal]
pub ghost enum DynamicView {
    Unreachable,
    Reachable { fetch: FetchView },
}

impl View for DynamicObservation {
    type V = DynamicView;

    open spec fn view(&self) -> DynamicView {
        match self {
            DynamicObservation::Unreachable => DynamicView::Unreachable,
            DynamicObservation::Reachable { fetch } => DynamicView::Reachable { fetch: fetch@ },
        }
    }
}

/// The view of an optionally located file path.
pub open spec fn opt_str_view(o: Option<String>) -> Option<Seq<char>> {
    match o {
        Option::Some(s) => Option::Some(s@),
        Option::None => Option::None,
    }
}

/// The view of an optional dynamic-branch observation.
pub open spec fn opt_dynamic_view(o: Option<DynamicObservation>) -> Option<DynamicView> {
    match o {
        Option::Some(d) => Option::Some(d@),
        Option::None => Option::None,
    }
}

/// The manifest-file check's result: passed exactly when the file was
/// located.
pub open spec fn spec_package_json_check(path: Option<Seq<char>>) -> CheckView {
    match path {
        Option::Some(_) => spec_approved(),
        Option::None => spec_rejected(msg_package_json_not_found()),
    }
}

/// The entry-script check's result: passed exactly when the file was
/// located.
pub open spec fn spec_main_js_check(path: Option<Seq<char>>) -> CheckView {
    match path {
        Option::Some(_) => spec_approved(),
        Option::None => spec_rejected(msg_main_js_not_found()),
    }
}

/// The identity-comment check's result: passed exactly when the entry
/// script's text holds a single-line or block comment whose body
/// contains the literal decimal student id anywhere after the comment
/// opener.
pub open spec fn spec_comment_check(content: Seq<char>, student_id: int) -> CheckView {
    if spec_comment_with_id(content, spec_dec_digits(student_id)) {
        spec_approved()
    } else {
        spec_rejected(msg_no_comment())
    }
}

/// The port check's result: passed exactly when the probe reached a
/// listener.
pub open spec fn spec_server_check(connected: bool) -> CheckView {
    if connected {
        spec_approved()
    } else {
        spec_rejected(msg_server_down())
    }
}

/// The HTML-root check's result: passed exactly when the fetch
/// succeeded with a declared content type naming HTML; a transport
/// failure or a missing content type is a failed result, never a
/// fault.
pub open spec fn spec_html_check(fetch: FetchView) -> CheckView {
    match fetch {
        FetchView::Failure { error } => spec_rejected(msg_fetch_error(error)),
        FetchView::Success { content_type, body } => match content_type {
            Option::None => spec_rejected(msg_no_content_type()),
            Option::Some(ct) => if spec_contains(ct, "html"@) {
                spec_approved()
            } else {
                spec_rejected(msg_not_html(ct))
            },
        },
    }
}

/// The body of a successfully fetched root response.
pub open spec fn spec_fetch_body(fetch: FetchView) -> Seq<char> {
    match fetch {
        FetchView::Success { body, .. } => body,
        FetchView::Failure { .. } => Seq::<char>::empty(),
    }
}

/// The identity-marker check's result: passed exactly when the body
/// contains the student id inside an `h1` element, with no
/// surrounding whitespace tolerated.
pub open spec fn spec_h1_check(body: Seq<char>, student_id: int) -> CheckView {
    if spec_contains(body, spec_h1_pattern(student_id)) {
        spec_approved()
    } else {
        spec_rejected(msg_no_h1())
    }
}

/// Locates the manifest-file result: absence is a reportable failed
/// result, not an error.
pub fn get_package_json(package_json_path: Option<String>) -> (r: ChecklistResult<String>)
    ensures
        r.checklist@ == spec_package_json_check(opt_str_view(package_json_path)),
        r.extra_data == package_json_path,
{
    match package_json_path {
        Option::None => ChecklistResult {
            checklist: Checklist::reject(
                String::from_str(
                    "Kami tidak bisa menemukan file package.json pada submission yang kamu kirimkan",
                ),
            ),
            extra_data: None,
        },
        Option::Some(path) => ChecklistResult {
            checklist: Checklist::approve(),
            extra_data: Some(path),
        },
    }
}

/// Locates the entry-script result: absence is a reportable failed
/// result, not an error.
pub fn get_main_js(main_js_path: Option<String>) -> (r: ChecklistResult<String>)
    ensures
        r.checklist@ == spec_main_js_check(opt_str_view(main_js_path)),
        r.extra_data == main_js_path,
{
    match main_js_path {
        Option::None => ChecklistResult {
            checklist: Checklist::reject(
                String::from_str(
                    "Kami tidak bisa menemukan file main.js pada submission yang kamu kirimkan",
                ),
            ),
            extra_data: None,
        },
        Option::Some(path) => ChecklistResult {
            checklist: Checklist::approve(),
            extra_data: Some(path),
        },
    }
}

/// The identity-comment result for a given match outcome.
pub fn comment_check_result(matched: bool) -> (r: Checklist)
    ensures
        r@ == (if matched {
            spec_approved()
        } else {
            spec_rejected(msg_no_comment())
        }),
{
    if matched {
        Checklist::approve()
    } else {
        Checklist::reject(
            String::from_str("File main.js tidak mengandung komentar yang mengandung ID Anda"),
        )
    }
}

/// Evaluates the identity-comment check over the entry script's full
/// text: the text must hold a single-line or block comment whose body
/// contains the literal student id after the opener.
pub fn is_main_js_have_student_id_comment(main_js_content: &str, student_id: u32) -> (r:
    ChecklistResult<bool>)
    ensures
        r.checklist@ == spec_comment_check(main_js_content@, student_id as int),
        r.extra_data is None,
{
    let digits = u32_to_dec_string(student_id);
    let matched = has_comment_with_id(main_js_content, digits.as_str());
    ChecklistResult { checklist: comment_check_result(matched), extra_data: None }
}

/// Evaluates the port check from the probe's outcome: an unreachable
/// port is a failed result, never an exception path.
pub fn is_server_up(connected: bool) -> (r: ChecklistResult<bool>)
    ensures
        r.checklist@ == spec_server_check(connected),
        connected ==> r.extra_data == Some(true),
        !connected ==> r.extra_data is None,
{
    if connected {
        ChecklistResult { checklist: Checklist::approve(), extra_data: Some(true) }
    } else {
        ChecklistResult {
            checklist: Checklist::reject(
                String::from_str("Server tidak dapat dijalankan pada port 5000"),
            ),
            extra_data: None,
        }
    }
}

/// Evaluates the HTML-root check from the fetch outcome, and hands
/// the body on exactly when the check passed.
pub fn get_html_content(response: FetchOutcome) -> (r: ChecklistResult<String>)
    ensures
        r.checklist@ == spec_html_check(response@),
        r.checklist@.status ==> (r.extra_data matches Some(b) && b@ == spec_fetch_body(response@)),
        !r.checklist@.status ==> r.extra_data is None,
{
    match response {
        FetchOutcome::Failure { error } => {
            let mut m = String::from_str("Gagal mendapatkan HTML dengan error: ");
            m.append(error.as_str());
            ChecklistResult { checklist: Checklist::reject(m), extra_data: None }
        },
        FetchOutcome::Success { content_type, body } => match content_type {
            Option::None => ChecklistResult {
                checklist: Checklist::reject(
                    String::from_str(
                        "Content root tidak menampilkan HTML, melainkan tanpa Content-Type",
                    ),
                ),
                extra_data: None,
            },
            Option::Some(ct) => {
                if contains_substr(ct.as_str(), "html") {
                    ChecklistResult { checklist: Checklist::approve(), extra_data: Some(body) }
                } else {
                    let mut m = String::from_str("Content root tidak menampilkan HTML, melainkan ");
                    m.append(ct.as_str());
                    ChecklistResult { checklist: Checklist::reject(m), extra_data: None }
                }
            },
        },
    }
}

/// Evaluates the identity-marker check over the fetched body: the
/// body must contain the student id inside an `h1` element exactly,
/// with no surrounding whitespace.
pub fn check_h1_element_with_student_id(html_content: &str, student_id: u32) -> (r:
    ChecklistResult<bool>)
    ensures
        r.checklist@ == spec_h1_check(html_content@, student_id as int),
        r.extra_data is None,
{
    let pattern = h1_pattern(student_id);
    let matched = regex_is_match(pattern.as_str(), html_content);
    if matched {
        ChecklistResult { checklist: Checklist::approve(), extra_data: None }
    } else {
        ChecklistResult {
            checklist: Checklist::reject(
                String::from_str("HTML tidak menampilkan H1 element dengan ID Anda"),
            ),
            extra_data: None,
        }
    }
}

/// The full checklist set graded from the given observations: the two
/// file checks always run; the port check runs exactly when the
/// manifest file was located; the HTML-root check runs only when the
/// probe reached a listener — no listener, no fetch — with the marker
/// check further gated on the HTML-root check; the comment check runs
/// exactly when the entry script was located; the keys of the passed
/// items are recorded last.
pub open spec fn spec_grade(
    pkg: Option<Seq<char>>,
    main_js: Option<Seq<char>>,
    content: Option<Seq<char>>,
    dynamic: Option<DynamicView>,
    student_id: int,
) -> ChecklistsView {
    let with_static = ChecklistsView {
        package_json_exists: spec_package_json_check(pkg),
        main_js_exists: spec_main_js_check(main_js),
        ..spec_initial_checklists()
    };
    let with_dynamic = match dynamic {
        Option::Some(d) => match d {
            DynamicView::Unreachable => ChecklistsView {
                serve_in_port_5000: spec_server_check(false),
                ..with_static
            },
            DynamicView::Reachable { fetch } => {
                let with_server = ChecklistsView {
                    serve_in_port_5000: spec_server_check(true),
                    root_showing_html: spec_html_check(fetch),
                    ..with_static
                };
                if spec_html_check(fetch).status {
                    ChecklistsView {
                        html_contain_h1_element_with_student_id: spec_h1_check(
                            spec_fetch_body(fetch),
                            student_id,
                        ),
                        ..with_server
                    }
                } else {
                    with_server
                }
            },
        },
        Option::None => with_static,
    };
    let with_comment = match content {
        Option::Some(c) => ChecklistsView {
            main_js_have_student_id_comment: spec_comment_check(c, student_id),
            ..with_dynamic
        },
        Option::None => with_dynamic,
    };
    ChecklistsView { completed_checklists_key: spec_completed_keys(with_comment), ..with_comment }
}

/// Grades a submission from the observations the surrounding tooling
/// gathered: the located manifest and entry-script paths, the entry
/// script's text when it was located, and the dynamic-branch
/// observation when the manifest was located (the caller must have
/// torn the server down before handing it in).
pub fn grade_submission(
    package_json_path: Option<String>,
    main_js_path: Option<String>,
    main_js_content: Option<String>,
    dynamic: Option<DynamicObservation>,
    student_id: u32,
) -> (r: Checklists)
    requires
        main_js_content is Some <==> main_js_path is Some,
        dynamic is Some <==> package_json_path is Some,
    ensures
        r@ == spec_grade(
            opt_str_view(package_json_path),
            opt_str_view(main_js_path),
            opt_str_view(main_js_content),
            opt_dynamic_view(dynamic),
            student_id as int,
        ),
{
    let mut checklists = Checklists::initialize();

    let package_json_result = get_package_json(package_json_path);
    checklists.package_json_exists = package_json_result.checklist;

    let main_js_result = get_main_js(main_js_path);
    checklists.main_js_exists = main_js_result.checklist;

    if let Option::Some(observation) = dynamic {
        match observation {
            DynamicObservation::Unreachable => {
                let server_result = is_server_up(false);
                checklists.serve_in_port_5000 = server_result.checklist;
            },
            DynamicObservation::Reachable { fetch } => {
                let server_result = is_server_up(true);
                checklists.serve_in_port_5000 = server_result.checklist;

                let html_result = get_html_content(fetch);
                let ChecklistResult { checklist: html_checklist, extra_data: html_body } =
                    html_result;
                checklists.root_showing_html = html_checklist;

                if let Option::Some(body) = html_body {
                    let h1_result = check_h1_element_with_student_id(body.as_str(), student_id);
                    checklists.html_contain_h1_element_with_student_id = h1_result.checklist;
                }
            },
        }
    }

    if let Option::Some(content) = main_js_content {
        let comment_result = is_main_js_have_student_id_comment(content.as_str(), student_id);
        checklists.main_js_have_student_id_comment = comment_result.checklist;
    }

    let completed = checklists.get_completed_checklist_keys();
    checklists.completed_checklists_key = completed;

    checklists
}

/// A submission missing the manifest file leaves exactly the three
/// dynamic checks — the port check, the HTML-root check and the
/// identity-marker check — holding their prerequisite reasons, while
/// the entry-script checks are evaluated on their own, untouched by
/// the manifest's absence.
pub proof fn lemma_missing_manifest_blocks_dynamic(
    main_js: Option<Seq<char>>,
    content: Option<Seq<char>>,
    student_id: int,
)
    ensures
        ({
            let v = spec_grade(Option::None, main_js, content, Option::None, student_id);
            &&& v.package_json_exists == spec_rejected(msg_package_json_not_found())
            &&& v.serve_in_port_5000 == spec_rejected(msg_blocked_serve_in_port())
            &&& v.root_showing_html == spec_rejected(msg_blocked_root_showing_html())
            &&& v.html_contain_h1_element_with_student_id == spec_rejected(
                msg_blocked_h1_element(),
            )
            &&& v.main_js_exists == spec_main_js_check(main_js)
            &&& v.main_js_have_student_id_comment == (match content {
                Option::Some(c) => spec_comment_check(c, student_id),
                Option::None => spec_rejected(msg_blocked_main_js_comment()),
            })
        }),
{
}

/// When the port probe reached no listener, the dependent checks stay
/// unevaluated: the HTML-root check and the identity-marker check
/// keep their prerequisite reasons, and the verdict is false whatever
/// the static checks found — the port check's key is never recorded,
/// so fewer than all six keys are.
pub proof fn lemma_probe_timeout_blocks_dependents(
    pkg: Seq<char>,
    main_js: Option<Seq<char>>,
    content: Option<Seq<char>>,
    student_id: int,
)
    ensures
        ({
            let v = spec_grade(
                Option::Some(pkg),
                main_js,
                content,
                Option::Some(DynamicView::Unreachable),
                student_id,
            );
            &&& v.serve_in_port_5000 == spec_rejected(msg_server_down())
            &&& v.root_showing_html == spec_rejected(msg_blocked_root_showing_html())
            &&& v.html_contain_h1_element_with_student_id == spec_rejected(
                msg_blocked_h1_element(),
            )
            &&& v.completed_checklists_key.len() < CHECKLIST_KEYS_COUNT as int
        }),
{
}

/// End to end: a submission whose manifest and entry script were
/// located, whose entry script carries the identity comment, whose
/// server answered the probe, and whose root response is HTML
/// containing the marker element passes every rubric item; all six
/// keys are recorded in rubric order and no rejection message is
/// left.
pub proof fn lemma_end_to_end_pass(
    pkg: Seq<char>,
    main_js: Seq<char>,
    content: Seq<char>,
    content_type: Seq<char>,
    body: Seq<char>,
    student_id: int,
)
    requires
        spec_comment_check(content, student_id).status,
        spec_contains(content_type, "html"@),
        spec_contains(body, spec_h1_pattern(student_id)),
    ensures
        ({
            let d = DynamicView::Reachable {
                fetch: FetchView::Success { content_type: Option::Some(content_type), body },
            };
            let v = spec_grade(
                Option::Some(pkg),
                Option::Some(main_js),
                Option::Some(content),
                Option::Some(d),
                student_id,
            );
            &&& v.package_json_exists.status
            &&& v.main_js_exists.status
            &&& v.main_js_have_student_id_comment.status
            &&& v.root_showing_html.status
            &&& v.serve_in_port_5000.status
            &&& v.html_contain_h1_element_with_student_id.status
            &&& v.completed_checklists_key == seq![
                key_package_json_exists(),
                key_main_js_exists(),
                key_main_js_have_student_id_comment(),
                key_root_showing_html(),
                key_serve_in_port_5000(),
                key_html_contain_h1_element_with_student_id(),
            ]
            &&& v.completed_checklists_key.len() == CHECKLIST_KEYS_COUNT as int
            &&& spec_rejected_messages(v) == Seq::<Seq<char>>::empty()
        }),
{
    let d = DynamicView::Reachable {
        fetch: FetchView::Success { content_type: Option::Some(content_type), body },
    };
    let v = spec_grade(
        Option::Some(pkg),
        Option::Some(main_js),
        Option::Some(content),
        Option::Some(d),
        student_id,
    );
    assert(v.completed_checklists_key =~= seq![
        key_package_json_exists(),
        key_main_js_exists(),
        key_main_js_have_student_id_comment(),
        key_root_showing_html(),
        key_serve_in_port_5000(),
        key_html_contain_h1_element_with_student_id(),
    ]);
    assert(spec_rejected_messages(v) =~= Seq::<Seq<char>>::empty());
}

} // verus!
