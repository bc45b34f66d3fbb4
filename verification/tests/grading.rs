use aureli::entities::{Checklist, Checklists};
use aureli::grader::{
    check_h1_element_with_student_id, comment_check_result, get_html_content, get_main_js,
    get_package_json, grade_submission, is_main_js_have_student_id_comment, is_server_up,
    DynamicObservation, FetchOutcome,
};
use aureli::reporter::is_submission_approved;

#[test]
fn package_json_found_passes() {
    let r = get_package_json(Some(String::from("/submission/package.json")));
    assert!(r.checklist.status);
    assert_eq!(r.checklist.message, "");
    assert_eq!(r.extra_data.as_deref(), Some("/submission/package.json"));
}

#[test]
fn package_json_missing_fails() {
    let r = get_package_json(None);
    assert!(!r.checklist.status);
    assert_eq!(
        r.checklist.message,
        "Kami tidak bisa menemukan file package.json pada submission yang kamu kirimkan"
    );
    assert!(r.extra_data.is_none());
}

#[test]
fn main_js_found_passes() {
    let r = get_main_js(Some(String::from("/submission/src/main.js")));
    assert!(r.checklist.status);
    assert_eq!(r.extra_data.as_deref(), Some("/submission/src/main.js"));
}

#[test]
fn main_js_missing_fails() {
    let r = get_main_js(None);
    assert!(!r.checklist.status);
    assert_eq!(
        r.checklist.message,
        "Kami tidak bisa menemukan file main.js pada submission yang kamu kirimkan"
    );
}

#[test]
fn line_comment_with_id_passes() {
    let content = "const http = require('http');\n// id 12345\nconsole.log('hi');\n";
    let r = is_main_js_have_student_id_comment(content, 12345);
    assert!(r.checklist.status);
    assert_eq!(r.checklist.message, "");
}

#[test]
fn line_comment_with_other_id_fails() {
    let content = "const http = require('http');\n// id 12345\nconsole.log('hi');\n";
    let r = is_main_js_have_student_id_comment(content, 67890);
    assert!(!r.checklist.status);
    assert_eq!(
        r.checklist.message,
        "File main.js tidak mengandung komentar yang mengandung ID Anda"
    );
}

#[test]
fn block_comment_with_id_passes() {
    let content = "/* milik 12345 */\nconsole.log('hi');\n";
    let r = is_main_js_have_student_id_comment(content, 12345);
    assert!(r.checklist.status);
}

#[test]
fn multiline_block_comment_with_id_passes() {
    let content = "/*\n id 12345\n*/\nconsole.log('hi');\n";
    let r = is_main_js_have_student_id_comment(content, 12345);
    assert!(r.checklist.status);
}

#[test]
fn id_after_closed_block_comment_fails() {
    let content = "/* milik */ 12345\n";
    let r = is_main_js_have_student_id_comment(content, 12345);
    assert!(!r.checklist.status);
}

#[test]
fn id_on_next_line_after_line_comment_fails() {
    let content = "// milik\n12345\n";
    let r = is_main_js_have_student_id_comment(content, 12345);
    assert!(!r.checklist.status);
}

#[test]
fn id_without_comment_fails() {
    let content = "const id = 12345;\n";
    let r = is_main_js_have_student_id_comment(content, 12345);
    assert!(!r.checklist.status);
}

#[test]
fn comment_check_result_maps_match() {
    let ok = comment_check_result(true);
    assert!(ok.status);
    assert_eq!(ok.message, "");
    let bad = comment_check_result(false);
    assert!(!bad.status);
    assert_eq!(
        bad.message,
        "File main.js tidak mengandung komentar yang mengandung ID Anda"
    );
}

#[test]
fn server_reachable_passes() {
    let r = is_server_up(true);
    assert!(r.checklist.status);
    assert_eq!(r.extra_data, Some(true));
}

#[test]
fn server_unreachable_fails() {
    let r = is_server_up(false);
    assert!(!r.checklist.status);
    assert_eq!(r.checklist.message, "Server tidak dapat dijalankan pada port 5000");
    assert!(r.extra_data.is_none());
}

#[test]
fn fetch_failure_folds_error_into_message() {
    let r = get_html_content(FetchOutcome::Failure {
        error: String::from("connection refused"),
    });
    assert!(!r.checklist.status);
    assert_eq!(
        r.checklist.message,
        "Gagal mendapatkan HTML dengan error: connection refused"
    );
    assert!(r.extra_data.is_none());
}

#[test]
fn fetch_without_content_type_fails() {
    let r = get_html_content(FetchOutcome::Success {
        content_type: None,
        body: String::from("<h1>12345</h1>"),
    });
    assert!(!r.checklist.status);
    assert_eq!(
        r.checklist.message,
        "Content root tidak menampilkan HTML, melainkan tanpa Content-Type"
    );
}

#[test]
fn fetch_non_html_quotes_content_type() {
    let r = get_html_content(FetchOutcome::Success {
        content_type: Some(String::from("application/json")),
        body: String::from("{}"),
    });
    assert!(!r.checklist.status);
    assert_eq!(
        r.checklist.message,
        "Content root tidak menampilkan HTML, melainkan application/json"
    );
    assert!(r.extra_data.is_none());
}

#[test]
fn fetch_html_passes_and_captures_body() {
    let r = get_html_content(FetchOutcome::Success {
        content_type: Some(String::from("text/html; charset=utf-8")),
        body: String::from("<html><h1>12345</h1></html>"),
    });
    assert!(r.checklist.status);
    assert_eq!(r.checklist.message, "");
    assert_eq!(r.extra_data.as_deref(), Some("<html><h1>12345</h1></html>"));
}

#[test]
fn h1_marker_exact_match_passes() {
    let r = check_h1_element_with_student_id("<html><h1>12345</h1></html>", 12345);
    assert!(r.checklist.status);
}

#[test]
fn h1_marker_with_whitespace_fails() {
    let r = check_h1_element_with_student_id("<h1> 12345 </h1>", 12345);
    assert!(!r.checklist.status);
    assert_eq!(r.checklist.message, "HTML tidak menampilkan H1 element dengan ID Anda");
}

#[test]
fn h1_marker_wrong_id_fails() {
    let r = check_h1_element_with_student_id("<html><h1>12345</h1></html>", 54321);
    assert!(!r.checklist.status);
}

#[test]
fn initialize_holds_every_rubric_item() {
    let c = Checklists::initialize();
    assert!(!c.package_json_exists.status);
    assert_eq!(c.package_json_exists.message, "");
    assert!(!c.main_js_exists.status);
    assert_eq!(c.main_js_exists.message, "");
    assert_eq!(
        c.main_js_have_student_id_comment.message,
        "Kriteria 'Komentar ID Anda pada main.js' tidak bisa diperiksa karena file main.js tidak ditemukan."
    );
    assert_eq!(
        c.root_showing_html.message,
        "Kriteria 'Root menampilkan HTML' tidak bisa diperiksa karena package.json tidak bisa jalankan."
    );
    assert_eq!(
        c.serve_in_port_5000.message,
        "Kriteria 'Aplikasi Berjalan di port 5000' tidak bisa diperiksa karena package.json tidak bisa jalankan."
    );
    assert_eq!(
        c.html_contain_h1_element_with_student_id.message,
        "Kriteria 'Menampilkan ID pada element H1' tidak bisa diperiksa karena project tiak bisa dijalankan."
    );
    assert!(c.completed_checklists_key.is_empty());
}

#[test]
fn completed_keys_follow_rubric_order() {
    let mut c = Checklists::initialize();
    c.package_json_exists = Checklist::approve();
    c.serve_in_port_5000 = Checklist::approve();
    let keys = c.get_completed_checklist_keys();
    assert_eq!(keys, vec!["PACKAGE_JSON_EXISTS", "SERVE_IN_PORT_5000"]);
}

#[test]
fn rejected_messages_are_list_items() {
    let mut c = Checklists::initialize();
    c.package_json_exists = Checklist::approve();
    c.main_js_exists = Checklist::approve();
    c.main_js_have_student_id_comment = Checklist::approve();
    c.root_showing_html = Checklist::approve();
    c.html_contain_h1_element_with_student_id = Checklist::approve();
    c.serve_in_port_5000 = Checklist::reject(String::from("Server tidak dapat dijalankan pada port 5000"));
    let msgs = c.get_rejected_checklist_messages();
    assert_eq!(msgs, vec!["<li>Server tidak dapat dijalankan pada port 5000</li>"]);
}

#[test]
fn missing_manifest_blocks_exactly_the_dynamic_checks() {
    let r = grade_submission(
        None,
        Some(String::from("/submission/main.js")),
        Some(String::from("// id 12345\n")),
        None,
        12345,
    );
    assert!(!r.package_json_exists.status);
    assert_eq!(
        r.package_json_exists.message,
        "Kami tidak bisa menemukan file package.json pada submission yang kamu kirimkan"
    );
    // The dynamic checks keep their prerequisite reasons.
    assert!(!r.serve_in_port_5000.status);
    assert_eq!(
        r.serve_in_port_5000.message,
        "Kriteria 'Aplikasi Berjalan di port 5000' tidak bisa diperiksa karena package.json tidak bisa jalankan."
    );
    assert!(!r.root_showing_html.status);
    assert_eq!(
        r.root_showing_html.message,
        "Kriteria 'Root menampilkan HTML' tidak bisa diperiksa karena package.json tidak bisa jalankan."
    );
    assert!(!r.html_contain_h1_element_with_student_id.status);
    assert_eq!(
        r.html_contain_h1_element_with_student_id.message,
        "Kriteria 'Menampilkan ID pada element H1' tidak bisa diperiksa karena project tiak bisa dijalankan."
    );
    // The entry-script checks were evaluated on their own.
    assert!(r.main_js_exists.status);
    assert!(r.main_js_have_student_id_comment.status);
    assert_eq!(
        r.completed_checklists_key,
        vec!["MAIN_JS_EXISTS", "MAIN_JS_HAVE_STUDENT_ID_COMMENT"]
    );
    assert!(!is_submission_approved(&r));
}

#[test]
fn probe_timeout_keeps_root_and_marker_blocked_and_verdict_false() {
    let r = grade_submission(
        Some(String::from("/submission/package.json")),
        Some(String::from("/submission/main.js")),
        Some(String::from("// id 12345\n")),
        Some(DynamicObservation::Unreachable),
        12345,
    );
    assert!(!r.serve_in_port_5000.status);
    assert_eq!(
        r.serve_in_port_5000.message,
        "Server tidak dapat dijalankan pada port 5000"
    );
    // The dependent checks were never evaluated: both keep their
    // prerequisite reasons.
    assert!(!r.root_showing_html.status);
    assert_eq!(
        r.root_showing_html.message,
        "Kriteria 'Root menampilkan HTML' tidak bisa diperiksa karena package.json tidak bisa jalankan."
    );
    assert!(!r.html_contain_h1_element_with_student_id.status);
    assert_eq!(
        r.html_contain_h1_element_with_student_id.message,
        "Kriteria 'Menampilkan ID pada element H1' tidak bisa diperiksa karena project tiak bisa dijalankan."
    );
    assert!(!is_submission_approved(&r));
}

#[test]
fn reachable_but_failed_fetch_folds_error_into_root_check() {
    let r = grade_submission(
        Some(String::from("/submission/package.json")),
        Some(String::from("/submission/main.js")),
        Some(String::from("// id 12345\n")),
        Some(DynamicObservation::Reachable {
            fetch: FetchOutcome::Failure {
                error: String::from("error sending request"),
            },
        }),
        12345,
    );
    assert!(r.serve_in_port_5000.status);
    assert!(!r.root_showing_html.status);
    assert_eq!(
        r.root_showing_html.message,
        "Gagal mendapatkan HTML dengan error: error sending request"
    );
    assert!(!r.html_contain_h1_element_with_student_id.status);
    assert!(!is_submission_approved(&r));
}

#[test]
fn full_pass_records_all_six_keys() {
    let r = grade_submission(
        Some(String::from("/submission/package.json")),
        Some(String::from("/submission/main.js")),
        Some(String::from("// id 12345\nrequire('http');\n")),
        Some(DynamicObservation::Reachable {
            fetch: FetchOutcome::Success {
                content_type: Some(String::from("text/html")),
                body: String::from("<html><h1>12345</h1></html>"),
            },
        }),
        12345,
    );
    assert!(r.package_json_exists.status);
    assert!(r.main_js_exists.status);
    assert!(r.main_js_have_student_id_comment.status);
    assert!(r.root_showing_html.status);
    assert!(r.serve_in_port_5000.status);
    assert!(r.html_contain_h1_element_with_student_id.status);
    assert_eq!(
        r.completed_checklists_key,
        vec![
            "PACKAGE_JSON_EXISTS",
            "MAIN_JS_EXISTS",
            "MAIN_JS_HAVE_STUDENT_ID_COMMENT",
            "ROOT_SHOWING_HTML",
            "SERVE_IN_PORT_5000",
            "HTML_CONTAIN_H_1_ELEMENT_WITH_STUDENT_ID",
        ]
    );
    assert!(is_submission_approved(&r));
    assert!(r.get_rejected_checklist_messages().is_empty());
}

#[test]
fn wrong_marker_fails_only_the_marker_check() {
    let r = grade_submission(
        Some(String::from("/submission/package.json")),
        Some(String::from("/submission/main.js")),
        Some(String::from("// id 12345\n")),
        Some(DynamicObservation::Reachable {
            fetch: FetchOutcome::Success {
                content_type: Some(String::from("text/html")),
                body: String::from("<html><h1>99999</h1></html>"),
            },
        }),
        12345,
    );
    assert!(r.root_showing_html.status);
    assert!(!r.html_contain_h1_element_with_student_id.status);
    assert_eq!(
        r.html_contain_h1_element_with_student_id.message,
        "HTML tidak menampilkan H1 element dengan ID Anda"
    );
    assert!(!is_submission_approved(&r));
}
