use aureli::entities::{AutoReviewConfig, Checklist, Checklists};
use aureli::reporter::{generate_report, generate_review_message, is_submission_approved};

fn sample_config() -> AutoReviewConfig {
    AutoReviewConfig {
        id: 901,
        submitter_id: 12345,
        submitter_name: String::from("Budi"),
        rating: 4,
        course_id: 77,
    }
}

fn all_passed_checklists() -> Checklists {
    let mut c = Checklists::initialize();
    c.package_json_exists = Checklist::approve();
    c.main_js_exists = Checklist::approve();
    c.main_js_have_student_id_comment = Checklist::approve();
    c.root_showing_html = Checklist::approve();
    c.serve_in_port_5000 = Checklist::approve();
    c.html_contain_h1_element_with_student_id = Checklist::approve();
    let keys = c.get_completed_checklist_keys();
    c.completed_checklists_key = keys;
    c
}

#[test]
fn six_recorded_keys_mean_approved() {
    let c = all_passed_checklists();
    assert!(is_submission_approved(&c));
}

#[test]
fn fewer_recorded_keys_mean_not_approved() {
    let mut c = all_passed_checklists();
    c.completed_checklists_key.pop();
    assert!(!is_submission_approved(&c));
}

#[test]
fn approved_message_greets_by_name() {
    let m = generate_review_message(true, String::from("Budi"), &[]);
    assert_eq!(
        m,
        "Selamat <b>Budi</b>! Kamu telah memenuhi semua kriteria dan lulus dari submission ini"
    );
}

#[test]
fn rejected_message_lists_unmet_criteria() {
    let rejected = vec![
        String::from("<li>satu</li>"),
        String::from("<li>dua</li>"),
    ];
    let m = generate_review_message(false, String::from("Budi"), &rejected);
    assert_eq!(
        m,
        "Mohon maaf <b>Budi</b>! Kamu belum memenuhi semua kriteria dan tidak lulus dari submission ini. Berikut adalah kriteria yang belum terpenuhi: \n <ul><li>satu</li>\n<li>dua</li></ul> Silakan diperbaiki, ya. Semangat!"
    );
}

#[test]
fn passing_report_rates_five() {
    let r = generate_report(all_passed_checklists(), sample_config());
    assert_eq!(r.submission_id, 901);
    assert_eq!(r.rating, 5);
    assert!(r.is_passed);
    assert_eq!(r.checklist_keys.len(), 6);
    assert_eq!(
        r.message,
        "Selamat <b>Budi</b>! Kamu telah memenuhi semua kriteria dan lulus dari submission ini"
    );
}

#[test]
fn failing_report_rates_zero() {
    let mut c = all_passed_checklists();
    c.serve_in_port_5000 =
        Checklist::reject(String::from("Server tidak dapat dijalankan pada port 5000"));
    let keys = c.get_completed_checklist_keys();
    c.completed_checklists_key = keys;
    let r = generate_report(c, sample_config());
    assert_eq!(r.rating, 0);
    assert!(!r.is_passed);
    assert_eq!(r.checklist_keys.len(), 5);
    assert_eq!(
        r.message,
        "Mohon maaf <b>Budi</b>! Kamu belum memenuhi semua kriteria dan tidak lulus dari submission ini. Berikut adalah kriteria yang belum terpenuhi: \n <ul><li>Server tidak dapat dijalankan pada port 5000</li></ul> Silakan diperbaiki, ya. Semangat!"
    );
}
