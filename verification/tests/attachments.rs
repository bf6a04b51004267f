use consult_portal::accounts::{AccountRecord, AccountsTable};
use consult_portal::attachments::{
    attachment_download_access, attachment_listing_access, attachments_response,
    consultation_dir, consultation_file_path, upload_destination, AttachmentAccess,
};
use consult_portal::text::{chars_of, contains_double_dot};

fn admin_table() -> AccountsTable {
    AccountsTable::from_rows(vec![
        AccountRecord {
            username: "salma".to_string(),
            password: "x".to_string(),
            token: "boss".to_string(),
            role: "Admin".to_string(),
            creation_date: "d".to_string(),
        },
        AccountRecord {
            username: "omar".to_string(),
            password: "x".to_string(),
            token: "member".to_string(),
            role: "Guest".to_string(),
            creation_date: "d".to_string(),
        },
    ])
}

fn repeat(c: char, n: usize) -> String {
    std::iter::repeat(c).take(n).collect()
}

#[test]
fn double_dots_are_found_anywhere() {
    assert!(contains_double_dot(".."));
    assert!(contains_double_dot("a/../b"));
    assert!(contains_double_dot("end.."));
    assert!(!contains_double_dot("a.b.c"));
    assert!(!contains_double_dot("."));
    assert!(!contains_double_dot(""));
    assert_eq!(chars_of("سلام"), vec!['س', 'ل', 'ا', 'م']);
}

#[test]
fn attachment_paths() {
    assert_eq!(consultation_dir("abc"), "consultations_files/abc");
    assert_eq!(consultation_file_path("abc", "x.pdf"), "consultations_files/abc/x.pdf");
}

#[test]
fn upload_destination_refuses_unsafe_names() {
    assert_eq!(upload_destination("abc", "x.pdf"), Some("consultations_files/abc/x.pdf".to_string()));
    assert_eq!(upload_destination("..", "x.pdf"), None);
    assert_eq!(upload_destination("abc", "../x"), None);
    assert_eq!(upload_destination(&repeat('u', 257), "x"), None);
    assert_eq!(upload_destination("abc", &repeat('f', 257)), None);
    assert!(upload_destination(&repeat('u', 256), &repeat('f', 256)).is_some());
}

#[test]
fn listing_needs_an_administrator_and_a_safe_name() {
    let table = admin_table();
    assert!(matches!(attachment_listing_access(&table, "member", "abc"), AttachmentAccess::Unauthorized));
    assert!(matches!(attachment_listing_access(&table, "nobody", ".."), AttachmentAccess::Unauthorized));
    assert!(matches!(attachment_listing_access(&table, "boss", "a..b"), AttachmentAccess::BadRequest));
    match attachment_listing_access(&table, "boss", "abc") {
        AttachmentAccess::Granted(dir) => assert_eq!(dir, "consultations_files/abc"),
        _ => panic!("expected access"),
    }
}

#[test]
fn download_needs_an_administrator_and_safe_names() {
    let table = admin_table();
    assert!(matches!(attachment_download_access(&table, "member", "abc", "f"), AttachmentAccess::Unauthorized));
    assert!(matches!(attachment_download_access(&table, "boss", "abc", "../f"), AttachmentAccess::BadRequest));
    assert!(matches!(attachment_download_access(&table, "boss", "..", "f"), AttachmentAccess::BadRequest));
    match attachment_download_access(&table, "boss", "abc", "f.png") {
        AttachmentAccess::Granted(path) => assert_eq!(path, "consultations_files/abc/f.png"),
        _ => panic!("expected access"),
    }
}

#[test]
fn listing_answer_is_empty_without_files() {
    assert_eq!(attachments_response(Vec::new()).attachments, None);
    let names = vec!["a.pdf".to_string(), "b.png".to_string()];
    assert_eq!(attachments_response(names.clone()).attachments, Some(names));
}
