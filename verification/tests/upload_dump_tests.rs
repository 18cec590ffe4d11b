use jb_api::dump::{
    dump_done, dump_failure, dump_file_name, dump_path, dump_recipients, dump_role_names, missing_claims, DumpStep,
    Recipient,
};
use jb_api::reply::Status;
use jb_api::uploads::{stored_mime, upload_check, upload_destination, upload_dir, upload_failure};

fn tops(v: &[Option<&str>]) -> Vec<Option<String>> {
    v.iter().map(|o| o.map(|s| s.to_string())).collect()
}

#[test]
fn uploads_of_images_for_known_entities_pass() {
    assert!(upload_check(&"brands".to_string(), &tops(&[Some("image"), Some("image")])).is_none());
    assert!(upload_check(&"users".to_string(), &tops(&[Some("image")])).is_none());
}

#[test]
fn upload_refusals() {
    let n = upload_check(&"cars".to_string(), &tops(&[Some("image")])).unwrap();
    assert_eq!(n.status, Status::BadRequest);
    assert_eq!(n.message, "'cars' is not a valid entity");
    assert_eq!(upload_check(&"products".to_string(), &tops(&[])).unwrap().message, "No file provided");
    assert_eq!(upload_check(&"products".to_string(), &tops(&[Some("image"), Some("text")])).unwrap().message,
        "Only images are acceptable");
    assert_eq!(upload_check(&"products".to_string(), &tops(&[None])).unwrap().message, "Only images are acceptable");
}

#[test]
fn upload_paths_and_mime() {
    let dir = upload_dir("brands");
    assert_eq!(dir, "./uploads/brands");
    assert_eq!(upload_destination(&dir, "logo.png"), "./uploads/brands/logo.png");
    assert_eq!(stored_mime(None), "application/octet-stream");
    assert_eq!(stored_mime(Some("image/png".to_string())), "image/png");
    let n = upload_failure();
    assert_eq!(n.label, "Error");
    assert_eq!(n.message, "Failed to save image to database");
}

#[test]
fn dump_goes_to_users_with_email() {
    let users = vec![
        Recipient { username: "m".to_string(), email: Some("m@x".to_string()) },
        Recipient { username: "d".to_string(), email: None },
        Recipient { username: "p".to_string(), email: Some("p@x".to_string()) },
    ];
    let r = dump_recipients(&users);
    assert_eq!(r, vec![("m@x".to_string(), "m".to_string()), ("p@x".to_string(), "p".to_string())]);
    assert_eq!(dump_role_names(), vec!["Master".to_string(), "DPO".to_string()]);
}

#[test]
fn dump_names_and_answers() {
    let f = dump_file_name("20240102_030405");
    assert_eq!(f, "db_dump_20240102_030405.sql");
    assert_eq!(dump_path(&f), "exports/dumps/db_dump_20240102_030405.sql");
    assert_eq!(missing_claims().status, Status::Unauthorized);
    assert_eq!(missing_claims().message, "Missing token claims");
    assert_eq!(dump_failure(DumpStep::DumpFailed).message, "pg_dump failed");
    assert_eq!(dump_failure(DumpStep::Recipients).message, "Could not find authorized users");
    assert_eq!(dump_done().message, "Database dump created!");
}

#[test]
fn only_master_and_dpo_may_dump() {
    assert!(jb_api::dump::dump_allowed(&Some("Master".to_string())));
    assert!(jb_api::dump::dump_allowed(&Some("DPO".to_string())));
    assert!(!jb_api::dump::dump_allowed(&Some("User".to_string())));
    assert!(!jb_api::dump::dump_allowed(&Some("master".to_string())));
    assert!(!jb_api::dump::dump_allowed(&None));
}
