use std::collections::HashMap;
use upload_shell::{finish_upload, greet, plan_upload, success_message, upload_path, UploadError};

fn apply(files: &mut HashMap<String, Vec<u8>>, name: &str, data: &str) -> Result<String, String> {
    match plan_upload(name, data) {
        Ok(plan) => {
            files.insert(plan.path.clone(), plan.contents.clone());
            finish_upload(&plan, Ok(())).map_err(|e| e.message())
        }
        Err(e) => Err(e.message()),
    }
}

#[test]
fn greet_formats_exact_text() {
    assert_eq!(greet("Bob"), "Hello, Bob! You've been greeted from Rust!");
}

#[test]
fn greet_holds_name_and_suffix() {
    for name in ["", "Ada", "  spaced  ", "名前", "a!b"] {
        let g = greet(name);
        assert!(g.contains(name));
        assert!(g.ends_with("You've been greeted from Rust!"));
    }
}

#[test]
fn greet_empty_name() {
    assert_eq!(greet(""), "Hello, ! You've been greeted from Rust!");
}

#[test]
fn upload_hello_example() {
    let plan = plan_upload("test.txt", "aGVsbG8=").unwrap();
    assert_eq!(plan.path, "uploaded_test.txt");
    assert_eq!(plan.contents, b"hello".to_vec());
    let done = finish_upload(&plan, Ok(())).unwrap();
    assert!(done.contains("uploaded_test.txt"));
    assert_eq!(done, "\u{2705} File uploaded successfully: uploaded_test.txt");
}

#[test]
fn upload_invalid_example() {
    let err = plan_upload("x", "not-valid-base64!").unwrap_err();
    assert!(matches!(err, UploadError::Decode(_)));
    let message = err.message();
    assert!(message.contains("Decode error"));
    assert!(message.starts_with("Decode error: "));
    let mut files = HashMap::new();
    assert!(apply(&mut files, "x", "not-valid-base64!").is_err());
    assert!(!files.contains_key("uploaded_x"));
}

#[test]
fn upload_round_trips_binary_bytes() {
    let plan = plan_upload("data.bin", "AAEC/w==").unwrap();
    assert_eq!(plan.contents, vec![0u8, 1, 2, 255]);
    assert_eq!(plan.path, "uploaded_data.bin");
}

#[test]
fn upload_empty_payload_gives_empty_file() {
    let plan = plan_upload("empty", "").unwrap();
    assert!(plan.contents.is_empty());
    assert_eq!(plan.path, "uploaded_empty");
}

#[test]
fn upload_requires_canonical_padding() {
    assert!(matches!(plan_upload("p", "aGVsbG8"), Err(UploadError::Decode(_))));
}

#[test]
fn upload_twice_is_idempotent() {
    let mut files = HashMap::new();
    let first = apply(&mut files, "test.txt", "aGVsbG8=").unwrap();
    let after_first = files.clone();
    let second = apply(&mut files, "test.txt", "aGVsbG8=").unwrap();
    assert_eq!(first, second);
    assert_eq!(files, after_first);
    assert_eq!(files.len(), 1);
    assert_eq!(files["uploaded_test.txt"], b"hello".to_vec());
}

#[test]
fn upload_overwrites_previous_contents() {
    let mut files = HashMap::new();
    apply(&mut files, "f", "aGVsbG8=").unwrap();
    apply(&mut files, "f", "AAEC/w==").unwrap();
    assert_eq!(files["uploaded_f"], vec![0u8, 1, 2, 255]);
}

#[test]
fn write_failure_is_reported() {
    let plan = plan_upload("w", "aGVsbG8=").unwrap();
    let err = finish_upload(&plan, Err("disk full".to_string())).unwrap_err();
    assert_eq!(err, UploadError::Write("disk full".to_string()));
    assert_eq!(err.message(), "Write error: disk full");
}

#[test]
fn upload_path_uses_name_as_given() {
    assert_eq!(upload_path("a/b.txt"), "uploaded_a/b.txt");
    assert_eq!(upload_path(""), "uploaded_");
}

#[test]
fn success_message_names_path() {
    assert_eq!(success_message("p"), "\u{2705} File uploaded successfully: p");
}
