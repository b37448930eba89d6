use yuralock_app::process::{completion_progress, operation_for, plan_process, Operation, STARTING_PROGRESS};
use yuralock_app::request::{
    is_blank_str, is_white_space_char, normalize_encrypt_part, validate_request,
    DEFAULT_ENCRYPT_PART,
};

#[test]
fn normalize_uses_default_when_absent() {
    assert_eq!(normalize_encrypt_part(None), 50);
    assert_eq!(DEFAULT_ENCRYPT_PART, 50);
}

#[test]
fn normalize_keeps_ratio_up_to_hundred() {
    assert_eq!(normalize_encrypt_part(Some(0)), 0);
    assert_eq!(normalize_encrypt_part(Some(37)), 37);
    assert_eq!(normalize_encrypt_part(Some(100)), 100);
}

#[test]
fn normalize_caps_ratio_at_hundred() {
    assert_eq!(normalize_encrypt_part(Some(101)), 100);
    assert_eq!(normalize_encrypt_part(Some(u64::MAX)), 100);
}

#[test]
fn normalize_is_idempotent() {
    for p in [None, Some(0), Some(42), Some(100), Some(250), Some(u64::MAX)] {
        let once = normalize_encrypt_part(p);
        assert_eq!(normalize_encrypt_part(Some(once)), once);
        assert!(once <= 100);
    }
}

#[test]
fn white_space_agrees_with_std() {
    for u in 0u32..=0x10FFFF {
        if let Some(c) = char::from_u32(u) {
            assert_eq!(is_white_space_char(c), c.is_whitespace(), "{:x}", u);
        }
    }
}

#[test]
fn blank_agrees_with_trim() {
    let samples = ["", " ", "\t\n\r", "\u{3000}\u{a0}", " a ", "a", "\u{200b}", "路径", " \u{2028} x"];
    for s in samples {
        assert_eq!(is_blank_str(s), s.trim().is_empty(), "{:?}", s);
    }
}

#[test]
fn validate_rejects_missing_file() {
    assert_eq!(validate_request("", "key"), Err("请选择文件".to_string()));
    assert_eq!(validate_request("  \t", "key"), Err("请选择文件".to_string()));
}

#[test]
fn validate_reports_file_before_key() {
    assert_eq!(validate_request(" ", ""), Err("请选择文件".to_string()));
}

#[test]
fn validate_rejects_missing_key() {
    assert_eq!(validate_request("/tmp/a.txt", ""), Err("请输入密钥".to_string()));
}

#[test]
fn validate_accepts_file_and_key() {
    assert_eq!(validate_request("/tmp/a.txt", "secret"), Ok(()));
    assert_eq!(validate_request(" a ", " "), Ok(()));
}

#[test]
fn plan_flagged_file_is_decrypted() {
    let plan = plan_process("/tmp/x.zip".to_string(), true, "k".to_string(), Some(30)).unwrap();
    assert!(plan.operation == Operation::Decrypt);
    assert_eq!(plan.input_path, "/tmp/x.zip");
    assert_eq!(plan.key, "k");
}

#[test]
fn plan_other_file_is_encrypted_with_normalized_ratio() {
    let plan = plan_process("/tmp/x.txt".to_string(), false, "k".to_string(), Some(300)).unwrap();
    assert!(plan.operation == Operation::Encrypt { part: 100 });
    let plan = plan_process("/tmp/x.txt".to_string(), false, "k".to_string(), None).unwrap();
    assert!(plan.operation == Operation::Encrypt { part: 50 });
}

#[test]
fn plan_refuses_invalid_request() {
    assert_eq!(
        plan_process(" ".to_string(), false, "k".to_string(), None).err(),
        Some("请选择文件".to_string())
    );
    assert_eq!(
        plan_process("a".to_string(), true, String::new(), None).err(),
        Some("请输入密钥".to_string())
    );
}

#[test]
fn progress_starts_at_zero_and_completes_on_success_only() {
    assert_eq!(STARTING_PROGRESS, 0);
    assert_eq!(completion_progress(true), Some(100));
    assert_eq!(completion_progress(false), None);
}

#[test]
fn operation_follows_encrypted_flag() {
    assert!(operation_for(true, 70) == Operation::Decrypt);
    assert!(operation_for(false, 70) == Operation::Encrypt { part: 70 });
}
