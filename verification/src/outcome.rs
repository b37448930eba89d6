use vstd::prelude::*;

use crate::process::Operation;

verus! {

/// What a finished request reports: where the output went, and a message.
pub struct CryptoResult {
    pub output_path: String,
    pub message: String,
}

/// Message of a successful encryption.
pub open spec fn encrypted_message() -> Seq<char> {
    "加密成功"@
}

/// Message of a successful decryption.
pub open spec fn decrypted_message() -> Seq<char> {
    "解密成功"@
}

/// The report of a successful operation that wrote `output_path`.
pub fn crypto_success(output_path: String, operation: &Operation) -> (r: CryptoResult)
    ensures
        r.output_path@ == output_path@,
        r.message@ == (match operation {
            Operation::Encrypt { .. } => encrypted_message(),
            Operation::Decrypt => decrypted_message(),
        }),
{
    broadcast use vstd::string::group_string_axioms;
    let message = match operation {
        Operation::Encrypt { .. } => "加密成功".to_string(),
        Operation::Decrypt => "解密成功".to_string(),
    };
    CryptoResult { output_path, message }
}

/// A message for the front end to show, with its kind.
pub struct ToastPayload {
    pub message: String,
    pub toast_type: String,
}

/// Kind of a message whose kind is not given.
pub open spec fn default_toast_type() -> Seq<char> {
    "success"@
}

/// The payload of a message to show; a message of no given kind is a success.
pub fn toast_payload(message: String, toast_type: Option<String>) -> (p: ToastPayload)
    ensures
        p.message@ == message@,
        p.toast_type@ == (match toast_type {
            Some(t) => t@,
            None => default_toast_type(),
        }),
{
    broadcast use vstd::string::group_string_axioms;
    let toast_type = match toast_type {
        Some(t) => t,
        None => "success".to_string(),
    };
    ToastPayload { message, toast_type }
}

/// The two front ends, which word some messages differently.
pub enum Platform {
    Desktop,
    Android,
}

/// Message of a decryption whose output does not match the original's check sum.
pub open spec fn integrity_failure_message(platform: Platform) -> Seq<char> {
    match platform {
        Platform::Desktop => "与原始文件校验不一致"@,
        Platform::Android => "文件校验失败，与原始文件不一致"@,
    }
}

/// The end of a decryption, given the outcome of the integrity check (`None`
/// where the check itself failed): it succeeds only where the check passed.
pub fn integrity_result(check: Option<bool>, platform: Platform) -> (r: Result<(), String>)
    ensures
        r is Ok <==> check == Some(true),
        r matches Err(e) ==> e@ == integrity_failure_message(platform),
{
    broadcast use vstd::string::group_string_axioms;
    if check.unwrap_or(false) {
        Ok(())
    } else {
        match platform {
            Platform::Desktop => Err("与原始文件校验不一致".to_string()),
            Platform::Android => Err("文件校验失败，与原始文件不一致".to_string()),
        }
    }
}

} // verus!
