use vstd::prelude::*;

use crate::request::{
    is_blank, no_file_message, no_key_message, normalize_encrypt_part,
    spec_normalize_encrypt_part, validate_request,
};

verus! {

/// What a request asks for. A request whose file is flagged as encrypted is
/// decrypted; any other is encrypted, with the ratio it carries.
#[derive(PartialEq, Eq, Structural)]
pub enum Operation {
    Encrypt { part: u64 },
    Decrypt,
}

/// A checked request, ready to be carried out.
pub struct ProcessPlan {
    pub input_path: String,
    pub key: String,
    pub operation: Operation,
}

/// The operation for a request: decryption for a file flagged as encrypted,
/// else encryption with the normalized ratio.
pub open spec fn spec_operation(isencry: bool, encrypt_part: Option<u64>) -> Operation {
    if isencry {
        Operation::Decrypt
    } else {
        Operation::Encrypt { part: spec_normalize_encrypt_part(encrypt_part) }
    }
}

/// The ratio that an encryption uses: the requested one where it is at most
/// 100, 100 where it is larger, 50 where none is given.
pub open spec fn normalize_spec_of(encrypt_part: Option<u64>) -> u64 {
    match encrypt_part {
        Some(p) => if p <= 100 { p } else { 100 },
        None => 50,
    }
}

/// A file flagged as encrypted is decrypted, whatever ratio comes with it; any
/// other file is encrypted, with the requested ratio capped at 100 (50 where
/// none is given).
pub proof fn lemma_flagged_file_is_decrypted(encrypt_part: Option<u64>)
    ensures
        spec_operation(true, encrypt_part) == Operation::Decrypt,
        spec_operation(false, encrypt_part) != Operation::Decrypt,
        spec_operation(false, encrypt_part) == (Operation::Encrypt {
            part: normalize_spec_of(encrypt_part),
        }),
        spec_operation(true, encrypt_part) == spec_operation(true, None),
{
}

/// The operation for a file flagged as encrypted (`isencry`) or not, with the
/// ratio that an encryption uses.
pub fn operation_for(isencry: bool, encrypt_part: u64) -> (op: Operation)
    ensures
        op == (if isencry { Operation::Decrypt } else { Operation::Encrypt { part: encrypt_part } }),
        isencry <==> op == Operation::Decrypt,
        op matches Operation::Encrypt { part } ==> part == encrypt_part,
{
    if isencry {
        Operation::Decrypt
    } else {
        Operation::Encrypt { part: encrypt_part }
    }
}

/// Checks a request and decides what is done with it. The request is refused,
/// with the message that `validate_request` gives, exactly when it names no
/// file or carries no key.
pub fn plan_process(
    input_path: String,
    isencry: bool,
    key: String,
    encrypt_part: Option<u64>,
) -> (r: Result<ProcessPlan, String>)
    ensures
        r is Ok <==> (!is_blank(input_path@) && key@.len() > 0),
        r matches Err(e) ==> e@ == (if is_blank(input_path@) {
            no_file_message()
        } else {
            no_key_message()
        }),
        r matches Ok(plan) ==> (plan.operation == Operation::Decrypt <==> isencry),
        r matches Ok(plan) ==> (!isencry ==> plan.operation == (Operation::Encrypt {
            part: normalize_spec_of(encrypt_part),
        })),
        r matches Ok(plan) ==> {
            &&& plan.input_path@ == input_path@
            &&& plan.key@ == key@
            &&& plan.operation == spec_operation(isencry, encrypt_part)
        },
{
    match validate_request(input_path.as_str(), key.as_str()) {
        Err(e) => Err(e),
        Ok(()) => {
            let part = normalize_encrypt_part(encrypt_part);
            let operation = operation_for(isencry, part);
            Ok(ProcessPlan { input_path, key, operation })
        },
    }
}

/// Progress shown when a checked request starts.
pub const STARTING_PROGRESS: u8 = 0;

/// Progress shown when a request ends: full on success, none on failure.
pub fn completion_progress(succeeded: bool) -> (p: Option<u8>)
    ensures
        p == (if succeeded { Some(100u8) } else { None::<u8> }),
{
    if succeeded {
        Some(100)
    } else {
        None
    }
}

} // verus!
