use vstd::prelude::*;

verus! {

/// Share of the file, in percent, that is encrypted when the caller gives none.
pub const DEFAULT_ENCRYPT_PART: u64 = 50;

/// The encryption ratio actually used for a request: the given ratio, or the
/// default, capped at 100.
pub open spec fn spec_normalize_encrypt_part(encrypt_part: Option<u64>) -> u64 {
    match encrypt_part {
        Some(p) => if p <= 100 { p } else { 100 },
        None => DEFAULT_ENCRYPT_PART,
    }
}

/// Picks the encryption ratio: the requested one, or the default, never above 100.
pub fn normalize_encrypt_part(encrypt_part: Option<u64>) -> (r: u64)
    ensures
        r == spec_normalize_encrypt_part(encrypt_part),
        r <= 100,
        encrypt_part is None ==> r == 50,
        encrypt_part matches Some(p) ==> (p <= 100 ==> r == p),
        encrypt_part matches Some(p) ==> (p > 100 ==> r == 100),
{
    encrypt_part.unwrap_or(DEFAULT_ENCRYPT_PART).min(100)
}

/// A ratio that has been normalized is left as it is by a second
/// normalization, and no normalized ratio exceeds 100.
pub proof fn lemma_normalize_encrypt_part_idempotent(encrypt_part: Option<u64>)
    ensures
        spec_normalize_encrypt_part(Some(spec_normalize_encrypt_part(encrypt_part)))
            == spec_normalize_encrypt_part(encrypt_part),
        spec_normalize_encrypt_part(encrypt_part) <= 100,
{
}

/// A requested ratio within 0..=100 is kept exactly as given, a larger one
/// becomes 100, and a missing one becomes the default of 50.
pub proof fn lemma_normalize_encrypt_part_keeps_ratio(p: u64)
    ensures
        p <= 100 ==> spec_normalize_encrypt_part(Some(p)) == p,
        p > 100 ==> spec_normalize_encrypt_part(Some(p)) == 100,
        spec_normalize_encrypt_part(None) == 50,
        DEFAULT_ENCRYPT_PART == 50,
{
}

/// Normalizing never raises a ratio and never moves it past 100: the result is
/// the least of the requested ratio and 100.
pub proof fn lemma_normalize_encrypt_part_is_min(p: u64)
    ensures
        spec_normalize_encrypt_part(Some(p)) <= p,
        spec_normalize_encrypt_part(Some(p)) <= 100,
        spec_normalize_encrypt_part(Some(p)) == p || spec_normalize_encrypt_part(Some(p)) == 100,
{
}

/// Unicode `White_Space` characters, the ones that `str::trim` removes.
pub open spec fn is_white_space(c: char) -> bool {
    ||| '\u{9}' <= c <= '\u{d}'
    ||| c == ' '
    ||| c == '\u{85}'
    ||| c == '\u{a0}'
    ||| c == '\u{1680}'
    ||| '\u{2000}' <= c <= '\u{200a}'
    ||| c == '\u{2028}'
    ||| c == '\u{2029}'
    ||| c == '\u{202f}'
    ||| c == '\u{205f}'
    ||| c == '\u{3000}'
}

/// A text is blank when nothing is left of it once whitespace is trimmed.
pub open spec fn is_blank(s: Seq<char>) -> bool {
    forall|i: int| 0 <= i < s.len() ==> is_white_space(#[trigger] s[i])
}

/// Whether `c` is a Unicode `White_Space` character.
pub fn is_white_space_char(c: char) -> (r: bool)
    ensures
        r == is_white_space(c),
{
    ('\u{9}' <= c && c <= '\u{d}') || c == ' ' || c == '\u{85}' || c == '\u{a0}'
        || c == '\u{1680}' || ('\u{2000}' <= c && c <= '\u{200a}') || c == '\u{2028}'
        || c == '\u{2029}' || c == '\u{202f}' || c == '\u{205f}' || c == '\u{3000}'
}

/// Whether `s` is empty or made of whitespace only.
pub fn is_blank_str(s: &str) -> (r: bool)
    ensures
        r == is_blank(s@),
{
    broadcast use vstd::string::group_string_axioms;
    for c in it: s.chars()
        invariant
            it.seq() == s@,
            forall|j: int| 0 <= j < it.index() ==> is_white_space(#[trigger] s@[j]),
    {
        if !is_white_space_char(c) {
            return false;
        }
    }
    true
}

/// Message for a request that names no input file.
pub open spec fn no_file_message() -> Seq<char> {
    "请选择文件"@
}

/// Message for a request that carries no key.
pub open spec fn no_key_message() -> Seq<char> {
    "请输入密钥"@
}

/// Checks that a request names an input file (not blank once trimmed) and
/// carries a non-empty key; the missing file is reported before the missing key.
pub fn validate_request(input_path: &str, key: &str) -> (r: Result<(), String>)
    ensures
        r is Ok <==> (!is_blank(input_path@) && key@.len() > 0),
        r matches Err(e) ==> e@ == (if is_blank(input_path@) {
            no_file_message()
        } else {
            no_key_message()
        }),
{
    broadcast use vstd::string::group_string_axioms;
    if is_blank_str(input_path) {
        return Err("请选择文件".to_string());
    }
    if key.is_empty() {
        return Err("请输入密钥".to_string());
    }
    Ok(())
}

} // verus!
