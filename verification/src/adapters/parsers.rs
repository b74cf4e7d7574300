//! Booleans written as text in configuration values: `"true"` and `"false"`, in any case.

use vstd::prelude::*;

use crate::text::str_equal;

verus! {

/// The lower-case form of a text, as `str::to_lowercase` computes it (Unicode case mapping).
pub uninterp spec fn lowercase(s: Seq<char>) -> Seq<char>;

/// Calls `str::to_lowercase`. Its result is named by `lowercase` and depends on `s` alone;
/// the Unicode case mapping it applies is not stated here.
#[verifier::external_body]
fn to_lowercase(s: &str) -> (r: String)
    ensures
        r@ == lowercase(s@),
{
    s.to_lowercase()
}

/// Why a boolean text was refused: it names neither `true` nor `false` ("invalid boolean value").
#[derive(Debug, PartialEq, Eq, Structural, Clone, Copy)]
pub enum BoolParseError {
    Invalid,
}

/// The boolean that an already lower-cased text names.
pub fn bool_from_lowercase(lower: &str) -> (r: Result<bool, BoolParseError>)
    ensures
        lower@ == "true"@ ==> r == Ok::<bool, BoolParseError>(true),
        lower@ == "false"@ ==> r == Ok::<bool, BoolParseError>(false),
        lower@ != "true"@ && lower@ != "false"@ ==> r == Err::<bool, BoolParseError>(BoolParseError::Invalid),
{
    proof {
        reveal_strlit("true");
        reveal_strlit("false");
        assert("true"@[0] != "false"@[0]);
    }
    if str_equal(lower, "true") {
        Ok(true)
    } else if str_equal(lower, "false") {
        Ok(false)
    } else {
        Err(BoolParseError::Invalid)
    }
}

/// Reads an optional boolean text: absent stays absent; present, it is lower-cased and must
/// then read `true` or `false`.
pub fn parse_bool(value: Option<&str>) -> (r: Result<Option<bool>, BoolParseError>)
    ensures
        value is None ==> r == Ok::<Option<bool>, BoolParseError>(None),
        value matches Some(s) ==> (lowercase(s@) == "true"@ ==> r == Ok::<Option<bool>, BoolParseError>(
            Some(true),
        )),
        value matches Some(s) ==> (lowercase(s@) == "false"@ ==> r == Ok::<Option<bool>, BoolParseError>(
            Some(false),
        )),
        value matches Some(s) ==> (lowercase(s@) != "true"@ && lowercase(s@) != "false"@
            ==> r == Err::<Option<bool>, BoolParseError>(BoolParseError::Invalid)),
{
    match value {
        Some(s) => {
            let lower = to_lowercase(s);
            match bool_from_lowercase(lower.as_str()) {
                Ok(b) => Ok(Some(b)),
                Err(e) => Err(e),
            }
        },
        None => Ok(None),
    }
}

/// The text an optional boolean is written as: `"true"`, `"false"`, or nothing.
pub fn serialize_bool(t: Option<bool>) -> (r: Option<String>)
    ensures
        t == Some(true) ==> (r matches Some(s) && s@ == "true"@),
        t == Some(false) ==> (r matches Some(s) && s@ == "false"@),
        t is None ==> r is None,
{
    match t {
        Some(true) => Some("true".to_string()),
        Some(false) => Some("false".to_string()),
        None => None,
    }
}

} // verus!
