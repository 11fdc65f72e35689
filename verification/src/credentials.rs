//! What the user types to log in to a provider.
use vstd::prelude::*;
use vstd::string::*;

use crate::text::{
    chars_of, folds_ascii, is_white_space, law_blank_is_all_white_space, lowercase, same_text,
    to_lowercase, trim, trimmed, white_space,
};

verus! {

broadcast use vstd::string::group_string_axioms;

/// Whether some character is white space.
pub open spec fn holds_white_space(s: Seq<char>) -> bool {
    exists|i: int| 0 <= i < s.len() && #[trigger] white_space(s[i])
}

/// The key that an input gives, or the complaint about it.
pub open spec fn api_key_of(input: Seq<char>) -> Result<Seq<char>, Seq<char>> {
    let key = trimmed(input);
    if key.len() == 0 {
        Err("API key cannot be empty"@)
    } else if holds_white_space(key) {
        Err("API key must not contain whitespace"@)
    } else {
        Ok(key)
    }
}

/// Reads an API key: white space around it is dropped, and it holds none.
pub fn normalize_api_key_input(input: &str) -> (r: Result<String, String>)
    ensures
        match r {
            Ok(key) => api_key_of(input@) == Ok::<Seq<char>, Seq<char>>(key@),
            Err(complaint) => api_key_of(input@) == Err::<Seq<char>, Seq<char>>(complaint@),
        },
{
    let key: &str = trim(input);
    if key.is_empty() {
        return Err("API key cannot be empty".to_owned());
    }
    let chars: Vec<char> = chars_of(key);
    let mut i: usize = 0;
    while i < chars.len()
        invariant
            i <= chars@.len(),
            chars@ == key@,
            key@ == trimmed(input@),
            key@.len() > 0,
            forall|k: int| 0 <= k < i ==> !white_space(key@[k]),
        decreases chars@.len() - i,
    {
        if is_white_space(chars[i]) {
            assert(white_space(key@[i as int]));
            return Err("API key must not contain whitespace".to_owned());
        }
        i = i + 1;
    }
    assert(!holds_white_space(key@));
    Ok(key.to_owned())
}

/// The provider that a lower case name stands for.
pub open spec fn canonical_provider_of(lowered: Seq<char>) -> Seq<char> {
    if lowered == "gemini"@ {
        "google"@
    } else {
        lowered
    }
}

/// The provider that a lower case name stands for.
pub fn canonical_provider(lowered: String) -> (r: String)
    ensures
        r@ == canonical_provider_of(lowered@),
{
    if same_text(lowered.as_str(), "gemini") {
        "google".to_owned()
    } else {
        lowered
    }
}

/// Reads the name of a provider, in any case.
pub fn normalize_auth_provider_input(input: &str) -> (r: String)
    ensures
        r@ == canonical_provider_of(lowercase(trimmed(input@))),
        folds_ascii(trimmed(input@)),
{
    canonical_provider(to_lowercase(trim(input)))
}

/// A key is what was typed, without the white space around it. It is refused where nothing is left,
/// or where white space is left inside.
pub proof fn law_keys(input: Seq<char>)
    ensures
        ({
            let key = trimmed(input);
            &&& (forall|i: int| 0 <= i < input.len() ==> white_space(#[trigger] input[i]))
                ==> api_key_of(input) == Err::<Seq<char>, Seq<char>>("API key cannot be empty"@)
            &&& key.len() > 0 && (exists|i: int| 0 <= i < key.len() && white_space(key[i]))
                ==> api_key_of(input) == Err::<Seq<char>, Seq<char>>(
                "API key must not contain whitespace"@,
            )
            &&& key.len() > 0 && (forall|i: int| 0 <= i < key.len() ==> !white_space(key[i]))
                ==> api_key_of(input) == Ok::<Seq<char>, Seq<char>>(key)
        }),
{
    law_blank_is_all_white_space(input);
}

/// The one provider with another name, and all others as they are.
pub proof fn law_provider_names(lowered: Seq<char>)
    ensures
        canonical_provider_of("gemini"@) == "google"@,
        lowered != "gemini"@ ==> canonical_provider_of(lowered) == lowered,
{
}

} // verus!
