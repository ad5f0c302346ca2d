use vstd::prelude::*;

verus! {

/// A metadata lookup found no value under the key.
#[derive(Debug, PartialEq, Eq)]
pub struct KeyNotFound {
    pub key: String,
}

/// Turns the engine's metadata lookup into a result that names the missing
/// key when there was no value.
pub fn metadata_value(key: &str, found: Option<String>) -> (r: Result<String, KeyNotFound>)
    ensures
        found matches Some(v) ==> r == Ok::<String, KeyNotFound>(v),
        found is None ==> (r matches Err(e) && e.key@ == key@),
{
    match found {
        Some(v) => Ok(v),
        None => Err(KeyNotFound { key: key.to_string() }),
    }
}

} // verus!
