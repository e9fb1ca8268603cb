use vstd::prelude::*;

verus! {

/// A translation to create or replace.
pub struct CreateTranslationDTO {
    pub key: String,
    pub locale: String,
    pub value: String,
}

} // verus!
