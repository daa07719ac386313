//! A canned JSON document, standing in for the reply of a remote service.

use vstd::prelude::*;

verus! {

/// The characters of the document that [`fetch_data`] hands back.
pub open spec fn sample_document() -> Seq<char> {
    (r#"
            {
                "id": 1,
                "title": "Hello, Rust"
            }
        "#)@
}

/// Pretends to call an API and returns the JSON reply it would give:
/// always the exact document [`sample_document`].
pub fn fetch_data() -> (data: String)
    ensures
        data@ == sample_document(),
{
    (r#"
            {
                "id": 1,
                "title": "Hello, Rust"
            }
        "#).to_string()
}

} // verus!
