//! Small commands of the frontend.
use vstd::prelude::*;
use crate::processors::css_preprocess::{base64_encode, base64_standard};
use crate::text::{append_str, concat2, starts_with, str_starts_with};

verus! {

broadcast use vstd::string::group_string_axioms;

/// An image fetched for the frontend as a data URI: none unless the answer's
/// content type (`content_type`, none when the answer had none) starts with
/// "image"; else "data:", the content type, ";base64," and the answer's
/// bytes in base64.
pub fn fetch_image(content_type: Option<String>, bytes: &[u8]) -> (uri: Option<String>)
    ensures
        uri is Some <==> (content_type matches Some(t) && starts_with(t@, "image"@)),
        uri matches Some(u) ==> (content_type matches Some(t) && u@ == "data:"@ + t@
            + ";base64,"@ + base64_standard(bytes@)),
{
    let t = match content_type {
        Some(t) => t,
        None => {
            return None;
        },
    };
    if !str_starts_with(t.as_str(), "image") {
        return None;
    }
    let mut u = concat2("data:", t.as_str());
    append_str(&mut u, ";base64,");
    let b = base64_encode(bytes);
    append_str(&mut u, b.as_str());
    Some(u)
}

} // verus!
