//! The per-file content pipeline: binary detection, then the trimming
//! decision.
//!
//! A file whose bytes are not valid text is classified as binary and
//! left byte-for-byte untouched. Valid text is trimmed; only when
//! trimming actually changed a line is a rewrite ordered, so a clean
//! file is never written to at all.

use crate::trim::any_modified;
use crate::trim::trim_trailing_whitespace;
use crate::trim::trimmed_text;
use vstd::prelude::*;
use vstd::string::StringSliceAdditionalSpecFns;
use vstd::utf8::decode_utf8;
use vstd::utf8::encode_utf8;
use vstd::utf8::valid_utf8;

verus! {

/// What the pipeline decides about one file's raw content.
#[derive(Debug)]
pub enum ContentPlan {
    /// The bytes are not valid text: the file is left untouched.
    Binary,
    /// The text is already trimmed: no write must happen.
    Clean,
    /// The text carries trailing whitespace: the file is to be replaced
    /// with this content.
    Rewrite(String),
}

/// Relies on core::str::from_utf8: it succeeds exactly on UTF-8 input,
/// and the returned slice is the input's bytes read as text.
#[verifier::external_body]
fn decode_text(bytes: &[u8]) -> (r: Option<&str>)
    ensures
        r is Some <==> valid_utf8(bytes@),
        r is Some ==> r->0.spec_bytes() == bytes@,
{
    core::str::from_utf8(bytes).ok()
}

/// Decides what happens to one file's raw content: it is skipped as
/// binary, recognised as already clean, or rewritten with the trimmed
/// text.
pub fn plan_content(bytes: &[u8]) -> (p: ContentPlan)
    ensures
        p is Binary <==> !valid_utf8(bytes@),
        valid_utf8(bytes@) && any_modified(decode_utf8(bytes@)) ==> p is Rewrite
            && p->Rewrite_0@ == trimmed_text(decode_utf8(bytes@)),
        valid_utf8(bytes@) && !any_modified(decode_utf8(bytes@)) ==> p is Clean,
{
    match decode_text(bytes) {
        Option::None => ContentPlan::Binary,
        Option::Some(text) => {
            proof {
                assert(encode_utf8(text@) == bytes@);
                vstd::utf8::encode_utf8_decode_utf8(text@);
                assert(decode_utf8(bytes@) == text@);
            }
            let r = trim_trailing_whitespace(text);
            if r.modified {
                ContentPlan::Rewrite(r.content)
            } else {
                ContentPlan::Clean
            }
        },
    }
}

} // verus!
