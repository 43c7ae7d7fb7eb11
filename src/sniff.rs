use vstd::prelude::*;

use crate::Error;
use crate::Kind;

verus! {

/// How many leading bytes signature matching looks at.
pub const SNIFF_LEN: usize = 8192;

/// The MIME type that infer's signature table gives a buffer, if any matches.
pub uninterp spec fn mime_of(buf: Seq<u8>) -> Option<Seq<char>>;

/// The characters of an optional label.
pub open spec fn label_view(label: Option<String>) -> Option<Seq<char>> {
    match label {
        Some(s) => Some(s@),
        None => None,
    }
}

/// Relies on infer::get: the MIME type of the first signature in infer's
/// table that matches the buffer, or none.
#[verifier::external_body]
fn sniff(buf: &[u8]) -> (r: Option<String>)
    ensures
        label_view(r) == mime_of(buf@),
{
    match infer::get(buf) {
        Some(t) => Some(t.mime_type().to_string()),
        None => None,
    }
}

/// The format that a MIME label names, among those this library extracts.
pub open spec fn kind_for(label: Seq<char>) -> Option<Kind> {
    if label == "application/x-tar"@ {
        Some(Kind::TAR)
    } else if label == "application/zip"@ {
        Some(Kind::ZIP)
    } else if label == "application/gzip"@ {
        Some(Kind::GZIP)
    } else {
        None
    }
}

/// `r` is the verdict on a sniffed label: the format it names, or
/// `InvalidFormat` carrying the label (none where nothing matched).
pub open spec fn verdict(label: Option<Seq<char>>, r: Result<Kind, Error>) -> bool {
    match label {
        None => r == Err::<Kind, Error>(Error::InvalidFormat(None)),
        Some(l) => match kind_for(l) {
            Some(k) => r == Ok::<Kind, Error>(k),
            None => match r {
                Err(Error::InvalidFormat(Some(s))) => s@ == l,
                _ => false,
            },
        },
    }
}

/// Turns a sniffed label into a format, or into the error that names it.
pub fn kind_from_label(label: Option<String>) -> (r: Result<Kind, Error>)
    ensures
        verdict(label_view(label), r),
{
    match label {
        None => Err(Error::InvalidFormat(None)),
        Some(l) => {
            if l == String::from_str("application/x-tar") {
                Ok(Kind::TAR)
            } else if l == String::from_str("application/zip") {
                Ok(Kind::ZIP)
            } else if l == String::from_str("application/gzip") {
                Ok(Kind::GZIP)
            } else {
                Err(Error::InvalidFormat(Some(l)))
            }
        }
    }
}

/// Classifies a buffer by its leading signature.
pub fn infer_from_bytes(buf: &[u8]) -> (r: Result<Kind, Error>)
    ensures
        verdict(mime_of(buf@), r),
{
    kind_from_label(sniff(buf))
}

} // verus!

verus! {

/// A buffer classifies as TAR, ZIP or GZIP exactly when its leading signature
/// is that format's, whatever name the buffer came under.
pub proof fn lemma_format_fidelity(buf: Seq<u8>, r: Result<Kind, Error>)
    requires
        verdict(mime_of(buf), r),
    ensures
        (r == Ok::<Kind, Error>(Kind::TAR)) <==> mime_of(buf) == Some("application/x-tar"@),
        (r == Ok::<Kind, Error>(Kind::ZIP)) <==> mime_of(buf) == Some("application/zip"@),
        (r == Ok::<Kind, Error>(Kind::GZIP)) <==> mime_of(buf) == Some("application/gzip"@),
{
    reveal_strlit("application/x-tar");
    reveal_strlit("application/zip");
    reveal_strlit("application/gzip");
    assert("application/x-tar"@[12] != "application/zip"@[12]);
    assert("application/x-tar"@[12] != "application/gzip"@[12]);
    assert("application/zip"@[12] != "application/gzip"@[12]);
}

/// A buffer with no known signature is refused with `InvalidFormat(None)`;
/// one whose signature is of another known type is refused with
/// `InvalidFormat` carrying that type's label.
pub proof fn lemma_unrecognized_input(buf: Seq<u8>, r: Result<Kind, Error>)
    requires
        verdict(mime_of(buf), r),
    ensures
        mime_of(buf) == None::<Seq<char>> ==> r == Err::<Kind, Error>(Error::InvalidFormat(None)),
        forall|l: Seq<char>|
            mime_of(buf) == Some(l) && l != "application/x-tar"@ && l != "application/zip"@
                && l != "application/gzip"@ ==> (match r {
                Err(Error::InvalidFormat(Some(s))) => s@ == l,
                _ => false,
            }),
{
}

} // verus!
