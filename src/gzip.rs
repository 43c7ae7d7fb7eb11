use vstd::prelude::*;

use crate::sniff::infer_from_bytes;
use crate::sniff::mime_of;
use crate::Kind;

verus! {

/// The decompressed payload starting with `prefix` is a TAR stream.
pub open spec fn payload_is_tar(prefix: Seq<u8>) -> bool {
    mime_of(prefix) == Some("application/x-tar"@)
}

/// Decides how a GZIP stream is extracted from the first bytes of its
/// decompressed payload (up to `SNIFF_LEN` of them): `true` where they carry
/// a TAR signature, so the whole payload is unpacked as a TAR stream; `false`
/// where the payload is one opaque file.
pub fn is_targz(prefix: &[u8]) -> (r: bool)
    ensures
        r == payload_is_tar(prefix@),
{
    match infer_from_bytes(prefix) {
        Ok(Kind::TAR) => true,
        _ => false,
    }
}

} // verus!
