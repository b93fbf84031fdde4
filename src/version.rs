//! The runtime's version constants and the two accessors over them.

use crate::buffer::{
    full_version_of, full_version_spec, nul_terminated, text_result_view, VersionError,
};
use crate::semver::{is_semver_shape, semv_text, semv_version_of};
use vstd::prelude::*;
use vstd::string::StringSliceAdditionalSpecFns;
use vstd::utf8::{is_leading_byte_width_1, partial_valid_utf8, valid_utf8};

verus! {

/// The runtime's full version string, zero-terminated.
pub const WASMEDGE_VERSION: [u8; 22] = [
    48, 46, 56, 46, 50, 45, 114, 99, 46, 53, 45, 49, 45, 103, 56, 48, 57, 99, 55, 52, 54, 0,
];

/// The runtime's major version number.
pub const WASMEDGE_VERSION_MAJOR: u32 = 0;

/// The runtime's minor version number.
pub const WASMEDGE_VERSION_MINOR: u32 = 8;

/// The runtime's patch version number.
pub const WASMEDGE_VERSION_PATCH: u32 = 2;

/// The runtime's version buffer is well-formed: zero-terminated, with ASCII
/// text before the terminator.
proof fn lemma_version_buffer_well_formed()
    ensures
        nul_terminated(WASMEDGE_VERSION@),
        valid_utf8(WASMEDGE_VERSION@.drop_last()),
{
    let b = WASMEDGE_VERSION@;
    let t = b.drop_last();
    assert(b.len() == 22);
    assert(forall|i: int| 0 <= i < 21 ==> 0 < #[trigger] b[i] < 128);
    assert(forall|i: int| 0 <= i < 21 ==> #[trigger] is_leading_byte_width_1(t[i]));
    assert(t.subrange(0, 0) =~= Seq::<u8>::empty());
    assert(partial_valid_utf8(t, 0));
    vstd::utf8::partial_valid_utf8_extend_ascii_block(t, 0, 21);
    assert(t.subrange(0, 21) =~= t);
}

/// The runtime's full version string, without its terminating zero byte.
pub fn full_version() -> (r: Result<&'static str, VersionError>)
    ensures
        r is Ok,
        text_result_view(r) == full_version_spec(WASMEDGE_VERSION@),
        r matches Ok(s) ==> s.spec_bytes() == WASMEDGE_VERSION@.drop_last(),
{
    proof {
        lemma_version_buffer_well_formed();
    }
    full_version_of(&WASMEDGE_VERSION)
}

/// The runtime's version as `"{major}.{minor}.{patch}"`.
pub fn semv_version() -> (r: String)
    ensures
        r@ == semv_text(
            WASMEDGE_VERSION_MAJOR as nat,
            WASMEDGE_VERSION_MINOR as nat,
            WASMEDGE_VERSION_PATCH as nat,
        ),
        is_semver_shape(r@),
{
    semv_version_of(WASMEDGE_VERSION_MAJOR, WASMEDGE_VERSION_MINOR, WASMEDGE_VERSION_PATCH)
}

} // verus!
