//! Version words as the Mumble protocol carries them.
//!
//! - Legacy v1 (32-bit): `(major << 16) | (minor << 8) | patch`
//! - v2 (64-bit): `(major << 48) | (minor << 32) | (patch << 16) | build`

use vstd::prelude::*;

verus! {

/// The legacy v1 version word: major (16 bits) | minor (8 bits) | patch (8 bits).
pub open spec fn version_v1_word(major: u32, minor: u32, patch: u32) -> u32 {
    (major << 16u32) | (minor << 8u32) | patch
}

/// The v2 version word: major | minor | patch | build, 16 bits each.
pub open spec fn version_v2_word(major: u64, minor: u64, patch: u64, build: u64) -> u64 {
    (major << 48u64) | (minor << 32u64) | (patch << 16u64) | build
}

/// Build a legacy v1 version word: major(16-bit) | minor(8-bit) | patch(8-bit).
pub fn make_version_v1(major: u32, minor: u32, patch: u32) -> (v: u32)
    ensures
        v == version_v1_word(major, minor, patch),
        major < 0x1_0000 && minor < 0x100 && patch < 0x100 ==> v == major * 0x1_0000 + minor
            * 0x100 + patch,
{
    let v = (major << 16u32) | (minor << 8u32) | patch;
    assert(major < 0x1_0000 && minor < 0x100 && patch < 0x100 ==> v == major * 0x1_0000 + minor
        * 0x100 + patch) by (bit_vector)
        requires
            v == (major << 16u32) | (minor << 8u32) | patch,
    ;
    v
}

/// Build a v2 version word as the protocol defines it.
pub fn make_version_v2(major: u64, minor: u64, patch: u64, build: u64) -> (v: u64)
    ensures
        v == version_v2_word(major, minor, patch, build),
        major < 0x1_0000 && minor < 0x1_0000 && patch < 0x1_0000 && build < 0x1_0000 ==> v
            == major * 0x1_0000_0000_0000 + minor * 0x1_0000_0000 + patch * 0x1_0000 + build,
{
    let v = (major << 48u64) | (minor << 32u64) | (patch << 16u64) | build;
    assert(major < 0x1_0000 && minor < 0x1_0000 && patch < 0x1_0000 && build < 0x1_0000 ==> v
        == major * 0x1_0000_0000_0000 + minor * 0x1_0000_0000 + patch * 0x1_0000 + build)
        by (bit_vector)
        requires
            v == (major << 48u64) | (minor << 32u64) | (patch << 16u64) | build,
    ;
    v
}

/// A v1 word gives back its parts: when each part fits its field, shifting
/// and masking the word recovers major, minor and patch.
pub proof fn lemma_version_v1_fields(major: u32, minor: u32, patch: u32)
    requires
        major < 0x1_0000,
        minor < 0x100,
        patch < 0x100,
    ensures
        version_v1_word(major, minor, patch) >> 16u32 == major,
        (version_v1_word(major, minor, patch) >> 8u32) & 0xFFu32 == minor,
        version_v1_word(major, minor, patch) & 0xFFu32 == patch,
{
    assert((((major << 16u32) | (minor << 8u32) | patch) >> 16u32 == major) && ((((major << 16u32)
        | (minor << 8u32) | patch) >> 8u32) & 0xFFu32 == minor) && (((major << 16u32) | (minor
        << 8u32) | patch) & 0xFFu32 == patch)) by (bit_vector)
        requires
            major < 0x1_0000,
            minor < 0x100,
            patch < 0x100,
    ;
}

/// A v2 word gives back its parts: when each part fits in 16 bits, shifting
/// and masking the word recovers major, minor, patch and build.
pub proof fn lemma_version_v2_fields(major: u64, minor: u64, patch: u64, build: u64)
    requires
        major < 0x1_0000,
        minor < 0x1_0000,
        patch < 0x1_0000,
        build < 0x1_0000,
    ensures
        (version_v2_word(major, minor, patch, build) >> 48u64) & 0xFFFFu64 == major,
        (version_v2_word(major, minor, patch, build) >> 32u64) & 0xFFFFu64 == minor,
        (version_v2_word(major, minor, patch, build) >> 16u64) & 0xFFFFu64 == patch,
        version_v2_word(major, minor, patch, build) & 0xFFFFu64 == build,
{
    let w = version_v2_word(major, minor, patch, build);
    assert((w >> 48u64) & 0xFFFFu64 == major && (w >> 32u64) & 0xFFFFu64 == minor && (w >> 16u64)
        & 0xFFFFu64 == patch && w & 0xFFFFu64 == build) by (bit_vector)
        requires
            w == (major << 48u64) | (minor << 32u64) | (patch << 16u64) | build,
            major < 0x1_0000,
            minor < 0x1_0000,
            patch < 0x1_0000,
            build < 0x1_0000,
    ;
}

} // verus!
