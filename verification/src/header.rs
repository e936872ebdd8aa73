//! The container header: the first sixteen bytes, big-endian, carrying the
//! magic, the volume size and the raw cluster-size field.
use crate::codec::{spec_u16_be, spec_u32_be, u16_be, u32_be};
use crate::numfmt::{debug_bytes4_string, spec_debug_bytes4};
use crate::{ErrV, VFFError};
use vstd::prelude::*;

verus! {

/// The decoded container header. The effective cluster size is the raw
/// field already scaled by sixteen, and the cluster count the volume size
/// divided by it.
#[derive(Debug)]
pub struct VFFHeader {
    pub volume_size: u32,
    pub cluster_size: u16,
    pub cluster_count: u32,
}

/// Whether the first four bytes are the ASCII magic `"VFF "`.
pub open spec fn spec_is_magic(b: Seq<u8>) -> bool {
    b[0] == 0x56 && b[1] == 0x46 && b[2] == 0x46 && b[3] == 0x20
}

/// The big-endian volume size at offset 8.
pub open spec fn spec_volume_size(b: Seq<u8>) -> int {
    spec_u32_be(b[8], b[9], b[10], b[11])
}

/// The big-endian raw cluster-size field at offset 12, before scaling.
pub open spec fn spec_raw_cluster_size(b: Seq<u8>) -> int {
    spec_u16_be(b[12], b[13])
}

/// What decoding a sixteen-byte header yields: the header fields, or the
/// error for a wrong magic, an overflowing cluster size, or a zero cluster
/// size, in that order of precedence.
pub open spec fn spec_check_header(b: Seq<u8>) -> Result<VFFHeader, ErrV> {
    let raw = spec_raw_cluster_size(b);
    if !spec_is_magic(b) {
        Err(
            ErrV::InvalidData {
                context: "Check VFF Header: parsing file magic"@,
                expected: spec_debug_bytes4(seq![0x56u8, 0x46u8, 0x46u8, 0x20u8]),
                found: spec_debug_bytes4(b.take(4)),
            },
        )
    } else if raw > 0xfff {
        Err(
            ErrV::InvalidData {
                context: "Checking VFF Header - Compute cluster size"@,
                expected: "cluster_size * 16 should not overflow"@,
                found: "Overflow detected"@,
            },
        )
    } else if raw == 0 {
        Err(
            ErrV::InvalidData {
                context: "Check VFF Header"@,
                expected: "Cluster size != 0"@,
                found: "0"@,
            },
        )
    } else {
        Ok(
            VFFHeader {
                volume_size: spec_volume_size(b) as u32,
                cluster_size: (raw * 16) as u16,
                cluster_count: (spec_volume_size(b) / (raw * 16)) as u32,
            },
        )
    }
}

/// Decodes the sixteen-byte container header, validating the magic and the
/// cluster size before deriving the cluster count.
pub fn check_header(vff_header: [u8; 16]) -> (r: Result<VFFHeader, VFFError>)
    ensures
        match r {
            Ok(h) => spec_check_header(vff_header@) == Ok::<VFFHeader, ErrV>(h),
            Err(e) => spec_check_header(vff_header@) == Err::<VFFHeader, ErrV>(e@),
        },
{
    let magic_ok = vff_header[0] == 0x56 && vff_header[1] == 0x46 && vff_header[2] == 0x46
        && vff_header[3] == 0x20;
    if !magic_ok {
        let found = debug_bytes4_string(vff_header[0], vff_header[1], vff_header[2], vff_header[3]);
        proof {
            assert(seq![vff_header@[0], vff_header@[1], vff_header@[2], vff_header@[3]]
                =~= vff_header@.take(4));
        }
        return Err(
            VFFError::InvalidData {
                context: "Check VFF Header: parsing file magic".to_owned(),
                expected: debug_bytes4_string(0x56, 0x46, 0x46, 0x20),
                found,
            },
        );
    }
    let raw = u16_be(vff_header[12], vff_header[13]);
    if raw > 0xfff {
        return Err(
            VFFError::InvalidData {
                context: "Checking VFF Header - Compute cluster size".to_owned(),
                expected: "cluster_size * 16 should not overflow".to_owned(),
                found: "Overflow detected".to_owned(),
            },
        );
    }
    if raw == 0 {
        return Err(
            VFFError::InvalidData {
                context: "Check VFF Header".to_owned(),
                expected: "Cluster size != 0".to_owned(),
                found: "0".to_owned(),
            },
        );
    }
    let cluster_size: u16 = raw * 16;
    let volume_size = u32_be(vff_header[8], vff_header[9], vff_header[10], vff_header[11]);
    Ok(
        VFFHeader {
            volume_size,
            cluster_size,
            cluster_count: volume_size / (cluster_size as u32),
        },
    )
}

/// For a header carrying the magic and a raw cluster-size field that scales
/// without overflowing to a nonzero value, decoding succeeds, the parsed
/// cluster size is sixteen times the raw field, and the cluster count is the
/// volume size divided by it, fractional remainder discarded.
pub proof fn lemma_header_round_trip(b: Seq<u8>)
    requires
        spec_is_magic(b),
        1 <= spec_raw_cluster_size(b) <= 0xfff,
    ensures
        spec_check_header(b) matches Ok(h) && {
            &&& h.volume_size == spec_volume_size(b)
            &&& h.cluster_size == spec_raw_cluster_size(b) * 16
            &&& h.cluster_count == spec_volume_size(b) / (spec_raw_cluster_size(b) * 16)
        },
{
}

/// Any header whose first four bytes differ from the magic decodes to a
/// malformed-data error naming both the expected and the found bytes,
/// whatever the rest of the header holds.
pub proof fn lemma_magic_mismatch(b: Seq<u8>)
    requires
        !spec_is_magic(b),
    ensures
        spec_check_header(b) matches Err(e) && e == (ErrV::InvalidData {
            context: "Check VFF Header: parsing file magic"@,
            expected: spec_debug_bytes4(seq![0x56u8, 0x46u8, 0x46u8, 0x20u8]),
            found: spec_debug_bytes4(b.take(4)),
        }),
{
}

} // verus!
