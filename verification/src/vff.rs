//! The container handle: the backing bytes, the parsed header, the decoded
//! allocation table, and the offset where cluster-addressed data begins.
//! Reading a cluster is a bounds-checked slice of the backing bytes, and
//! reading a chain concatenates the clusters the allocation table links.
use crate::dir::Directory;
use crate::fat::{
    spec_bad_end_err, spec_chain_fuel, spec_exhausted_err, spec_fat_buf_size, spec_fat_new,
    spec_oob_err, spec_walk, SupportedFAT, WalkResult, FAT,
};
use crate::header::{spec_check_header, check_header, VFFHeader};
use crate::numfmt::{dec_digits_string, spec_dec_digits};
use crate::{ErrV, VFFError};
use vstd::arithmetic::div_mod::{lemma_fundamental_div_mod, lemma_mod_bound};
use vstd::prelude::*;
use vstd::slice::{slice_subrange, slice_to_vec};
use vstd::string::StringExecFns;

verus! {

/// Spec-level mirror of a container handle.
pub struct VffV {
    pub data: Seq<u8>,
    pub header: VFFHeader,
    pub clusters: Seq<u16>,
    pub data_offset: int,
}

/// A parsed container: the whole backing byte buffer, the decoded header,
/// the first allocation table, and the byte offset of the data region,
/// where cluster number 2 begins.
#[derive(Debug)]
pub struct VFF {
    pub data: Vec<u8>,
    pub header: VFFHeader,
    pub parsed_fat1: FAT,
    pub data_offset: u64,
}

impl View for VFF {
    type V = VffV;

    open spec fn view(&self) -> VffV {
        VffV {
            data: self.data@,
            header: self.header,
            clusters: self.parsed_fat1.clusters@,
            data_offset: self.data_offset as int,
        }
    }
}

/// The error for a cluster number below 2, which no data region addresses.
pub open spec fn spec_low_cluster_err(n: u32) -> ErrV {
    ErrV::InvalidData {
        context: "read_cluster"@,
        expected: "Cluster numbers start at 2"@,
        found: spec_dec_digits(n as nat),
    }
}

/// The error for a read that runs past the end of the backing bytes.
pub open spec fn spec_short_read_err() -> ErrV {
    ErrV::IOErr("failed to fill whole buffer"@)
}

/// What reading cluster `n` yields: the `cluster_size` bytes at the
/// cluster's offset in the data region, or an error when `n` is below 2 or
/// the region runs past the end of the backing bytes.
pub open spec fn spec_read_cluster(v: VffV, n: u32) -> Result<Seq<u8>, ErrV> {
    if n < 2 {
        Err(spec_low_cluster_err(n))
    } else {
        let off = v.data_offset + v.header.cluster_size * (n - 2);
        if off + v.header.cluster_size <= v.data.len() {
            Ok(v.data.subrange(off, off + v.header.cluster_size))
        } else {
            Err(spec_short_read_err())
        }
    }
}

/// The concatenation of the named clusters' bytes, in order; the first
/// failing cluster read decides the error.
pub open spec fn spec_concat_clusters(v: VffV, chain: Seq<u32>) -> Result<Seq<u8>, ErrV>
    decreases chain.len(),
{
    if chain.len() == 0 {
        Ok(Seq::empty())
    } else {
        match spec_read_cluster(v, chain[0]) {
            Ok(b) => match spec_concat_clusters(v, chain.skip(1)) {
                Ok(rest) => Ok(b + rest),
                Err(e) => Err(e),
            },
            Err(e) => Err(e),
        }
    }
}

/// What reading the chain from `start` yields: the walk's chain resolved
/// and concatenated, or the walk's own error.
pub open spec fn spec_read_chain(v: VffV, start: u32) -> Result<Seq<u8>, ErrV> {
    match spec_walk(v.clusters, start, spec_chain_fuel(v.clusters)) {
        WalkResult::Chain(c) => spec_concat_clusters(v, c),
        WalkResult::BadEnd(x) => Err(spec_bad_end_err(x)),
        WalkResult::NoEntry(x) => Err(spec_oob_err((x & 0xffff) as int, v.clusters.len() as int)),
        WalkResult::Exhausted => Err(spec_exhausted_err()),
    }
}

/// What parsing a whole container yields: the handle's fields and the root
/// directory region, or the error of the step that failed. The layout is
/// the 32-byte header region, the allocation table rounded up to whole
/// clusters, a fixed 0x1000-byte root directory region, then the data
/// region.
pub open spec fn spec_vff_new(data: Seq<u8>) -> Result<(VffV, Seq<u8>), ErrV> {
    if data.len() < 16 {
        Err(spec_short_read_err())
    } else {
        match spec_check_header(data.take(16)) {
            Err(e) => Err(e),
            Ok(h) => {
                let table_region = if data.len() >= 0x20 {
                    data.skip(0x20)
                } else {
                    Seq::<u8>::empty()
                };
                match spec_fat_new(table_region, h.cluster_count as int, h.cluster_size as int) {
                    Err(e) => Err(e),
                    Ok(cl) => {
                        let buf = spec_fat_buf_size(h.cluster_count as int, h.cluster_size as int);
                        if data.len() < 0x20 + buf + 0x1000 {
                            Err(spec_short_read_err())
                        } else {
                            Ok(
                                (
                                    VffV {
                                        data: data,
                                        header: h,
                                        clusters: cl,
                                        data_offset: 0x20 + buf + 0x1000,
                                    },
                                    data.subrange(0x20 + buf, 0x20 + buf + 0x1000),
                                ),
                            )
                        }
                    },
                }
            },
        }
    }
}

impl VFF {
    /// Parses a whole container out of its bytes and hands back the handle
    /// together with the root directory, whose fixed-size region sits
    /// between the allocation table and the data region.
    pub fn new(data: Vec<u8>) -> (r: Result<(VFF, Directory), VFFError>)
        ensures
            match r {
                Ok((vff, root)) => spec_vff_new(data@) == Ok::<(VffV, Seq<u8>), ErrV>(
                    (vff@, root@.data),
                ) && root@.path == Seq::<char>::empty() && vff.parsed_fat1.fattype
                    == SupportedFAT::FAT16,
                Err(e) => spec_vff_new(data@) == Err::<(VffV, Seq<u8>), ErrV>(e@),
            },
    {
        if data.len() < 16 {
            return Err(VFFError::IOErr("failed to fill whole buffer".to_owned()));
        }
        let header_bytes: [u8; 16] = [
            data[0],
            data[1],
            data[2],
            data[3],
            data[4],
            data[5],
            data[6],
            data[7],
            data[8],
            data[9],
            data[10],
            data[11],
            data[12],
            data[13],
            data[14],
            data[15],
        ];
        proof {
            assert(header_bytes@ =~= data@.take(16));
        }
        let header = match check_header(header_bytes) {
            Ok(h) => h,
            Err(e) => return Err(e),
        };
        let table_region: &[u8] = if data.len() >= 0x20 {
            slice_subrange(data.as_slice(), 0x20, data.len())
        } else {
            slice_subrange(data.as_slice(), 0, 0)
        };
        proof {
            if data@.len() >= 0x20 {
                assert(table_region@ =~= data@.skip(0x20));
            } else {
                assert(table_region@ =~= Seq::<u8>::empty());
            }
        }
        let parsed_fat1 = match FAT::new(table_region, &header) {
            Ok(f) => f,
            Err(e) => return Err(e),
        };
        proof {
            let raw = crate::header::spec_raw_cluster_size(data@.take(16));
            let cc = header.cluster_count as int;
            let cs = header.cluster_size as int;
            assert(cs == raw * 16);
            let a = cc * 2 + cs - 1;
            let q = a / cs;
            lemma_fundamental_div_mod(a, cs);
            lemma_mod_bound(a, cs);
            let buf = spec_fat_buf_size(cc, cs);
            assert(buf == q * cs);
            assert(q * cs == cs * q) by (nonlinear_arith);
            assert(buf <= a);
            assert(buf == 2 * (8 * (q * raw))) by (nonlinear_arith)
                requires
                    buf == q * cs,
                    cs == raw * 16,
            ;
            assert(parsed_fat1.clusters@.len() == buf / 2);
            assert(2 * parsed_fat1.clusters@.len() == buf);
        }
        let buf_size: usize = 2 * parsed_fat1.clusters.len();
        let root_start: usize = 0x20 + buf_size;
        if data.len() < root_start || data.len() - root_start < 0x1000 {
            return Err(VFFError::IOErr("failed to fill whole buffer".to_owned()));
        }
        let root_data = slice_to_vec(slice_subrange(data.as_slice(), root_start, root_start + 0x1000));
        let data_offset: u64 = (root_start + 0x1000) as u64;
        let root = match Directory::new(root_data, String::new()) {
            Ok(d) => d,
            Err(e) => {
                proof {
                    assert(false);
                }
                return Err(e);
            },
        };
        Ok((VFF { data, header, parsed_fat1, data_offset }, root))
    }

    /// Reads one cluster's bytes out of the data region; clusters are
    /// numbered from 2, and a region past the end of the backing bytes is
    /// the same error a short read would be.
    pub fn read_cluster(&self, cluster_num: u32) -> (r: Result<Vec<u8>, VFFError>)
        ensures
            match r {
                Ok(b) => spec_read_cluster(self@, cluster_num) == Ok::<Seq<u8>, ErrV>(b@),
                Err(e) => spec_read_cluster(self@, cluster_num) == Err::<Seq<u8>, ErrV>(e@),
            },
    {
        if cluster_num < 2 {
            return Err(
                VFFError::InvalidData {
                    context: "read_cluster".to_owned(),
                    expected: "Cluster numbers start at 2".to_owned(),
                    found: dec_digits_string(cluster_num as u64),
                },
            );
        }
        let cs = self.header.cluster_size as u64;
        let cn: u64 = (cluster_num - 2) as u64;
        proof {
            assert(cs * cn <= 0xffff * 0xffffffffu64) by (nonlinear_arith)
                requires
                    cs <= 0xffff,
                    cn <= 0xffffffffu64,
            ;
        }
        let prod: u64 = cs * cn;
        let dlen: u64 = self.data.len() as u64;
        if self.data_offset > u64::MAX - prod {
            proof {
                assert(self@.data.len() <= u64::MAX);
            }
            return Err(VFFError::IOErr("failed to fill whole buffer".to_owned()));
        }
        let off: u64 = self.data_offset + prod;
        if off > dlen || cs > dlen - off {
            return Err(VFFError::IOErr("failed to fill whole buffer".to_owned()));
        }
        let start: usize = off as usize;
        let end: usize = start + self.header.cluster_size as usize;
        let out = slice_to_vec(slice_subrange(self.data.as_slice(), start, end));
        proof {
            assert(out@ =~= self@.data.subrange(
                self@.data_offset + self@.header.cluster_size * (cluster_num - 2),
                self@.data_offset + self@.header.cluster_size * (cluster_num - 2)
                    + self@.header.cluster_size,
            ));
        }
        Ok(out)
    }

    /// Reads the whole chain from `start`: resolves it through the
    /// allocation table, then concatenates each cluster's bytes in chain
    /// order. The result stays cluster-aligned; trimming to a logical size
    /// is the caller's business.
    pub fn read_chain(&self, start: u32) -> (r: Result<Vec<u8>, VFFError>)
        ensures
            match r {
                Ok(b) => spec_read_chain(self@, start) == Ok::<Seq<u8>, ErrV>(b@),
                Err(e) => spec_read_chain(self@, start) == Err::<Seq<u8>, ErrV>(e@),
            },
    {
        let clusters = match self.parsed_fat1.get_chain(start) {
            Ok(c) => c,
            Err(e) => return Err(e),
        };
        let mut ret: Vec<u8> = Vec::new();
        let mut i: usize = 0;
        proof {
            match spec_concat_clusters(self@, clusters@) {
                Ok(rest) => {
                    assert(ret@ + rest =~= rest);
                    assert(clusters@.skip(0) =~= clusters@);
                },
                Err(_) => {
                    assert(clusters@.skip(0) =~= clusters@);
                },
            }
        }
        while i < clusters.len()
            invariant
                i <= clusters@.len(),
                spec_walk(self@.clusters, start, spec_chain_fuel(self@.clusters))
                    == WalkResult::Chain(clusters@),
                match spec_concat_clusters(self@, clusters@.skip(i as int)) {
                    Ok(rest) => spec_concat_clusters(self@, clusters@) == Ok::<Seq<u8>, ErrV>(
                        ret@ + rest,
                    ),
                    Err(e) => spec_concat_clusters(self@, clusters@) == Err::<Seq<u8>, ErrV>(e),
                },
            decreases clusters@.len() - i,
        {
            let ghost suffix = clusters@.skip(i as int);
            proof {
                assert(suffix[0] == clusters@[i as int]);
                assert(suffix.skip(1) =~= clusters@.skip(i as int + 1));
            }
            let mut part = match self.read_cluster(clusters[i]) {
                Ok(b) => b,
                Err(e) => return Err(e),
            };
            let ghost prev = ret@;
            let ghost partv = part@;
            ret.append(&mut part);
            proof {
                match spec_concat_clusters(self@, clusters@.skip(i as int + 1)) {
                    Ok(rest) => {
                        assert(ret@ + rest =~= prev + (partv + rest));
                    },
                    Err(_) => {},
                }
            }
            i = i + 1;
        }
        proof {
            assert(clusters@.skip(clusters@.len() as int) =~= Seq::<u32>::empty());
            assert(ret@ + Seq::<u8>::empty() =~= ret@);
        }
        Ok(ret)
    }
}

} // verus!
