//! The cluster-allocation table: decoding it from its on-disk bytes,
//! classifying its sixteen-bit link values, and walking a link chain from a
//! start cluster to its end-of-chain marker.
use crate::codec::{spec_u16_le, u16_le};
use crate::header::VFFHeader;
use crate::numfmt::{dec_digits_string, hex04_string, spec_dec_digits, spec_hex04};
use crate::{ErrV, VFFError};
use vstd::arithmetic::div_mod::{lemma_fundamental_div_mod, lemma_mod_bound};
use vstd::prelude::*;
use vstd::string::StringExecFns;

verus! {

/// The table layouts this decoder understands. FAT12 and FAT32 cluster
/// counts are rejected outright.
#[derive(Debug, PartialEq, Eq, Structural)]
#[non_exhaustive]
pub enum SupportedFAT {
    FAT16,
}

impl SupportedFAT {
    /// The value from which link values stop denoting in-use clusters.
    pub fn get_reserved_marker(&self) -> (r: u32)
        ensures
            r == 0xfff0,
    {
        match self {
            Self::FAT16 => 0xfff0,
        }
    }

    /// A cluster number reduced to the table's addressable width.
    pub fn mask(&self, input: u32) -> (r: usize)
        ensures
            r == (input & 0xffff) as usize,
    {
        match self {
            Self::FAT16 => (input & 0xffff) as usize,
        }
    }
}

/// A free link value.
pub open spec fn spec_available(x: u32) -> bool {
    x == 0
}

/// A link value denoting an in-use cluster.
pub open spec fn spec_used(x: u32) -> bool {
    1 <= x < 0xfff0
}

/// The link value marking a bad cluster.
pub open spec fn spec_bad(x: u32) -> bool {
    x == 0xfff0 + 7
}

/// A link value marking the end of a chain.
pub open spec fn spec_last(x: u32) -> bool {
    x >= 0xfff0 + 8
}

/// The byte size of the on-disk table: the raw entry bytes rounded up to the
/// next multiple of the cluster size.
pub open spec fn spec_fat_buf_size(cluster_count: int, cluster_size: int) -> int {
    ((cluster_count * 2 + cluster_size - 1) / cluster_size) * cluster_size
}

/// The first `n` little-endian sixteen-bit entries of `data`.
pub open spec fn spec_fat_entries(data: Seq<u8>, n: int) -> Seq<u16> {
    Seq::new(n as nat, |i: int| spec_u16_le(data[2 * i], data[2 * i + 1]) as u16)
}

/// What decoding the allocation table from `data` yields, given the header's
/// cluster count and cluster size: the table entries, or the error for an
/// unsupported layout or for table bytes that run short.
pub open spec fn spec_fat_new(data: Seq<u8>, cluster_count: int, cluster_size: int) -> Result<
    Seq<u16>,
    ErrV,
> {
    if cluster_count > 0xfff5 {
        Err(ErrV::Other("FAT 32 is not supported"@))
    } else if cluster_count <= 0xff5 {
        Err(ErrV::Other("FAT12 is not supported"@))
    } else {
        let buf = spec_fat_buf_size(cluster_count, cluster_size);
        if data.len() < buf {
            Err(ErrV::IOErr("failed to fill whole buffer"@))
        } else {
            Ok(spec_fat_entries(data, buf / 2))
        }
    }
}

/// The message of the error for a table lookup past the end of the entries.
pub open spec fn spec_oob_msg(index: int, len: int) -> Seq<char> {
    "Cluster data wasn't long enough to index that far. Asked for: "@ + spec_dec_digits(
        index as nat,
    ) + " Cluster len: "@ + spec_dec_digits(len as nat)
}

/// The error for a table lookup past the end of the entries.
pub open spec fn spec_oob_err(index: int, len: int) -> ErrV {
    ErrV::InvalidData {
        context: "get_cluster FAT16"@,
        expected: "Indexing into the cluster data at a valid location"@,
        found: spec_oob_msg(index, len),
    }
}

/// The decoded cluster-allocation table.
#[derive(Debug)]
pub struct FAT {
    pub fattype: SupportedFAT,
    pub clusters: Vec<u16>,
}

fn oob_error(index: usize, len: usize) -> (r: VFFError)
    ensures
        r@ == spec_oob_err(index as int, len as int),
{
    let mut found = "Cluster data wasn't long enough to index that far. Asked for: ".to_owned();
    let d0 = dec_digits_string(index as u64);
    found.append(d0.as_str());
    found.append(" Cluster len: ");
    let d1 = dec_digits_string(len as u64);
    found.append(d1.as_str());
    proof {
        assert(found@ =~= spec_oob_msg(index as int, len as int));
    }
    VFFError::InvalidData {
        context: "get_cluster FAT16".to_owned(),
        expected: "Indexing into the cluster data at a valid location".to_owned(),
        found,
    }
}

impl FAT {
    /// Decodes the allocation table from the byte region that follows the
    /// header, after checking that the cluster count falls in the sixteen-bit
    /// range this decoder supports.
    pub fn new(data: &[u8], header: &VFFHeader) -> (r: Result<FAT, VFFError>)
        requires
            header.cluster_size > 0,
        ensures
            match r {
                Ok(f) => f.fattype == SupportedFAT::FAT16 && spec_fat_new(
                    data@,
                    header.cluster_count as int,
                    header.cluster_size as int,
                ) == Ok::<Seq<u16>, ErrV>(f.clusters@),
                Err(e) => spec_fat_new(
                    data@,
                    header.cluster_count as int,
                    header.cluster_size as int,
                ) == Err::<Seq<u16>, ErrV>(e@),
            },
    {
        let cluster_count = header.cluster_count;
        let cluster_size = header.cluster_size as u32;
        if cluster_count > 0xfff5 {
            return Err(VFFError::Other("FAT 32 is not supported".to_owned()));
        }
        if cluster_count <= 0xff5 {
            return Err(VFFError::Other("FAT12 is not supported".to_owned()));
        }
        let fatsize: u32 = cluster_count * 2;
        proof {
            let a = (fatsize + cluster_size - 1) as int;
            let cs = cluster_size as int;
            lemma_fundamental_div_mod(a, cs);
            lemma_mod_bound(a, cs);
            assert((a / cs) * cs == cs * (a / cs)) by (nonlinear_arith);
            assert((a / cs) * cs <= a);
        }
        let buf_size: u32 = ((fatsize + cluster_size - 1) / cluster_size) * cluster_size;
        if data.len() < buf_size as usize {
            return Err(VFFError::IOErr("failed to fill whole buffer".to_owned()));
        }
        let n: usize = (buf_size / 2) as usize;
        let mut clusters: Vec<u16> = Vec::new();
        let mut i: usize = 0;
        while i < n
            invariant
                i <= n,
                2 * n <= buf_size <= data@.len(),
                clusters@ =~= spec_fat_entries(data@, i as int),
            decreases n - i,
        {
            clusters.push(u16_le(data[2 * i], data[2 * i + 1]));
            i = i + 1;
            proof {
                assert(clusters@ =~= spec_fat_entries(data@, i as int));
            }
        }
        Ok(FAT { fattype: SupportedFAT::FAT16, clusters })
    }

    /// Looks a cluster index up in a sixteen-bit table; an index past the end
    /// of the entries is a malformed-data error naming the index and the
    /// table length.
    fn get_fat16(&self, index: usize) -> (r: Result<u32, VFFError>)
        ensures
            match r {
                Ok(v) => index < self.clusters@.len() && v == self.clusters@[index as int] as u32,
                Err(e) => index >= self.clusters@.len() && e@ == spec_oob_err(
                    index as int,
                    self.clusters@.len() as int,
                ),
            },
    {
        match self.fattype {
            SupportedFAT::FAT16 => {},
        }
        if index < self.clusters.len() {
            Ok(self.clusters[index] as u32)
        } else {
            Err(oob_error(index, self.clusters.len()))
        }
    }

    /// Looks a cluster number up, first reduced to the table's addressable
    /// width.
    pub fn get_cluster(&self, index: u32) -> (r: Result<u32, VFFError>)
        ensures
            match r {
                Ok(v) => (index & 0xffff) < self.clusters@.len() && v == self.clusters@[(index
                    & 0xffff) as int] as u32,
                Err(e) => (index & 0xffff) >= self.clusters@.len() && e@ == spec_oob_err(
                    (index & 0xffff) as int,
                    self.clusters@.len() as int,
                ),
            },
    {
        let index = self.fattype.mask(index);
        match self.fattype {
            SupportedFAT::FAT16 => self.get_fat16(index),
        }
    }

    /// Whether a link value is free.
    pub fn is_available(x: u32) -> (r: bool)
        ensures
            r == spec_available(x),
    {
        x == 0
    }

    /// Whether a link value denotes an in-use cluster.
    pub fn is_used(&self, x: u32) -> (r: bool)
        ensures
            r == spec_used(x),
    {
        let reserved = self.fattype.get_reserved_marker();
        0x1 <= x && x < reserved
    }

    /// Whether a link value marks a bad cluster.
    pub fn is_bad(&self, x: u32) -> (r: bool)
        ensures
            r == spec_bad(x),
    {
        x == self.fattype.get_reserved_marker() + 7
    }

    /// Whether a link value marks the end of a chain.
    pub fn is_last(&self, x: u32) -> (r: bool)
        ensures
            r == spec_last(x),
    {
        self.fattype.get_reserved_marker() + 8 <= x
    }
}

/// The outcome of walking the link chain from one cluster value: the chain
/// of in-use clusters ending before an end-of-chain marker; the non-used,
/// non-terminal value that corrupts the chain; an in-use value whose table
/// entry is out of range; or a walk still running when its step budget is
/// spent, which only a revisited cluster can cause.
pub enum WalkResult {
    Chain(Seq<u32>),
    BadEnd(u32),
    NoEntry(u32),
    Exhausted,
}

/// The chain walk itself: follow table links while the current value is
/// in-use, spending one unit of fuel per step.
pub open spec fn spec_walk(t: Seq<u16>, cur: u32, fuel: nat) -> WalkResult
    decreases fuel,
{
    if !spec_used(cur) {
        if spec_last(cur) {
            WalkResult::Chain(seq![])
        } else {
            WalkResult::BadEnd(cur)
        }
    } else if fuel == 0 {
        WalkResult::Exhausted
    } else {
        let idx = (cur & 0xffff) as int;
        if idx >= t.len() {
            WalkResult::NoEntry(cur)
        } else {
            match spec_walk(t, t[idx] as u32, (fuel - 1) as nat) {
                WalkResult::Chain(c) => WalkResult::Chain(seq![cur] + c),
                r => r,
            }
        }
    }
}

/// The step budget the walk runs under: one step per table entry suffices
/// for every chain that does not revisit a cluster.
pub open spec fn spec_chain_fuel(t: Seq<u16>) -> nat {
    t.len()
}

/// `w` with `prefix` prepended to a successful chain, other outcomes
/// unchanged.
pub open spec fn spec_prepend(prefix: Seq<u32>, w: WalkResult) -> WalkResult {
    match w {
        WalkResult::Chain(c) => WalkResult::Chain(prefix + c),
        r => r,
    }
}

proof fn lemma_prepend_assoc(a: Seq<u32>, b: Seq<u32>, w: WalkResult)
    ensures
        spec_prepend(a, spec_prepend(b, w)) == spec_prepend(a + b, w),
{
    match w {
        WalkResult::Chain(c) => {
            assert(a + (b + c) =~= (a + b) + c);
        },
        _ => {},
    }
}

/// The message of the chain-corruption error, naming the offending value.
pub open spec fn spec_bad_end_msg(v: u32) -> Seq<char> {
    "False, the cluster reads: "@ + spec_hex04(v as nat)
}

/// The chain-corruption error for a walk that ends at `v`.
pub open spec fn spec_bad_end_err(v: u32) -> ErrV {
    ErrV::InvalidData {
        context: "FAT chain parsing"@,
        expected: "The first unused cluster in the chain should satisfy is_last"@,
        found: spec_bad_end_msg(v),
    }
}

/// The error for a walk that spends its whole step budget, which only a
/// chain revisiting a cluster can cause.
pub open spec fn spec_exhausted_err() -> ErrV {
    ErrV::InvalidData {
        context: "FAT chain parsing"@,
        expected: "The chain should reach an unused cluster without revisiting one"@,
        found: "The walk exceeded the cluster table length"@,
    }
}

impl FAT {
    /// Walks the link chain from `start`: collects in-use cluster values in
    /// order until the first non-used value, which must be an end-of-chain
    /// marker. A non-terminal end, an out-of-range table entry, and a walk
    /// that outruns the table length (a revisited cluster) are each errors.
    pub fn get_chain(&self, start: u32) -> (r: Result<Vec<u32>, VFFError>)
        ensures
            ({
                let w = spec_walk(self.clusters@, start, spec_chain_fuel(self.clusters@));
                match r {
                    Ok(chain) => w == WalkResult::Chain(chain@),
                    Err(e) => match w {
                        WalkResult::Chain(_) => false,
                        WalkResult::BadEnd(v) => e@ == spec_bad_end_err(v),
                        WalkResult::NoEntry(v) => e@ == spec_oob_err(
                            (v & 0xffff) as int,
                            self.clusters@.len() as int,
                        ),
                        WalkResult::Exhausted => e@ == spec_exhausted_err(),
                    },
                }
            }),
    {
        let ghost t = self.clusters@;
        let mut chain: Vec<u32> = Vec::new();
        let mut current = start;
        let mut fuel: usize = self.clusters.len();
        proof {
            match spec_walk(t, start, spec_chain_fuel(t)) {
                WalkResult::Chain(c) => {
                    assert(chain@ + c =~= c);
                },
                _ => {},
            }
        }
        loop
            invariant
                t == self.clusters@,
                fuel <= spec_chain_fuel(t),
                spec_prepend(chain@, spec_walk(t, current, fuel as nat)) == spec_walk(
                    t,
                    start,
                    spec_chain_fuel(t),
                ),
            decreases fuel,
        {
            if !self.is_used(current) {
                if self.is_last(current) {
                    proof {
                        assert(chain@ + Seq::<u32>::empty() =~= chain@);
                    }
                    return Ok(chain);
                } else {
                    let mut found = "False, the cluster reads: ".to_owned();
                    let h = hex04_string(current);
                    found.append(h.as_str());
                    proof {
                        assert(found@ =~= spec_bad_end_msg(current));
                    }
                    return Err(
                        VFFError::InvalidData {
                            context: "FAT chain parsing".to_owned(),
                            expected:
                                "The first unused cluster in the chain should satisfy is_last".to_owned(),
                            found,
                        },
                    );
                }
            }
            if fuel == 0 {
                return Err(
                    VFFError::InvalidData {
                        context: "FAT chain parsing".to_owned(),
                        expected:
                            "The chain should reach an unused cluster without revisiting one".to_owned(),
                        found: "The walk exceeded the cluster table length".to_owned(),
                    },
                );
            }
            let idx = self.fattype.mask(current);
            if idx >= self.clusters.len() {
                return Err(oob_error(idx, self.clusters.len()));
            }
            let next = self.clusters[idx] as u32;
            let ghost prev = chain@;
            chain.push(current);
            proof {
                let inner = spec_walk(t, next, (fuel - 1) as nat);
                assert(spec_walk(t, current, fuel as nat) == spec_prepend(seq![current], inner));
                lemma_prepend_assoc(prev, seq![current], inner);
                assert(chain@ =~= prev + seq![current]);
            }
            current = next;
            fuel = fuel - 1;
        }
    }
}

/// The first non-used value a walk reaches, if it reaches one within its
/// step budget.
pub open spec fn spec_walk_end(t: Seq<u16>, cur: u32, fuel: nat) -> Option<u32>
    decreases fuel,
{
    if !spec_used(cur) {
        Some(cur)
    } else if fuel == 0 {
        None
    } else {
        let idx = (cur & 0xffff) as int;
        if idx >= t.len() {
            None
        } else {
            spec_walk_end(t, t[idx] as u32, (fuel - 1) as nat)
        }
    }
}

/// A walk succeeds exactly when the first non-used value its chain reaches
/// is an end-of-chain marker, at or above 0xfff8; reaching any lower
/// non-used value first is the chain-corruption outcome.
pub proof fn lemma_chain_termination(t: Seq<u16>, start: u32, fuel: nat)
    ensures
        (spec_walk(t, start, fuel) matches WalkResult::Chain(c)) <==> (spec_walk_end(t, start, fuel)
            matches Some(v) && spec_last(v)),
        spec_walk(t, start, fuel) matches WalkResult::BadEnd(v) ==> spec_walk_end(t, start, fuel)
            == Some(v) && !spec_used(v) && !spec_last(v),
        spec_walk_end(t, start, fuel) matches Some(v) ==> (!spec_last(v) ==> spec_walk(
            t,
            start,
            fuel,
        ) == WalkResult::BadEnd(v)),
    decreases fuel,
{
    if spec_used(start) && fuel > 0 {
        let idx = (start & 0xffff) as int;
        if idx < t.len() {
            lemma_chain_termination(t, t[idx] as u32, (fuel - 1) as nat);
        }
    }
}

/// The four link classes are pairwise disjoint, and cover every sixteen-bit
/// value outside the reserved band 0xfff0 through 0xfff6.
pub proof fn lemma_classification_partition(x: u32)
    requires
        x < 0x10000,
    ensures
        spec_available(x) ==> !spec_used(x) && !spec_bad(x) && !spec_last(x),
        spec_used(x) ==> !spec_available(x) && !spec_bad(x) && !spec_last(x),
        spec_bad(x) ==> !spec_available(x) && !spec_used(x) && !spec_last(x),
        spec_last(x) ==> !spec_available(x) && !spec_used(x) && !spec_bad(x),
        !(0xfff0 <= x <= 0xfff6) ==> (spec_available(x) || spec_used(x) || spec_bad(x)
            || spec_last(x)),
{
}

} // verus!
