//! Fixed 32-byte directory records: decoding the little-endian field layout
//! into a structured entry and rendering its short name.
use crate::codec::{spec_u16_le, spec_u32_le, u16_le, u32_le};
use crate::strutil::{lossy_of, lossy_string, spec_trimmed, trim_trailing_spaces};
use crate::VFFError;
use vstd::prelude::*;
use vstd::string::StringExecFns;

verus! {

/// Attribute bit marking a directory.
pub const A_DIR: u8 = 16;

/// Spec-level mirror of a decoded directory record.
pub struct EntryV {
    pub name: Seq<u8>,
    pub ext: Seq<u8>,
    pub attr: u8,
    pub rsv: u8,
    pub cms: u8,
    pub ctime: u16,
    pub cdate: u16,
    pub adate: u16,
    pub eaindex: u16,
    pub mtime: u16,
    pub mdate: u16,
    pub start: u16,
    pub size: u32,
    pub deleted: bool,
}

/// A decoded directory record: an 8.3 short name, the attribute bitmask,
/// timestamps, the start cluster of the content chain, the byte size, and a
/// flag for entries whose slot carries the deleted marker.
#[derive(Debug)]
pub struct ParsedFATEntry {
    pub name: [u8; 8],
    pub ext: [u8; 3],
    pub attr: u8,
    pub rsv: u8,
    pub cms: u8,
    pub ctime: u16,
    pub cdate: u16,
    pub adate: u16,
    pub eaindex: u16,
    pub mtime: u16,
    pub mdate: u16,
    pub start: u16,
    pub size: u32,
    pub deleted: bool,
}

impl View for ParsedFATEntry {
    type V = EntryV;

    open spec fn view(&self) -> EntryV {
        EntryV {
            name: self.name@,
            ext: self.ext@,
            attr: self.attr,
            rsv: self.rsv,
            cms: self.cms,
            ctime: self.ctime,
            cdate: self.cdate,
            adate: self.adate,
            eaindex: self.eaindex,
            mtime: self.mtime,
            mdate: self.mdate,
            start: self.start,
            size: self.size,
            deleted: self.deleted,
        }
    }
}

/// The record decoded from one 32-byte region, little-endian, not yet
/// flagged deleted.
pub open spec fn spec_parse_entry(b: Seq<u8>) -> EntryV {
    EntryV {
        name: b.subrange(0, 8),
        ext: b.subrange(8, 11),
        attr: b[11],
        rsv: b[12],
        cms: b[13],
        ctime: spec_u16_le(b[14], b[15]) as u16,
        cdate: spec_u16_le(b[16], b[17]) as u16,
        adate: spec_u16_le(b[18], b[19]) as u16,
        eaindex: spec_u16_le(b[20], b[21]) as u16,
        mtime: spec_u16_le(b[22], b[23]) as u16,
        mdate: spec_u16_le(b[24], b[25]) as u16,
        start: spec_u16_le(b[26], b[27]) as u16,
        size: spec_u32_le(b[28], b[29], b[30], b[31]) as u32,
        deleted: false,
    }
}

/// The same record, flagged as a deleted entry.
pub open spec fn spec_mark_deleted(e: EntryV) -> EntryV {
    EntryV {
        name: e.name,
        ext: e.ext,
        attr: e.attr,
        rsv: e.rsv,
        cms: e.cms,
        ctime: e.ctime,
        cdate: e.cdate,
        adate: e.adate,
        eaindex: e.eaindex,
        mtime: e.mtime,
        mdate: e.mdate,
        start: e.start,
        size: e.size,
        deleted: true,
    }
}

/// The displayed form of a stored name field: trailing ASCII space padding
/// stripped, then decoded permissively.
pub open spec fn spec_nice_name(name: Seq<u8>) -> Seq<char> {
    lossy_of(spec_trimmed(name))
}

/// The full displayed name: the bare name for directory-attributed entries,
/// `name.extension` for everything else, even when the extension is empty.
pub open spec fn spec_nice_full_name(e: EntryV) -> Seq<char> {
    if e.attr & A_DIR != 0 {
        spec_nice_name(e.name)
    } else {
        spec_nice_name(e.name) + "."@ + spec_nice_name(e.ext)
    }
}

impl ParsedFATEntry {
    /// Decodes one fixed 32-byte record.
    pub fn from_slice(data: &[u8]) -> (r: Result<ParsedFATEntry, VFFError>)
        requires
            data@.len() == 32,
        ensures
            r matches Ok(e) && e@ == spec_parse_entry(data@),
    {
        let name: [u8; 8] = [data[0], data[1], data[2], data[3], data[4], data[5], data[6], data[7]];
        let ext: [u8; 3] = [data[8], data[9], data[10]];
        proof {
            assert(name@ =~= data@.subrange(0, 8));
            assert(ext@ =~= data@.subrange(8, 11));
        }
        Ok(
            ParsedFATEntry {
                name,
                ext,
                attr: data[11],
                rsv: data[12],
                cms: data[13],
                ctime: u16_le(data[14], data[15]),
                cdate: u16_le(data[16], data[17]),
                adate: u16_le(data[18], data[19]),
                eaindex: u16_le(data[20], data[21]),
                mtime: u16_le(data[22], data[23]),
                mdate: u16_le(data[24], data[25]),
                start: u16_le(data[26], data[27]),
                size: u32_le(data[28], data[29], data[30], data[31]),
                deleted: false,
            },
        )
    }

    /// The displayed short name, trailing space padding stripped.
    pub fn nice_name(&self) -> (r: String)
        ensures
            r@ == spec_nice_name(self.name@),
    {
        let trimmed = trim_trailing_spaces(self.name.as_slice());
        lossy_string(trimmed.as_slice())
    }

    /// The displayed extension, trailing space padding stripped.
    pub fn nice_extension(&self) -> (r: String)
        ensures
            r@ == spec_nice_name(self.ext@),
    {
        let trimmed = trim_trailing_spaces(self.ext.as_slice());
        lossy_string(trimmed.as_slice())
    }

    /// The full displayed name, a bare name for directories and
    /// `name.extension` otherwise.
    pub fn nice_full_name(&self) -> (r: String)
        ensures
            r@ == spec_nice_full_name(self@),
    {
        if self.attr & A_DIR != 0 {
            return self.nice_name();
        }
        let mut s = self.nice_name();
        s.append(".");
        let e = self.nice_extension();
        s.append(e.as_str());
        s
    }
}

} // verus!
