//! The fixed 56-byte record header and the record-type discriminant.
use crate::error::{bytes_desc, dec, describe_bytes, is_bad_value, utf8_string, Error};
use crate::reader::{
    field, find_nul, first_nul, lemma_uint_bytes, read_i64, read_u16, read_u32, read_u64,
    uint_bytes, Endian,
};
use vstd::prelude::*;
use vstd::string::StringExecFns;
use vstd::utf8::{decode_utf8, decode_utf8_encode_utf8, encode_utf8, valid_utf8};

verus! {

broadcast use {vstd::slice::group_slice_axioms, vstd::array::array_len_matches_n};

/// Size in bytes of a record header.
pub const HEADER_LEN: usize = 56;

/// Size of the command-name buffer of a header, its terminator included.
pub const COMMAND_LEN: usize = 20;

/// The time at which a record was written.
#[derive(Clone, Copy, Debug, PartialEq, Eq, Structural)]
pub struct TimeVal {
    pub tv_sec: i64,
    pub tv_usec: i64,
}

/// A decoded record header.
#[derive(Clone, Debug)]
pub struct Header {
    /// Size of the body that follows the header, in bytes.
    pub length: usize,
    pub record_type: RecordType,
    pub pid: u32,
    /// Name of the process, up to the first NUL of its buffer.
    pub command: String,
    pub timestamp: TimeVal,
    pub tid: u64,
}

/// Types of records that a header can describe.
#[derive(Clone, Copy, Debug, PartialEq, Eq, Structural)]
pub enum RecordType {
    SystemCall,
    SystemCallReturn,
    Namei,
    GenericIO,
    Signal,
    ContextSwitch,
    UserData,
    Struct,
    Sysctl,
    ProcessCreation,
    ProcessDestruction,
    CapabilityFailure,
    PageFault,
    PageFaultEnd,
}

/// The wire code of each record type.
pub open spec fn type_code(t: RecordType) -> nat {
    match t {
        RecordType::SystemCall => 1,
        RecordType::SystemCallReturn => 2,
        RecordType::Namei => 3,
        RecordType::GenericIO => 4,
        RecordType::Signal => 5,
        RecordType::ContextSwitch => 6,
        RecordType::UserData => 7,
        RecordType::Struct => 8,
        RecordType::Sysctl => 9,
        RecordType::ProcessCreation => 10,
        RecordType::ProcessDestruction => 11,
        RecordType::CapabilityFailure => 12,
        RecordType::PageFault => 13,
        RecordType::PageFaultEnd => 14,
    }
}

/// Codes that name a record type.
pub open spec fn is_type_code(code: nat) -> bool {
    1 <= code <= 14
}

impl RecordType {
    /// The record type with wire code `val`.
    pub fn from_u16(val: u16) -> (r: Result<RecordType, Error>)
        ensures
            is_type_code(val as nat) <==> r is Ok,
            match r {
                Ok(t) => type_code(t) == val,
                Err(e) => is_bad_value(e, "ktr_type"@, dec(val as nat)),
            },
    {
        match val {
            1 => Ok(RecordType::SystemCall),
            2 => Ok(RecordType::SystemCallReturn),
            3 => Ok(RecordType::Namei),
            4 => Ok(RecordType::GenericIO),
            5 => Ok(RecordType::Signal),
            6 => Ok(RecordType::ContextSwitch),
            7 => Ok(RecordType::UserData),
            8 => Ok(RecordType::Struct),
            9 => Ok(RecordType::Sysctl),
            10 => Ok(RecordType::ProcessCreation),
            11 => Ok(RecordType::ProcessDestruction),
            12 => Ok(RecordType::CapabilityFailure),
            13 => Ok(RecordType::PageFault),
            14 => Ok(RecordType::PageFaultEnd),
            _ => Err(Error::bad_value(String::from_str("ktr_type"), crate::error::decimal(val as u64))),
        }
    }
}

/// The type code of header bytes `b`.
pub open spec fn header_code(order: Endian, b: Seq<u8>) -> nat {
    field(order, b, 4, 2)
}

/// The command buffer of header bytes `b`.
pub open spec fn command_buffer(b: Seq<u8>) -> Seq<u8> {
    b.subrange(12, 12 + COMMAND_LEN)
}

/// The bytes of the command name: its buffer up to the first NUL.
pub open spec fn command_bytes(b: Seq<u8>) -> Seq<u8> {
    command_buffer(b).take(first_nul(command_buffer(b)) as int)
}

/// The fields of `h` are those that header bytes `b` hold.
pub open spec fn header_fields(order: Endian, b: Seq<u8>, h: Header) -> bool {
    &&& h.length == field(order, b, 0, 4)
    &&& type_code(h.record_type) == header_code(order, b)
    &&& h.pid == field(order, b, 8, 4)
    &&& h.command@ == decode_utf8(command_bytes(b))
    &&& h.timestamp.tv_sec == field(order, b, 32, 8) as u64 as i64
    &&& h.timestamp.tv_usec == field(order, b, 40, 8) as u64 as i64
    &&& h.tid == field(order, b, 48, 8)
}

/// `r` is what decoding header bytes `b` in byte order `order` gives: the
/// type code is checked first, then the command name.
pub open spec fn header_rel(order: Endian, b: Seq<u8>, r: Result<Header, Error>) -> bool {
    if !is_type_code(header_code(order, b)) {
        r matches Err(e) && is_bad_value(e, "ktr_type"@, dec(header_code(order, b)))
    } else if !valid_utf8(command_bytes(b)) {
        r matches Err(e) && is_bad_value(e, "UTF-8 ktr_comm"@, bytes_desc(command_bytes(b)))
    } else {
        r matches Ok(h) && header_fields(order, b, h)
    }
}

impl Header {
    /// Decodes a header from its 56 bytes.
    pub fn parse(order: Endian, buffer: &[u8; 56]) -> (r: Result<Header, Error>)
        ensures
            header_rel(order, buffer@, r),
    {
        let b = vstd::array::array_as_slice(buffer);
        let code = read_u16(order, b, 4);
        let record_type = match RecordType::from_u16(code) {
            Ok(t) => t,
            Err(e) => return Err(e),
        };
        let buf = vstd::slice::slice_subrange(b, 12, 12 + COMMAND_LEN);
        let n = find_nul(buf);
        let name = vstd::slice::slice_subrange(buf, 0, n);
        let command = match utf8_string(vstd::slice::slice_to_vec(name)) {
            Ok(s) => s,
            Err(_) => {
                return Err(Error::bad_value(String::from_str("UTF-8 ktr_comm"), describe_bytes(name)));
            },
        };
        Ok(Header {
            length: read_u32(order, b, 0) as usize,
            record_type,
            pid: read_u32(order, b, 8),
            command,
            timestamp: TimeVal { tv_sec: read_i64(order, b, 32), tv_usec: read_i64(order, b, 40) },
            tid: read_u64(order, b, 48),
        })
    }
}

/// Writing a decoded header's fields back in the session's byte order gives
/// the bytes they were read from: the body length, the type code, the process
/// and thread ids, and the command name, which comes back as the bytes of its
/// buffer up to the first NUL.
pub proof fn lemma_header_reencode(order: Endian, b: Seq<u8>, h: Header)
    requires
        b.len() == HEADER_LEN,
        header_rel(order, b, Ok(h)),
    ensures
        uint_bytes(order, h.length as nat, 4) == b.subrange(0, 4),
        uint_bytes(order, type_code(h.record_type), 2) == b.subrange(4, 6),
        uint_bytes(order, h.pid as nat, 4) == b.subrange(8, 12),
        uint_bytes(order, h.tid as nat, 8) == b.subrange(48, 56),
        encode_utf8(h.command@) == command_bytes(b),
        command_bytes(b) == command_buffer(b).take(command_bytes(b).len() as int),
        command_bytes(b).len() < COMMAND_LEN ==> command_buffer(b)[command_bytes(b).len() as int]
            == 0,
{
    lemma_uint_bytes(order, b.subrange(0, 4));
    lemma_uint_bytes(order, b.subrange(4, 6));
    lemma_uint_bytes(order, b.subrange(8, 12));
    lemma_uint_bytes(order, b.subrange(48, 56));
    decode_utf8_encode_utf8(command_bytes(b));
    lemma_first_nul_bound(command_buffer(b));
}

proof fn lemma_first_nul_bound(s: Seq<u8>)
    ensures
        first_nul(s) <= s.len(),
        first_nul(s) < s.len() ==> s[first_nul(s) as int] == 0,
    decreases s.len(),
{
    if s.len() > 0 && s[0] != 0 {
        lemma_first_nul_bound(s.drop_first());
    }
}

/// A header whose type code is 0 or 15 names no record type: decoding it
/// fails with a `BadValue` that names `ktr_type`.
pub proof fn lemma_unknown_type_code(order: Endian, b: Seq<u8>, r: Result<Header, Error>)
    requires
        header_rel(order, b, r),
        header_code(order, b) == 0 || header_code(order, b) == 15,
    ensures
        r matches Err(Error::BadValue { expected, .. }) && expected@ == "ktr_type"@,
{
}

} // verus!
