//! Record bodies: one decoder per record type, and the dispatch between them.
use crate::capfail::{capfail_rel, CapFail};
use crate::error::{bad_bytes, bytes_desc, dec, decimal, is_bad_value, utf8_string, Error};
use crate::header::RecordType;
use crate::reader::{
    field, find_nul, first_nul, lemma_first_nul, native_u32, read_i32, read_u16, read_u32, read_u64, uint_be,
    uint_le, Endian,
};
use vstd::prelude::*;
use vstd::string::StringExecFns;
use vstd::utf8::{decode_utf8, valid_utf8};

verus! {

broadcast use vstd::slice::group_slice_axioms;

/// A decoded record body.
#[derive(Clone, Debug)]
pub enum Record {
    /// At least one record was dropped.
    Drop,
    /// System call.
    SystemCall { number: u16, args: Vec<u64> },
    /// Return from a system call.
    SystemCallReturn { code: u16, eosys: u16, error: u32, retval: u64 },
    /// Path name looked up.
    Namei(String),
    /// Generic process I/O.
    GenericIO { fd: i32, rw: IODir, data: Vec<u8> },
    /// Processed signal.
    Signal { signo: i32, handler: SignalHandler, code: i32, mask: Vec<u32> },
    /// Context switch.
    ContextSwitch { out: bool, user: bool, message: String },
    /// Data coming from userland.
    UserData(Vec<u8>),
    /// Miscellaneous structure: its name, then its content from the NUL on.
    Struct { name: String, content: Vec<u8> },
    /// Name of a sysctl MIB.
    Sysctl(String),
    /// Process creation.
    ProcessCreation { flags: u32 },
    /// Process destruction.
    ProcessDestruction,
    /// Capability check failure.
    CapabilityFailure(CapFail),
    /// Page fault.
    PageFault { virtual_address: u64, fault_type: u32 },
    /// End of a page fault.
    PageFaultEnd { result: u32 },
}

/// Directions that I/O can take place in.
#[derive(Clone, Copy, Debug, PartialEq, Eq, Structural)]
pub enum IODir {
    Read,
    Write,
}

/// A signal handler, held as the bit pattern of its address; it is shown,
/// never followed.
#[derive(Clone, Copy, Debug, PartialEq, Eq, Structural)]
pub struct SignalHandler {
    pub address: u64,
}

/// The `width`-byte fields of `d` from offset `at` on, one per element of `v`.
pub open spec fn words(order: Endian, d: Seq<u8>, at: int, width: int, v: Seq<nat>) -> bool {
    forall|i: int| 0 <= i < v.len() ==> #[trigger] v[i] == field(order, d, at + width * i, width)
}

/// `r` is an error that `BadValue` describes with `expected` and the bytes `d`.
pub open spec fn bad_bytes_rel(r: Result<Record, Error>, expected: Seq<char>, d: Seq<u8>) -> bool {
    r matches Err(e) && is_bad_value(e, expected, bytes_desc(d))
}

/// `r` is the text `d`, or a UTF-8 error where `d` is not valid UTF-8.
pub open spec fn text_rel(d: Seq<u8>, r: Result<String, Error>) -> bool {
    if valid_utf8(d) {
        r matches Ok(s) && s@ == decode_utf8(d)
    } else {
        r matches Err(Error::UTF8(_))
    }
}

/// A system call: code, argument count, padding, then one 8-byte word per
/// argument, with nothing after them.
pub open spec fn syscall_rel(order: Endian, d: Seq<u8>, r: Result<Record, Error>) -> bool {
    let n = field(order, d, 2, 2);
    if d.len() < 4 {
        bad_bytes_rel(r, "2*u16"@, d)
    } else if d.len() != 8 + 8 * n {
        bad_bytes_rel(
            r,
            dec(n) + " 8B arguments"@,
            d.subrange(if d.len() < 8 { d.len() as int } else { 8 }, d.len() as int),
        )
    } else {
        &&& r matches Ok(Record::SystemCall { number, args })
        &&& number == field(order, d, 0, 2)
        &&& args@.len() == n
        &&& words(order, d, 8, 8, args@.map_values(|a: u64| a as nat))
    }
}

/// A system-call return: exactly code, eosys, error and return value.
pub open spec fn sysret_rel(order: Endian, d: Seq<u8>, r: Result<Record, Error>) -> bool {
    if d.len() != 16 {
        bad_bytes_rel(r, "16 B"@, d)
    } else {
        &&& r matches Ok(Record::SystemCallReturn { code, eosys, error, retval })
        &&& code == field(order, d, 0, 2)
        &&& eosys == field(order, d, 2, 2)
        &&& error == field(order, d, 4, 4)
        &&& retval == field(order, d, 8, 8)
    }
}

/// Generic I/O: descriptor, direction (0 read, 1 write), then the data.
pub open spec fn genio_rel(order: Endian, d: Seq<u8>, r: Result<Record, Error>) -> bool {
    let dir = field(order, d, 4, 4);
    if d.len() < 8 {
        bad_bytes_rel(r, "2*int"@, d)
    } else if dir > 1 {
        r matches Err(e) && is_bad_value(e, "uio_rw"@, dec(dir))
    } else {
        &&& r matches Ok(Record::GenericIO { fd, rw, data })
        &&& fd == field(order, d, 0, 4) as u32 as i32
        &&& rw == (if dir == 0 { IODir::Read } else { IODir::Write })
        &&& data@ == d.subrange(8, d.len() as int)
    }
}

/// A signal: number, padding, handler address, code, then the mask words.
pub open spec fn signal_rel(order: Endian, d: Seq<u8>, r: Result<Record, Error>) -> bool {
    if d.len() < 20 {
        bad_bytes_rel(r, "2*int + sig_t + sigset_t + padding"@, d)
    } else if (d.len() - 20) % 4 != 0 {
        bad_bytes_rel(r, "sigset_t as whole u32 words"@, d)
    } else {
        &&& r matches Ok(Record::Signal { signo, handler, code, mask })
        &&& signo == field(order, d, 0, 4) as u32 as i32
        &&& handler.address == field(order, d, 8, 8)
        &&& code == field(order, d, 16, 4) as u32 as i32
        &&& mask@.len() == (d.len() - 20) / 4
        &&& words(order, d, 20, 4, mask@.map_values(|m: u32| m as nat))
    }
}

/// A context switch: two flag words, then a message.
pub open spec fn csw_rel(order: Endian, d: Seq<u8>, r: Result<Record, Error>) -> bool {
    let text = d.subrange(8, d.len() as int);
    if d.len() < 8 {
        bad_bytes_rel(r, "2*int"@, d)
    } else if !valid_utf8(text) {
        r matches Err(Error::UTF8(_))
    } else {
        &&& r matches Ok(Record::ContextSwitch { out, user, message })
        &&& out == (field(order, d, 0, 4) != 0)
        &&& user == (field(order, d, 4, 4) != 0)
        &&& message@ == decode_utf8(text)
    }
}

/// A structure: its name up to the first NUL, then the content from the NUL on.
pub open spec fn struct_rel(d: Seq<u8>, r: Result<Record, Error>) -> bool {
    let k = first_nul(d) as int;
    if k == d.len() {
        r matches Err(Error::Message(m)) && m@ == "no NUL byte in struct name"@
    } else if !valid_utf8(d.take(k)) {
        r matches Err(Error::UTF8(_))
    } else {
        &&& r matches Ok(Record::Struct { name, content })
        &&& name@ == decode_utf8(d.take(k))
        &&& content@ == d.skip(k)
    }
}

/// A path name (`Namei`), or a sysctl MIB name, which may not be empty.
pub open spec fn named_text_rel(d: Seq<u8>, r: Result<Record, Error>, sysctl: bool) -> bool {
    if sysctl && d.len() == 0 {
        r matches Err(e) && is_bad_value(e, "sysctl MIB"@, "empty string"@)
    } else if !valid_utf8(d) {
        r matches Err(Error::UTF8(_))
    } else if sysctl {
        r matches Ok(Record::Sysctl(s)) && s@ == decode_utf8(d)
    } else {
        r matches Ok(Record::Namei(s)) && s@ == decode_utf8(d)
    }
}

/// The flags of a process-creation record are in the machine's own byte
/// order, whatever the order of the session.
pub open spec fn proc_ctor_rel(d: Seq<u8>, r: Result<Record, Error>) -> bool {
    if d.len() != 4 {
        bad_bytes_rel(r, "u32"@, d)
    } else {
        r matches Ok(Record::ProcessCreation { flags }) && (flags == uint_le(d) || flags
            == uint_be(d))
    }
}

/// A process destruction, which has no body.
pub open spec fn proc_dtor_rel(d: Seq<u8>, r: Result<Record, Error>) -> bool {
    if d.len() != 0 {
        bad_bytes_rel(r, "no data for process destruction"@, d)
    } else {
        r matches Ok(Record::ProcessDestruction)
    }
}

/// A capability failure, as `capfail_rel` describes it.
pub open spec fn cap_rel(order: Endian, d: Seq<u8>, r: Result<Record, Error>) -> bool {
    match r {
        Ok(Record::CapabilityFailure(c)) => capfail_rel(order, d, Ok(c)),
        Ok(_) => false,
        Err(e) => capfail_rel(order, d, Err(e)),
    }
}

/// A page fault: address, then fault type.
pub open spec fn fault_rel(order: Endian, d: Seq<u8>, r: Result<Record, Error>) -> bool {
    if d.len() < 12 {
        bad_bytes_rel(r, "vm_offset_t + int"@, d)
    } else {
        &&& r matches Ok(Record::PageFault { virtual_address, fault_type })
        &&& virtual_address == field(order, d, 0, 8)
        &&& fault_type == field(order, d, 8, 4)
    }
}

/// The end of a page fault: its result.
pub open spec fn fault_end_rel(order: Endian, d: Seq<u8>, r: Result<Record, Error>) -> bool {
    if d.len() != 4 {
        bad_bytes_rel(r, "int"@, d)
    } else {
        r matches Ok(Record::PageFaultEnd { result }) && result == field(order, d, 0, 4)
    }
}

/// `r` is what decoding body `d` of a record of type `t` gives.
pub open spec fn record_rel(order: Endian, t: RecordType, d: Seq<u8>, r: Result<Record, Error>) -> bool {
    match t {
        RecordType::SystemCall => syscall_rel(order, d, r),
        RecordType::SystemCallReturn => sysret_rel(order, d, r),
        RecordType::Namei => named_text_rel(d, r, false),
        RecordType::GenericIO => genio_rel(order, d, r),
        RecordType::Signal => signal_rel(order, d, r),
        RecordType::ContextSwitch => csw_rel(order, d, r),
        RecordType::UserData => r matches Ok(Record::UserData(v)) && v@ == d,
        RecordType::Struct => struct_rel(d, r),
        RecordType::Sysctl => named_text_rel(d, r, true),
        RecordType::ProcessCreation => proc_ctor_rel(d, r),
        RecordType::ProcessDestruction => proc_dtor_rel(d, r),
        RecordType::CapabilityFailure => cap_rel(order, d, r),
        RecordType::PageFault => fault_rel(order, d, r),
        RecordType::PageFaultEnd => fault_end_rel(order, d, r),
    }
}

/// Decodes `d` as UTF-8 text.
fn text(d: &[u8]) -> (r: Result<String, Error>)
    ensures
        text_rel(d@, r),
{
    match utf8_string(vstd::slice::slice_to_vec(d)) {
        Ok(s) => Ok(s),
        Err(e) => Err(Error::UTF8(e)),
    }
}

fn parse_syscall(order: Endian, data: &[u8]) -> (r: Result<Record, Error>)
    ensures
        syscall_rel(order, data@, r),
{
    let len = data.len();
    if len < 4 {
        return Err(bad_bytes("2*u16", data));
    }
    let number = read_u16(order, data, 0);
    let n = read_u16(order, data, 2) as usize;
    if len != 8 + 8 * n {
        // The arguments start after padding.
        let start: usize = if len < 8 {
            len
        } else {
            8
        };
        let mut expected = decimal(n as u64);
        expected.append(" 8B arguments");
        let rest = vstd::slice::slice_subrange(data, start, len);
        return Err(Error::bad_value(expected, crate::error::describe_bytes(rest)));
    }
    let mut args: Vec<u64> = Vec::new();
    let mut i: usize = 0;
    while i < n
        invariant
            len == data@.len(),
            len == 8 + 8 * n,
            i <= n,
            args@.len() == i,
            forall|j: int| 0 <= j < i ==> #[trigger] args@[j] == field(order, data@, 8 + 8 * j, 8),
        decreases n - i,
    {
        args.push(read_u64(order, data, 8 + 8 * i));
        i = i + 1;
    }
    let ghost v = args@.map_values(|a: u64| a as nat);
    assert(words(order, data@, 8, 8, v));
    Ok(Record::SystemCall { number, args })
}

fn parse_signal(order: Endian, data: &[u8]) -> (r: Result<Record, Error>)
    ensures
        signal_rel(order, data@, r),
{
    let len = data.len();
    if len < 20 {
        return Err(bad_bytes("2*int + sig_t + sigset_t + padding", data));
    }
    if (len - 20) % 4 != 0 {
        return Err(bad_bytes("sigset_t as whole u32 words", data));
    }
    let n = (len - 20) / 4;
    let mut mask: Vec<u32> = Vec::new();
    let mut i: usize = 0;
    while i < n
        invariant
            len == data@.len(),
            len == 20 + 4 * n,
            i <= n,
            mask@.len() == i,
            forall|j: int| 0 <= j < i ==> #[trigger] mask@[j] == field(order, data@, 20 + 4 * j, 4),
        decreases n - i,
    {
        mask.push(read_u32(order, data, 20 + 4 * i));
        i = i + 1;
    }
    let ghost v = mask@.map_values(|m: u32| m as nat);
    assert(words(order, data@, 20, 4, v));
    Ok(
        Record::Signal {
            signo: read_i32(order, data, 0),
            handler: SignalHandler { address: read_u64(order, data, 8) },
            code: read_i32(order, data, 16),
            mask,
        },
    )
}

fn parse_struct(data: &[u8]) -> (r: Result<Record, Error>)
    ensures
        struct_rel(data@, r),
{
    let len = data.len();
    let nul = find_nul(data);
    if nul == len {
        return Err(Error::msg(String::from_str("no NUL byte in struct name")));
    }
    let name = match text(vstd::slice::slice_subrange(data, 0, nul)) {
        Ok(s) => s,
        Err(e) => return Err(e),
    };
    // The content keeps the NUL that ends the name.
    let content = vstd::slice::slice_to_vec(vstd::slice::slice_subrange(data, nul, len));
    Ok(Record::Struct { name, content })
}

impl Record {
    /// Decodes the body `data` of a record of type `t`.
    pub fn parse(order: Endian, data: &[u8], t: &RecordType) -> (r: Result<Record, Error>)
        ensures
            record_rel(order, *t, data@, r),
    {
        let len = data.len();
        match t {
            RecordType::SystemCall => parse_syscall(order, data),
            RecordType::SystemCallReturn => {
                if len != 16 {
                    return Err(bad_bytes("16 B", data));
                }
                Ok(
                    Record::SystemCallReturn {
                        code: read_u16(order, data, 0),
                        eosys: read_u16(order, data, 2),
                        error: read_u32(order, data, 4),
                        retval: read_u64(order, data, 8),
                    },
                )
            },
            RecordType::Namei => match text(data) {
                Ok(s) => Ok(Record::Namei(s)),
                Err(e) => Err(e),
            },
            RecordType::GenericIO => {
                if len < 8 {
                    return Err(bad_bytes("2*int", data));
                }
                let fd = read_i32(order, data, 0);
                let dir = read_u32(order, data, 4);
                let rw = if dir == 0 {
                    IODir::Read
                } else if dir == 1 {
                    IODir::Write
                } else {
                    return Err(Error::bad_value(String::from_str("uio_rw"), decimal(dir as u64)));
                };
                let rest = vstd::slice::slice_to_vec(vstd::slice::slice_subrange(data, 8, len));
                Ok(Record::GenericIO { fd, rw, data: rest })
            },
            RecordType::Signal => parse_signal(order, data),
            RecordType::ContextSwitch => {
                if len < 8 {
                    return Err(bad_bytes("2*int", data));
                }
                let out = read_u32(order, data, 0) != 0;
                let user = read_u32(order, data, 4) != 0;
                match text(vstd::slice::slice_subrange(data, 8, len)) {
                    Ok(message) => Ok(Record::ContextSwitch { out, user, message }),
                    Err(e) => Err(e),
                }
            },
            RecordType::UserData => Ok(Record::UserData(vstd::slice::slice_to_vec(data))),
            RecordType::Struct => parse_struct(data),
            RecordType::Sysctl => {
                if len == 0 {
                    return Err(
                        Error::bad_value(
                            String::from_str("sysctl MIB"),
                            String::from_str("empty string"),
                        ),
                    );
                }
                match text(data) {
                    Ok(s) => Ok(Record::Sysctl(s)),
                    Err(e) => Err(e),
                }
            },
            RecordType::ProcessCreation => {
                if len != 4 {
                    return Err(bad_bytes("u32", data));
                }
                Ok(Record::ProcessCreation { flags: native_u32(data) })
            },
            RecordType::ProcessDestruction => {
                if len != 0 {
                    return Err(bad_bytes("no data for process destruction", data));
                }
                Ok(Record::ProcessDestruction)
            },
            RecordType::CapabilityFailure => match CapFail::parse(order, data) {
                Ok(c) => Ok(Record::CapabilityFailure(c)),
                Err(e) => Err(e),
            },
            RecordType::PageFault => {
                if len < 12 {
                    return Err(bad_bytes("vm_offset_t + int", data));
                }
                Ok(
                    Record::PageFault {
                        virtual_address: read_u64(order, data, 0),
                        fault_type: read_u32(order, data, 8),
                    },
                )
            },
            RecordType::PageFaultEnd => {
                if len != 4 {
                    return Err(bad_bytes("int", data));
                }
                Ok(Record::PageFaultEnd { result: read_u32(order, data, 0) })
            },
        }
    }
}

/// A system-call body of 8 bytes with no arguments decodes to an empty
/// argument list; with one argument the body must be 16 bytes long, and any
/// other length fails with a `BadValue` that expects one 8-byte argument.
pub proof fn lemma_syscall_arg_count(order: Endian, d: Seq<u8>, r: Result<Record, Error>)
    requires
        record_rel(order, RecordType::SystemCall, d, r),
        d.len() >= 4,
    ensures
        field(order, d, 2, 2) == 0 && d.len() == 8 ==> (r matches Ok(
            Record::SystemCall { args, .. },
        ) && args@.len() == 0),
        field(order, d, 2, 2) == 1 && d.len() == 16 ==> r is Ok,
        field(order, d, 2, 2) == 1 && d.len() != 16 ==> (r matches Err(
            Error::BadValue { expected, .. },
        ) && expected@ == "1 8B arguments"@),
{
    reveal_strlit("1 8B arguments");
    reveal_strlit(" 8B arguments");
    assert(dec(1) + " 8B arguments"@ =~= "1 8B arguments"@);
}

/// A generic I/O body whose direction word is 2 fails with a `BadValue` that
/// names `uio_rw`.
pub proof fn lemma_genio_bad_direction(order: Endian, d: Seq<u8>, r: Result<Record, Error>)
    requires
        record_rel(order, RecordType::GenericIO, d, r),
        d.len() >= 8,
        field(order, d, 4, 4) == 2,
    ensures
        r matches Err(Error::BadValue { expected, .. }) && expected@ == "uio_rw"@,
{
}

/// A struct body without a NUL byte fails with a `Message` error.
pub proof fn lemma_struct_without_nul(order: Endian, d: Seq<u8>, r: Result<Record, Error>)
    requires
        record_rel(order, RecordType::Struct, d, r),
        forall|i: int| 0 <= i < d.len() ==> d[i] != 0,
    ensures
        r matches Err(Error::Message(_)),
{
    lemma_first_nul(d, d.len() as int);
}

/// A struct body made of a name without NUL, a NUL, and more bytes decodes
/// to that name, with the NUL and the bytes after it as content.
pub proof fn lemma_struct_split(
    order: Endian,
    name: Seq<u8>,
    rest: Seq<u8>,
    r: Result<Record, Error>,
)
    requires
        forall|i: int| 0 <= i < name.len() ==> name[i] != 0,
        valid_utf8(name),
        record_rel(order, RecordType::Struct, name + seq![0u8] + rest, r),
    ensures
        r matches Ok(Record::Struct { name: n, content }) && n@ == decode_utf8(name)
            && content@ == seq![0u8] + rest,
{
    let d = name + seq![0u8] + rest;
    assert forall|i: int| 0 <= i < name.len() implies d[i] != 0 by {
        assert(d[i] == name[i]);
    }
    lemma_first_nul(d, name.len() as int);
    assert(d.take(name.len() as int) =~= name);
    assert(d.skip(name.len() as int) =~= seq![0u8] + rest);
}

/// A process-destruction record with any body byte fails with a `BadValue`.
pub proof fn lemma_destruction_nonempty(order: Endian, d: Seq<u8>, r: Result<Record, Error>)
    requires
        record_rel(order, RecordType::ProcessDestruction, d, r),
        d.len() > 0,
    ensures
        r matches Err(Error::BadValue { .. }),
{
}

/// A capability-failure body of kind `NotCapable` with 16 bytes of rights
/// after the kind and its padding splits into held and needed rights of one
/// 8-byte mask each.
pub proof fn lemma_not_capable_one_mask(order: Endian, d: Seq<u8>, r: Result<Record, Error>)
    requires
        record_rel(order, RecordType::CapabilityFailure, d, r),
        d.len() == 24,
        field(order, d, 0, 4) == 0,
    ensures
        r matches Ok(Record::CapabilityFailure(CapFail::NotCapable { needed, held }))
            && held.masks@.len() == 1 && needed.masks@.len() == 1 && held.version == 0
            && needed.version == 0,
{
}

} // verus!
