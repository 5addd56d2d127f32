use ktrace::capfail::CapabilityRights;
use ktrace::error::describe_bytes;
use ktrace::reader::{find_nul, read_i32, read_i64, read_u16, read_u32, read_u64};
use ktrace::{parse, CapFail, Endian, Error, Header, IODir, Record, RecordType};

fn le_header(length: u32, code: u16, pid: u32, command: &[u8], sec: i64, usec: i64, tid: u64) -> [u8; 56] {
    let mut b = [0u8; 56];
    b[0..4].copy_from_slice(&length.to_le_bytes());
    b[4..6].copy_from_slice(&code.to_le_bytes());
    b[8..12].copy_from_slice(&pid.to_le_bytes());
    b[12..12 + command.len()].copy_from_slice(command);
    b[32..40].copy_from_slice(&sec.to_le_bytes());
    b[40..48].copy_from_slice(&usec.to_le_bytes());
    b[48..56].copy_from_slice(&tid.to_le_bytes());
    b
}

fn body(t: RecordType, data: &[u8]) -> Result<Record, Error> {
    Record::parse(Endian::Little, data, &t)
}

fn expect_bad(r: Result<Record, Error>, want_expected: &str, want_got: &str) {
    match r {
        Err(Error::BadValue { expected, got }) => {
            assert_eq!(expected, want_expected);
            assert_eq!(got, want_got);
        }
        other => panic!("expected BadValue, got {:?}", other),
    }
}

#[test]
fn reads_fields_in_both_orders() {
    let d = [1u8, 2, 3, 4, 5, 6, 7, 8, 9];
    assert_eq!(read_u16(Endian::Little, &d, 0), 0x0201);
    assert_eq!(read_u16(Endian::Big, &d, 0), 0x0102);
    assert_eq!(read_u32(Endian::Little, &d, 1), 0x05040302);
    assert_eq!(read_u32(Endian::Big, &d, 1), 0x02030405);
    assert_eq!(read_u64(Endian::Little, &d, 1), 0x0908070605040302);
    assert_eq!(read_u64(Endian::Big, &d, 1), 0x0203040506070809);
    assert_eq!(read_i32(Endian::Little, &[0xff, 0xff, 0xff, 0xff], 0), -1);
    assert_eq!(read_i32(Endian::Big, &[0xff, 0xff, 0xff, 0xfe], 0), -2);
    assert_eq!(read_i64(Endian::Little, &[0xfe, 0xff, 0xff, 0xff, 0xff, 0xff, 0xff, 0xff], 0), -2);
}

#[test]
fn describes_bytes_with_a_bounded_preview() {
    assert_eq!(describe_bytes(&[]), "0 B: []");
    assert_eq!(describe_bytes(&[1, 22, 255]), "3 B: [1, 22, 255]");
    let long: Vec<u8> = (0..20).collect();
    assert_eq!(
        describe_bytes(&long),
        "20 B: [0, 1, 2, 3, 4, 5, 6, 7, 8, 9, 10, 11, 12, 13, 14, 15, ...]"
    );
}

#[test]
fn finds_the_first_nul() {
    assert_eq!(find_nul(b"ab\0c\0"), 2);
    assert_eq!(find_nul(b"abc"), 3);
    assert_eq!(find_nul(b""), 0);
}

#[test]
fn error_constructors() {
    match Error::bad_value("a".to_string(), "b".to_string()) {
        Error::BadValue { expected, got } => {
            assert_eq!(expected, "a");
            assert_eq!(got, "b");
        }
        other => panic!("{:?}", other),
    }
    match Error::msg("m".to_string()) {
        Error::Message(m) => assert_eq!(m, "m"),
        other => panic!("{:?}", other),
    }
}

#[test]
fn record_type_codes() {
    let all = [
        RecordType::SystemCall,
        RecordType::SystemCallReturn,
        RecordType::Namei,
        RecordType::GenericIO,
        RecordType::Signal,
        RecordType::ContextSwitch,
        RecordType::UserData,
        RecordType::Struct,
        RecordType::Sysctl,
        RecordType::ProcessCreation,
        RecordType::ProcessDestruction,
        RecordType::CapabilityFailure,
        RecordType::PageFault,
        RecordType::PageFaultEnd,
    ];
    for (i, t) in all.iter().enumerate() {
        assert_eq!(RecordType::from_u16(i as u16 + 1).unwrap(), *t);
    }
}

#[test]
fn unknown_type_codes_name_ktr_type() {
    for code in [0u16, 15] {
        match RecordType::from_u16(code) {
            Err(Error::BadValue { expected, got }) => {
                assert_eq!(expected, "ktr_type");
                assert_eq!(got, code.to_string());
            }
            other => panic!("{:?}", other),
        }
        let b = le_header(0, code, 1, b"sh", 0, 0, 0);
        match Header::parse(Endian::Little, &b) {
            Err(Error::BadValue { expected, .. }) => assert_eq!(expected, "ktr_type"),
            other => panic!("{:?}", other),
        }
    }
}

#[test]
fn header_fields_round_trip() {
    let b = le_header(16, 2, 4242, b"cat", 1_500_000_000, 123_456, 100_077);
    let h = Header::parse(Endian::Little, &b).unwrap();
    assert_eq!(h.length, 16);
    assert_eq!(h.record_type, RecordType::SystemCallReturn);
    assert_eq!(h.pid, 4242);
    assert_eq!(h.command, "cat");
    assert_eq!(h.timestamp.tv_sec, 1_500_000_000);
    assert_eq!(h.timestamp.tv_usec, 123_456);
    assert_eq!(h.tid, 100_077);
    let again = le_header(h.length as u32, 2, h.pid, h.command.as_bytes(), h.timestamp.tv_sec, h.timestamp.tv_usec, h.tid);
    assert_eq!(again, b);
}

#[test]
fn header_in_big_endian() {
    let mut b = [0u8; 56];
    b[0..4].copy_from_slice(&7u32.to_be_bytes());
    b[4..6].copy_from_slice(&3u16.to_be_bytes());
    b[8..12].copy_from_slice(&99u32.to_be_bytes());
    b[12..14].copy_from_slice(b"ls");
    b[48..56].copy_from_slice(&5u64.to_be_bytes());
    let h = Header::parse(Endian::Big, &b).unwrap();
    assert_eq!(h.length, 7);
    assert_eq!(h.record_type, RecordType::Namei);
    assert_eq!(h.pid, 99);
    assert_eq!(h.command, "ls");
    assert_eq!(h.tid, 5);
}

#[test]
fn header_command_fills_its_buffer() {
    let b = le_header(0, 7, 1, b"abcdefghijklmnopqrst", 0, 0, 0);
    let h = Header::parse(Endian::Little, &b).unwrap();
    assert_eq!(h.command, "abcdefghijklmnopqrst");
    let b = le_header(0, 7, 1, b"ab\0cd", 0, 0, 0);
    assert_eq!(Header::parse(Endian::Little, &b).unwrap().command, "ab");
}

#[test]
fn header_command_not_utf8() {
    let b = le_header(0, 7, 1, &[0x66, 0xff], 0, 0, 0);
    match Header::parse(Endian::Little, &b) {
        Err(Error::BadValue { expected, got }) => {
            assert_eq!(expected, "UTF-8 ktr_comm");
            assert_eq!(got, "2 B: [102, 255]");
        }
        other => panic!("{:?}", other),
    }
}

#[test]
fn syscall_without_arguments() {
    let d = [5u8, 0, 0, 0, 0, 0, 0, 0];
    match body(RecordType::SystemCall, &d).unwrap() {
        Record::SystemCall { number, args } => {
            assert_eq!(number, 5);
            assert!(args.is_empty());
        }
        other => panic!("{:?}", other),
    }
}

#[test]
fn syscall_with_one_argument() {
    let mut d = vec![5u8, 0, 1, 0, 0, 0, 0, 0];
    d.extend_from_slice(&0x1122334455667788u64.to_le_bytes());
    match body(RecordType::SystemCall, &d).unwrap() {
        Record::SystemCall { number, args } => {
            assert_eq!(number, 5);
            assert_eq!(args, vec![0x1122334455667788u64]);
        }
        other => panic!("{:?}", other),
    }
    expect_bad(
        body(RecordType::SystemCall, &d[..15]),
        "1 8B arguments",
        "7 B: [136, 119, 102, 85, 68, 51, 34]",
    );
}

#[test]
fn syscall_too_short() {
    expect_bad(body(RecordType::SystemCall, &[1, 2, 3]), "2*u16", "3 B: [1, 2, 3]");
    expect_bad(body(RecordType::SystemCall, &[1, 0, 0, 0, 0, 0]), "0 8B arguments", "0 B: []");
}

#[test]
fn syscall_return() {
    let mut d = vec![2u8, 0, 1, 0, 3, 0, 0, 0];
    d.extend_from_slice(&0xdeadu64.to_le_bytes());
    match body(RecordType::SystemCallReturn, &d).unwrap() {
        Record::SystemCallReturn { code, eosys, error, retval } => {
            assert_eq!((code, eosys, error, retval), (2, 1, 3, 0xdead));
        }
        other => panic!("{:?}", other),
    }
    expect_bad(body(RecordType::SystemCallReturn, &d[..4]), "16 B", "4 B: [2, 0, 1, 0]");
}

#[test]
fn namei_text() {
    match body(RecordType::Namei, b"/etc/passwd").unwrap() {
        Record::Namei(s) => assert_eq!(s, "/etc/passwd"),
        other => panic!("{:?}", other),
    }
    assert!(matches!(body(RecordType::Namei, &[0xc3]), Err(Error::UTF8(_))));
}

#[test]
fn generic_io() {
    let d = [3u8, 0, 0, 0, 1, 0, 0, 0, 9, 8];
    match body(RecordType::GenericIO, &d).unwrap() {
        Record::GenericIO { fd, rw, data } => {
            assert_eq!(fd, 3);
            assert_eq!(rw, IODir::Write);
            assert_eq!(data, vec![9, 8]);
        }
        other => panic!("{:?}", other),
    }
    let d = [0xffu8, 0xff, 0xff, 0xff, 0, 0, 0, 0];
    match body(RecordType::GenericIO, &d).unwrap() {
        Record::GenericIO { fd, rw, data } => {
            assert_eq!(fd, -1);
            assert_eq!(rw, IODir::Read);
            assert!(data.is_empty());
        }
        other => panic!("{:?}", other),
    }
}

#[test]
fn generic_io_bad_direction() {
    let d = [3u8, 0, 0, 0, 2, 0, 0, 0];
    expect_bad(body(RecordType::GenericIO, &d), "uio_rw", "2");
    expect_bad(body(RecordType::GenericIO, &d[..7]), "2*int", "7 B: [3, 0, 0, 0, 2, 0, 0]");
}

#[test]
fn signal_with_mask() {
    let mut d = vec![11u8, 0, 0, 0, 0, 0, 0, 0];
    d.extend_from_slice(&0x4000u64.to_le_bytes());
    d.extend_from_slice(&(-3i32).to_le_bytes());
    d.extend_from_slice(&7u32.to_le_bytes());
    d.extend_from_slice(&8u32.to_le_bytes());
    match body(RecordType::Signal, &d).unwrap() {
        Record::Signal { signo, handler, code, mask } => {
            assert_eq!(signo, 11);
            assert_eq!(handler.address, 0x4000);
            assert_eq!(code, -3);
            assert_eq!(mask, vec![7, 8]);
        }
        other => panic!("{:?}", other),
    }
    assert!(matches!(body(RecordType::Signal, &d[..19]), Err(Error::BadValue { .. })));
    assert!(matches!(body(RecordType::Signal, &d[..22]), Err(Error::BadValue { .. })));
}

#[test]
fn context_switch() {
    let mut d = vec![1u8, 0, 0, 0, 0, 0, 0, 0];
    d.extend_from_slice(b"sleep");
    match body(RecordType::ContextSwitch, &d).unwrap() {
        Record::ContextSwitch { out, user, message } => {
            assert!(out);
            assert!(!user);
            assert_eq!(message, "sleep");
        }
        other => panic!("{:?}", other),
    }
    expect_bad(body(RecordType::ContextSwitch, &d[..3]), "2*int", "3 B: [1, 0, 0]");
}

#[test]
fn user_data_is_kept() {
    match body(RecordType::UserData, &[1, 2, 0, 3]).unwrap() {
        Record::UserData(v) => assert_eq!(v, vec![1, 2, 0, 3]),
        other => panic!("{:?}", other),
    }
}

#[test]
fn struct_name_and_content() {
    match body(RecordType::Struct, b"foo\0bar").unwrap() {
        Record::Struct { name, content } => {
            assert_eq!(name, "foo");
            assert_eq!(content, b"\0bar".to_vec());
        }
        other => panic!("{:?}", other),
    }
    match body(RecordType::Struct, b"foobar") {
        Err(Error::Message(m)) => assert_eq!(m, "no NUL byte in struct name"),
        other => panic!("{:?}", other),
    }
}

#[test]
fn sysctl_name() {
    match body(RecordType::Sysctl, b"kern.ostype").unwrap() {
        Record::Sysctl(s) => assert_eq!(s, "kern.ostype"),
        other => panic!("{:?}", other),
    }
    expect_bad(body(RecordType::Sysctl, b""), "sysctl MIB", "empty string");
}

#[test]
fn process_creation_uses_machine_order() {
    let d = [1u8, 2, 3, 4];
    match Record::parse(Endian::Big, &d, &RecordType::ProcessCreation).unwrap() {
        Record::ProcessCreation { flags } => assert_eq!(flags, u32::from_ne_bytes(d)),
        other => panic!("{:?}", other),
    }
    expect_bad(body(RecordType::ProcessCreation, &d[..3]), "u32", "3 B: [1, 2, 3]");
}

#[test]
fn process_destruction_has_no_body() {
    assert!(matches!(body(RecordType::ProcessDestruction, &[]), Ok(Record::ProcessDestruction)));
    expect_bad(body(RecordType::ProcessDestruction, &[7]), "no data for process destruction", "1 B: [7]");
}

#[test]
fn capability_failure_not_capable() {
    let mut d = vec![0u8; 24];
    d[8] = 0b1000_0001;
    d[23] = 1;
    match body(RecordType::CapabilityFailure, &d).unwrap() {
        Record::CapabilityFailure(CapFail::NotCapable { needed, held }) => {
            assert_eq!(held.version, 0);
            assert_eq!(needed.version, 0);
            assert_eq!(held.masks.len(), 1);
            assert_eq!(needed.masks.len(), 1);
            assert_eq!(held.masks[0].len(), 64);
            assert_eq!(held.masks[0].get(0), Some(true));
            assert_eq!(held.masks[0].get(1), Some(false));
            assert_eq!(held.masks[0].get(7), Some(true));
            assert_eq!(needed.masks[0].get(63), Some(true));
            assert_eq!(needed.masks[0].get(62), Some(false));
        }
        other => panic!("{:?}", other),
    }
}

#[test]
fn capability_failure_kinds() {
    let mut d = vec![0u8; 20];
    for (k, want) in [(1u8, CapFail::Increase), (2, CapFail::Syscall), (3, CapFail::Lookup)] {
        d[0] = k;
        match body(RecordType::CapabilityFailure, &d).unwrap() {
            Record::CapabilityFailure(c) => {
                assert_eq!(std::mem::discriminant(&c), std::mem::discriminant(&want))
            }
            other => panic!("{:?}", other),
        }
    }
    d[0] = 4;
    expect_bad(body(RecordType::CapabilityFailure, &d), "ktr_cap_fail_type (integer 0-3)", "4");
    d[0] = 0;
    assert!(matches!(body(RecordType::CapabilityFailure, &d), Err(Error::BadValue { expected, .. }) if expected == "two cap_rights_t"));
    assert!(matches!(body(RecordType::CapabilityFailure, &d[..19]), Err(Error::BadValue { .. })));
}

#[test]
fn capability_rights_masks() {
    let r = CapabilityRights::parse(&[0xffu8; 16], 3).unwrap();
    assert_eq!(r.version, 3);
    assert_eq!(r.masks.len(), 2);
    assert!(r.masks[1].all());
    match CapabilityRights::parse(&[1u8; 7], 0) {
        Err(Error::BadValue { expected, got }) => {
            assert_eq!(expected, "cap_rights_t");
            assert_eq!(got, "7 B: [1, 1, 1, 1, 1, 1, 1]");
        }
        other => panic!("{:?}", other),
    }
}

#[test]
fn page_faults() {
    let mut d = 0x7000u64.to_le_bytes().to_vec();
    d.extend_from_slice(&2u32.to_le_bytes());
    match body(RecordType::PageFault, &d).unwrap() {
        Record::PageFault { virtual_address, fault_type } => {
            assert_eq!((virtual_address, fault_type), (0x7000, 2));
        }
        other => panic!("{:?}", other),
    }
    expect_bad(body(RecordType::PageFault, &d[..11]), "vm_offset_t + int", "11 B: [0, 112, 0, 0, 0, 0, 0, 0, 2, 0, 0]");
    match body(RecordType::PageFaultEnd, &[9, 0, 0, 0]).unwrap() {
        Record::PageFaultEnd { result } => assert_eq!(result, 9),
        other => panic!("{:?}", other),
    }
    expect_bad(body(RecordType::PageFaultEnd, &[9]), "int", "1 B: [9]");
}

fn sysret_stream() -> Vec<u8> {
    let mut s = le_header(16, 2, 10, b"sh", 1, 2, 3).to_vec();
    s.extend_from_slice(&[2, 0, 0, 0, 0, 0, 0, 0, 0, 0, 0, 0, 0, 0, 0, 0]);
    s
}

#[test]
fn stream_with_one_record() {
    let v = parse(Endian::Little, &sysret_stream()).unwrap();
    assert_eq!(v.len(), 1);
    assert_eq!(v[0].0.record_type, RecordType::SystemCallReturn);
    match &v[0].1 {
        Ok(Record::SystemCallReturn { code, eosys, error, retval }) => {
            assert_eq!((*code, *eosys, *error, *retval), (2, 0, 0, 0));
        }
        other => panic!("{:?}", other),
    }
}

#[test]
fn empty_stream() {
    assert!(parse(Endian::Little, &[]).unwrap().is_empty());
}

#[test]
fn stream_with_trailing_bytes() {
    let mut s = sysret_stream();
    s.extend_from_slice(&[0u8; 30]);
    match parse(Endian::Little, &s) {
        Err(Error::IO(e)) => assert_eq!(e.kind(), std::io::ErrorKind::UnexpectedEof),
        other => panic!("{:?}", other),
    }
}

#[test]
fn stream_with_short_body() {
    let s = sysret_stream();
    assert!(matches!(parse(Endian::Little, &s[..60]), Err(Error::IO(_))));
}

#[test]
fn stream_with_bad_header() {
    let mut s = sysret_stream();
    s.extend_from_slice(&le_header(0, 15, 1, b"x", 0, 0, 0));
    assert!(matches!(parse(Endian::Little, &s), Err(Error::BadValue { expected, .. }) if expected == "ktr_type"));
}

#[test]
fn stream_keeps_going_after_bad_body() {
    let mut s = le_header(1, 11, 1, b"x", 0, 0, 0).to_vec();
    s.push(5);
    s.extend_from_slice(&sysret_stream());
    s.extend_from_slice(&le_header(0, 11, 2, b"y", 0, 0, 0));
    let v = parse(Endian::Little, &s).unwrap();
    assert_eq!(v.len(), 3);
    assert!(matches!(v[0].1, Err(Error::BadValue { .. })));
    assert!(matches!(v[1].1, Ok(Record::SystemCallReturn { .. })));
    assert!(matches!(v[2].1, Ok(Record::ProcessDestruction)));
    assert_eq!(v[2].0.pid, 2);
    assert_eq!(v[2].0.command, "y");
}
