//! Decoding of binary kernel-trace logs: a stream of fixed-size record
//! headers, each followed by a type-tagged body.
use vstd::prelude::*;

pub mod capfail;
pub mod error;
pub mod header;
pub mod reader;
pub mod record;

pub use capfail::{CapFail, CapabilityRights};
pub use error::Error;
pub use header::{Header, RecordType, TimeVal};
pub use reader::Endian;
pub use record::{IODir, Record, SignalHandler};

use header::{command_bytes, header_code, header_rel, is_type_code, HEADER_LEN};
use reader::field;
use record::record_rel;
use vstd::utf8::valid_utf8;

verus! {

broadcast use vstd::slice::group_slice_axioms;

/// One framed record: its header and what its body decoded to.
pub type Entry = (Header, Result<Record, Error>);

/// Header bytes `b` decode to a header.
pub open spec fn header_ok(order: Endian, b: Seq<u8>) -> bool {
    is_type_code(header_code(order, b)) && valid_utf8(command_bytes(b))
}

/// The entries `p` followed by the outcome `r` of the rest of a stream.
pub open spec fn prepend(p: Seq<Entry>, r: Result<Seq<Entry>, Error>) -> Result<Seq<Entry>, Error> {
    match r {
        Ok(w) => Ok(p + w),
        Err(e) => Err(e),
    }
}

/// The outcome of a decode, with its entries as a sequence.
pub open spec fn outcome(r: Result<Vec<Entry>, Error>) -> Result<Seq<Entry>, Error> {
    match r {
        Ok(v) => Ok(v@),
        Err(e) => Err(e),
    }
}

/// `r` is what decoding the stream `d` gives. A stream that ends at a header
/// boundary decodes to its entries; one that ends inside a header or a body
/// fails with an I/O error, and one with a header that does not decode fails
/// with that header's error. A body that does not decode is kept as an entry
/// with its error.
pub open spec fn stream_rel(order: Endian, d: Seq<u8>, r: Result<Seq<Entry>, Error>) -> bool
    decreases d.len(),
{
    let hb = d.take(HEADER_LEN as int);
    let len = field(order, hb, 0, 4);
    if d.len() == 0 {
        r matches Ok(v) && v.len() == 0
    } else if d.len() < HEADER_LEN {
        r matches Err(Error::IO(_))
    } else if !header_ok(order, hb) {
        r matches Err(e) && header_rel(order, hb, Err(e))
    } else if d.len() - HEADER_LEN < len {
        r matches Err(Error::IO(_))
    } else {
        let rest = d.skip(HEADER_LEN + len);
        match r {
            Ok(v) => {
                &&& v.len() > 0
                &&& header_rel(order, hb, Ok(v[0].0))
                &&& record_rel(
                    order,
                    v[0].0.record_type,
                    d.subrange(HEADER_LEN as int, HEADER_LEN + len),
                    v[0].1,
                )
                &&& stream_rel(order, rest, Ok(v.drop_first()))
            },
            Err(e) => stream_rel(order, rest, Err(e)),
        }
    }
}

/// A stream of whole records followed by fewer bytes than a header fails
/// with an I/O error: the trailing bytes cannot be framed.
pub proof fn lemma_trailing_bytes(
    order: Endian,
    p: Seq<u8>,
    w: Seq<Entry>,
    t: Seq<u8>,
    r: Result<Seq<Entry>, Error>,
)
    requires
        stream_rel(order, p, Ok(w)),
        0 < t.len() < HEADER_LEN,
        stream_rel(order, p + t, r),
    ensures
        r matches Err(Error::IO(_)),
    decreases p.len(),
{
    let d = p + t;
    if p.len() == 0 {
        assert(d =~= t);
    } else {
        let hb = p.take(HEADER_LEN as int);
        let len = field(order, hb, 0, 4);
        assert(d.take(HEADER_LEN as int) =~= hb);
        let rest = p.skip(HEADER_LEN + len);
        assert(d.skip(HEADER_LEN + len) =~= rest + t);
        match r {
            Ok(v) => {
                lemma_trailing_bytes(order, rest, w.drop_first(), t, Ok(v.drop_first()));
            },
            Err(e) => {
                lemma_trailing_bytes(order, rest, w.drop_first(), t, Err(e));
            },
        }
    }
}

/// Decodes a whole trace held in `data`, in byte order `order`.
///
/// Records are decoded in stream order. A failure to frame a record (a
/// stream that ends inside a header or a body, or a header that does not
/// decode) ends the decode and is returned alone; a body that does not
/// decode is returned as an entry with its error, and decoding goes on.
pub fn parse(order: Endian, data: &[u8]) -> (r: Result<Vec<Entry>, Error>)
    ensures
        stream_rel(order, data@, outcome(r)),
{
    let len = data.len();
    let mut v: Vec<Entry> = Vec::new();
    let mut pos: usize = 0;
    assert(data@.skip(0) =~= data@);
    assert forall|r2: Result<Seq<Entry>, Error>|
        #[trigger] stream_rel(order, data@.skip(0), r2) implies stream_rel(
            order,
            data@,
            prepend(v@, r2),
        ) by {
        if let Ok(w) = r2 {
            assert(v@ + w =~= w);
        }
    }
    loop
        invariant
            len == data@.len(),
            pos <= len,
            forall|r2: Result<Seq<Entry>, Error>|
                #[trigger] stream_rel(order, data@.skip(pos as int), r2) ==> stream_rel(
                    order,
                    data@,
                    prepend(v@, r2),
                ),
        decreases len - pos,
    {
        let ghost d = data@.skip(pos as int);
        if pos == len {
            assert(stream_rel(order, d, Ok(Seq::<Entry>::empty())));
            assert(v@ + Seq::<Entry>::empty() =~= v@);
            return Ok(v);
        }
        if len - pos < HEADER_LEN {
            let r = Err(Error::IO(error::unexpected_eof()));
            assert(stream_rel(order, d, outcome(r)));
            return r;
        }
        let mut hb = [0u8; 56];
        let mut i: usize = 0;
        while i < HEADER_LEN
            invariant
                len == data@.len(),
                pos + HEADER_LEN <= len,
                i <= HEADER_LEN,
                forall|j: int| 0 <= j < i ==> hb@[j] == data@[pos + j],
            decreases HEADER_LEN - i,
        {
            hb.set(i, data[pos + i]);
            i = i + 1;
        }
        assert(hb@ =~= d.take(HEADER_LEN as int));
        let h = match Header::parse(order, &hb) {
            Ok(h) => h,
            Err(e) => {
                assert(stream_rel(order, d, Err(e)));
                return Err(e);
            },
        };
        let n = h.length;
        if len - pos - HEADER_LEN < n {
            let r = Err(Error::IO(error::unexpected_eof()));
            assert(stream_rel(order, d, outcome(r)));
            return r;
        }
        let start = pos + HEADER_LEN;
        let body = vstd::slice::slice_subrange(data, start, start + n);
        assert(body@ =~= d.subrange(HEADER_LEN as int, HEADER_LEN + n));
        let rec = Record::parse(order, body, &h.record_type);
        let ghost entry = (h, rec);
        let ghost old_v = v@;
        v.push((h, rec));
        let next = start + n;
        assert(data@.skip(next as int) =~= d.skip(HEADER_LEN + n));
        assert forall|r2: Result<Seq<Entry>, Error>|
            #[trigger] stream_rel(order, data@.skip(next as int), r2) implies stream_rel(
                order,
                data@,
                prepend(v@, r2),
            ) by {
            let r1 = prepend(seq![entry], r2);
            if let Ok(w) = r2 {
                assert((seq![entry] + w).drop_first() =~= w);
                assert(old_v + (seq![entry] + w) =~= v@ + w);
            }
            assert(stream_rel(order, d, r1));
        }
        pos = next;
    }
}

} // verus!
