//! TLS record framing.
//!
//! A record on the wire is a five byte header followed by a payload: one byte
//! of content type, two bytes of protocol version, two bytes of payload length
//! in big-endian order, then exactly that many payload bytes. Framing accepts
//! every content type and every version value; the only way for a buffer not
//! to start with a record is to be too short for the record it announces.

use vstd::prelude::*;
use vstd::slice::slice_subrange;
use vstd::slice::slice_to_vec;

verus! {

/// Content type (1), protocol version (2) and payload length (2).
pub const HEADER_SIZE: usize = 5;

/// The largest payload that the two length bytes of a header can announce.
pub const MAX_PAYLOAD: usize = 0xffff;

/// The payload length announced by the header at the front of `bytes`.
pub open spec fn announced_len(bytes: Seq<u8>) -> nat
    recommends
        bytes.len() >= HEADER_SIZE,
{
    (bytes[3] as nat) * 256 + (bytes[4] as nat)
}

/// Header and payload length of the record at the front of `bytes`.
pub open spec fn record_len(bytes: Seq<u8>) -> nat
    recommends
        bytes.len() >= HEADER_SIZE,
{
    HEADER_SIZE as nat + announced_len(bytes)
}

/// `bytes` begins with one complete record, possibly followed by more bytes.
pub open spec fn starts_with_record(bytes: Seq<u8>) -> bool {
    bytes.len() >= HEADER_SIZE && bytes.len() >= record_len(bytes)
}

/// `bytes` is one complete record and nothing else.
pub open spec fn is_record(bytes: Seq<u8>) -> bool {
    bytes.len() >= HEADER_SIZE && bytes.len() == record_len(bytes)
}

/// The complete records at the front of `bytes`, in wire order. Framing stops
/// at the first position where no complete record starts.
pub open spec fn records(bytes: Seq<u8>) -> Seq<Seq<u8>>
    decreases bytes.len(),
{
    if starts_with_record(bytes) {
        seq![bytes.take(record_len(bytes) as int)] + records(bytes.skip(record_len(bytes) as int))
    } else {
        Seq::empty()
    }
}

/// How many bytes of `bytes` the records at its front cover.
pub open spec fn framed_len(bytes: Seq<u8>) -> nat
    decreases bytes.len(),
{
    if starts_with_record(bytes) {
        record_len(bytes) + framed_len(bytes.skip(record_len(bytes) as int))
    } else {
        0
    }
}

/// One TLS record, taken apart into the fields of its header and its payload.
pub struct Record {
    typ: u8,
    version: u16,
    payload: Vec<u8>,
}

impl Record {
    /// The payload fits the length field of a record header.
    #[verifier::type_invariant]
    pub closed spec fn well_formed(self) -> bool {
        self.payload@.len() <= MAX_PAYLOAD
    }

    /// The content type byte.
    pub closed spec fn spec_typ(self) -> u8 {
        self.typ
    }

    /// The protocol version, the first version byte being the high one.
    pub closed spec fn spec_version(self) -> u16 {
        self.version
    }

    /// The payload bytes.
    pub closed spec fn spec_payload(self) -> Seq<u8> {
        self.payload@
    }

    /// The wire form of a record with the given header fields and payload.
    pub open spec fn wire(typ: u8, version: u16, payload: Seq<u8>) -> Seq<u8> {
        seq![
            typ,
            (version / 256) as u8,
            (version % 256) as u8,
            (payload.len() / 256) as u8,
            (payload.len() % 256) as u8,
        ] + payload
    }

    /// The wire form of this record.
    pub open spec fn encoding(self) -> Seq<u8> {
        Self::wire(self.spec_typ(), self.spec_version(), self.spec_payload())
    }

    /// Builds a record from its parts. A payload that the length field cannot
    /// announce is refused.
    pub fn new(typ: u8, version: u16, payload: Vec<u8>) -> (r: Option<Record>)
        ensures
            r is Some <==> payload@.len() <= MAX_PAYLOAD,
            r matches Some(rec) ==> {
                &&& rec.spec_typ() == typ
                &&& rec.spec_version() == version
                &&& rec.spec_payload() == payload@
            },
    {
        if payload.len() <= MAX_PAYLOAD {
            Some(Record { typ, version, payload })
        } else {
            None
        }
    }

    /// The content type byte.
    pub fn typ(&self) -> (t: u8)
        ensures
            t == self.spec_typ(),
    {
        self.typ
    }

    /// The protocol version.
    pub fn version(&self) -> (v: u16)
        ensures
            v == self.spec_version(),
    {
        self.version
    }

    /// The payload bytes.
    pub fn payload(&self) -> (p: &Vec<u8>)
        ensures
            p@ == self.spec_payload(),
    {
        &self.payload
    }

    /// Reads the record that starts at `bytes[start]`, if a complete one does.
    /// Behind the end of `bytes` none does.
    pub fn read(bytes: &[u8], start: usize) -> (r: Option<Record>)
        ensures
            r is Some <==> start <= bytes@.len() && starts_with_record(bytes@.skip(start as int)),
            r matches Some(rec) ==> {
                &&& rec.spec_typ() == bytes@[start as int]
                &&& rec.spec_version() == bytes@[start + 1] * 256 + bytes@[start + 2]
                &&& rec.spec_payload() == bytes@.subrange(
                    start + HEADER_SIZE,
                    start + record_len(bytes@.skip(start as int)),
                )
                &&& rec.encoding() == bytes@.skip(start as int).take(
                    record_len(bytes@.skip(start as int)) as int,
                )
            },
    {
        if start > bytes.len() {
            return None;
        }
        let ghost rest = bytes@.skip(start as int);
        let available = bytes.len() - start;
        if available < HEADER_SIZE {
            return None;
        }
        let typ = bytes[start];
        let hi = bytes[start + 1];
        let lo = bytes[start + 2];
        let len_hi = bytes[start + 3];
        let len_lo = bytes[start + 4];
        let version: u16 = (hi as u16) * 256 + (lo as u16);
        let len: usize = (len_hi as usize) * 256 + (len_lo as usize);
        assert(len == announced_len(rest));
        if available - HEADER_SIZE < len {
            return None;
        }
        let payload = slice_to_vec(
            slice_subrange(bytes, start + HEADER_SIZE, start + HEADER_SIZE + len),
        );
        let rec = Record { typ, version, payload };
        proof {
            assert(version / 256 == hi && version % 256 == lo);
            assert(len / 256 == len_hi && len % 256 == len_lo);
            assert(rec.encoding() =~= rest.take(record_len(rest) as int));
        }
        Some(rec)
    }

    /// Appends the wire form of this record to `bytes`.
    pub fn encode(&self, bytes: &mut Vec<u8>)
        ensures
            final(bytes)@ == old(bytes)@ + self.encoding(),
    {
        proof {
            use_type_invariant(self);
        }
        let len = self.payload.len();
        bytes.push(self.typ);
        bytes.push((self.version / 256) as u8);
        bytes.push((self.version % 256) as u8);
        bytes.push((len / 256) as u8);
        bytes.push((len % 256) as u8);
        bytes.extend_from_slice(self.payload.as_slice());
        assert(bytes@ =~= old(bytes)@ + self.encoding());
    }
}

/// The wire forms of `frames`, in order.
pub open spec fn encodings(frames: Seq<Record>) -> Seq<Seq<u8>> {
    Seq::new(frames.len(), |i: int| frames[i].encoding())
}

/// Splits `bytes` into the complete records at its front. The second result is
/// the number of bytes that those records cover; what lies behind it is no
/// complete record.
pub fn frame_records(bytes: &[u8]) -> (r: (Vec<Record>, usize))
    ensures
        encodings(r.0@) == records(bytes@),
        r.1 == framed_len(bytes@),
        r.1 <= bytes@.len(),
        !starts_with_record(bytes@.skip(r.1 as int)),
{
    let mut frames: Vec<Record> = Vec::new();
    let mut pos: usize = 0;
    let total = bytes.len();
    proof {
        assert(bytes@.skip(0) =~= bytes@);
        assert(encodings(frames@) + records(bytes@) =~= records(bytes@));
    }
    loop
        invariant
            total == bytes@.len(),
            pos <= total,
            records(bytes@) == encodings(frames@) + records(bytes@.skip(pos as int)),
            framed_len(bytes@) == pos + framed_len(bytes@.skip(pos as int)),
        ensures
            pos <= bytes@.len(),
            records(bytes@) == encodings(frames@),
            framed_len(bytes@) == pos,
            !starts_with_record(bytes@.skip(pos as int)),
        decreases bytes@.len() - pos,
    {
        let ghost rest = bytes@.skip(pos as int);
        match Record::read(bytes, pos) {
            Some(rec) => {
                let ghost before = frames@;
                proof {
                    use_type_invariant(&rec);
                    assert(rest.skip(record_len(rest) as int) =~= bytes@.skip(
                        pos + record_len(rest),
                    ));
                }
                assert(HEADER_SIZE + rec.payload@.len() == record_len(rest));
                assert(record_len(rest) <= rest.len() == bytes@.len() - pos);
                let step = HEADER_SIZE + rec.payload.len();
                frames.push(rec);
                pos = pos + step;
                assert(encodings(frames@) =~= encodings(before) + seq![rec.encoding()]);
            },
            None => {
                assert(encodings(frames@) + Seq::<Seq<u8>>::empty() =~= encodings(frames@));
                break ;
            },
        }
    }
    (frames, pos)
}

/// Appends the wire forms of `frames[from..]` to `bytes`, in order. Where
/// `from` lies behind the last frame, nothing is appended.
pub fn encode_all(frames: &Vec<Record>, from: usize, bytes: &mut Vec<u8>)
    ensures
        from <= frames@.len() ==> final(bytes)@ == old(bytes)@ + encodings(frames@).skip(
            from as int,
        ).flatten(),
        from > frames@.len() ==> final(bytes)@ == old(bytes)@,
{
    if from > frames.len() {
        return ;
    }
    let ghost all = encodings(frames@);
    let mut i: usize = from;
    assert(all.subrange(from as int, i as int).flatten() =~= Seq::<u8>::empty());
    while i < frames.len()
        invariant
            from <= i <= frames@.len(),
            all == encodings(frames@),
            bytes@ == old(bytes)@ + all.subrange(from as int, i as int).flatten(),
        decreases frames@.len() - i,
    {
        frames[i].encode(bytes);
        proof {
            let done = all.subrange(from as int, i as int);
            assert(all.subrange(from as int, i + 1) =~= done.push(all[i as int]));
            done.lemma_flatten_push(all[i as int]);
            assert(old(bytes)@ + done.flatten() + all[i as int] =~= old(bytes)@ + (done.flatten()
                + all[i as int]));
        }
        i = i + 1;
    }
    assert(all.subrange(from as int, i as int) =~= all.skip(from as int));
}

/// When `bytes` starts with a record, the records behind the first one are
/// the records of what follows it.
pub proof fn lemma_records_unfold(bytes: Seq<u8>)
    requires
        starts_with_record(bytes),
    ensures
        records(bytes).len() > 0,
        records(bytes)[0] == bytes.take(record_len(bytes) as int),
        records(bytes).skip(1) == records(bytes.skip(record_len(bytes) as int)),
{
    let first = seq![bytes.take(record_len(bytes) as int)];
    let others = records(bytes.skip(record_len(bytes) as int));
    assert((first + others).skip(1) =~= others);
}

/// Framing yields records only: every element of `records(bytes)` is one
/// complete record.
pub proof fn lemma_records_are_records(bytes: Seq<u8>, i: int)
    requires
        0 <= i < records(bytes).len(),
    ensures
        is_record(records(bytes)[i]),
    decreases bytes.len(),
{
    lemma_records_unfold(bytes);
    if i > 0 {
        let rest = bytes.skip(record_len(bytes) as int);
        lemma_records_are_records(rest, i - 1);
        assert(records(bytes)[i] == records(bytes).skip(1)[i - 1]);
    }
}

/// The records at the front of `bytes`, put together again, are the first
/// `framed_len(bytes)` bytes of `bytes`: framing neither changes nor reorders
/// a byte.
pub proof fn lemma_records_cover_prefix(bytes: Seq<u8>)
    ensures
        framed_len(bytes) <= bytes.len(),
        records(bytes).flatten() == bytes.take(framed_len(bytes) as int),
    decreases bytes.len(),
{
    if starts_with_record(bytes) {
        let n = record_len(bytes) as int;
        let rest = bytes.skip(n);
        lemma_records_unfold(bytes);
        lemma_records_cover_prefix(rest);
        assert(records(bytes).drop_first() =~= records(bytes).skip(1));
        assert(bytes.take(n) + rest.take(framed_len(rest) as int) =~= bytes.take(
            n + framed_len(rest),
        ));
    } else {
        assert(bytes.take(0) =~= Seq::<u8>::empty());
    }
}

/// A buffer that starts with the complete record `first` frames into `first`
/// followed by the records of the rest.
pub proof fn lemma_records_of_join(first: Seq<u8>, rest: Seq<u8>)
    requires
        is_record(first),
    ensures
        starts_with_record(first + rest),
        record_len(first + rest) == first.len(),
        records(first + rest) == seq![first] + records(rest),
{
    let all = first + rest;
    assert(all[3] == first[3] && all[4] == first[4]);
    assert(all.take(first.len() as int) =~= first);
    assert(all.skip(first.len() as int) =~= rest);
}

/// A concatenation of complete records frames back into exactly those
/// records, with no byte left over.
pub proof fn lemma_records_of_flatten(parts: Seq<Seq<u8>>)
    requires
        forall|i: int| 0 <= i < parts.len() ==> is_record(#[trigger] parts[i]),
    ensures
        records(parts.flatten()) == parts,
        framed_len(parts.flatten()) == parts.flatten().len(),
    decreases parts.len(),
{
    if parts.len() == 0 {
        assert(parts.flatten() =~= Seq::<u8>::empty());
        assert(records(parts.flatten()) =~= parts);
    } else {
        let first = parts.first();
        let others = parts.drop_first();
        assert forall|i: int| 0 <= i < others.len() implies is_record(#[trigger] others[i]) by {
            assert(others[i] == parts[i + 1]);
        }
        lemma_records_of_flatten(others);
        lemma_records_of_join(first, others.flatten());
        assert(seq![first] + others =~= parts);
        assert((first + others.flatten()).skip(first.len() as int) =~= others.flatten());
    }
}

} // verus!
