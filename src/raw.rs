use vstd::prelude::*;

use crate::source::ByteSource;
use crate::util::{be_u32, bytes_as_be_u32};

verus! {

/// The eight bytes every PNG stream starts with.
pub type SignatureTypePrimitive = [u8; 8];

/// A four-letter chunk type tag.
pub type ChunkTypePrimitive = [u8; 4];

/// The fixed PNG signature.
pub open spec fn png_signature() -> Seq<u8> {
    seq![0x89u8, 0x50u8, 0x4Eu8, 0x47u8, 0x0Du8, 0x0Au8, 0x1Au8, 0x0Au8]
}

/// An ASCII letter, upper or lower case.
pub open spec fn is_ascii_letter(b: u8) -> bool {
    (65 <= b && b <= 90) || (97 <= b && b <= 122)
}

/// A chunk type tag made of ASCII letters only.
pub open spec fn valid_chunk_type(t: Seq<u8>) -> bool {
    forall|i: int| 0 <= i < t.len() ==> is_ascii_letter(#[trigger] t[i])
}

/// Why a pull failed.
#[derive(Debug)]
pub enum PngParseError {
    /// The byte source failed.
    IoError(std::io::Error),
    /// A type tag held a byte that is not an ASCII letter; carries the tag.
    InvalidChunkType(ChunkTypePrimitive),
    /// The stream does not start with the PNG signature; carries what it starts with.
    IncorrectSignature(SignatureTypePrimitive),
    /// The stream ended inside a field or a payload.
    UnexpectedEnd,
    /// A structural failure of no other kind; no check produces it yet.
    ParseError,
}

impl From<std::io::Error> for PngParseError {
    fn from(err: std::io::Error) -> PngParseError {
        PngParseError::IoError(err)
    }
}

impl vstd::std_specs::convert::FromSpecImpl<std::io::Error> for PngParseError {
    open spec fn obeys_from_spec() -> bool {
        true
    }

    open spec fn from_spec(err: std::io::Error) -> PngParseError {
        PngParseError::IoError(err)
    }
}

pub type Result<T> = core::result::Result<T, PngParseError>;

/// Copies four bytes held in a vector into an array.
fn word_of(v: &Vec<u8>) -> (r: [u8; 4])
    requires
        v@.len() == 4,
    ensures
        r@ == v@,
{
    let r = [v[0], v[1], v[2], v[3]];
    assert(r@ =~= v@);
    r
}

/// A vector of `size` copies of `default_value`.
fn make_vec<T: Copy>(size: usize, default_value: T) -> (list: Vec<T>)
    ensures
        list@ == Seq::new(size as nat, |i: int| default_value),
{
    let mut list = Vec::with_capacity(size);
    let mut k: usize = 0;
    while k < size
        invariant
            k <= size,
            list@ == Seq::new(k as nat, |i: int| default_value),
        decreases size - k,
    {
        list.push(default_value);
        k = k + 1;
        assert(list@ =~= Seq::new(k as nat, |i: int| default_value));
    }
    list
}

/// Checks that every byte of a chunk type is an ASCII letter.
pub fn ensure_valid_chunk_type(chunk_type: ChunkTypePrimitive) -> (r: Result<()>)
    ensures
        r is Ok <==> valid_chunk_type(chunk_type@),
        r matches Err(e) ==> e matches PngParseError::InvalidChunkType(t) && t@ == chunk_type@,
{
    let mut i: usize = 0;
    while i < 4
        invariant
            i <= 4,
            forall|k: int| 0 <= k < i ==> is_ascii_letter(#[trigger] chunk_type@[k]),
        decreases 4 - i,
    {
        let b = chunk_type[i];
        if !((b >= 65 && b <= 90) || (b >= 97 && b <= 122)) {
            return Err(PngParseError::InvalidChunkType(chunk_type));
        }
        i = i + 1;
    }
    Ok(())
}

/// Checks eight bytes against the PNG signature.
fn ensure_valid_signature(sig: SignatureTypePrimitive) -> (r: Result<()>)
    ensures
        r is Ok <==> sig@ == png_signature(),
        r matches Err(e) ==> e matches PngParseError::IncorrectSignature(s) && s@ == sig@,
{
    let png_sig: [u8; 8] = [0x89, 0x50, 0x4E, 0x47, 0x0D, 0x0A, 0x1A, 0x0A];
    assert(png_sig@ =~= png_signature());
    let mut i: usize = 0;
    while i < 8
        invariant
            i <= 8,
            png_sig@ == png_signature(),
            forall|k: int| 0 <= k < i ==> sig@[k] == png_sig@[k],
        decreases 8 - i,
    {
        if sig[i] != png_sig[i] {
            return Err(PngParseError::IncorrectSignature(sig));
        }
        i = i + 1;
    }
    assert(sig@ =~= png_signature());
    Ok(())
}


/// Reads exactly `bytes.len()` bytes from the source into `bytes`.
///
/// Fails with `UnexpectedEnd` when the source has fewer bytes left, and with
/// `IoError` when the source itself fails.
fn fill_buffer<R: ByteSource>(buffer: &mut R, bytes: &mut Vec<u8>) -> (r: Result<()>)
    ensures
        final(bytes)@.len() == old(bytes)@.len(),
        final(buffer).infallible() == old(buffer).infallible(),
        r is Ok ==> {
            &&& old(buffer).pending().len() >= old(bytes)@.len()
            &&& final(bytes)@ == old(buffer).pending().take(old(bytes)@.len() as int)
            &&& final(buffer).pending() == old(buffer).pending().skip(old(bytes)@.len() as int)
        },
        r matches Err(e) ==> (e is IoError && !old(buffer).infallible()) || (e is UnexpectedEnd
            && old(buffer).pending().len() < old(bytes)@.len()),
{
    let bytes_read = match buffer.read_into(bytes) {
        Ok(n) => n,
        Err(err) => {
            return Err(PngParseError::from(err));
        },
    };
    if bytes_read != bytes.len() {
        return Err(PngParseError::UnexpectedEnd);
    }
    proof {
        assert(bytes@ =~= old(buffer).pending().take(bytes@.len() as int));
    }
    Ok(())
}

/// The fields of a chunk record.
pub trait RawChunk {
    /// The four bytes of the type tag.
    spec fn type_view(&self) -> Seq<u8>;

    /// The payload bytes.
    spec fn data_view(&self) -> Seq<u8>;

    /// The stored checksum.
    spec fn crc_view(&self) -> u32;

    fn length(&self) -> (r: u32)
        ensures
            r as int == self.data_view().len(),
    ;

    fn chunk_type(&self) -> (r: ChunkTypePrimitive)
        ensures
            r@ == self.type_view(),
    ;

    fn chunk_data(&self) -> (r: &[u8])
        ensures
            r@ == self.data_view(),
    ;

    fn crc(&self) -> (r: u32)
        ensures
            r == self.crc_view(),
    ;
}

/// A chunk record that owns its payload.
pub struct ManagedRawChunk {
    chunk_type: ChunkTypePrimitive,
    chunk_data: Vec<u8>,
    crc: u32,
}

impl ManagedRawChunk {
    #[verifier::type_invariant]
    spec fn inv(&self) -> bool {
        self.chunk_data@.len() <= u32::MAX
    }
}

impl RawChunk for ManagedRawChunk {
    closed spec fn type_view(&self) -> Seq<u8> {
        self.chunk_type@
    }

    closed spec fn data_view(&self) -> Seq<u8> {
        self.chunk_data@
    }

    closed spec fn crc_view(&self) -> u32 {
        self.crc
    }

    fn length(&self) -> (r: u32) {
        proof {
            use_type_invariant(self);
        }
        self.chunk_data.len() as u32
    }

    fn chunk_type(&self) -> (r: ChunkTypePrimitive) {
        self.chunk_type
    }

    fn chunk_data(&self) -> (r: &[u8]) {
        self.chunk_data.as_slice()
    }

    fn crc(&self) -> (r: u32) {
        self.crc
    }
}


/// The chunk length a record declares in its first four bytes.
pub open spec fn declared_len(s: Seq<u8>) -> int {
    be_u32(s.take(4))
}

/// What one pull owes, described over the bytes the source still holds.
pub enum PullOutcome {
    /// The stream ended on a record boundary.
    End,
    /// The stream ended inside a field or a payload.
    Truncated,
    /// The first eight bytes are not the PNG signature.
    BadSignature(Seq<u8>),
    /// The type tag holds a byte that is not an ASCII letter.
    BadType(Seq<u8>),
    /// A whole record, and the bytes that follow it.
    Record { ctype: Seq<u8>, data: Seq<u8>, crc: int, rest: Seq<u8> },
}

/// The outcome of parsing one record from the front of `s`.
pub open spec fn chunk_step(s: Seq<u8>) -> PullOutcome {
    if s.len() == 0 {
        PullOutcome::End
    } else if s.len() < 8 {
        PullOutcome::Truncated
    } else if !valid_chunk_type(s.subrange(4, 8)) {
        PullOutcome::BadType(s.subrange(4, 8))
    } else if s.len() < 12 + declared_len(s) {
        PullOutcome::Truncated
    } else {
        let l = declared_len(s);
        PullOutcome::Record {
            ctype: s.subrange(4, 8),
            data: s.subrange(8, 8 + l),
            crc: be_u32(s.subrange(8 + l, 12 + l)),
            rest: s.skip(12 + l),
        }
    }
}

/// The outcome of a pull on a reader that is not exhausted, given whether the
/// signature was already checked and the bytes the source still holds.
pub open spec fn pull_spec(signed: bool, s: Seq<u8>) -> PullOutcome {
    if signed {
        chunk_step(s)
    } else if s.len() < 8 {
        PullOutcome::Truncated
    } else if s.take(8) != png_signature() {
        PullOutcome::BadSignature(s.take(8))
    } else {
        chunk_step(s.skip(8))
    }
}

/// The result of a pull is the one `o` describes, or a failure of the source.
pub open spec fn pull_agrees(o: PullOutcome, r: Option<Result<ManagedRawChunk>>) -> bool {
    match r {
        None => o is End,
        Some(Ok(c)) => match o {
            PullOutcome::Record { ctype, data, crc, .. } => c.type_view() == ctype
                && c.data_view() == data && c.crc_view() as int == crc,
            _ => false,
        },
        Some(Err(PngParseError::IoError(_))) => true,
        Some(Err(PngParseError::UnexpectedEnd)) => o is Truncated,
        Some(Err(PngParseError::IncorrectSignature(b))) => o == PullOutcome::BadSignature(b@),
        Some(Err(PngParseError::InvalidChunkType(t))) => o == PullOutcome::BadType(t@),
        Some(Err(PngParseError::ParseError)) => false,
    }
}

/// The bytes left after the record that `o` describes.
pub open spec fn rest_of(o: PullOutcome) -> Seq<u8> {
    match o {
        PullOutcome::Record { rest, .. } => rest,
        _ => Seq::empty(),
    }
}

/// Pulls chunk records, one at a time, from a byte source.
pub struct RawChunks<R: ByteSource> {
    reader: R,
    has_signature: bool,
    has_finished: bool,
}

impl<R: ByteSource> RawChunks<R> {
    /// Whether the signature has been checked and found right.
    pub closed spec fn signed(&self) -> bool {
        self.has_signature
    }

    /// Whether the reader is exhausted.
    pub closed spec fn finished(&self) -> bool {
        self.has_finished
    }

    /// Whether the underlying source never fails.
    pub closed spec fn reliable(&self) -> bool {
        self.reader.infallible()
    }

    /// The bytes the underlying source still holds.
    pub closed spec fn pending(&self) -> Seq<u8> {
        self.reader.pending()
    }

    fn new(reader: R) -> (r: RawChunks<R>)
        ensures
            !r.signed(),
            !r.finished(),
            r.pending() == reader.pending(),
            r.reliable() == reader.infallible(),
    {
        RawChunks { reader: reader, has_signature: false, has_finished: false }
    }

    /// Checks the signature on the first call; later calls do nothing.
    fn ensure_signed(&mut self) -> (r: Result<()>)
        ensures
            final(self).finished() == old(self).finished(),
            final(self).reliable() == old(self).reliable(),
            old(self).signed() ==> r is Ok && *final(self) == *old(self),
            !old(self).signed() ==> match r {
                Ok(_) => {
                    &&& old(self).pending().len() >= 8
                    &&& old(self).pending().take(8) == png_signature()
                    &&& final(self).signed()
                    &&& final(self).pending() == old(self).pending().skip(8)
                },
                Err(e) => (e is IoError && !old(self).reliable()) || (e is UnexpectedEnd && old(self).pending().len() < 8)
                    || (e matches PngParseError::IncorrectSignature(b) && old(self).pending().len()
                    >= 8 && b@ == old(self).pending().take(8) && b@ != png_signature()),
            },
    {
        if self.has_signature {
            return Ok(());
        }
        let mut buf = make_vec(8, 0u8);
        match fill_buffer(&mut self.reader, &mut buf) {
            Ok(_) => {},
            Err(e) => {
                return Err(e);
            },
        }
        let signature: SignatureTypePrimitive = [
            buf[0],
            buf[1],
            buf[2],
            buf[3],
            buf[4],
            buf[5],
            buf[6],
            buf[7],
        ];
        assert(signature@ =~= buf@);
        match ensure_valid_signature(signature) {
            Ok(_) => {},
            Err(e) => {
                return Err(e);
            },
        }
        self.has_signature = true;
        Ok(())
    }

    /// Checks the signature if that is still due, then parses one record.
    fn try_next(&mut self) -> (r: Option<Result<ManagedRawChunk>>)
        ensures
            pull_agrees(pull_spec(old(self).signed(), old(self).pending()), r),
            old(self).reliable() ==> !(r matches Some(Err(PngParseError::IoError(_)))),
            final(self).finished() == old(self).finished(),
            final(self).reliable() == old(self).reliable(),
            r matches Some(Ok(_)) ==> final(self).signed() && final(self).pending() == rest_of(
                pull_spec(old(self).signed(), old(self).pending()),
            ),
    {
        match self.ensure_signed() {
            Err(err) => {
                return Some(Err(err));
            },
            Ok(_) => {},
        }
        let ghost s = self.reader.pending();
        assert(pull_spec(old(self).signed(), old(self).pending()) == chunk_step(s));
        let mut word = make_vec(4, 0u8);
        let bytes_read = match self.reader.read_into(&mut word) {
            Ok(len) => len,
            Err(err) => {
                return Some(Err(PngParseError::from(err)));
            },
        };
        if bytes_read == 0 {
            return None;
        }
        if bytes_read != 4 {
            return Some(Err(PngParseError::UnexpectedEnd));
        }
        assert(word@ =~= s.take(4));
        let length = bytes_as_be_u32(&word_of(&word));
        let ghost s1 = self.reader.pending();
        assert(s1 =~= s.skip(4));

        let mut tag = make_vec(4, 0u8);
        match fill_buffer(&mut self.reader, &mut tag) {
            Ok(_) => {},
            Err(e) => {
                return Some(Err(e));
            },
        }
        let chunk_type = word_of(&tag);
        assert(chunk_type@ =~= s.subrange(4, 8));
        match ensure_valid_chunk_type(chunk_type) {
            Ok(_) => {},
            Err(e) => {
                return Some(Err(e));
            },
        }
        let ghost s2 = self.reader.pending();
        assert(s2 =~= s.skip(8));

        let mut chunk = make_vec(length as usize, 0u8);
        match fill_buffer(&mut self.reader, &mut chunk) {
            Ok(_) => {},
            Err(e) => {
                return Some(Err(e));
            },
        }
        assert(chunk@ =~= s.subrange(8, 8 + length as int));
        let ghost s3 = self.reader.pending();
        assert(s3 =~= s.skip(8 + length as int));

        let mut check = make_vec(4, 0u8);
        match fill_buffer(&mut self.reader, &mut check) {
            Ok(_) => {},
            Err(e) => {
                return Some(Err(e));
            },
        }
        assert(check@ =~= s.subrange(8 + length as int, 12 + length as int));
        assert(self.reader.pending() =~= s.skip(12 + length as int));
        let crc = bytes_as_be_u32(&word_of(&check));
        Some(Ok(ManagedRawChunk { chunk_type: chunk_type, chunk_data: chunk, crc: crc }))
    }

    /// Pulls the next chunk record.
    ///
    /// Returns `None` at the end of the stream, and after the first `None` or
    /// failure every later pull returns `None` without touching the source.
    pub fn next(&mut self) -> (r: Option<Result<ManagedRawChunk>>)
        ensures
            old(self).finished() ==> r is None && *final(self) == *old(self),
            !old(self).finished() ==> pull_agrees(
                pull_spec(old(self).signed(), old(self).pending()),
                r,
            ),
            old(self).reliable() ==> !(r matches Some(Err(PngParseError::IoError(_)))),
            final(self).finished() <==> !(r matches Some(Ok(_))),
            final(self).reliable() == old(self).reliable(),
            r matches Some(Ok(_)) ==> final(self).signed() && final(self).pending() == rest_of(
                pull_spec(old(self).signed(), old(self).pending()),
            ),
    {
        if self.has_finished {
            return None;
        }
        match self.try_next() {
            Some(result) => {
                Some(
                    match result {
                        Err(err) => {
                            self.has_finished = true;
                            Err(err)
                        },
                        s => s,
                    },
                )
            },
            None => {
                self.has_finished = true;
                None
            },
        }
    }
}

/// A reader of chunk records over `reader`, which must start with the signature.
pub fn read_png_raw<R: ByteSource>(reader: R) -> (r: RawChunks<R>)
    ensures
        !r.signed(),
        !r.finished(),
        r.pending() == reader.pending(),
        r.reliable() == reader.infallible(),
{
    RawChunks::new(reader)
}

} // verus!
