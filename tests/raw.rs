use pngs::raw;
use pngs::raw::{ManagedRawChunk, PngParseError, RawChunk, RawChunks};
use pngs::source::{ByteSource, MemSource};
use pngs::util::bytes_as_be_u32;

const SIGNATURE: [u8; 8] = [0x89, b'P', b'N', b'G', 0x0D, 0x0A, 0x1A, 0x0A];

fn is_valid_chunk_type(chunk_type: &raw::ChunkTypePrimitive) -> bool {
    raw::ensure_valid_chunk_type(chunk_type.clone()).is_ok()
}

fn push_chunk(out: &mut Vec<u8>, chunk_type: &[u8; 4], data: &[u8], crc: u32) {
    out.extend_from_slice(&(data.len() as u32).to_be_bytes());
    out.extend_from_slice(chunk_type);
    out.extend_from_slice(data);
    out.extend_from_slice(&crc.to_be_bytes());
}

fn reader_over(bytes: Vec<u8>) -> RawChunks<MemSource> {
    raw::read_png_raw(MemSource::new(bytes))
}

fn assert_length_and_type(
    maybe_chunk: &raw::Result<ManagedRawChunk>,
    chunk_type: &raw::ChunkTypePrimitive,
    len: usize,
) {
    assert!(maybe_chunk.is_ok());
    let chunk = maybe_chunk.as_ref().ok().expect("Asserted above.");
    assert_eq!(*chunk_type, chunk.chunk_type());
    assert_eq!(len, chunk.length() as usize);
}

#[test]
fn standard_chunks() {
    let specified_chunks = [
        b"IHDR", b"PLTE", b"IDAT", b"IEND", b"gBKD", b"cHRM", b"gAMA", b"hIST", b"pHYs",
        b"sBIT", b"tEXt", b"tIME", b"tRNS", b"zTXt",
    ];
    for spec in specified_chunks.iter() {
        assert!(is_valid_chunk_type(spec));
    }
}

#[test]
fn known_png() {
    let mut sample_png = SIGNATURE.to_vec();
    push_chunk(&mut sample_png, b"IHDR", &[1u8; 13], 0x1111_1111);
    push_chunk(&mut sample_png, b"sRGB", &[0u8; 1], 0xAECE_1CE9);
    push_chunk(&mut sample_png, b"gAMA", &[0u8, 0, 0xB1, 0x8F], 0x0BFC_6105);
    push_chunk(&mut sample_png, b"pHYs", &[7u8; 9], 0x2222_2222);
    push_chunk(&mut sample_png, b"IDAT", &vec![0x5Au8; 2828], 0x3333_3333);
    push_chunk(&mut sample_png, b"IEND", &[], 0xAE42_6082);

    let mut reader = reader_over(sample_png);
    let mut chunks: Vec<raw::Result<ManagedRawChunk>> = Vec::new();
    while let Some(c) = reader.next() {
        chunks.push(c);
    }

    assert_eq!(6, chunks.len());

    assert_length_and_type(&chunks[0], b"IHDR", 13);
    assert_length_and_type(&chunks[1], b"sRGB", 1);
    assert_length_and_type(&chunks[2], b"gAMA", 4);
    assert_length_and_type(&chunks[3], b"pHYs", 9);
    assert_length_and_type(&chunks[4], b"IDAT", 2828);
    assert_length_and_type(&chunks[5], b"IEND", 0);
}

#[test]
fn minimal_iend_stream() {
    let mut bytes = SIGNATURE.to_vec();
    bytes.extend_from_slice(&[0, 0, 0, 0, b'I', b'E', b'N', b'D', 0xAE, 0x42, 0x60, 0x82]);
    let mut reader = reader_over(bytes);
    let chunk = reader.next().expect("one record").expect("a valid record");
    assert_eq!(*b"IEND", chunk.chunk_type());
    assert_eq!(0, chunk.length());
    assert!(chunk.chunk_data().is_empty());
    assert_eq!(0xAE42_6082, chunk.crc());
    assert!(reader.next().is_none());
    assert!(reader.next().is_none());
}

#[test]
fn record_fields_are_kept() {
    let mut bytes = SIGNATURE.to_vec();
    push_chunk(&mut bytes, b"tEXt", b"Title\0PNG", 0x0102_0304);
    let mut reader = reader_over(bytes);
    let chunk = reader.next().expect("one record").expect("a valid record");
    assert_eq!(*b"tEXt", chunk.chunk_type());
    assert_eq!(9, chunk.length());
    assert_eq!(b"Title\0PNG", chunk.chunk_data());
    assert_eq!(0x0102_0304, chunk.crc());
    assert!(reader.next().is_none());
}

#[test]
fn wrong_signature_then_nothing() {
    let mut bytes = b"GIF89a\0\0".to_vec();
    push_chunk(&mut bytes, b"IEND", &[], 0);
    let mut reader = reader_over(bytes);
    match reader.next() {
        Some(Err(PngParseError::IncorrectSignature(sig))) => assert_eq!(*b"GIF89a\0\0", sig),
        _ => panic!("expected IncorrectSignature"),
    }
    assert!(reader.next().is_none());
    assert!(reader.next().is_none());
}

#[test]
fn short_signature_is_unexpected_end() {
    let mut reader = reader_over(SIGNATURE[..5].to_vec());
    assert!(matches!(reader.next(), Some(Err(PngParseError::UnexpectedEnd))));
    assert!(reader.next().is_none());
}

#[test]
fn empty_stream_is_unexpected_end() {
    let mut reader = reader_over(Vec::new());
    assert!(matches!(reader.next(), Some(Err(PngParseError::UnexpectedEnd))));
    assert!(reader.next().is_none());
}

#[test]
fn signature_alone_ends_cleanly() {
    let mut reader = reader_over(SIGNATURE.to_vec());
    assert!(reader.next().is_none());
    assert!(reader.next().is_none());
}

#[test]
fn partial_length_field_is_unexpected_end() {
    let mut bytes = SIGNATURE.to_vec();
    bytes.extend_from_slice(&[0, 0]);
    let mut reader = reader_over(bytes);
    assert!(matches!(reader.next(), Some(Err(PngParseError::UnexpectedEnd))));
    assert!(reader.next().is_none());
}

#[test]
fn truncated_payload_is_unexpected_end() {
    let mut bytes = SIGNATURE.to_vec();
    push_chunk(&mut bytes, b"IHDR", &[1u8; 13], 0x1234_5678);
    bytes.truncate(bytes.len() - 6);
    let mut reader = reader_over(bytes);
    assert!(matches!(reader.next(), Some(Err(PngParseError::UnexpectedEnd))));
    assert!(reader.next().is_none());
}

#[test]
fn truncated_checksum_after_good_record() {
    let mut bytes = SIGNATURE.to_vec();
    push_chunk(&mut bytes, b"IHDR", &[1u8; 13], 0x1234_5678);
    push_chunk(&mut bytes, b"IEND", &[], 0xAE42_6082);
    bytes.truncate(bytes.len() - 1);
    let mut reader = reader_over(bytes);
    assert_length_and_type(&reader.next().expect("first record"), b"IHDR", 13);
    assert!(matches!(reader.next(), Some(Err(PngParseError::UnexpectedEnd))));
    assert!(reader.next().is_none());
}

#[test]
fn invalid_chunk_type_is_reported() {
    let mut bytes = SIGNATURE.to_vec();
    push_chunk(&mut bytes, b"IH1R", &[1u8; 3], 0);
    push_chunk(&mut bytes, b"IEND", &[], 0xAE42_6082);
    let mut reader = reader_over(bytes);
    match reader.next() {
        Some(Err(PngParseError::InvalidChunkType(t))) => assert_eq!(*b"IH1R", t),
        _ => panic!("expected InvalidChunkType"),
    }
    assert!(reader.next().is_none());
}

#[test]
fn chunk_type_rejects_non_letters() {
    assert!(!is_valid_chunk_type(b"IHD "));
    assert!(!is_valid_chunk_type(b"@ABC"));
    assert!(!is_valid_chunk_type(b"abc["));
    assert!(!is_valid_chunk_type(b"`abc"));
    assert!(!is_valid_chunk_type(&[b'I', b'H', b'D', 0xC4]));
    assert!(is_valid_chunk_type(b"AZaz"));
    match raw::ensure_valid_chunk_type(*b"ab{d") {
        Err(PngParseError::InvalidChunkType(t)) => assert_eq!(*b"ab{d", t),
        _ => panic!("expected InvalidChunkType"),
    }
}

#[test]
fn big_endian_decoding() {
    assert_eq!(0xAE42_6082, bytes_as_be_u32(&[0xAE, 0x42, 0x60, 0x82]));
    assert_eq!(13, bytes_as_be_u32(&[0, 0, 0, 13]));
    assert_eq!(0x0100_0000, bytes_as_be_u32(&[1, 0, 0, 0]));
    assert_eq!(u32::MAX, bytes_as_be_u32(&[0xFF; 4]));
    assert_eq!(0, bytes_as_be_u32(&[0; 4]));
}

#[test]
fn mem_source_reads_what_is_left() {
    let mut source = MemSource::new(vec![1, 2, 3, 4, 5]);
    let mut buf = vec![9u8; 3];
    assert_eq!(3, source.read_into(&mut buf).unwrap());
    assert_eq!(vec![1, 2, 3], buf);
    assert_eq!(2, source.read_into(&mut buf).unwrap());
    assert_eq!(vec![4, 5, 3], buf);
    assert_eq!(0, source.read_into(&mut buf).unwrap());
}
