use gzcodec::bytes::{copy, fill, fill_vec, finish, read_le16, read_le32, write_le32};
use gzcodec::checksum::{crc32_of, Crc};
use gzcodec::compose::{encode_header, plain_header};
use gzcodec::error::{bad_header, corrupt, ErrorKind, GzError};
use gzcodec::header::{GzHeader, FCOMMENT, FEXTRA, FHCRC, FNAME};
use gzcodec::level::Compression;
use gzcodec::parser::{read_gz_header, read_gz_header2, HeaderParser, Progress};

/// A header with every optional field, and a checksum if `with_crc`.
fn full_header(extra: &[u8], name: &[u8], comment: &[u8], with_crc: bool) -> Vec<u8> {
    let mut flag = FEXTRA | FNAME | FCOMMENT;
    if with_crc {
        flag |= FHCRC;
    }
    let mut h = vec![0x1f, 0x8b, 8, flag, 0x78, 0x56, 0x34, 0x12, 0, 3];
    h.push(extra.len() as u8);
    h.push((extra.len() >> 8) as u8);
    h.extend_from_slice(extra);
    h.extend_from_slice(name);
    h.push(0);
    h.extend_from_slice(comment);
    h.push(0);
    if with_crc {
        let crc = crc32fast::hash(&h);
        h.push(crc as u8);
        h.push((crc >> 8) as u8);
    }
    h
}

#[test]
fn copy_takes_what_fits() {
    let from = [1u8, 2, 3, 4, 5];
    let mut into = [0u8; 3];
    let mut pos = 1;
    assert_eq!(copy(&mut into, &from, &mut pos), 3);
    assert_eq!(into, [2, 3, 4]);
    assert_eq!(pos, 4);
    assert_eq!(copy(&mut into, &from, &mut pos), 1);
    assert_eq!(into, [5, 3, 4]);
    assert_eq!(pos, 5);
    assert_eq!(copy(&mut into, &from, &mut pos), 0);
    assert_eq!(into, [5, 3, 4]);
    assert_eq!(pos, 5);
}

#[test]
fn copy_into_empty_buffer() {
    let from = [1u8, 2];
    let mut into: [u8; 0] = [];
    let mut pos = 0;
    assert_eq!(copy(&mut into, &from, &mut pos), 0);
    assert_eq!(pos, 0);
}

#[test]
fn fill_takes_what_fits() {
    let mut buf = [9u8; 4];
    assert_eq!(fill(&mut buf, 1, &[1, 2, 3, 4, 5], 2), 3);
    assert_eq!(buf, [9, 3, 4, 5]);
    let mut buf = [9u8; 4];
    assert_eq!(fill(&mut buf, 1, &[1, 2, 3], 2), 1);
    assert_eq!(buf, [9, 3, 9, 9]);
    let mut v = vec![7u8; 5];
    assert_eq!(fill_vec(&mut v, 3, &[1, 2, 3], 0), 2);
    assert_eq!(v, vec![7, 7, 7, 1, 2]);
}

#[test]
fn finish_decodes_little_endian() {
    let buf = [0x56, 0xb1, 0x17, 0x4a, 11, 0, 0, 0];
    assert_eq!(finish(&buf), (0x4a17_b156, 11));
    let buf = [1, 2, 3, 4, 0xff, 0xff, 0xff, 0xff];
    assert_eq!(finish(&buf), (0x0403_0201, 0xffff_ffff));
}

#[test]
fn little_endian_pack_and_unpack() {
    assert_eq!(read_le16(0x34, 0x12), 0x1234);
    assert_eq!(read_le32(0x78, 0x56, 0x34, 0x12), 0x1234_5678);
    assert_eq!(write_le32(0x1234_5678), [0x78, 0x56, 0x34, 0x12]);
    let b = write_le32(0xdead_beef);
    assert_eq!(read_le32(b[0], b[1], b[2], b[3]), 0xdead_beef);
}

#[test]
fn crc32_known_values() {
    assert_eq!(crc32_of(b""), 0);
    assert_eq!(crc32_of(b"Hello World"), 0x4a17_b156);
    assert_eq!(crc32_of(b"123456789"), 0xcbf4_3926);
    assert_eq!(crc32_of(&[0u8]), 0xd202_ef8d);
}

#[test]
fn running_checksum_streams() {
    let mut c = Crc::new();
    assert_eq!(c.sum(), 0);
    assert_eq!(c.amount(), 0);
    c.update(b"Hello");
    c.update(b"");
    c.update(b" World");
    assert_eq!(c.sum(), 0x4a17_b156);
    assert_eq!(c.amount(), 11);
    c.reset();
    assert_eq!(c.sum(), 0);
    assert_eq!(c.amount(), 0);
    c.update(b"123456789");
    assert_eq!(c.sum(), 0xcbf4_3926);
    assert_eq!(c.amount(), 9);
}

#[test]
fn error_kinds_and_messages() {
    assert_eq!(corrupt(), GzError::Corrupt);
    assert_eq!(corrupt().kind(), ErrorKind::InvalidInput);
    assert_eq!(corrupt().message(), "corrupt gzip stream does not have a matching checksum");
    assert_eq!(bad_header(), GzError::BadHeader);
    assert_eq!(bad_header().kind(), ErrorKind::InvalidInput);
    assert_eq!(bad_header().message(), "invalid gzip header");
    assert_eq!(GzError::Deflate.kind(), ErrorKind::InvalidInput);
    assert_eq!(GzError::Deflate.message(), "corrupt deflate stream");
    assert_eq!(GzError::UnexpectedEof.kind(), ErrorKind::UnexpectedEof);
    assert_eq!(GzError::WouldBlock.kind(), ErrorKind::WouldBlock);
    assert_eq!(GzError::Source.kind(), ErrorKind::Other);
}

#[test]
fn plain_fixed_header_parses() {
    let bytes = [0x1f, 0x8b, 8, 0, 0, 0, 0, 0, 0, 0, 3, 0];
    let (header, len) = read_gz_header(&bytes).unwrap();
    assert_eq!(len, 10);
    assert_eq!(header, GzHeader::new());
    assert_eq!(header.mtime, 0);
    assert_eq!(header.operating_system, 0);
    assert_eq!(header.extra, None);
    assert_eq!(header.filename, None);
    assert_eq!(header.comment, None);
}

#[test]
fn mtime_and_os_are_read() {
    let bytes = [0x1f, 0x8b, 8, 1, 0x78, 0x56, 0x34, 0x12, 2, 3];
    let (header, len) = read_gz_header(&bytes).unwrap();
    assert_eq!(len, 10);
    assert_eq!(header.mtime, 0x1234_5678);
    assert_eq!(header.operating_system, 3);
}

#[test]
fn wrong_method_is_invalid_header() {
    let bytes = [0x1f, 0x8b, 9, 0, 0, 0, 0, 0, 0, 0, 3, 0];
    assert_eq!(read_gz_header(&bytes), Err(GzError::BadHeader));
}

#[test]
fn wrong_magic_is_invalid_header() {
    assert_eq!(read_gz_header(&[0x1e, 0x8b, 8, 0, 0, 0, 0, 0, 0, 0]), Err(GzError::BadHeader));
    assert_eq!(read_gz_header(&[0x1f, 0x8c, 8, 0, 0, 0, 0, 0, 0, 0]), Err(GzError::BadHeader));
    assert_eq!(read_gz_header(&[0u8; 10]), Err(GzError::BadHeader));
}

#[test]
fn invalid_header_is_decided_on_ten_bytes() {
    let mut parser = HeaderParser::new();
    let step = read_gz_header2(&[0x1f, 0x8b, 9], &mut parser);
    assert_eq!(step.consumed, 3);
    assert_eq!(step.progress, Progress::NeedMore);
    let step = read_gz_header2(&[0u8; 20], &mut parser);
    assert_eq!(step.consumed, 7);
    assert_eq!(step.progress, Progress::Failed(GzError::BadHeader));
    let step = read_gz_header2(&[0u8; 20], &mut parser);
    assert_eq!(step.consumed, 0);
    assert_eq!(step.progress, Progress::Failed(GzError::BadHeader));
}

#[test]
fn all_fields_empty_with_checksum_parses() {
    let bytes = full_header(b"", b"", b"", true);
    assert_eq!(bytes.len(), 16);
    let (header, len) = read_gz_header(&bytes).unwrap();
    assert_eq!(len, 16);
    assert_eq!(header.extra, Some(vec![]));
    assert_eq!(header.filename, Some(vec![]));
    assert_eq!(header.comment, Some(vec![]));
}

#[test]
fn all_fields_with_checksum_parse() {
    let bytes = full_header(b"\x01\x00\x02", b"name.txt", b"a comment", true);
    let mut stream = bytes.clone();
    stream.extend_from_slice(&[3, 0, 0, 0, 0, 0]);
    let (header, len) = read_gz_header(&stream).unwrap();
    assert_eq!(len, bytes.len());
    assert_eq!(header.extra, Some(vec![1, 0, 2]));
    assert_eq!(header.filename, Some(b"name.txt".to_vec()));
    assert_eq!(header.comment, Some(b"a comment".to_vec()));
    assert_eq!(header.mtime, 0x1234_5678);
    assert_eq!(header.operating_system, 3);
}

#[test]
fn all_fields_without_checksum_parse() {
    let bytes = full_header(b"xy", b"n", b"c", false);
    let (header, len) = read_gz_header(&bytes).unwrap();
    assert_eq!(len, bytes.len());
    assert_eq!(header.extra, Some(b"xy".to_vec()));
    assert_eq!(header.filename, Some(b"n".to_vec()));
    assert_eq!(header.comment, Some(b"c".to_vec()));
}

#[test]
fn mutated_header_checksum_is_corrupt() {
    let good = full_header(b"ab", b"name", b"", true);
    let n = good.len();
    for byte in [n - 2, n - 1] {
        for bit in 0..8 {
            let mut bad = good.clone();
            bad[byte] ^= 1 << bit;
            assert_eq!(read_gz_header(&bad), Err(GzError::Corrupt));
        }
    }
    let mut bad = good.clone();
    bad[13] ^= 0x20;
    assert_eq!(read_gz_header(&bad), Err(GzError::Corrupt));
}

#[test]
fn header_checksum_covers_the_extra_field() {
    let good = full_header(b"abcdef", b"", b"", true);
    let mut bad = good.clone();
    bad[14] ^= 1;
    assert_eq!(read_gz_header(&bad), Err(GzError::Corrupt));
    assert!(read_gz_header(&good).is_ok());
}

#[test]
fn truncated_header_is_unexpected_eof() {
    let bytes = full_header(b"abc", b"name", b"text", true);
    for cut in 0..bytes.len() {
        assert_eq!(read_gz_header(&bytes[..cut]), Err(GzError::UnexpectedEof), "cut {}", cut);
    }
    assert!(read_gz_header(&bytes).is_ok());
}

#[test]
fn header_parse_ignores_cuts() {
    let bytes = full_header(b"\x00\x01\x02\x03", b"file", b"note", true);
    let (whole, len) = read_gz_header(&bytes).unwrap();
    assert_eq!(len, bytes.len());
    for chunk in 1..bytes.len() {
        let mut parser = HeaderParser::new();
        let mut pos = 0;
        loop {
            let end = (pos + chunk).min(bytes.len());
            let step = read_gz_header2(&bytes[pos..end], &mut parser);
            pos += step.consumed;
            match step.progress {
                Progress::Done => break,
                Progress::NeedMore => assert_eq!(pos, end),
                Progress::Failed(e) => panic!("chunk {}: {:?}", chunk, e),
            }
        }
        assert_eq!(pos, bytes.len());
        assert_eq!(parser.into_header(), whole);
    }
}

#[test]
fn parser_stops_at_the_first_body_byte() {
    let mut stream = full_header(b"", b"n", b"", false);
    let len = stream.len();
    stream.extend_from_slice(&[0, 0, 0, 0x1f, 0x8b]);
    let mut parser = HeaderParser::new();
    let step = read_gz_header2(&stream, &mut parser);
    assert_eq!(step.consumed, len);
    assert_eq!(step.progress, Progress::Done);
    let step = read_gz_header2(&stream[len..], &mut parser);
    assert_eq!(step.consumed, 0);
    assert_eq!(step.progress, Progress::Done);
}

#[test]
fn end_of_source_leaves_the_parser_usable() {
    let bytes = full_header(b"", b"abc", b"", false);
    let mut parser = HeaderParser::new();
    let step = read_gz_header2(&bytes[..14], &mut parser);
    assert_eq!(step.progress, Progress::NeedMore);
    let step = read_gz_header2(&[], &mut parser);
    assert_eq!(step.consumed, 0);
    assert_eq!(step.progress, Progress::Failed(GzError::UnexpectedEof));
    let step = read_gz_header2(&bytes[14..], &mut parser);
    assert_eq!(step.progress, Progress::Done);
    assert_eq!(parser.into_header().filename, Some(b"abc".to_vec()));
}

#[test]
fn written_header_reads_back() {
    let header = GzHeader {
        extra: Some(vec![1, 2, 3, 0, 5]),
        filename: Some(b"data.bin".to_vec()),
        comment: Some(b"made for a test".to_vec()),
        operating_system: 7,
        mtime: 0xdead_beef,
    };
    let bytes = encode_header(&header, Compression::best()).unwrap();
    assert_eq!(&bytes[..10], &[0x1f, 0x8b, 8, 28, 0xef, 0xbe, 0xad, 0xde, 2, 7]);
    assert_eq!(&bytes[10..12], &[5, 0]);
    let (back, len) = read_gz_header(&bytes).unwrap();
    assert_eq!(len, bytes.len());
    assert_eq!(back, header);
}

#[test]
fn written_header_with_single_fields() {
    let only_name = GzHeader { filename: Some(b"n".to_vec()), ..GzHeader::new() };
    assert_eq!(
        encode_header(&only_name, Compression::new(5)).unwrap(),
        vec![0x1f, 0x8b, 8, 8, 0, 0, 0, 0, 0, 0, b'n', 0]
    );
    let only_comment = GzHeader { comment: Some(b"c".to_vec()), ..GzHeader::new() };
    assert_eq!(
        encode_header(&only_comment, Compression::fast()).unwrap(),
        vec![0x1f, 0x8b, 8, 16, 0, 0, 0, 0, 4, 0, b'c', 0]
    );
    let only_extra = GzHeader { extra: Some(vec![]), ..GzHeader::new() };
    assert_eq!(
        encode_header(&only_extra, Compression::new(5)).unwrap(),
        vec![0x1f, 0x8b, 8, 4, 0, 0, 0, 0, 0, 0, 0, 0]
    );
    assert_eq!(
        encode_header(&GzHeader::new(), Compression::new(5)).unwrap(),
        vec![0x1f, 0x8b, 8, 0, 0, 0, 0, 0, 0, 0]
    );
}

#[test]
fn header_that_cannot_be_written() {
    let zero_in_name = GzHeader { filename: Some(b"a\0b".to_vec()), ..GzHeader::new() };
    assert_eq!(encode_header(&zero_in_name, Compression::default()), None);
    let zero_in_comment = GzHeader { comment: Some(vec![0]), ..GzHeader::new() };
    assert_eq!(encode_header(&zero_in_comment, Compression::default()), None);
    let long_extra = GzHeader { extra: Some(vec![1; 0x1_0000]), ..GzHeader::new() };
    assert_eq!(encode_header(&long_extra, Compression::default()), None);
    let longest_extra = GzHeader { extra: Some(vec![1; 0xffff]), ..GzHeader::new() };
    let bytes = encode_header(&longest_extra, Compression::default()).unwrap();
    assert_eq!(bytes.len(), 12 + 0xffff);
    assert_eq!(read_gz_header(&bytes).unwrap().0, longest_extra);
}

#[test]
fn plain_header_bytes() {
    assert_eq!(plain_header(Compression::default()), vec![0x1f, 0x8b, 8, 0, 0, 0, 0, 0, 0, 255]);
    assert_eq!(plain_header(Compression::best()), vec![0x1f, 0x8b, 8, 0, 0, 0, 0, 0, 2, 255]);
    assert_eq!(plain_header(Compression::none()), vec![0x1f, 0x8b, 8, 0, 0, 0, 0, 0, 4, 255]);
    let header = GzHeader { operating_system: 255, ..GzHeader::new() };
    assert_eq!(Some(plain_header(Compression::default())), encode_header(&header, Compression::default()));
}

#[test]
fn compression_levels() {
    assert_eq!(Compression::none().level(), 0);
    assert_eq!(Compression::fast().level(), 1);
    assert_eq!(Compression::best().level(), 9);
    assert_eq!(Compression::default().level(), 6);
    assert_eq!(Compression::new(4).level(), 4);
    assert_eq!(Compression::new(1).extra_flags(), 4);
    assert_eq!(Compression::new(2).extra_flags(), 0);
    assert_eq!(Compression::new(8).extra_flags(), 0);
    assert_eq!(Compression::new(9).extra_flags(), 2);
    assert_eq!(GzHeader::default(), GzHeader::new());
}

#[test]
fn refused_header_leaves_no_optional_field() {
    let mut parser = HeaderParser::new();
    let bytes = [0x1f, 0x8b, 9, 0x1c, 1, 2, 3, 4, 0, 3, 2, 0, b'x', b'y', b'n', 0, b'c', 0];
    let step = read_gz_header2(&bytes, &mut parser);
    assert_eq!(step.consumed, 10);
    assert_eq!(step.progress, Progress::Failed(GzError::BadHeader));
    let header = parser.into_header();
    assert_eq!(header.extra, None);
    assert_eq!(header.filename, None);
    assert_eq!(header.comment, None);
}

#[test]
fn header_with_wrong_checksum_still_holds_the_record() {
    let mut bytes = full_header(b"xy", b"name", b"note", true);
    let n = bytes.len();
    bytes[n - 1] ^= 0x80;
    let mut parser = HeaderParser::new();
    let step = read_gz_header2(&bytes, &mut parser);
    assert_eq!(step.consumed, n);
    assert_eq!(step.progress, Progress::Failed(GzError::Corrupt));
    let header = parser.into_header();
    assert_eq!(header.extra, Some(b"xy".to_vec()));
    assert_eq!(header.filename, Some(b"name".to_vec()));
    assert_eq!(header.comment, Some(b"note".to_vec()));
    assert_eq!(header.mtime, 0x1234_5678);
    assert_eq!(header.operating_system, 3);
}
