use gzcodec::drive::{Action, Fetched, ReadStep};
use gzcodec::error::GzError;
use gzcodec::parser::{read_gz_header2, HeaderParser, Progress};
use gzcodec::{Compression, GzDecoder, GzEncoder, GzHeader, MultiGzDecoder};
use std::io::{self, BufRead, BufReader, Cursor, Read};

/// A reader that hands out one byte per call and says that it would block
/// before each of them.
struct Trickle {
    data: Vec<u8>,
    pos: usize,
    open: bool,
    blocked: usize,
}

impl Trickle {
    fn new(data: Vec<u8>) -> Trickle {
        Trickle { data, pos: 0, open: false, blocked: 0 }
    }
}

impl Read for Trickle {
    fn read(&mut self, into: &mut [u8]) -> io::Result<usize> {
        let n = {
            let buf = self.fill_buf()?;
            let n = buf.len().min(into.len());
            into[..n].copy_from_slice(&buf[..n]);
            n
        };
        self.consume(n);
        Ok(n)
    }
}

impl BufRead for Trickle {
    fn fill_buf(&mut self) -> io::Result<&[u8]> {
        if self.pos == self.data.len() {
            return Ok(&[]);
        }
        if !self.open {
            self.open = true;
            self.blocked += 1;
            return Err(io::ErrorKind::WouldBlock.into());
        }
        Ok(&self.data[self.pos..self.pos + 1])
    }

    fn consume(&mut self, n: usize) {
        if n > 0 {
            self.pos += n;
            self.open = false;
        }
    }
}

/// One `read` on a state machine that keeps its reader in a slot.
fn pump<R: BufRead, M>(
    machine: &mut M,
    into: &mut [u8],
    slot: impl Fn(&mut M) -> &mut Option<R>,
    wants_input: impl Fn(&M, usize) -> bool,
    step: impl Fn(&mut M, Fetched<'_>, &mut [u8]) -> ReadStep,
) -> Result<usize, GzError> {
    let mut reader = slot(machine).take().unwrap();
    let result = loop {
        let fetched = if wants_input(machine, into.len()) {
            match reader.fill_buf() {
                Ok(buf) => Fetched::Bytes(buf),
                Err(err) if err.kind() == io::ErrorKind::WouldBlock => Fetched::WouldBlock,
                Err(_) => Fetched::Failed,
            }
        } else {
            Fetched::Bytes(&[])
        };
        let outcome = step(machine, fetched, into);
        reader.consume(outcome.consumed);
        match outcome.action {
            Action::Again => continue,
            Action::Ready(n) => break Ok(n),
            Action::Fail(e) => break Err(e),
        }
    };
    *slot(machine) = Some(reader);
    result
}

fn encode_from<R: BufRead>(reader: R, lvl: Compression, room: usize) -> Vec<u8> {
    let mut enc = GzEncoder::new(Some(reader), lvl);
    let mut out = Vec::new();
    let mut buf = vec![0u8; room];
    loop {
        let n = pump(&mut enc, &mut buf, |m| m.get_mut(), |m, r| m.wants_input(r), |m, f, b| m.read(f, b));
        match n {
            Ok(0) => return out,
            Ok(n) => out.extend_from_slice(&buf[..n]),
            Err(GzError::WouldBlock) => {}
            Err(e) => panic!("{:?}", e),
        }
    }
}

fn decode_from<R: BufRead>(reader: R, room: usize) -> (Vec<u8>, Option<GzError>, R) {
    let mut dec = GzDecoder::new2(Some(reader));
    let mut out = Vec::new();
    let mut buf = vec![0u8; room];
    let err = loop {
        let n = pump(&mut dec, &mut buf, |m| m.get_mut(), |m, r| m.wants_input(r), |m, f, b| m.read(f, b));
        match n {
            Ok(0) => break None,
            Ok(n) => out.extend_from_slice(&buf[..n]),
            Err(GzError::WouldBlock) => {}
            Err(e) => break Some(e),
        }
    };
    (out, err, dec.into_inner().unwrap())
}

fn multi_decode_from<R: BufRead>(reader: R, room: usize) -> (Vec<u8>, Option<GzError>) {
    let mut dec = MultiGzDecoder::new2(Some(reader));
    let mut out = Vec::new();
    let mut buf = vec![0u8; room];
    loop {
        let n = pump(&mut dec, &mut buf, |m| m.get_mut(), |m, r| m.wants_input(r), |m, f, b| m.read(f, b));
        match n {
            Ok(0) => return (out, None),
            Ok(n) => out.extend_from_slice(&buf[..n]),
            Err(GzError::WouldBlock) => {}
            Err(e) => return (out, Some(e)),
        }
    }
}

fn text(len: usize) -> Vec<u8> {
    let words: [&[u8]; 5] = [b"gzip ", b"member ", b"stream ", b"header ", b"trailer "];
    let mut v = Vec::new();
    let mut i = 0usize;
    while v.len() < len {
        v.extend_from_slice(words[(i * i + 3 * i) % 5]);
        i += 1;
    }
    v.truncate(len);
    v
}

#[test]
fn buffered_readers_of_any_capacity() {
    let data = text(30_000);
    let whole = encode_from(Cursor::new(data.clone()), Compression::default(), 8192);
    for cap in [1usize, 2, 7, 64, 4096] {
        let stream = encode_from(BufReader::with_capacity(cap, &data[..]), Compression::default(), 511);
        let (out, err, _) = decode_from(BufReader::with_capacity(cap, &stream[..]), 333);
        assert_eq!(err, None, "capacity {}", cap);
        assert_eq!(out, data, "capacity {}", cap);
        let (out, err, _) = decode_from(BufReader::with_capacity(cap, &whole[..]), 4096);
        assert_eq!(err, None);
        assert_eq!(out, data);
    }
}

#[test]
fn trickling_reader_loses_nothing() {
    let data = text(2_000);
    let stream = encode_from(Cursor::new(data.clone()), Compression::best(), 64);
    let (out, err, reader) = decode_from(Trickle::new(stream.clone()), 50);
    assert_eq!(err, None);
    assert_eq!(out, data);
    assert_eq!(reader.pos, stream.len());
    assert_eq!(reader.blocked, stream.len());
    let (plain, err, _) = decode_from(Cursor::new(stream), 50);
    assert_eq!(err, None);
    assert_eq!(plain, out);
}

#[test]
fn trickling_source_encodes_the_same_member_content() {
    let data = text(1_500);
    let stream = encode_from(Trickle::new(data.clone()), Compression::default(), 40);
    let (out, err, _) = decode_from(Cursor::new(stream), 4096);
    assert_eq!(err, None);
    assert_eq!(out, data);
}

#[test]
fn trickling_multi_member_stream() {
    let mut stream = encode_from(Cursor::new(b"foo".to_vec()), Compression::default(), 64);
    stream.extend_from_slice(&encode_from(Cursor::new(b"bar".to_vec()), Compression::fast(), 64));
    stream.extend_from_slice(&encode_from(Cursor::new(Vec::new()), Compression::none(), 64));
    let (out, err) = multi_decode_from(Trickle::new(stream.clone()), 2);
    assert_eq!(err, None);
    assert_eq!(out, b"foobar".to_vec());
    let (out, err) = multi_decode_from(BufReader::with_capacity(5, &stream[..]), 100);
    assert_eq!(err, None);
    assert_eq!(out, b"foobar".to_vec());
}

#[test]
fn single_decoder_leaves_the_rest_in_the_reader() {
    let first = encode_from(Cursor::new(b"foo".to_vec()), Compression::default(), 64);
    let mut stream = first.clone();
    stream.extend_from_slice(b"what follows");
    let (out, err, mut reader) = decode_from(Cursor::new(stream), 64);
    assert_eq!(err, None);
    assert_eq!(out, b"foo".to_vec());
    assert_eq!(reader.position() as usize, first.len());
    let mut rest = String::new();
    reader.read_to_string(&mut rest).unwrap();
    assert_eq!(rest, "what follows");
}

#[test]
fn header_is_parsed_eagerly_from_a_reader() {
    let header = GzHeader { filename: Some(b"eager".to_vec()), mtime: 77, ..GzHeader::new() };
    let mut stream = gzcodec::compose::encode_header(&header, Compression::default()).unwrap();
    stream.extend_from_slice(&[3, 0, 0, 0, 0, 0, 0, 0, 0, 0]);
    let mut reader = BufReader::with_capacity(3, &stream[..]);
    let mut parser = HeaderParser::new();
    let parsed = loop {
        let step = read_gz_header2(reader.fill_buf().unwrap(), &mut parser);
        reader.consume(step.consumed);
        match step.progress {
            Progress::Done => break Ok(parser.into_header()),
            Progress::NeedMore => continue,
            Progress::Failed(e) => break Err(e),
        }
    };
    assert_eq!(parsed, Ok(header.clone()));
    let mut dec = GzDecoder::new(Some(reader), parsed);
    assert_eq!(dec.header(), Some(&header));
    let mut buf = [0u8; 8];
    let n = pump(&mut dec, &mut buf, |m| m.get_mut(), |m, r| m.wants_input(r), |m, f, b| m.read(f, b));
    assert_eq!(n, Ok(0));
}

#[test]
fn eager_header_failure_is_kept_for_the_first_read() {
    let stream = [0x1f, 0x8b, 8, 0, 0];
    let mut reader = Cursor::new(&stream[..]);
    let mut parser = HeaderParser::new();
    let parsed = loop {
        let step = read_gz_header2(reader.fill_buf().unwrap(), &mut parser);
        reader.consume(step.consumed);
        match step.progress {
            Progress::Done => break Ok(parser.into_header()),
            Progress::NeedMore => continue,
            Progress::Failed(e) => break Err(e),
        }
    };
    assert_eq!(parsed, Err(GzError::UnexpectedEof));
    let mut dec = MultiGzDecoder::new(Some(reader), parsed);
    assert_eq!(dec.header(), None);
    let mut buf = [0u8; 8];
    let n = pump(&mut dec, &mut buf, |m| m.get_mut(), |m, r| m.wants_input(r), |m, f, b| m.read(f, b));
    assert_eq!(n, Err(GzError::UnexpectedEof));
    let n = pump(&mut dec, &mut buf, |m| m.get_mut(), |m, r| m.wants_input(r), |m, f, b| m.read(f, b));
    assert_eq!(n, Ok(0));
}
