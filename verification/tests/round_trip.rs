use gzcodec::decoder::{GzDecoder, MultiGzDecoder};
use gzcodec::drive::{Action, Fetched};
use gzcodec::encoder::GzEncoder;
use gzcodec::error::GzError;
use gzcodec::level::Compression;

/// Runs an encoder over `data`, offering the source in pieces of `chunk` bytes
/// and reading the stream in pieces of `room` bytes.
fn encode(data: &[u8], lvl: Compression, chunk: usize, room: usize) -> Vec<u8> {
    let mut enc = GzEncoder::new((), lvl);
    let mut out = Vec::new();
    let mut buf = vec![0u8; room];
    let mut pos = 0;
    loop {
        let end = (pos + chunk).min(data.len());
        let step = enc.read(Fetched::Bytes(&data[pos..end]), &mut buf);
        pos += step.consumed;
        match step.action {
            Action::Again => {}
            Action::Ready(0) => return out,
            Action::Ready(n) => out.extend_from_slice(&buf[..n]),
            Action::Fail(e) => panic!("encoder failed: {:?}", e),
        }
    }
}

/// Runs a decoder over `data`, offering the stream in pieces of `chunk` bytes
/// and reading the output in pieces of `room` bytes. Returns what was decoded
/// and the error that ended the run, if one did.
fn decode(data: &[u8], multi: bool, chunk: usize, room: usize) -> (Vec<u8>, Option<GzError>) {
    let mut single = GzDecoder::new2(());
    let mut many = MultiGzDecoder::new2(());
    let mut out = Vec::new();
    let mut buf = vec![0u8; room];
    let mut pos = 0;
    loop {
        let end = (pos + chunk).min(data.len());
        let fetched = Fetched::Bytes(&data[pos..end]);
        let step = if multi { many.read(fetched, &mut buf) } else { single.read(fetched, &mut buf) };
        pos += step.consumed;
        match step.action {
            Action::Again => {}
            Action::Ready(0) => return (out, None),
            Action::Ready(n) => out.extend_from_slice(&buf[..n]),
            Action::Fail(e) => return (out, Some(e)),
        }
    }
}

fn sample(len: usize) -> Vec<u8> {
    let mut state: u32 = 0x2545_f491;
    let mut v = Vec::with_capacity(len);
    for i in 0..len {
        state = state.wrapping_mul(1_664_525).wrapping_add(1_013_904_223);
        let b = if i % 7 < 4 { (state >> 24) as u8 } else { b'a' + (i % 5) as u8 };
        v.push(b);
    }
    v
}

#[test]
fn hello_world_round_trip() {
    let stream = encode(b"Hello World", Compression::default(), 64, 64);
    let (out, err) = decode(&stream, false, 64, 64);
    assert_eq!(err, None);
    assert_eq!(out, b"Hello World".to_vec());
}

#[test]
fn hello_world_trailer() {
    let stream = encode(b"Hello World", Compression::default(), 64, 64);
    let n = stream.len();
    assert_eq!(&stream[n - 8..n - 4], &[0x56, 0xb1, 0x17, 0x4a]);
    assert_eq!(&stream[n - 4..], &[11, 0, 0, 0]);
}

#[test]
fn hello_world_header() {
    let stream = encode(b"Hello World", Compression::default(), 64, 64);
    assert_eq!(&stream[..10], &[0x1f, 0x8b, 8, 0, 0, 0, 0, 0, 0, 255]);
}

#[test]
fn round_trip_every_level() {
    let data = sample(20_000);
    for level in 0..=9u32 {
        let stream = encode(&data, Compression::new(level), 4096, 4096);
        let (out, err) = decode(&stream, false, 4096, 4096);
        assert_eq!(err, None, "level {}", level);
        assert_eq!(out, data, "level {}", level);
    }
}

#[test]
fn round_trip_named_levels() {
    let data = sample(3_000);
    for lvl in [Compression::none(), Compression::fast(), Compression::best()] {
        let stream = encode(&data, lvl, 700, 300);
        let (out, err) = decode(&stream, false, 300, 700);
        assert_eq!(err, None);
        assert_eq!(out, data);
    }
}

#[test]
fn header_extra_flags_follow_level() {
    assert_eq!(encode(b"x", Compression::best(), 8, 64)[8], 2);
    assert_eq!(encode(b"x", Compression::fast(), 8, 64)[8], 4);
    assert_eq!(encode(b"x", Compression::none(), 8, 64)[8], 4);
    assert_eq!(encode(b"x", Compression::new(5), 8, 64)[8], 0);
}

#[test]
fn empty_input_round_trip() {
    let stream = encode(b"", Compression::default(), 16, 64);
    assert_eq!(&stream[..3], &[0x1f, 0x8b, 8]);
    let n = stream.len();
    assert_eq!(&stream[n - 8..], &[0u8; 8]);
    let (out, err) = decode(&stream, false, 64, 64);
    assert_eq!(err, None);
    assert!(out.is_empty());
}

#[test]
fn encoder_output_does_not_depend_on_buffer_size() {
    let data = sample(5_000);
    let whole = encode(&data, Compression::default(), 5_000, 8_192);
    for room in [1usize, 2, 3, 9, 10, 11, 17, 100] {
        assert_eq!(encode(&data, Compression::default(), 5_000, room), whole, "room {}", room);
    }
}

#[test]
fn encoder_reads_nothing_after_trailer() {
    let mut enc = GzEncoder::new((), Compression::default());
    let mut buf = [0u8; 256];
    let mut total = 0;
    loop {
        let step = enc.read(Fetched::Bytes(&[]), &mut buf);
        match step.action {
            Action::Ready(0) => break,
            Action::Ready(n) => total += n,
            other => panic!("unexpected {:?}", other),
        }
    }
    assert!(total >= 18);
    for _ in 0..3 {
        let step = enc.read(Fetched::Bytes(b"more"), &mut buf);
        assert_eq!(step.consumed, 0);
        assert_eq!(step.action, Action::Ready(0));
    }
}

#[test]
fn encoder_with_empty_buffer_changes_nothing() {
    let mut enc = GzEncoder::new((), Compression::default());
    let mut none: [u8; 0] = [];
    let step = enc.read(Fetched::Bytes(b"abc"), &mut none);
    assert_eq!(step.consumed, 0);
    assert_eq!(step.action, Action::Ready(0));
    let mut buf = [0u8; 10];
    let step = enc.read(Fetched::Bytes(b"abc"), &mut buf);
    assert_eq!(step.action, Action::Ready(10));
    let step = enc.read(Fetched::Bytes(b"abc"), &mut none);
    assert_eq!(step.consumed, 0);
    assert_eq!(step.action, Action::Ready(0));
    let mut rest = Vec::new();
    let data = b"abc";
    let mut pos = 0;
    let mut big = [0u8; 64];
    loop {
        let step = enc.read(Fetched::Bytes(&data[pos..]), &mut big);
        pos += step.consumed;
        match step.action {
            Action::Again => {}
            Action::Ready(0) => break,
            Action::Ready(n) => rest.extend_from_slice(&big[..n]),
            Action::Fail(e) => panic!("{:?}", e),
        }
    }
    let mut stream = buf.to_vec();
    stream.extend_from_slice(&rest);
    let (out, err) = decode(&stream, false, 64, 64);
    assert_eq!(err, None);
    assert_eq!(out, b"abc".to_vec());
}

#[test]
fn encoder_blocked_source_loses_nothing() {
    let data = sample(2_000);
    let mut enc = GzEncoder::new((), Compression::default());
    let mut out = Vec::new();
    let mut buf = [0u8; 33];
    let mut pos = 0;
    let mut turn = 0;
    loop {
        turn += 1;
        let fetched = if turn % 2 == 1 {
            Fetched::WouldBlock
        } else {
            Fetched::Bytes(&data[pos..(pos + 50).min(data.len())])
        };
        let step = enc.read(fetched, &mut buf);
        pos += step.consumed;
        match step.action {
            Action::Again => {}
            Action::Ready(0) => break,
            Action::Ready(n) => out.extend_from_slice(&buf[..n]),
            Action::Fail(GzError::WouldBlock) => {}
            Action::Fail(e) => panic!("{:?}", e),
        }
    }
    assert_eq!(out, encode(&data, Compression::default(), 50, 33));
    let (back, err) = decode(&out, false, 64, 64);
    assert_eq!(err, None);
    assert_eq!(back, data);
}

#[test]
fn encoder_failed_source_is_reported() {
    let mut enc = GzEncoder::new((), Compression::default());
    let mut buf = [0u8; 4];
    let step = enc.read(Fetched::Failed, &mut buf);
    assert_eq!(step.action, Action::Ready(4));
    let mut buf = [0u8; 6];
    let step = enc.read(Fetched::Failed, &mut buf);
    assert_eq!(step.action, Action::Ready(6));
    let step = enc.read(Fetched::Failed, &mut buf);
    assert_eq!(step.action, Action::Fail(GzError::Source));
    let step = enc.read(Fetched::WouldBlock, &mut buf);
    assert_eq!(step.action, Action::Fail(GzError::WouldBlock));
}

#[test]
fn any_segmentation_decodes_alike() {
    let data = sample(4_000);
    let stream = encode(&data, Compression::default(), 4_000, 4_096);
    let (whole, err) = decode(&stream, false, stream.len(), 8_192);
    assert_eq!(err, None);
    assert_eq!(whole, data);
    for chunk in [1usize, 2, 3, 5, 8, 13, 64, 1000] {
        for room in [1usize, 7, 4096] {
            let (out, err) = decode(&stream, false, chunk, room);
            assert_eq!(err, None, "chunk {} room {}", chunk, room);
            assert_eq!(out, whole, "chunk {} room {}", chunk, room);
        }
    }
}

#[test]
fn multi_member_concatenation() {
    let parts: [&[u8]; 4] = [b"alpha", b"", b"beta beta beta", b"gamma"];
    let mut stream = Vec::new();
    let mut plain = Vec::new();
    for (i, p) in parts.iter().enumerate() {
        stream.extend_from_slice(&encode(p, Compression::new(i as u32 * 3), 16, 64));
        plain.extend_from_slice(p);
    }
    for chunk in [1usize, 4, 1000] {
        let (out, err) = decode(&stream, true, chunk, 64);
        assert_eq!(err, None);
        assert_eq!(out, plain);
    }
}

#[test]
fn foo_bar_multi_and_single() {
    let mut stream = encode(b"foo", Compression::default(), 16, 64);
    stream.extend_from_slice(&encode(b"bar", Compression::default(), 16, 64));
    let (out, err) = decode(&stream, true, 1000, 64);
    assert_eq!(err, None);
    assert_eq!(out, b"foobar".to_vec());
    let (out, err) = decode(&stream, false, 1000, 64);
    assert_eq!(err, None);
    assert_eq!(out, b"foo".to_vec());
}

#[test]
fn single_member_decoder_leaves_next_member_unread() {
    let first = encode(b"foo", Compression::default(), 16, 64);
    let mut stream = first.clone();
    stream.extend_from_slice(&encode(b"bar", Compression::default(), 16, 64));
    let mut dec = GzDecoder::new2(());
    let mut buf = [0u8; 64];
    let mut pos = 0;
    let mut out = Vec::new();
    loop {
        let step = dec.read(Fetched::Bytes(&stream[pos..]), &mut buf);
        pos += step.consumed;
        match step.action {
            Action::Again => {}
            Action::Ready(0) => break,
            Action::Ready(n) => out.extend_from_slice(&buf[..n]),
            Action::Fail(e) => panic!("{:?}", e),
        }
    }
    assert_eq!(out, b"foo".to_vec());
    assert_eq!(pos, first.len());
}

#[test]
fn multi_member_garbage_after_member_is_bad_header() {
    let mut stream = encode(b"foo", Compression::default(), 16, 64);
    stream.extend_from_slice(&[0u8; 10]);
    let (out, err) = decode(&stream, true, 1000, 64);
    assert_eq!(out, b"foo".to_vec());
    assert_eq!(err, Some(GzError::BadHeader));
}

#[test]
fn trailer_bit_flips_are_corrupt() {
    let stream = encode(b"Hello World", Compression::default(), 64, 64);
    let n = stream.len();
    for byte in n - 8..n {
        for bit in 0..8 {
            let mut bad = stream.clone();
            bad[byte] ^= 1 << bit;
            let (out, err) = decode(&bad, false, 1000, 64);
            assert_eq!(err, Some(GzError::Corrupt), "byte {} bit {}", byte, bit);
            assert_eq!(out, b"Hello World".to_vec());
        }
    }
}

#[test]
fn body_bit_flips_never_pass_silently() {
    let data = sample(300);
    let stream = encode(&data, Compression::default(), 64, 64);
    let n = stream.len();
    for byte in 10..n - 8 {
        for bit in 0..8 {
            let mut bad = stream.clone();
            bad[byte] ^= 1 << bit;
            let (out, err) = decode(&bad, false, 1000, 64);
            match err {
                None => assert_eq!(out, data, "byte {} bit {}", byte, bit),
                Some(e) => assert!(
                    e == GzError::Corrupt || e == GzError::UnexpectedEof || e == GzError::Deflate,
                    "byte {} bit {}: {:?}",
                    byte,
                    bit,
                    e
                ),
            }
        }
    }
}

#[test]
fn truncation_is_reported() {
    let data = sample(500);
    let stream = encode(&data, Compression::default(), 64, 64);
    for cut in 0..stream.len() {
        for chunk in [1usize, 1000] {
            let (_, err) = decode(&stream[..cut], false, chunk, 64);
            assert!(
                err == Some(GzError::UnexpectedEof) || err == Some(GzError::Corrupt),
                "cut {} chunk {}: {:?}",
                cut,
                chunk,
                err
            );
        }
    }
}

#[test]
fn one_byte_at_a_time_with_would_block() {
    let data = sample(1_000);
    let stream = encode(&data, Compression::default(), 64, 64);
    let mut dec = GzDecoder::new2(());
    let mut buf = [0u8; 16];
    let mut out = Vec::new();
    let mut pos = 0;
    let mut blocked = 0;
    let mut ready = false;
    loop {
        let fetched = if !ready && dec.wants_input(buf.len()) {
            ready = true;
            Fetched::WouldBlock
        } else {
            ready = false;
            Fetched::Bytes(&stream[pos..(pos + 1).min(stream.len())])
        };
        let step = dec.read(fetched, &mut buf);
        pos += step.consumed;
        match step.action {
            Action::Again => {}
            Action::Ready(0) => break,
            Action::Ready(n) => out.extend_from_slice(&buf[..n]),
            Action::Fail(GzError::WouldBlock) => blocked += 1,
            Action::Fail(e) => panic!("{:?}", e),
        }
    }
    assert_eq!(out, data);
    assert!(blocked > stream.len() / 2);
}
