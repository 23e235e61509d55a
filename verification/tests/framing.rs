use bytes::BytesMut;
use tokio_util::codec::{AnyDelimiterCodec, Decoder, Encoder};
use zkmatrix_pool_protocol::message::frame::{find_line_end, LINE_END, MAX_LINE_LENGTH};
use zkmatrix_pool_protocol::message::rpc::{CodecError, Id};
use zkmatrix_pool_protocol::message::stratum::{decode_line, StratumCodec, StratumMessage};

fn lines_codec() -> AnyDelimiterCodec {
    AnyDelimiterCodec::new_with_max_length(vec![b'\n'], vec![b'\n'], 4096)
}

/// Feeds the chunks to both codecs, decoding after each until nothing more
/// comes, and holds every outcome and every buffer against each other.
fn same_as_delimiter_codec(chunks: &[Vec<u8>]) {
    let mut ours = StratumCodec::default();
    let mut theirs = lines_codec();
    let mut our_buf = BytesMut::new();
    let mut their_buf = BytesMut::new();
    for chunk in chunks {
        our_buf.extend_from_slice(chunk);
        their_buf.extend_from_slice(chunk);
        loop {
            let expected = match theirs.decode(&mut their_buf) {
                Ok(Some(line)) => match decode_line(&line) {
                    Ok(message) => Ok(Some(message)),
                    Err(e) => Err(e),
                },
                Ok(None) => Ok(None),
                Err(_) => Err(CodecError::LineTooLong),
            };
            let got = ours.decode(&mut our_buf);
            assert_eq!(got, expected);
            assert_eq!(our_buf, their_buf);
            if got == Ok(None) {
                break;
            }
        }
    }
}

#[test]
fn framing_is_that_of_a_line_delimiter_codec() {
    let ok = b"{\"result\":true,\"id\":1}\n".to_vec();
    let long = vec![b'x'; 5000];
    same_as_delimiter_codec(&[ok.clone()]);
    same_as_delimiter_codec(&[ok[..5].to_vec(), ok[5..].to_vec(), ok.clone(), b"\n\n".to_vec()]);
    same_as_delimiter_codec(&[vec![b'x'; 4096], b"\n".to_vec(), ok.clone()]);
    same_as_delimiter_codec(&[vec![b'x'; 4096], b"x".to_vec(), b"\n".to_vec(), ok.clone()]);
    same_as_delimiter_codec(&[vec![b'x'; 4097], vec![b'\n'], ok.clone()]);
    same_as_delimiter_codec(&[long.clone(), long.clone(), b"end\n".to_vec(), ok.clone()]);
    same_as_delimiter_codec(&[[long.clone(), b"\n".to_vec(), ok.clone(), long.clone()].concat(), ok.clone()]);
    same_as_delimiter_codec(&[vec![b'x'; 9000], [vec![b'y'; 9000], b"\n".to_vec()].concat(), ok.clone()]);
    same_as_delimiter_codec(&[[vec![b'x'; 4096], b"\n".to_vec(), vec![b'y'; 4097], b"\n".to_vec()].concat(), ok]);
    same_as_delimiter_codec(&[b"\n".to_vec(), Vec::new(), b"\r\n".to_vec()]);
}

#[test]
fn frames_are_those_of_a_line_delimiter_codec() {
    let messages = vec![
        StratumMessage::Submit(Id::Num(1), "job".to_string(), "proof\nwith line feed".to_string()),
        StratumMessage::Notify("j".to_string(), "c".to_string(), "a".to_string(), false),
    ];
    for message in messages {
        let mut ours = BytesMut::from(&b"before"[..]);
        StratumCodec::default().encode(message.clone(), &mut ours).unwrap();
        let line = ours[6..ours.len() - 1].to_vec();
        let mut theirs = BytesMut::from(&b"before"[..]);
        lines_codec().encode(std::str::from_utf8(&line).unwrap(), &mut theirs).unwrap();
        assert_eq!(ours, theirs);
        assert_eq!(decode_line(&line), Ok(message));
    }
}

#[test]
fn find_line_end_looks_at_the_first_bytes_only() {
    assert_eq!(MAX_LINE_LENGTH, 4096);
    assert_eq!(LINE_END, b'\n');
    assert_eq!(find_line_end(b"", 0), None);
    assert_eq!(find_line_end(b"abc", 3), None);
    assert_eq!(find_line_end(b"\n", 1), Some(0));
    assert_eq!(find_line_end(b"ab\ncd\n", 6), Some(2));
    assert_eq!(find_line_end(b"ab\ncd\n", 3), Some(2));
    assert_eq!(find_line_end(b"ab\ncd\n", 2), None);
    assert_eq!(find_line_end(b"ab\r", 3), None);
}
