use bytes::BytesMut;
use zkmatrix_pool_protocol::message::error::PoolError::InvalidProof;
use zkmatrix_pool_protocol::message::response::{ResponseMessage, Scalar};
use zkmatrix_pool_protocol::message::rpc::{CodecError, Id, RpcError};
use zkmatrix_pool_protocol::message::stratum::{decode_line, StratumCodec, StratumMessage};
use zkmatrix_pool_protocol::version::{min_supported_protocol_version, PROTOCOL_PREFIX};

fn frame_of(msg: StratumMessage) -> BytesMut {
    let mut buf = BytesMut::new();
    StratumCodec::default().encode(msg, &mut buf).unwrap();
    buf
}

fn decode_text(text: &str) -> Result<Option<StratumMessage>, CodecError> {
    let mut buf = BytesMut::from(text.as_bytes());
    StratumCodec::default().decode(&mut buf)
}

fn roundtrip(msg: StratumMessage) -> StratumMessage {
    let mut codec = StratumCodec::default();
    let mut buf = BytesMut::new();
    codec.encode(msg, &mut buf).unwrap();
    let res = codec.decode(&mut buf).unwrap().unwrap();
    assert!(buf.is_empty());
    res
}

#[test]
fn test_encode_decode() {
    let mut codec = StratumCodec::default();
    //Subscribe
    let msg = StratumMessage::Subscribe(
        Id::Num(0),
        "ABMatrix_Aleo_Miner".to_string(),
        "ABMatrix_Aleo_Miner_4".to_string(),
        Some("session".to_string()),
    );
    let mut buf1 = BytesMut::new();
    codec.encode(msg, &mut buf1).unwrap();
    let res = codec.decode(&mut buf1.clone()).unwrap().unwrap();
    let mut buf2 = BytesMut::new();
    codec.encode(res, &mut buf2).unwrap();
    assert_eq!(buf1, buf2);

    //Authorize
    let msg = StratumMessage::Authorize(
        Id::Num(0),
        "account_name".to_string(),
        "worker_name".to_string(),
        None,
    );
    let mut buf1 = BytesMut::new();
    codec.encode(msg, &mut buf1).unwrap();
    let res = codec.decode(&mut buf1.clone()).unwrap().unwrap();
    let mut buf2 = BytesMut::new();
    codec.encode(res, &mut buf2).unwrap();
    assert_eq!(buf1, buf2);

    // LocalSpeed
    let msg = StratumMessage::LocalSpeed(Id::Num(0), "100".to_string());
    let mut buf1 = BytesMut::new();
    codec.encode(msg, &mut buf1).unwrap();
    let res = codec.decode(&mut buf1.clone()).unwrap().unwrap();
    let mut buf2 = BytesMut::new();
    codec.encode(res, &mut buf2).unwrap();
    assert_eq!(buf1, buf2);

    //Notify
    let msg = StratumMessage::Notify(
        "job_id".to_string(),
        "block_header_root".to_string(),
        "hashed_leaves_1".to_string(),
        false,
    );
    let mut buf1 = BytesMut::new();
    codec.encode(msg, &mut buf1).unwrap();
    let res = codec.decode(&mut buf1.clone()).unwrap().unwrap();
    let mut buf2 = BytesMut::new();
    codec.encode(res, &mut buf2).unwrap();
    assert_eq!(buf1, buf2);

    // Submit
    let msg = StratumMessage::Submit(Id::Num(0), "job_id".to_string(), "proof".to_string());
    let mut buf1 = BytesMut::new();
    codec.encode(msg, &mut buf1).unwrap();
    let res = codec.decode(&mut buf1.clone()).unwrap().unwrap();
    let mut buf2 = BytesMut::new();
    codec.encode(res, &mut buf2).unwrap();
    assert_eq!(buf1, buf2);

    // Response(Id, Option<ResponseMessage>, Option<RpcError>),
    let error = RpcError {
        code: -32602,
        message: InvalidProof(Some("test error".to_string())).to_string(),
    };
    let msg = StratumMessage::Response(Id::Num(0), None, Some(error));
    let mut buf1 = BytesMut::new();
    codec.encode(msg, &mut buf1).unwrap();
    let res = codec.decode(&mut buf1.clone()).unwrap().unwrap();
    let mut buf2 = BytesMut::new();
    codec.encode(res, &mut buf2).unwrap();
    assert_eq!(buf1, buf2);
}

#[test]
fn test_request() {
    let protocol_version = format!(
        "{}/{}.{}.{}",
        PROTOCOL_PREFIX,
        min_supported_protocol_version().major,
        min_supported_protocol_version().minor,
        min_supported_protocol_version().patch
    );
    let request = json_rpc_types::Request {
        jsonrpc: json_rpc_types::Version::V2,
        method: "mining.subscribe",
        params: Some((
            "ABMatrix_ZKWork_Miner".to_string(),
            protocol_version.clone(),
            None::<String>,
        )),
        id: Some(json_rpc_types::Id::Num(0)),
    };
    let vec1 = serde_json::to_vec(&request).unwrap_or_default();
    let string = std::str::from_utf8(&vec1).unwrap();
    println!("{:?}", string);
    let buf = frame_of(StratumMessage::Subscribe(
        Id::Num(0),
        "ABMatrix_ZKWork_Miner".to_string(),
        protocol_version,
        None,
    ));
    println!("{:?}", buf);
    assert_eq!(&buf[..buf.len() - 1], string.as_bytes());
    assert_eq!(buf[buf.len() - 1], b'\n');
}

#[test]
fn test_response_array_string() {
    let response_params =
        vec![Scalar::Str("SERVER_AGENT1".to_string()), Scalar::Str("SERVER_AGENT2".to_string())];

    let pa = ResponseMessage::Array(response_params);

    let response = StratumMessage::Response(Id::Num(1), Some(pa), None);
    let mut codec = StratumCodec::default();
    let mut buf1 = BytesMut::new();
    codec.encode(response, &mut buf1).unwrap();
    println!("{:?}", buf1.clone());
    let result = codec.decode(&mut buf1).unwrap().unwrap();
    if let StratumMessage::Response(id, res, _error) = result {
        println!("{:?}", id);
        match res {
            None => panic!("no result"),
            Some(msg) => match msg {
                ResponseMessage::Array(agent) => {
                    assert_eq!(agent.len(), 2);
                    assert_eq!(agent[0], Scalar::Str("SERVER_AGENT1".to_string()));
                    assert_eq!(agent[1], Scalar::Str("SERVER_AGENT2".to_string()));
                }
                _ => panic!("no array"),
            },
        }
    } else {
        panic!("no response");
    }
}

#[test]
fn encode_writes_exact_frames() {
    let buf = frame_of(StratumMessage::Subscribe(
        Id::Num(0),
        "ABMatrix_Aleo_Miner".to_string(),
        "ABMatrix_Aleo_Miner_4".to_string(),
        Some("session".to_string()),
    ));
    assert_eq!(
        &buf[..],
        &b"{\"jsonrpc\":\"2.0\",\"method\":\"mining.subscribe\",\"params\":[\"ABMatrix_Aleo_Miner\",\"ABMatrix_Aleo_Miner_4\",\"session\"],\"id\":0}\n"[..]
    );
    let buf = frame_of(StratumMessage::Authorize(
        Id::Str("a-1".to_string()),
        "account_name".to_string(),
        "worker_name".to_string(),
        None,
    ));
    assert_eq!(
        &buf[..],
        &b"{\"jsonrpc\":\"2.0\",\"method\":\"mining.authorize\",\"params\":[\"account_name\",\"worker_name\",null],\"id\":\"a-1\"}\n"[..]
    );
    let buf = frame_of(StratumMessage::Notify(
        "job1".to_string(),
        "challenge".to_string(),
        "addr".to_string(),
        true,
    ));
    assert_eq!(
        &buf[..],
        &b"{\"jsonrpc\":\"2.0\",\"method\":\"mining.notify\",\"params\":[\"job1\",\"challenge\",\"addr\",true]}\n"[..]
    );
    let buf = frame_of(StratumMessage::LocalSpeed(Id::Num(7), "12.5".to_string()));
    assert_eq!(
        &buf[..],
        &b"{\"jsonrpc\":\"2.0\",\"method\":\"mining.local_speed\",\"params\":[\"12.5\"],\"id\":7}\n"[..]
    );
    let buf = frame_of(StratumMessage::Submit(
        Id::Num(u64::MAX),
        "job_id".to_string(),
        "solution".to_string(),
    ));
    assert_eq!(
        &buf[..],
        &b"{\"jsonrpc\":\"2.0\",\"method\":\"mining.submit\",\"params\":[\"job_id\",\"solution\"],\"id\":18446744073709551615}\n"[..]
    );
    let buf = frame_of(StratumMessage::Response(Id::Num(5), Some(ResponseMessage::Bool(true)), None));
    assert_eq!(&buf[..], &b"{\"jsonrpc\":\"2.0\",\"result\":true,\"id\":5}\n"[..]);
    let buf = frame_of(StratumMessage::Response(
        Id::Num(5),
        Some(ResponseMessage::Array(vec![
            Scalar::Str("a".to_string()),
            Scalar::UInt(7),
            Scalar::Null,
        ])),
        None,
    ));
    assert_eq!(&buf[..], &b"{\"jsonrpc\":\"2.0\",\"result\":[\"a\",7,null],\"id\":5}\n"[..]);
    let buf = frame_of(StratumMessage::Response(Id::Num(5), Some(ResponseMessage::Null), None));
    assert_eq!(&buf[..], &b"{\"jsonrpc\":\"2.0\",\"result\":null,\"id\":5}\n"[..]);
    let buf = frame_of(StratumMessage::Response(Id::Num(5), None, None));
    assert_eq!(&buf[..], &b"{\"jsonrpc\":\"2.0\",\"result\":null,\"id\":5}\n"[..]);
    let error = RpcError { code: -32602, message: "InvalidProoftest error".to_string() };
    let buf = frame_of(StratumMessage::Response(Id::Num(0), None, Some(error.clone())));
    assert_eq!(
        &buf[..],
        &b"{\"jsonrpc\":\"2.0\",\"error\":{\"code\":-32602,\"message\":\"InvalidProoftest error\"},\"id\":0}\n"[..]
    );
    // With both a result and an error, the error is what is written.
    let both = frame_of(StratumMessage::Response(
        Id::Num(0),
        Some(ResponseMessage::Bool(true)),
        Some(error),
    ));
    assert_eq!(both, buf);
}

#[test]
fn encode_appends_to_what_the_buffer_holds() {
    let mut codec = StratumCodec::default();
    let mut buf = BytesMut::from(&b"kept"[..]);
    codec.encode(StratumMessage::LocalSpeed(Id::Num(1), "1".to_string()), &mut buf).unwrap();
    codec.encode(StratumMessage::LocalSpeed(Id::Num(2), "2".to_string()), &mut buf).unwrap();
    assert_eq!(
        &buf[..],
        &b"kept{\"jsonrpc\":\"2.0\",\"method\":\"mining.local_speed\",\"params\":[\"1\"],\"id\":1}\n{\"jsonrpc\":\"2.0\",\"method\":\"mining.local_speed\",\"params\":[\"2\"],\"id\":2}\n"[..]
    );
}

#[test]
fn roundtrip_of_every_variant() {
    let messages = vec![
        StratumMessage::Subscribe(Id::Num(1), "ua".to_string(), "1.0".to_string(), None),
        StratumMessage::Subscribe(
            Id::Str("subscribe-1".to_string()),
            "ua".to_string(),
            "ABMatrix/0.2.0".to_string(),
            Some("s".to_string()),
        ),
        StratumMessage::Authorize(
            Id::Num(u64::MAX),
            "account".to_string(),
            "worker".to_string(),
            Some("secret".to_string()),
        ),
        StratumMessage::Authorize(Id::Num(2), String::new(), String::new(), None),
        StratumMessage::Notify(
            "job1".to_string(),
            "challenge".to_string(),
            "addr".to_string(),
            true,
        ),
        StratumMessage::Notify(String::new(), String::new(), String::new(), false),
        StratumMessage::LocalSpeed(Id::Num(3), "3.14".to_string()),
        StratumMessage::Submit(Id::Num(4), "job1".to_string(), "00ff".to_string()),
        StratumMessage::Response(Id::Num(5), Some(ResponseMessage::Bool(true)), None),
        StratumMessage::Response(Id::Num(5), Some(ResponseMessage::Bool(false)), None),
        StratumMessage::Response(Id::Num(6), Some(ResponseMessage::Null), None),
        StratumMessage::Response(Id::Num(7), Some(ResponseMessage::Array(vec![])), None),
        StratumMessage::Response(
            Id::Str("r".to_string()),
            Some(ResponseMessage::Array(vec![
                Scalar::Str("a".to_string()),
                Scalar::UInt(7),
                Scalar::Null,
                Scalar::UInt(u64::MAX),
                Scalar::Str(String::new()),
            ])),
            None,
        ),
        StratumMessage::Response(
            Id::Num(8),
            None,
            Some(RpcError { code: -32602, message: "StaleProof".to_string() }),
        ),
        StratumMessage::Response(
            Id::Num(9),
            None,
            Some(RpcError { code: i64::MAX, message: String::new() }),
        ),
        StratumMessage::Response(
            Id::Num(10),
            None,
            Some(RpcError {
                code: i64::MIN,
                message: "InvalidProofa reason that is longer than thirty-one bytes".to_string(),
            }),
        ),
        StratumMessage::Response(Id::Num(11), None, Some(RpcError { code: 0, message: "x".to_string() })),
    ];
    for msg in messages {
        assert_eq!(roundtrip(msg.clone()), msg);
    }
}

#[test]
fn roundtrip_of_text_that_needs_escaping() {
    let msg = StratumMessage::Submit(
        Id::Str("line\nfeed \"quoted\" \\ tab\t".to_string()),
        "job\n1\r\n".to_string(),
        "ünïcödé ✓ \u{1F600} \u{0}".to_string(),
    );
    let buf = frame_of(msg.clone());
    // The only line feed of a frame is its last byte.
    assert_eq!(buf.iter().filter(|b| **b == b'\n').count(), 1);
    assert_eq!(buf[buf.len() - 1], b'\n');
    assert_eq!(roundtrip(msg.clone()), msg);
}

#[test]
fn notify_roundtrip_is_exact() {
    let msg = StratumMessage::Notify(
        "job1".to_string(),
        "challenge".to_string(),
        "addr".to_string(),
        true,
    );
    assert_eq!(
        roundtrip(msg),
        StratumMessage::Notify(
            "job1".to_string(),
            "challenge".to_string(),
            "addr".to_string(),
            true
        )
    );
}

#[test]
fn response_without_result_or_error_reads_back_with_a_null_result() {
    let res = roundtrip(StratumMessage::Response(Id::Num(3), None, None));
    assert_eq!(res, StratumMessage::Response(Id::Num(3), Some(ResponseMessage::Null), None));
    let error = RpcError { code: 1, message: "ServerNotReady".to_string() };
    let res = roundtrip(StratumMessage::Response(
        Id::Num(3),
        Some(ResponseMessage::Bool(true)),
        Some(error.clone()),
    ));
    assert_eq!(res, StratumMessage::Response(Id::Num(3), None, Some(error)));
}

#[test]
fn decode_subscribe_with_two_params_fails() {
    let res = decode_text(
        "{\"jsonrpc\":\"2.0\",\"method\":\"mining.subscribe\",\"params\":[\"ua\",\"1.0\"],\"id\":1}\n",
    );
    assert_eq!(res, Err(CodecError::InvalidParams));
}

#[test]
fn decode_responses() {
    let res = decode_text("{\"jsonrpc\":\"2.0\",\"result\":true,\"id\":5}\n");
    assert_eq!(
        res,
        Ok(Some(StratumMessage::Response(Id::Num(5), Some(ResponseMessage::Bool(true)), None)))
    );
    let res = decode_text("{\"jsonrpc\":\"2.0\",\"result\":[\"a\", 7, null],\"id\":5}\n");
    assert_eq!(
        res,
        Ok(Some(StratumMessage::Response(
            Id::Num(5),
            Some(ResponseMessage::Array(vec![
                Scalar::Str("a".to_string()),
                Scalar::UInt(7),
                Scalar::Null
            ])),
            None
        )))
    );
    let res = decode_text("{\"jsonrpc\":\"2.0\",\"result\":null,\"id\":5}\n");
    assert_eq!(
        res,
        Ok(Some(StratumMessage::Response(Id::Num(5), Some(ResponseMessage::Null), None)))
    );
    let res = decode_text(
        "{\"id\":\"x\",\"error\":{\"message\":\"StaleProof\",\"code\":-1,\"data\":null},\"result\":null}\n",
    );
    assert_eq!(
        res,
        Ok(Some(StratumMessage::Response(
            Id::Str("x".to_string()),
            None,
            Some(RpcError { code: -1, message: "StaleProof".to_string() })
        )))
    );
    // A null error is no error.
    let res = decode_text("{\"result\":false,\"error\":null}\n");
    assert_eq!(
        res,
        Ok(Some(StratumMessage::Response(Id::Num(0), Some(ResponseMessage::Bool(false)), None)))
    );
}

#[test]
fn decode_unknown_method_fails() {
    let res = decode_text(
        "{\"jsonrpc\":\"2.0\",\"method\":\"mining.unknown\",\"params\":[],\"id\":1}\n",
    );
    assert_eq!(res, Err(CodecError::UnknownMethod));
    assert_eq!(CodecError::UnknownMethod.message(), "Unknown method");
    let res = decode_text(
        "{\"jsonrpc\":\"2.0\",\"method\":\"mining.response\",\"params\":[],\"id\":1}\n",
    );
    assert_eq!(res, Err(CodecError::UnknownMethod));
    let res = decode_text(
        "{\"jsonrpc\":\"2.0\",\"method\":\"mining.set_target\",\"params\":[1],\"id\":1}\n",
    );
    assert_eq!(res, Err(CodecError::UnknownMethod));
}

#[test]
fn decode_requests() {
    assert_eq!(
        decode_text("{\"jsonrpc\":\"2.0\",\"method\":\"mining.subscribe\",\"params\":[\"ua\",\"1.0\",null],\"id\":1}\n"),
        Ok(Some(StratumMessage::Subscribe(Id::Num(1), "ua".to_string(), "1.0".to_string(), None)))
    );
    assert_eq!(
        decode_text("{\"method\":\"mining.authorize\",\"id\":\"k\",\"params\":[\"a\",\"w\",\"p\"]}\n"),
        Ok(Some(StratumMessage::Authorize(
            Id::Str("k".to_string()),
            "a".to_string(),
            "w".to_string(),
            Some("p".to_string())
        )))
    );
    assert_eq!(
        decode_text("{\"jsonrpc\":\"2.0\",\"method\":\"mining.notify\",\"params\":[\"j\",\"c\",\"a\",false]}\n"),
        Ok(Some(StratumMessage::Notify("j".to_string(), "c".to_string(), "a".to_string(), false)))
    );
    // The id of a notify is not kept.
    assert_eq!(
        decode_text("{\"jsonrpc\":\"2.0\",\"method\":\"mining.notify\",\"params\":[\"j\",\"c\",\"a\",true],\"id\":9}\n"),
        Ok(Some(StratumMessage::Notify("j".to_string(), "c".to_string(), "a".to_string(), true)))
    );
    assert_eq!(
        decode_text("{\"jsonrpc\":\"2.0\",\"method\":\"mining.local_speed\",\"params\":[\"1.5\"],\"id\":2}\n"),
        Ok(Some(StratumMessage::LocalSpeed(Id::Num(2), "1.5".to_string())))
    );
    assert_eq!(
        decode_text("{\"jsonrpc\":\"2.0\",\"method\":\"mining.submit\",\"params\":[\"j\",\"s\"],\"id\":3}\n"),
        Ok(Some(StratumMessage::Submit(Id::Num(3), "j".to_string(), "s".to_string())))
    );
}

#[test]
fn decode_missing_id_is_zero() {
    assert_eq!(
        decode_text("{\"jsonrpc\":\"2.0\",\"method\":\"mining.submit\",\"params\":[\"j\",\"s\"]}\n"),
        Ok(Some(StratumMessage::Submit(Id::Num(0), "j".to_string(), "s".to_string())))
    );
    assert_eq!(
        decode_text("{\"jsonrpc\":\"2.0\",\"method\":\"mining.local_speed\",\"params\":[\"1\"],\"id\":null}\n"),
        Ok(Some(StratumMessage::LocalSpeed(Id::Num(0), "1".to_string())))
    );
    assert_eq!(
        decode_text("{\"jsonrpc\":\"2.0\",\"result\":true}\n"),
        Ok(Some(StratumMessage::Response(Id::Num(0), Some(ResponseMessage::Bool(true)), None)))
    );
}

#[test]
fn decode_errors_by_kind() {
    let cases: Vec<(&str, CodecError)> = vec![
        ("not json\n", CodecError::InvalidJson),
        ("\n", CodecError::InvalidJson),
        ("{\"method\":\n", CodecError::InvalidJson),
        ("[1,2]\n", CodecError::NotAnObject),
        ("\"text\"\n", CodecError::NotAnObject),
        ("null\n", CodecError::NotAnObject),
        ("7\n", CodecError::NotAnObject),
        ("{\"method\":7,\"params\":[]}\n", CodecError::InvalidRequest),
        ("{\"method\":null,\"params\":[]}\n", CodecError::InvalidRequest),
        ("{\"jsonrpc\":\"1.0\",\"method\":\"mining.submit\",\"params\":[\"j\",\"s\"]}\n", CodecError::InvalidRequest),
        ("{\"jsonrpc\":2,\"method\":\"mining.submit\",\"params\":[\"j\",\"s\"]}\n", CodecError::InvalidRequest),
        ("{\"method\":\"mining.submit\",\"params\":[\"j\",\"s\"],\"extra\":1}\n", CodecError::InvalidRequest),
        ("{\"method\":\"mining.submit\",\"params\":{\"a\":1}}\n", CodecError::InvalidRequest),
        ("{\"method\":\"mining.submit\",\"params\":[\"j\",\"s\"],\"id\":-1}\n", CodecError::InvalidRequest),
        ("{\"method\":\"mining.submit\",\"params\":[\"j\",\"s\"],\"id\":1.5}\n", CodecError::InvalidRequest),
        ("{\"method\":\"mining.submit\",\"params\":[\"j\",\"s\"],\"id\":true}\n", CodecError::InvalidRequest),
        ("{\"method\":\"mining.submit\",\"params\":[\"j\",\"s\"],\"id\":[1]}\n", CodecError::InvalidRequest),
        ("{\"method\":\"mining.submit\",\"id\":1}\n", CodecError::NoParams),
        ("{\"method\":\"mining.submit\",\"params\":null,\"id\":1}\n", CodecError::NoParams),
        ("{\"method\":\"mining.unknown\",\"id\":1}\n", CodecError::NoParams),
        ("{\"method\":\"\",\"params\":[]}\n", CodecError::UnknownMethod),
        ("{\"method\":\"Mining.Submit\",\"params\":[\"j\",\"s\"]}\n", CodecError::UnknownMethod),
        ("{\"method\":\"mining.subscribe\",\"params\":[]}\n", CodecError::InvalidParams),
        ("{\"method\":\"mining.subscribe\",\"params\":[\"a\",\"b\",null,null]}\n", CodecError::InvalidParams),
        ("{\"method\":\"mining.subscribe\",\"params\":[\"a\",\"b\",3]}\n", CodecError::InvalidParams),
        ("{\"method\":\"mining.authorize\",\"params\":[\"a\",\"b\"]}\n", CodecError::InvalidParams),
        ("{\"method\":\"mining.authorize\",\"params\":[\"a\",\"b\",false]}\n", CodecError::InvalidParams),
        ("{\"method\":\"mining.notify\",\"params\":[\"a\",\"b\",\"c\"]}\n", CodecError::InvalidParams),
        ("{\"method\":\"mining.local_speed\",\"params\":[]}\n", CodecError::InvalidParams),
        ("{\"method\":\"mining.submit\",\"params\":[\"j\",\"n\",\"p\"]}\n", CodecError::InvalidParams),
        ("{\"method\":\"mining.subscribe\",\"params\":[1,2,3]}\n", CodecError::ParamNotStr(0)),
        ("{\"method\":\"mining.subscribe\",\"params\":[\"a\",null,3]}\n", CodecError::ParamNotStr(1)),
        ("{\"method\":\"mining.authorize\",\"params\":[null,\"b\",null]}\n", CodecError::ParamNotStr(0)),
        ("{\"method\":\"mining.notify\",\"params\":[\"a\",\"b\",7,true]}\n", CodecError::ParamNotStr(2)),
        ("{\"method\":\"mining.notify\",\"params\":[\"a\",\"b\",\"c\",\"true\"]}\n", CodecError::ParamNotBool(3)),
        ("{\"method\":\"mining.notify\",\"params\":[\"a\",\"b\",\"c\",1]}\n", CodecError::ParamNotBool(3)),
        ("{\"method\":\"mining.local_speed\",\"params\":[1.5]}\n", CodecError::ParamNotStr(0)),
        ("{\"method\":\"mining.submit\",\"params\":[\"j\",[\"s\"]]}\n", CodecError::ParamNotStr(1)),
        ("{}\n", CodecError::InvalidResponse),
        ("{\"jsonrpc\":\"2.0\",\"id\":1}\n", CodecError::InvalidResponse),
        ("{\"result\":true,\"extra\":1}\n", CodecError::InvalidResponse),
        ("{\"jsonrpc\":\"2.1\",\"result\":true}\n", CodecError::InvalidResponse),
        ("{\"result\":true,\"id\":{}}\n", CodecError::InvalidResponse),
        ("{\"result\":true,\"id\":-5}\n", CodecError::InvalidResponse),
        ("{\"error\":null,\"id\":1}\n", CodecError::InvalidResponse),
        ("{\"result\":true,\"error\":{\"code\":1,\"message\":\"m\"}}\n", CodecError::InvalidResponse),
        ("{\"error\":{\"code\":1}}\n", CodecError::InvalidResponse),
        ("{\"error\":{\"message\":\"m\"}}\n", CodecError::InvalidResponse),
        ("{\"error\":{\"code\":\"1\",\"message\":\"m\"}}\n", CodecError::InvalidResponse),
        ("{\"error\":{\"code\":1.5,\"message\":\"m\"}}\n", CodecError::InvalidResponse),
        ("{\"error\":{\"code\":9223372036854775808,\"message\":\"m\"}}\n", CodecError::InvalidResponse),
        ("{\"error\":{\"code\":1,\"message\":7}}\n", CodecError::InvalidResponse),
        ("{\"error\":{\"code\":1,\"message\":\"m\",\"data\":1}}\n", CodecError::InvalidResponse),
        ("{\"error\":{\"code\":1,\"message\":\"m\",\"more\":null}}\n", CodecError::InvalidResponse),
        ("{\"error\":\"StaleProof\"}\n", CodecError::InvalidResponse),
        ("{\"result\":{\"a\":1},\"id\":1}\n", CodecError::InvalidResponseParams),
        ("{\"result\":\"ok\",\"id\":1}\n", CodecError::InvalidResponseParams),
        ("{\"result\":1,\"id\":1}\n", CodecError::InvalidResponseParams),
    ];
    for (text, error) in cases {
        assert_eq!(decode_text(text), Err(error), "{}", text);
    }
}

#[test]
fn decode_error_messages() {
    assert_eq!(CodecError::NotAnObject.message(), "Not an object");
    assert_eq!(CodecError::NoParams.message(), "No params");
    assert_eq!(CodecError::InvalidParams.message(), "Invalid params");
    assert_eq!(CodecError::ParamNotStr(2).message(), "Param is not str");
    assert_eq!(CodecError::ParamNotBool(3).message(), "Param is not bool");
    assert_eq!(CodecError::InvalidResponseParams.message(), "invalid response params");
}

#[test]
fn decode_array_result_leaves_out_other_values() {
    let res = decode_text(
        "{\"result\":[\"a\",7,null,1.5,-3,true,[1],{\"k\":1},18446744073709551615,1e2,\"\"],\"id\":1}\n",
    );
    assert_eq!(
        res,
        Ok(Some(StratumMessage::Response(
            Id::Num(1),
            Some(ResponseMessage::Array(vec![
                Scalar::Str("a".to_string()),
                Scalar::UInt(7),
                Scalar::Null,
                Scalar::UInt(u64::MAX),
                Scalar::Str(String::new()),
            ])),
            None
        )))
    );
}

#[test]
fn decode_invalid_utf8_fails() {
    let mut buf = BytesMut::from(&b"{\"result\":\"\xff\xfe\"}\n"[..]);
    assert_eq!(StratumCodec::default().decode(&mut buf), Err(CodecError::InvalidJson));
    assert_eq!(decode_line(b"{\"result\":\"\xc3\"}"), Err(CodecError::InvalidJson));
}

#[test]
fn decode_line_reads_one_line() {
    assert_eq!(
        decode_line(b"{\"result\":true,\"id\":5}"),
        Ok(StratumMessage::Response(Id::Num(5), Some(ResponseMessage::Bool(true)), None))
    );
    assert_eq!(decode_line(b""), Err(CodecError::InvalidJson));
    assert_eq!(decode_line(b"{\"result\":true} {}"), Err(CodecError::InvalidJson));
}

#[test]
fn decode_waits_for_a_whole_line() {
    let text = b"{\"jsonrpc\":\"2.0\",\"result\":true,\"id\":5}\n";
    let mut codec = StratumCodec::default();
    let mut buf = BytesMut::new();
    assert_eq!(codec.decode(&mut buf), Ok(None));
    for byte in &text[..text.len() - 1] {
        buf.extend_from_slice(&[*byte]);
        assert_eq!(codec.decode(&mut buf), Ok(None));
    }
    assert_eq!(&buf[..], &text[..text.len() - 1]);
    buf.extend_from_slice(b"\n{\"res");
    assert_eq!(
        codec.decode(&mut buf),
        Ok(Some(StratumMessage::Response(Id::Num(5), Some(ResponseMessage::Bool(true)), None)))
    );
    assert_eq!(&buf[..], &b"{\"res"[..]);
    assert_eq!(codec.decode(&mut buf), Ok(None));
    assert_eq!(&buf[..], &b"{\"res"[..]);
}

#[test]
fn decode_takes_one_message_per_call() {
    let mut codec = StratumCodec::default();
    let mut buf = BytesMut::new();
    codec.encode(StratumMessage::LocalSpeed(Id::Num(1), "1".to_string()), &mut buf).unwrap();
    codec.encode(StratumMessage::LocalSpeed(Id::Num(2), "2".to_string()), &mut buf).unwrap();
    buf.extend_from_slice(b"bad\n");
    codec.encode(StratumMessage::LocalSpeed(Id::Num(3), "3".to_string()), &mut buf).unwrap();
    assert_eq!(
        codec.decode(&mut buf),
        Ok(Some(StratumMessage::LocalSpeed(Id::Num(1), "1".to_string())))
    );
    assert_eq!(
        codec.decode(&mut buf),
        Ok(Some(StratumMessage::LocalSpeed(Id::Num(2), "2".to_string())))
    );
    // A line that is no message is taken out, and the next one is read.
    assert_eq!(codec.decode(&mut buf), Err(CodecError::InvalidJson));
    assert_eq!(
        codec.decode(&mut buf),
        Ok(Some(StratumMessage::LocalSpeed(Id::Num(3), "3".to_string())))
    );
    assert_eq!(codec.decode(&mut buf), Ok(None));
    assert!(buf.is_empty());
}

fn submit_of_length(len: usize) -> Vec<u8> {
    // A submit whose line, without the line feed, has `len` bytes.
    let head = "{\"method\":\"mining.submit\",\"params\":[\"j\",\"";
    let tail = "\"]}";
    let fill = len - head.len() - tail.len();
    let mut text = Vec::new();
    text.extend_from_slice(head.as_bytes());
    text.extend(std::iter::repeat(b'a').take(fill));
    text.extend_from_slice(tail.as_bytes());
    assert_eq!(text.len(), len);
    text
}

#[test]
fn decode_line_of_the_greatest_length() {
    let mut buf = BytesMut::from(&submit_of_length(4096)[..]);
    let mut codec = StratumCodec::default();
    assert_eq!(codec.decode(&mut buf), Ok(None));
    buf.extend_from_slice(b"\n");
    match codec.decode(&mut buf) {
        Ok(Some(StratumMessage::Submit(Id::Num(0), job, solution))) => {
            assert_eq!(job, "j");
            assert_eq!(solution.len(), 4052);
        }
        other => panic!("{:?}", other),
    }
    assert!(buf.is_empty());
}

#[test]
fn decode_line_that_is_too_long_fails() {
    // 4097 bytes and then the line feed: one byte too many.
    let mut text = submit_of_length(4097);
    text.push(b'\n');
    let mut buf = BytesMut::from(&text[..]);
    let mut codec = StratumCodec::default();
    assert_eq!(codec.decode(&mut buf), Err(CodecError::LineTooLong));
    assert_eq!(CodecError::LineTooLong.message(), "Line length limit exceeded");
    // Nothing was taken out.
    assert_eq!(&buf[..], &text[..]);

    // Without a line feed the error comes as soon as 4097 bytes are there.
    let mut codec = StratumCodec::default();
    let mut buf = BytesMut::from(&vec![b'x'; 4096][..]);
    assert_eq!(codec.decode(&mut buf), Ok(None));
    buf.extend_from_slice(b"x");
    assert_eq!(codec.decode(&mut buf), Err(CodecError::LineTooLong));
    assert_eq!(buf.len(), 4097);
}

#[test]
fn decode_drops_the_rest_of_a_line_that_was_too_long() {
    let mut codec = StratumCodec::default();
    let mut buf = BytesMut::from(&vec![b'x'; 5000][..]);
    assert_eq!(codec.decode(&mut buf), Err(CodecError::LineTooLong));
    // No line feed yet: all that is there is dropped.
    assert_eq!(codec.decode(&mut buf), Ok(None));
    assert!(buf.is_empty());
    buf.extend_from_slice(b"more of the long line");
    assert_eq!(codec.decode(&mut buf), Ok(None));
    assert!(buf.is_empty());
    buf.extend_from_slice(b"its end\n{\"result\":true,\"id\":1}\n{\"result\":false");
    assert_eq!(
        codec.decode(&mut buf),
        Ok(Some(StratumMessage::Response(Id::Num(1), Some(ResponseMessage::Bool(true)), None)))
    );
    assert_eq!(&buf[..], &b"{\"result\":false"[..]);
    assert_eq!(codec.decode(&mut buf), Ok(None));
}

#[test]
fn message_names() {
    assert_eq!(
        StratumMessage::Subscribe(Id::Num(0), String::new(), String::new(), None).name(),
        "mining.subscribe"
    );
    assert_eq!(
        StratumMessage::Authorize(Id::Num(0), String::new(), String::new(), None).name(),
        "mining.authorize"
    );
    assert_eq!(
        StratumMessage::Notify(String::new(), String::new(), String::new(), false).name(),
        "mining.notify"
    );
    assert_eq!(StratumMessage::LocalSpeed(Id::Num(0), String::new()).name(), "mining.local_speed");
    assert_eq!(
        StratumMessage::Submit(Id::Num(0), String::new(), String::new()).name(),
        "mining.submit"
    );
    assert_eq!(StratumMessage::Response(Id::Num(0), None, None).name(), "mining.response");
    assert_eq!(ResponseMessage::Bool(true).name(), "Bool");
    assert_eq!(ResponseMessage::Array(vec![]).name(), "Array");
    assert_eq!(ResponseMessage::Null.name(), "Null");
}
