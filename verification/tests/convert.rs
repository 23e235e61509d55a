use zkmatrix_pool_protocol::utils::convert::{convert_to_u8, ConvertType};
use zkmatrix_pool_protocol::utils::notify::{address_u8, epoch_challenge_u8, proving_key_u8};

#[test]
fn convert_test_decode() {
    let epoch_challenge: Vec<u8> = (0u8..=255).collect();
    let address: Vec<u8> = vec![0x0f, 0xf0, 0x00, 0xff, 0x10, 0x01];
    let epoch_challenge_s = hex::encode(&epoch_challenge);
    let address_s = hex::encode(&address);
    let epoch_challenge_2 =
        convert_to_u8(&ConvertType::EpochChallenge(epoch_challenge_s)).unwrap();
    assert_eq!(epoch_challenge, epoch_challenge_2);
    let address_2 = convert_to_u8(&ConvertType::Address(address_s)).unwrap();
    assert_eq!(address, address_2);
    let proof_hex = hex::encode([1u8, 2, 3, 15, 16]);
    assert_eq!(proof_hex, "0102030f10");
    let result1 = convert_to_u8(&ConvertType::ProverSolution(proof_hex)).unwrap();
    assert_eq!(result1, vec![1u8, 2, 3, 15, 16]);
}

#[test]
fn notify_test_decode() {
    let epoch_challenge: Vec<u8> = vec![0xde, 0xad, 0xbe, 0xef];
    let address: Vec<u8> = vec![0x00, 0x7f, 0x80, 0xff];
    let epoch_challenge_s = hex::encode(&epoch_challenge);
    let address_s = hex::encode(&address);
    assert_eq!(epoch_challenge_u8(&epoch_challenge_s).unwrap(), epoch_challenge);
    assert_eq!(address_u8(&address_s).unwrap(), address);
}

#[test]
fn convert_exact_bytes_and_case() {
    assert_eq!(proving_key_u8("").unwrap(), Vec::<u8>::new());
    assert_eq!(proving_key_u8("00ff").unwrap(), vec![0x00, 0xff]);
    assert_eq!(address_u8("AbCdEf09").unwrap(), vec![0xab, 0xcd, 0xef, 0x09]);
    assert_eq!(epoch_challenge_u8("1a2B").unwrap(), vec![0x1a, 0x2b]);
}

#[test]
fn convert_names_what_failed() {
    let err = convert_to_u8(&ConvertType::EpochChallenge("abc".to_string())).unwrap_err();
    assert_eq!(err.what, "EpochChallenge");
    assert_eq!(err.message(), "decode EpochChallenge failed");
    let err = convert_to_u8(&ConvertType::Address("zz".to_string())).unwrap_err();
    assert_eq!(err.what, "Address");
    let err = convert_to_u8(&ConvertType::ProverSolution("0x10".to_string())).unwrap_err();
    assert_eq!(err.what, "ProverSolution");
    assert_eq!(proving_key_u8("1").unwrap_err().what, "proving_key");
    assert_eq!(epoch_challenge_u8("é0").unwrap_err().what, "epoch_challenge");
    assert_eq!(address_u8("0g").unwrap_err().what, "address");
}

#[test]
fn convert_type_name_and_raw_data() {
    let data = ConvertType::ProverSolution("0a".to_string());
    assert_eq!(data.name(), "ProverSolution");
    assert_eq!(data.raw_data(), "0a");
    assert_eq!(ConvertType::Address("x".to_string()).name(), "Address");
    assert_eq!(ConvertType::EpochChallenge("y".to_string()).raw_data(), "y");
}
