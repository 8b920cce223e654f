use keylime_agent::activation::{auth_tag, tag_input};
use keylime_agent::config::{
    agent_uuid, bind_address, is_software_tpm, option_value, read_owner_password,
};
use keylime_agent::encoding::HexError;

#[test]
fn owner_passwords() {
    assert_eq!(read_owner_password(""), Ok(None));
    assert_eq!(read_owner_password("secret"), Ok(Some(b"secret".to_vec())));
    assert_eq!(read_owner_password("hex"), Ok(Some(b"hex".to_vec())));
    assert_eq!(read_owner_password("hex:"), Ok(Some(vec![])));
    assert_eq!(read_owner_password("hex:00fFaB"), Ok(Some(vec![0, 255, 171])));
    assert_eq!(read_owner_password("HEX:00"), Ok(Some(b"HEX:00".to_vec())));
    assert_eq!(read_owner_password("schlüssel"), Ok(Some("schlüssel".as_bytes().to_vec())));
}

#[test]
fn owner_passwords_that_are_no_hexadecimal() {
    assert_eq!(read_owner_password("hex:0"), Err(HexError::OddLength));
    assert_eq!(read_owner_password("hex:xyz"), Err(HexError::OddLength));
    assert_eq!(
        read_owner_password("hex:0g1h"),
        Err(HexError::InvalidHexCharacter { c: 'g', index: 1 })
    );
    assert_eq!(
        read_owner_password("hex:é"),
        Err(HexError::InvalidHexCharacter { c: 'Ã', index: 0 })
    );
}

#[test]
fn written_hexadecimal_is_read_back() {
    let bytes: Vec<u8> = (0..=255).collect();
    let text = format!("hex:{}", auth_tag(&bytes));
    assert_eq!(read_owner_password(&text), Ok(Some(bytes)));
}

#[test]
fn authentication_tags() {
    assert_eq!(auth_tag(&[]), "");
    assert_eq!(auth_tag(&[1, 2, 3, 15, 16, 0xf9]), "0102030f10f9");
    let input = tag_input(b"hello world~", "d432fbb3-d2f1-4a97-9ef7-75bd81c00000");
    assert_eq!(input.key, b"aGVsbG8gd29ybGR+".to_vec());
    assert_eq!(input.message, b"d432fbb3-d2f1-4a97-9ef7-75bd81c00000".to_vec());
    assert_ne!(tag_input(&[0], "").key, tag_input(&[0, 0], "").key);
}

#[test]
fn addresses() {
    assert_eq!(bind_address("127.0.0.1", false, 9002), "127.0.0.1:9002");
    assert_eq!(bind_address("::1", true, 0), "[::1]:0");
}

#[test]
fn identifiers() {
    assert_eq!(agent_uuid("hash_ek", "abcd"), "abcd");
    assert_eq!(agent_uuid("hash_ek2", "abcd"), "hash_ek2");
    assert_eq!(agent_uuid("", "abcd"), "");
}

#[test]
fn options_that_are_not_set() {
    assert_eq!(option_value(""), None);
    assert_eq!(option_value("run"), Some("run".to_string()));
}

#[test]
fn emulators_are_told_by_their_vendor() {
    assert!(is_software_tpm("SW   TPM"));
    assert!(is_software_tpm("xSW"));
    assert!(!is_software_tpm("INTC"));
    assert!(!is_software_tpm("S W"));
    assert!(!is_software_tpm("sw"));
    assert!(!is_software_tpm(""));
}
