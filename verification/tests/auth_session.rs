use sargerust::auth_session::{answer_auth_challenge, auth_session, CLIENT_BUILD};
use sargerust::packet_header::{decrypt_server_header_end, decrypt_server_header_start};
use wow_srp::normalized_string::NormalizedString;
use wow_srp::wrath_header::{ClientCrypto, ProofSeed, ServerCrypto};

const SESSION_KEY: [u8; 40] = [
    0x2E, 0x5E, 0x61, 0x4C, 0x8B, 0x6E, 0x1F, 0x9A, 0x03, 0x77, 0x15, 0xD2, 0x44, 0x90, 0xC1, 0x08, 0xFE, 0x31,
    0x5A, 0x6B, 0x72, 0x0D, 0x19, 0xE4, 0x87, 0x3C, 0x50, 0xA9, 0x11, 0xB6, 0x2D, 0x4F, 0x93, 0x60, 0xCE, 0x05,
    0x7A, 0xD8, 0x36, 0xEB,
];

/// Logs in as `username` to a server that draws its own seed; returns both ends' ciphers.
fn connect(username: &str, realm_id: u8) -> (ClientCrypto, ServerCrypto) {
    let server_seed = ProofSeed::new();
    let (session, client_crypto) =
        answer_auth_challenge(username, realm_id, SESSION_KEY, server_seed.seed()).expect("the name is accepted");
    let name = NormalizedString::new(&session.username).unwrap();
    let server_crypto = server_seed
        .into_server_header_crypto(&name, SESSION_KEY, session.client_proof, session.client_seed)
        .expect("the server accepts the proof");
    (client_crypto, server_crypto)
}

#[test]
fn auth_session_fields() {
    let session = auth_session(7, "ALICE".to_string(), 0xDEAD_BEEF, [3; 20]);
    assert_eq!(session.client_build, 12340);
    assert_eq!(CLIENT_BUILD, 12340);
    assert_eq!(session.login_server_id, 7);
    assert_eq!(session.realm_id, 7);
    assert_eq!(session.username, "ALICE");
    assert_eq!(session.client_seed, 0xDEAD_BEEF);
    assert_eq!(session.client_proof, [3; 20]);
    assert_eq!(session.login_server_type, 0);
    assert_eq!(session.region_id, 0);
    assert_eq!(session.battleground_id, 0);
    assert_eq!(session.dos_response, 0);
    assert!(session.addon_info.is_empty());
}

#[test]
fn answer_normalizes_the_account_name() {
    let (session, _) = answer_auth_challenge("alice_2", 1, SESSION_KEY, 17).unwrap();
    assert_eq!(session.username, "ALICE_2");
    assert_eq!(session.realm_id, 1);
    assert_eq!(session.login_server_id, 1);
    assert_eq!(session.client_build, 12340);
}

#[test]
fn answer_refuses_names_the_server_does_not_take() {
    assert!(answer_auth_challenge("", 1, SESSION_KEY, 17).is_none());
    assert!(answer_auth_challenge("seventeen_letters", 1, SESSION_KEY, 17).is_none());
    assert!(answer_auth_challenge("tab\there", 1, SESSION_KEY, 17).is_none());
    assert!(answer_auth_challenge("żaba", 1, SESSION_KEY, 17).is_none());
    assert!(answer_auth_challenge("sixteen_letters_", 1, SESSION_KEY, 17).is_some());
}

#[test]
fn the_server_accepts_the_proof() {
    let server_seed = ProofSeed::new();
    let (session, _) = answer_auth_challenge("bob", 2, SESSION_KEY, server_seed.seed()).unwrap();
    let name = NormalizedString::new("BOB").unwrap();
    assert!(server_seed
        .into_server_header_crypto(&name, SESSION_KEY, session.client_proof, session.client_seed)
        .is_ok());
}

#[test]
fn a_proof_for_another_key_is_refused() {
    let server_seed = ProofSeed::new();
    let mut other_key = SESSION_KEY;
    other_key[0] ^= 1;
    let (session, _) = answer_auth_challenge("bob", 2, other_key, server_seed.seed()).unwrap();
    let name = NormalizedString::new("BOB").unwrap();
    assert!(server_seed
        .into_server_header_crypto(&name, SESSION_KEY, session.client_proof, session.client_seed)
        .is_err());
}

#[test]
fn decrypts_small_server_headers() {
    let (client, mut server) = connect("carol", 3);
    let (_, mut decrypter) = client.split();
    for (size, opcode) in [(6_u32, 0x02EF_u16), (2, 0x01EE), (0x7FFF, 0x0001)] {
        let raw: [u8; 4] = server.encrypt_server_header(size, opcode).try_into().unwrap();
        let (header, fields) = decrypt_server_header_start(&mut decrypter, raw);
        assert_eq!(header[0] & 0x80, 0);
        assert_eq!(fields, Some((size - 2, opcode)));
    }
}

#[test]
fn decrypts_large_server_headers() {
    let (client, mut server) = connect("dave", 4);
    let (_, mut decrypter) = client.split();
    for (size, opcode) in [(0x8000_u32, 0x01F6_u16), (0x12345, 0xABCD)] {
        let raw: [u8; 5] = server.encrypt_server_header(size, opcode).try_into().unwrap();
        let (header, fields) = decrypt_server_header_start(&mut decrypter, [raw[0], raw[1], raw[2], raw[3]]);
        assert_eq!(fields, None);
        let (_, fields) = decrypt_server_header_end(&mut decrypter, header, raw[4]);
        assert_eq!(fields, (size - 3, opcode));
    }
}

#[test]
fn decryption_follows_the_stream() {
    // Small and large headers in turn keep both ends of the cipher in step.
    let (client, mut server) = connect("erin", 5);
    let (_, mut decrypter) = client.split();
    let raw: [u8; 5] = server.encrypt_server_header(0x9000, 0x0010).try_into().unwrap();
    let (header, _) = decrypt_server_header_start(&mut decrypter, [raw[0], raw[1], raw[2], raw[3]]);
    assert_eq!(decrypt_server_header_end(&mut decrypter, header, raw[4]).1, (0x9000 - 3, 0x0010));
    let raw: [u8; 4] = server.encrypt_server_header(0x20, 0x0011).try_into().unwrap();
    assert_eq!(decrypt_server_header_start(&mut decrypter, raw).1, Some((0x1E, 0x0011)));
}
