//! Logging in to the world server: the account name as the server expects it, the proof that
//! the client knows the session key of the realm login, and the fields of the session message.
use vstd::prelude::*;
use wow_srp::normalized_string::NormalizedString;
use wow_srp::wrath_header::{ClientCrypto, ProofSeed};

verus! {

/// The header cipher of wow_srp for both directions of a world connection.
#[verifier::external_type_specification]
#[verifier::external_body]
pub struct ExClientCrypto(wow_srp::wrath_header::ClientCrypto);

/// The build of the client that the library speaks for.
pub const CLIENT_BUILD: u32 = 12340;

/// A character that an account name may hold: ASCII, and no control character.
pub open spec fn account_name_char(c: char) -> bool {
    0x20 <= c as u32 <= 0x7e
}

/// An account name that the server takes: one to sixteen allowed characters.
pub open spec fn valid_account_name(name: Seq<char>) -> bool {
    &&& 1 <= name.len() <= 16
    &&& forall|i: int| 0 <= i < name.len() ==> account_name_char(#[trigger] name[i])
}

/// The upper case of an ASCII letter; any other character is kept.
pub open spec fn ascii_upper(c: char) -> char {
    if 'a' <= c <= 'z' {
        ((c as u32) - 32) as char
    } else {
        c
    }
}

/// The account name as it is sent and hashed: its letters in upper case.
pub open spec fn normalized_account_name(name: Seq<char>) -> Seq<char> {
    name.map_values(|c: char| ascii_upper(c))
}

/// The proof of wow_srp that the client knows the session key: a hash of the normalized account
/// name, the two seeds and the session key.
pub uninterp spec fn world_server_proof(
    name: Seq<char>,
    session_key: Seq<u8>,
    server_seed: u32,
    client_seed: u32,
) -> Seq<u8>;

/// What the client draws and computes to log in to the world server.
pub struct WorldLoginProof {
    /// The normalized account name.
    pub name: String,
    /// The seed that the client drew.
    pub client_seed: u32,
    /// The proof, computed with `client_seed`.
    pub client_proof: [u8; 20],
    /// The header cipher, keyed with the session key.
    pub crypto: ClientCrypto,
}

/// `NormalizedString::new` of wow_srp on the account name, then `ProofSeed::new` (a random
/// client seed) and `ProofSeed::into_client_header_crypto` with the normalized name, the session
/// key and the server's seed. `NormalizedString::new` refuses exactly the names that
/// `valid_account_name` leaves out and upper-cases the letters of the others. The seed is random:
/// only that the proof is computed with the seed that is returned is stated, and nothing of the
/// cipher.
#[verifier::external_body]
fn draw_world_login_proof(username: &str, session_key: [u8; 40], server_seed: u32) -> (r: Option<
    WorldLoginProof,
>)
    ensures
        r is Some <==> valid_account_name(username@),
        r matches Some(p) ==> p.name@ == normalized_account_name(username@),
        r matches Some(p) ==> p.client_proof@ == world_server_proof(
            normalized_account_name(username@),
            session_key@,
            server_seed,
            p.client_seed,
        ),
{
    match NormalizedString::new(username) {
        Err(_) => None,
        Ok(name) => {
            let seed = ProofSeed::new();
            let client_seed = seed.seed();
            let (client_proof, crypto) = seed.into_client_header_crypto(&name, session_key, server_seed);
            Some(WorldLoginProof { name: name.to_string(), client_seed, client_proof, crypto })
        },
    }
}

/// The fields of the message that opens a world session.
pub struct AuthSession {
    pub client_build: u32,
    pub login_server_id: u32,
    pub username: String,
    pub login_server_type: u32,
    pub client_seed: u32,
    pub region_id: u32,
    pub battleground_id: u32,
    pub realm_id: u32,
    pub dos_response: u64,
    pub client_proof: [u8; 20],
    pub addon_info: Vec<u8>,
}

/// `session` is the message of a client of `CLIENT_BUILD` for the realm `realm_id`, from the
/// account `name` with the given seed and proof: the realm is both the login server and the
/// realm, the login server is of the plain kind, and no addons are announced.
pub open spec fn is_session_message(
    session: AuthSession,
    realm_id: u8,
    name: Seq<char>,
    client_seed: u32,
    client_proof: Seq<u8>,
) -> bool {
    &&& session.client_build == CLIENT_BUILD
    &&& session.login_server_id == realm_id
    &&& session.username@ == name
    &&& session.login_server_type == 0
    &&& session.client_seed == client_seed
    &&& session.region_id == 0
    &&& session.battleground_id == 0
    &&& session.realm_id == realm_id
    &&& session.dos_response == 0
    &&& session.client_proof@ == client_proof
    &&& session.addon_info@.len() == 0
}

/// The session message for the realm `realm_id` from the account `username`, with the client's
/// seed and proof.
pub fn auth_session(realm_id: u8, username: String, client_seed: u32, client_proof: [u8; 20]) -> (r:
    AuthSession)
    ensures
        is_session_message(r, realm_id, username@, client_seed, client_proof@),
{
    AuthSession {
        client_build: CLIENT_BUILD,
        login_server_id: realm_id as u32,
        username,
        login_server_type: 0,
        client_seed,
        region_id: 0,
        battleground_id: 0,
        realm_id: realm_id as u32,
        dos_response: 0,
        client_proof,
        addon_info: Vec::new(),
    }
}

/// Answers the server's challenge (its seed) for `username` on the realm `realm_id`, with the
/// session key of the realm login: the session message and the header cipher, `None` where the
/// account name is not one the server takes. The client seed is random; the message carries it
/// and the proof computed with it.
pub fn answer_auth_challenge(username: &str, realm_id: u8, session_key: [u8; 40], server_seed: u32) -> (r:
    Option<(AuthSession, ClientCrypto)>)
    ensures
        r is Some <==> valid_account_name(username@),
        r matches Some(answer) ==> is_session_message(
            answer.0,
            realm_id,
            normalized_account_name(username@),
            answer.0.client_seed,
            world_server_proof(
                normalized_account_name(username@),
                session_key@,
                server_seed,
                answer.0.client_seed,
            ),
        ),
{
    match draw_world_login_proof(username, session_key, server_seed) {
        None => None,
        Some(p) => {
            let session = auth_session(realm_id, p.name, p.client_seed, p.client_proof);
            Some((session, p.crypto))
        },
    }
}

} // verus!
