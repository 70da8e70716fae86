//! Where the message log of a connection lives: a directory named by a
//! digest of the connection's identity.

use sha2::{Digest, Sha256};
use vstd::prelude::*;
use vstd::string::*;

use crate::client::{MQTTyClientConnection, MQTTyClientMessage};

verus! {

/// The SHA-256 digest that `sha2::Sha256` gives once it has been fed
/// `first` and then `second`.
pub uninterp spec fn sha256_of_chain(first: Seq<u8>, second: Seq<u8>) -> Seq<u8>;

/// Feeds a new `sha2::Sha256` hasher `first`, then `second`, by
/// `chain_update`, and takes what `finalize` returns. The digest is taken to
/// depend on the two byte strings alone; it has 32 bytes.
#[verifier::external_body]
fn sha256_chain(first: &[u8], second: &[u8]) -> (digest: Vec<u8>)
    ensures
        digest@ == sha256_of_chain(first@, second@),
        digest@.len() == 32,
{
    Sha256::new().chain_update(first).chain_update(second).finalize().to_vec()
}

/// The lowercase hexadecimal digit of a number below 16.
pub open spec fn hex_digit(n: int) -> char {
    seq!['0', '1', '2', '3', '4', '5', '6', '7', '8', '9', 'a', 'b', 'c', 'd', 'e', 'f'][n]
}

/// The bytes in lowercase hexadecimal, two digits each, high digit first.
pub open spec fn hex_lower(bytes: Seq<u8>) -> Seq<char> {
    Seq::new(
        2 * bytes.len(),
        |i: int|
            if i % 2 == 0 {
                hex_digit(bytes[i / 2] as int / 16)
            } else {
                hex_digit(bytes[i / 2] as int % 16)
            },
    )
}

/// `hex::encode`: the bytes in lowercase hexadecimal, two digits each.
#[verifier::external_body]
fn hex_encode(bytes: &[u8]) -> (text: String)
    ensures
        text@ == hex_lower(bytes@),
{
    hex::encode(bytes)
}

/// The name of the log directory of the connection with this client id and
/// URL: the SHA-256 digest of the one followed by the other, in hexadecimal.
/// Nothing separates the two texts in what is digested, so that two
/// connections share a directory where the client id of one, followed by
/// its URL, reads as that of the other.
pub open spec fn log_directory_name(client_id: Seq<char>, url: Seq<char>) -> Seq<char> {
    hex_lower(sha256_of_chain(vstd::utf8::encode_utf8(client_id), vstd::utf8::encode_utf8(url)))
}

/// What the `base64` crate's general-purpose engine writes for the bytes
/// with the URL-safe alphabet and without padding.
pub uninterp spec fn base64_url_unpadded(bytes: Seq<u8>) -> Seq<char>;

/// `base64::Engine::encode` on a `GeneralPurpose` engine made with the
/// alphabet `URL_SAFE` and a configuration without padding on encoding. The
/// text is taken to depend on the bytes alone. The call fails only where
/// the length of the text does not fit a `usize`, which needs more bytes
/// than a slice can hold.
#[verifier::external_body]
fn base64_encode(bytes: &[u8]) -> (text: String)
    ensures
        text@ == base64_url_unpadded(bytes@),
{
    let config = base64::engine::GeneralPurposeConfig::new().with_encode_padding(false);
    let engine = base64::engine::GeneralPurpose::new(&base64::alphabet::URL_SAFE, config);
    base64::Engine::encode(&engine, bytes)
}

/// The body of a message as a log entry holds it: in URL-safe base64
/// without padding.
pub fn log_body(message: &MQTTyClientMessage) -> (text: String)
    ensures
        text@ == base64_url_unpadded(message@.body),
{
    let body = message.body();
    base64_encode(body.as_slice())
}

/// The message log of one connection.
pub struct MQTTyMessageStore {
    connection: MQTTyClientConnection,
    hash: String,
}

impl MQTTyMessageStore {
    /// The log of `connection`, named by the digest of its client id and
    /// URL.
    pub fn new(connection: MQTTyClientConnection) -> (store: Self)
        ensures
            store.connection() == connection,
            store.hash()@ == log_directory_name(connection.client_id@, connection.url@),
            store.hash()@.len() == 64,
    {
        let digest = sha256_chain(
            connection.client_id.as_str().as_bytes(),
            connection.url.as_str().as_bytes(),
        );
        let hash = hex_encode(digest.as_slice());
        MQTTyMessageStore { connection, hash }
    }

    /// The connection whose messages are logged.
    pub closed spec fn connection(&self) -> MQTTyClientConnection {
        self.connection
    }

    /// The name of the log directory.
    pub closed spec fn hash(&self) -> String {
        self.hash
    }

    /// The connection whose messages are logged.
    pub fn get_connection(&self) -> (connection: &MQTTyClientConnection)
        ensures
            *connection == self.connection(),
    {
        &self.connection
    }

    /// The name of the log directory.
    pub fn get_hash(&self) -> (hash: &String)
        ensures
            *hash == self.hash(),
    {
        &self.hash
    }
}

} // verus!
