//! Keys to sign with.

use crate::protocol::error::{is_other, Error};
use crate::protocol::nostr::{is_hex_id, PublicKey};
use vstd::prelude::*;

verus! {

/// The keys that `nostr` reads from a text: the secret key and the public key, in
/// hexadecimal digits. Where there are none: what it says of the text.
pub uninterp spec fn parsed_keys(text: Seq<char>) -> Result<(Seq<char>, Seq<char>), Seq<char>>;

/// Reads keys with `nostr_sdk::Keys::parse`.
///
/// Taken on trust: that the result is a function of the text alone, and that
/// keys are written in 64 hexadecimal digits in lower case.
#[verifier::external_body]
fn parse_keys(text: &str) -> (keys: Result<(String, String), String>)
    ensures
        match keys {
            Ok(pair) => {
                &&& parsed_keys(text@) == Ok::<(Seq<char>, Seq<char>), Seq<char>>(
                    (pair.0@, pair.1@),
                )
                &&& is_hex_id(pair.0@)
                &&& is_hex_id(pair.1@)
            },
            Err(reason) => parsed_keys(text@) == Err::<(Seq<char>, Seq<char>), Seq<char>>(reason@),
        },
{
    nostr_sdk::Keys::parse(text)
        .map(|keys| (keys.secret_key().to_secret_hex(), keys.public_key().to_hex()))
        .map_err(|error| error.to_string())
}

/// Makes keys with `nostr_sdk::Keys::generate`.
///
/// Taken on trust: that keys are written in 64 hexadecimal digits in lower case,
/// and that the secret key is read back with the same public key. Which keys
/// come is up to chance.
#[verifier::external_body]
fn generate_keys() -> (pair: (String, String))
    ensures
        is_hex_id(pair.0@),
        is_hex_id(pair.1@),
        parsed_keys(pair.0@) == Ok::<(Seq<char>, Seq<char>), Seq<char>>((pair.0@, pair.1@)),
{
    let keys = nostr_sdk::Keys::generate();
    (keys.secret_key().to_secret_hex(), keys.public_key().to_hex())
}

/// A secret key and its public key.
pub struct Keys {
    secret_hex: String,
    public_key: PublicKey,
}

impl Keys {
    /// The secret key, in hexadecimal digits.
    pub closed spec fn secret(&self) -> Seq<char> {
        self.secret_hex@
    }

    /// The public key, in hexadecimal digits.
    pub closed spec fn public(&self) -> Seq<char> {
        self.public_key@
    }

    /// The public key.
    pub fn public_key(&self) -> (key: &PublicKey)
        ensures
            key@ == self.public(),
    {
        &self.public_key
    }

    /// The secret key, in hexadecimal digits.
    pub fn secret_hex(&self) -> (hex: &str)
        ensures
            hex@ == self.secret(),
    {
        self.secret_hex.as_str()
    }
}

/// Create keys from a private key string (hex or nsec/bech32).
pub fn from_sk(sk: &str) -> (keys: Result<Keys, Error>)
    ensures
        match parsed_keys(sk@) {
            Ok(pair) => keys is Ok && keys->Ok_0.secret() == pair.0 && keys->Ok_0.public()
                == pair.1,
            Err(reason) => is_other(keys, reason),
        },
{
    match parse_keys(sk) {
        Ok((secret_hex, public_hex)) => {
            let public_key = PublicKey::from_written(public_hex);
            Ok(Keys { secret_hex, public_key })
        },
        Err(reason) => Err(Error::Other(reason)),
    }
}

/// Generate a new random keypair. The secret key is read back as the same keys.
pub fn generate() -> (keys: Keys)
    ensures
        parsed_keys(keys.secret()) == Ok::<(Seq<char>, Seq<char>), Seq<char>>(
            (keys.secret(), keys.public()),
        ),
        is_hex_id(keys.public()),
        is_hex_id(keys.secret()),
{
    let (secret_hex, public_hex) = generate_keys();
    let public_key = PublicKey::from_written(public_hex);
    Keys { secret_hex, public_key }
}

/// The secret key of new keys is read as the same keys: its own text, and the same
/// public key.
pub proof fn law_keys_read_back(
    keys: Keys,
    secret: &str,
    public: &PublicKey,
    read: Result<Keys, Error>,
)
    requires
        call_ensures(generate, (), keys),
        call_ensures(Keys::secret_hex, (&keys,), secret),
        call_ensures(Keys::public_key, (&keys,), public),
        call_ensures(from_sk, (secret,), read),
    ensures
        read is Ok,
        read->Ok_0.secret() == secret@,
        read->Ok_0.public() == public@,
        secret@.len() == 64,
{
}

/// Keys are read from exactly those texts that `nostr` reads keys from, as the
/// secret key and the public key that it reads.
pub proof fn law_keys_read(text: &str, read: Result<Keys, Error>)
    requires
        call_ensures(from_sk, (text,), read),
    ensures
        read is Ok <==> parsed_keys(text@) is Ok,
        read matches Ok(keys) ==> {
            &&& keys.secret() == parsed_keys(text@)->Ok_0.0
            &&& keys.public() == parsed_keys(text@)->Ok_0.1
        },
        read matches Err(error) ==> (error matches Error::Other(reason) && parsed_keys(text@)
            == Err::<(Seq<char>, Seq<char>), Seq<char>>(reason@)),
{
}

} // verus!
