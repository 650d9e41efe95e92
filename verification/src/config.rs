//! The secret key of the application and what can be wrong with its
//! configuration.
use vstd::prelude::*;

use crate::util::bytes::to_array32;

verus! {

/// The bytes that a text stands for in base64 with the standard alphabet
/// and padding, where it stands for any.
pub uninterp spec fn base64_decoded(text: Seq<char>) -> Option<Seq<u8>>;

/// The text that stands for the bytes in base64 with the standard alphabet
/// and padding.
pub uninterp spec fn base64_encoded(bytes: Seq<u8>) -> Seq<char>;

/// `base64::Engine::decode` of `base64::prelude::BASE64_STANDARD`: the bytes
/// that the text stands for, or nothing where it is no base64.
#[verifier::external_body]
fn decode(text: &str) -> (bytes: Option<Vec<u8>>)
    ensures
        bytes is Some <==> base64_decoded(text@) is Some,
        bytes is Some ==> bytes->0@ == base64_decoded(text@)->0,
{
    base64::Engine::decode(&base64::prelude::BASE64_STANDARD, text).ok()
}

/// `base64::Engine::encode` of `base64::prelude::BASE64_STANDARD`: the text
/// that stands for the bytes.
#[verifier::external_body]
fn encode(bytes: &[u8; 32]) -> (text: String)
    ensures
        text@ == base64_encoded(bytes@),
{
    base64::Engine::encode(&base64::prelude::BASE64_STANDARD, bytes)
}

/// `getrandom::getrandom` on 32 bytes: random bytes from the system, or
/// nothing where the system gives none. Nothing is claimed of the bytes.
#[verifier::external_body]
fn random_bytes() -> Option<[u8; 32]> {
    let mut bytes = [0u8; 32];
    getrandom::getrandom(&mut bytes).ok().map(|_| bytes)
}

/// What can be wrong with the configuration.
#[derive(Debug, Clone, Copy, PartialEq, Eq, Structural)]
pub enum ConfigError {
    /// The directory of the public assets is not named or does not exist.
    AssetsNotFound,
    /// The system gives no random bytes for a new secret key.
    RandomNotAvailable,
    /// The secret key is no base64 text of 32 bytes.
    InvalidSecretKey,
}

impl ConfigError {
    /// The text of the error.
    pub fn to_string(&self) -> (text: String)
        ensures
            text@ == (match self {
                ConfigError::AssetsNotFound =>
                    "env variable SHELBY_ASSETS does not point to valid asset directory"@,
                ConfigError::RandomNotAvailable => "unable to get random data for secret key"@,
                ConfigError::InvalidSecretKey => "the specified secret key is invalid"@,
            }),
    {
        match self {
            ConfigError::AssetsNotFound => {
                "env variable SHELBY_ASSETS does not point to valid asset directory".to_owned()
            },
            ConfigError::RandomNotAvailable => {
                "unable to get random data for secret key".to_owned()
            },
            ConfigError::InvalidSecretKey => "the specified secret key is invalid".to_owned(),
        }
    }
}

/// The secret key that a text stands for: the text must be base64 of
/// exactly 32 bytes.
pub open spec fn secret_of(text: Seq<char>) -> Result<Seq<u8>, ConfigError> {
    match base64_decoded(text) {
        Some(bytes) => if bytes.len() == 32 {
            Ok(bytes)
        } else {
            Err(ConfigError::InvalidSecretKey)
        },
        None => Err(ConfigError::InvalidSecretKey),
    }
}

/// The secret key that a configured text stands for.
pub fn parse_secret(text: &str) -> (secret: Result<[u8; 32], ConfigError>)
    ensures
        match secret_of(text@) {
            Ok(bytes) => secret is Ok && secret->Ok_0@ == bytes,
            Err(error) => secret == Err::<[u8; 32], ConfigError>(error),
        },
{
    match decode(text) {
        Some(bytes) => match to_array32(&bytes) {
            Some(secret) => Ok(secret),
            None => Err(ConfigError::InvalidSecretKey),
        },
        None => Err(ConfigError::InvalidSecretKey),
    }
}

/// Whether `bytes` is what the system gave when it was asked for 32 random
/// bytes.
pub closed spec fn system_gave(bytes: Option<[u8; 32]>) -> bool {
    call_ensures(random_bytes, (), bytes)
}

/// A new random secret key with the text that stands for it: the bytes that
/// the system gave, and an error where it gave none.
pub fn new_secret() -> (secret: Result<([u8; 32], String), ConfigError>)
    ensures
        exists|given: Option<[u8; 32]>|
            {
                &&& #[trigger] system_gave(given)
                &&& given is Some ==> secret is Ok && secret->Ok_0.0 == given->0
                &&& given is None ==> secret == Err::<([u8; 32], String), ConfigError>(
                    ConfigError::RandomNotAvailable,
                )
            },
        secret is Ok ==> secret->Ok_0.1@ == base64_encoded(secret->Ok_0.0@),
        secret is Err ==> secret->Err_0 == ConfigError::RandomNotAvailable,
{
    let given = random_bytes();
    assert(system_gave(given));
    match given {
        Some(bytes) => {
            let text = encode(&bytes);
            Ok((bytes, text))
        },
        None => Err(ConfigError::RandomNotAvailable),
    }
}

/// The secret key of the application: the one that is configured, or a new
/// random one where none is. A new key comes with its text, to be kept for
/// the processes that follow.
pub fn secret_key(configured: Option<&str>) -> (secret: Result<
    ([u8; 32], Option<String>),
    ConfigError,
>)
    ensures
        configured is Some ==> (match secret_of(configured->0@) {
            Ok(bytes) => secret is Ok && secret->Ok_0.0@ == bytes && secret->Ok_0.1 is None,
            Err(error) => secret == Err::<([u8; 32], Option<String>), ConfigError>(error),
        }),
        configured is None ==> exists|made: Result<([u8; 32], String), ConfigError>|
            {
                &&& #[trigger] call_ensures(new_secret, (), made)
                &&& made is Ok ==> secret == Ok::<([u8; 32], Option<String>), ConfigError>(
                    (made->Ok_0.0, Some(made->Ok_0.1)),
                )
                &&& made is Err ==> secret == Err::<([u8; 32], Option<String>), ConfigError>(
                    made->Err_0,
                )
            },
        configured is None ==> (match secret {
            Ok((bytes, text)) => text is Some && text->0@ == base64_encoded(bytes@),
            Err(error) => error == ConfigError::RandomNotAvailable,
        }),
{
    match configured {
        Some(text) => match parse_secret(text) {
            Ok(secret) => Ok((secret, None)),
            Err(error) => Err(error),
        },
        None => {
            let made = new_secret();
            assert(call_ensures(new_secret, (), made));
            match made {
                Ok((secret, text)) => Ok((secret, Some(text))),
                Err(error) => Err(error),
            }
        },
    }
}

} // verus!
