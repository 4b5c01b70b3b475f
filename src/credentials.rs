//! Client credentials held in the fixed-capacity text buffers that the radio
//! driver's station configuration is made of.

use vstd::prelude::*;
use vstd::string::StringSliceAdditionalSpecFns;
use vstd::utf8::encode_utf8;

verus! {

/// Capacity, in bytes, of the buffer that holds the network identifier.
pub const SSID_CAPACITY: usize = 32;

/// Capacity, in bytes, of the buffer that holds the network secret.
pub const PASSWORD_CAPACITY: usize = 64;

#[verifier::external_type_specification]
#[verifier::external_body]
pub struct ExBoundedString<const N: usize>(heapless::String<N>);

/// The text that an identifier buffer holds.
pub uninterp spec fn ssid_text(s: heapless::String<32>) -> Seq<char>;

/// The text that a secret buffer holds.
pub uninterp spec fn password_text(s: heapless::String<64>) -> Seq<char>;

/// Relies on `heapless::String::<32>::from_str`: it copies the text when its
/// UTF-8 encoding fits in 32 bytes, and fails with `()` otherwise.
#[verifier::external_body]
fn bounded_ssid(s: &str) -> (r: Result<heapless::String<32>, ()>)
    ensures
        r.is_ok() <==> s.spec_bytes().len() <= 32,
        r matches Ok(h) ==> ssid_text(h) == s@,
{
    <heapless::String<32> as core::str::FromStr>::from_str(s)
}

/// Relies on `heapless::String::<64>::from_str`: it copies the text when its
/// UTF-8 encoding fits in 64 bytes, and fails with `()` otherwise.
#[verifier::external_body]
fn bounded_password(s: &str) -> (r: Result<heapless::String<64>, ()>)
    ensures
        r.is_ok() <==> s.spec_bytes().len() <= 64,
        r matches Ok(h) ==> password_text(h) == s@,
{
    <heapless::String<64> as core::str::FromStr>::from_str(s)
}

/// Why a pair of credentials cannot become a client configuration.
#[derive(Clone, Copy, Debug, PartialEq, Eq, Structural)]
pub enum ConfigError {
    /// The identifier's encoding is longer than `SSID_CAPACITY` bytes.
    SsidTooLong,
    /// The secret's encoding is longer than `PASSWORD_CAPACITY` bytes.
    PasswordTooLong,
}

/// The identifier and secret that the radio is configured with, as the
/// driver's client configuration holds them.
pub struct ClientConfig {
    ssid: heapless::String<32>,
    password: heapless::String<64>,
}

/// The configuration that a pair of credentials gives, or the reason that it
/// gives none. The identifier is checked first.
pub open spec fn config_outcome(ssid: Seq<char>, password: Seq<char>) -> Result<
    (Seq<char>, Seq<char>),
    ConfigError,
> {
    if encode_utf8(ssid).len() > SSID_CAPACITY {
        Err(ConfigError::SsidTooLong)
    } else if encode_utf8(password).len() > PASSWORD_CAPACITY {
        Err(ConfigError::PasswordTooLong)
    } else {
        Ok((ssid, password))
    }
}

/// A built configuration read as the pair of texts it holds.
pub open spec fn outcome_view(r: Result<ClientConfig, ConfigError>) -> Result<
    (Seq<char>, Seq<char>),
    ConfigError,
> {
    match r {
        Ok(c) => Ok(c@),
        Err(e) => Err(e),
    }
}

impl View for ClientConfig {
    type V = (Seq<char>, Seq<char>);

    closed spec fn view(&self) -> (Seq<char>, Seq<char>) {
        (ssid_text(self.ssid), password_text(self.password))
    }
}

impl ClientConfig {
    /// Copies the credentials into the bounded buffers, failing when either
    /// does not fit.
    pub fn new(ssid: &str, password: &str) -> (r: Result<ClientConfig, ConfigError>)
        ensures
            outcome_view(r) == config_outcome(ssid@, password@),
    {
        let s = match bounded_ssid(ssid) {
            Ok(s) => s,
            Err(()) => {
                return Err(ConfigError::SsidTooLong);
            },
        };
        let p = match bounded_password(password) {
            Ok(p) => p,
            Err(()) => {
                return Err(ConfigError::PasswordTooLong);
            },
        };
        Ok(ClientConfig { ssid: s, password: p })
    }

    /// The identifier buffer.
    pub fn ssid(&self) -> (r: &heapless::String<32>)
        ensures
            ssid_text(*r) == self@.0,
    {
        &self.ssid
    }

    /// The secret buffer.
    pub fn password(&self) -> (r: &heapless::String<64>)
        ensures
            password_text(*r) == self@.1,
    {
        &self.password
    }
}

/// Credentials that fit their buffers always give a configuration, and that
/// configuration holds exactly those texts.
pub proof fn lemma_fitting_credentials_configure(ssid: &str, password: &str)
    requires
        ssid.spec_bytes().len() <= SSID_CAPACITY,
        password.spec_bytes().len() <= PASSWORD_CAPACITY,
    ensures
        config_outcome(ssid@, password@) == Ok::<(Seq<char>, Seq<char>), ConfigError>(
            (ssid@, password@),
        ),
{
}

/// Configuring from the same texts twice gives equal outcomes.
pub proof fn lemma_configure_idempotent(s1: &str, p1: &str, s2: &str, p2: &str)
    requires
        s1@ == s2@,
        p1@ == p2@,
    ensures
        config_outcome(s1@, p1@) == config_outcome(s2@, p2@),
{
}

/// An identifier or secret too long for its buffer always makes
/// configuration fail, with the error that names the first one that does not
/// fit.
pub proof fn lemma_oversized_credentials_rejected(ssid: &str, password: &str)
    requires
        ssid.spec_bytes().len() > SSID_CAPACITY || password.spec_bytes().len()
            > PASSWORD_CAPACITY,
    ensures
        config_outcome(ssid@, password@) == (if ssid.spec_bytes().len() > SSID_CAPACITY {
            Err::<(Seq<char>, Seq<char>), ConfigError>(ConfigError::SsidTooLong)
        } else {
            Err::<(Seq<char>, Seq<char>), ConfigError>(ConfigError::PasswordTooLong)
        }),
{
}

} // verus!
