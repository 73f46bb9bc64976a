//! Random identifiers: the client identifier the server knows this install
//! by, and the secret a running instance writes into its lock file. Both
//! are random bytes written as lowercase hexadecimal.
use vstd::prelude::*;
use crate::config::{set_client_id, AppConfig};
use crate::display::{hex_lower, hex_lower_digit, spec_hex_lower};
use crate::text::opt_view;

verus! {

/// `n` bytes from the operating system's generator (rand's `OsRng` and
/// `RngCore::try_fill_bytes`), none when it reports an error. Only the
/// number of bytes is stated.
#[verifier::external_body]
fn os_random_bytes(n: usize) -> (r: Option<Vec<u8>>)
    ensures
        r matches Some(b) ==> b@.len() == n,
{
    let mut bytes = vec![0u8; n];
    match rand::RngCore::try_fill_bytes(&mut rand::rngs::OsRng, &mut bytes) {
        Ok(()) => Some(bytes),
        Err(_) => None,
    }
}

/// A lowercase hexadecimal digit.
pub open spec fn is_hex_lower(c: char) -> bool {
    ('0' <= c && c <= '9') || ('a' <= c && c <= 'f')
}

/// Text of `n` lowercase hexadecimal digits.
pub open spec fn hex_text(s: Seq<char>, n: nat) -> bool {
    s.len() == n && forall|i: int| 0 <= i < s.len() ==> #[trigger] is_hex_lower(s[i])
}

proof fn lemma_hex_digit(d: nat)
    requires
        d < 16,
    ensures
        is_hex_lower(hex_lower_digit(d)),
{
    if d < 10 {
        assert(((48 + d) as u8) as char == (48 + d) as char);
    } else {
        assert(((87 + d) as u8) as char == (87 + d) as char);
    }
}

/// Bytes written in hexadecimal take two lowercase digits each.
pub proof fn lemma_hex_lower_text(bytes: Seq<u8>)
    ensures
        hex_text(spec_hex_lower(bytes), 2 * bytes.len()),
    decreases bytes.len(),
{
    if bytes.len() > 0 {
        let init = bytes.drop_last();
        lemma_hex_lower_text(init);
        let b = bytes.last();
        lemma_hex_digit((b / 16) as nat);
        lemma_hex_digit((b % 16) as nat);
        let s = spec_hex_lower(bytes);
        let p = spec_hex_lower(init);
        assert forall|i: int| 0 <= i < s.len() implies #[trigger] is_hex_lower(s[i]) by {
            if i < p.len() {
                assert(s[i] == p[i]);
            }
        }
    }
}

/// A new client identifier: sixteen random bytes in hexadecimal; none when
/// the operating system's generator fails.
pub fn new_client_id() -> (r: Option<String>)
    ensures
        r matches Some(id) ==> hex_text(id@, 32),
{
    match os_random_bytes(16) {
        Some(bytes) => {
            let r = hex_lower(bytes.as_slice());
            proof {
                lemma_hex_lower_text(bytes@);
            }
            Some(r)
        },
        None => None,
    }
}

/// The client identifier of this install: the stored one, else a new one,
/// which is stored; none (and nothing stored) when no new one can be drawn.
pub fn ensure_client_id(config: &mut AppConfig) -> (r: Option<String>)
    ensures
        match opt_view(old(config).client_id) {
            Some(c) => r matches Some(id) && id@ == c && *final(config) == *old(config),
            None => match r {
                Some(id) => hex_text(id@, 32)
                    && *final(config) == (AppConfig { client_id: final(config).client_id, ..*old(config) })
                    && opt_view(final(config).client_id) == Some(id@),
                None => *final(config) == *old(config),
            },
        },
{
    match &config.client_id {
        Some(c) => Some(c.clone()),
        None => match new_client_id() {
            Some(id) => {
                let _ = set_client_id(config, id.clone());
                Some(id)
            },
            None => None,
        },
    }
}

/// A new secret for the lock file: thirty-two bytes of the operating
/// system's generator in hexadecimal; none when it fails.
pub fn new_lock_secret() -> (r: Option<String>)
    ensures
        r matches Some(s) ==> hex_text(s@, 64),
{
    match os_random_bytes(32) {
        Some(bytes) => {
            let s = hex_lower(bytes.as_slice());
            proof {
                lemma_hex_lower_text(bytes@);
            }
            Some(s)
        },
        None => None,
    }
}

} // verus!
