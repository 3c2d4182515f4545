//! What one search attempt computes: the text a key pair is tested on, the
//! test itself, and the representations reported for a match.
use vstd::prelude::*;
use crate::keys::{
    authorized_key_text, fingerprint_text, generate_key_pair, get_authorized_key, get_fingerprint,
    openssh_private_of, private_key_text, KeyPair, KEY_COMMENT,
};
use crate::shared::SharedState;
use crate::pattern::{regex_is_match, Pattern};

verus! {

/// Which representation of a public key the pattern is tested on.
#[derive(Debug, Clone, Copy, PartialEq, Eq, Structural)]
pub enum MatchTarget {
    /// The OpenSSH public line.
    PublicKey,
    /// The base64 SHA-256 fingerprint.
    Fingerprint,
}

/// The settings every worker of one search shares.
#[derive(Debug, Clone, Copy, PartialEq, Eq, Structural)]
pub struct SearchConfig {
    pub target: MatchTarget,
    /// Keep searching after a match, and never save a key.
    pub streaming: bool,
}

impl SearchConfig {
    /// Whether a match is saved to storage: only when not streaming.
    pub open spec fn persists(&self) -> bool {
        !self.streaming
    }
}

/// The text of `public` that a pattern is tested on.
pub open spec fn target_text(public: Seq<u8>, target: MatchTarget) -> Seq<char> {
    match target {
        MatchTarget::PublicKey => authorized_key_text(public),
        MatchTarget::Fingerprint => fingerprint_text(public),
    }
}

/// The text of `public` selected by `target`.
pub fn match_text(public: &[u8; 32], target: MatchTarget) -> (r: String)
    ensures
        r@ == target_text(public@, target),
{
    match target {
        MatchTarget::PublicKey => get_authorized_key(public),
        MatchTarget::Fingerprint => get_fingerprint(public),
    }
}

/// Whether `pattern` matches the text of `k` that `config` selects.
pub fn test_key(pattern: &Pattern, config: &SearchConfig, k: &KeyPair) -> (r: bool)
    ensures
        r == regex_is_match(pattern.source_view(), target_text(k.public@, config.target)),
{
    let text = match_text(&k.public, config.target);
    pattern.is_match(text.as_str())
}

/// A generated key pair and whether it matched.
pub struct Attempt {
    pub key: KeyPair,
    pub matched: bool,
}

/// One generation attempt: counts it in `shared`, generates a fresh key pair
/// and tests it against `pattern`. (The count is an atomic that other
/// threads change too, so no contract can state its value; see
/// `crate::shared` for what holds of it.)
pub fn attempt(shared: &SharedState, pattern: &Pattern, config: &SearchConfig) -> (r: Attempt)
    ensures
        r.key.wf(),
        r.matched == regex_is_match(pattern.source_view(), target_text(r.key.public@, config.target)),
{
    shared.record_attempt();
    let key = generate_key_pair();
    let matched = test_key(pattern, config, &key);
    Attempt { key, matched }
}

/// The representations of a matching key pair that are reported, and saved
/// when the search persists its result.
#[derive(Debug)]
pub struct FoundKey {
    pub private_key: String,
    pub public_key: String,
    pub fingerprint: String,
}

/// The private key file, public line and fingerprint of `k`.
pub fn describe_key(k: &KeyPair) -> (r: FoundKey)
    ensures
        r.private_key@ == openssh_private_of(k.secret@, k.public@, KEY_COMMENT@),
        r.public_key@ == authorized_key_text(k.public@),
        r.fingerprint@ == fingerprint_text(k.public@),
{
    let private_key = private_key_text(k);
    let public_key = get_authorized_key(&k.public);
    let fingerprint = get_fingerprint(&k.public);
    FoundKey { private_key, public_key, fingerprint }
}

} // verus!
