//! Ed25519 key pairs and the representations derived from them: the
//! OpenSSH public line, the base64 SHA-256 fingerprint, and the OpenSSH
//! private key file.
use vstd::prelude::*;

verus! {

#[verifier::external_type_specification]
#[verifier::external_body]
pub struct ExSshKeyError(ssh_key::Error);

/// The public key that Ed25519 derives from a 32-byte secret key.
pub uninterp spec fn ed25519_public_of(secret: Seq<u8>) -> Seq<u8>;

/// The SHA-256 digest of `bytes`.
pub uninterp spec fn sha256_of(bytes: Seq<u8>) -> Seq<u8>;

/// The OpenSSH private key file (PEM, LF line endings, unencrypted) of an
/// Ed25519 key pair with a comment.
pub uninterp spec fn openssh_private_of(secret: Seq<u8>, public: Seq<u8>, comment: Seq<char>) -> Seq<char>;

/// The digits of standard base64, by value.
pub const BASE64_ALPHABET: &'static str = "ABCDEFGHIJKLMNOPQRSTUVWXYZabcdefghijklmnopqrstuvwxyz0123456789+/";

/// The base64 digit of a value below 64.
pub open spec fn base64_digit(v: int) -> char {
    BASE64_ALPHABET@[v]
}

/// The standard base64 encoding of `bytes`: each group of three bytes gives
/// four digits of six bits each; a last group of one or two bytes is padded
/// with `=` to four characters.
pub open spec fn base64_encode(bytes: Seq<u8>) -> Seq<char>
    decreases bytes.len(),
{
    if bytes.len() == 0 {
        Seq::empty()
    } else if bytes.len() == 1 {
        let a = bytes[0] as int;
        seq![base64_digit(a / 4), base64_digit((a % 4) * 16), '=', '=']
    } else if bytes.len() == 2 {
        let (a, b) = (bytes[0] as int, bytes[1] as int);
        seq![base64_digit(a / 4), base64_digit((a % 4) * 16 + b / 16), base64_digit((b % 16) * 4), '=']
    } else {
        let (a, b, c) = (bytes[0] as int, bytes[1] as int, bytes[2] as int);
        seq![
            base64_digit(a / 4),
            base64_digit((a % 4) * 16 + b / 16),
            base64_digit((b % 16) * 4 + c / 64),
            base64_digit(c % 64),
        ] + base64_encode(bytes.subrange(3, bytes.len() as int))
    }
}

/// The name of the key algorithm, as OpenSSH writes it.
pub const KEY_ALGORITHM: &'static str = "ssh-ed25519";

/// A length as the four big-endian bytes of an SSH `uint32`.
pub open spec fn u32_be(n: int) -> Seq<u8> {
    seq![(n / 0x1000000) as u8, ((n / 0x10000) % 0x100) as u8, ((n / 0x100) % 0x100) as u8, (n % 0x100) as u8]
}

/// The SSH wire encoding of an Ed25519 public key: the algorithm name and
/// the key, each as a length-prefixed string.
pub open spec fn ed25519_blob(public: Seq<u8>) -> Seq<u8> {
    u32_be(11) + seq![0x73u8, 0x73, 0x68, 0x2d, 0x65, 0x64, 0x32, 0x35, 0x35, 0x31, 0x39] + u32_be(
        public.len() as int,
    ) + public
}

/// The OpenSSH public line of an Ed25519 key: the algorithm name, a space,
/// the base64 of the key's wire encoding, then a space and the comment when
/// the comment is not empty.
pub open spec fn openssh_public_text(public: Seq<u8>, comment: Seq<char>) -> Seq<char> {
    let head = KEY_ALGORITHM@ + seq![' '] + base64_encode(ed25519_blob(public));
    if comment.len() == 0 {
        head
    } else {
        head + seq![' '] + comment
    }
}

/// Relies on `rand::random`: 32 bytes from the thread-local secure generator.
/// Nothing is known of their value.
#[verifier::external_body]
fn random_secret() -> (r: [u8; 32]) {
    rand::random::<[u8; 32]>()
}

/// Relies on `ed25519_dalek::SigningKey::from_bytes` and its `verifying_key`:
/// the public key of the secret key.
#[verifier::external_body]
fn derive_public(secret: &[u8; 32]) -> (r: [u8; 32])
    ensures
        r@ == ed25519_public_of(secret@),
{
    ed25519_dalek::SigningKey::from_bytes(secret).verifying_key().to_bytes()
}

/// Relies on `sha2::Sha256::digest`: the SHA-256 digest of `bytes`.
#[verifier::external_body]
fn sha256(bytes: &[u8]) -> (r: [u8; 32])
    ensures
        r@ == sha256_of(bytes@),
{
    <sha2::Sha256 as sha2::Digest>::digest(bytes).into()
}

/// Relies on base64's `STANDARD` engine: the padded standard encoding.
#[verifier::external_body]
fn base64_standard(bytes: &[u8]) -> (r: String)
    ensures
        r@ == base64_encode(bytes@),
{
    base64::Engine::encode(&base64::engine::general_purpose::STANDARD, bytes)
}

/// Relies on `ssh_key::PublicKey::new` and `to_openssh`: the OpenSSH line of
/// an Ed25519 public key with `comment`. The output buffer is sized from the
/// encoded length, so the encoding succeeds.
#[verifier::external_body]
fn openssh_public_line(public: &[u8; 32], comment: &str) -> (r: Result<String, ssh_key::Error>)
    ensures
        r is Ok,
        r matches Ok(s) ==> s@ == openssh_public_text(public@, comment@),
{
    let data = ssh_key::public::KeyData::Ed25519(ssh_key::public::Ed25519PublicKey(*public));
    ssh_key::PublicKey::new(data, comment).to_openssh()
}

/// Relies on `ssh_key::PrivateKey::new` and `to_openssh` with LF line
/// endings: the unencrypted OpenSSH private key file of the pair with
/// `comment`. `PrivateKey::new` fails only on encrypted key data, and the
/// checkint is computed from the key, so the result is fixed by the pair.
#[verifier::external_body]
fn openssh_private_file(secret: &[u8; 32], public: &[u8; 32], comment: &str) -> (r: Result<
    String,
    ssh_key::Error,
>)
    ensures
        r is Ok,
        r matches Ok(s) ==> s@ == openssh_private_of(secret@, public@, comment@),
{
    let pair = ssh_key::private::Ed25519Keypair {
        private: ssh_key::private::Ed25519PrivateKey::from_bytes(secret),
        public: ssh_key::public::Ed25519PublicKey(*public),
    };
    let key = ssh_key::PrivateKey::new(ssh_key::private::KeypairData::Ed25519(pair), comment)?;
    Ok(key.to_openssh(ssh_key::LineEnding::LF)?.to_string())
}

/// The comment written into every generated key.
pub const KEY_COMMENT: &'static str = "Generated by SSHChic";

/// An Ed25519 key pair: the secret key and the public key derived from it.
pub struct KeyPair {
    pub secret: [u8; 32],
    pub public: [u8; 32],
}

impl KeyPair {
    /// The public key is the one Ed25519 derives from the secret key.
    pub open spec fn wf(&self) -> bool {
        self.public@ == ed25519_public_of(self.secret@)
    }
}

/// The text the OpenSSH public line of `public` holds.
pub open spec fn authorized_key_text(public: Seq<u8>) -> Seq<char> {
    openssh_public_text(public, KEY_COMMENT@)
}

/// The fingerprint text of `public`: base64 of its SHA-256 digest.
pub open spec fn fingerprint_text(public: Seq<u8>) -> Seq<char> {
    base64_encode(sha256_of(public))
}

/// The key pair whose secret key is `secret`.
pub fn key_pair_from_secret(secret: [u8; 32]) -> (k: KeyPair)
    ensures
        k.secret == secret,
        k.wf(),
{
    let public = derive_public(&secret);
    KeyPair { secret, public }
}

/// A fresh key pair from a random secret key.
pub fn generate_key_pair() -> (k: KeyPair)
    ensures
        k.wf(),
{
    key_pair_from_secret(random_secret())
}

/// The OpenSSH public line of `public`, with the library's key comment.
pub fn get_authorized_key(public: &[u8; 32]) -> (r: String)
    ensures
        r@ == authorized_key_text(public@),
{
    match openssh_public_line(public, KEY_COMMENT) {
        Ok(s) => s,
        Err(_) => {
            assert(false);
            String::new()
        },
    }
}

/// The fingerprint of `public`: the base64 encoding of its SHA-256 digest.
pub fn get_fingerprint(public: &[u8; 32]) -> (r: String)
    ensures
        r@ == fingerprint_text(public@),
{
    let digest = sha256(public);
    base64_standard(&digest)
}

/// The OpenSSH private key file of `k`, with the library's key comment.
pub fn private_key_text(k: &KeyPair) -> (r: String)
    ensures
        r@ == openssh_private_of(k.secret@, k.public@, KEY_COMMENT@),
{
    match openssh_private_file(&k.secret, &k.public, KEY_COMMENT) {
        Ok(s) => s,
        Err(_) => {
            assert(false);
            String::new()
        },
    }
}

} // verus!
