//! Lock-Server-held keys that sign grant Proof-of-Possession proofs.

use vstd::prelude::*;
use vstd::string::*;
use vstd::utf8::*;

use crate::creator_authority::GrantPopKeyId;
use crate::json::{json_object_in_bytes, object_from_bytes, text_field, text_of};
use crate::keys::{is_canonical_key, PublicKey};
use crate::text::{
    holds_char, law_text_splits_at_its_first, same_text, split_at_first, split_once,
};

verus! {

/// The BLAKE3 key that is derived from `material` in a context.
pub uninterp spec fn derived_key(context: Seq<char>, material: Seq<u8>) -> Seq<u8>;

/// The z-base32 spelling of the Ed25519 public key that belongs to a secret.
pub uninterp spec fn public_key_of(secret: Seq<u8>) -> Seq<char>;

/// The Ed25519 signature of a message with a secret.
pub uninterp spec fn signature_of(secret: Seq<u8>, message: Seq<u8>) -> Seq<u8>;

/// The bytes that `text` encodes in unpadded URL-safe base64, `None` where it encodes none.
pub uninterp spec fn url_safe_bytes(text: Seq<char>) -> Option<Seq<u8>>;

/// `blake3::Hasher::new_derive_key` with `update` and `finalize`. Claimed: the key depends on the
/// context and the material alone.
#[verifier::external_body]
fn derive_key(context: &str, material: &[u8]) -> (key: [u8; 32])
    ensures
        key@ == derived_key(context@, material@),
{
    let mut hasher = blake3::Hasher::new_derive_key(context);
    hasher.update(material);
    *hasher.finalize().as_bytes()
}

/// `pubky::Keypair::from_secret` with `public_key` and `z32`. Claimed: the public key depends on
/// the secret alone, and comes back in the spelling that keys print themselves with.
#[verifier::external_body]
fn public_key_text(secret: &[u8; 32]) -> (z32: String)
    ensures
        z32@ == public_key_of(secret@),
        is_canonical_key(z32@),
{
    pubky::Keypair::from_secret(secret).public_key().z32()
}

/// `pubky::Keypair::from_secret` with `sign`. Claimed: the signature depends on the secret and the
/// message alone, as Ed25519 signing draws no random numbers, and has 64 bytes.
#[verifier::external_body]
fn sign_bytes(secret: &[u8; 32], message: &[u8]) -> (signature: Vec<u8>)
    ensures
        signature@ == signature_of(secret@, message@),
        signature@.len() == 64,
{
    pubky::Keypair::from_secret(secret).sign(message).to_bytes().to_vec()
}

/// `base64::Engine::decode` with `URL_SAFE_NO_PAD`. Claimed: whether the text encodes bytes, and
/// which, depends on the text alone.
#[verifier::external_body]
fn decode_url_safe(text: &str) -> (bytes: Option<Vec<u8>>)
    ensures
        match bytes {
            Some(bytes) => url_safe_bytes(text@) == Some(bytes@),
            None => url_safe_bytes(text@) is None,
        },
{
    base64::Engine::decode(&base64::engine::general_purpose::URL_SAFE_NO_PAD, text).ok()
}

/// `pubky::POP_JWS_TYP`. Claimed: it is `pubky-pop`.
#[verifier::external_body]
fn pop_jws_typ() -> (typ: &'static str)
    ensures
        typ@ == "pubky-pop"@,
{
    pubky::POP_JWS_TYP
}

/// A key that signs Proof-of-Possession proofs. It never prints its secret.
pub struct GrantPopKeypair {
    secret: [u8; 32],
}

impl View for GrantPopKeypair {
    type V = Seq<u8>;

    closed spec fn view(&self) -> Seq<u8> {
        self.secret@
    }
}

impl GrantPopKeypair {
    /// The public half.
    pub fn public_key(&self) -> (key: PublicKey)
        ensures
            key@ == public_key_of(self@),
    {
        PublicKey::from_canonical(public_key_text(&self.secret))
    }

    /// The secret half.
    pub fn secret(&self) -> (secret: [u8; 32])
        ensures
            secret@ == self@,
    {
        self.secret
    }
}

/// What a key's secret is derived from: the Lock Server signing seed and the key id.
pub open spec fn pop_key_material(seed: Seq<u8>, key_id: Seq<char>) -> Seq<u8> {
    seed + encode_utf8(key_id)
}

/// The secret of the key with the given id, derived from the Lock Server signing seed.
pub open spec fn pop_secret(seed: Seq<u8>, key_id: Seq<char>) -> Seq<u8> {
    derived_key(
        "pubky-locks 2026-09-23 creator grant PoP key v1"@,
        pop_key_material(seed, key_id),
    )
}

/// The public key of the key with the given id.
pub open spec fn pop_public_key(seed: Seq<u8>, key_id: Seq<char>) -> Seq<char> {
    public_key_of(pop_secret(seed, key_id))
}

/// Lock-Server-held keys that sign grant Proof-of-Possession proofs.
///
/// Each key is derived from the Lock Server signing seed and a non-secret [`GrantPopKeyId`]
/// whenever it is needed. Grant flows and restores get its public half and a [`PopSigner`], which
/// refuses any input that is not a `pubky-pop` JWS and has no way to its private half.
/// [`Self::keypair`] gives the whole key, for callers in this process that sign with it directly.
pub struct LockServerGrantPopKeys {
    seed: [u8; 32],
}

impl View for LockServerGrantPopKeys {
    type V = Seq<u8>;

    closed spec fn view(&self) -> Seq<u8> {
        self.seed@
    }
}

impl Clone for LockServerGrantPopKeys {
    fn clone(&self) -> (copy: Self)
        ensures
            copy == *self,
    {
        LockServerGrantPopKeys { seed: self.seed }
    }
}

impl LockServerGrantPopKeys {
    /// Creates the key source from the Lock Server signing seed.
    pub fn from_lock_server_seed(seed: [u8; 32]) -> (keys: Self)
        ensures
            keys@ == seed@,
    {
        LockServerGrantPopKeys { seed }
    }

    /// The key with the given id. The derivation context is fixed: changing it orphans every
    /// stored grant authority.
    pub fn keypair(&self, key_id: &GrantPopKeyId) -> (keypair: GrantPopKeypair)
        ensures
            keypair@ == pop_secret(self@, key_id@),
    {
        let mut material: Vec<u8> = Vec::new();
        material.extend_from_slice(self.seed.as_slice());
        material.extend_from_slice(key_id.as_str().as_bytes());
        assert(material@ =~= pop_key_material(self@, key_id@));
        GrantPopKeypair {
            secret: derive_key(
                "pubky-locks 2026-09-23 creator grant PoP key v1",
                material.as_slice(),
            ),
        }
    }

    /// Public key bound as the grant `cnf` for `key_id`.
    ///
    /// One seed and id always give one key. That other seeds and ids give other keys rests on
    /// BLAKE3 and Ed25519; see [`law_pop_keys_meet_only_by_collision`].
    pub fn public_key(&self, key_id: &GrantPopKeyId) -> (key: PublicKey)
        ensures
            key@ == pop_public_key(self@, key_id@),
    {
        self.keypair(key_id).public_key()
    }

    /// Delegated signer for `key_id`.
    pub fn signer(&self, key_id: &GrantPopKeyId) -> (signer: PopSigner)
        ensures
            signer@ == pop_secret(self@, key_id@),
    {
        PopSigner { keypair: self.keypair(key_id) }
    }
}

/// Signs Proof-of-Possession proofs with one key, and nothing else.
pub struct PopSigner {
    keypair: GrantPopKeypair,
}

impl View for PopSigner {
    type V = Seq<u8>;

    closed spec fn view(&self) -> Seq<u8> {
        self.keypair@
    }
}

impl PopSigner {
    /// Signs `signing_input` if it is a Proof-of-Possession proof.
    pub fn sign(&self, signing_input: &str) -> (signature: Result<Vec<u8>, PopSigningError>)
        ensures
            is_pop_signature(self@, signing_input@, signature),
    {
        sign_pop_signing_input(&self.keypair, signing_input)
    }
}

/// Why a signing input is not signed.
#[derive(Debug, Clone, Copy, PartialEq, Eq, Structural)]
pub enum PopSigningError {
    /// The input is not a Proof-of-Possession proof.
    NotAPopProof,
}

impl PopSigningError {
    /// What happened.
    pub fn message(self) -> (message: &'static str)
        ensures
            message@ == "Lock Server grant key only signs pubky-pop proofs"@,
    {
        "Lock Server grant key only signs pubky-pop proofs"
    }
}

/// The header of a Proof-of-Possession proof names the Ed25519 algorithm and the proof's type.
pub open spec fn is_pop_header_of(alg: Option<Seq<char>>, typ: Option<Seq<char>>) -> bool {
    alg == Some("EdDSA"@) && typ == Some("pubky-pop"@)
}

/// `header` encodes the header of a Proof-of-Possession proof.
pub open spec fn is_encoded_pop_header(header: Seq<char>) -> bool {
    &&& url_safe_bytes(header) matches Some(bytes)
    &&& json_object_in_bytes(bytes) matches Some(fields)
    &&& is_pop_header_of(text_of(fields, "alg"@), text_of(fields, "typ"@))
}

/// `signing_input` is what a Proof-of-Possession proof signs: its encoded header, a dot, and its
/// encoded claims, which hold no further dot.
pub open spec fn is_pop_input(signing_input: Seq<char>) -> bool {
    &&& split_at_first(signing_input, '.') matches Some((header, claims))
    &&& claims.len() > 0
    &&& !claims.contains('.')
    &&& is_encoded_pop_header(header)
}

/// `signature` answers a signing request: a Proof-of-Possession proof is signed with the secret,
/// anything else is refused.
pub open spec fn is_pop_signature(
    secret: Seq<u8>,
    signing_input: Seq<char>,
    signature: Result<Vec<u8>, PopSigningError>,
) -> bool {
    match signature {
        Ok(signature) => {
            &&& is_pop_input(signing_input)
            &&& signature@ == signature_of(secret, encode_utf8(signing_input))
        },
        Err(_) => !is_pop_input(signing_input),
    }
}

/// Whether a header with these `alg` and `typ` fields is that of a Proof-of-Possession proof.
pub fn is_pop_header(alg: Option<&str>, typ: Option<&str>) -> (pop: bool)
    ensures
        pop == is_pop_header_of(
            match alg {
                Some(alg) => Some(alg@),
                None => None,
            },
            match typ {
                Some(typ) => Some(typ@),
                None => None,
            },
        ),
{
    match (alg, typ) {
        (Some(alg), Some(typ)) => same_text(alg, "EdDSA") && same_text(typ, pop_jws_typ()),
        _ => false,
    }
}

/// Whether `signing_input` is what a Proof-of-Possession proof signs.
pub fn is_pop_signing_input(signing_input: &str) -> (pop: bool)
    ensures
        pop == is_pop_input(signing_input@),
{
    let (header, claims) = match split_once(signing_input, '.') {
        Some(parts) => parts,
        None => {
            return false;
        },
    };
    if claims.unicode_len() == 0 || holds_char(claims, '.') {
        return false;
    }
    let bytes = match decode_url_safe(header) {
        Some(bytes) => bytes,
        None => {
            return false;
        },
    };
    match object_from_bytes(bytes.as_slice()) {
        Some(object) => is_pop_header(text_field(&object, "alg"), text_field(&object, "typ")),
        None => false,
    }
}

/// Signs a Proof-of-Possession proof with the keypair, and refuses anything else.
pub fn sign_pop_signing_input(keypair: &GrantPopKeypair, signing_input: &str) -> (signature: Result<
    Vec<u8>,
    PopSigningError,
>)
    ensures
        is_pop_signature(keypair@, signing_input@, signature),
{
    if !is_pop_signing_input(signing_input) {
        return Err(PopSigningError::NotAPopProof);
    }
    Ok(sign_bytes(&keypair.secret, signing_input.as_bytes()))
}

/// Keys of different seeds or ids are derived from different material: the seed has a fixed
/// length, so that no id can run into it.
pub proof fn law_pop_key_material_is_apart(
    seed: Seq<u8>,
    key_id: Seq<char>,
    other_seed: Seq<u8>,
    other_key_id: Seq<char>,
)
    requires
        seed.len() == 32,
        other_seed.len() == 32,
    ensures
        pop_key_material(seed, key_id) == pop_key_material(other_seed, other_key_id) <==> (seed
            == other_seed && key_id == other_key_id),
{
    assert(pop_key_material(seed, key_id).take(32) =~= seed);
    assert(pop_key_material(other_seed, other_key_id).take(32) =~= other_seed);
    assert(pop_key_material(seed, key_id).skip(32) =~= encode_utf8(key_id));
    assert(pop_key_material(other_seed, other_key_id).skip(32) =~= encode_utf8(other_key_id));
    encode_utf8_decode_utf8(key_id);
    encode_utf8_decode_utf8(other_key_id);
}

/// Two secrets with one public key.
pub open spec fn share_public_key(secret: Seq<u8>, other_secret: Seq<u8>) -> bool {
    secret != other_secret && public_key_of(secret) == public_key_of(other_secret)
}

/// Two materials from which one secret is derived.
pub open spec fn share_secret(material: Seq<u8>, other_material: Seq<u8>) -> bool {
    let context = "pubky-locks 2026-09-23 creator grant PoP key v1"@;
    material != other_material && derived_key(context, material) == derived_key(
        context,
        other_material,
    )
}

/// The key of one seed and id is always the same. Keys of different seeds or ids are different
/// unless BLAKE3 derives one secret from their two materials or their two secrets share one
/// Ed25519 public key, and a key is not the Lock Server identity key unless the same happens to
/// it: nothing but these two outside functions can make them meet.
pub proof fn law_pop_keys_meet_only_by_collision(
    seed: Seq<u8>,
    key_id: Seq<char>,
    other_seed: Seq<u8>,
    other_key_id: Seq<char>,
)
    requires
        seed.len() == 32,
        other_seed.len() == 32,
    ensures
        seed == other_seed && key_id == other_key_id ==> pop_secret(seed, key_id) == pop_secret(
            other_seed,
            other_key_id,
        ) && pop_public_key(seed, key_id) == pop_public_key(other_seed, other_key_id),
        pop_public_key(seed, key_id) == pop_public_key(other_seed, other_key_id) ==> {
            ||| seed == other_seed && key_id == other_key_id
            ||| share_secret(
                pop_key_material(seed, key_id),
                pop_key_material(other_seed, other_key_id),
            )
            ||| share_public_key(pop_secret(seed, key_id), pop_secret(other_seed, other_key_id))
        },
        pop_public_key(seed, key_id) == public_key_of(seed) ==> {
            ||| pop_secret(seed, key_id) == seed
            ||| share_public_key(pop_secret(seed, key_id), seed)
        },
{
    law_pop_key_material_is_apart(seed, key_id, other_seed, other_key_id);
}

/// A key's secret is derived in the fixed context from the seed followed by the bytes of the key
/// id, and its public key belongs to that secret.
pub proof fn law_pop_key_is_derived_from_seed_and_id(seed: Seq<u8>, key_id: Seq<char>)
    ensures
        pop_secret(seed, key_id) == derived_key(
            "pubky-locks 2026-09-23 creator grant PoP key v1"@,
            seed + encode_utf8(key_id),
        ),
        pop_public_key(seed, key_id) == public_key_of(pop_secret(seed, key_id)),
{
}

/// What is signed: a header and claims with one dot between them, where the header decodes to an
/// object that names the Ed25519 algorithm and the type of Proof-of-Possession proofs, and the
/// claims are not empty.
pub proof fn law_signing_input_is_header_and_claims(header: Seq<char>, claims: Seq<char>)
    requires
        !header.contains('.'),
    ensures
        is_pop_input(header + seq!['.'] + claims) <==> {
            &&& claims.len() > 0
            &&& !claims.contains('.')
            &&& url_safe_bytes(header) is Some
            &&& json_object_in_bytes(url_safe_bytes(header)->0) is Some
            &&& text_of(json_object_in_bytes(url_safe_bytes(header)->0)->0, "alg"@) == Some(
                "EdDSA"@,
            )
            &&& text_of(json_object_in_bytes(url_safe_bytes(header)->0)->0, "typ"@) == Some(
                "pubky-pop"@,
            )
        },
        !is_pop_input(header),
{
    law_text_splits_at_its_first(header, '.', claims);
}

/// A signing request is signed exactly when its input is that of a Proof-of-Possession proof, over
/// the bytes of the whole input and with the secret that was asked for.
pub proof fn law_only_proofs_are_signed(
    secret: Seq<u8>,
    signing_input: Seq<char>,
    signature: Result<Vec<u8>, PopSigningError>,
)
    requires
        is_pop_signature(secret, signing_input, signature),
    ensures
        signature is Ok <==> is_pop_input(signing_input),
        signature is Ok ==> signature->Ok_0@ == signature_of(secret, encode_utf8(signing_input)),
{
}

/// Only the Ed25519 algorithm together with the type of Proof-of-Possession proofs makes a header
/// that of a proof.
pub proof fn law_pop_header_names_algorithm_and_type(
    alg: Option<Seq<char>>,
    typ: Option<Seq<char>>,
)
    ensures
        is_pop_header_of(Some("EdDSA"@), Some("pubky-pop"@)),
        alg is None || typ is None ==> !is_pop_header_of(alg, typ),
        alg is Some && alg->0 != "EdDSA"@ ==> !is_pop_header_of(alg, typ),
        typ is Some && typ->0 != "pubky-pop"@ ==> !is_pop_header_of(alg, typ),
{
}

} // verus!
