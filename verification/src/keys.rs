//! Public keys and the creators they identify.

use vstd::prelude::*;
use vstd::string::*;

use crate::error::{secret_error, ApplicationError};
use crate::text::{begins_with, same_text};

verus! {

/// The z-base32 spelling of the Ed25519 public key that `text` names, `None` where it names none.
pub uninterp spec fn public_key_in(text: Seq<char>) -> Option<Seq<char>>;

/// Characters in the z-base32 spelling of a public key: 256 bits, five to a character.
pub const KEY_TEXT_LENGTH: usize = 52;

/// `text` is the spelling that a public key prints itself with.
pub open spec fn is_canonical_key(text: Seq<char>) -> bool {
    &&& public_key_in(text) == Some(text)
    &&& text.len() == KEY_TEXT_LENGTH
}

/// `pubky::PublicKey::try_from_z32` with `z32`. Claimed: whether the text names a key, and which,
/// depends on the text alone; the spelling that comes back has the length of every key's
/// spelling and names the same key again.
#[verifier::external_body]
fn canonical_public_key(text: &str) -> (key: Option<String>)
    ensures
        match key {
            Some(key) => public_key_in(text@) == Some(key@) && is_canonical_key(key@),
            None => public_key_in(text@) is None,
        },
{
    pubky::PublicKey::try_from_z32(text).ok().map(|key| key.z32())
}

/// An Ed25519 public key, held in its z-base32 spelling.
#[derive(PartialEq, Eq, Hash)]
pub struct PublicKey {
    z32: String,
}

impl View for PublicKey {
    type V = Seq<char>;

    closed spec fn view(&self) -> Seq<char> {
        self.z32@
    }
}

impl Clone for PublicKey {
    fn clone(&self) -> (copy: Self)
        ensures
            copy == *self,
    {
        proof {
            use_type_invariant(self);
        }
        PublicKey { z32: self.z32.clone() }
    }
}

impl PublicKey {
    /// The key is held in the spelling that it prints itself with.
    #[verifier::type_invariant]
    pub open spec fn is_valid(self) -> bool {
        is_canonical_key(self@)
    }

    /// Reads a key from its z-base32 text.
    pub fn try_from_z32(text: &str) -> (key: Option<PublicKey>)
        ensures
            match key {
                Some(key) => public_key_in(text@) == Some(key@),
                None => public_key_in(text@) is None,
            },
    {
        match canonical_public_key(text) {
            Some(z32) => Some(PublicKey { z32 }),
            None => None,
        }
    }

    /// Wraps the spelling that a key prints itself with.
    pub(crate) fn from_canonical(z32: String) -> (key: PublicKey)
        requires
            is_canonical_key(z32@),
        ensures
            key@ == z32@,
    {
        PublicKey { z32 }
    }

    /// The z-base32 text of the key.
    pub fn z32(&self) -> (z32: &str)
        ensures
            z32@ == self@,
            is_canonical_key(z32@),
    {
        proof {
            use_type_invariant(self);
        }
        self.z32.as_str()
    }

    /// Whether both are the same key.
    pub fn is_same(&self, other: &PublicKey) -> (same: bool)
        ensures
            same == (self@ == other@),
    {
        self.z32 == other.z32
    }
}

/// A creator, identified by a public key: `pubky` and the key's z-base32 text.
#[derive(Debug, PartialEq, Eq, Hash)]
pub struct CreatorPubky(String);

impl View for CreatorPubky {
    type V = Seq<char>;

    closed spec fn view(&self) -> Seq<char> {
        self.0@
    }
}

/// The identity text of the creator with the given key.
pub open spec fn creator_text(z32: Seq<char>) -> Seq<char> {
    "pubky"@ + z32
}

/// `creator` is the creator whose identity text `text` is, if it is one's.
pub open spec fn is_parsed_creator(text: Seq<char>, creator: Option<CreatorPubky>) -> bool {
    &&& creator is Some == exists|z32: Seq<char>|
        is_canonical_key(z32) && text == #[trigger] creator_text(z32)
    &&& creator matches Some(creator) ==> creator@ == text
}

impl Clone for CreatorPubky {
    fn clone(&self) -> (copy: Self)
        ensures
            copy == *self,
    {
        CreatorPubky(self.0.clone())
    }
}

impl CreatorPubky {
    /// Reads a creator identity in its canonical form.
    pub fn parse(text: &str) -> (creator: Option<CreatorPubky>)
        ensures
            is_parsed_creator(text@, creator),
    {
        if !begins_with(text, "pubky") {
            assert forall|z32: Seq<char>| text@ == #[trigger] creator_text(z32) implies false by {
                assert("pubky"@.is_prefix_of(creator_text(z32)));
            }
            return None;
        }
        let start: usize = "pubky".unicode_len();
        let end: usize = text.unicode_len();
        let z32 = text.substring_char(start, end);
        assert(text@ == creator_text(z32@));
        proof {
            assert forall|other: Seq<char>| text@ == #[trigger] creator_text(other) implies other
                == z32@ by {
                assert(creator_text(other).skip(start as int) == other);
                assert(creator_text(z32@).skip(start as int) == z32@);
            }
        }
        match creator_from_pubky_public_key_z32(z32) {
            Ok(creator) => Some(creator),
            Err(_) => None,
        }
    }

    /// The identity text.
    pub fn as_str(&self) -> (text: &str)
        ensures
            text@ == self@,
    {
        self.0.as_str()
    }

    /// Whether both are the same creator.
    pub fn is_same(&self, other: &CreatorPubky) -> (same: bool)
        ensures
            same == (self@ == other@),
    {
        self.0 == other.0
    }
}

/// `creator` is the creator that the public key with this spelling identifies, or the error that
/// tells that it is no key's own spelling.
pub open spec fn is_creator_of_key(
    z32: Seq<char>,
    creator: Result<CreatorPubky, ApplicationError>,
) -> bool {
    match creator {
        Ok(creator) => is_canonical_key(z32) && creator@ == creator_text(z32),
        Err(error) => !is_canonical_key(z32) && error@ == secret_error(
            "invalid creator public key"@,
        ),
    }
}

/// The creator that a public key identifies, from the key's z-base32 text.
pub fn creator_from_pubky_public_key_z32(z32: &str) -> (creator: Result<
    CreatorPubky,
    ApplicationError,
>)
    ensures
        is_creator_of_key(z32@, creator),
{
    if let Some(key) = canonical_public_key(z32) {
        if same_text(key.as_str(), z32) {
            return Ok(CreatorPubky("pubky".to_owned().concat(z32)));
        }
    }
    Err(
        ApplicationError::CreatorAuthoritySecret {
            message: "invalid creator public key".to_owned(),
        },
    )
}

/// A key's spelling identifies a creator exactly when it is the spelling that the key prints itself
/// with. The creator's identity is that spelling after `pubky`, so different keys are different
/// creators.
pub proof fn law_creator_is_the_prefixed_key(
    z32: Seq<char>,
    creator: Result<CreatorPubky, ApplicationError>,
    other_z32: Seq<char>,
)
    requires
        is_creator_of_key(z32, creator),
    ensures
        creator is Ok <==> public_key_in(z32) == Some(z32) && z32.len() == 52,
        creator is Ok ==> creator->Ok_0@ == "pubky"@ + z32,
        creator is Ok && creator->Ok_0@ == "pubky"@ + other_z32 ==> other_z32 == z32,
        creator is Err ==> creator->Err_0 is CreatorAuthoritySecret,
{
    let start = "pubky"@.len() as int;
    assert(("pubky"@ + z32).skip(start) =~= z32);
    assert(("pubky"@ + other_z32).skip(start) =~= other_z32);
}

/// A creator's identity text is read as it is, and nothing else is: text without the prefix, or
/// with anything after it but a key's own spelling, is no creator.
pub proof fn law_creator_reads_its_own_text(
    z32: Seq<char>,
    text: Seq<char>,
    creator: Option<CreatorPubky>,
)
    requires
        is_parsed_creator(text, creator),
    ensures
        text == "pubky"@ + z32 ==> (creator is Some <==> public_key_in(z32) == Some(z32)
            && z32.len() == 52),
        creator is Some ==> creator->0@ == text,
        creator is Some ==> "pubky"@.is_prefix_of(text) && text.len() == "pubky"@.len() + 52,
{
    let start = "pubky"@.len() as int;
    if text == "pubky"@ + z32 {
        assert(text == creator_text(z32));
        assert forall|other: Seq<char>| text == #[trigger] creator_text(other) implies other
            == z32 by {
            assert(creator_text(other).skip(start) =~= other);
            assert(creator_text(z32).skip(start) =~= z32);
        }
    }
    if creator is Some {
        let found = choose|found: Seq<char>|
            is_canonical_key(found) && text == #[trigger] creator_text(found);
        assert("pubky"@ =~= text.subrange(0, start));
    }
}

} // verus!
