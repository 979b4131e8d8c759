//! Delegated grant restore state: how it is stored, read back, and turned into a session.

use vstd::prelude::*;
use vstd::string::*;
use vstd::utf8::*;

use crate::creator_authority::{CreatorAuthoritySecret, GrantPopKeyId};
use crate::error::{secret_error, ApplicationError, ErrorView};
use crate::grant_pop_keys::{
    derived_key, pop_public_key, pop_secret, public_key_of, LockServerGrantPopKeys, PopSigner,
};
use crate::json::{
    empty_object, field_names, json_fields, json_object_in_text, json_object_text, no_fields,
    object_from_text, object_to_text, put_text, put_unsigned, text_field, text_of, unsigned_field,
    unsigned_of, JsonField,
};
use crate::keys::{
    creator_from_pubky_public_key_z32, creator_text, is_canonical_key, public_key_in, CreatorPubky,
    PublicKey,
};
use crate::legacy_creator_authority::{
    classify_homeserver_restore_error, is_refusal, is_unknown, HomeserverRestoreFailure,
};
use crate::text::same_text;

verus! {

/// Version of the stored format.
pub const GRANT_STATE_VERSION: u64 = 1;

/// What restores a grant whose proofs are signed by a key held elsewhere. None of it is a private
/// key.
#[derive(PartialEq, Eq)]
pub struct DelegatedGrantCredentialState {
    /// The grant that the creator signed.
    pub grant_jws: String,
    /// The creator's homeserver.
    pub homeserver_pk: PublicKey,
    /// Id of the key that signs the grant's proofs.
    pub key_id: String,
    /// Public half of that key.
    pub client_pk: PublicKey,
}

/// Restore state as a mathematical value.
pub struct GrantStateView {
    pub grant_jws: Seq<char>,
    pub homeserver_pk: Seq<char>,
    pub key_id: Seq<char>,
    pub client_pk: Seq<char>,
}

impl View for DelegatedGrantCredentialState {
    type V = GrantStateView;

    open spec fn view(&self) -> GrantStateView {
        GrantStateView {
            grant_jws: self.grant_jws@,
            homeserver_pk: self.homeserver_pk@,
            key_id: self.key_id@,
            client_pk: self.client_pk@,
        }
    }
}

impl Clone for DelegatedGrantCredentialState {
    fn clone(&self) -> (copy: Self)
        ensures
            copy == *self,
    {
        DelegatedGrantCredentialState {
            grant_jws: self.grant_jws.clone(),
            homeserver_pk: self.homeserver_pk.clone(),
            key_id: self.key_id.clone(),
            client_pk: self.client_pk.clone(),
        }
    }
}

/// Neither the grant nor the key id is empty.
pub open spec fn has_texts(state: GrantStateView) -> bool {
    state.grant_jws.len() > 0 && state.key_id.len() > 0
}

/// State that survives being stored: no text is empty, and keys are in their own spelling.
pub open spec fn is_storable(state: GrantStateView) -> bool {
    &&& has_texts(state)
    &&& is_canonical_key(state.homeserver_pk)
    &&& is_canonical_key(state.client_pk)
}

/// The names of the stored fields.
pub open spec fn grant_state_field_names() -> Set<Seq<char>> {
    set!["client_pk"@, "grant_jws"@, "homeserver"@, "key_id"@, "v"@]
}

/// The fields that `state` is stored as.
pub open spec fn grant_state_fields(state: GrantStateView) -> Map<Seq<char>, JsonField> {
    no_fields().insert("v"@, JsonField::Unsigned(GRANT_STATE_VERSION)).insert(
        "grant_jws"@,
        JsonField::Text(state.grant_jws),
    ).insert("homeserver"@, JsonField::Text(state.homeserver_pk)).insert(
        "key_id"@,
        JsonField::Text(state.key_id),
    ).insert("client_pk"@, JsonField::Text(state.client_pk))
}

/// The text of the field `name`, `None` where it is missing, empty, or no text.
pub open spec fn filled_text(fields: Map<Seq<char>, JsonField>, name: Seq<char>) -> Option<
    Seq<char>,
> {
    match text_of(fields, name) {
        Some(text) => if text.len() > 0 {
            Some(text)
        } else {
            None
        },
        None => None,
    }
}

/// The public key in the field `name`, `None` where it holds none.
pub open spec fn key_of(fields: Map<Seq<char>, JsonField>, name: Seq<char>) -> Option<Seq<char>> {
    match filled_text(fields, name) {
        Some(text) => public_key_in(text),
        None => None,
    }
}

/// The state that the fields of a stored object hold: exactly the known fields, the known
/// version, texts that are not empty, and keys that can be read. `None` for anything else.
pub open spec fn grant_state_in(fields: Map<Seq<char>, JsonField>) -> Option<GrantStateView> {
    if fields.dom() == grant_state_field_names() && unsigned_of(fields, "v"@) == Some(
        GRANT_STATE_VERSION,
    ) && filled_text(fields, "grant_jws"@) is Some && key_of(fields, "homeserver"@) is Some
        && filled_text(fields, "key_id"@) is Some && key_of(fields, "client_pk"@) is Some {
        Some(
            GrantStateView {
                grant_jws: filled_text(fields, "grant_jws"@)->0,
                homeserver_pk: key_of(fields, "homeserver"@)->0,
                key_id: filled_text(fields, "key_id"@)->0,
                client_pk: key_of(fields, "client_pk"@)->0,
            },
        )
    } else {
        None
    }
}

/// The state that a stored secret holds, `None` where it holds none.
pub open spec fn stored_grant_state(secret: Seq<char>) -> Option<GrantStateView> {
    match json_object_in_text(secret) {
        Some(fields) => grant_state_in(fields),
        None => None,
    }
}

/// `read` is the state that was found, or the error that tells that there is none.
pub open spec fn is_read_grant_state(
    found: Option<GrantStateView>,
    read: Result<DelegatedGrantCredentialState, ApplicationError>,
) -> bool {
    match found {
        Some(found) => read matches Ok(state) && state@ == found,
        None => read matches Err(error) && error@ == secret_error(
            "invalid stored grant creator authority"@,
        ),
    }
}

/// No two of the stored fields share a name.
proof fn lemma_field_names_differ()
    ensures
        "client_pk"@ != "grant_jws"@,
        "client_pk"@ != "homeserver"@,
        "client_pk"@ != "key_id"@,
        "client_pk"@ != "v"@,
        "grant_jws"@ != "homeserver"@,
        "grant_jws"@ != "key_id"@,
        "grant_jws"@ != "v"@,
        "homeserver"@ != "key_id"@,
        "homeserver"@ != "v"@,
        "key_id"@ != "v"@,
{
    reveal_strlit("client_pk");
    reveal_strlit("grant_jws");
    reveal_strlit("homeserver");
    reveal_strlit("key_id");
    reveal_strlit("v");
    assert("client_pk"@[0] != "grant_jws"@[0]);
    assert("client_pk"@.len() == 9 && "grant_jws"@.len() == 9 && "homeserver"@.len() == 10
        && "key_id"@.len() == 6 && "v"@.len() == 1);
}

/// State that was stored is read back as it was.
pub proof fn law_stored_grant_state_reads_back(state: GrantStateView)
    requires
        is_storable(state),
    ensures
        grant_state_in(grant_state_fields(state)) == Some(state),
{
    lemma_field_names_differ();
    assert(grant_state_fields(state).dom() =~= grant_state_field_names());
}

/// Serializes delegated grant restore state for the creator-authority secret column.
///
/// The fields are exactly those of [`DelegatedGrantCredentialState`]; none is a private key.
pub fn encode_grant_state(state: &DelegatedGrantCredentialState) -> (secret: CreatorAuthoritySecret)
    ensures
        secret@ == json_object_text(grant_state_fields(state@)),
        json_object_in_text(secret@) == Some(grant_state_fields(state@)),
        has_texts(state@) ==> stored_grant_state(secret@) == Some(state@),
{
    let mut object = empty_object();
    put_unsigned(&mut object, "v", GRANT_STATE_VERSION);
    put_text(&mut object, "grant_jws", state.grant_jws.as_str());
    put_text(&mut object, "homeserver", state.homeserver_pk.z32());
    put_text(&mut object, "key_id", state.key_id.as_str());
    put_text(&mut object, "client_pk", state.client_pk.z32());
    let text = object_to_text(object);
    proof {
        if has_texts(state@) {
            law_stored_grant_state_reads_back(state@);
        }
    }
    CreatorAuthoritySecret::new(text.as_str())
}

fn invalid_grant_state() -> (error: ApplicationError)
    ensures
        error@ == secret_error("invalid stored grant creator authority"@),
{
    ApplicationError::CreatorAuthoritySecret {
        message: "invalid stored grant creator authority".to_owned(),
    }
}

fn is_grant_state_field_name(name: &str) -> (known: bool)
    ensures
        known == grant_state_field_names().contains(name@),
{
    same_text(name, "client_pk") || same_text(name, "grant_jws") || same_text(name, "homeserver")
        || same_text(name, "key_id") || same_text(name, "v")
}

fn filled_text_field<'a>(
    object: &'a serde_json::Map<String, serde_json::Value>,
    name: &str,
) -> (text: Option<&'a str>)
    ensures
        match text {
            Some(text) => filled_text(json_fields(*object), name@) == Some(text@),
            None => filled_text(json_fields(*object), name@) is None,
        },
{
    match text_field(object, name) {
        Some(text) => if text.unicode_len() > 0 {
            Some(text)
        } else {
            None
        },
        None => None,
    }
}

fn key_field(object: &serde_json::Map<String, serde_json::Value>, name: &str) -> (key: Option<
    PublicKey,
>)
    ensures
        match key {
            Some(key) => key_of(json_fields(*object), name@) == Some(key@),
            None => key_of(json_fields(*object), name@) is None,
        },
{
    match filled_text_field(object, name) {
        Some(text) => PublicKey::try_from_z32(text),
        None => None,
    }
}

/// Whether the object has no field but those of a stored state.
fn has_only_known_fields(object: &serde_json::Map<String, serde_json::Value>) -> (known: bool)
    ensures
        known == json_fields(*object).dom().subset_of(grant_state_field_names()),
{
    let names = field_names(object);
    let ghost fields = json_fields(*object);
    for name in it: names.iter()
        invariant
            fields == json_fields(*object),
            it.seq().len() == names@.len(),
            forall|i: int| 0 <= i < it.seq().len() ==> *it.seq()[i] == names@[i],
            forall|i: int| 0 <= i < names@.len() ==> fields.dom().contains(#[trigger] names@[i]@),
            forall|i: int|
                0 <= i < it.index() ==> grant_state_field_names().contains(#[trigger] names@[i]@),
    {
        if !is_grant_state_field_name(name.as_str()) {
            assert(fields.dom().contains(names@[it.index()]@));
            return false;
        }
    }
    true
}

/// Reads the state that a stored object holds. Unknown or missing fields are rejected.
pub fn grant_state_from_object(object: &serde_json::Map<String, serde_json::Value>) -> (state:
    Result<DelegatedGrantCredentialState, ApplicationError>)
    ensures
        is_read_grant_state(grant_state_in(json_fields(*object)), state),
        state matches Ok(state) ==> is_storable(state@),
{
    let ghost fields = json_fields(*object);
    if !has_only_known_fields(object) {
        assert(fields.dom() != grant_state_field_names());
        return Err(invalid_grant_state());
    }
    match unsigned_field(object, "v") {
        Some(version) => {
            if version != GRANT_STATE_VERSION {
                return Err(invalid_grant_state());
            }
        },
        None => {
            return Err(invalid_grant_state());
        },
    }
    match (
        filled_text_field(object, "grant_jws"),
        key_field(object, "homeserver"),
        filled_text_field(object, "key_id"),
        key_field(object, "client_pk"),
    ) {
        (Some(grant_jws), Some(homeserver_pk), Some(key_id), Some(client_pk)) => {
            assert(fields.dom() =~= grant_state_field_names());
            proof {
                use_type_invariant(&homeserver_pk);
                use_type_invariant(&client_pk);
            }
            Ok(
                DelegatedGrantCredentialState {
                    grant_jws: grant_jws.to_owned(),
                    homeserver_pk,
                    key_id: key_id.to_owned(),
                    client_pk,
                },
            )
        },
        _ => Err(invalid_grant_state()),
    }
}

/// Parses state produced by [`encode_grant_state`]. Unknown or missing fields are rejected.
pub fn decode_grant_state(secret: &CreatorAuthoritySecret) -> (state: Result<
    DelegatedGrantCredentialState,
    ApplicationError,
>)
    ensures
        is_read_grant_state(stored_grant_state(secret@), state),
        state matches Ok(state) ==> is_storable(state@),
{
    match object_from_text(secret.expose_secret()) {
        Some(object) => grant_state_from_object(&object),
        None => Err(invalid_grant_state()),
    }
}

fn grant_restore_error() -> (error: ApplicationError)
    ensures
        error@ == secret_error("failed to restore grant creator authority"@),
{
    ApplicationError::CreatorAuthoritySecret {
        message: "failed to restore grant creator authority".to_owned(),
    }
}

/// What a homeserver session is restored with.
pub struct GrantRestore {
    /// The state to import.
    pub state: DelegatedGrantCredentialState,
    /// Signer of the fresh proof.
    pub signer: PopSigner,
}

/// `restore` is what a session is restored with from a stored secret, or why it is not.
pub open spec fn is_grant_restore(
    seed: Seq<u8>,
    secret: Seq<char>,
    restore: Result<GrantRestore, ApplicationError>,
) -> bool {
    match stored_grant_state(secret) {
        None => restore matches Err(error) && error@ == secret_error(
            "invalid stored grant creator authority"@,
        ),
        Some(state) => if state.client_pk != pop_public_key(seed, state.key_id) {
            restore matches Err(error) && error@ == secret_error(
                "failed to restore grant creator authority"@,
            )
        } else {
            &&& restore matches Ok(restore)
            &&& restore.state@ == state
            &&& restore.signer@ == pop_secret(seed, state.key_id)
        },
    }
}

/// Prepares to restore a grant-backed session from a stored `Grant` authority secret, before
/// anything is sent: the stored state has to be bound to the Lock Server key that it names. The
/// caller exchanges the grant and a fresh PoP proof for a new bearer and reports to
/// [`settle_grant_restore`].
pub fn restore_grant_session(
    pop_keys: &LockServerGrantPopKeys,
    secret: &CreatorAuthoritySecret,
) -> (restore: Result<GrantRestore, ApplicationError>)
    ensures
        is_grant_restore(pop_keys@, secret@, restore),
{
    let state = match decode_grant_state(secret) {
        Ok(state) => state,
        Err(error) => {
            return Err(error);
        },
    };
    let key_id = GrantPopKeyId::new(state.key_id.as_str());
    if !state.client_pk.is_same(&pop_keys.public_key(&key_id)) {
        return Err(grant_restore_error());
    }
    let signer = pop_keys.signer(&key_id);
    Ok(GrantRestore { state, signer })
}

/// `restored` is what importing a restore state says.
pub open spec fn is_settled_restore(
    imported: Result<PublicKey, HomeserverRestoreFailure>,
    restored: Result<PublicKey, ApplicationError>,
) -> bool {
    match imported {
        Ok(key) => restored == Ok::<_, ApplicationError>(key),
        Err(failure) => restored matches Err(error) && error@ == if is_refusal(failure) {
            ErrorView::CreatorAuthorityRefused
        } else if is_unknown(failure) {
            ErrorView::CreatorAuthorityCheckUnavailable
        } else {
            secret_error("failed to restore grant creator authority"@)
        },
    }
}

/// What importing the state of [`restore_grant_session`] says: the session's public key, or the
/// failure, classified.
pub fn settle_grant_restore(imported: Result<PublicKey, HomeserverRestoreFailure>) -> (restored:
    Result<PublicKey, ApplicationError>)
    ensures
        is_settled_restore(imported, restored),
{
    match imported {
        Ok(key) => Ok(key),
        Err(failure) => Err(classify_homeserver_restore_error(&failure, grant_restore_error)),
    }
}

/// `session` is the restored session, if it belongs to `creator`.
pub open spec fn is_session_of(
    creator: Seq<char>,
    restored: Result<PublicKey, ApplicationError>,
    session: Result<PublicKey, ApplicationError>,
) -> bool {
    match restored {
        Err(error) => session == Err::<PublicKey, _>(error),
        Ok(key) => if creator_text(key@) == creator {
            session == Ok::<_, ApplicationError>(key)
        } else {
            session matches Err(error) && error@ == ErrorView::CreatorAuthorityRefused
        },
    }
}

/// Requires a restored session to belong to `creator`.
pub fn restore_grant_session_for_creator(
    creator: &CreatorPubky,
    restored: Result<PublicKey, ApplicationError>,
) -> (session: Result<PublicKey, ApplicationError>)
    ensures
        is_session_of(creator@, restored, session),
{
    let key = match restored {
        Ok(key) => key,
        Err(error) => {
            return Err(error);
        },
    };
    match creator_from_pubky_public_key_z32(key.z32()) {
        Ok(owner) => if owner.is_same(creator) {
            Ok(key)
        } else {
            Err(ApplicationError::CreatorAuthorityRefused)
        },
        Err(error) => Err(error),
    }
}

/// What is stored of a restore state: the version, the grant, the homeserver, the key id and the
/// public key, each under its own name, and nothing else, so no private key either.
pub proof fn law_stored_fields_are_the_state(state: GrantStateView)
    ensures
        grant_state_fields(state).dom() == set![
            "v"@,
            "grant_jws"@,
            "homeserver"@,
            "key_id"@,
            "client_pk"@,
        ],
        grant_state_fields(state)["v"@] == JsonField::Unsigned(1),
        grant_state_fields(state)["grant_jws"@] == JsonField::Text(state.grant_jws),
        grant_state_fields(state)["homeserver"@] == JsonField::Text(state.homeserver_pk),
        grant_state_fields(state)["key_id"@] == JsonField::Text(state.key_id),
        grant_state_fields(state)["client_pk"@] == JsonField::Text(state.client_pk),
{
    lemma_field_names_differ();
    assert(grant_state_fields(state).dom() =~= set![
        "v"@,
        "grant_jws"@,
        "homeserver"@,
        "key_id"@,
        "client_pk"@,
    ]);
}

/// A stored object is read exactly when it has the five known fields and no other, is of the known
/// version, names a grant and a key id that are not empty, and both of its keys can be read. What
/// is read is what its fields say.
pub proof fn law_only_complete_states_are_read(fields: Map<Seq<char>, JsonField>)
    ensures
        grant_state_in(fields) is Some <==> {
            &&& fields.dom() == set!["v"@, "grant_jws"@, "homeserver"@, "key_id"@, "client_pk"@]
            &&& fields["v"@] == JsonField::Unsigned(1)
            &&& fields["grant_jws"@] is Text && fields["grant_jws"@]->Text_0.len() > 0
            &&& fields["key_id"@] is Text && fields["key_id"@]->Text_0.len() > 0
            &&& fields["homeserver"@] is Text && fields["homeserver"@]->Text_0.len() > 0
            &&& public_key_in(fields["homeserver"@]->Text_0) is Some
            &&& fields["client_pk"@] is Text && fields["client_pk"@]->Text_0.len() > 0
            &&& public_key_in(fields["client_pk"@]->Text_0) is Some
        },
        grant_state_in(fields) matches Some(state) ==> {
            &&& fields["grant_jws"@] == JsonField::Text(state.grant_jws)
            &&& fields["key_id"@] == JsonField::Text(state.key_id)
            &&& public_key_in(fields["homeserver"@]->Text_0) == Some(state.homeserver_pk)
            &&& public_key_in(fields["client_pk"@]->Text_0) == Some(state.client_pk)
        },
{
    lemma_field_names_differ();
    assert(grant_state_field_names() =~= set![
        "v"@,
        "grant_jws"@,
        "homeserver"@,
        "key_id"@,
        "client_pk"@,
    ]);
    assert(fields.dom() == grant_state_field_names() ==> fields.dom().contains("v"@)
        && fields.dom().contains("grant_jws"@) && fields.dom().contains("homeserver"@)
        && fields.dom().contains("key_id"@) && fields.dom().contains("client_pk"@));
}

/// A stored object that is read is not read any more once a field is added or taken away.
pub proof fn law_unknown_or_missing_fields_are_rejected(
    fields: Map<Seq<char>, JsonField>,
    name: Seq<char>,
    value: JsonField,
)
    requires
        grant_state_in(fields) is Some,
    ensures
        !fields.dom().contains(name) ==> grant_state_in(fields.insert(name, value)) is None,
        fields.dom().contains(name) ==> grant_state_in(fields.remove(name)) is None,
{
    assert(fields.insert(name, value).dom().contains(name));
    assert(!fields.remove(name).dom().contains(name));
}

/// A secret is read exactly when it spells an object that holds a state; the error says nothing
/// of what it holds.
pub proof fn law_secret_without_a_state_is_an_error(
    secret: Seq<char>,
    read: Result<DelegatedGrantCredentialState, ApplicationError>,
)
    requires
        is_read_grant_state(stored_grant_state(secret), read),
    ensures
        read is Ok <==> json_object_in_text(secret) is Some && grant_state_in(
            json_object_in_text(secret)->0,
        ) is Some,
        read is Ok ==> Some(read->Ok_0@) == grant_state_in(json_object_in_text(secret)->0),
        read is Err ==> read->Err_0@ == (ErrorView::CreatorAuthoritySecret {
            message: "invalid stored grant creator authority"@,
        }),
{
}

/// A session is restored exactly from a secret that holds a state which is bound to the key that
/// the seed and its own key id give; it is restored with that state and signed with that key.
pub proof fn law_restore_uses_the_key_the_state_names(
    seed: Seq<u8>,
    secret: Seq<char>,
    restore: Result<GrantRestore, ApplicationError>,
)
    requires
        is_grant_restore(seed, secret, restore),
    ensures
        restore is Ok <==> {
            &&& stored_grant_state(secret) is Some
            &&& stored_grant_state(secret)->0.client_pk == public_key_of(
                derived_key(
                    "pubky-locks 2026-09-23 creator grant PoP key v1"@,
                    seed + encode_utf8(stored_grant_state(secret)->0.key_id),
                ),
            )
        },
        restore is Ok ==> {
            &&& Some(restore->Ok_0.state@) == stored_grant_state(secret)
            &&& public_key_of(restore->Ok_0.signer@) == restore->Ok_0.state@.client_pk
            &&& restore->Ok_0.signer@ == derived_key(
                "pubky-locks 2026-09-23 creator grant PoP key v1"@,
                seed + encode_utf8(restore->Ok_0.state@.key_id),
            )
        },
        restore is Err && stored_grant_state(secret) is None ==> restore->Err_0@ == (
        ErrorView::CreatorAuthoritySecret { message: "invalid stored grant creator authority"@ }),
        restore is Err && stored_grant_state(secret) is Some ==> restore->Err_0@ == (
        ErrorView::CreatorAuthoritySecret {
            message: "failed to restore grant creator authority"@,
        }),
{
}

/// A restored grant session is handed on as it is. A failed restore is a refusal only where the
/// homeserver itself refused, unavailable where nothing is known, and a secret error otherwise.
pub proof fn law_grant_restore_follows_the_homeserver(
    imported: Result<PublicKey, HomeserverRestoreFailure>,
    restored: Result<PublicKey, ApplicationError>,
)
    requires
        is_settled_restore(imported, restored),
    ensures
        restored is Ok <==> imported is Ok,
        restored is Ok ==> restored->Ok_0 == imported->Ok_0,
        restored is Err ==> {
            let status = imported->Err_0->Server_status;
            &&& restored->Err_0 is CreatorAuthorityRefused <==> imported->Err_0 is Server && (status
                == 401 || status == 403 || status == 404 || status == 410)
            &&& restored->Err_0 is CreatorAuthorityCheckUnavailable <==> {
                ||| imported->Err_0 is Transport
                ||| imported->Err_0 is Pkarr
                ||| imported->Err_0 is Server && (status == 408 || status == 429 || 500 <= status
                    < 600)
            }
            &&& {
                ||| restored->Err_0 is CreatorAuthorityRefused
                ||| restored->Err_0 is CreatorAuthorityCheckUnavailable
                ||| restored->Err_0@ == (ErrorView::CreatorAuthoritySecret {
                    message: "failed to restore grant creator authority"@,
                })
            }
        },
{
}

/// A restored session counts for a creator exactly when it is that creator's own: another's is a
/// refusal, and a failed restore stays the failure that it was.
pub proof fn law_session_counts_for_its_own_creator(
    creator: Seq<char>,
    restored: Result<PublicKey, ApplicationError>,
    session: Result<PublicKey, ApplicationError>,
)
    requires
        is_session_of(creator, restored, session),
    ensures
        session is Ok <==> restored is Ok && creator == "pubky"@ + restored->Ok_0@,
        session is Ok ==> session->Ok_0 == restored->Ok_0,
        restored is Err ==> session is Err && session->Err_0 == restored->Err_0,
        restored is Ok && creator != "pubky"@ + restored->Ok_0@ ==> session is Err
            && session->Err_0 is CreatorAuthorityRefused,
{
}

} // verus!
