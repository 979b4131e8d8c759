//! Connecting a creator by a grant: what the flow is started with, and what an approved grant has
//! to say before it becomes creator authority.

use vstd::prelude::*;
use vstd::string::*;
use vstd::utf8::*;

use crate::capability::{
    all_covered, are_capabilities, capabilities_in, capability_in, capability_text,
    capability_views, covers, grant_covers, is_spelled, requested_scopes_to_capabilities, some_covers,
    Capability, CapabilityView,
};
use crate::creator_authority::{
    CreatorConnectAuthorizationUrl, GrantCreatorConnectFlowApproval, GrantPopKeyId,
};
use crate::error::{secret_error, ApplicationError, ErrorView};
use crate::grant_pop_keys::{
    derived_key, pop_public_key, pop_secret, public_key_of, LockServerGrantPopKeys, PopSigner,
};
use crate::grant_state::{
    encode_grant_state, grant_state_fields, has_texts, stored_grant_state,
    DelegatedGrantCredentialState, GrantStateView,
};
use crate::json::json_object_text;
use crate::keys::{creator_from_pubky_public_key_z32, creator_text, is_canonical_key, PublicKey};
use crate::text::{same_text, texts};
use crate::timestamp::{Timestamp, LAST_SECOND, NANOS_PER_SECOND};

verus! {

/// The claims of a grant, as far as they matter here, as a mathematical value.
pub struct GrantClaimsView {
    /// Spelling of the issuer's public key.
    pub iss: Seq<char>,
    /// Client that the grant is for.
    pub client_id: Seq<char>,
    /// Granted capabilities.
    pub caps: Seq<CapabilityView>,
    /// Spelling of the public key that the grant is bound to.
    pub cnf: Seq<char>,
    /// Expiry, in seconds since the Unix epoch.
    pub exp: u64,
}

/// The claims of the grant that `jws` carries, `None` where it carries none.
pub uninterp spec fn grant_claims_in(jws: Seq<char>) -> Option<GrantClaimsView>;

/// The claims of a grant as plain values.
struct DecodedClaims {
    iss: String,
    client_id: String,
    caps: Vec<(String, String)>,
    cnf: String,
    exp: u64,
}

impl View for DecodedClaims {
    type V = GrantClaimsView;

    closed spec fn view(&self) -> GrantClaimsView {
        GrantClaimsView {
            iss: self.iss@,
            client_id: self.client_id@,
            caps: self.caps@.map_values(
                |cap: (String, String)| CapabilityView { scope: cap.0@, actions: cap.1@ },
            ),
            cnf: self.cnf@,
            exp: self.exp,
        }
    }
}

/// `pubky::GrantClaims::decode`. Claimed: whether the text carries a grant, and with which
/// claims, depends on the text alone; keys come back in the spelling that keys print themselves
/// with, and the text of every capability spells it again.
#[verifier::external_body]
fn decode_claims(jws: &str) -> (claims: Option<DecodedClaims>)
    ensures
        match claims {
            Some(claims) => {
                &&& grant_claims_in(jws@) == Some(claims@)
                &&& is_canonical_key(claims@.iss)
                &&& is_canonical_key(claims@.cnf)
                &&& forall|i: int|
                    0 <= i < claims@.caps.len() ==> is_spelled(#[trigger] claims@.caps[i])
            },
            None => grant_claims_in(jws@) is None,
        },
{
    pubky::GrantClaims::decode(jws).ok().map(|claims| DecodedClaims {
        iss: claims.iss.z32(),
        client_id: claims.client_id.as_str().to_owned(),
        caps: claims.caps.iter().map(|cap| (
            cap.scope().as_str().to_owned(),
            cap.actions().iter().map(char::from).collect(),
        )).collect(),
        cnf: claims.cnf.z32(),
        exp: claims.exp,
    })
}

/// The claims of a grant, as far as they matter here.
pub struct GrantClaims {
    /// Issuer: the creator who signed the grant.
    pub iss: PublicKey,
    /// Client that the grant is for.
    pub client_id: String,
    /// Granted capabilities.
    pub caps: Vec<Capability>,
    /// Public key that the grant is bound to.
    pub cnf: PublicKey,
    /// Expiry, in seconds since the Unix epoch.
    pub exp: u64,
}

impl View for GrantClaims {
    type V = GrantClaimsView;

    open spec fn view(&self) -> GrantClaimsView {
        GrantClaimsView {
            iss: self.iss@,
            client_id: self.client_id@,
            caps: capability_views(self.caps@),
            cnf: self.cnf@,
            exp: self.exp,
        }
    }
}

impl GrantClaims {
    /// Reads the claims of a grant, without verifying its signature.
    pub fn decode(jws: &str) -> (claims: Option<GrantClaims>)
        ensures
            match claims {
                Some(claims) => grant_claims_in(jws@) == Some(claims@),
                None => grant_claims_in(jws@) is None,
            },
    {
        let decoded = match decode_claims(jws) {
            Some(decoded) => decoded,
            None => {
                return None;
            },
        };
        let ghost view = decoded@;
        let mut caps: Vec<Capability> = Vec::new();
        for cap in it: decoded.caps.iter()
            invariant
                view == decoded@,
                it.seq().len() == decoded.caps@.len(),
                forall|i: int| 0 <= i < it.seq().len() ==> *it.seq()[i] == decoded.caps@[i],
                forall|i: int| 0 <= i < view.caps.len() ==> is_spelled(#[trigger] view.caps[i]),
                caps@.len() == it.index(),
                forall|i: int| 0 <= i < it.index() ==> (#[trigger] caps@[i])@ == view.caps[i],
        {
            assert(is_spelled(view.caps[it.index()]));
            caps.push(Capability::from_spelled(cap.0.clone(), cap.1.clone()));
        }
        assert(capability_views(caps@) =~= view.caps);
        Some(
            GrantClaims {
                iss: PublicKey::from_canonical(decoded.iss),
                client_id: decoded.client_id,
                caps,
                cnf: PublicKey::from_canonical(decoded.cnf),
                exp: decoded.exp,
            },
        )
    }
}

fn grant_connect_flow_error(message: &'static str) -> (error: ApplicationError)
    ensures
        error@ == secret_error(message@),
{
    ApplicationError::CreatorAuthoritySecret { message: message.to_owned() }
}

/// Why an approved grant does not become creator authority, if it does not: the first of these
/// conditions that fails.
pub open spec fn grant_refusal(
    claims: GrantClaimsView,
    state: GrantStateView,
    session_pubky: Seq<char>,
    expected_client_id: Seq<char>,
    expected_client_pk: Seq<char>,
    requested_scopes: Seq<Seq<char>>,
) -> Option<ErrorView> {
    if claims.iss != session_pubky {
        Some(secret_error("grant issuer does not match the homeserver session"@))
    } else if claims.client_id != expected_client_id {
        Some(secret_error("grant names a different client id"@))
    } else if claims.cnf != expected_client_pk || state.client_pk != expected_client_pk {
        Some(secret_error("grant is not bound to the Lock Server key"@))
    } else if !are_capabilities(requested_scopes) {
        Some(secret_error("invalid creator connect scope"@))
    } else if !all_covered(claims.caps, capabilities_in(requested_scopes)) {
        Some(secret_error("grant does not cover the requested scopes"@))
    } else if claims.exp > LAST_SECOND {
        Some(secret_error("grant expiry is out of range"@))
    } else {
        None
    }
}

/// The texts of a list of capabilities.
pub open spec fn capability_texts(capabilities: Seq<CapabilityView>) -> Seq<Seq<char>> {
    capabilities.map_values(|capability: CapabilityView| capability_text(capability))
}

/// `approval` is what a grant with these claims and this restore state becomes: the creator is
/// the issuer, and the secret is the stored restore state.
pub open spec fn is_grant_approval(
    claims: GrantClaimsView,
    state: GrantStateView,
    approval: GrantCreatorConnectFlowApproval,
) -> bool {
    &&& approval.creator@ == creator_text(claims.iss)
    &&& approval.grant_state@ == json_object_text(grant_state_fields(state))
    &&& has_texts(state) ==> stored_grant_state(approval.grant_state@) == Some(state)
    &&& texts(approval.granted_scopes@) == capability_texts(claims.caps)
    &&& are_capabilities(texts(approval.granted_scopes@))
    &&& capabilities_in(texts(approval.granted_scopes@)) == claims.caps
    &&& approval.grant_expires_at@ == claims.exp * NANOS_PER_SECOND
    &&& approval.grant_expires_at.offset() == 0
}

/// What a grant with these claims and this restore state becomes, or why it does not.
pub open spec fn is_approval_of_claims(
    claims: GrantClaimsView,
    state: GrantStateView,
    session_pubky: Seq<char>,
    expected_client_id: Seq<char>,
    expected_client_pk: Seq<char>,
    requested_scopes: Seq<Seq<char>>,
    approval: Result<GrantCreatorConnectFlowApproval, ApplicationError>,
) -> bool {
    match approval {
        Ok(approval) => {
            &&& grant_refusal(
                claims,
                state,
                session_pubky,
                expected_client_id,
                expected_client_pk,
                requested_scopes,
            ) is None
            &&& is_grant_approval(claims, state, approval)
        },
        Err(error) => grant_refusal(
            claims,
            state,
            session_pubky,
            expected_client_id,
            expected_client_pk,
            requested_scopes,
        ) == Some(error@),
    }
}

/// Whether every required capability is covered by one of the granted ones.
fn covers_all(granted: &Vec<Capability>, required: &Vec<Capability>) -> (covered: bool)
    ensures
        covered == all_covered(capability_views(granted@), capability_views(required@)),
{
    let ghost views = capability_views(required@);
    for capability in it: required.iter()
        invariant
            views == capability_views(required@),
            it.seq().len() == required@.len(),
            forall|i: int| 0 <= i < it.seq().len() ==> *it.seq()[i] == required@[i],
            forall|i: int|
                0 <= i < it.index() ==> some_covers(
                    capability_views(granted@),
                    #[trigger] views[i],
                ),
    {
        if !grant_covers(granted, capability) {
            assert(!some_covers(capability_views(granted@), views[it.index()]));
            return false;
        }
    }
    true
}

/// The texts of the granted capabilities.
fn granted_scope_texts(caps: &Vec<Capability>) -> (scopes: Vec<String>)
    ensures
        texts(scopes@) == capability_texts(capability_views(caps@)),
        are_capabilities(texts(scopes@)),
        capabilities_in(texts(scopes@)) == capability_views(caps@),
{
    let ghost views = capability_views(caps@);
    let mut scopes: Vec<String> = Vec::new();
    for cap in it: caps.iter()
        invariant
            views == capability_views(caps@),
            it.seq().len() == caps@.len(),
            forall|i: int| 0 <= i < it.seq().len() ==> *it.seq()[i] == caps@[i],
            scopes@.len() == it.index(),
            forall|i: int|
                0 <= i < it.index() ==> (#[trigger] scopes@[i])@ == capability_text(views[i]),
            forall|i: int| 0 <= i < it.index() ==> is_spelled(#[trigger] views[i]),
    {
        assert(views[it.index()] == cap@);
        scopes.push(cap.to_text());
    }
    assert(texts(scopes@) =~= capability_texts(views));
    assert forall|i: int| 0 <= i < texts(scopes@).len() implies capability_in(
        #[trigger] texts(scopes@)[i],
    ) == Some(views[i]) by {
        assert(is_spelled(views[i]));
    }
    assert(capabilities_in(texts(scopes@)) =~= views);
    scopes
}

/// The expiry that a grant names, if the calendar reaches it.
fn grant_expiry(exp: u64) -> (at: Option<Timestamp>)
    ensures
        match at {
            Some(at) => exp <= LAST_SECOND && at@ == exp * NANOS_PER_SECOND && at.offset() == 0,
            None => exp > LAST_SECOND,
        },
{
    if exp > i64::MAX as u64 {
        return None;
    }
    Timestamp::from_unix_timestamp(exp as i64)
}

/// Validates an approved grant whose claims have been read, and converts it into
/// creator-authority state.
///
/// The creator is the grant issuer, and the homeserver session must belong to that same issuer.
/// The grant must name this Lock Server's client id, bind the Lock Server PoP key, and cover every
/// requested scope.
pub fn grant_approval_from_claims(
    claims: GrantClaims,
    state: &DelegatedGrantCredentialState,
    session_pubky: &PublicKey,
    expected_client_id: &str,
    expected_client_pk: &PublicKey,
    requested_scopes: &Vec<String>,
) -> (approval: Result<GrantCreatorConnectFlowApproval, ApplicationError>)
    ensures
        is_approval_of_claims(
            claims@,
            state@,
            session_pubky@,
            expected_client_id@,
            expected_client_pk@,
            texts(requested_scopes@),
            approval,
        ),
{
    if !claims.iss.is_same(session_pubky) {
        return Err(
            grant_connect_flow_error("grant issuer does not match the homeserver session"),
        );
    }
    if !same_text(claims.client_id.as_str(), expected_client_id) {
        return Err(grant_connect_flow_error("grant names a different client id"));
    }
    if !claims.cnf.is_same(expected_client_pk) || !state.client_pk.is_same(expected_client_pk) {
        return Err(grant_connect_flow_error("grant is not bound to the Lock Server key"));
    }
    let requested = match requested_scopes_to_capabilities(requested_scopes) {
        Ok(requested) => requested,
        Err(error) => {
            return Err(error);
        },
    };
    if !covers_all(&claims.caps, &requested) {
        return Err(grant_connect_flow_error("grant does not cover the requested scopes"));
    }
    let creator = match creator_from_pubky_public_key_z32(claims.iss.z32()) {
        Ok(creator) => creator,
        Err(error) => {
            return Err(error);
        },
    };
    let grant_expires_at = match grant_expiry(claims.exp) {
        Some(at) => at,
        None => {
            return Err(grant_connect_flow_error("grant expiry is out of range"));
        },
    };
    Ok(
        GrantCreatorConnectFlowApproval {
            creator,
            grant_state: encode_grant_state(state),
            granted_scopes: granted_scope_texts(&claims.caps),
            grant_expires_at,
        },
    )
}

/// Validates an approved grant and converts it into creator-authority state.
pub fn grant_approval_from_parts(
    state: &DelegatedGrantCredentialState,
    session_pubky: &PublicKey,
    expected_client_id: &str,
    expected_client_pk: &PublicKey,
    requested_scopes: &Vec<String>,
) -> (approval: Result<GrantCreatorConnectFlowApproval, ApplicationError>)
    ensures
        is_approval_of_state(
            state@,
            session_pubky@,
            expected_client_id@,
            expected_client_pk@,
            texts(requested_scopes@),
            approval,
        ),
{
    match GrantClaims::decode(state.grant_jws.as_str()) {
        Some(claims) => grant_approval_from_claims(
            claims,
            state,
            session_pubky,
            expected_client_id,
            expected_client_pk,
            requested_scopes,
        ),
        None => Err(grant_connect_flow_error("grant creator connect flow returned no grant")),
    }
}

/// What the grant in a restore state becomes, or why it does not.
pub open spec fn is_approval_of_state(
    state: GrantStateView,
    session_pubky: Seq<char>,
    expected_client_id: Seq<char>,
    expected_client_pk: Seq<char>,
    requested_scopes: Seq<Seq<char>>,
    approval: Result<GrantCreatorConnectFlowApproval, ApplicationError>,
) -> bool {
    match grant_claims_in(state.grant_jws) {
        Some(claims) => is_approval_of_claims(
            claims,
            state,
            session_pubky,
            expected_client_id,
            expected_client_pk,
            requested_scopes,
            approval,
        ),
        None => approval matches Err(error) && error@ == secret_error(
            "grant creator connect flow returned no grant"@,
        ),
    }
}

/// What a grant flow is started with, besides the client id and the relay.
pub struct GrantFlowPlan {
    /// Capabilities to ask for.
    pub capabilities: Vec<Capability>,
    /// Id of the key that will sign the grant's proofs.
    pub key_id: String,
    /// Public half of that key, which the grant is to be bound to.
    pub client_pk: PublicKey,
    /// Signer that stands for its private half.
    pub signer: PopSigner,
}

/// `plan` is what a grant flow for the requested scopes is started with, or why it is not.
pub open spec fn is_grant_flow_plan(
    seed: Seq<u8>,
    requested_scopes: Seq<Seq<char>>,
    pop_key_id: Seq<char>,
    plan: Result<GrantFlowPlan, ApplicationError>,
) -> bool {
    match plan {
        Ok(plan) => {
            &&& are_capabilities(requested_scopes)
            &&& capability_views(plan.capabilities@) == capabilities_in(requested_scopes)
            &&& plan.key_id@ == pop_key_id
            &&& plan.client_pk@ == pop_public_key(seed, pop_key_id)
            &&& plan.signer@ == pop_secret(seed, pop_key_id)
        },
        Err(error) => {
            &&& !are_capabilities(requested_scopes)
            &&& error@ == secret_error("invalid creator connect scope"@)
        },
    }
}

/// Decides what a grant flow for the requested scopes is started with. The caller starts it and
/// reports to [`settle_grant_flow_start`].
pub fn start_grant_creator_connect_flow(
    pop_keys: &LockServerGrantPopKeys,
    requested_scopes: &Vec<String>,
    pop_key_id: &GrantPopKeyId,
) -> (plan: Result<GrantFlowPlan, ApplicationError>)
    ensures
        is_grant_flow_plan(pop_keys@, texts(requested_scopes@), pop_key_id@, plan),
{
    let capabilities = match requested_scopes_to_capabilities(requested_scopes) {
        Ok(capabilities) => capabilities,
        Err(error) => {
            return Err(error);
        },
    };
    Ok(
        GrantFlowPlan {
            capabilities,
            key_id: pop_key_id.as_str().to_owned(),
            client_pk: pop_keys.public_key(pop_key_id),
            signer: pop_keys.signer(pop_key_id),
        },
    )
}

/// `started` is what starting a grant flow says.
pub open spec fn is_started_grant_flow(
    authorization_url: Option<String>,
    started: Result<CreatorConnectAuthorizationUrl, ApplicationError>,
) -> bool {
    match authorization_url {
        Some(text) => started matches Ok(url) && url@ == text@,
        None => started matches Err(error) && error@ == secret_error(
            "failed to start grant creator connect flow"@,
        ),
    }
}

/// What starting a grant flow says: its authorization URL, or the error where there is none.
pub fn settle_grant_flow_start(authorization_url: Option<String>) -> (started: Result<
    CreatorConnectAuthorizationUrl,
    ApplicationError,
>)
    ensures
        is_started_grant_flow(authorization_url, started),
{
    match authorization_url {
        Some(text) => Ok(CreatorConnectAuthorizationUrl::new(text.as_str())),
        None => Err(grant_connect_flow_error("failed to start grant creator connect flow")),
    }
}

/// What a started grant flow is resumed with.
pub struct GrantFlowResume {
    /// The flow's authorization URL.
    pub authorization_url: String,
    /// Id of the key that signs the grant's proofs.
    pub key_id: String,
    /// Public half of that key.
    pub client_pk: PublicKey,
    /// Signer that stands for its private half.
    pub signer: PopSigner,
}

/// `resume` is what a started grant flow is resumed with.
pub open spec fn is_grant_flow_resume(
    seed: Seq<u8>,
    authorization_url: Seq<char>,
    pop_key_id: Seq<char>,
    resume: GrantFlowResume,
) -> bool {
    &&& resume.authorization_url@ == authorization_url
    &&& resume.key_id@ == pop_key_id
    &&& resume.client_pk@ == pop_public_key(seed, pop_key_id)
    &&& resume.signer@ == pop_secret(seed, pop_key_id)
}

/// Decides what a started grant flow is resumed with. The caller resumes it, waits for the
/// approval and reports to [`await_grant_creator_connect_flow_approval`].
pub fn resume_grant_creator_connect_flow(
    pop_keys: &LockServerGrantPopKeys,
    authorization_url: &CreatorConnectAuthorizationUrl,
    pop_key_id: &GrantPopKeyId,
) -> (resume: GrantFlowResume)
    ensures
        is_grant_flow_resume(pop_keys@, authorization_url@, pop_key_id@, resume),
{
    GrantFlowResume {
        authorization_url: authorization_url.expose_url().to_owned(),
        key_id: pop_key_id.as_str().to_owned(),
        client_pk: pop_keys.public_key(pop_key_id),
        signer: pop_keys.signer(pop_key_id),
    }
}

/// How a resumed grant flow ended.
pub enum GrantFlowOutcome {
    /// The flow could not be resumed.
    NotResumed,
    /// No approval came.
    NotApproved,
    /// The approved grant does not use a delegated key.
    NotDelegated,
    /// The creator approved.
    Approved {
        /// Restore state of the grant.
        state: DelegatedGrantCredentialState,
        /// Public key of the homeserver session that the grant opened.
        session_pubky: PublicKey,
    },
}

/// What the outcome of a grant flow becomes, or why it does not.
pub open spec fn is_approval_of_outcome(
    seed: Seq<u8>,
    pop_key_id: Seq<char>,
    client_id: Seq<char>,
    requested_scopes: Seq<Seq<char>>,
    outcome: GrantFlowOutcome,
    approval: Result<GrantCreatorConnectFlowApproval, ApplicationError>,
) -> bool {
    match outcome {
        GrantFlowOutcome::NotResumed => approval matches Err(error) && error@ == secret_error(
            "failed to resume grant creator connect flow"@,
        ),
        GrantFlowOutcome::NotApproved => approval matches Err(error) && error@ == secret_error(
            "grant creator connect flow approval failed or expired"@,
        ),
        GrantFlowOutcome::NotDelegated => approval matches Err(error) && error@ == secret_error(
            "grant creator connect flow did not use a delegated key"@,
        ),
        GrantFlowOutcome::Approved { state, session_pubky } => is_approval_of_state(
            state@,
            session_pubky@,
            client_id,
            pop_public_key(seed, pop_key_id),
            requested_scopes,
            approval,
        ),
    }
}

/// Decides what the outcome of a grant flow becomes: creator-authority state, or the error that
/// tells why not.
pub fn await_grant_creator_connect_flow_approval(
    pop_keys: &LockServerGrantPopKeys,
    pop_key_id: &GrantPopKeyId,
    client_id: &str,
    requested_scopes: &Vec<String>,
    outcome: &GrantFlowOutcome,
) -> (approval: Result<GrantCreatorConnectFlowApproval, ApplicationError>)
    ensures
        is_approval_of_outcome(
            pop_keys@,
            pop_key_id@,
            client_id@,
            texts(requested_scopes@),
            *outcome,
            approval,
        ),
{
    match outcome {
        GrantFlowOutcome::NotResumed => Err(
            grant_connect_flow_error("failed to resume grant creator connect flow"),
        ),
        GrantFlowOutcome::NotApproved => Err(
            grant_connect_flow_error("grant creator connect flow approval failed or expired"),
        ),
        GrantFlowOutcome::NotDelegated => Err(
            grant_connect_flow_error("grant creator connect flow did not use a delegated key"),
        ),
        GrantFlowOutcome::Approved { state, session_pubky } => {
            let expected_client_pk = pop_keys.public_key(pop_key_id);
            grant_approval_from_parts(
                state,
                session_pubky,
                client_id,
                &expected_client_pk,
                requested_scopes,
            )
        },
    }
}

/// An approved grant is the creator's own, is for this client and is bound to the Lock Server
/// key, and the scopes that are told as granted cover every scope that was requested.
pub proof fn law_approved_grant_is_bound_and_covers(
    claims: GrantClaimsView,
    state: GrantStateView,
    session_pubky: Seq<char>,
    expected_client_id: Seq<char>,
    expected_client_pk: Seq<char>,
    requested_scopes: Seq<Seq<char>>,
    approval: GrantCreatorConnectFlowApproval,
)
    requires
        grant_refusal(
            claims,
            state,
            session_pubky,
            expected_client_id,
            expected_client_pk,
            requested_scopes,
        ) is None,
        is_grant_approval(claims, state, approval),
    ensures
        approval.creator@ == creator_text(session_pubky),
        claims.client_id == expected_client_id,
        claims.cnf == expected_client_pk,
        state.client_pk == expected_client_pk,
        all_covered(
            capabilities_in(texts(approval.granted_scopes@)),
            capabilities_in(requested_scopes),
        ),
{
}

/// What an approved grant stores can be restored: the stored secret reads back as the restore
/// state, that state is bound to the very key that its key id names, and the session that
/// belongs to the grant's issuer belongs to the stored creator.
pub proof fn law_approved_grant_can_be_restored(
    claims: GrantClaimsView,
    state: GrantStateView,
    session_pubky: Seq<char>,
    expected_client_id: Seq<char>,
    seed: Seq<u8>,
    requested_scopes: Seq<Seq<char>>,
    approval: GrantCreatorConnectFlowApproval,
)
    requires
        has_texts(state),
        grant_refusal(
            claims,
            state,
            session_pubky,
            expected_client_id,
            pop_public_key(seed, state.key_id),
            requested_scopes,
        ) is None,
        is_grant_approval(claims, state, approval),
    ensures
        stored_grant_state(approval.grant_state@) == Some(state),
        state.client_pk == pop_public_key(seed, state.key_id),
        creator_text(session_pubky) == approval.creator@,
{
}

/// A grant is approved exactly when it is the session's own, names this client, binds the Lock
/// Server key, ends within the calendar, and one of its capabilities covers each of the requested
/// scopes, however many more it carries.
pub proof fn law_covering_grant_is_approved(
    claims: GrantClaimsView,
    state: GrantStateView,
    session_pubky: Seq<char>,
    expected_client_id: Seq<char>,
    expected_client_pk: Seq<char>,
    requested_scopes: Seq<Seq<char>>,
    approval: Result<GrantCreatorConnectFlowApproval, ApplicationError>,
)
    requires
        is_approval_of_claims(
            claims,
            state,
            session_pubky,
            expected_client_id,
            expected_client_pk,
            requested_scopes,
            approval,
        ),
    ensures
        approval is Ok <==> {
            &&& claims.iss == session_pubky
            &&& claims.client_id == expected_client_id
            &&& claims.cnf == expected_client_pk
            &&& state.client_pk == expected_client_pk
            &&& forall|i: int|
                0 <= i < requested_scopes.len() ==> capability_in(#[trigger] requested_scopes[i])
                    is Some
            &&& forall|i: int|
                0 <= i < requested_scopes.len() ==> some_covers(
                    claims.caps,
                    capability_in(#[trigger] requested_scopes[i])->0,
                )
            &&& claims.exp <= 253_402_300_799
        },
{
    let required = capabilities_in(requested_scopes);
    if all_covered(claims.caps, required) {
        assert forall|i: int| 0 <= i < requested_scopes.len() implies some_covers(
            claims.caps,
            capability_in(#[trigger] requested_scopes[i])->0,
        ) by {
            assert(some_covers(claims.caps, required[i]));
        }
    }
}

/// What an approved grant becomes: its creator is the issuer, its scopes are all the capabilities
/// of the grant in their order, each told as its scope, a colon and its actions, its expiry is the
/// grant's own second, and its secret is the stored restore state.
pub proof fn law_approval_tells_the_whole_grant(
    claims: GrantClaimsView,
    state: GrantStateView,
    session_pubky: Seq<char>,
    expected_client_id: Seq<char>,
    expected_client_pk: Seq<char>,
    requested_scopes: Seq<Seq<char>>,
    approval: Result<GrantCreatorConnectFlowApproval, ApplicationError>,
)
    requires
        is_approval_of_claims(
            claims,
            state,
            session_pubky,
            expected_client_id,
            expected_client_pk,
            requested_scopes,
            approval,
        ),
        approval is Ok,
    ensures
        approval->Ok_0.creator@ == "pubky"@ + claims.iss,
        approval->Ok_0.granted_scopes@.len() == claims.caps.len(),
        forall|i: int|
            0 <= i < claims.caps.len() ==> (#[trigger] approval->Ok_0.granted_scopes@[i])@
                == claims.caps[i].scope + ":"@ + claims.caps[i].actions,
        approval->Ok_0.grant_expires_at@ == claims.exp * 1_000_000_000,
        approval->Ok_0.grant_expires_at.offset() == 0,
        approval->Ok_0.grant_state@ == json_object_text(grant_state_fields(state)),
        state.grant_jws.len() > 0 && state.key_id.len() > 0 ==> stored_grant_state(
            approval->Ok_0.grant_state@,
        ) == Some(state),
{
    let scopes = approval->Ok_0.granted_scopes@;
    assert(texts(scopes).len() == capability_texts(claims.caps).len());
    assert forall|i: int| 0 <= i < claims.caps.len() implies (#[trigger] scopes[i])@
        == claims.caps[i].scope + ":"@ + claims.caps[i].actions by {
        assert(texts(scopes)[i] == capability_texts(claims.caps)[i]);
    }
}

/// A refused grant is told the first thing that is wrong with it, in this order: its issuer, its
/// client, its key, the scopes that were requested, what it covers, and its expiry.
pub proof fn law_grant_refusal_tells_the_first_mismatch(
    claims: GrantClaimsView,
    state: GrantStateView,
    session_pubky: Seq<char>,
    expected_client_id: Seq<char>,
    expected_client_pk: Seq<char>,
    requested_scopes: Seq<Seq<char>>,
    approval: Result<GrantCreatorConnectFlowApproval, ApplicationError>,
)
    requires
        is_approval_of_claims(
            claims,
            state,
            session_pubky,
            expected_client_id,
            expected_client_pk,
            requested_scopes,
            approval,
        ),
        approval is Err,
    ensures
        claims.iss != session_pubky ==> approval->Err_0@ == (ErrorView::CreatorAuthoritySecret {
            message: "grant issuer does not match the homeserver session"@,
        }),
        claims.iss == session_pubky && claims.client_id != expected_client_id
            ==> approval->Err_0@ == (ErrorView::CreatorAuthoritySecret {
            message: "grant names a different client id"@,
        }),
        claims.iss == session_pubky && claims.client_id == expected_client_id && (claims.cnf
            != expected_client_pk || state.client_pk != expected_client_pk) ==> approval->Err_0@
            == (ErrorView::CreatorAuthoritySecret {
            message: "grant is not bound to the Lock Server key"@,
        }),
        claims.iss == session_pubky && claims.client_id == expected_client_id && claims.cnf
            == expected_client_pk && state.client_pk == expected_client_pk ==> {
            let spelled = forall|i: int|
                0 <= i < requested_scopes.len() ==> capability_in(#[trigger] requested_scopes[i])
                    is Some;
            let covered = all_covered(claims.caps, capabilities_in(requested_scopes));
            &&& !spelled ==> approval->Err_0@ == (ErrorView::CreatorAuthoritySecret {
                message: "invalid creator connect scope"@,
            })
            &&& spelled && !covered ==> approval->Err_0@ == (ErrorView::CreatorAuthoritySecret {
                message: "grant does not cover the requested scopes"@,
            })
            &&& spelled && covered ==> {
                &&& claims.exp > 253_402_300_799
                &&& approval->Err_0@ == (ErrorView::CreatorAuthoritySecret {
                    message: "grant expiry is out of range"@,
                })
            }
        },
{
}

/// A grant that carries every capability of an approved grant, and maybe more, in whatever order,
/// is approved as well, and so is one of which fewer scopes are requested.
pub proof fn law_more_granted_or_less_requested_stays_approved(
    claims: GrantClaimsView,
    state: GrantStateView,
    session_pubky: Seq<char>,
    expected_client_id: Seq<char>,
    expected_client_pk: Seq<char>,
    requested_scopes: Seq<Seq<char>>,
    approval: Result<GrantCreatorConnectFlowApproval, ApplicationError>,
    other_claims: GrantClaimsView,
    other_requested_scopes: Seq<Seq<char>>,
    other_approval: Result<GrantCreatorConnectFlowApproval, ApplicationError>,
)
    requires
        is_approval_of_claims(
            claims,
            state,
            session_pubky,
            expected_client_id,
            expected_client_pk,
            requested_scopes,
            approval,
        ),
        approval is Ok,
        other_claims == (GrantClaimsView { caps: other_claims.caps, ..claims }),
        forall|i: int|
            0 <= i < claims.caps.len() ==> other_claims.caps.contains(#[trigger] claims.caps[i]),
        forall|i: int|
            0 <= i < other_requested_scopes.len() ==> requested_scopes.contains(
                #[trigger] other_requested_scopes[i],
            ),
        is_approval_of_claims(
            other_claims,
            state,
            session_pubky,
            expected_client_id,
            expected_client_pk,
            other_requested_scopes,
            other_approval,
        ),
    ensures
        other_approval is Ok,
        other_approval->Ok_0.creator@ == approval->Ok_0.creator@,
        other_approval->Ok_0.grant_state@ == approval->Ok_0.grant_state@,
        other_approval->Ok_0.grant_expires_at@ == approval->Ok_0.grant_expires_at@,
{
    law_covering_grant_is_approved(
        claims,
        state,
        session_pubky,
        expected_client_id,
        expected_client_pk,
        requested_scopes,
        approval,
    );
    law_covering_grant_is_approved(
        other_claims,
        state,
        session_pubky,
        expected_client_id,
        expected_client_pk,
        other_requested_scopes,
        other_approval,
    );
    assert forall|i: int| 0 <= i < other_requested_scopes.len() implies capability_in(
        #[trigger] other_requested_scopes[i],
    ) is Some by {
        let at = choose|at: int|
            0 <= at < requested_scopes.len() && requested_scopes[at] == other_requested_scopes[i];
        assert(capability_in(requested_scopes[at]) is Some);
    }
    assert forall|i: int| 0 <= i < other_requested_scopes.len() implies some_covers(
        other_claims.caps,
        capability_in(#[trigger] other_requested_scopes[i])->0,
    ) by {
        let at = choose|at: int|
            0 <= at < requested_scopes.len() && requested_scopes[at] == other_requested_scopes[i];
        let required = capability_in(requested_scopes[at])->0;
        assert(some_covers(claims.caps, required));
        let j = choose|j: int|
            0 <= j < claims.caps.len() && covers(#[trigger] claims.caps[j], required);
        assert(other_claims.caps.contains(claims.caps[j]));
        let k = choose|k: int|
            0 <= k < other_claims.caps.len() && other_claims.caps[k] == claims.caps[j];
        assert(covers(other_claims.caps[k], required));
    }
}

/// Only an approved flow whose restore state carries a grant can become an authority, and the
/// grant is held to the very key that the seed and the key id give.
pub proof fn law_outcome_is_held_to_the_lock_server_key(
    seed: Seq<u8>,
    pop_key_id: Seq<char>,
    client_id: Seq<char>,
    requested_scopes: Seq<Seq<char>>,
    outcome: GrantFlowOutcome,
    approval: Result<GrantCreatorConnectFlowApproval, ApplicationError>,
)
    requires
        is_approval_of_outcome(seed, pop_key_id, client_id, requested_scopes, outcome, approval),
    ensures
        outcome is NotResumed ==> approval is Err && approval->Err_0@ == (
        ErrorView::CreatorAuthoritySecret {
            message: "failed to resume grant creator connect flow"@,
        }),
        outcome is NotApproved ==> approval is Err && approval->Err_0@ == (
        ErrorView::CreatorAuthoritySecret {
            message: "grant creator connect flow approval failed or expired"@,
        }),
        outcome is NotDelegated ==> approval is Err && approval->Err_0@ == (
        ErrorView::CreatorAuthoritySecret {
            message: "grant creator connect flow did not use a delegated key"@,
        }),
        outcome matches GrantFlowOutcome::Approved { state, session_pubky } ==> match (
            grant_claims_in(state.grant_jws@)
        ) {
            None => approval is Err && approval->Err_0@ == (ErrorView::CreatorAuthoritySecret {
                message: "grant creator connect flow returned no grant"@,
            }),
            Some(claims) => is_approval_of_claims(
                claims,
                state@,
                session_pubky@,
                client_id,
                public_key_of(
                    derived_key(
                        "pubky-locks 2026-09-23 creator grant PoP key v1"@,
                        seed + encode_utf8(pop_key_id),
                    ),
                ),
                requested_scopes,
                approval,
            ),
        },
{
}

/// A grant flow is started exactly when every requested scope spells a capability. It asks for
/// those capabilities in their order, with the key that the seed and the key id give.
pub proof fn law_grant_flow_asks_for_the_requested_scopes(
    seed: Seq<u8>,
    requested_scopes: Seq<Seq<char>>,
    pop_key_id: Seq<char>,
    plan: Result<GrantFlowPlan, ApplicationError>,
)
    requires
        is_grant_flow_plan(seed, requested_scopes, pop_key_id, plan),
    ensures
        plan is Ok <==> forall|i: int|
            0 <= i < requested_scopes.len() ==> capability_in(#[trigger] requested_scopes[i])
                is Some,
        plan is Err ==> plan->Err_0@ == (ErrorView::CreatorAuthoritySecret {
            message: "invalid creator connect scope"@,
        }),
        plan is Ok ==> {
            let secret = derived_key(
                "pubky-locks 2026-09-23 creator grant PoP key v1"@,
                seed + encode_utf8(pop_key_id),
            );
            &&& plan->Ok_0.key_id@ == pop_key_id
            &&& plan->Ok_0.client_pk@ == public_key_of(secret)
            &&& plan->Ok_0.signer@ == secret
            &&& plan->Ok_0.capabilities@.len() == requested_scopes.len()
            &&& forall|i: int|
                0 <= i < requested_scopes.len() ==> capability_in(requested_scopes[i]) == Some(
                    (#[trigger] plan->Ok_0.capabilities@[i])@,
                )
        },
{
    if plan is Ok {
        let views = capability_views(plan->Ok_0.capabilities@);
        assert(views.len() == capabilities_in(requested_scopes).len());
        assert forall|i: int| 0 <= i < requested_scopes.len() implies capability_in(
            requested_scopes[i],
        ) == Some((#[trigger] plan->Ok_0.capabilities@[i])@) by {
            assert(views[i] == capabilities_in(requested_scopes)[i]);
            assert(capability_in(requested_scopes[i]) is Some);
        }
    }
}

/// A flow is resumed with its own URL and with the key, the key id and the signer that it was
/// started with, and the grant that it brings is approved only if it binds that key.
pub proof fn law_resumed_flow_uses_the_key_it_was_started_with(
    seed: Seq<u8>,
    requested_scopes: Seq<Seq<char>>,
    pop_key_id: Seq<char>,
    plan: GrantFlowPlan,
    authorization_url: Seq<char>,
    resume: GrantFlowResume,
    client_id: Seq<char>,
    outcome: GrantFlowOutcome,
    approval: Result<GrantCreatorConnectFlowApproval, ApplicationError>,
)
    requires
        is_grant_flow_plan(seed, requested_scopes, pop_key_id, Ok(plan)),
        is_grant_flow_resume(seed, authorization_url, pop_key_id, resume),
        is_approval_of_outcome(seed, pop_key_id, client_id, requested_scopes, outcome, approval),
    ensures
        resume.authorization_url@ == authorization_url,
        resume.key_id@ == plan.key_id@,
        resume.client_pk@ == plan.client_pk@,
        resume.signer@ == plan.signer@,
        approval is Ok ==> {
            &&& outcome is Approved
            &&& outcome->state@.client_pk == plan.client_pk@
            &&& grant_claims_in(outcome->state.grant_jws@) is Some
            &&& grant_claims_in(outcome->state.grant_jws@)->0.cnf == plan.client_pk@
            &&& grant_claims_in(outcome->state.grant_jws@)->0.client_id == client_id
            &&& grant_claims_in(outcome->state.grant_jws@)->0.iss == outcome->session_pubky@
        },
{
}

/// A grant flow that started gives its own authorization URL, and one that did not is an error.
pub proof fn law_started_grant_flow_gives_its_url(
    authorization_url: Option<String>,
    started: Result<CreatorConnectAuthorizationUrl, ApplicationError>,
)
    requires
        is_started_grant_flow(authorization_url, started),
    ensures
        started is Ok <==> authorization_url is Some,
        started is Ok ==> started->Ok_0@ == authorization_url->0@,
        started is Err ==> started->Err_0@ == (ErrorView::CreatorAuthoritySecret {
            message: "failed to start grant creator connect flow"@,
        }),
{
}

} // verus!
