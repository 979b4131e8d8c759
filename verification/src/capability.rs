//! Capabilities: a scope of paths and the actions allowed within it.

use vstd::prelude::*;
use vstd::string::*;

use crate::error::{secret_error, ApplicationError};
use crate::text::{begins_with, closes_with, holds_char, same_text, texts};

verus! {

/// A capability as a mathematical value.
pub struct CapabilityView {
    /// Path of the directory or file that the capability is about.
    pub scope: Seq<char>,
    /// One letter for each allowed action.
    pub actions: Seq<char>,
}

/// The capability that `text` spells, `None` where it spells none.
pub uninterp spec fn capability_in(text: Seq<char>) -> Option<CapabilityView>;

/// The text of a capability: `<scope>:<actions>`.
pub open spec fn capability_text(capability: CapabilityView) -> Seq<char> {
    capability.scope + ":"@ + capability.actions
}

/// The capability's text spells that very capability.
pub open spec fn is_spelled(capability: CapabilityView) -> bool {
    capability_in(capability_text(capability)) == Some(capability)
}

/// `pubky::Capability::from_str` with `scope` and `actions`. Claimed: whether the text spells a
/// capability, and which, depends on the text alone; the text of what comes back spells it again,
/// as the scope holds no colon and the actions come back sorted, each once.
#[verifier::external_body]
fn capability_parts(text: &str) -> (parts: Option<(String, String)>)
    ensures
        match parts {
            Some((scope, actions)) => {
                &&& capability_in(text@) == Some(CapabilityView { scope: scope@, actions: actions@ })
                &&& is_spelled(CapabilityView { scope: scope@, actions: actions@ })
            },
            None => capability_in(text@) is None,
        },
{
    let capability: pubky::Capability = text.parse().ok()?;
    let actions: String = capability.actions().iter().map(char::from).collect();
    Some((capability.scope().as_str().to_owned(), actions))
}

/// A scope of paths and the actions allowed within it.
#[derive(PartialEq, Eq)]
pub struct Capability {
    scope: String,
    actions: String,
}

impl View for Capability {
    type V = CapabilityView;

    closed spec fn view(&self) -> CapabilityView {
        CapabilityView { scope: self.scope@, actions: self.actions@ }
    }
}

/// A scope covers a path if it is that path, or if it is a directory (it ends in `/`) that the
/// path is inside of. A file scope covers nothing but itself.
pub open spec fn scope_covers(scope: Seq<char>, path: Seq<char>) -> bool {
    scope == path || ("/"@.is_suffix_of(scope) && scope.is_prefix_of(path))
}

/// One capability covers another: its scope covers the other's, and it allows every action that
/// the other allows.
pub open spec fn covers(granted: CapabilityView, required: CapabilityView) -> bool {
    &&& scope_covers(granted.scope, required.scope)
    &&& forall|i: int|
        0 <= i < required.actions.len() ==> granted.actions.contains(#[trigger] required.actions[i])
}

/// One of the granted capabilities covers the required one.
pub open spec fn some_covers(granted: Seq<CapabilityView>, required: CapabilityView) -> bool {
    exists|i: int| 0 <= i < granted.len() && covers(#[trigger] granted[i], required)
}

/// The capabilities of a list.
pub open spec fn capability_views(capabilities: Seq<Capability>) -> Seq<CapabilityView> {
    capabilities.map_values(|capability: Capability| capability@)
}

impl Capability {
    /// The capability is what its own text spells.
    #[verifier::type_invariant]
    pub open spec fn is_valid(self) -> bool {
        is_spelled(self@)
    }

    /// Reads a capability from its text.
    pub fn from_str(text: &str) -> (capability: Option<Capability>)
        ensures
            match capability {
                Some(capability) => capability_in(text@) == Some(capability@),
                None => capability_in(text@) is None,
            },
    {
        match capability_parts(text) {
            Some((scope, actions)) => Some(Capability { scope, actions }),
            None => None,
        }
    }

    /// Puts a capability together that its own text spells.
    pub(crate) fn from_spelled(scope: String, actions: String) -> (capability: Capability)
        requires
            is_spelled(CapabilityView { scope: scope@, actions: actions@ }),
        ensures
            capability@ == (CapabilityView { scope: scope@, actions: actions@ }),
    {
        Capability { scope, actions }
    }

    /// The path that the capability is about.
    pub fn scope(&self) -> (scope: &str)
        ensures
            scope@ == self@.scope,
    {
        self.scope.as_str()
    }

    /// The letters of the allowed actions.
    pub fn actions(&self) -> (actions: &str)
        ensures
            actions@ == self@.actions,
    {
        self.actions.as_str()
    }

    /// The text of the capability.
    pub fn to_text(&self) -> (text: String)
        ensures
            text@ == capability_text(self@),
            is_spelled(self@),
    {
        proof {
            use_type_invariant(self);
        }
        self.scope.clone().concat(":").concat(self.actions.as_str())
    }

    /// Whether this capability's scope covers the given path.
    pub fn scope_covers_path(&self, path: &str) -> (covered: bool)
        ensures
            covered == scope_covers(self@.scope, path@),
    {
        if same_text(self.scope.as_str(), path) {
            return true;
        }
        closes_with(self.scope.as_str(), "/") && begins_with(path, self.scope.as_str())
    }

    /// Whether this capability covers `required`.
    pub fn covers(&self, required: &Capability) -> (covered: bool)
        ensures
            covered == covers(self@, required@),
    {
        if !self.scope_covers_path(required.scope.as_str()) {
            return false;
        }
        for action in it: required.actions.as_str().chars()
            invariant
                it.seq() == required@.actions,
                forall|i: int|
                    0 <= i < it.index() ==> self@.actions.contains(#[trigger] required@.actions[i]),
        {
            if !holds_char(self.actions.as_str(), action) {
                assert(!self@.actions.contains(required@.actions[it.index()]));
                return false;
            }
        }
        true
    }
}

/// Whether one of the granted capabilities covers the required one.
pub fn grant_covers(granted: &Vec<Capability>, required: &Capability) -> (covered: bool)
    ensures
        covered == some_covers(capability_views(granted@), required@),
{
    for capability in it: granted.iter()
        invariant
            it.seq().len() == granted@.len(),
            forall|i: int| 0 <= i < it.seq().len() ==> *it.seq()[i] == granted@[i],
            forall|i: int|
                0 <= i < it.index() ==> !covers(
                    #[trigger] capability_views(granted@)[i],
                    required@,
                ),
    {
        if capability.covers(required) {
            assert(capability_views(granted@)[it.index()] == capability@);
            return true;
        }
    }
    false
}

/// Every scope of the list spells a capability.
pub open spec fn are_capabilities(scopes: Seq<Seq<char>>) -> bool {
    forall|i: int| 0 <= i < scopes.len() ==> capability_in(#[trigger] scopes[i]) is Some
}

/// The capabilities that the scopes of a list spell.
pub open spec fn capabilities_in(scopes: Seq<Seq<char>>) -> Seq<CapabilityView> {
    scopes.map_values(|scope: Seq<char>| capability_in(scope)->0)
}

/// Reads every requested scope as a capability.
pub fn requested_scopes_to_capabilities(requested_scopes: &Vec<String>) -> (capabilities: Result<
    Vec<Capability>,
    ApplicationError,
>)
    ensures
        match capabilities {
            Ok(capabilities) => {
                &&& are_capabilities(texts(requested_scopes@))
                &&& capability_views(capabilities@) == capabilities_in(texts(requested_scopes@))
            },
            Err(error) => {
                &&& !are_capabilities(texts(requested_scopes@))
                &&& error@ == secret_error("invalid creator connect scope"@)
            },
        },
{
    let ghost scopes = texts(requested_scopes@);
    let mut capabilities: Vec<Capability> = Vec::new();
    for scope in it: requested_scopes.iter()
        invariant
            scopes == texts(requested_scopes@),
            it.seq().len() == requested_scopes@.len(),
            forall|i: int| 0 <= i < it.seq().len() ==> *it.seq()[i] == requested_scopes@[i],
            capabilities@.len() == it.index(),
            forall|i: int|
                0 <= i < it.index() ==> capability_in(#[trigger] scopes[i]) == Some(
                    capabilities@[i]@,
                ),
    {
        assert(scopes[it.index()] == scope@);
        match Capability::from_str(scope.as_str()) {
            Some(capability) => {
                capabilities.push(capability);
            },
            None => {
                return Err(
                    ApplicationError::CreatorAuthoritySecret {
                        message: "invalid creator connect scope".to_owned(),
                    },
                );
            },
        }
    }
    assert(capability_views(capabilities@) =~= capabilities_in(scopes));
    Ok(capabilities)
}

/// Every required capability is covered by one of the granted ones.
pub open spec fn all_covered(granted: Seq<CapabilityView>, required: Seq<CapabilityView>) -> bool {
    forall|i: int| 0 <= i < required.len() ==> some_covers(granted, #[trigger] required[i])
}

/// A capability covers itself.
pub proof fn law_covers_itself(capability: CapabilityView)
    ensures
        covers(capability, capability),
{
}

/// What a covered capability covers is covered too.
pub proof fn law_covers_is_transitive(
    broad: CapabilityView,
    middle: CapabilityView,
    narrow: CapabilityView,
)
    requires
        covers(broad, middle),
        covers(middle, narrow),
    ensures
        covers(broad, narrow),
{
    assert forall|i: int| 0 <= i < narrow.actions.len() implies broad.actions.contains(
        #[trigger] narrow.actions[i],
    ) by {
        let at = choose|at: int|
            0 <= at < middle.actions.len() && middle.actions[at] == narrow.actions[i];
        assert(broad.actions.contains(middle.actions[at]));
    }
    assert(broad.scope.is_prefix_of(middle.scope) && middle.scope.is_prefix_of(narrow.scope)
        ==> broad.scope.is_prefix_of(narrow.scope)) by {
        if broad.scope.is_prefix_of(middle.scope) && middle.scope.is_prefix_of(narrow.scope) {
            assert(narrow.scope.subrange(0, broad.scope.len() as int) =~= middle.scope.subrange(
                0,
                broad.scope.len() as int,
            ));
        }
    }
}

/// A scope that does not end in `/` covers the very same path and nothing else, and a directory
/// covers only what its own text, closing `/` included, is a prefix of: never a neighbour whose
/// name merely begins alike.
pub proof fn law_scope_covers_no_neighbour(scope: Seq<char>, path: Seq<char>)
    requires
        scope_covers(scope, path),
    ensures
        !"/"@.is_suffix_of(scope) ==> path == scope,
        scope.is_prefix_of(path),
{
    assert(scope.is_prefix_of(scope)) by {
        assert(scope.subrange(0, scope.len() as int) =~= scope);
    }
}

/// A capability covers another exactly when its scope is the other's or a directory above it, and
/// it allows every action that the other allows.
pub proof fn law_covers_is_scope_and_actions(granted: CapabilityView, required: CapabilityView)
    ensures
        granted.scope == required.scope && granted.actions == required.actions ==> covers(
            granted,
            required,
        ),
        covers(granted, required) ==> {
            ||| granted.scope == required.scope
            ||| {
                &&& granted.scope.len() > 0
                &&& granted.scope.last() == '/'
                &&& granted.scope.len() <= required.scope.len()
                &&& required.scope.take(granted.scope.len() as int) == granted.scope
            }
        },
        covers(granted, required) ==> required.actions.to_set().subset_of(granted.actions.to_set()),
        required.actions.to_set().subset_of(granted.actions.to_set()) && {
            ||| granted.scope == required.scope
            ||| {
                &&& granted.scope.len() > 0
                &&& granted.scope.last() == '/'
                &&& granted.scope.len() <= required.scope.len()
                &&& required.scope.take(granted.scope.len() as int) == granted.scope
            }
        } ==> covers(granted, required),
{
    reveal_strlit("/");
    let slash = "/"@;
    assert(slash.len() == 1 && slash[0] == '/');
    if granted.scope.len() > 0 {
        let end = granted.scope.len();
        let tail = granted.scope.subrange(end - 1, end as int);
        assert(tail.len() == 1 && tail[0] == granted.scope.last());
        if granted.scope.last() == '/' {
            assert(tail =~= slash);
            assert(slash.is_suffix_of(granted.scope));
        }
    }
    if granted.scope.len() <= required.scope.len() {
        assert(required.scope.take(granted.scope.len() as int) =~= required.scope.subrange(
            0,
            granted.scope.len() as int,
        ));
    }
    if covers(granted, required) {
        assert forall|action: char| required.actions.to_set().contains(
            action,
        ) implies granted.actions.to_set().contains(action) by {
            let at = choose|at: int|
                0 <= at < required.actions.len() && required.actions[at] == action;
            assert(granted.actions.contains(required.actions[at]));
        }
    }
    if required.actions.to_set().subset_of(granted.actions.to_set()) {
        assert forall|i: int| 0 <= i < required.actions.len() implies granted.actions.contains(
            #[trigger] required.actions[i],
        ) by {
            assert(required.actions.to_set().contains(required.actions[i]));
        }
    }
}

/// A list covers what one of its capabilities covers, a list without capabilities covers nothing,
/// and putting two lists together covers what either of them does.
pub proof fn law_list_covers_what_its_capabilities_cover(
    granted: Seq<CapabilityView>,
    more: Seq<CapabilityView>,
    capability: CapabilityView,
    required: CapabilityView,
)
    ensures
        !some_covers(Seq::empty(), required),
        some_covers(seq![capability], required) <==> covers(capability, required),
        some_covers(granted + more, required) <==> some_covers(granted, required) || some_covers(
            more,
            required,
        ),
{
    if covers(capability, required) {
        assert(covers(seq![capability][0], required));
    }
    let all = granted + more;
    if some_covers(granted, required) {
        let i = choose|i: int| 0 <= i < granted.len() && covers(#[trigger] granted[i], required);
        assert(covers(all[i], required));
    }
    if some_covers(more, required) {
        let i = choose|i: int| 0 <= i < more.len() && covers(#[trigger] more[i], required);
        assert(covers(all[granted.len() + i], required));
    }
    if some_covers(all, required) {
        let i = choose|i: int| 0 <= i < all.len() && covers(#[trigger] all[i], required);
        if i < granted.len() {
            assert(covers(granted[i], required));
        } else {
            assert(covers(more[i - granted.len()], required));
        }
    }
}

/// Every capability of a list is covered exactly when each one is: nothing has to be covered of an
/// empty list, and a longer list is covered when both of its parts are.
pub proof fn law_all_covered_is_each_covered(
    granted: Seq<CapabilityView>,
    capability: CapabilityView,
    required: Seq<CapabilityView>,
    more: Seq<CapabilityView>,
)
    ensures
        all_covered(granted, Seq::empty()),
        all_covered(granted, seq![capability]) <==> some_covers(granted, capability),
        all_covered(granted, required + more) <==> all_covered(granted, required) && all_covered(
            granted,
            more,
        ),
{
    assert(seq![capability][0] == capability);
    let all = required + more;
    if all_covered(granted, all) {
        assert forall|i: int| 0 <= i < required.len() implies some_covers(
            granted,
            #[trigger] required[i],
        ) by {
            assert(some_covers(granted, all[i]));
        }
        assert forall|i: int| 0 <= i < more.len() implies some_covers(
            granted,
            #[trigger] more[i],
        ) by {
            assert(some_covers(granted, all[required.len() + i]));
        }
    }
}

} // verus!
