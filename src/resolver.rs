use crate::fetch::{identity_url, identity_url_text, session_token, FetchError};
use crate::store::CredentialStore;
use vstd::prelude::*;

verus! {

/// The upstream identity of a character.
pub struct UserOcid {
    pub ocid: String,
}

/// The body of an identity request: the character's display name.
pub struct Character {
    pub nick_name: String,
}

/// What resolving a session needs next: nothing, because the identity is
/// already known, or one lookup at the given URL.
pub enum ResolveStep {
    Cached(UserOcid),
    Lookup(String),
}

/// The identity a session map holds for a token, if any.
pub open spec fn cached_identity(m: Map<Seq<char>, Seq<char>>, token: Seq<char>) -> Option<Seq<char>> {
    if m.contains_key(token) {
        Some(m[token])
    } else {
        None
    }
}

/// The session map after a lookup for `token` came back with `reply`.
pub open spec fn after_lookup(
    m: Map<Seq<char>, Seq<char>>,
    token: Seq<char>,
    reply: Result<UserOcid, FetchError>,
) -> Map<Seq<char>, Seq<char>> {
    match reply {
        Ok(u) => m.insert(token, u.ocid@),
        Err(_) => m,
    }
}

/// Decides how to resolve a session's identity: a present, non-empty token
/// is required; a cached identity is used as it is, otherwise the name,
/// which must then be non-empty, is looked up.
pub fn begin_resolution(store: &CredentialStore, token: Option<String>, character: &Character) -> (r:
    Result<ResolveStep, FetchError>)
    requires
        store.wf(),
    ensures
        match token {
            Some(t) if t@.len() > 0 => match cached_identity(store@, t@) {
                Some(id) => exists|u: UserOcid|
                    u.ocid@ == id && r == Ok::<ResolveStep, FetchError>(ResolveStep::Cached(u)),
                None => if character.nick_name@.len() == 0 {
                    r == Err::<ResolveStep, FetchError>(FetchError::EmptyName)
                } else {
                    exists|url: String|
                        url@ == identity_url_text(character.nick_name@) && r == Ok::<
                            ResolveStep,
                            FetchError,
                        >(ResolveStep::Lookup(url))
                },
            },
            _ => r == Err::<ResolveStep, FetchError>(FetchError::MissingSession),
        },
{
    let t = match session_token(token) {
        Ok(t) => t,
        Err(e) => return Err(e),
    };
    match store.get_identity(&t) {
        Some(ocid) => {
            let u = UserOcid { ocid };
            let r = Ok(ResolveStep::Cached(u));
            assert(u.ocid@ == store@[t@] && r == Ok::<ResolveStep, FetchError>(ResolveStep::Cached(u)));
            r
        },
        None => {
            if character.nick_name.as_str().is_empty() {
                return Err(FetchError::EmptyName);
            }
            let url = identity_url(character.nick_name.as_str());
            let r = Ok(ResolveStep::Lookup(url));
            assert(r == Ok::<ResolveStep, FetchError>(ResolveStep::Lookup(url)));
            r
        },
    }
}

/// Completes a lookup: a found identity is recorded for the token and
/// returned; a failure leaves the store as it was and is passed on.
pub fn finish_resolution(
    store: &mut CredentialStore,
    token: String,
    reply: Result<UserOcid, FetchError>,
) -> (r: Result<UserOcid, FetchError>)
    requires
        old(store).wf(),
    ensures
        final(store).wf(),
        final(store).key_view() == old(store).key_view(),
        final(store)@ == after_lookup(old(store)@, token@, reply),
        r == reply,
{
    match reply {
        Ok(u) => {
            store.set_identity(token, u.ocid.clone());
            Ok(u)
        },
        Err(e) => Err(e),
    }
}

/// A token without an identity needs a lookup; once that lookup has
/// succeeded, resolving the same token again needs none and gives the
/// identity that was found, while every other session keeps what it had.
pub proof fn lemma_lookup_then_cached(
    m: Map<Seq<char>, Seq<char>>,
    token: Seq<char>,
    found: UserOcid,
)
    requires
        cached_identity(m, token) is None,
    ensures
        cached_identity(after_lookup(m, token, Ok(found)), token) == Some(found.ocid@),
        forall|k: Seq<char>|
            k != token ==> #[trigger] cached_identity(after_lookup(m, token, Ok(found)), k)
                == cached_identity(m, k),
{
    assert(after_lookup(m, token, Ok(found)).contains_key(token));
}

} // verus!
