//! The authorization codes that have been issued and not yet exchanged.

use vstd::prelude::*;
use dashmap::DashMap;
use crate::model::OAuthSession;

verus! {

/// `dashmap::DashMap`, a concurrent hash map; Verus sees nothing inside it.
#[verifier::external_type_specification]
#[verifier::external_body]
#[verifier::reject_recursive_types(K)]
#[verifier::reject_recursive_types(V)]
#[verifier::reject_recursive_types(S)]
pub struct ExDashMap<K, V, S>(DashMap<K, V, S>);

/// The entries of a code map: each key's text and its grant.
pub uninterp spec fn code_entries(map: DashMap<String, OAuthSession>) -> CodeEntries;

/// Code text mapped to the grant's view: user, client, expiry.
pub type CodeEntries = Map<Seq<char>, (u128, Seq<char>, Option<i64>)>;

/// `DashMap::new`: a map with no entries. Trusted.
#[verifier::external_body]
fn dashmap_new() -> (res: DashMap<String, OAuthSession>)
    ensures
        code_entries(res) == CodeEntries::empty(),
{
    DashMap::new()
}

/// `DashMap::insert`: afterwards the key maps to the value and every other
/// entry is as before; the value it replaced, if any, comes back. Keys are
/// told apart by `String` equality, that is by their text. Trusted.
#[verifier::external_body]
fn dashmap_insert(map: &mut DashMap<String, OAuthSession>, key: String, value: OAuthSession) -> (prev: Option<OAuthSession>)
    ensures
        code_entries(*final(map)) == code_entries(*old(map)).insert(key@, value@),
        code_entries(*old(map)).contains_key(key@) <==> prev is Some,
        prev matches Some(p) ==> p@ == code_entries(*old(map))[key@],
{
    map.insert(key, value)
}

/// `DashMap::remove`: when the key is present, its entry leaves the map and
/// comes back; otherwise nothing changes and `None` comes back. Trusted.
#[verifier::external_body]
fn dashmap_remove(map: &mut DashMap<String, OAuthSession>, key: &str) -> (res: Option<(String, OAuthSession)>)
    ensures
        code_entries(*old(map)).contains_key(key@) ==> {
            &&& res matches Some((k, v))
            &&& k@ == key@
            &&& v@ == code_entries(*old(map))[key@]
            &&& code_entries(*final(map)) == code_entries(*old(map)).remove(key@)
        },
        !code_entries(*old(map)).contains_key(key@) ==> {
            &&& res is None
            &&& code_entries(*final(map)) == code_entries(*old(map))
        },
{
    map.remove(key)
}

/// Authorization codes awaiting exchange, each with the grant it stands for.
pub struct AuthCodeStore {
    codes: DashMap<String, OAuthSession>,
}

impl View for AuthCodeStore {
    type V = CodeEntries;

    closed spec fn view(&self) -> Self::V {
        code_entries(self.codes)
    }
}

impl AuthCodeStore {
    /// A store with no codes.
    pub fn new() -> (store: Self)
        ensures
            store@ == CodeEntries::empty(),
    {
        AuthCodeStore { codes: dashmap_new() }
    }

    /// Records a code; a code that was already there now stands for this grant.
    pub fn insert(&mut self, code: String, grant: OAuthSession)
        ensures
            final(self)@ == old(self)@.insert(code@, grant@),
    {
        let _ = dashmap_insert(&mut self.codes, code, grant);
    }

    /// Takes a code out of the store, with the grant it stood for.
    pub fn take(&mut self, code: &str) -> (res: Option<OAuthSession>)
        ensures
            old(self)@.contains_key(code@) ==> {
                &&& res matches Some(g)
                &&& g@ == old(self)@[code@]
                &&& final(self)@ == old(self)@.remove(code@)
            },
            !old(self)@.contains_key(code@) ==> res is None && final(self)@ == old(self)@,
    {
        match dashmap_remove(&mut self.codes, code) {
            Some((_, grant)) => Some(grant),
            None => None,
        }
    }
}

} // verus!
