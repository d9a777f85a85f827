//! Codes mapped to the profiles they were issued for; a code is given out once.
use crate::mojang::response::MojangResponse;
use vstd::hash_map::StringHashMap;
use vstd::prelude::*;

verus! {

/// A profile taken by its plain fields.
pub type ProfileView = (Seq<char>, Seq<char>, Seq<(Seq<char>, Seq<char>, Seq<char>)>);

/// Codes mapped to player profiles. Removing a code when its life time ends is left to
/// the caller, which knows the clock.
pub struct ExpiringMap {
    map: StringHashMap<MojangResponse>,
}

impl View for ExpiringMap {
    type V = Map<Seq<char>, ProfileView>;

    closed spec fn view(&self) -> Self::V {
        self.map@.map_values(|r: MojangResponse| r@)
    }
}

/// What redeeming `key` in a store holding `m` gives: the profile the key was issued
/// for, if any, and the store without the key.
pub open spec fn redeem(m: Map<Seq<char>, ProfileView>, key: Seq<char>) -> (
    Option<ProfileView>,
    Map<Seq<char>, ProfileView>,
) {
    (if m.contains_key(key) {
        Some(m[key])
    } else {
        None
    }, m.remove(key))
}

/// A profile result taken by its view.
pub open spec fn profile_option_view(r: Option<MojangResponse>) -> Option<ProfileView> {
    match r {
        Some(v) => Some(v@),
        None => None,
    }
}

impl ExpiringMap {
    /// An empty store.
    pub fn new() -> (r: Self)
        ensures
            r@ == Map::<Seq<char>, ProfileView>::empty(),
    {
        let r = ExpiringMap { map: StringHashMap::new() };
        assert(r@ =~= Map::<Seq<char>, ProfileView>::empty());
        r
    }

    /// Issues `key` for `value`, replacing what the key held before.
    pub fn insert(&mut self, key: String, value: MojangResponse)
        ensures
            final(self)@ == old(self)@.insert(key@, value@),
    {
        let ghost k = key@;
        let ghost v = value@;
        self.map.insert(key, value);
        assert(self@ =~= old(self)@.insert(k, v));
    }

    /// The profile that `key` was issued for, if any, without taking it.
    pub fn get(&self, key: &str) -> (r: Option<MojangResponse>)
        ensures
            r is Some <==> self@.contains_key(key@),
            r matches Some(v) ==> v@ == self@[key@],
    {
        match self.map.get(key) {
            Some(v) => Some(v.clone()),
            None => None,
        }
    }

    /// Drops `key` (when its life time ends).
    pub fn remove(&mut self, key: &str)
        ensures
            final(self)@ == old(self)@.remove(key@),
    {
        self.map.remove(key);
        assert(self@ =~= old(self)@.remove(key@));
    }

    /// Redeems `key`: gives the profile it was issued for and drops it, so that it cannot
    /// be redeemed again.
    pub fn take(&mut self, key: &str) -> (r: Option<MojangResponse>)
        ensures
            r is Some <==> old(self)@.contains_key(key@),
            r matches Some(v) ==> v@ == old(self)@[key@],
            final(self)@ == old(self)@.remove(key@),
            (profile_option_view(r), final(self)@) == redeem(old(self)@, key@),
    {
        let r = self.get(key);
        if r.is_some() {
            self.remove(key);
        } else {
            assert(self@ =~= old(self)@.remove(key@));
        }
        r
    }
}

/// A code once issued (`insert`) is redeemed (`take`) for the profile it was issued for,
/// and only once: redeeming it again finds nothing. Other codes are left as they were.
pub proof fn law_code_redeemed_once(
    store: Map<Seq<char>, ProfileView>,
    code: Seq<char>,
    profile: ProfileView,
)
    ensures
        redeem(store.insert(code, profile), code).0 == Some(profile),
        redeem(redeem(store.insert(code, profile), code).1, code).0 is None,
        redeem(store.insert(code, profile), code).1 == store.remove(code),
{
    assert(store.insert(code, profile).remove(code) =~= store.remove(code));
}

} // verus!
