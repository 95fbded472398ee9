//! Registration of OAuth redirect paths: each path gets a channel on which
//! the redirect is announced.
use vstd::prelude::*;
use crate::correlation::new_channel_id;
use crate::strmap::StrMap;

verus! {

pub struct OAuthHandler {
    pub oauth_map: StrMap<String>,
}

impl OAuthHandler {
    pub fn new() -> (r: OAuthHandler)
        ensures
            r.oauth_map@ == Map::<Seq<char>, String>::empty(),
    {
        OAuthHandler { oauth_map: StrMap::new() }
    }

    /// The channel for redirects to `path`: the one it already has, or a
    /// new one that no other path uses, registered for it.
    pub fn register_oauth_path(&mut self, path: String) -> (r: String)
        ensures
            old(self).oauth_map@.contains_key(path@) ==> r == old(self).oauth_map@[path@]
                && final(self).oauth_map@ == old(self).oauth_map@,
            !old(self).oauth_map@.contains_key(path@) ==> final(self).oauth_map@ == old(
                self,
            ).oauth_map@.insert(path@, r),
            !old(self).oauth_map@.contains_key(path@) ==> forall|p: Seq<char>|
                old(self).oauth_map@.contains_key(p) ==> old(self).oauth_map@[p]@ != r@,
    {
        match self.oauth_map.get(&path) {
            Some(channel) => {
                return channel.clone();
            },
            None => {},
        }
        let id = self.oauth_map.fresh_value(new_channel_id());
        let channel = id.clone();
        self.oauth_map.insert(path, id);
        channel
    }

    /// Forgets `path`.
    pub fn unregister_oauth_path(&mut self, path: String)
        ensures
            final(self).oauth_map@ == old(self).oauth_map@.remove(path@),
    {
        let _ = self.oauth_map.remove(&path);
    }
}

/// The OAuth handler the application starts with.
pub fn get_oauth_state() -> (r: OAuthHandler)
    ensures
        r.oauth_map@ == Map::<Seq<char>, String>::empty(),
{
    OAuthHandler::new()
}

} // verus!
