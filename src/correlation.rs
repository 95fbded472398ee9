//! The reply correlation table: in-flight host calls of plugins, keyed by a
//! per-call channel token, so that the host's asynchronous reply reaches the
//! plugin call that waits for it.
use vstd::prelude::*;
use crate::strmap::StrMap;

verus! {

/// Relies on `uuid::Uuid::new_v4` and the UUID's text form: a fresh random
/// token. Nothing is promised of its value.
#[verifier::external_body]
pub(crate) fn new_channel_id() -> (r: String) {
    uuid::Uuid::new_v4().to_string()
}

/// Reply senders of the calls in flight, by channel token.
pub struct CorrelationTable<S> {
    reply_map: StrMap<S>,
}

impl<S> View for CorrelationTable<S> {
    type V = Map<Seq<char>, S>;

    closed spec fn view(&self) -> Map<Seq<char>, S> {
        self.reply_map@
    }
}

impl<S> CorrelationTable<S> {
    pub fn new() -> (r: Self)
        ensures
            r@ == Map::<Seq<char>, S>::empty(),
    {
        CorrelationTable { reply_map: StrMap::new() }
    }

    /// Registers the reply sender of a call under `channel`.
    pub fn register(&mut self, channel: String, sender: S)
        ensures
            final(self)@ == old(self)@.insert(channel@, sender),
    {
        self.reply_map.insert(channel, sender);
    }

    /// Starts a call: registers `sender` under a token that no call in
    /// flight holds and returns the token, which goes out with the request.
    pub fn begin_call(&mut self, sender: S) -> (r: String)
        ensures
            !old(self)@.contains_key(r@),
            final(self)@ == old(self)@.insert(r@, sender),
    {
        let channel = self.reply_map.fresh_key(new_channel_id());
        let token = channel.clone();
        self.reply_map.insert(channel, sender);
        token
    }

    /// Ends a call once its reply has been received: the entry is removed
    /// and handed back.
    pub fn finish_call(&mut self, channel: &String) -> (r: Option<S>)
        ensures
            final(self)@ == old(self)@.remove(channel@),
            r == (if old(self)@.contains_key(channel@) {
                Some(old(self)@[channel@])
            } else {
                None
            }),
    {
        self.reply_map.remove(channel)
    }

    /// Routes a host reply: the sender registered under the reply's channel,
    /// through which the reply goes once; `None` when no call waits on that
    /// channel (already answered, or never made), which is no error. The
    /// entry stays until the call ends.
    pub fn handle_main_command_reply(&self, channel: &String) -> (r: Option<&S>)
        ensures
            r is Some <==> self@.contains_key(channel@),
            r is Some ==> *r->0 == self@[channel@],
    {
        self.reply_map.get(channel)
    }
}

/// A host call that begins (`begin_call`), is answered and ends
/// (`finish_call` on its token) leaves the table as it found it; other calls'
/// entries are untouched throughout.
pub proof fn lemma_call_leaves_table_as_found<S>(
    before: CorrelationTable<S>,
    during: CorrelationTable<S>,
    after: CorrelationTable<S>,
    token: Seq<char>,
    sender: S,
)
    requires
        !before@.contains_key(token),
        during@ == before@.insert(token, sender),
        after@ == during@.remove(token),
    ensures
        after@ == before@,
{
    assert(after@ =~= before@);
}

} // verus!
