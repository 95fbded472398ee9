//! Reply policy of the command router.
//!
//! A command goes to every plugin that matches its target. The caller's
//! reply channel then receives: for exactly one match, that plugin's settled
//! answer; for several matches, one empty marker right away and nothing else;
//! for no match, nothing at all (the channel is never written, which callers
//! must be prepared for).
use vstd::prelude::*;
use crate::entities::ExtensionCommandResponse;
use crate::sanitize::{sanitize_response, sanitized};

verus! {

/// How one plugin's call ended.
pub enum CallOutcome {
    /// The plugin answered and its answer parsed into the expected shape.
    Parsed(ExtensionCommandResponse),
    /// The plugin answered with something that does not parse.
    ParseFailed,
    /// The call itself failed.
    CallFailed,
}

/// What a call that ended with `outcome` settles to for package `k`.
pub open spec fn settled(k: Seq<char>, outcome: CallOutcome, r: ExtensionCommandResponse) -> bool {
    match outcome {
        CallOutcome::Parsed(x) => sanitized(k, x, r),
        _ => r is Empty,
    }
}

/// The reply sent as soon as a command has been dispatched to `matched`
/// plugins.
pub open spec fn initial_reply_spec(matched: nat) -> Option<ExtensionCommandResponse> {
    if matched > 1 {
        Some(ExtensionCommandResponse::Empty)
    } else {
        None
    }
}

/// The reply sent when one of `matched` plugins has settled to `answer`.
pub open spec fn plugin_reply_spec(matched: nat, answer: ExtensionCommandResponse) -> Option<
    ExtensionCommandResponse,
> {
    if matched == 1 {
        Some(answer)
    } else {
        None
    }
}

pub open spec fn opt_seq<T>(o: Option<T>) -> Seq<T> {
    match o {
        Some(x) => seq![x],
        None => Seq::empty(),
    }
}

/// The replies sent for the plugins' settled answers, in the order they settle.
pub open spec fn plugin_replies(matched: nat, answers: Seq<ExtensionCommandResponse>) -> Seq<
    ExtensionCommandResponse,
>
    decreases answers.len(),
{
    if answers.len() == 0 {
        Seq::empty()
    } else {
        plugin_replies(matched, answers.drop_last()) + opt_seq(
            plugin_reply_spec(matched, answers.last()),
        )
    }
}

/// Everything the caller's reply channel receives for a command that matched
/// `answers.len()` plugins, which settled to `answers` in that order.
pub open spec fn replies(answers: Seq<ExtensionCommandResponse>) -> Seq<ExtensionCommandResponse> {
    opt_seq(initial_reply_spec(answers.len())) + plugin_replies(answers.len(), answers)
}

/// The reply owed to the caller right after dispatch, before any plugin has
/// answered: the empty marker when several plugins matched, else none.
pub fn initial_reply(matched: usize) -> (r: Option<ExtensionCommandResponse>)
    ensures
        r == initial_reply_spec(matched as nat),
{
    if matched > 1 {
        Some(ExtensionCommandResponse::Empty)
    } else {
        None
    }
}

/// Settles one plugin's call: a parsed answer is sanitized under the
/// plugin's package, a failure becomes the empty marker.
pub fn settle_call(package_name: &String, outcome: CallOutcome) -> (r: ExtensionCommandResponse)
    ensures
        settled(package_name@, outcome, r),
{
    match outcome {
        CallOutcome::Parsed(x) => {
            let mut parsed = x;
            sanitize_response(&mut parsed, package_name.clone());
            parsed
        },
        CallOutcome::ParseFailed => ExtensionCommandResponse::Empty,
        CallOutcome::CallFailed => ExtensionCommandResponse::Empty,
    }
}

/// Whether a settled answer goes to the caller: only when the command
/// matched exactly one plugin.
pub fn plugin_reply(matched: usize, answer: ExtensionCommandResponse) -> (r: Option<
    ExtensionCommandResponse,
>)
    ensures
        r == plugin_reply_spec(matched as nat, answer),
{
    if matched == 1 {
        Some(answer)
    } else {
        None
    }
}

proof fn lemma_no_plugin_replies(matched: nat, answers: Seq<ExtensionCommandResponse>)
    requires
        matched != 1,
    ensures
        plugin_replies(matched, answers) == Seq::<ExtensionCommandResponse>::empty(),
    decreases answers.len(),
{
    if answers.len() > 0 {
        lemma_no_plugin_replies(matched, answers.drop_last());
        assert(plugin_replies(matched, answers) =~= Seq::<ExtensionCommandResponse>::empty());
    }
}

/// A command that matched exactly one plugin gets exactly one reply: that
/// plugin's settled answer (its sanitized payload or the empty marker).
pub proof fn lemma_single_target_one_reply(answers: Seq<ExtensionCommandResponse>)
    requires
        answers.len() == 1,
    ensures
        replies(answers) == seq![answers[0]],
{
    assert(answers.drop_last() =~= Seq::<ExtensionCommandResponse>::empty());
    assert(answers.last() == answers[0]);
    assert(plugin_replies(1, answers.drop_last()) =~= Seq::<ExtensionCommandResponse>::empty());
    assert(plugin_replies(1, answers) =~= seq![answers[0]]);
    assert(replies(answers) =~= seq![answers[0]]);
}

/// A command that matched several plugins gets exactly one reply, the empty
/// marker, whatever the plugins answer.
pub proof fn lemma_broadcast_one_empty_reply(answers: Seq<ExtensionCommandResponse>)
    requires
        answers.len() > 1,
    ensures
        replies(answers) == seq![ExtensionCommandResponse::Empty],
{
    lemma_no_plugin_replies(answers.len(), answers);
    assert(replies(answers) =~= seq![ExtensionCommandResponse::Empty]);
}

/// A command that matched no plugin gets no reply at all.
pub proof fn lemma_no_target_no_reply()
    ensures
        replies(Seq::<ExtensionCommandResponse>::empty()) == Seq::<ExtensionCommandResponse>::empty(),
{
    assert(replies(Seq::<ExtensionCommandResponse>::empty()) =~= Seq::<
        ExtensionCommandResponse,
    >::empty());
}

} // verus!
