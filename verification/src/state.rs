use vstd::prelude::*;
use std::collections::{HashMap, VecDeque};
use tokio::sync::mpsc::UnboundedSender;
use tokio::sync::watch;
use vstd::string::*;
use crate::tools::{CommandResult, RunCommandResponse, ToolArguments};

verus! {

broadcast use vstd::std_specs::hash::group_hash_axioms;

/// `tokio::sync::mpsc::UnboundedSender`: the channel end on which a waiting tool call
/// receives its result. The library only stores and hands it back.
#[verifier::external_type_specification]
#[verifier::external_body]
#[verifier::reject_recursive_types(T)]
pub struct ExUnboundedSender<T>(UnboundedSender<T>);

/// `tokio::sync::watch::Sender`: wakes the long-polling plugin when a command is queued.
#[verifier::external_type_specification]
#[verifier::external_body]
#[verifier::reject_recursive_types(T)]
pub struct ExWatchSender<T>(watch::Sender<T>);

/// `tokio::sync::watch::Receiver`: what the long-polling plugin waits on.
#[verifier::external_type_specification]
#[verifier::external_body]
#[verifier::reject_recursive_types(T)]
pub struct ExWatchReceiver<T>(watch::Receiver<T>);

/// `tokio::sync::watch::channel(())`: a fresh notification channel. Its ends are opaque here.
#[verifier::external_body]
fn notification_channel() -> (pair: (watch::Sender<()>, watch::Receiver<()>)) {
    watch::channel(())
}

/// What the plugin's reply means for the waiting caller: its text as output when the command
/// succeeded, as an error otherwise.
pub open spec fn reply_result(payload: RunCommandResponse) -> CommandResult {
    if payload.success {
        Ok(payload.response)
    } else {
        Err(payload.response)
    }
}

/// The broker's shared state: the commands waiting for the plugin, in arrival order, and,
/// per request id, the channel on which the caller waits for the reply.
pub struct AppState {
    process_queue: VecDeque<ToolArguments>,
    output_map: HashMap<u128, UnboundedSender<CommandResult>>,
    waiter: watch::Receiver<()>,
    trigger: watch::Sender<()>,
}

/// `post` is `pre` after `submit(command, id, reply)`: the command queued last, the reply
/// channel registered under `id`.
pub open spec fn submitted(
    pre: AppState,
    post: AppState,
    command: ToolArguments,
    id: u128,
    reply: UnboundedSender<CommandResult>,
) -> bool {
    &&& post.notifier() == pre.notifier()
    &&& post.queue() == pre.queue().push(command)
    &&& post.pending() == pre.pending().insert(id, reply)
}

/// `post` is `pre` after `next_task` returned `task`: the oldest command taken, if any.
pub open spec fn took_task(pre: AppState, post: AppState, task: Option<ToolArguments>) -> bool {
    &&& post.notifier() == pre.notifier()
    &&& post.pending() == pre.pending()
    &&& pre.queue().len() == 0 ==> task is None && post.queue() == pre.queue()
    &&& pre.queue().len() > 0 ==> task == Some(pre.queue()[0]) && post.queue() == pre.queue().drop_first()
}

/// `post` is `pre` after `release(id)` returned `reply`: request `id` forgotten, its channel
/// handed back when it was waiting.
pub open spec fn released(
    pre: AppState,
    post: AppState,
    id: u128,
    reply: Option<UnboundedSender<CommandResult>>,
) -> bool {
    &&& post.notifier() == pre.notifier()
    &&& post.queue() == pre.queue()
    &&& post.pending() == pre.pending().remove(id)
    &&& pre.pending().contains_key(id) ==> reply == Some(pre.pending()[id])
    &&& !pre.pending().contains_key(id) ==> reply is None
}

/// `post` is `pre` after `deliver_response(payload)` returned `routed`: the waiting caller's
/// channel and the reply's result, or `Unknown ID` when no caller waits on `payload.id`.
pub open spec fn delivered(
    pre: AppState,
    post: AppState,
    payload: RunCommandResponse,
    routed: Result<(UnboundedSender<CommandResult>, CommandResult), String>,
) -> bool {
    &&& post.notifier() == pre.notifier()
    &&& post.queue() == pre.queue()
    &&& pre.pending().contains_key(payload.id) ==> {
        &&& routed == Ok::<_, String>((pre.pending()[payload.id], reply_result(payload)))
        &&& post.pending() == pre.pending().remove(payload.id)
    }
    &&& !pre.pending().contains_key(payload.id) ==> {
        &&& routed matches Err(e) && e@ == "Unknown ID"@
        &&& post.pending() == pre.pending()
    }
}

/// `post` is `pre` after `submit_proxied(command, reply)` returned `accepted`: the command
/// queued under the id it carries, or refused when it carries none.
pub open spec fn proxied(
    pre: AppState,
    post: AppState,
    command: ToolArguments,
    reply: UnboundedSender<CommandResult>,
    accepted: Result<u128, String>,
) -> bool {
    &&& post.notifier() == pre.notifier()
    &&& command.id is None ==> {
        &&& accepted matches Err(e) && e@ == "Got proxy command with no id"@
        &&& post.queue() == pre.queue()
        &&& post.pending() == pre.pending()
    }
    &&& command.id matches Some(id) ==> {
        &&& accepted == Ok::<u128, String>(id)
        &&& post.queue() == pre.queue().push(command)
        &&& post.pending() == pre.pending().insert(id, reply)
    }
}

impl AppState {
    /// The commands waiting for the plugin, oldest first.
    pub closed spec fn queue(&self) -> Seq<ToolArguments> {
        self.process_queue@
    }

    /// The reply channels of the requests that are still waiting, by request id.
    pub closed spec fn pending(&self) -> Map<u128, UnboundedSender<CommandResult>> {
        self.output_map@
    }

    /// The notification channel: its sending end wakes the long poll that waits on its
    /// receiving end.
    pub closed spec fn notifier(&self) -> (watch::Sender<()>, watch::Receiver<()>) {
        (self.trigger, self.waiter)
    }

    /// An empty broker: no queued command, no waiting request.
    pub fn new() -> (state: Self)
        ensures
            state.queue() == Seq::<ToolArguments>::empty(),
            state.pending() == Map::<u128, UnboundedSender<CommandResult>>::empty(),
    {
        let (trigger, waiter) = notification_channel();
        AppState {
            process_queue: VecDeque::new(),
            output_map: HashMap::new(),
            waiter,
            trigger,
        }
    }

    /// The receiving end the long poll waits on.
    pub fn waiter(&self) -> (waiter: &watch::Receiver<()>)
        ensures
            *waiter == self.notifier().1,
    {
        &self.waiter
    }

    /// The sending end that wakes the long poll.
    pub fn trigger(&self) -> (trigger: &watch::Sender<()>)
        ensures
            *trigger == self.notifier().0,
    {
        &self.trigger
    }

    /// Queues `command` behind the others and records `reply` as the channel on which
    /// the caller waits for the reply to request `id`.
    pub fn submit(&mut self, command: ToolArguments, id: u128, reply: UnboundedSender<CommandResult>)
        ensures
            submitted(*old(self), *final(self), command, id, reply),
    {
        self.process_queue.push_back(command);
        self.output_map.insert(id, reply);
    }

    /// Takes the oldest queued command, if there is one.
    pub fn next_task(&mut self) -> (task: Option<ToolArguments>)
        ensures
            took_task(*old(self), *final(self), task),
    {
        let t = self.process_queue.pop_front();
        proof {
            if old(self).queue().len() > 0 {
                assert(old(self).queue().subrange(1, old(self).queue().len() as int)
                    =~= old(self).queue().drop_first());
            }
        }
        t
    }

    /// Forgets request `id` and hands back its reply channel, if it was waiting.
    pub fn release(&mut self, id: u128) -> (reply: Option<UnboundedSender<CommandResult>>)
        ensures
            released(*old(self), *final(self), id, reply),
    {
        self.output_map.remove(&id)
    }

    /// Routes the plugin's reply to the caller waiting on request `payload.id`: hands back that
    /// caller's channel with the result to send, and forgets the request. A reply for a request
    /// that is not waiting is refused with `Unknown ID` and changes nothing.
    pub fn deliver_response(&mut self, payload: RunCommandResponse) -> (routed: Result<
        (UnboundedSender<CommandResult>, CommandResult),
        String,
    >)
        ensures
            delivered(*old(self), *final(self), payload, routed),
    {
        let id = payload.id;
        match self.output_map.remove(&id) {
            Some(reply) => {
                let result = if payload.success {
                    Ok(payload.response)
                } else {
                    Err(payload.response)
                };
                Ok((reply, result))
            },
            None => {
                proof {
                    assert(old(self).pending().remove(id) =~= old(self).pending());
                }
                Err(String::from_str("Unknown ID"))
            },
        }
    }

    /// Queues a command that arrived from another server instance, under the id it carries,
    /// with `reply` as the channel for its result. A command without an id is refused with
    /// `Got proxy command with no id` and changes nothing.
    pub fn submit_proxied(&mut self, command: ToolArguments, reply: UnboundedSender<CommandResult>) -> (
        accepted: Result<u128, String>)
        ensures
            proxied(*old(self), *final(self), command, reply, accepted),
    {
        match command.id {
            Some(id) => {
                self.submit(command, id, reply);
                Ok(id)
            },
            None => Err(String::from_str("Got proxy command with no id")),
        }
    }
}

/// `reply` tells the proxying server that command `id` ended with `result`.
pub open spec fn is_proxy_reply(id: u128, result: CommandResult, reply: RunCommandResponse) -> bool {
    &&& reply.id == id
    &&& reply_result(reply) == result
}

/// The reply sent back to the server instance that proxied a command: the command's id, and
/// whether it succeeded with its output or failed with its error text.
pub fn proxy_reply(id: u128, result: CommandResult) -> (reply: RunCommandResponse)
    ensures
        is_proxy_reply(id, result, reply),
{
    match result {
        Ok(s) => RunCommandResponse { success: true, response: s, id },
        Err(e) => RunCommandResponse { success: false, response: e, id },
    }
}

// Laws of the broker, over the effects of its operations.

/// A reply reaches the caller that submitted the command: after `submit(c, id, tx)`, a reply for
/// `id` hands back `tx` with the reply's output (success) or error text (failure), and the
/// request is then no longer waiting; the queue is as the submission left it.
pub proof fn law_reply_reaches_its_caller(
    s0: AppState,
    s1: AppState,
    s2: AppState,
    c: ToolArguments,
    id: u128,
    tx: UnboundedSender<CommandResult>,
    payload: RunCommandResponse,
    routed: Result<(UnboundedSender<CommandResult>, CommandResult), String>,
)
    requires
        submitted(s0, s1, c, id, tx),
        payload.id == id,
        delivered(s1, s2, payload, routed),
    ensures
        routed matches Ok(p) && p.0 == tx,
        payload.success ==> (routed matches Ok(p) && p.1 == Ok::<String, String>(payload.response)),
        !payload.success ==> (routed matches Ok(p) && p.1 == Err::<String, String>(payload.response)),
        s2.pending() == s0.pending().remove(id),
        !s2.pending().contains_key(id),
        s2.queue() == s0.queue().push(c),
{
    assert(s0.pending().insert(id, tx).remove(id) =~= s0.pending().remove(id));
}

/// A reply is consumed once: once request `id` is no longer waiting, a further reply for it is
/// refused with `Unknown ID` and leaves the broker as it was.
pub proof fn law_second_reply_refused(
    s2: AppState,
    s3: AppState,
    payload: RunCommandResponse,
    routed: Result<(UnboundedSender<CommandResult>, CommandResult), String>,
)
    requires
        !s2.pending().contains_key(payload.id),
        delivered(s2, s3, payload, routed),
    ensures
        routed is Err,
        routed matches Err(e) && e@ == "Unknown ID"@,
        s3.queue() == s2.queue(),
        s3.pending() == s2.pending(),
{
}

/// Commands leave in the order they arrived: after `submit(c)` onto a queue `q`, the plugin is
/// handed the oldest command, which is `c` only when `q` was empty, and `c` stays behind the
/// rest of `q`.
pub proof fn law_first_in_first_out(
    s0: AppState,
    s1: AppState,
    s2: AppState,
    c: ToolArguments,
    id: u128,
    tx: UnboundedSender<CommandResult>,
    task: Option<ToolArguments>,
)
    requires
        submitted(s0, s1, c, id, tx),
        took_task(s1, s2, task),
    ensures
        s0.queue().len() == 0 ==> task == Some(c) && s2.queue() == Seq::<ToolArguments>::empty(),
        s0.queue().len() > 0 ==> task == Some(s0.queue()[0]) && s2.queue() == s0.queue().drop_first().push(c),
        s2.queue().len() == s0.queue().len(),
        s2.pending().contains_key(id),
{
    if s0.queue().len() == 0 {
        assert(s1.queue().drop_first() =~= Seq::<ToolArguments>::empty());
    } else {
        assert(s1.queue().drop_first() =~= s0.queue().drop_first().push(c));
    }
}

/// A finished call leaves no trace: registering request `id` and then releasing it leaves the
/// waiting requests as they were before, but for `id` itself, and hands back the channel that
/// was registered.
pub proof fn law_release_undoes_submit(
    s0: AppState,
    s1: AppState,
    s2: AppState,
    c: ToolArguments,
    id: u128,
    tx: UnboundedSender<CommandResult>,
    reply: Option<UnboundedSender<CommandResult>>,
)
    requires
        submitted(s0, s1, c, id, tx),
        released(s1, s2, id, reply),
    ensures
        reply == Some(tx),
        s2.pending() == s0.pending().remove(id),
        !s0.pending().contains_key(id) ==> s2.pending() == s0.pending(),
        s2.queue() == s0.queue().push(c),
{
    assert(s0.pending().insert(id, tx).remove(id) =~= s0.pending().remove(id));
    if !s0.pending().contains_key(id) {
        assert(s0.pending().remove(id) =~= s0.pending());
    }
}

/// A proxied command is queued under the id it carries, and the reply for that id reaches the
/// channel given with it; a command without an id is refused and changes nothing.
pub proof fn law_proxied_command_is_routed_by_its_id(
    s0: AppState,
    s1: AppState,
    s2: AppState,
    c: ToolArguments,
    tx: UnboundedSender<CommandResult>,
    accepted: Result<u128, String>,
    payload: RunCommandResponse,
    routed: Result<(UnboundedSender<CommandResult>, CommandResult), String>,
)
    requires
        proxied(s0, s1, c, tx, accepted),
        delivered(s1, s2, payload, routed),
    ensures
        c.id is None ==> accepted is Err && s1.queue() == s0.queue() && s1.pending() == s0.pending(),
        c.id == Some(payload.id) ==> accepted == Ok::<u128, String>(payload.id) && (routed matches Ok(p) && p.0 == tx),
        c.id is Some ==> s1.queue().last() == c,
{
}

/// A reply sent back for a proxied command carries the command's id and reads back as the
/// command's result.
pub proof fn law_proxy_reply_carries_result(id: u128, result: CommandResult, reply: RunCommandResponse)
    requires
        is_proxy_reply(id, result, reply),
    ensures
        reply.id == id,
        reply.success <==> result is Ok,
        result matches Ok(out) ==> reply.response == out,
        result matches Err(err) ==> reply.response == err,
{
}

} // verus!
