//! Commands the cloud sent through the runtime to a worker and that wait for
//! the worker's answer: each is acknowledged to the cloud once, when the
//! worker answers, when it cannot be sent, or when its time runs out.
use vstd::prelude::*;
use crate::intents::WorkerDomain;
use crate::outbox::{kept, lemma_kept_push};
use crate::text::{owned, push_str, str_eq, string_of};

verus! {

/// A command sent to a worker, waiting for its answer until `deadline_ms`.
#[derive(Debug)]
pub struct PendingWorkerCommand {
    pub domain: WorkerDomain,
    pub command_id: String,
    pub command_type: String,
    pub deadline_ms: u64,
}

/// Commands other than the one `command_id` sent to `domain`.
pub open spec fn other_command(domain: WorkerDomain, command_id: Seq<char>) -> spec_fn(PendingWorkerCommand) -> bool {
    |c: PendingWorkerCommand| !(c.domain == domain && c.command_id@ == command_id)
}

/// Commands still waiting at `now_ms`.
pub open spec fn live_at(now_ms: u64) -> spec_fn(PendingWorkerCommand) -> bool {
    |c: PendingWorkerCommand| c.deadline_ms > now_ms
}

/// Commands whose time has run out at `now_ms`.
pub open spec fn expired_at(now_ms: u64) -> spec_fn(PendingWorkerCommand) -> bool {
    |c: PendingWorkerCommand| c.deadline_ms <= now_ms
}

pub open spec fn is_command(c: PendingWorkerCommand, domain: WorkerDomain, command_id: Seq<char>) -> bool {
    c.domain == domain && c.command_id@ == command_id
}

/// The commands waiting for an answer, oldest first.
#[derive(Debug)]
pub struct PendingWorkerCommands {
    pending: Vec<PendingWorkerCommand>,
}

impl PendingWorkerCommands {
    pub closed spec fn commands(&self) -> Seq<PendingWorkerCommand> {
        self.pending@
    }

    pub fn new() -> (r: Self)
        ensures
            r.commands().len() == 0,
    {
        PendingWorkerCommands { pending: Vec::new() }
    }

    pub fn len(&self) -> (n: usize)
        ensures
            n == self.commands().len(),
    {
        self.pending.len()
    }

    /// Keeps only the commands that `keep` says; returns the others, in
    /// order.
    fn split_off_where(&mut self, domain: WorkerDomain, command_id: &str) -> (removed: Vec<PendingWorkerCommand>)
        ensures
            final(self).commands() == kept(old(self).commands(), other_command(domain, command_id@)),
            forall|k: int| 0 <= k < removed@.len() ==> is_command(#[trigger] removed@[k], domain, command_id@),
            forall|k: int| 0 <= k < removed@.len() ==> old(self).commands().contains(#[trigger] removed@[k]),
            removed@.len() > 0 <==> exists|i: int|
                0 <= i < old(self).commands().len() && #[trigger] is_command(old(self).commands()[i], domain, command_id@),
    {
        let mut rest: Vec<PendingWorkerCommand> = Vec::new();
        std::mem::swap(&mut rest, &mut self.pending);
        let ghost olde = rest@;
        let ghost mut i: int = 0;
        let mut removed: Vec<PendingWorkerCommand> = Vec::new();
        while rest.len() > 0
            invariant
                0 <= i <= olde.len(),
                olde == old(self).pending@,
                rest@ == olde.subrange(i, olde.len() as int),
                self.pending@ == kept(olde.subrange(0, i), other_command(domain, command_id@)),
                forall|k: int| 0 <= k < removed@.len() ==> is_command(#[trigger] removed@[k], domain, command_id@),
                forall|k: int| 0 <= k < removed@.len() ==> olde.contains(#[trigger] removed@[k]),
                removed@.len() > 0 <==> exists|j: int| 0 <= j < i && #[trigger] is_command(olde[j], domain, command_id@),
            decreases rest.len(),
        {
            let c = rest.remove(0);
            proof {
                assert(c == olde[i]);
                assert(olde.subrange(0, i + 1) =~= olde.subrange(0, i).push(olde[i]));
                lemma_kept_push(olde.subrange(0, i), olde[i], other_command(domain, command_id@));
            }
            if c.domain == domain && str_eq(c.command_id.as_str(), command_id) {
                let ghost before = removed@;
                proof {
                    assert(olde.contains(olde[i]));
                }
                removed.push(c);
                proof {
                    assert forall|k: int| 0 <= k < removed@.len() implies olde.contains(#[trigger] removed@[k]) by {
                        if k < before.len() {
                            assert(removed@[k] == before[k]);
                        }
                    }
                    assert forall|k: int| 0 <= k < removed@.len() implies is_command(#[trigger] removed@[k], domain, command_id@) by {
                        if k < before.len() {
                            assert(removed@[k] == before[k]);
                        }
                    }
                    assert(is_command(olde[i], domain, command_id@));
                }
            } else {
                self.pending.push(c);
            }
            proof {
                i = i + 1;
                assert(rest@ =~= olde.subrange(i, olde.len() as int));
            }
        }
        assert(i == olde.len());
        assert(olde.subrange(0, olde.len() as int) =~= olde);
        assert(old(self).commands() == olde);
        assert((exists|j: int| 0 <= j < olde.len() && #[trigger] is_command(olde[j], domain, command_id@)) ==> exists|j: int|
            0 <= j < old(self).commands().len() && #[trigger] is_command(old(self).commands()[j], domain, command_id@));
        removed
    }

    /// Records a command sent at `now_ms` to wait `timeout_ms` for its
    /// answer, in place of any earlier one with the same id on that worker.
    pub fn track(&mut self, domain: WorkerDomain, command_id: String, command_type: String, now_ms: u64, timeout_ms: u64)
        requires
            now_ms + timeout_ms <= u64::MAX,
        ensures
            final(self).commands() == kept(old(self).commands(), other_command(domain, command_id@)).push(
                PendingWorkerCommand { domain, command_id, command_type, deadline_ms: (now_ms + timeout_ms) as u64 },
            ),
    {
        let _ = self.split_off_where(domain, command_id.as_str());
        self.pending.push(PendingWorkerCommand { domain, command_id, command_type, deadline_ms: now_ms + timeout_ms });
    }

    /// Takes the command the answer `request_id` from `domain` belongs to,
    /// when one waits for it.
    pub fn resolve(&mut self, domain: WorkerDomain, request_id: &str) -> (r: Option<PendingWorkerCommand>)
        ensures
            final(self).commands() == kept(old(self).commands(), other_command(domain, request_id@)),
            r is Some <==> exists|i: int|
                0 <= i < old(self).commands().len() && #[trigger] is_command(old(self).commands()[i], domain, request_id@),
            r matches Some(c) ==> is_command(c, domain, request_id@) && old(self).commands().contains(c),
    {
        let mut removed = self.split_off_where(domain, request_id);
        if removed.len() > 0 {
            let c = removed.remove(0);
            Some(c)
        } else {
            None
        }
    }

    /// Takes the commands whose time has run out at `now_ms`, oldest first.
    pub fn expire(&mut self, now_ms: u64) -> (expired: Vec<PendingWorkerCommand>)
        ensures
            final(self).commands() == kept(old(self).commands(), live_at(now_ms)),
            expired@ == kept(old(self).commands(), expired_at(now_ms)),
    {
        let mut rest: Vec<PendingWorkerCommand> = Vec::new();
        std::mem::swap(&mut rest, &mut self.pending);
        let ghost olde = rest@;
        let ghost mut i: int = 0;
        let mut expired: Vec<PendingWorkerCommand> = Vec::new();
        while rest.len() > 0
            invariant
                0 <= i <= olde.len(),
                olde == old(self).pending@,
                rest@ == olde.subrange(i, olde.len() as int),
                self.pending@ == kept(olde.subrange(0, i), live_at(now_ms)),
                expired@ == kept(olde.subrange(0, i), expired_at(now_ms)),
            decreases rest.len(),
        {
            let c = rest.remove(0);
            proof {
                assert(c == olde[i]);
                assert(olde.subrange(0, i + 1) =~= olde.subrange(0, i).push(olde[i]));
                lemma_kept_push(olde.subrange(0, i), olde[i], live_at(now_ms));
                lemma_kept_push(olde.subrange(0, i), olde[i], expired_at(now_ms));
            }
            if c.deadline_ms <= now_ms {
                expired.push(c);
            } else {
                self.pending.push(c);
            }
            proof {
                i = i + 1;
                assert(rest@ =~= olde.subrange(i, olde.len() as int));
            }
        }
        assert(olde.subrange(0, olde.len() as int) =~= olde);
        expired
    }
}

/// Once a command is tracked, no other command with its id waits on that
/// worker: an answer or a timeout acknowledges it once.
pub proof fn tracked_command_waits_once(
    before: Seq<PendingWorkerCommand>,
    command: PendingWorkerCommand,
    k: int,
)
    requires
        0 <= k < kept(before, other_command(command.domain, command.command_id@)).len(),
    ensures
        !is_command(kept(before, other_command(command.domain, command.command_id@))[k], command.domain, command.command_id@),
{
    let s = kept(before, other_command(command.domain, command.command_id@));
    assert(s.contains(s[k]));
    crate::outbox::lemma_kept_contains(before, other_command(command.domain, command.command_id@), s[k]);
}

/// What the cloud is told of a command: its id and type, whether it went
/// through, and why not.
#[derive(Debug, Clone)]
pub struct CommandAck {
    pub command_id: String,
    pub command_type: String,
    pub ok: bool,
    pub reason: Option<String>,
}

pub open spec fn is_code_char(c: char) -> bool {
    ('a' <= c && c <= 'z') || ('0' <= c && c <= '9') || c == '_'
}

/// A worker's error code is passed on when it is 1 to 64 lowercase letters,
/// digits and underscores; otherwise the failure is a plain
/// `worker_failed`.
pub open spec fn safe_code_spec(code: Option<Seq<char>>) -> Seq<char> {
    match code {
        Some(c) => if 0 < c.len() <= 64 && (forall|i: int| 0 <= i < c.len() ==> #[trigger] is_code_char(c[i])) {
            c
        } else {
            "worker_failed"@
        },
        None => "worker_failed"@,
    }
}

pub fn safe_worker_error_code(code: Option<&str>) -> (r: String)
    ensures
        r@ == safe_code_spec(
            match code {
                Some(c) => Some(c@),
                None => None,
            },
        ),
{
    match code {
        None => owned("worker_failed"),
        Some(c) => {
            let n = c.unicode_len();
            if n == 0 || n > 64 {
                return owned("worker_failed");
            }
            let mut i: usize = 0;
            while i < n
                invariant
                    code == Some(c),
                    n == c@.len(),
                    i <= n,
                    forall|k: int| 0 <= k < i ==> #[trigger] is_code_char(c@[k]),
                decreases n - i,
            {
                let ch = c.get_char(i);
                assert(ch == c@[i as int]);
                if !(('a' <= ch && ch <= 'z') || ('0' <= ch && ch <= '9') || ch == '_') {
                    assert(!is_code_char(c@[i as int]));
                    assert(!(forall|k: int| 0 <= k < c@.len() ==> #[trigger] is_code_char(c@[k])));
                    return owned("worker_failed");
                }
                i = i + 1;
            }
            owned(c)
        },
    }
}

/// The acknowledgement of a worker's answer: passed on a result, failed
/// with the worker's safe error code on an error.
pub fn ack_for_answer(pending: &PendingWorkerCommand, succeeded: bool, error_code: Option<&str>) -> (a: CommandAck)
    ensures
        a.command_id@ == pending.command_id@,
        a.command_type@ == pending.command_type@,
        a.ok == succeeded,
        succeeded ==> a.reason is None,
        !succeeded ==> (a.reason matches Some(r) && r@ == safe_code_spec(
            match error_code {
                Some(c) => Some(c@),
                None => None,
            },
        )),
{
    CommandAck {
        command_id: pending.command_id.clone(),
        command_type: pending.command_type.clone(),
        ok: succeeded,
        reason: if succeeded {
            None
        } else {
            Some(safe_worker_error_code(error_code))
        },
    }
}

/// A failed acknowledgement with a fixed reason.
fn failed_ack(command_id: &str, command_type: &str, reason: &str) -> (a: CommandAck)
    ensures
        a.command_id@ == command_id@,
        a.command_type@ == command_type@,
        !a.ok,
        a.reason matches Some(r) && r@ == reason@,
{
    CommandAck { command_id: owned(command_id), command_type: owned(command_type), ok: false, reason: Some(owned(reason)) }
}

/// The acknowledgement of a command the worker could not be sent.
pub fn dispatch_failed_ack(command_id: &str, command_type: &str) -> (a: CommandAck)
    ensures
        a.command_id@ == command_id@,
        a.command_type@ == command_type@,
        !a.ok,
        a.reason matches Some(r) && r@ == "worker_dispatch_failed"@,
{
    failed_ack(command_id, command_type, "worker_dispatch_failed")
}

/// The acknowledgement of a command whose time ran out.
pub fn timeout_ack(pending: &PendingWorkerCommand) -> (a: CommandAck)
    ensures
        a.command_id@ == pending.command_id@,
        a.command_type@ == pending.command_type@,
        !a.ok,
        a.reason matches Some(r) && r@ == "worker_timeout"@,
{
    failed_ack(pending.command_id.as_str(), pending.command_type.as_str(), "worker_timeout")
}

/// How a worker's protocol error is reported: its message, and the line it
/// came with when there is one.
pub fn protocol_error_reason(message: &str, raw_line: &str) -> (r: String)
    ensures
        r@ == (if raw_line@.len() == 0 {
            "protocol error: "@ + message@
        } else {
            "protocol error: "@ + message@ + " ("@ + raw_line@ + ")"@
        }),
{
    let mut out: Vec<char> = Vec::new();
    push_str(&mut out, "protocol error: ");
    push_str(&mut out, message);
    if raw_line.unicode_len() > 0 {
        push_str(&mut out, " (");
        push_str(&mut out, raw_line);
        push_str(&mut out, ")");
    }
    string_of(&out)
}

} // verus!
