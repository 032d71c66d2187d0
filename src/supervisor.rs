//! Lifecycle signals and how each long-lived task reacts to what it receives.

use vstd::prelude::*;

use crate::json::{keys_unique, lemma_lookup_absent, lemma_lookup_push, lookup, upsert, Json};

verus! {

broadcast use vstd::std_specs::vec::group_vec_axioms;

/// A lifecycle signal broadcast by the supervisor.
#[derive(Debug)]
pub enum SysMessage {
    /// Merge these top-level entries into the persistent configuration.
    Update(Vec<(String, Json)>),
    /// The configuration changed: re-read what depends on it.
    Reload,
    /// Stop.
    Shutdown,
}

/// The kind of a lifecycle signal.
#[derive(Clone, Copy, Debug, PartialEq, Eq, Structural)]
pub enum SysKind {
    Update,
    Reload,
    Shutdown,
}

impl SysMessage {
    pub fn kind(&self) -> (r: SysKind)
        ensures
            r == match self {
                SysMessage::Update(_) => SysKind::Update,
                SysMessage::Reload => SysKind::Reload,
                SysMessage::Shutdown => SysKind::Shutdown,
            },
    {
        match self {
            SysMessage::Update(_) => SysKind::Update,
            SysMessage::Reload => SysKind::Reload,
            SysMessage::Shutdown => SysKind::Shutdown,
        }
    }
}

/// A long-lived task of the pipeline.
#[derive(Clone, Copy, Debug, PartialEq, Eq, Structural)]
pub enum Role {
    /// Matches upstream batches against the rules.
    Detection,
    /// Persists upstream batches and findings.
    Writer,
    /// Sends findings downstream.
    Forwarder,
    /// Applies configuration updates.
    ConfigWatcher,
    /// Publishes ingested batches.
    Ingest,
}

/// What a task's loop received in one turn.
#[derive(Clone, Copy, Debug, PartialEq, Eq, Structural)]
pub enum Input {
    /// A batch from an event bus.
    Batch,
    /// The task fell behind on an event bus and this many batches were dropped.
    Lagged(u64),
    /// An event bus was closed.
    BusClosed,
    /// A lifecycle signal.
    Sys(SysKind),
    /// The task fell behind on the lifecycle channel.
    SysLagged,
    /// The lifecycle channel was closed.
    SysClosed,
}

/// What the task does about its input.
#[derive(Clone, Copy, Debug, PartialEq, Eq, Structural)]
pub enum Action {
    /// Handle the batch.
    Process,
    /// Note the lag and receive on.
    NoteLag,
    /// Return from the task.
    Stop,
    /// Re-read the storage base path.
    ReloadBase,
    /// Merge the update into the configuration file and reload.
    ApplyUpdate,
    /// Nothing.
    Ignore,
}

#[derive(Clone, Copy, Debug, PartialEq, Eq, Structural)]
pub enum TaskState {
    Running,
    Stopped,
}

/// Whether a task of this role reads the event buses.
pub open spec fn reads_events(role: Role) -> bool {
    role == Role::Detection || role == Role::Writer || role == Role::Forwarder
}

/// How a task of `role` in `state` reacts to `input`: every task stops on `Shutdown`
/// and when its channels close, a stopped task does nothing more, lag is noted and
/// receiving goes on, the writer reloads its base path on `Reload`, and the
/// configuration watcher applies `Update`.
pub open spec fn reaction(role: Role, state: TaskState, input: Input) -> (TaskState, Action) {
    if state == TaskState::Stopped {
        (TaskState::Stopped, Action::Ignore)
    } else {
        match input {
            Input::Sys(SysKind::Shutdown) | Input::SysClosed => (TaskState::Stopped, Action::Stop),
            Input::Sys(SysKind::Reload) => if role == Role::Writer {
                (TaskState::Running, Action::ReloadBase)
            } else {
                (TaskState::Running, Action::Ignore)
            },
            Input::Sys(SysKind::Update) => if role == Role::ConfigWatcher {
                (TaskState::Running, Action::ApplyUpdate)
            } else {
                (TaskState::Running, Action::Ignore)
            },
            Input::SysLagged => (TaskState::Running, Action::Ignore),
            Input::Batch => if reads_events(role) {
                (TaskState::Running, Action::Process)
            } else {
                (TaskState::Running, Action::Ignore)
            },
            Input::Lagged(_) => if reads_events(role) {
                (TaskState::Running, Action::NoteLag)
            } else {
                (TaskState::Running, Action::Ignore)
            },
            Input::BusClosed => if reads_events(role) {
                (TaskState::Stopped, Action::Stop)
            } else {
                (TaskState::Running, Action::Ignore)
            },
        }
    }
}

/// One turn of a task's loop.
pub fn step(role: Role, state: TaskState, input: Input) -> (r: (TaskState, Action))
    ensures
        r == reaction(role, state, input),
{
    if state == TaskState::Stopped {
        return (TaskState::Stopped, Action::Ignore);
    }
    let reads = match role {
        Role::Detection | Role::Writer | Role::Forwarder => true,
        _ => false,
    };
    match input {
        Input::Sys(SysKind::Shutdown) | Input::SysClosed => (TaskState::Stopped, Action::Stop),
        Input::Sys(SysKind::Reload) => match role {
            Role::Writer => (TaskState::Running, Action::ReloadBase),
            _ => (TaskState::Running, Action::Ignore),
        },
        Input::Sys(SysKind::Update) => match role {
            Role::ConfigWatcher => (TaskState::Running, Action::ApplyUpdate),
            _ => (TaskState::Running, Action::Ignore),
        },
        Input::SysLagged => (TaskState::Running, Action::Ignore),
        Input::Batch => if reads {
            (TaskState::Running, Action::Process)
        } else {
            (TaskState::Running, Action::Ignore)
        },
        Input::Lagged(_) => if reads {
            (TaskState::Running, Action::NoteLag)
        } else {
            (TaskState::Running, Action::Ignore)
        },
        Input::BusClosed => if reads {
            (TaskState::Stopped, Action::Stop)
        } else {
            (TaskState::Running, Action::Ignore)
        },
    }
}

/// Shutting down twice has the effect of shutting down once: the task stops at the
/// first `Shutdown`, and the second leaves it stopped and does nothing.
pub proof fn lemma_shutdown_idempotent(role: Role, state: TaskState)
    ensures
        reaction(role, reaction(role, state, Input::Sys(SysKind::Shutdown)).0, Input::Sys(SysKind::Shutdown)).0
            == reaction(role, state, Input::Sys(SysKind::Shutdown)).0,
        reaction(role, reaction(role, state, Input::Sys(SysKind::Shutdown)).0, Input::Sys(SysKind::Shutdown)).1
            == Action::Ignore,
        reaction(role, state, Input::Sys(SysKind::Shutdown)).0 == TaskState::Stopped,
{
}

/// A task that reads the event buses and falls behind notes the lag and keeps
/// running, and the next batch it receives is processed.
pub proof fn lemma_lag_resumes(role: Role, dropped: u64)
    requires
        reads_events(role),
    ensures
        reaction(role, TaskState::Running, Input::Lagged(dropped)) == (TaskState::Running, Action::NoteLag),
        reaction(role, reaction(role, TaskState::Running, Input::Lagged(dropped)).0, Input::Batch) == (
            TaskState::Running,
            Action::Process,
        ),
{
}

/// The configuration after an update: each entry of the patch replaces the top-level
/// entry of its key or is added; the other entries stay.
pub open spec fn merged<'a>(current: Seq<(String, Json)>, patch: Seq<(String, Json)>, k: Seq<char>) -> Option<&'a Json> {
    if lookup(patch, k) is Some {
        lookup(patch, k)
    } else {
        lookup(current, k)
    }
}

/// Merges an update into the configuration's top-level entries.
pub fn merge_patch(config: &mut Vec<(String, Json)>, patch: Vec<(String, Json)>)
    requires
        keys_unique(patch@),
    ensures
        forall|k: Seq<char>| #[trigger] lookup(final(config)@, k) == merged(old(config)@, patch@, k),
        keys_unique(old(config)@) ==> keys_unique(final(config)@),
{
    let ghost all = patch@;
    let n = patch.len();
    let mut rest = patch;
    let mut i: usize = 0;
    proof {
        assert forall|k: Seq<char>| #[trigger] lookup(config@, k) == merged(old(config)@, all.subrange(0, 0), k) by {
            assert(lookup(all.subrange(0, 0), k) is None);
        }
    }
    while i < n
        invariant
            n == all.len(),
            i <= n,
            keys_unique(all),
            rest@ == all.subrange(i as int, n as int),
            forall|k: Seq<char>| #[trigger] lookup(config@, k) == merged(old(config)@, all.subrange(0, i as int), k),
            keys_unique(old(config)@) ==> keys_unique(config@),
        decreases n - i,
    {
        assert(rest@[0] == all[i as int]);
        let (key, value) = rest.remove(0);
        assert(rest@ =~= all.subrange(i + 1, n as int));
        let ghost before = config@;
        let ghost x = all[i as int];
        upsert(config, key, value);
        proof {
            let pre = all.subrange(0, i as int);
            assert(all.subrange(0, i + 1) =~= pre.push(x));
            assert forall|k: Seq<char>| #[trigger] lookup(config@, k) == merged(old(config)@, all.subrange(0, i + 1), k) by {
                lemma_lookup_push(pre, x, k);
                if k == x.0@ {
                    assert forall|j: int| 0 <= j < pre.len() implies (#[trigger] pre[j]).0@ != k by {
                        assert(all[j].0@ != all[i as int].0@);
                    }
                    lemma_lookup_absent(pre, k);
                }
            }
        }
        i = i + 1;
    }
    proof {
        assert(all.subrange(0, n as int) =~= all);
    }
}

} // verus!
