//! The lifecycle condition ledger of an actor.

use crate::text::{capitalized, is_lower_word, pascal_case, pascal_of};
use vstd::prelude::*;

verus! {

/// One timestamped assertion of a lifecycle fact.
#[derive(Clone, Debug, PartialEq)]
pub struct Condition {
    /// The lifecycle phase this condition is about.
    pub type_: String,
    /// `True` or `False`.
    pub status: String,
    /// A Pascal-case reason for the last transition.
    pub reason: String,
    /// A human-readable message, empty by default.
    pub message: String,
    /// Seconds since the Unix epoch at which the condition was made.
    pub last_transition_time: i64,
    /// The resource generation the condition was set from, when known.
    pub observed_generation: Option<i64>,
}

/// The lifecycle phases of an actor.
#[derive(Clone, Copy, Debug, PartialEq, Eq, Structural)]
pub enum ActorState {
    Pending,
    Building,
    Running,
    Failed,
}

/// The text form of a boolean.
pub open spec fn bool_text(b: bool) -> Seq<char> {
    if b {
        seq!['t', 'r', 'u', 'e']
    } else {
        seq!['f', 'a', 'l', 's', 'e']
    }
}

/// The canonical status text of a boolean: `True` or `False`.
pub open spec fn status_text(b: bool) -> Seq<char> {
    capitalized(bool_text(b))
}

impl ActorState {
    /// The condition type that names this phase.
    pub open spec fn name(self) -> Seq<char> {
        match self {
            ActorState::Pending => seq!['P', 'e', 'n', 'd', 'i', 'n', 'g'],
            ActorState::Building => seq!['B', 'u', 'i', 'l', 'd', 'i', 'n', 'g'],
            ActorState::Running => seq!['R', 'u', 'n', 'n', 'i', 'n', 'g'],
            ActorState::Failed => seq!['F', 'a', 'i', 'l', 'e', 'd'],
        }
    }

    /// The condition type that names this phase.
    pub fn to_string(&self) -> (r: String)
        ensures
            r@ == self.name(),
    {
        match self {
            ActorState::Pending => {
                proof {
                    reveal_strlit("Pending");
                }
                "Pending".to_owned()
            },
            ActorState::Building => {
                proof {
                    reveal_strlit("Building");
                }
                "Building".to_owned()
            },
            ActorState::Running => {
                proof {
                    reveal_strlit("Running");
                }
                "Running".to_owned()
            },
            ActorState::Failed => {
                proof {
                    reveal_strlit("Failed");
                }
                "Failed".to_owned()
            },
        }
    }
}

/// Whether `c` records `state` with the given status.
pub open spec fn records(c: Condition, state: ActorState, status: bool) -> bool {
    c.type_@ == state.name() && c.status@ == status_text(status)
}

/// Whether some condition of `conds` records `state` with the given status.
pub open spec fn holds(conds: Seq<Condition>, state: ActorState, status: bool) -> bool {
    exists|i: int| 0 <= i < conds.len() && records(#[trigger] conds[i], state, status)
}

/// Whether no two conditions of `conds` share a type.
pub open spec fn types_unique(conds: Seq<Condition>) -> bool {
    forall|i: int, j: int|
        0 <= i < conds.len() && 0 <= j < conds.len() && i != j ==> (#[trigger] conds[i]).type_@
            != (#[trigger] conds[j]).type_@
}

/// The ledger after recording `c` in place of the first condition of the
/// same type, or after the others when there is none.
pub open spec fn upserted(conds: Seq<Condition>, c: Condition) -> Seq<Condition> {
    if exists|i: int| 0 <= i < conds.len() && (#[trigger] conds[i]).type_@ == c.type_@ {
        let i = choose|i: int|
            0 <= i < conds.len() && (#[trigger] conds[i]).type_@ == c.type_@ && forall|k: int|
                0 <= k < i ==> (#[trigger] conds[k]).type_@ != c.type_@;
        conds.update(i, c)
    } else {
        conds.push(c)
    }
}

/// The text of an optional message, empty when absent.
pub open spec fn message_text(message: Option<String>) -> Seq<char> {
    match message {
        Some(m) => m@,
        None => Seq::empty(),
    }
}

/// Relies on chrono's `Utc::now`, reached through k8s_openapi: the current
/// time in whole seconds since the Unix epoch.
#[verifier::external_body]
fn now_seconds() -> i64 {
    k8s_openapi::chrono::Utc::now().timestamp()
}

/// The canonical status text of `status`.
fn canonical_status(status: bool) -> (r: String)
    ensures
        r@ == status_text(status),
{
    let text = if status {
        proof {
            reveal_strlit("true");
            assert("true"@ =~= bool_text(true));
        }
        "true"
    } else {
        proof {
            reveal_strlit("false");
            assert("false"@ =~= bool_text(false));
        }
        "false"
    };
    assert(is_lower_word(bool_text(status)));
    pascal_case(text)
}

impl ActorState {
    /// A true `Pending` condition, for a freshly created actor.
    pub fn pending() -> (r: Condition)
        ensures
            records(r, ActorState::Pending, true),
            r.reason@ == pascal_of("Created"@),
            r.message@ == Seq::<char>::empty(),
            r.observed_generation is None,
    {
        ActorState::create(ActorState::Pending, true, "Created", None)
    }

    /// A true `Building` condition.
    pub fn building() -> (r: Condition)
        ensures
            records(r, ActorState::Building, true),
            r.reason@ == pascal_of("Build"@),
            r.message@ == Seq::<char>::empty(),
            r.observed_generation is None,
    {
        ActorState::create(ActorState::Building, true, "Build", None)
    }

    /// A `Running` condition with the given status, reason and message.
    pub fn running(status: bool, reason: &str, message: Option<String>) -> (r: Condition)
        ensures
            records(r, ActorState::Running, status),
            r.reason@ == pascal_of(reason@),
            r.message@ == message_text(message),
            r.observed_generation is None,
    {
        ActorState::create(ActorState::Running, status, reason, message)
    }

    /// A `Failed` condition with the given status, reason and message.
    pub fn failed(status: bool, reason: &str, message: Option<String>) -> (r: Condition)
        ensures
            records(r, ActorState::Failed, status),
            r.reason@ == pascal_of(reason@),
            r.message@ == message_text(message),
            r.observed_generation is None,
    {
        ActorState::create(ActorState::Failed, status, reason, message)
    }

    fn create(state: ActorState, status: bool, reason: &str, message: Option<String>) -> (r:
        Condition)
        ensures
            records(r, state, status),
            r.reason@ == pascal_of(reason@),
            r.message@ == message_text(message),
            r.observed_generation is None,
    {
        Condition {
            type_: state.to_string(),
            status: canonical_status(status),
            last_transition_time: now_seconds(),
            reason: pascal_case(reason),
            observed_generation: None,
            message: match message {
                Some(message) => message,
                None => String::new(),
            },
        }
    }
}

/// The observed lifecycle state of an actor: its conditions, in the order
/// they were recorded.
#[derive(Clone, Debug, PartialEq)]
pub struct ActorStatus {
    conditions: Vec<Condition>,
}

impl View for ActorStatus {
    type V = Seq<Condition>;

    closed spec fn view(&self) -> Seq<Condition> {
        self.conditions@
    }
}

impl ActorStatus {
    /// A status with no conditions.
    pub fn new() -> (r: ActorStatus)
        ensures
            r@ == Seq::<Condition>::empty(),
    {
        ActorStatus { conditions: Vec::new() }
    }

    /// The recorded conditions, in order.
    pub fn conditions(&self) -> (r: &Vec<Condition>)
        ensures
            r@ == self@,
    {
        &self.conditions
    }

    /// Records `condition` after the existing ones.
    pub fn push(&mut self, condition: Condition)
        ensures
            final(self)@ == old(self)@.push(condition),
    {
        self.conditions.push(condition);
    }

    /// Records `condition` in place of the first condition of the same type,
    /// or after the existing ones when there is none; a ledger with one
    /// condition per type keeps that property.
    pub fn upsert(&mut self, condition: Condition)
        ensures
            final(self)@ == upserted(old(self)@, condition),
            types_unique(old(self)@) ==> types_unique(final(self)@),
    {
        let ghost conds = self.conditions@;
        let mut i: usize = 0;
        while i < self.conditions.len()
            invariant
                self.conditions@ == conds,
                conds == old(self)@,
                i <= conds.len(),
                forall|k: int| 0 <= k < i ==> (#[trigger] conds[k]).type_@ != condition.type_@,
            decreases conds.len() - i,
        {
            if self.conditions[i].type_ == condition.type_ {
                proof {
                    let j = choose|j: int|
                        0 <= j < conds.len() && (#[trigger] conds[j]).type_@ == condition.type_@
                            && forall|k: int|
                            0 <= k < j ==> (#[trigger] conds[k]).type_@ != condition.type_@;
                    assert(0 <= i < conds.len() && conds[i as int].type_@ == condition.type_@
                        && forall|k: int|
                        0 <= k < i ==> (#[trigger] conds[k]).type_@ != condition.type_@);
                    if j < i {
                        assert(conds[j].type_@ != condition.type_@);
                    } else if i < j {
                        assert(conds[i as int].type_@ != condition.type_@);
                    }
                    assert(upserted(conds, condition) == conds.update(i as int, condition));
                }
                self.conditions[i] = condition;
                proof {
                    let after = self.conditions@;
                    if types_unique(conds) {
                        assert forall|a: int, b: int|
                            0 <= a < after.len() && 0 <= b < after.len() && a != b implies (#[trigger] after[a]).type_@
                            != (#[trigger] after[b]).type_@ by {
                            if a != i && b != i {
                                assert(conds[a].type_@ != conds[b].type_@);
                            } else if a == i {
                                assert(conds[i as int].type_@ != conds[b].type_@);
                            } else {
                                assert(conds[a].type_@ != conds[i as int].type_@);
                            }
                        }
                    }
                }
                return;
            }
            i += 1;
        }
        self.conditions.push(condition);
        proof {
            let after = self.conditions@;
            if types_unique(conds) {
                assert forall|a: int, b: int|
                    0 <= a < after.len() && 0 <= b < after.len() && a != b implies (#[trigger] after[a]).type_@
                    != (#[trigger] after[b]).type_@ by {
                    if a < conds.len() && b < conds.len() {
                        assert(conds[a].type_@ != conds[b].type_@);
                    } else if a < conds.len() {
                        assert(conds[a].type_@ != condition.type_@);
                    } else {
                        assert(conds[b].type_@ != condition.type_@);
                    }
                }
            }
        }
    }

    /// Whether a `Pending` condition is asserted.
    pub fn pending(&self) -> (r: bool)
        ensures
            r == holds(self@, ActorState::Pending, true),
    {
        self.state(ActorState::Pending, true)
    }

    /// Whether a `Building` condition is asserted.
    pub fn building(&self) -> (r: bool)
        ensures
            r == holds(self@, ActorState::Building, true),
    {
        self.state(ActorState::Building, true)
    }

    /// Whether a `Running` condition is asserted.
    pub fn running(&self) -> (r: bool)
        ensures
            r == holds(self@, ActorState::Running, true),
    {
        self.state(ActorState::Running, true)
    }

    /// Whether a `Failed` condition is asserted.
    pub fn failed(&self) -> (r: bool)
        ensures
            r == holds(self@, ActorState::Failed, true),
    {
        self.state(ActorState::Failed, true)
    }

    fn state(&self, s: ActorState, status: bool) -> (r: bool)
        ensures
            r == holds(self@, s, status),
    {
        let want_type = s.to_string();
        let want_status = canonical_status(status);
        let mut i: usize = 0;
        while i < self.conditions.len()
            invariant
                i <= self.conditions@.len(),
                want_type@ == s.name(),
                want_status@ == status_text(status),
                forall|k: int| 0 <= k < i ==> !records(#[trigger] self.conditions@[k], s, status),
            decreases self.conditions@.len() - i,
        {
            let c = &self.conditions[i];
            if c.type_ == want_type && c.status == want_status {
                assert(records(self.conditions@[i as int], s, status));
                return true;
            }
            i += 1;
        }
        false
    }
}

} // verus!
