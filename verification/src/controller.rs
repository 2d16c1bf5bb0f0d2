//! The task lifecycle controller. For each transition of a task — create,
//! focus, retire — it fixes the sequence of gateway operations to issue,
//! decided only by the transition and the ambient probe result, and steps
//! through that sequence one operation at a time: the shell performs each
//! operation and reports its result back, and a failure aborts the
//! transition with no later operation issued. Earlier side effects are
//! deliberately kept, never rolled back.

use vstd::prelude::*;

use crate::codec;
use crate::errors::TaskError;
use crate::errors::ValidationError;
use crate::registry::Database;

verus! {

/// The three externally visible transitions of a task's lifecycle.
#[derive(Clone, Copy, PartialEq, Eq, Structural, Debug)]
pub enum TransitionKind {
    /// Bring a task into existence: session, attachment, branch.
    Create,
    /// Move the terminal into the task's session.
    Focus,
    /// Tear the task's session down.
    Retire,
}

/// One operation of the external-tool gateway, always applied to the task
/// name of the current transition.
#[derive(Clone, Copy, PartialEq, Eq, Structural, Debug)]
pub enum GatewayOp {
    /// Create a new multiplexer session, left detached.
    NewDetachedSession,
    /// Attach the controlling terminal to the session (used when the
    /// process is not already inside any session).
    AttachSession,
    /// Switch the terminal's active session without reattaching (used when
    /// the process is already inside a session).
    SwitchClient,
    /// Destroy the session and all its windows.
    KillSession,
    /// Create and check out a branch of the task's name.
    CreateBranch,
}

/// The multiplexer operation that moves the terminal to a session: switch
/// when already inside a session, attach otherwise. The choice is made from
/// the probe's answer alone, never from the multiplexer's own state.
pub open spec fn spec_move_op(inside_session: bool) -> GatewayOp {
    if inside_session {
        GatewayOp::SwitchClient
    } else {
        GatewayOp::AttachSession
    }
}

/// The fixed sequence of gateway operations a transition issues when every
/// step succeeds, given the probe's answer.
pub open spec fn planned_ops(kind: TransitionKind, inside_session: bool) -> Seq<GatewayOp> {
    match kind {
        TransitionKind::Create => seq![
            GatewayOp::NewDetachedSession,
            spec_move_op(inside_session),
            GatewayOp::CreateBranch,
        ],
        TransitionKind::Focus => seq![spec_move_op(inside_session)],
        TransitionKind::Retire => seq![GatewayOp::KillSession],
    }
}

/// One transition in progress.
pub struct Transition {
    /// Which transition this is.
    pub kind: TransitionKind,
    /// The probe's answer, fixed once when the transition begins.
    pub inside_session: bool,
    /// How many operations of the plan have been issued so far.
    pub issued: usize,
    /// Whether a reported failure has aborted the transition.
    pub aborted: bool,
}

/// What the controller asks for after a step's result is reported.
pub enum Step {
    /// Perform this operation next and report its result.
    Next(GatewayOp),
    /// Every operation of the plan succeeded; the transition is complete.
    Complete,
    /// The reported failure aborts the transition: no further operation is
    /// issued, and side effects of earlier operations are kept.
    Aborted(TaskError),
}

impl Transition {
    /// A transition in progress never runs past its plan, and its plan is
    /// never empty.
    pub open spec fn wf(self) -> bool {
        1 <= self.issued <= planned_ops(self.kind, self.inside_session).len()
    }

    /// The operations issued so far, in order: always a prefix of the plan.
    pub open spec fn issued_ops(self) -> Seq<GatewayOp> {
        planned_ops(self.kind, self.inside_session).take(self.issued as int)
    }

    /// Whether every operation of the plan has been issued.
    pub open spec fn plan_done(self) -> bool {
        self.issued == planned_ops(self.kind, self.inside_session).len()
    }

    /// Begins a transition: fixes the plan from the transition kind and the
    /// probe's answer, and issues the plan's first operation.
    pub fn begin(kind: TransitionKind, inside_session: bool) -> (r: (Transition, GatewayOp))
        ensures
            r.0.wf(),
            !r.0.aborted,
            r.0.kind == kind,
            r.0.inside_session == inside_session,
            r.0.issued == 1,
            r.1 == planned_ops(kind, inside_session)[0],
            r.0.issued_ops() =~= seq![r.1],
    {
        let first = match kind {
            TransitionKind::Create => GatewayOp::NewDetachedSession,
            TransitionKind::Focus => if inside_session {
                GatewayOp::SwitchClient
            } else {
                GatewayOp::AttachSession
            },
            TransitionKind::Retire => GatewayOp::KillSession,
        };
        let t = Transition { kind, inside_session, issued: 1, aborted: false };
        (t, first)
    }

    /// Takes the result of the most recently issued operation and decides
    /// what happens next: on success, the plan's next operation, or
    /// completion when the plan is exhausted; on failure, the transition
    /// aborts carrying that failure, and no later operation of the plan is
    /// ever issued.
    pub fn proceed(&mut self, result: Result<(), TaskError>) -> (step: Step)
        requires
            old(self).wf(),
            !old(self).aborted,
        ensures
            final(self).wf(),
            final(self).kind == old(self).kind,
            final(self).inside_session == old(self).inside_session,
            match result {
                Result::Err(e) => {
                    &&& (step matches Step::Aborted(a) && a == e)
                    &&& final(self).aborted
                    &&& final(self).issued_ops() == old(self).issued_ops()
                },
                Result::Ok(_) => {
                    &&& !final(self).aborted
                    &&& if old(self).plan_done() {
                        &&& (step matches Step::Complete)
                        &&& final(self).issued_ops() == old(self).issued_ops()
                    } else {
                        &&& (step matches Step::Next(op) && op == planned_ops(
                            old(self).kind,
                            old(self).inside_session,
                        )[old(self).issued as int])
                        &&& final(self).issued == old(self).issued + 1
                        &&& (step matches Step::Next(op) ==> final(self).issued_ops()
                            =~= old(self).issued_ops().push(op))
                    }
                },
            },
    {
        match result {
            Err(e) => {
                self.aborted = true;
                Step::Aborted(e)
            },
            Ok(()) => {
                let plan_len: usize = match self.kind {
                    TransitionKind::Create => 3,
                    TransitionKind::Focus => 1,
                    TransitionKind::Retire => 1,
                };
                if self.issued == plan_len {
                    Step::Complete
                } else {
                    // Only the create plan has more than one operation; its
                    // later steps are the probe-decided move and the branch
                    // creation.
                    let op = if self.issued == 1 {
                        if self.inside_session {
                            GatewayOp::SwitchClient
                        } else {
                            GatewayOp::AttachSession
                        }
                    } else {
                        GatewayOp::CreateBranch
                    };
                    self.issued = self.issued + 1;
                    Step::Next(op)
                }
            },
        }
    }
}

/// Decides which single multiplexer operation the focus transition issues:
/// switch when the probe says the process is already inside a session,
/// attach when it is not. Branch state is untouched on focus. The shell
/// performs the returned operation on the task's session.
pub fn focus_tmux_session_and_branch(inside_session: bool) -> (op: GatewayOp)
    ensures
        op == spec_move_op(inside_session),
        planned_ops(TransitionKind::Focus, inside_session) =~= seq![op],
{
    if inside_session {
        GatewayOp::SwitchClient
    } else {
        GatewayOp::AttachSession
    }
}

/// The create transition issues exactly the session creation, then the one
/// probe-decided move operation, then the branch creation, in that order.
pub proof fn lemma_create_plan(inside_session: bool)
    ensures
        planned_ops(TransitionKind::Create, inside_session) =~= seq![
            GatewayOp::NewDetachedSession,
            spec_move_op(inside_session),
            GatewayOp::CreateBranch,
        ],
        planned_ops(TransitionKind::Create, inside_session)[1] == GatewayOp::SwitchClient
            <==> inside_session,
{
}

/// The focus transition issues exactly one operation, a switch or an
/// attach, and it is the switch exactly when the probe answered that the
/// process is already inside a session.
pub proof fn lemma_focus_plan(inside_session: bool)
    ensures
        planned_ops(TransitionKind::Focus, inside_session).len() == 1,
        planned_ops(TransitionKind::Focus, inside_session)[0] == GatewayOp::SwitchClient
            <==> inside_session,
        planned_ops(TransitionKind::Focus, inside_session)[0] == GatewayOp::AttachSession
            <==> !inside_session,
{
}

/// The retire transition, once confirmed, issues exactly one operation: the
/// session kill. Branch deletion is deliberately not part of retirement.
pub proof fn lemma_retire_plan(inside_session: bool)
    ensures
        planned_ops(TransitionKind::Retire, inside_session) =~= seq![GatewayOp::KillSession],
{
}

/// What the dispatcher answers for a requested transition, before any
/// external operation: create demands a usable name not yet registered;
/// focus and retire demand a registered one.
pub open spec fn spec_authorize(
    kind: TransitionKind,
    names: Seq<Seq<char>>,
    name: Seq<char>,
) -> Result<(), ValidationError> {
    match kind {
        TransitionKind::Create => if !codec::valid_task_name(name) {
            Err(ValidationError::InvalidName)
        } else if names.contains(name) {
            Err(ValidationError::DuplicateTask)
        } else {
            Ok(())
        },
        TransitionKind::Focus | TransitionKind::Retire => if names.contains(name) {
            Ok(())
        } else {
            Err(ValidationError::UnknownTask)
        },
    }
}

/// Checks a requested transition against the registry. This runs before
/// any external operation, and a refused request reaches none: a
/// transition begins only on an authorized request.
pub fn authorize(kind: TransitionKind, db: &Database, task_name: &str) -> (r: Result<
    (),
    ValidationError,
>)
    ensures
        r == spec_authorize(kind, db@, task_name@),
{
    match kind {
        TransitionKind::Create => {
            if !codec::is_valid_task_name(task_name) {
                Err(ValidationError::InvalidName)
            } else if db.task_exists(task_name) {
                Err(ValidationError::DuplicateTask)
            } else {
                Ok(())
            }
        },
        TransitionKind::Focus | TransitionKind::Retire => {
            if db.task_exists(task_name) {
                Ok(())
            } else {
                Err(ValidationError::UnknownTask)
            }
        },
    }
}

/// Records how a transition ended in the registry: a completed create
/// registers its name, a completed retire strikes its name, and a focus,
/// like any transition that did not complete, leaves the registry exactly
/// as it was — in particular, a create whose later step failed registers
/// nothing, and what its earlier steps already did is kept, not rolled
/// back.
pub fn conclude(kind: TransitionKind, completed: bool, db: &mut Database, task_name: &str)
    requires
        old(db).wf(),
        completed && kind == TransitionKind::Create ==> codec::valid_task_name(task_name@) && !old(
            db,
        )@.contains(task_name@),
    ensures
        final(db).wf(),
        !completed ==> final(db)@ == old(db)@,
        kind == TransitionKind::Focus ==> final(db)@ == old(db)@,
        completed && kind == TransitionKind::Create ==> final(db)@ == old(db)@.push(task_name@)
            && crate::registry::spec_count(final(db)@, task_name@) == 1,
        completed && kind == TransitionKind::Retire ==> {
            &&& !final(db)@.contains(task_name@)
            &&& (old(db)@.contains(task_name@) ==> exists|x: int|
                0 <= x < old(db)@.len() && old(db)@[x] == task_name@ && final(db)@ == old(
                    db,
                )@.remove(x))
            &&& (!old(db)@.contains(task_name@) ==> final(db)@ == old(db)@)
        },
{
    if completed {
        match kind {
            TransitionKind::Create => db.add_task(task_name),
            TransitionKind::Focus => (),
            TransitionKind::Retire => db.remove_task(task_name),
        }
    }
}

} // verus!
