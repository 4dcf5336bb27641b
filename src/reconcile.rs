//! Bringing the local `HEAD` up to the commit that a fetch received.
use vstd::prelude::*;

verus! {

/// What the local `HEAD` is, as read after a fetch.
#[derive(Debug)]
pub enum HeadKind {
    /// `HEAD` is a reference; `target` names the reference it points at, when
    /// it points at one by name rather than directly at an object.
    Symbolic { target: Option<String> },
    /// `HEAD` names a branch that has no commit yet.
    Unborn,
    /// `HEAD` points directly at a commit.
    Detached,
}

/// The reference that an update writes.
#[derive(Debug)]
pub enum EditTarget {
    /// `HEAD` itself.
    Head,
    /// The branch of this full name, which `HEAD` points at.
    Branch(String),
}

/// What the reference must hold before the update for it to go through.
#[derive(Clone, Copy, Debug, PartialEq, Eq, Structural)]
pub enum PreviousValue {
    /// The reference must exist; an update of a vanished reference fails.
    MustExist,
    /// Any previous value, or none, is accepted.
    Any,
}

/// An update of one reference to a commit, written with a reflog entry.
#[derive(Debug)]
pub struct RefEdit {
    pub target: EditTarget,
    pub expected: PreviousValue,
    /// Id of the commit that the reference is set to.
    pub new_id: Vec<u8>,
}

/// The update for a `HEAD` of kind `head` and the fetched remote head
/// `remote_head`: where `HEAD` points at a branch by name, that branch moves
/// and must still exist; otherwise `HEAD` itself is set, whatever it held.
pub open spec fn head_update_spec(head: HeadKind, remote_head: Vec<u8>) -> RefEdit {
    match head {
        HeadKind::Symbolic { target: Some(name) } => RefEdit {
            target: EditTarget::Branch(name),
            expected: PreviousValue::MustExist,
            new_id: remote_head,
        },
        _ => RefEdit { target: EditTarget::Head, expected: PreviousValue::Any, new_id: remote_head },
    }
}

/// Plans the update that points the local `HEAD` at `remote_head`.
pub fn plan_head_update(head: HeadKind, remote_head: Vec<u8>) -> (r: RefEdit)
    ensures
        r == head_update_spec(head, remote_head),
{
    match head {
        HeadKind::Symbolic { target: Some(name) } => RefEdit {
            target: EditTarget::Branch(name),
            expected: PreviousValue::MustExist,
            new_id: remote_head,
        },
        _ => RefEdit { target: EditTarget::Head, expected: PreviousValue::Any, new_id: remote_head },
    }
}

} // verus!
