//! Plain identifiers for the host objects the picker refers to but never
//! looks inside: buffers, the workspace, the project, panes and diffs.

use vstd::prelude::*;

verus! {

/// An open buffer.
#[derive(Clone, Copy, Debug, PartialEq, Eq, Hash, Structural)]
pub struct BufferId(pub u64);

/// The workspace that hosts the picker. The picker holds it weakly: the host
/// reports at each step whether it is still there.
#[derive(Clone, Copy, Debug, PartialEq, Eq, Hash, Structural)]
pub struct WorkspaceId(pub u64);

/// The project the buffers belong to; the host takes the language registry
/// from it.
#[derive(Clone, Copy, Debug, PartialEq, Eq, Hash, Structural)]
pub struct ProjectId(pub u64);

/// A pane of the workspace.
#[derive(Clone, Copy, Debug, PartialEq, Eq, Hash, Structural)]
pub struct PaneId(pub u64);

/// A diff between two buffers, as the host's diff builder produced it.
#[derive(Clone, Copy, Debug, PartialEq, Eq, Hash, Structural)]
pub struct DiffId(pub u64);

} // verus!
