//! What an export asks of the host, step by step.
//!
//! The recorder itself never talks to the host. It decides what is to be
//! done next; its caller does that and reports what came of it.

use crate::houdini_debug_logger::{ExportMethod, ExportMethodView};
use vstd::prelude::*;

verus! {

/// Why an export was given up.
#[derive(Clone, Copy, Debug, PartialEq, Eq, Structural)]
pub enum HostFailure {
    /// The container of a live export does not exist in the session.
    ContainerMissing,
    /// The output node holds no geometry.
    NoGeometry,
    /// The host was reported to have done what it was not asked for.
    OutOfTurn,
}

/// What came of the last request.
#[derive(Clone, Copy, Debug, PartialEq, Eq, Structural)]
pub enum HostEvent {
    /// Nothing was asked yet: the export begins.
    Begin,
    /// The host did what it was asked.
    Done,
    /// What was looked for is there.
    Found,
    /// What was looked for is not there.
    Missing,
}

/// How far an export has come.
#[derive(Clone, Copy, Debug, PartialEq, Eq, Structural)]
pub enum ExportStep {
    Idle,
    StartingSession,
    FindingContainer,
    FindingNode,
    DeletingNode,
    CreatingContainer,
    CreatingNode,
    Cooking,
    OpeningGeometry,
    Writing,
    Committing,
    Saving,
    Finished,
    Failed,
}

/// A request to the host, as a mathematical value.
pub enum ActionView {
    StartSession,
    FindContainer { path: Seq<char> },
    FindNode { name: Seq<char> },
    DeleteNode,
    CreateContainer { operator: Seq<char> },
    CreateNode { operator: Seq<char>, label: Option<Seq<char>> },
    Cook,
    OpenGeometry,
    Write,
    Commit,
    SaveToFile { path: Seq<char> },
    Finish,
    Fail { reason: HostFailure },
}

/// A request to the host.
#[derive(Debug, PartialEq, Eq)]
pub enum HostAction {
    /// Start a fresh host instance that serves this export alone.
    StartSession,
    /// Look up the container at this path of the session.
    FindContainer { path: String },
    /// Look up the node of this name in the container.
    FindNode { name: String },
    /// Delete the node that was found.
    DeleteNode,
    /// Create the container, a node of this operator.
    CreateContainer { operator: String },
    /// Create the output node in the container, with this label if any.
    CreateNode { operator: String, label: Option<String> },
    /// Cook the output node.
    Cook,
    /// Ask the output node for its geometry.
    OpenGeometry,
    /// Declare the points and write the attributes of the point cloud.
    Write,
    /// Commit what was written.
    Commit,
    /// Save the geometry to the file at this path.
    SaveToFile { path: String },
    /// The export is complete; nothing is left to do.
    Finish,
    /// The export is given up.
    Fail { reason: HostFailure },
}

impl View for HostAction {
    type V = ActionView;

    open spec fn view(&self) -> ActionView {
        match self {
            HostAction::StartSession => ActionView::StartSession,
            HostAction::FindContainer { path } => ActionView::FindContainer { path: path@ },
            HostAction::FindNode { name } => ActionView::FindNode { name: name@ },
            HostAction::DeleteNode => ActionView::DeleteNode,
            HostAction::CreateContainer { operator } => ActionView::CreateContainer {
                operator: operator@,
            },
            HostAction::CreateNode { operator, label } => ActionView::CreateNode {
                operator: operator@,
                label: match label {
                    Some(label) => Some(label@),
                    None => None,
                },
            },
            HostAction::Cook => ActionView::Cook,
            HostAction::OpenGeometry => ActionView::OpenGeometry,
            HostAction::Write => ActionView::Write,
            HostAction::Commit => ActionView::Commit,
            HostAction::SaveToFile { path } => ActionView::SaveToFile { path: path@ },
            HostAction::Finish => ActionView::Finish,
            HostAction::Fail { reason } => ActionView::Fail { reason: *reason },
        }
    }
}

/// The export is given up because the host is out of turn.
pub open spec fn out_of_turn() -> (ExportStep, ActionView) {
    (ExportStep::Failed, ActionView::Fail { reason: HostFailure::OutOfTurn })
}

/// The request that creates the output node: an empty `null` node, which a
/// live export labels with the configured name.
pub open spec fn create_output(method: ExportMethodView) -> (ExportStep, ActionView) {
    (
        ExportStep::CreatingNode,
        ActionView::CreateNode {
            operator: "null"@,
            label: match method {
                ExportMethodView::LiveSession { path, node_name } => Some(node_name),
                ExportMethodView::File { path } => None,
            },
        },
    )
}

/// What follows: the step that an export is at after `event`, and what it
/// asks of the host there.
///
/// An export into a file starts a host of its own, creates a container and
/// the output node, and in the end saves the geometry. A live export looks
/// up its container, deletes the output node of an earlier export if there
/// is one, creates the node anew, and ends with the commit.
pub open spec fn next_step(method: ExportMethodView, step: ExportStep, event: HostEvent) -> (
    ExportStep,
    ActionView,
) {
    match (step, event) {
        (ExportStep::Idle, HostEvent::Begin) => match method {
            ExportMethodView::LiveSession { path, node_name } => (
                ExportStep::FindingContainer,
                ActionView::FindContainer { path },
            ),
            ExportMethodView::File { path } => (
                ExportStep::StartingSession,
                ActionView::StartSession,
            ),
        },
        (ExportStep::StartingSession, HostEvent::Done) => (
            ExportStep::CreatingContainer,
            ActionView::CreateContainer { operator: "Object/geo"@ },
        ),
        (ExportStep::CreatingContainer, HostEvent::Done) => create_output(method),
        (ExportStep::FindingContainer, HostEvent::Found) => match method {
            ExportMethodView::LiveSession { path, node_name } => (
                ExportStep::FindingNode,
                ActionView::FindNode { name: node_name },
            ),
            ExportMethodView::File { path } => out_of_turn(),
        },
        (ExportStep::FindingContainer, HostEvent::Missing) => (
            ExportStep::Failed,
            ActionView::Fail { reason: HostFailure::ContainerMissing },
        ),
        (ExportStep::FindingNode, HostEvent::Found) => (
            ExportStep::DeletingNode,
            ActionView::DeleteNode,
        ),
        (ExportStep::FindingNode, HostEvent::Missing) => create_output(method),
        (ExportStep::DeletingNode, HostEvent::Done) => create_output(method),
        (ExportStep::CreatingNode, HostEvent::Done) => (ExportStep::Cooking, ActionView::Cook),
        (ExportStep::Cooking, HostEvent::Done) => (
            ExportStep::OpeningGeometry,
            ActionView::OpenGeometry,
        ),
        (ExportStep::OpeningGeometry, HostEvent::Found) => (
            ExportStep::Writing,
            ActionView::Write,
        ),
        (ExportStep::OpeningGeometry, HostEvent::Missing) => (
            ExportStep::Failed,
            ActionView::Fail { reason: HostFailure::NoGeometry },
        ),
        (ExportStep::Writing, HostEvent::Done) => (ExportStep::Committing, ActionView::Commit),
        (ExportStep::Committing, HostEvent::Done) => match method {
            ExportMethodView::LiveSession { path, node_name } => (
                ExportStep::Finished,
                ActionView::Finish,
            ),
            ExportMethodView::File { path } => (
                ExportStep::Saving,
                ActionView::SaveToFile { path },
            ),
        },
        (ExportStep::Saving, HostEvent::Done) => (ExportStep::Finished, ActionView::Finish),
        _ => out_of_turn(),
    }
}

/// The request that creates the output node.
fn output_node(method: &ExportMethod) -> (next: (ExportStep, HostAction))
    ensures
        (next.0, next.1@) == create_output(method@),
{
    let label = match method {
        ExportMethod::LiveSession { path, node_name } => Some(node_name.clone()),
        ExportMethod::File { path } => None,
    };
    (ExportStep::CreatingNode, HostAction::CreateNode { operator: "null".to_string(), label })
}

/// Decides what an export does next.
pub fn advance(method: &ExportMethod, step: ExportStep, event: HostEvent) -> (next: (
    ExportStep,
    HostAction,
))
    ensures
        (next.0, next.1@) == next_step(method@, step, event),
{
    let out_of_turn = (ExportStep::Failed, HostAction::Fail { reason: HostFailure::OutOfTurn });
    match (step, event) {
        (ExportStep::Idle, HostEvent::Begin) => match method {
            ExportMethod::LiveSession { path, node_name } => (
                ExportStep::FindingContainer,
                HostAction::FindContainer { path: path.clone() },
            ),
            ExportMethod::File { path } => (ExportStep::StartingSession, HostAction::StartSession),
        },
        (ExportStep::StartingSession, HostEvent::Done) => (
            ExportStep::CreatingContainer,
            HostAction::CreateContainer { operator: "Object/geo".to_string() },
        ),
        (ExportStep::CreatingContainer, HostEvent::Done) => output_node(method),
        (ExportStep::FindingContainer, HostEvent::Found) => match method {
            ExportMethod::LiveSession { path, node_name } => (
                ExportStep::FindingNode,
                HostAction::FindNode { name: node_name.clone() },
            ),
            ExportMethod::File { path } => out_of_turn,
        },
        (ExportStep::FindingContainer, HostEvent::Missing) => (
            ExportStep::Failed,
            HostAction::Fail { reason: HostFailure::ContainerMissing },
        ),
        (ExportStep::FindingNode, HostEvent::Found) => (
            ExportStep::DeletingNode,
            HostAction::DeleteNode,
        ),
        (ExportStep::FindingNode, HostEvent::Missing) => output_node(method),
        (ExportStep::DeletingNode, HostEvent::Done) => output_node(method),
        (ExportStep::CreatingNode, HostEvent::Done) => (ExportStep::Cooking, HostAction::Cook),
        (ExportStep::Cooking, HostEvent::Done) => (
            ExportStep::OpeningGeometry,
            HostAction::OpenGeometry,
        ),
        (ExportStep::OpeningGeometry, HostEvent::Found) => (
            ExportStep::Writing,
            HostAction::Write,
        ),
        (ExportStep::OpeningGeometry, HostEvent::Missing) => (
            ExportStep::Failed,
            HostAction::Fail { reason: HostFailure::NoGeometry },
        ),
        (ExportStep::Writing, HostEvent::Done) => (ExportStep::Committing, HostAction::Commit),
        (ExportStep::Committing, HostEvent::Done) => match method {
            ExportMethod::LiveSession { path, node_name } => (
                ExportStep::Finished,
                HostAction::Finish,
            ),
            ExportMethod::File { path } => (
                ExportStep::Saving,
                HostAction::SaveToFile { path: path.clone() },
            ),
        },
        (ExportStep::Saving, HostEvent::Done) => (ExportStep::Finished, HostAction::Finish),
        _ => out_of_turn,
    }
}

/// A live export never saves a file, and an export into a file never looks
/// a node up or deletes one.
pub proof fn lemma_targets_keep_apart(method: ExportMethodView, step: ExportStep, event: HostEvent)
    ensures
        method is LiveSession ==> {
            &&& !(next_step(method, step, event).1 is SaveToFile)
            &&& !(next_step(method, step, event).1 is StartSession)
            &&& !(next_step(method, step, event).0 is Saving)
        },
        next_step(method, step, event).1 is DeleteNode ==> step is FindingNode && event
            is Found,
        next_step(method, step, event).1 is Finish ==> next_step(method, step, event).0
            is Finished,
{
}

/// An export into a file that meets no obstacle: a host of its own, the
/// container, the output node, the point cloud, the commit, and the file.
pub proof fn lemma_file_export(path: Seq<char>)
    ensures
        ({
            let method = ExportMethodView::File { path };
            &&& next_step(method, ExportStep::Idle, HostEvent::Begin) == (
                ExportStep::StartingSession,
                ActionView::StartSession,
            )
            &&& next_step(method, ExportStep::StartingSession, HostEvent::Done) == (
                ExportStep::CreatingContainer,
                ActionView::CreateContainer { operator: "Object/geo"@ },
            )
            &&& next_step(method, ExportStep::CreatingContainer, HostEvent::Done) == (
                ExportStep::CreatingNode,
                ActionView::CreateNode { operator: "null"@, label: None },
            )
            &&& next_step(method, ExportStep::CreatingNode, HostEvent::Done) == (
                ExportStep::Cooking,
                ActionView::Cook,
            )
            &&& next_step(method, ExportStep::Cooking, HostEvent::Done) == (
                ExportStep::OpeningGeometry,
                ActionView::OpenGeometry,
            )
            &&& next_step(method, ExportStep::OpeningGeometry, HostEvent::Found) == (
                ExportStep::Writing,
                ActionView::Write,
            )
            &&& next_step(method, ExportStep::Writing, HostEvent::Done) == (
                ExportStep::Committing,
                ActionView::Commit,
            )
            &&& next_step(method, ExportStep::Committing, HostEvent::Done) == (
                ExportStep::Saving,
                ActionView::SaveToFile { path },
            )
            &&& next_step(method, ExportStep::Saving, HostEvent::Done) == (
                ExportStep::Finished,
                ActionView::Finish,
            )
        }),
{
}

/// A live export that meets no obstacle. Where the output node of an earlier
/// export is found, it is deleted before the node is created anew, so that
/// exports replace one another; and the export ends with the commit.
pub proof fn lemma_live_export(path: Seq<char>, node_name: Seq<char>)
    ensures
        ({
            let method = ExportMethodView::LiveSession { path, node_name };
            let create = (
                ExportStep::CreatingNode,
                ActionView::CreateNode { operator: "null"@, label: Some(node_name) },
            );
            &&& next_step(method, ExportStep::Idle, HostEvent::Begin) == (
                ExportStep::FindingContainer,
                ActionView::FindContainer { path },
            )
            &&& next_step(method, ExportStep::FindingContainer, HostEvent::Found) == (
                ExportStep::FindingNode,
                ActionView::FindNode { name: node_name },
            )
            &&& next_step(method, ExportStep::FindingNode, HostEvent::Found) == (
                ExportStep::DeletingNode,
                ActionView::DeleteNode,
            )
            &&& next_step(method, ExportStep::DeletingNode, HostEvent::Done) == create
            &&& next_step(method, ExportStep::FindingNode, HostEvent::Missing) == create
            &&& next_step(method, ExportStep::CreatingNode, HostEvent::Done) == (
                ExportStep::Cooking,
                ActionView::Cook,
            )
            &&& next_step(method, ExportStep::Cooking, HostEvent::Done) == (
                ExportStep::OpeningGeometry,
                ActionView::OpenGeometry,
            )
            &&& next_step(method, ExportStep::OpeningGeometry, HostEvent::Found) == (
                ExportStep::Writing,
                ActionView::Write,
            )
            &&& next_step(method, ExportStep::Writing, HostEvent::Done) == (
                ExportStep::Committing,
                ActionView::Commit,
            )
            &&& next_step(method, ExportStep::Committing, HostEvent::Done) == (
                ExportStep::Finished,
                ActionView::Finish,
            )
        }),
{
}

} // verus!
