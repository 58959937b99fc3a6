use houlog::{
    advance, session_source, ExportMethod, ExportStep, HostAction, HostEvent, HostFailure,
    HoudiniDebugLogger, SessionSource,
};

fn run(method: &ExportMethod, events: &[HostEvent]) -> (ExportStep, Vec<HostAction>) {
    let mut step = ExportStep::Idle;
    let mut actions = Vec::new();
    for event in events {
        let (next, action) = advance(method, step, *event);
        step = next;
        actions.push(action);
    }
    (step, actions)
}

fn create_null(label: Option<&str>) -> HostAction {
    HostAction::CreateNode { operator: "null".to_string(), label: label.map(|l| l.to_string()) }
}

#[test]
fn file_export_starts_a_host_and_ends_with_the_file() {
    let logger = HoudiniDebugLogger::new_with_file("./houlog.bgeo".to_string());
    let (step, actions) = run(
        logger.export_method(),
        &[
            HostEvent::Begin,
            HostEvent::Done,
            HostEvent::Done,
            HostEvent::Done,
            HostEvent::Done,
            HostEvent::Found,
            HostEvent::Done,
            HostEvent::Done,
            HostEvent::Done,
        ],
    );
    assert_eq!(step, ExportStep::Finished);
    assert_eq!(
        actions,
        vec![
            HostAction::StartSession,
            HostAction::CreateContainer { operator: "Object/geo".to_string() },
            create_null(None),
            HostAction::Cook,
            HostAction::OpenGeometry,
            HostAction::Write,
            HostAction::Commit,
            HostAction::SaveToFile { path: "./houlog.bgeo".to_string() },
            HostAction::Finish,
        ]
    );
}

#[test]
fn live_export_replaces_the_node_of_an_earlier_export() {
    let logger = HoudiniDebugLogger::new_with_live_session();
    let (step, actions) = run(
        logger.export_method(),
        &[
            HostEvent::Begin,
            HostEvent::Found,
            HostEvent::Found,
            HostEvent::Done,
            HostEvent::Done,
            HostEvent::Done,
            HostEvent::Found,
            HostEvent::Done,
            HostEvent::Done,
        ],
    );
    assert_eq!(step, ExportStep::Finished);
    assert_eq!(
        actions,
        vec![
            HostAction::FindContainer { path: "/obj/recordings".to_string() },
            HostAction::FindNode { name: "recording".to_string() },
            HostAction::DeleteNode,
            create_null(Some("recording")),
            HostAction::Cook,
            HostAction::OpenGeometry,
            HostAction::Write,
            HostAction::Commit,
            HostAction::Finish,
        ]
    );
}

#[test]
fn live_export_creates_the_node_where_there_was_none() {
    let method = ExportMethod::LiveSession {
        path: "/obj/elsewhere".to_string(),
        node_name: "dump".to_string(),
    };
    let (step, actions) = run(
        &method,
        &[
            HostEvent::Begin,
            HostEvent::Found,
            HostEvent::Missing,
            HostEvent::Done,
            HostEvent::Done,
            HostEvent::Found,
            HostEvent::Done,
            HostEvent::Done,
        ],
    );
    assert_eq!(step, ExportStep::Finished);
    assert_eq!(
        actions,
        vec![
            HostAction::FindContainer { path: "/obj/elsewhere".to_string() },
            HostAction::FindNode { name: "dump".to_string() },
            create_null(Some("dump")),
            HostAction::Cook,
            HostAction::OpenGeometry,
            HostAction::Write,
            HostAction::Commit,
            HostAction::Finish,
        ]
    );
}

#[test]
fn export_is_given_up_where_the_host_lacks_what_is_needed() {
    let live = ExportMethod::LiveSession { path: "/obj".to_string(), node_name: "n".to_string() };
    assert_eq!(
        advance(&live, ExportStep::FindingContainer, HostEvent::Missing),
        (ExportStep::Failed, HostAction::Fail { reason: HostFailure::ContainerMissing })
    );
    let file = ExportMethod::File { path: "f".to_string() };
    for method in [&live, &file] {
        assert_eq!(
            advance(method, ExportStep::OpeningGeometry, HostEvent::Missing),
            (ExportStep::Failed, HostAction::Fail { reason: HostFailure::NoGeometry })
        );
    }
}

#[test]
fn reports_out_of_turn_end_the_export() {
    let out = (ExportStep::Failed, HostAction::Fail { reason: HostFailure::OutOfTurn });
    let file = ExportMethod::File { path: "f".to_string() };
    let live = ExportMethod::LiveSession { path: "/obj".to_string(), node_name: "n".to_string() };
    assert_eq!(advance(&file, ExportStep::Idle, HostEvent::Done), out);
    assert_eq!(advance(&file, ExportStep::FindingContainer, HostEvent::Found), out);
    assert_eq!(advance(&file, ExportStep::Finished, HostEvent::Done), out);
    assert_eq!(advance(&file, ExportStep::Failed, HostEvent::Begin), out);
    assert_eq!(advance(&live, ExportStep::Saving, HostEvent::Found), out);
    assert_eq!(advance(&live, ExportStep::Cooking, HostEvent::Missing), out);
    assert_eq!(advance(&live, ExportStep::Writing, HostEvent::Begin), out);
}

#[test]
fn live_logger_connects_to_the_local_port_unless_a_session_is_supplied() {
    assert_eq!(session_source(true), SessionSource::Supplied);
    assert_eq!(
        session_source(false),
        SessionSource::Connect { address: [127, 0, 0, 1], port: 9090 }
    );
}
