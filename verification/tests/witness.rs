use subilo::job::{
    Action, JobStatus, Outcome, Phase, Project, Query, Step, SubiloError, Witness,
};

/// What a driver would hold: the directories and files it made, the log, and
/// the statements it sent. `fault` says how the n-th action goes wrong.
struct World {
    dirs: Vec<String>,
    files: Vec<String>,
    log: String,
    statements: Vec<(Query, Vec<String>)>,
    performed: usize,
    fault: Option<(usize, Outcome)>,
    snapshots: Vec<String>,
}

fn world() -> World {
    World {
        dirs: Vec::new(),
        files: Vec::new(),
        log: String::new(),
        statements: Vec::new(),
        performed: 0,
        fault: None,
        snapshots: Vec::new(),
    }
}

fn failing(nth: usize, outcome: Outcome) -> World {
    let mut w = world();
    w.fault = Some((nth, outcome));
    w
}

fn perform(world: &mut World, action: Action) -> Outcome {
    let nth = world.performed;
    world.performed += 1;
    world.snapshots.push(world.log.clone());
    if let Some((at, outcome)) = world.fault {
        if at == nth {
            return outcome;
        }
    }
    match action {
        Action::CreateLogDir { path } => world.dirs.push(path),
        Action::CreateLogFile { path } => {
            world.files.push(path);
            world.log.clear();
        }
        Action::AppendLog { text } => world.log.push_str(&text),
        Action::Execute { query, params } => world.statements.push((query, params)),
    }
    Outcome::Done
}

fn run(witness: &mut Witness, first: Step, world: &mut World, stamp: &str) -> Result<(), SubiloError> {
    let mut step = first;
    loop {
        match step {
            Step::Perform(action) => {
                let outcome = perform(world, action);
                step = witness.advance(outcome, stamp);
            }
            Step::Finished => return Ok(()),
            Step::Failed(error) => return Err(error),
            Step::Refused => panic!("the witness refused"),
        }
    }
}

fn project() -> Project {
    Project {
        name: "site".to_owned(),
        description: "Project site\n".to_owned(),
        commands: vec!["git pull".to_owned(), "make".to_owned()],
    }
}

fn assembled() -> (Witness, Action) {
    Witness::assemble(
        "id-1".to_owned(),
        "deploy".to_owned(),
        project(),
        "/var/log/subilo".to_owned(),
        Some("[\"git pull\",\"make\"]".to_owned()),
    )
}

fn running(world: &mut World) -> Witness {
    let (mut witness, first) = assembled();
    assert_eq!(run(&mut witness, Step::Perform(first), world, "2024-05-01T10:00:00.000Z"), Ok(()));
    witness
}

fn texts(items: &[&str]) -> Vec<String> {
    items.iter().map(|s| s.to_string()).collect()
}

#[test]
fn start_up_asks_for_each_action_in_order() {
    let (mut witness, first) = assembled();
    assert_eq!(first, Action::CreateLogDir { path: "/var/log/subilo".to_owned() });
    assert_eq!(witness.phase(), Phase::CreatingLogDir);
    assert_eq!(
        witness.advance(Outcome::Done, "t0"),
        Step::Perform(Action::CreateLogFile { path: "/var/log/subilo/deploy.log".to_owned() })
    );
    assert_eq!(witness.phase(), Phase::CreatingLogFile);
    assert_eq!(
        witness.advance(Outcome::Done, "t1"),
        Step::Perform(Action::AppendLog { text: "Project site\n".to_owned() })
    );
    assert_eq!(witness.phase(), Phase::WritingDescription);
    assert_eq!(
        witness.advance(Outcome::Done, "t2"),
        Step::Perform(Action::Execute {
            query: Query::InsertJob,
            params: texts(&["id-1", "deploy", "started", "site", "[\"git pull\",\"make\"]", "t2"]),
        })
    );
    assert_eq!(witness.phase(), Phase::InsertingJob);
    assert_eq!(witness.advance(Outcome::Done, "t3"), Step::Finished);
    assert_eq!(witness.phase(), Phase::Ready);
    assert_eq!(witness.status(), JobStatus::Started);
}

#[test]
fn start_leaves_the_description_as_the_first_line() {
    let mut world = world();
    let witness = running(&mut world);
    assert_eq!(world.dirs, texts(&["/var/log/subilo"]));
    assert_eq!(world.files, texts(&["/var/log/subilo/deploy.log"]));
    assert_eq!(witness.log_path(), "/var/log/subilo/deploy.log");
    assert_eq!(world.log.lines().next(), Some("Project site"));
    assert_eq!(world.log, "Project site\n");
    assert_eq!(witness.id(), "id-1");
    assert_eq!(witness.name(), "deploy");
}

#[test]
fn commands_then_success() {
    let mut world = world();
    let mut witness = running(&mut world);
    for command in ["git pull", "make", "make install"] {
        let step = witness.report_command(command);
        assert_eq!(run(&mut witness, step, &mut world, "unused"), Ok(()));
        assert_eq!(witness.phase(), Phase::Ready);
    }
    let step = witness.report_command_success_at("2024-05-01T10:00:09.250Z");
    assert_eq!(run(&mut witness, step, &mut world, "unused"), Ok(()));
    let lines: Vec<&str> = world.log.lines().collect();
    assert_eq!(lines, vec!["Project site", "$ git pull", "$ make", "$ make install"]);
    assert_eq!(witness.status(), JobStatus::Succeeded);
    assert_eq!(witness.phase(), Phase::Closed);
    assert_eq!(world.statements.len(), 2);
    assert_eq!(
        world.statements[1],
        (Query::UpdateJob, texts(&["id-1", "succeeded", "2024-05-01T10:00:09.250Z"]))
    );
    let job = witness.record().unwrap();
    assert_eq!(job.status, JobStatus::Succeeded);
    assert_eq!(job.started_at, "2024-05-01T10:00:00.000Z");
    assert_eq!(job.ended_at, "2024-05-01T10:00:09.250Z");
    assert!(!job.ended_at.is_empty());
    assert!(job.ended_at >= job.started_at);
    assert_eq!(job.commands, "[\"git pull\",\"make\"]");
}

#[test]
fn success_without_commands_writes_nothing() {
    let mut world = world();
    let mut witness = running(&mut world);
    let step = witness.report_command_success_at("t9");
    assert_eq!(run(&mut witness, step, &mut world, "unused"), Ok(()));
    assert_eq!(world.log, "Project site\n");
    assert_eq!(witness.status(), JobStatus::Succeeded);
}

#[test]
fn failure_by_exit_code() {
    let mut world = world();
    let mut witness = running(&mut world);
    let step = witness.report_command("make");
    assert_eq!(run(&mut witness, step, &mut world, "unused"), Ok(()));
    let step = witness.report_command_error_by_code(Some(137));
    assert_eq!(step, Step::Perform(Action::AppendLog { text: "Exit 137\n".to_owned() }));
    assert_eq!(run(&mut witness, step, &mut world, "2024-05-01T10:00:03.000Z"), Ok(()));
    assert_eq!(world.log, "Project site\n$ make\nExit 137\n");
    assert_eq!(world.log.lines().last(), Some("Exit 137"));
    assert_eq!(witness.status(), JobStatus::Failed);
    assert_eq!(
        world.statements[1],
        (Query::UpdateJob, texts(&["id-1", "failed", "2024-05-01T10:00:03.000Z"]))
    );
    assert_eq!(witness.record().unwrap().ended_at, "2024-05-01T10:00:03.000Z");
}

#[test]
fn failure_by_signal() {
    let mut world = world();
    let mut witness = running(&mut world);
    let step = witness.report_command_error_by_code(None);
    assert_eq!(run(&mut witness, step, &mut world, "t5"), Ok(()));
    assert_eq!(world.log.lines().last(), Some("Process terminated by signal"));
    assert_eq!(world.log, "Project site\nProcess terminated by signal\n");
    assert_eq!(witness.status(), JobStatus::Failed);
    assert_eq!(world.statements[1], (Query::UpdateJob, texts(&["id-1", "failed", "t5"])));
}

#[test]
fn failure_with_the_runners_description() {
    let mut world = world();
    let mut witness = running(&mut world);
    let step = witness.report_command_error("could not spawn: no such file");
    assert_eq!(
        step,
        Step::Perform(Action::AppendLog { text: "could not spawn: no such file".to_owned() })
    );
    assert_eq!(run(&mut witness, step, &mut world, "t6"), Ok(()));
    assert_eq!(world.log, "Project site\ncould not spawn: no such file");
    assert_eq!(witness.status(), JobStatus::Failed);
    assert_eq!(witness.phase(), Phase::Closed);
    assert_eq!(world.statements[1], (Query::UpdateJob, texts(&["id-1", "failed", "t6"])));
}

#[test]
fn the_update_comes_after_the_entry() {
    let (mut witness, first) = assembled();
    let mut world = world();
    assert_eq!(run(&mut witness, Step::Perform(first), &mut world, "t0"), Ok(()));
    let step = witness.report_command_error_by_code(Some(2));
    assert!(matches!(step, Step::Perform(Action::AppendLog { .. })));
    assert_eq!(witness.status(), JobStatus::Started);
    let step = witness.advance(Outcome::Done, "t1");
    assert!(matches!(step, Step::Perform(Action::Execute { query: Query::UpdateJob, .. })));
    assert_eq!(witness.status(), JobStatus::Started);
    assert_eq!(witness.advance(Outcome::Done, "t2"), Step::Finished);
    assert_eq!(witness.status(), JobStatus::Failed);
    assert_eq!(witness.record().unwrap().ended_at, "t1");
}

#[test]
fn a_second_terminal_report_is_refused() {
    let mut world = world();
    let mut witness = running(&mut world);
    let step = witness.report_command_success_at("t1");
    assert_eq!(run(&mut witness, step, &mut world, "unused"), Ok(()));
    let log = world.log.clone();
    assert_eq!(witness.report_command_success_at("t2"), Step::Refused);
    assert_eq!(witness.report_command_success(), Step::Refused);
    assert_eq!(witness.report_command_error_by_code(Some(1)), Step::Refused);
    assert_eq!(witness.report_command_error_by_code(None), Step::Refused);
    assert_eq!(witness.report_command_error("late"), Step::Refused);
    assert_eq!(witness.report_command("late"), Step::Refused);
    assert_eq!(witness.advance(Outcome::Done, "t3"), Step::Refused);
    assert_eq!(witness.settle(Outcome::Done), Step::Refused);
    assert_eq!(witness.status(), JobStatus::Succeeded);
    assert_eq!(witness.phase(), Phase::Closed);
    assert_eq!(witness.record().unwrap().ended_at, "t1");
    assert_eq!(world.log, log);
    assert_eq!(world.statements.len(), 2);
}

#[test]
fn success_after_failure_is_refused() {
    let mut world = world();
    let mut witness = running(&mut world);
    let step = witness.report_command_error_by_code(Some(1));
    assert_eq!(run(&mut witness, step, &mut world, "t1"), Ok(()));
    assert_eq!(witness.report_command_success_at("t2"), Step::Refused);
    assert_eq!(witness.status(), JobStatus::Failed);
}

#[test]
fn reports_are_refused_while_something_is_under_way() {
    let (mut witness, _first) = assembled();
    assert_eq!(witness.report_command("ls"), Step::Refused);
    assert_eq!(witness.report_command_success_at("t"), Step::Refused);
    assert_eq!(witness.report_command_error_by_code(Some(1)), Step::Refused);
    assert_eq!(witness.report_command_error("e"), Step::Refused);
    assert_eq!(witness.phase(), Phase::CreatingLogDir);
    let mut world = world();
    let mut witness = running(&mut world);
    assert!(matches!(witness.report_command("ls"), Step::Perform(_)));
    assert_eq!(witness.report_command("again"), Step::Refused);
    assert_eq!(witness.report_command_success_at("t"), Step::Refused);
    assert_eq!(witness.phase(), Phase::WritingCommand);
}

#[test]
fn outcomes_that_do_not_fit_are_refused() {
    let (mut witness, _first) = assembled();
    assert_eq!(witness.advance(Outcome::Unreachable, "t"), Step::Refused);
    assert_eq!(witness.advance(Outcome::Rejected, "t"), Step::Refused);
    assert_eq!(witness.phase(), Phase::CreatingLogDir);
    let mut world = world();
    let mut witness = running(&mut world);
    assert_eq!(witness.advance(Outcome::Done, "t"), Step::Refused);
    assert_eq!(witness.advance(Outcome::Failed, "t"), Step::Refused);
    assert!(matches!(witness.report_command_success_at("t"), Step::Perform(_)));
    assert_eq!(witness.advance(Outcome::Failed, "t"), Step::Refused);
    assert_eq!(witness.phase(), Phase::MarkingSucceeded);
}

#[test]
fn a_failed_directory_ends_start_up() {
    let (mut witness, first) = assembled();
    let mut world = failing(0, Outcome::Failed);
    assert_eq!(
        run(&mut witness, Step::Perform(first), &mut world, "t"),
        Err(SubiloError::CreateLogDir)
    );
    assert_eq!(witness.phase(), Phase::Aborted);
    assert_eq!(world.performed, 1);
    assert!(witness.record().is_none());
    assert_eq!(witness.report_command("ls"), Step::Refused);
    assert_eq!(witness.advance(Outcome::Done, "t"), Step::Refused);
}

#[test]
fn a_failed_file_ends_start_up() {
    let (mut witness, first) = assembled();
    let mut world = failing(1, Outcome::Failed);
    assert_eq!(
        run(&mut witness, Step::Perform(first), &mut world, "t"),
        Err(SubiloError::CreateLogFile)
    );
    assert_eq!(witness.phase(), Phase::Aborted);
    assert_eq!(world.performed, 2);
    assert!(world.statements.is_empty());
}

#[test]
fn a_failed_description_ends_start_up() {
    let (mut witness, first) = assembled();
    let mut world = failing(2, Outcome::Failed);
    assert_eq!(
        run(&mut witness, Step::Perform(first), &mut world, "t"),
        Err(SubiloError::WriteLogFile)
    );
    assert_eq!(witness.phase(), Phase::Aborted);
    assert!(world.statements.is_empty());
}

#[test]
fn unserializable_commands_end_start_up_after_the_description() {
    let (mut witness, first) = Witness::assemble(
        "id-2".to_owned(),
        "deploy".to_owned(),
        project(),
        "/var/log/subilo".to_owned(),
        None,
    );
    let mut world = world();
    assert_eq!(
        run(&mut witness, Step::Perform(first), &mut world, "t"),
        Err(SubiloError::ParseProjectCommands)
    );
    assert_eq!(world.log, "Project site\n");
    assert_eq!(world.performed, 3);
    assert!(world.statements.is_empty());
    assert_eq!(witness.phase(), Phase::Aborted);
}

#[test]
fn an_unreachable_channel_ends_start_up() {
    let (mut witness, first) = assembled();
    let mut world = failing(3, Outcome::Unreachable);
    assert_eq!(
        run(&mut witness, Step::Perform(first), &mut world, "t"),
        Err(SubiloError::DatabaseActor)
    );
    assert_eq!(witness.phase(), Phase::Aborted);
    assert!(witness.record().is_none());
}

#[test]
fn a_rejected_insert_ends_start_up() {
    let (mut witness, first) = assembled();
    let mut world = failing(3, Outcome::Rejected);
    assert_eq!(
        run(&mut witness, Step::Perform(first), &mut world, "t"),
        Err(SubiloError::DatabaseQuery)
    );
    assert_eq!(witness.phase(), Phase::Aborted);
}

#[test]
fn a_failed_command_entry_leaves_the_job_running() {
    let mut world = world();
    let mut witness = running(&mut world);
    world.fault = Some((world.performed, Outcome::Failed));
    let step = witness.report_command("make");
    assert_eq!(run(&mut witness, step, &mut world, "t"), Err(SubiloError::WriteLogFile));
    assert_eq!(witness.phase(), Phase::Ready);
    assert_eq!(witness.status(), JobStatus::Started);
    assert_eq!(world.statements.len(), 1);
    let step = witness.report_command("make test");
    assert_eq!(run(&mut witness, step, &mut world, "t"), Ok(()));
    assert_eq!(world.log, "Project site\n$ make test\n");
}

#[test]
fn a_failed_failure_entry_sends_no_update() {
    let mut world = world();
    let mut witness = running(&mut world);
    world.fault = Some((world.performed, Outcome::Failed));
    let step = witness.report_command_error_by_code(Some(3));
    assert_eq!(run(&mut witness, step, &mut world, "t"), Err(SubiloError::WriteLogFile));
    assert_eq!(world.statements.len(), 1);
    assert_eq!(witness.status(), JobStatus::Started);
    assert_eq!(witness.phase(), Phase::Ready);
    assert_eq!(witness.record().unwrap().ended_at, "");
}

#[test]
fn an_unreachable_channel_fails_the_report_and_keeps_the_status() {
    let mut world = world();
    let mut witness = running(&mut world);
    world.fault = Some((world.performed, Outcome::Unreachable));
    let step = witness.report_command_success_at("t1");
    assert_eq!(run(&mut witness, step, &mut world, "t"), Err(SubiloError::DatabaseActor));
    assert_eq!(witness.status(), JobStatus::Started);
    assert_eq!(witness.phase(), Phase::Ready);
    assert_eq!(witness.record().unwrap().ended_at, "");
    let step = witness.report_command_success_at("t2");
    assert_eq!(run(&mut witness, step, &mut world, "t"), Ok(()));
    assert_eq!(witness.status(), JobStatus::Succeeded);
    assert_eq!(witness.record().unwrap().ended_at, "t2");
}

#[test]
fn a_rejected_update_fails_the_report_after_the_entry_is_written() {
    let mut world = world();
    let mut witness = running(&mut world);
    world.fault = Some((world.performed + 1, Outcome::Rejected));
    let step = witness.report_command_error_by_code(Some(1));
    assert_eq!(run(&mut witness, step, &mut world, "t"), Err(SubiloError::DatabaseQuery));
    assert_eq!(world.log, "Project site\nExit 1\n");
    assert_eq!(witness.status(), JobStatus::Started);
    assert_eq!(witness.phase(), Phase::Ready);
}

#[test]
fn every_earlier_log_is_a_prefix_of_the_final_log() {
    let mut world = world();
    let mut witness = running(&mut world);
    for command in ["a", "b", "c"] {
        let step = witness.report_command(command);
        assert_eq!(run(&mut witness, step, &mut world, "t"), Ok(()));
    }
    let step = witness.report_command_error_by_code(Some(9));
    assert_eq!(run(&mut witness, step, &mut world, "t"), Ok(()));
    assert_eq!(world.log, "Project site\n$ a\n$ b\n$ c\nExit 9\n");
    assert!(world.snapshots.len() >= 8);
    for snapshot in &world.snapshots {
        assert!(world.log.starts_with(snapshot.as_str()));
    }
}

#[test]
fn the_record_is_there_once_the_job_is_inserted() {
    let (mut witness, first) = assembled();
    assert!(witness.record().is_none());
    let mut world = world();
    assert_eq!(run(&mut witness, Step::Perform(first), &mut world, "t0"), Ok(()));
    let job = witness.record().unwrap();
    assert_eq!(job.id, "id-1");
    assert_eq!(job.name, "deploy");
    assert_eq!(job.status, JobStatus::Started);
    assert_eq!(job.project, "site");
    assert_eq!(job.started_at, "t0");
    assert_eq!(job.ended_at, "");
    assert_eq!(job.commands, "[\"git pull\",\"make\"]");
    let partial = job.summary();
    assert_eq!(partial.status, JobStatus::Started);
    assert_eq!(partial.ended_at, "");
}

#[test]
fn new_draws_an_identifier_and_serializes_the_commands() {
    let (mut witness, first) = Witness::new("deploy".to_owned(), project(), "/var/log/subilo");
    assert_eq!(first, Action::CreateLogDir { path: "/var/log/subilo".to_owned() });
    let id = witness.id().to_owned();
    assert_eq!(id.chars().count(), 21);
    assert!(id.chars().all(|c| c.is_ascii_alphanumeric() || c == '_' || c == '-'));
    let (other, _) = Witness::new("deploy".to_owned(), project(), "/var/log/subilo");
    assert_ne!(other.id(), id);
    assert_eq!(witness.log_path(), "/var/log/subilo/deploy.log");
    assert!(matches!(witness.settle(Outcome::Done), Step::Perform(Action::CreateLogFile { .. })));
    assert!(matches!(witness.settle(Outcome::Done), Step::Perform(Action::AppendLog { .. })));
    match witness.settle(Outcome::Done) {
        Step::Perform(Action::Execute { query, params }) => {
            assert_eq!(query, Query::InsertJob);
            assert_eq!(params.len(), 6);
            assert_eq!(params[0], id);
            assert_eq!(params[1], "deploy");
            assert_eq!(params[2], "started");
            assert_eq!(params[3], "site");
            assert_eq!(params[4], "[\"git pull\",\"make\"]");
            assert_eq!(params[5].len(), 24);
            assert!(params[5].ends_with('Z'));
            assert_eq!(&params[5][10..11], "T");
        }
        _ => panic!("the job was not inserted"),
    }
    assert_eq!(witness.settle(Outcome::Done), Step::Finished);
    assert_eq!(witness.phase(), Phase::Ready);
}

#[test]
fn new_expands_the_home_shorthand_for_directory_and_file_alike() {
    let (witness, first) = Witness::new("deploy".to_owned(), project(), "~/logs");
    let dir = shellexpand::tilde("~/logs").into_owned();
    assert_eq!(first, Action::CreateLogDir { path: dir.clone() });
    assert_eq!(witness.log_path(), format!("{}/deploy.log", dir));
}

#[test]
fn commands_are_serialized_as_a_json_list() {
    let odd = Project {
        name: "p".to_owned(),
        description: String::new(),
        commands: vec!["echo \"hi\"".to_owned(), "a\\b".to_owned(), "tab\there".to_owned()],
    };
    let (mut witness, _) = Witness::new("j".to_owned(), odd, "/l");
    witness.settle(Outcome::Done);
    witness.settle(Outcome::Done);
    match witness.settle(Outcome::Done) {
        Step::Perform(Action::Execute { params, .. }) => {
            assert_eq!(params[4], "[\"echo \\\"hi\\\"\",\"a\\\\b\",\"tab\\there\"]");
        }
        _ => panic!("the job was not inserted"),
    }
    let none = Project { name: "p".to_owned(), description: String::new(), commands: Vec::new() };
    let (mut witness, _) = Witness::new("j".to_owned(), none, "/l");
    witness.settle(Outcome::Done);
    witness.settle(Outcome::Done);
    match witness.settle(Outcome::Done) {
        Step::Perform(Action::Execute { params, .. }) => assert_eq!(params[4], "[]"),
        _ => panic!("the job was not inserted"),
    }
}

#[test]
fn success_by_the_clock_bears_a_time() {
    let mut world = world();
    let mut witness = running(&mut world);
    let step = witness.report_command_success();
    match &step {
        Step::Perform(Action::Execute { query, params }) => {
            assert_eq!(*query, Query::UpdateJob);
            assert_eq!(params[0], "id-1");
            assert_eq!(params[1], "succeeded");
            assert_eq!(params[2].len(), 24);
            assert!(params[2].ends_with('Z'));
        }
        _ => panic!("no update was asked for"),
    }
    assert_eq!(witness.settle(Outcome::Done), Step::Finished);
    let job = witness.record().unwrap();
    assert_eq!(job.status, JobStatus::Succeeded);
    assert!(!job.ended_at.is_empty());
    assert!(job.ended_at.as_str() >= "2024-05-01T10:00:00.000Z");
}

#[test]
fn failure_by_the_clock_bears_a_time() {
    let mut world = world();
    let mut witness = running(&mut world);
    assert!(matches!(witness.report_command_error_by_code(Some(1)), Step::Perform(_)));
    assert!(witness.reads_clock(Outcome::Done));
    assert!(!witness.reads_clock(Outcome::Failed));
    match witness.settle(Outcome::Done) {
        Step::Perform(Action::Execute { params, .. }) => {
            assert_eq!(params[1], "failed");
            assert_eq!(params[2].len(), 24);
        }
        _ => panic!("no update was asked for"),
    }
    assert!(!witness.reads_clock(Outcome::Done));
    assert_eq!(witness.settle(Outcome::Done), Step::Finished);
    assert_eq!(witness.status(), JobStatus::Failed);
    assert_eq!(witness.record().unwrap().ended_at.len(), 24);
}

fn is_utc_stamp(stamp: &str) -> bool {
    let chars: Vec<char> = stamp.chars().collect();
    let n = chars.len();
    if n < 24 {
        return false;
    }
    let shape = "-dd-ddTdd:dd:dd.dddZ";
    shape.chars().zip(chars[n - 20..].iter()).all(|(want, got)| {
        if want == 'd' {
            got.is_ascii_digit()
        } else {
            want == *got
        }
    })
}

#[test]
fn an_empty_end_time_is_refused() {
    let mut world = world();
    let mut witness = running(&mut world);
    assert_eq!(witness.report_command_success_at(""), Step::Refused);
    assert_eq!(witness.phase(), Phase::Ready);
    assert_eq!(witness.status(), JobStatus::Started);
    assert!(matches!(witness.report_command_error_by_code(Some(1)), Step::Perform(_)));
    assert_eq!(witness.advance(Outcome::Done, ""), Step::Refused);
    assert_eq!(witness.phase(), Phase::WritingFailure);
    assert!(matches!(witness.advance(Outcome::Done, "t1"), Step::Perform(_)));
    assert_eq!(witness.advance(Outcome::Done, ""), Step::Finished);
    let job = witness.record().unwrap();
    assert_eq!(job.status, JobStatus::Failed);
    assert_eq!(job.ended_at, "t1");
}

#[test]
fn an_empty_start_time_is_refused() {
    let (mut witness, _first) = assembled();
    assert!(matches!(witness.advance(Outcome::Done, ""), Step::Perform(_)));
    assert!(matches!(witness.advance(Outcome::Done, ""), Step::Perform(_)));
    assert_eq!(witness.advance(Outcome::Done, ""), Step::Refused);
    assert_eq!(witness.phase(), Phase::WritingDescription);
    assert_eq!(witness.advance(Outcome::Failed, ""), Step::Failed(SubiloError::WriteLogFile));
    assert_eq!(witness.phase(), Phase::Aborted);
}

#[test]
fn times_by_the_clock_have_the_shape_of_utc_stamps() {
    assert!(is_utc_stamp("2024-05-01T10:00:09.250Z"));
    assert!(!is_utc_stamp("2024-05-01T10:00:09Z"));
    let (mut witness, _first) = Witness::new("deploy".to_owned(), project(), "/logs");
    witness.settle(Outcome::Done);
    witness.settle(Outcome::Done);
    let started_at = match witness.settle(Outcome::Done) {
        Step::Perform(Action::Execute { params, .. }) => params[5].clone(),
        _ => panic!("the job was not inserted"),
    };
    assert!(is_utc_stamp(&started_at));
    assert_eq!(witness.settle(Outcome::Done), Step::Finished);
    let ended_at = match witness.report_command_success() {
        Step::Perform(Action::Execute { params, .. }) => params[2].clone(),
        _ => panic!("no update was asked for"),
    };
    assert!(is_utc_stamp(&ended_at));
    assert_eq!(witness.settle(Outcome::Done), Step::Finished);
    let job = witness.record().unwrap();
    assert_eq!(job.started_at, started_at);
    assert_eq!(job.ended_at, ended_at);
}
