use subilo::job::{Job, JobStatus};

#[test]
fn status_labels_are_lower_case() {
    assert_eq!(JobStatus::Started.label(), "started");
    assert_eq!(JobStatus::Succeeded.label(), "succeeded");
    assert_eq!(JobStatus::Failed.label(), "failed");
}

#[test]
fn only_started_is_not_terminal() {
    assert!(!JobStatus::Started.is_terminal());
    assert!(JobStatus::Succeeded.is_terminal());
    assert!(JobStatus::Failed.is_terminal());
}

#[test]
fn summary_omits_the_commands() {
    let job = Job {
        id: "id".to_owned(),
        name: "name".to_owned(),
        status: JobStatus::Failed,
        project: "project".to_owned(),
        started_at: "2020-01-01T00:00:00.000Z".to_owned(),
        ended_at: "2020-01-01T00:00:01.000Z".to_owned(),
        commands: "[\"ls\"]".to_owned(),
    };
    let partial = job.summary();
    assert_eq!(partial.id, "id");
    assert_eq!(partial.name, "name");
    assert_eq!(partial.status, JobStatus::Failed);
    assert_eq!(partial.project, "project");
    assert_eq!(partial.started_at, "2020-01-01T00:00:00.000Z");
    assert_eq!(partial.ended_at, "2020-01-01T00:00:01.000Z");
}
