use subilo::job::log::{command_entry, failure_entry, log_name_in};
use subilo::job::create_log_name;

#[test]
fn log_name_follows_the_convention() {
    assert_eq!(create_log_name("deploy", "/var/log/subilo"), "/var/log/subilo/deploy.log");
    assert_eq!(create_log_name("deploy", "logs"), "logs/deploy.log");
    assert_eq!(create_log_name("", ""), "/.log");
    assert_eq!(log_name_in("a b", "/tmp/x"), "/tmp/x/a b.log");
}

#[test]
fn log_name_is_the_same_for_the_same_job_and_directory() {
    assert_eq!(create_log_name("job", "/srv/logs"), create_log_name("job", "/srv/logs"));
    assert_eq!(create_log_name("job", "~/logs"), create_log_name("job", "~/logs"));
}

#[test]
fn log_name_expands_the_home_shorthand() {
    let path = create_log_name("job", "~/logs");
    assert!(path.ends_with("/logs/job.log"));
    assert_eq!(path, format!("{}/job.log", shellexpand::tilde("~/logs")));
    if shellexpand::tilde("~") != "~" {
        assert!(!path.starts_with('~'));
    }
    let bare = create_log_name("job", "~");
    assert!(bare.ends_with("/job.log"));
}

#[test]
fn log_name_leaves_other_tildes_alone() {
    assert_eq!(create_log_name("job", "~other/logs"), "~other/logs/job.log");
    assert_eq!(create_log_name("job", "/a/~/b"), "/a/~/b/job.log");
    assert_eq!(log_name_in("job", "~/logs"), "~/logs/job.log");
}

#[test]
fn command_entry_marks_the_command() {
    assert_eq!(command_entry("make install"), "$ make install\n");
    assert_eq!(command_entry(""), "$ \n");
    assert_eq!(command_entry("echo \u{e9}"), "$ echo \u{e9}\n");
}

#[test]
fn failure_entry_by_exit_code() {
    assert_eq!(failure_entry(Some(137)), "Exit 137\n");
    assert_eq!(failure_entry(Some(0)), "Exit 0\n");
    assert_eq!(failure_entry(Some(1)), "Exit 1\n");
    assert_eq!(failure_entry(Some(10)), "Exit 10\n");
    assert_eq!(failure_entry(Some(-1)), "Exit -1\n");
    assert_eq!(failure_entry(Some(i32::MAX)), "Exit 2147483647\n");
    assert_eq!(failure_entry(Some(i32::MIN)), "Exit -2147483648\n");
}

#[test]
fn failure_entry_by_signal() {
    assert_eq!(failure_entry(None), "Process terminated by signal\n");
}

#[test]
fn exit_codes_are_written_as_std_writes_them() {
    for code in [-1000, -255, -10, -9, 2, 9, 11, 99, 100, 101, 255, 256, 1000, 65535] {
        assert_eq!(failure_entry(Some(code)), format!("Exit {}\n", code));
    }
}
