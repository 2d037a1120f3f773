use app_bootstrap::arguments::Arguments;
use app_bootstrap::commands::get_input_path;
use app_bootstrap::startup::{begin, resume, Step};
use app_bootstrap::status::PathStatus;

fn launch(items: &[&str]) -> Arguments {
    Arguments::new(items.iter().map(|s| s.to_string()).collect())
}

/// Walks the steps as a host program would, answering every probe with
/// `status`, and reports the probes made and whether the run loop was reached.
fn walk(args: &Arguments, status: PathStatus) -> (Vec<String>, bool) {
    let mut probed = Vec::new();
    let mut step = begin(args);
    loop {
        match step {
            Step::Probe(path) => {
                probed.push(path);
                step = resume(status);
            }
            Step::Run => return (probed, true),
            Step::Abort => return (probed, false),
        }
    }
}

#[test]
fn begin_probes_the_input_path() {
    let args = launch(&["viewer", "/tmp/notes.md"]);
    assert_eq!(begin(&args), Step::Probe("/tmp/notes.md".to_string()));
}

#[test]
fn begin_runs_at_once_without_an_input_path() {
    assert_eq!(begin(&launch(&["viewer"])), Step::Run);
    assert_eq!(begin(&launch(&[])), Step::Run);
}

#[test]
fn resume_runs_when_the_path_exists() {
    assert_eq!(resume(PathStatus::File), Step::Run);
    assert_eq!(resume(PathStatus::Directory), Step::Run);
}

#[test]
fn resume_aborts_when_the_path_is_missing() {
    assert_eq!(resume(PathStatus::Missing), Step::Abort);
}

#[test]
fn path_status_exists_unless_missing() {
    assert!(PathStatus::File.is_present());
    assert!(PathStatus::Directory.is_present());
    assert!(!PathStatus::Missing.is_present());
}

#[test]
fn launch_with_an_existing_input_starts_and_serves_the_path() {
    let args = launch(&["viewer", "/tmp/notes.md"]);
    let (probed, running) = walk(&args, PathStatus::File);
    assert_eq!(probed, vec!["/tmp/notes.md".to_string()]);
    assert!(running);
    assert_eq!(
        get_input_path(&args, PathStatus::File),
        Ok(Some("/tmp/notes.md".to_string()))
    );
}

#[test]
fn launch_with_a_missing_input_never_runs() {
    let args = launch(&["viewer", "/no/such/file"]);
    let (probed, running) = walk(&args, PathStatus::Missing);
    assert_eq!(probed, vec!["/no/such/file".to_string()]);
    assert!(!running);
    assert!(get_input_path(&args, PathStatus::Missing).is_err());
}

#[test]
fn launch_without_an_input_validates_nothing() {
    let args = launch(&["viewer"]);
    let (probed, running) = walk(&args, PathStatus::Missing);
    assert!(probed.is_empty());
    assert!(running);
    assert_eq!(get_input_path(&args, PathStatus::Missing), Ok(None));
}

#[test]
fn run_loop_is_reached_exactly_when_the_input_path_command_answers() {
    let lists: [&[&str]; 4] = [&[], &["viewer"], &["viewer", "a"], &["viewer", "a", "b"]];
    let statuses = [PathStatus::Missing, PathStatus::File, PathStatus::Directory];
    for items in lists {
        let args = launch(items);
        for status in statuses {
            let (_, running) = walk(&args, status);
            assert_eq!(running, get_input_path(&args, status).is_ok());
        }
    }
}
