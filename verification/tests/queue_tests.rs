use orpheusdl_tray::clock::current_stamp;
use orpheusdl_tray::config::Config;
use orpheusdl_tray::logger::LogLevel;
use orpheusdl_tray::queue::{Job, Outcome, Queue, Step};

fn config_with(path: &str, args: &[&str], debug: bool, timeout: u8) -> Config {
    let mut c = Config::defaults();
    c.orpheusdl_path = path.to_string();
    c.orpheusdl_args = args.iter().map(|a| a.to_string()).collect();
    c.debug = debug;
    c.timeout = timeout;
    c
}

fn job(debug: bool) -> Job {
    let q = Queue::new(config_with("/srv/orpheus", &[], debug, 1));
    q.job_for("https://example.com/a".to_string(), "20240131T235959".to_string())
}

#[test]
fn new_queue_is_empty_and_sleeps_for_timeout() {
    let mut q = Queue::new(config_with("p", &[], false, 7));
    assert!(q.items.is_empty());
    match q.next_step() {
        Step::Sleep(secs) => assert_eq!(secs, 7),
        _ => panic!("an empty queue has nothing to run"),
    }
}

fn next_url(q: &mut Queue) -> String {
    match q.next_step() {
        Step::Run(job) => job.url,
        _ => panic!("queue should not be empty"),
    }
}

#[test]
fn oldest_url_is_processed_first() {
    let mut q = Queue::new(config_with("/odl", &[], false, 1));
    q.append("a".to_string());
    q.append("b".to_string());
    assert_eq!(q.items, vec!["a".to_string(), "b".to_string()]);
    match q.next_step() {
        Step::Run(job) => {
            assert_eq!(job.url, "a");
            assert_eq!(job.program, "python");
            assert_eq!(job.directory, "/odl");
            assert_eq!(job.args, vec!["orpheus.py".to_string(), "a".to_string()]);
        }
        _ => panic!("queue should not be empty"),
    }
    // while the first job runs, only the second URL waits
    assert_eq!(q.items, vec!["b".to_string()]);
    assert_eq!(next_url(&mut q), "b");
    assert!(matches!(q.next_step(), Step::Sleep(1)));
}

#[test]
fn later_arrivals_do_not_overtake() {
    let mut q = Queue::new(config_with("p", &[], false, 1));
    q.append("u1".to_string());
    q.append("u2".to_string());
    assert_eq!(next_url(&mut q), "u1");
    q.append("u3".to_string());
    q.append("u4".to_string());
    assert_eq!(next_url(&mut q), "u2");
    q.append("u5".to_string());
    assert_eq!(next_url(&mut q), "u3");
    assert_eq!(next_url(&mut q), "u4");
    assert_eq!(next_url(&mut q), "u5");
    assert!(matches!(q.next_step(), Step::Sleep(1)));
}

#[test]
fn job_stamp_is_a_compact_timestamp() {
    let mut q = Queue::new(config_with("p", &[], false, 1));
    q.append("u".to_string());
    match q.next_step() {
        Step::Run(job) => {
            assert_eq!(job.stamp.len(), 15);
            assert_eq!(job.stamp.as_bytes()[8], b'T');
            assert!(job
                .stamp
                .chars()
                .enumerate()
                .all(|(i, c)| if i == 8 { c == 'T' } else { c.is_ascii_digit() }));
        }
        _ => panic!("queue should not be empty"),
    }
}

#[test]
fn job_runs_orpheus_with_extra_arguments() {
    let mut q = Queue::new(config_with("/srv/orpheus", &["--flag", "v"], true, 1));
    q.append("https://tidal.com/x".to_string());
    match q.next_step() {
        Step::Run(job) => {
            assert_eq!(job.program, "python");
            assert_eq!(job.directory, "/srv/orpheus");
            assert_eq!(
                job.args,
                vec!["orpheus.py", "https://tidal.com/x", "--flag", "v"]
                    .into_iter()
                    .map(String::from)
                    .collect::<Vec<_>>()
            );
            assert!(job.debug);
            assert!(!job.stamp.is_empty());
        }
        _ => panic!("queue should not be empty"),
    }
    assert!(q.items.is_empty());
}

#[test]
fn take_next_on_empty_queue() {
    let mut q = Queue::new(config_with("p", &[], false, 1));
    assert_eq!(q.take_next(), None);
    q.append("u".to_string());
    q.append("v".to_string());
    assert_eq!(q.take_next(), Some("u".to_string()));
    assert_eq!(q.take_next(), Some("v".to_string()));
    assert_eq!(q.take_next(), None);
}

#[test]
fn success_in_debug_mode_keeps_stdout() {
    let f = job(true).follow_up(Outcome::Finished {
        success: true,
        stdout: b"done".to_vec(),
        stderr: b"warn".to_vec(),
    });
    assert_eq!(f.level, LogLevel::Info);
    assert_eq!(f.message, "Processed task https://example.com/a");
    let file = f.log_file.expect("debug mode keeps the output");
    assert_eq!(file.name, "20240131T235959.debug.log");
    assert_eq!(file.contents, b"done".to_vec());
}

#[test]
fn success_without_debug_writes_nothing() {
    let f = job(false).follow_up(Outcome::Finished {
        success: true,
        stdout: b"done".to_vec(),
        stderr: Vec::new(),
    });
    assert_eq!(f.level, LogLevel::Info);
    assert!(f.log_file.is_none());
}

#[test]
fn failure_always_keeps_stderr() {
    for debug in [false, true] {
        let f = job(debug).follow_up(Outcome::Finished {
            success: false,
            stdout: b"out".to_vec(),
            stderr: b"trace".to_vec(),
        });
        assert_eq!(f.level, LogLevel::Error);
        assert_eq!(f.message, "Failed to process task https://example.com/a");
        let file = f.log_file.expect("failures keep standard error");
        assert_eq!(file.name, "20240131T235959.error.log");
        assert_eq!(file.contents, b"trace".to_vec());
    }
}

#[test]
fn failure_to_start_is_logged() {
    let f = job(true).follow_up(Outcome::NotStarted {
        reason: "NotFound".to_string(),
    });
    assert_eq!(f.level, LogLevel::Error);
    assert_eq!(f.message, "Failed to run orpheusdl NotFound");
    assert!(f.log_file.is_none());
}

#[test]
fn current_stamp_has_the_compact_shape() {
    let stamp = current_stamp().expect("the clock reads after 1970");
    assert_eq!(stamp.len(), 15);
    assert_eq!(&stamp[8..9], "T");
    assert!(stamp.starts_with("20"));
}

#[test]
fn step_uses_the_given_stamp() {
    let mut q = Queue::new(config_with("/odl", &[], true, 3));
    assert!(matches!(q.step_with_stamp(None), Step::Sleep(3)));
    assert!(matches!(
        q.step_with_stamp(Some("20240131T235959".to_string())),
        Step::Sleep(3)
    ));
    q.append("a".to_string());
    q.append("b".to_string());
    assert!(matches!(q.step_with_stamp(None), Step::ClockUnavailable));
    assert_eq!(q.items, vec!["a".to_string(), "b".to_string()]);
    match q.step_with_stamp(Some("20240131T235959".to_string())) {
        Step::Run(job) => {
            assert_eq!(job.url, "a");
            assert_eq!(job.stamp, "20240131T235959");
        }
        _ => panic!("a stamp and a waiting URL give a job"),
    }
    assert_eq!(q.items, vec!["b".to_string()]);
}
