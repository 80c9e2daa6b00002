//! Endpoint polling decisions and external program argument lists.

use virtual_lidar::awaiter::{run_awaiter_trace, AwaitStep, EndpointAwaiter};
use virtual_lidar::link::{comchan_args, socat_args, LinkConfig};

#[test]
fn observe_single_steps() {
    // A zero timeout fails without looking at the filesystem.
    let mut aw = EndpointAwaiter::new(0);
    assert_eq!(aw.observe(true), AwaitStep::TimedOut);

    // Success is reported the moment the path is seen.
    let mut aw = EndpointAwaiter::new(1);
    assert_eq!(aw.observe(true), AwaitStep::Found);

    // The last allowed poll that still misses the path times out.
    let mut aw = EndpointAwaiter::new(1);
    for _ in 0..9 {
        assert_eq!(aw.observe(false), AwaitStep::Wait);
    }
    assert_eq!(aw.observe(false), AwaitStep::TimedOut);
    assert_eq!(aw.polls_left, 0);
}

#[test]
fn never_appearing_path_times_out() {
    let states = vec![false; 50];
    assert_eq!(run_awaiter_trace(&states, 5), None);
}

#[test]
fn path_created_after_two_intervals_is_found() {
    // The path appears 200 ms after polling starts: polls at 0 and 100 ms
    // miss it, the poll at 200 ms sees it.
    let mut states = vec![true; 50];
    states[0] = false;
    states[1] = false;
    assert_eq!(run_awaiter_trace(&states, 5), Some(2));
}

#[test]
fn path_present_at_once_is_found_immediately() {
    let states = vec![true; 10];
    assert_eq!(run_awaiter_trace(&states, 1), Some(0));
}

#[test]
fn path_appearing_on_last_poll_is_found() {
    let mut states = vec![false; 10];
    states[9] = true;
    assert_eq!(run_awaiter_trace(&states, 1), Some(9));
}

#[test]
fn default_endpoint_paths() {
    let cfg = LinkConfig::default();
    assert_eq!(cfg.monitor_path, b"/tmp/ttyV0".to_vec());
    assert_eq!(cfg.writer_path, b"/tmp/ttyV1".to_vec());
}

#[test]
fn socat_argument_list() {
    let cfg = LinkConfig::default();
    let args = socat_args(&cfg);
    assert_eq!(args.len(), 4);
    assert_eq!(args[0], b"-d".to_vec());
    assert_eq!(args[1], b"-d".to_vec());
    assert_eq!(args[2], b"pty,raw,echo=0,link=/tmp/ttyV0".to_vec());
    assert_eq!(args[3], b"pty,raw,echo=0,link=/tmp/ttyV1".to_vec());
}

#[test]
fn comchan_argument_list() {
    let port = b"/tmp/ttyV0".to_vec();
    let args = comchan_args(&port, 115200, true);
    assert_eq!(args.len(), 5);
    assert_eq!(args[0], b"--port".to_vec());
    assert_eq!(args[1], b"/tmp/ttyV0".to_vec());
    assert_eq!(args[2], b"--baud".to_vec());
    assert_eq!(args[3], b"115200".to_vec());
    assert_eq!(args[4], b"--plot".to_vec());

    let args = comchan_args(&port, 9600, false);
    assert_eq!(args.len(), 4);
    assert_eq!(args[3], b"9600".to_vec());
}
