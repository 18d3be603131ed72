use mqtt_bench::barrier::Barrier;
use mqtt_bench::bench::{start, Session};
use mqtt_bench::Config;

fn layout(connections: usize, sink: usize) -> Config {
    Config {
        server: String::from("localhost"),
        port: 1883,
        ca_file: None,
        client_cert: None,
        client_key: None,
        connections,
        sink,
        publishers: 1,
        subscribers: 1,
        count: 1,
        payload_size: 1,
        qos: 1,
        keep_alive: 10,
        max_inflight: 100,
        conn_timeout: 5,
        delay: 0,
    }
}

#[test]
fn run_has_one_barrier_for_all_sessions() {
    let config = layout(3, 2);
    let run = start(&config, "hello/+/+/world");
    assert_eq!(run.barrier, Barrier::new(5));
    assert_eq!(run.sessions.len(), 5);
}

#[test]
fn run_lists_ordinary_sessions_before_sinks() {
    let config = layout(3, 2);
    let run = start(&config, "hello/+/+/world");
    let topic = Some(String::from("hello/+/+/world"));
    assert_eq!(
        run.sessions,
        vec![
            Session { id: 0, sink: None },
            Session { id: 1, sink: None },
            Session { id: 2, sink: None },
            Session { id: 0, sink: topic.clone() },
            Session { id: 1, sink: topic },
        ]
    );
}

#[test]
fn run_without_sinks() {
    let config = layout(2, 0);
    let run = start(&config, "unused");
    assert_eq!(run.barrier, Barrier::new(2));
    assert_eq!(run.sessions.len(), 2);
    assert!(run.sessions.iter().all(|session| session.sink.is_none()));
}

#[test]
fn run_of_sinks_alone() {
    let config = layout(0, 1);
    let run = start(&config, "all");
    assert_eq!(run.barrier, Barrier::new(1));
    assert_eq!(run.sessions.len(), 1);
    assert_eq!(run.sessions[0], Session { id: 0, sink: Some(String::from("all")) });
}

#[test]
fn empty_run() {
    let config = layout(0, 0);
    let run = start(&config, "all");
    assert!(run.barrier.is_released());
    assert!(run.sessions.is_empty());
}

#[test]
fn barrier_of_a_run_opens_when_every_session_has_arrived() {
    let config = layout(3, 1);
    let mut run = start(&config, "all");
    let mut released = Vec::new();
    for _ in &run.sessions {
        released.push(run.barrier.arrive());
    }
    assert_eq!(released, vec![false, false, false, true]);
}
