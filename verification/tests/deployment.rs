use sprinkler_api::{
    agent_retry_pause, monitor_step, select_agents, MonitorEvent, MonitorStep, SprinklerBuilder, SprinklerOptions,
    COMMCHK,
};

#[test]
fn default_options() {
    let o = SprinklerOptions::default();
    assert_eq!(o.heart_beat, 3);
    assert_eq!(o.retry_delay, 20);
    assert_eq!(o.master_addr, "localhost");
    assert_eq!(o._id, 0);
    assert_eq!(o._hostname, "localhost");
}

#[test]
fn builder_hands_out_consecutive_ids() {
    let mut b = SprinklerBuilder::new(SprinklerOptions {
        heart_beat: 5,
        retry_delay: 7,
        master_addr: String::from("master:3777"),
        _id: 99,
        _hostname: String::from("ignored"),
    });
    let first = b.next_options(String::from("alpha"));
    let second = b.next_options(String::from("beta"));
    assert_eq!(first._id, 0);
    assert_eq!(first._hostname, "alpha");
    assert_eq!(second._id, 1);
    assert_eq!(second._hostname, "beta");
    for o in [first, second].iter() {
        assert_eq!(o.heart_beat, 5);
        assert_eq!(o.retry_delay, 7);
        assert_eq!(o.master_addr, "master:3777");
    }
}

#[test]
fn agents_are_selected_by_hostname() {
    let hosts = vec![
        String::from("a"),
        String::from("b"),
        String::from("a"),
        String::from("c"),
    ];
    assert_eq!(select_agents(&hosts, &String::from("a")), vec![0, 2]);
    assert_eq!(select_agents(&hosts, &String::from("c")), vec![3]);
    assert_eq!(select_agents(&hosts, &String::from("d")), Vec::<usize>::new());
    assert_eq!(select_agents(&Vec::new(), &String::from("a")), Vec::<usize>::new());
}

#[test]
fn heartbeat_brings_agent_online() {
    let s = monitor_step(false, &MonitorEvent::Received(String::from(COMMCHK)), 3);
    assert_eq!(s, MonitorStep { online: true, changed: true, delayed: false });
    let s = monitor_step(true, &MonitorEvent::Received(String::from("COMMCHK")), 3);
    assert_eq!(s, MonitorStep { online: true, changed: false, delayed: false });
}

#[test]
fn other_message_takes_agent_offline() {
    let s = monitor_step(true, &MonitorEvent::Received(String::from("hello")), 3);
    assert_eq!(s, MonitorStep { online: false, changed: true, delayed: false });
    let s = monitor_step(false, &MonitorEvent::Received(String::from("COMMCHK ")), 3);
    assert_eq!(s, MonitorStep { online: false, changed: false, delayed: false });
}

#[test]
fn silence_within_tolerance_keeps_agent_online() {
    let s = monitor_step(true, &MonitorEvent::Silent { elapsed_ms: 4_999 }, 3);
    assert_eq!(s, MonitorStep { online: true, changed: false, delayed: true });
    let s = monitor_step(true, &MonitorEvent::Silent { elapsed_ms: -10 }, 3);
    assert_eq!(s, MonitorStep { online: true, changed: false, delayed: true });
}

#[test]
fn silence_beyond_tolerance_takes_agent_offline() {
    let s = monitor_step(true, &MonitorEvent::Silent { elapsed_ms: 5_000 }, 3);
    assert_eq!(s, MonitorStep { online: false, changed: true, delayed: false });
    let s = monitor_step(true, &MonitorEvent::Silent { elapsed_ms: 11_999 }, 10);
    assert_eq!(s, MonitorStep { online: true, changed: false, delayed: true });
}

#[test]
fn silence_keeps_offline_agent_offline() {
    let s = monitor_step(false, &MonitorEvent::Silent { elapsed_ms: 0 }, 3);
    assert_eq!(s, MonitorStep { online: false, changed: false, delayed: false });
}

#[test]
fn builds_get_distinct_consecutive_ids() {
    let mut b = SprinklerBuilder::new(SprinklerOptions::default());
    let ids: Vec<usize> = (0..6).map(|k| b.next_options(format!("h{}", k))._id).collect();
    assert_eq!(ids, vec![0, 1, 2, 3, 4, 5]);
    assert_eq!(b.counter(), 6);
}

#[test]
fn agent_pauses_after_failures_only() {
    let o = SprinklerOptions::default();
    assert_eq!(agent_retry_pause(true, true, &o), None);
    assert_eq!(agent_retry_pause(true, false, &o), Some(20));
    assert_eq!(agent_retry_pause(false, false, &o), Some(20));
}
