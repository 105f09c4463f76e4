use imputio::config::{append_decimal, exec_config_for_cores, DEFAULT_STACK_SIZE};
use imputio::{ExecConfig, ExecThreadConfig, PollThreadConfig, PollerCfg, ThreadConfig};

#[test]
fn thread_config_defaults() {
    let c = ThreadConfig::default();
    assert_eq!(c.thread_name(), "imputio-thread");
    assert_eq!(c.stack_size(), 65535);
    assert_eq!(c.stack_size(), DEFAULT_STACK_SIZE);
    assert_eq!(c.core_id(), None);
}

#[test]
fn thread_config_builders() {
    let c = ThreadConfig::default()
        .with_name("worker".to_string())
        .with_core_affinity(3)
        .with_stack_size(4096);
    assert_eq!(c.thread_name(), "worker");
    assert_eq!(c.core_id(), Some(3));
    assert_eq!(c.stack_size(), 4096);
}

#[test]
fn poller_cfg_default_event_size() {
    assert_eq!(PollerCfg::default().event_size(), 256);
    assert_eq!(PollerCfg::with_event_size(8).event_size(), 8);
}

#[test]
fn poll_thread_config_defaults_and_builders() {
    let c = PollThreadConfig::default();
    assert_eq!(c.thread_cfg().thread_name(), "imputio-io-actor-thread");
    assert_eq!(c.thread_cfg().stack_size(), 65535);
    assert_eq!(c.poll_cfg().event_size(), 256);
    let c = c
        .with_name("io".to_string())
        .with_core_affinity(1)
        .with_stack_size(10)
        .with_poll_thread_cfg(PollerCfg::with_event_size(32));
    assert_eq!(c.thread_cfg().thread_name(), "io");
    assert_eq!(c.thread_cfg().core_id(), Some(1));
    assert_eq!(c.thread_cfg().stack_size(), 10);
    assert_eq!(c.poll_cfg().event_size(), 32);
}

#[test]
fn exec_thread_config_defaults_and_builders() {
    let c = ExecThreadConfig::default();
    assert_eq!(c.thread_cfg().thread_name(), "imputio-exec-thread");
    assert_eq!(c.poll_thread_cfg().thread_cfg().thread_name(), "imputio-io-actor-thread");
    let c = c
        .with_name("exec".to_string())
        .with_core_affinity(2)
        .with_stack_size(20)
        .with_poll_thread_cfg(PollThreadConfig::default().with_name("p".to_string()));
    assert_eq!(c.thread_cfg().thread_name(), "exec");
    assert_eq!(c.thread_cfg().core_id(), Some(2));
    assert_eq!(c.thread_cfg().stack_size(), 20);
    assert_eq!(c.poll_thread_cfg().thread_cfg().thread_name(), "p");
}

#[test]
fn exec_config_default_has_one_executor() {
    let c = ExecConfig::default();
    assert!(!c.is_empty());
    assert_eq!(c.thread_configs_ref().len(), 1);
    let c = c.with_cfg(vec![]);
    assert!(c.is_empty());
    let c = ExecConfig::default().with_cfg(vec![ExecThreadConfig::default(), ExecThreadConfig::default()]);
    assert_eq!(c.thread_configs().len(), 2);
}

#[test]
fn decimal_names() {
    assert_eq!(append_decimal("x-".to_string(), 0), "x-0");
    assert_eq!(append_decimal("x-".to_string(), 7), "x-7");
    assert_eq!(append_decimal("x-".to_string(), 10), "x-10");
    assert_eq!(append_decimal(String::new(), 1203), "1203");
    assert_eq!(append_decimal(String::new(), usize::MAX), usize::MAX.to_string());
}

#[test]
fn one_executor_per_core() {
    let c = exec_config_for_cores(&vec![0, 5, 12]);
    let v = c.thread_configs();
    assert_eq!(v.len(), 3);
    assert_eq!(v[1].thread_cfg().thread_name(), "imputio-exec-5");
    assert_eq!(v[1].thread_cfg().core_id(), Some(5));
    assert_eq!(v[1].poll_thread_cfg().thread_cfg().thread_name(), "imputio-io-5");
    assert_eq!(v[1].poll_thread_cfg().thread_cfg().core_id(), Some(5));
    assert_eq!(v[2].thread_cfg().thread_name(), "imputio-exec-12");
    assert_eq!(v[0].poll_thread_cfg().thread_cfg().thread_name(), "imputio-io-0");
}

#[test]
fn no_cores_gives_default_config() {
    let c = exec_config_for_cores(&vec![]);
    let v = c.thread_configs();
    assert_eq!(v.len(), 1);
    assert_eq!(v[0].thread_cfg().thread_name(), "imputio-exec-thread");
    assert_eq!(v[0].thread_cfg().core_id(), None);
}
