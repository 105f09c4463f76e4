use imputio::runtime::{check_io, BuilderError, RunPlan};
use imputio::{ExecConfig, ExecThreadConfig, ImputioRuntime, ImputioRuntimeBuilder, RuntimeError};

#[test]
fn builder_fills_in_defaults() {
    let rt = ImputioRuntimeBuilder::default().build().expect("Expected to succeed build");
    assert_eq!(rt.cfg().thread_configs_ref().len(), 1);
    assert!(rt.reserved_core_ids().is_empty());
    assert_eq!(rt.runtime_core(), None);
}

#[test]
fn build_impl_needs_every_setting() {
    let err = ImputioRuntimeBuilder::default().build_impl().expect_err("Expected to fail build");
    assert_eq!(err, BuilderError::UninitializedField("reserved_core_ids".to_string()));
    let err = ImputioRuntimeBuilder::default()
        .with_reserved_cores(vec![])
        .build_impl()
        .expect_err("Expected to fail build");
    assert_eq!(err, BuilderError::UninitializedField("runtime_core".to_string()));
    let err = ImputioRuntimeBuilder::default()
        .with_reserved_cores(vec![])
        .pin_main_runtime_to_core(0)
        .build_impl()
        .expect_err("Expected to fail build");
    assert_eq!(err, BuilderError::UninitializedField("cfg".to_string()));
    let mut b = ImputioRuntimeBuilder::default();
    b.build().expect("Expected to succeed build");
    assert!(b.build_impl().is_ok());
}

#[test]
fn builder_keeps_chosen_settings() {
    let cfg = ExecConfig::default().with_cfg(vec![
        ExecThreadConfig::default().with_name("a".to_string()),
        ExecThreadConfig::default().with_name("b".to_string()),
    ]);
    let rt = ImputioRuntime::builder()
        .with_exec_config(cfg)
        .with_reserved_cores(vec![0, 1])
        .pin_main_runtime_to_core(3)
        .build()
        .expect("Expected to succeed build");
    assert_eq!(rt.cfg().thread_configs_ref().len(), 2);
    assert_eq!(rt.cfg().thread_configs_ref()[1].thread_cfg().thread_name(), "b");
    assert_eq!(rt.reserved_core_ids(), &vec![0, 1]);
    assert_eq!(rt.runtime_core(), Some(3));
}

#[test]
fn builder_with_executor_per_core() {
    let rt = ImputioRuntimeBuilder::default()
        .with_executor_per_core(&vec![2, 3])
        .build()
        .expect("Expected to succeed build");
    let v = rt.cfg().thread_configs_ref();
    assert_eq!(v.len(), 2);
    assert_eq!(v[0].thread_cfg().thread_name(), "imputio-exec-2");
    assert_eq!(v[1].poll_thread_cfg().thread_cfg().core_id(), Some(3));
}

#[test]
fn all_available_cores_gives_a_config() {
    let rt = ImputioRuntimeBuilder::default()
        .use_all_available_cores_with_executor_per_core()
        .build()
        .expect("Expected to succeed build");
    assert!(!rt.cfg().is_empty());
}

#[test]
fn new_runtime_has_defaults() {
    let rt = ImputioRuntime::new();
    assert_eq!(rt.cfg().thread_configs_ref()[0].thread_cfg().thread_name(), "imputio-exec-thread");
    assert_eq!(rt.runtime_core(), None);
}

#[test]
fn run_plan_runs_only_once() {
    let rt = ImputioRuntimeBuilder::default().pin_main_runtime_to_core(1).build().unwrap();
    assert!(matches!(rt.run_plan(true), RunPlan::AlreadyRunning));
    match rt.run_plan(false) {
        RunPlan::Start { pin_core, cfg } => {
            assert_eq!(pin_core, Some(1));
            assert_eq!(cfg.thread_configs_ref().len(), 1);
        }
        RunPlan::AlreadyRunning => panic!("expected a start plan"),
    }
}

#[test]
fn io_is_refused_without_io_support() {
    assert_eq!(check_io(true), Ok(()));
    assert_eq!(
        check_io(false),
        Err(RuntimeError::Internal("IO feature is not currently enabled".to_string()))
    );
}

#[test]
fn test_builder() {
    let _rt = ImputioRuntimeBuilder::default()
        .build()
        .expect("Expected to succeed build");

    // build_impl() needs every setting to be given
    let _err = ImputioRuntimeBuilder::default()
        .build_impl()
        .expect_err("Expected to fail build");

    // building through the runtime's own builder
    let _rt = ImputioRuntime::builder()
        .build()
        .expect("Expected to succeed build");
}
