//! The runtime's settings and its builder.
//!
//! The builder fills in the defaults for whatever the caller did not
//! choose: one default executor, no reserved cores, and a main runtime
//! thread that is not pinned.

use vstd::prelude::*;
use vstd::string::*;

use crate::config::{default_exec_thread_view, exec_config_for_cores, is_per_core_view, ExecConfig, ExecThreadConfigView};

verus! {

/// Errors of the runtime.
#[derive(Debug, PartialEq, Eq)]
pub enum RuntimeError {
    /// An internal error, with its message.
    Internal(String),
}

/// A field of the builder that was left unset.
#[derive(Debug, PartialEq, Eq)]
pub enum BuilderError {
    UninitializedField(String),
}

/// The message of the error that refuses I/O without I/O support.
pub open spec fn io_disabled_message() -> Seq<char> {
    "IO feature is not currently enabled"@
}

/// Refuses I/O operations when the runtime was built without I/O support.
pub fn check_io(io_enabled: bool) -> (r: Result<(), RuntimeError>)
    ensures
        io_enabled <==> r is Ok,
        match r {
            Err(RuntimeError::Internal(msg)) => msg@ == io_disabled_message(),
            _ => true,
        },
{
    if !io_enabled {
        Err(RuntimeError::Internal(String::from_str("IO feature is not currently enabled")))
    } else {
        Ok(())
    }
}

/// What an [`ImputioRuntime`] is built with.
pub struct RuntimeView {
    pub cfg: Seq<ExecThreadConfigView>,
    pub reserved_core_ids: Seq<usize>,
    pub runtime_core: Option<usize>,
}

/// The settings of a runtime: its executors, the cores it keeps free, and
/// the core its main thread is pinned to.
#[derive(Debug)]
pub struct ImputioRuntime {
    reserved_core_ids: Vec<usize>,
    runtime_core: Option<usize>,
    cfg: ExecConfig,
}

impl View for ImputioRuntime {
    type V = RuntimeView;

    closed spec fn view(&self) -> RuntimeView {
        RuntimeView {
            cfg: self.cfg@,
            reserved_core_ids: self.reserved_core_ids@,
            runtime_core: self.runtime_core,
        }
    }
}

/// What the caller is to do to run a runtime.
#[derive(Debug)]
pub enum RunPlan {
    /// The runtime already runs: only hand out the shutdown sender.
    AlreadyRunning,
    /// Pin the main thread (if a core is given), start the executors
    /// configured, and start polling them.
    Start { pin_core: Option<usize>, cfg: ExecConfig },
}

impl ImputioRuntime {
    /// A builder whose executor configuration is the default one.
    pub fn builder() -> (b: ImputioRuntimeBuilder)
        ensures
            b@.cfg matches Some(c) && c.len() == 1 && default_exec_thread_view(c[0]),
            b@.reserved_core_ids is None,
            b@.runtime_core is None,
    {
        ImputioRuntimeBuilder::default().with_exec_config(ExecConfig::default())
    }

    /// A runtime with the default settings.
    pub fn new() -> (rt: Self)
        ensures
            rt@.cfg.len() == 1,
            default_exec_thread_view(rt@.cfg[0]),
            rt@.reserved_core_ids.len() == 0,
            rt@.runtime_core is None,
    {
        let mut b = ImputioRuntime::builder();
        b.build().unwrap()
    }

    /// The executors the runtime starts.
    pub fn cfg(&self) -> (c: &ExecConfig)
        ensures
            c@ == self@.cfg,
    {
        &self.cfg
    }

    /// The cores the runtime keeps free.
    pub fn reserved_core_ids(&self) -> (v: &Vec<usize>)
        ensures
            v@ == self@.reserved_core_ids,
    {
        &self.reserved_core_ids
    }

    /// The core the main runtime thread is pinned to, if any.
    pub fn runtime_core(&self) -> (c: Option<usize>)
        ensures
            c == self@.runtime_core,
    {
        self.runtime_core
    }

    /// What running the runtime takes: nothing if it already runs;
    /// otherwise pinning the main thread to its core, if one is set, and
    /// starting the configured executors.
    pub fn run_plan(&self, already_running: bool) -> (plan: RunPlan)
        ensures
            already_running ==> plan is AlreadyRunning,
            !already_running ==> match plan {
                RunPlan::Start { pin_core, cfg } => pin_core == self@.runtime_core && cfg@
                    == self@.cfg,
                RunPlan::AlreadyRunning => false,
            },
    {
        if already_running {
            RunPlan::AlreadyRunning
        } else {
            RunPlan::Start { pin_core: self.runtime_core, cfg: self.cfg.clone() }
        }
    }
}

/// What an [`ImputioRuntimeBuilder`] holds.
pub struct BuilderView {
    pub cfg: Option<Seq<ExecThreadConfigView>>,
    pub reserved_core_ids: Option<Seq<usize>>,
    pub runtime_core: Option<Option<usize>>,
}

/// Builder of an [`ImputioRuntime`]: each setting is either chosen or left
/// to its default.
#[derive(Debug)]
pub struct ImputioRuntimeBuilder {
    reserved_core_ids: Option<Vec<usize>>,
    runtime_core: Option<Option<usize>>,
    cfg: Option<ExecConfig>,
}

impl View for ImputioRuntimeBuilder {
    type V = BuilderView;

    closed spec fn view(&self) -> BuilderView {
        BuilderView {
            cfg: match self.cfg {
                Some(c) => Some(c@),
                None => None,
            },
            reserved_core_ids: match self.reserved_core_ids {
                Some(v) => Some(v@),
                None => None,
            },
            runtime_core: self.runtime_core,
        }
    }
}

impl Default for ImputioRuntimeBuilder {
    fn default() -> (b: Self)
        ensures
            b@.cfg is None,
            b@.reserved_core_ids is None,
            b@.runtime_core is None,
    {
        ImputioRuntimeBuilder { reserved_core_ids: None, runtime_core: None, cfg: None }
    }
}

/// `c` is the configuration of an executor (and its poller) pinned to some
/// core.
pub open spec fn is_pinned_view(c: ExecThreadConfigView) -> bool {
    exists|core: usize| is_per_core_view(c, core)
}

/// `core_affinity::get_core_ids`: the ids of the cores this process may
/// run on, as the operating system reports them; `None` when it cannot
/// tell.  The ids come in ascending order.
#[verifier::external_body]
fn available_core_ids() -> (ids: Option<Vec<usize>>)
    ensures
        ids matches Some(v) ==> forall|i: int, j: int| 0 <= i < j < v@.len() ==> v@[i] < v@[j],
{
    core_affinity::get_core_ids().map(|ids| ids.into_iter().map(|c| c.id).collect())
}

impl ImputioRuntimeBuilder {
    /// Fills in the defaults of every unset setting and builds the runtime:
    /// one default executor, no reserved core, an unpinned main thread.
    pub fn build(&mut self) -> (r: Result<ImputioRuntime, RuntimeError>)
        ensures
            final(self)@.cfg is Some,
            old(self)@.cfg is Some ==> final(self)@.cfg == old(self)@.cfg,
            old(self)@.cfg is None ==> (final(self)@.cfg matches Some(c) && c.len() == 1
                && default_exec_thread_view(c[0])),
            final(self)@.reserved_core_ids == Some(
                match old(self)@.reserved_core_ids {
                    Some(v) => v,
                    None => Seq::<usize>::empty(),
                },
            ),
            final(self)@.runtime_core == Some(
                match old(self)@.runtime_core {
                    Some(c) => c,
                    None => None,
                },
            ),
            r matches Ok(rt) && rt@.cfg == final(self)@.cfg->0 && rt@.reserved_core_ids
                == final(self)@.reserved_core_ids->0 && rt@.runtime_core
                == final(self)@.runtime_core->0,
    {
        if self.cfg.is_none() {
            self.cfg = Some(ExecConfig::default());
        }
        if self.reserved_core_ids.is_none() {
            self.reserved_core_ids = Some(Vec::new());
        }
        if self.runtime_core.is_none() {
            self.runtime_core = Some(None);
        }
        match self.build_impl() {
            Ok(rt) => Ok(rt),
            Err(_) => Err(
                RuntimeError::Internal(String::from_str("Invalid runtime builder args")),
            ),
        }
    }

    /// Builds the runtime from the settings as they are; fails on the first
    /// setting that was left unset.
    pub fn build_impl(&self) -> (r: Result<ImputioRuntime, BuilderError>)
        ensures
            match r {
                Ok(rt) => {
                    &&& self@.reserved_core_ids == Some(rt@.reserved_core_ids)
                    &&& self@.runtime_core == Some(rt@.runtime_core)
                    &&& self@.cfg == Some(rt@.cfg)
                },
                Err(BuilderError::UninitializedField(field)) => {
                    ||| self@.reserved_core_ids is None && field@ == "reserved_core_ids"@
                    ||| self@.reserved_core_ids is Some && self@.runtime_core is None && field@
                        == "runtime_core"@
                    ||| self@.reserved_core_ids is Some && self@.runtime_core is Some
                        && self@.cfg is None && field@ == "cfg"@
                },
            },
            r is Ok <==> (self@.reserved_core_ids is Some && self@.runtime_core is Some
                && self@.cfg is Some),
    {
        let reserved_core_ids = match &self.reserved_core_ids {
            Some(v) => v.clone(),
            None => {
                return Err(
                    BuilderError::UninitializedField(String::from_str("reserved_core_ids")),
                )
            },
        };
        let runtime_core = match self.runtime_core {
            Some(c) => c,
            None => {
                return Err(BuilderError::UninitializedField(String::from_str("runtime_core")))
            },
        };
        let cfg = match &self.cfg {
            Some(c) => c.clone(),
            None => { return Err(BuilderError::UninitializedField(String::from_str("cfg"))) },
        };
        Ok(ImputioRuntime { reserved_core_ids, runtime_core, cfg })
    }

    /// Sets the executor configuration: which executor threads run, with
    /// which names, stack sizes and cores.
    pub fn with_exec_config(self, cfg: ExecConfig) -> (b: Self)
        ensures
            b@ == (BuilderView { cfg: Some(cfg@), ..self@ }),
    {
        ImputioRuntimeBuilder { cfg: Some(cfg), ..self }
    }

    /// Uses the given cores with one executor (and its I/O poller) pinned
    /// to each; with no core, the default executor configuration.
    pub fn with_executor_per_core(self, cores: &Vec<usize>) -> (b: Self)
        ensures
            b@.reserved_core_ids == self@.reserved_core_ids,
            b@.runtime_core == self@.runtime_core,
            b@.cfg matches Some(c) && (cores@.len() == 0 ==> c.len() == 1
                && default_exec_thread_view(c[0])) && (cores@.len() > 0 ==> c.len()
                == cores@.len() && forall|j: int|
                0 <= j < cores@.len() ==> is_per_core_view(#[trigger] c[j], cores@[j])),
    {
        ImputioRuntimeBuilder { cfg: Some(exec_config_for_cores(cores)), ..self }
    }

    /// Uses every core available to the process with one executor (and
    /// its I/O poller) pinned to each; when none can be found, the default
    /// executor configuration.
    pub fn use_all_available_cores_with_executor_per_core(self) -> (b: Self)
        ensures
            b@.reserved_core_ids == self@.reserved_core_ids,
            b@.runtime_core == self@.runtime_core,
            b@.cfg matches Some(c) && ((c.len() == 1 && default_exec_thread_view(c[0])) || (
            c.len() > 0 && forall|j: int|
                0 <= j < c.len() ==> is_pinned_view(#[trigger] c[j]))),
    {
        let cores = match available_core_ids() {
            Some(v) => v,
            None => Vec::new(),
        };
        let b = self.with_executor_per_core(&cores);
        proof {
            if cores@.len() > 0 {
                let c = b@.cfg->0;
                assert forall|j: int| 0 <= j < c.len() implies is_pinned_view(#[trigger] c[j]) by {
                    let core = cores@[j];
                    assert(is_per_core_view(c[j], core));
                }
                assert(c.len() > 0);
            } else {
                assert(b@.cfg->0.len() == 1);
            }
        }
        b
    }

    /// Keeps the given cores free of the runtime's threads.
    pub fn with_reserved_cores(self, reserved: Vec<usize>) -> (b: Self)
        ensures
            b@ == (BuilderView { reserved_core_ids: Some(reserved@), ..self@ }),
    {
        ImputioRuntimeBuilder { reserved_core_ids: Some(reserved), ..self }
    }

    /// Pins the main runtime thread to a core.
    pub fn pin_main_runtime_to_core(self, runtime_core: usize) -> (b: Self)
        ensures
            b@ == (BuilderView { runtime_core: Some(Some(runtime_core)), ..self@ }),
    {
        ImputioRuntimeBuilder { runtime_core: Some(Some(runtime_core)), ..self }
    }
}

} // verus!
