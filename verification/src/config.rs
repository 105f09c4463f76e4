//! Configuration of the runtime's threads: each executor thread, and the
//! I/O poller thread that each executor starts.

use vstd::prelude::*;
use vstd::string::*;

verus! {

/// Configuration of the I/O poller.
#[derive(Clone, Copy, Debug, PartialEq, Eq, Structural)]
pub struct PollerCfg {
    event_size: usize,
}

impl PollerCfg {
    /// How many events one poll can deliver.
    pub closed spec fn spec_event_size(self) -> usize {
        self.event_size
    }

    /// How many events one poll can deliver.
    pub fn event_size(&self) -> (n: usize)
        ensures
            n == self.spec_event_size(),
    {
        self.event_size
    }

    /// A configuration that lets one poll deliver `event_size` events.
    pub fn with_event_size(event_size: usize) -> (c: Self)
        ensures
            c.spec_event_size() == event_size,
    {
        PollerCfg { event_size }
    }
}

impl Default for PollerCfg {
    fn default() -> (c: Self)
        ensures
            c.spec_event_size() == 256,
    {
        PollerCfg { event_size: 256 }
    }
}

/// What a [`ThreadConfig`] holds.
pub struct ThreadConfigView {
    pub thread_name: Seq<char>,
    pub stack_size: usize,
    pub core_id: Option<usize>,
}

/// Name, stack size and core affinity of a thread.
#[derive(Debug)]
pub struct ThreadConfig {
    thread_name: String,
    stack_size: usize,
    core_id: Option<usize>,
}

impl View for ThreadConfig {
    type V = ThreadConfigView;

    closed spec fn view(&self) -> ThreadConfigView {
        ThreadConfigView {
            thread_name: self.thread_name@,
            stack_size: self.stack_size,
            core_id: self.core_id,
        }
    }
}

/// The name every thread gets unless configured otherwise.
pub open spec fn default_thread_name() -> Seq<char> {
    "imputio-thread"@
}

/// The stack size every thread gets unless configured otherwise.
pub const DEFAULT_STACK_SIZE: usize = 65535;

impl Clone for ThreadConfig {
    fn clone(&self) -> (c: Self)
        ensures
            c@ == self@,
    {
        ThreadConfig {
            thread_name: self.thread_name.clone(),
            stack_size: self.stack_size,
            core_id: self.core_id,
        }
    }
}

impl Default for ThreadConfig {
    fn default() -> (c: Self)
        ensures
            c@ == (ThreadConfigView {
                thread_name: default_thread_name(),
                stack_size: DEFAULT_STACK_SIZE,
                core_id: None,
            }),
    {
        ThreadConfig {
            thread_name: String::from_str("imputio-thread"),
            stack_size: DEFAULT_STACK_SIZE,
            core_id: None,
        }
    }
}

impl ThreadConfig {
    /// The thread's name.
    pub fn thread_name(&self) -> (n: &String)
        ensures
            n@ == self@.thread_name,
    {
        &self.thread_name
    }

    /// The thread's stack size.
    pub fn stack_size(&self) -> (n: usize)
        ensures
            n == self@.stack_size,
    {
        self.stack_size
    }

    /// The core the thread is pinned to, if any.
    pub fn core_id(&self) -> (c: Option<usize>)
        ensures
            c == self@.core_id,
    {
        self.core_id
    }

    /// Sets the thread's name.
    pub fn with_name(self, name: String) -> (c: Self)
        ensures
            c@ == (ThreadConfigView { thread_name: name@, ..self@ }),
    {
        ThreadConfig { thread_name: name, ..self }
    }

    /// Pins the thread to a core.
    pub fn with_core_affinity(self, core_id: usize) -> (c: Self)
        ensures
            c@ == (ThreadConfigView { core_id: Some(core_id), ..self@ }),
    {
        ThreadConfig { core_id: Some(core_id), ..self }
    }

    /// Sets the thread's stack size.
    pub fn with_stack_size(self, size: usize) -> (c: Self)
        ensures
            c@ == (ThreadConfigView { stack_size: size, ..self@ }),
    {
        ThreadConfig { stack_size: size, ..self }
    }
}

/// What a [`PollThreadConfig`] holds.
pub struct PollThreadConfigView {
    pub thread: ThreadConfigView,
    pub poll_cfg: PollerCfg,
}

/// Configuration of an I/O poller thread.
#[derive(Debug)]
pub struct PollThreadConfig {
    thread_cfg: ThreadConfig,
    poll_cfg: PollerCfg,
}

impl View for PollThreadConfig {
    type V = PollThreadConfigView;

    closed spec fn view(&self) -> PollThreadConfigView {
        PollThreadConfigView { thread: self.thread_cfg@, poll_cfg: self.poll_cfg }
    }
}

impl Clone for PollThreadConfig {
    fn clone(&self) -> (c: Self)
        ensures
            c@ == self@,
    {
        PollThreadConfig { thread_cfg: self.thread_cfg.clone(), poll_cfg: self.poll_cfg }
    }
}

impl Default for PollThreadConfig {
    fn default() -> (c: Self)
        ensures
            c@.thread == (ThreadConfigView {
                thread_name: "imputio-io-actor-thread"@,
                stack_size: DEFAULT_STACK_SIZE,
                core_id: None,
            }),
            c@.poll_cfg.spec_event_size() == 256,
    {
        PollThreadConfig {
            thread_cfg: ThreadConfig {
                thread_name: String::from_str("imputio-io-actor-thread"),
                ..Default::default()
            },
            poll_cfg: PollerCfg::default(),
        }
    }
}

impl PollThreadConfig {
    /// The poller thread's configuration.
    pub fn thread_cfg(&self) -> (t: &ThreadConfig)
        ensures
            t@ == self@.thread,
    {
        &self.thread_cfg
    }

    /// The poller's configuration.
    pub fn poll_cfg(&self) -> (p: PollerCfg)
        ensures
            p == self@.poll_cfg,
    {
        self.poll_cfg
    }

    /// Sets the poller's configuration.
    pub fn with_poll_thread_cfg(self, poll_cfg: PollerCfg) -> (c: Self)
        ensures
            c@ == (PollThreadConfigView { poll_cfg, ..self@ }),
    {
        PollThreadConfig { poll_cfg, ..self }
    }

    /// Sets the poller thread's name.
    pub fn with_name(self, name: String) -> (c: Self)
        ensures
            c@ == (PollThreadConfigView {
                thread: ThreadConfigView { thread_name: name@, ..self@.thread },
                ..self@
            }),
    {
        PollThreadConfig { thread_cfg: self.thread_cfg.with_name(name), ..self }
    }

    /// Pins the poller thread to a core.
    pub fn with_core_affinity(self, core_id: usize) -> (c: Self)
        ensures
            c@ == (PollThreadConfigView {
                thread: ThreadConfigView { core_id: Some(core_id), ..self@.thread },
                ..self@
            }),
    {
        PollThreadConfig { thread_cfg: self.thread_cfg.with_core_affinity(core_id), ..self }
    }

    /// Sets the poller thread's stack size.
    pub fn with_stack_size(self, size: usize) -> (c: Self)
        ensures
            c@ == (PollThreadConfigView {
                thread: ThreadConfigView { stack_size: size, ..self@.thread },
                ..self@
            }),
    {
        PollThreadConfig { thread_cfg: self.thread_cfg.with_stack_size(size), ..self }
    }
}

/// What an [`ExecThreadConfig`] holds.
pub struct ExecThreadConfigView {
    pub thread: ThreadConfigView,
    pub poll_thread: PollThreadConfigView,
}

/// Configuration of an executor thread and of the poller thread it starts.
#[derive(Debug)]
pub struct ExecThreadConfig {
    thread_cfg: ThreadConfig,
    poll_thread_cfg: PollThreadConfig,
}

impl View for ExecThreadConfig {
    type V = ExecThreadConfigView;

    closed spec fn view(&self) -> ExecThreadConfigView {
        ExecThreadConfigView { thread: self.thread_cfg@, poll_thread: self.poll_thread_cfg@ }
    }
}

impl Clone for ExecThreadConfig {
    fn clone(&self) -> (c: Self)
        ensures
            c@ == self@,
    {
        ExecThreadConfig {
            thread_cfg: self.thread_cfg.clone(),
            poll_thread_cfg: self.poll_thread_cfg.clone(),
        }
    }
}

/// The view of the default executor thread configuration.
pub open spec fn default_exec_thread_view(c: ExecThreadConfigView) -> bool {
    &&& c.thread == (ThreadConfigView {
        thread_name: "imputio-exec-thread"@,
        stack_size: DEFAULT_STACK_SIZE,
        core_id: None,
    })
    &&& c.poll_thread.thread == (ThreadConfigView {
        thread_name: "imputio-io-actor-thread"@,
        stack_size: DEFAULT_STACK_SIZE,
        core_id: None,
    })
    &&& c.poll_thread.poll_cfg.spec_event_size() == 256
}

impl Default for ExecThreadConfig {
    fn default() -> (c: Self)
        ensures
            default_exec_thread_view(c@),
    {
        ExecThreadConfig {
            thread_cfg: ThreadConfig {
                thread_name: String::from_str("imputio-exec-thread"),
                ..Default::default()
            },
            poll_thread_cfg: PollThreadConfig::default(),
        }
    }
}

impl ExecThreadConfig {
    /// The executor thread's configuration.
    pub fn thread_cfg(&self) -> (t: &ThreadConfig)
        ensures
            t@ == self@.thread,
    {
        &self.thread_cfg
    }

    /// The configuration of the executor's poller thread.
    pub fn poll_thread_cfg(&self) -> (p: &PollThreadConfig)
        ensures
            p@ == self@.poll_thread,
    {
        &self.poll_thread_cfg
    }

    /// Sets the configuration of the executor's poller thread.
    pub fn with_poll_thread_cfg(self, poll_cfg: PollThreadConfig) -> (c: Self)
        ensures
            c@ == (ExecThreadConfigView { poll_thread: poll_cfg@, ..self@ }),
    {
        ExecThreadConfig { poll_thread_cfg: poll_cfg, ..self }
    }

    /// Sets the executor thread's name.
    pub fn with_name(self, name: String) -> (c: Self)
        ensures
            c@ == (ExecThreadConfigView {
                thread: ThreadConfigView { thread_name: name@, ..self@.thread },
                ..self@
            }),
    {
        ExecThreadConfig { thread_cfg: self.thread_cfg.with_name(name), ..self }
    }

    /// Pins the executor thread to a core.
    pub fn with_core_affinity(self, core_id: usize) -> (c: Self)
        ensures
            c@ == (ExecThreadConfigView {
                thread: ThreadConfigView { core_id: Some(core_id), ..self@.thread },
                ..self@
            }),
    {
        ExecThreadConfig { thread_cfg: self.thread_cfg.with_core_affinity(core_id), ..self }
    }

    /// Sets the executor thread's stack size.
    pub fn with_stack_size(self, size: usize) -> (c: Self)
        ensures
            c@ == (ExecThreadConfigView {
                thread: ThreadConfigView { stack_size: size, ..self@.thread },
                ..self@
            }),
    {
        ExecThreadConfig { thread_cfg: self.thread_cfg.with_stack_size(size), ..self }
    }
}

/// The executor threads of a runtime, one configuration each.
#[derive(Debug)]
pub struct ExecConfig {
    exec_thread_config: Vec<ExecThreadConfig>,
}

impl View for ExecConfig {
    type V = Seq<ExecThreadConfigView>;

    closed spec fn view(&self) -> Seq<ExecThreadConfigView> {
        self.exec_thread_config@.map_values(|c: ExecThreadConfig| c@)
    }
}

impl Clone for ExecConfig {
    fn clone(&self) -> (c: Self)
        ensures
            c@ == self@,
    {
        let mut v: Vec<ExecThreadConfig> = Vec::new();
        let mut i: usize = 0;
        while i < self.exec_thread_config.len()
            invariant
                i <= self.exec_thread_config@.len(),
                v@.len() == i,
                forall|j: int| 0 <= j < i ==> (#[trigger] v@[j])@ == self.exec_thread_config@[j]@,
            decreases self.exec_thread_config@.len() - i,
        {
            let c = self.exec_thread_config[i].clone();
            v.push(c);
            i = i + 1;
        }
        let r = ExecConfig { exec_thread_config: v };
        assert(r@ =~= self@);
        r
    }
}

impl Default for ExecConfig {
    fn default() -> (c: Self)
        ensures
            c@.len() == 1,
            default_exec_thread_view(c@[0]),
    {
        let mut v: Vec<ExecThreadConfig> = Vec::new();
        v.push(ExecThreadConfig::default());
        ExecConfig { exec_thread_config: v }
    }
}

impl ExecConfig {
    /// Replaces the executor thread configurations.
    pub fn with_cfg(self, exec_thread_config: Vec<ExecThreadConfig>) -> (c: Self)
        ensures
            c@ == exec_thread_config@.map_values(|e: ExecThreadConfig| e@),
    {
        ExecConfig { exec_thread_config }
    }

    /// Whether no executor thread is configured.
    pub fn is_empty(&self) -> (b: bool)
        ensures
            b == (self@.len() == 0),
    {
        self.exec_thread_config.len() == 0
    }

    /// The executor thread configurations, in order.
    pub fn thread_configs(self) -> (v: Vec<ExecThreadConfig>)
        ensures
            v@.map_values(|e: ExecThreadConfig| e@) == self@,
    {
        self.exec_thread_config
    }

    /// The executor thread configurations, in order.
    pub fn thread_configs_ref(&self) -> (v: &Vec<ExecThreadConfig>)
        ensures
            v@.map_values(|e: ExecThreadConfig| e@) == self@,
    {
        &self.exec_thread_config
    }
}

/// The character of a decimal digit.
pub open spec fn digit_char(d: nat) -> char {
    if d == 0 {
        '0'
    } else if d == 1 {
        '1'
    } else if d == 2 {
        '2'
    } else if d == 3 {
        '3'
    } else if d == 4 {
        '4'
    } else if d == 5 {
        '5'
    } else if d == 6 {
        '6'
    } else if d == 7 {
        '7'
    } else if d == 8 {
        '8'
    } else {
        '9'
    }
}

/// The decimal notation of a number, without leading zeros.
pub open spec fn decimal(n: nat) -> Seq<char>
    decreases n,
{
    if n < 10 {
        seq![digit_char(n)]
    } else {
        decimal(n / 10) + seq![digit_char(n % 10)]
    }
}

fn digit_str(d: usize) -> (s: &'static str)
    requires
        d < 10,
    ensures
        s@ == seq![digit_char(d as nat)],
{
    if d == 0 {
        proof { reveal_strlit("0"); }
        "0"
    } else if d == 1 {
        proof { reveal_strlit("1"); }
        "1"
    } else if d == 2 {
        proof { reveal_strlit("2"); }
        "2"
    } else if d == 3 {
        proof { reveal_strlit("3"); }
        "3"
    } else if d == 4 {
        proof { reveal_strlit("4"); }
        "4"
    } else if d == 5 {
        proof { reveal_strlit("5"); }
        "5"
    } else if d == 6 {
        proof { reveal_strlit("6"); }
        "6"
    } else if d == 7 {
        proof { reveal_strlit("7"); }
        "7"
    } else if d == 8 {
        proof { reveal_strlit("8"); }
        "8"
    } else {
        proof { reveal_strlit("9"); }
        "9"
    }
}

/// Appends the decimal notation of `n` to `s`.
pub fn append_decimal(s: String, n: usize) -> (r: String)
    ensures
        r@ == s@ + decimal(n as nat),
    decreases n,
{
    if n < 10 {
        let r = s.concat(digit_str(n));
        assert(r@ == s@ + decimal(n as nat));
        r
    } else {
        let prefix = append_decimal(s, n / 10);
        let r = prefix.concat(digit_str(n % 10));
        assert(r@ =~= s@ + decimal(n as nat));
        r
    }
}

/// The name of the I/O poller thread pinned to `core`.
pub open spec fn io_thread_name(core: usize) -> Seq<char> {
    "imputio-io-"@ + decimal(core as nat)
}

/// The name of the executor thread pinned to `core`.
pub open spec fn exec_thread_name(core: usize) -> Seq<char> {
    "imputio-exec-"@ + decimal(core as nat)
}

/// `c` is the configuration of the executor (and its poller) pinned to
/// `core`: the defaults, with both threads pinned to the core and named
/// after it.
pub open spec fn is_per_core_view(c: ExecThreadConfigView, core: usize) -> bool {
    &&& c.thread == (ThreadConfigView {
        thread_name: exec_thread_name(core),
        stack_size: DEFAULT_STACK_SIZE,
        core_id: Some(core),
    })
    &&& c.poll_thread.thread == (ThreadConfigView {
        thread_name: io_thread_name(core),
        stack_size: DEFAULT_STACK_SIZE,
        core_id: Some(core),
    })
    &&& c.poll_thread.poll_cfg.spec_event_size() == 256
}

/// The executor configuration of one executor per core: for each core, in
/// order, an executor and its poller pinned to it; with no core, the
/// default configuration.
pub fn exec_config_for_cores(cores: &Vec<usize>) -> (c: ExecConfig)
    ensures
        cores@.len() == 0 ==> c@.len() == 1 && default_exec_thread_view(c@[0]),
        cores@.len() > 0 ==> c@.len() == cores@.len(),
        cores@.len() > 0 ==> forall|j: int|
            0 <= j < cores@.len() ==> is_per_core_view(#[trigger] c@[j], cores@[j]),
{
    let mut execs: Vec<ExecThreadConfig> = Vec::new();
    let mut i: usize = 0;
    while i < cores.len()
        invariant
            i <= cores@.len(),
            execs@.len() == i,
            forall|j: int| 0 <= j < i ==> is_per_core_view((#[trigger] execs@[j])@, cores@[j]),
        decreases cores@.len() - i,
    {
        let core = cores[i];
        let io_name = append_decimal(String::from_str("imputio-io-"), core);
        let poller_cfg = PollThreadConfig::default().with_core_affinity(core).with_name(io_name);
        let exec_name = append_decimal(String::from_str("imputio-exec-"), core);
        let exec = ExecThreadConfig::default().with_core_affinity(core).with_poll_thread_cfg(
            poller_cfg,
        ).with_name(exec_name);
        execs.push(exec);
        i = i + 1;
    }
    if execs.len() == 0 {
        ExecConfig::default()
    } else {
        ExecConfig::default().with_cfg(execs)
    }
}

proof fn lemma_decimal_nonempty(n: nat)
    ensures
        decimal(n).len() >= 1,
        n >= 10 ==> decimal(n).len() >= 2,
    decreases n,
{
    if n >= 10 {
        lemma_decimal_nonempty(n / 10);
    }
}

proof fn lemma_decimal_injective(a: nat, b: nat)
    requires
        decimal(a) == decimal(b),
    ensures
        a == b,
    decreases a,
{
    lemma_decimal_nonempty(a);
    lemma_decimal_nonempty(b);
    if a < 10 && b < 10 {
        assert(decimal(a)[0] == digit_char(a));
        assert(decimal(b)[0] == digit_char(b));
    } else if a >= 10 && b >= 10 {
        let da = decimal(a / 10);
        let db = decimal(b / 10);
        assert(decimal(a)[decimal(a).len() - 1] == digit_char(a % 10));
        assert(decimal(b)[decimal(b).len() - 1] == digit_char(b % 10));
        assert(decimal(a).subrange(0, da.len() as int) =~= da);
        assert(decimal(b).subrange(0, db.len() as int) =~= db);
        assert(da.len() == db.len());
        lemma_decimal_injective(a / 10, b / 10);
    }
}

/// Threads are named after their core: executors (and pollers) pinned to
/// different cores get different thread names.
pub proof fn lemma_per_core_names_distinct(c1: ExecThreadConfigView, c2: ExecThreadConfigView, core1: usize, core2: usize)
    requires
        is_per_core_view(c1, core1),
        is_per_core_view(c2, core2),
        core1 != core2,
    ensures
        c1.thread.thread_name != c2.thread.thread_name,
        c1.poll_thread.thread.thread_name != c2.poll_thread.thread.thread_name,
{
    let e = "imputio-exec-"@;
    let i = "imputio-io-"@;
    if c1.thread.thread_name == c2.thread.thread_name {
        assert(exec_thread_name(core1).subrange(e.len() as int, exec_thread_name(core1).len() as int)
            =~= decimal(core1 as nat));
        assert(exec_thread_name(core2).subrange(e.len() as int, exec_thread_name(core2).len() as int)
            =~= decimal(core2 as nat));
        lemma_decimal_injective(core1 as nat, core2 as nat);
    }
    if c1.poll_thread.thread.thread_name == c2.poll_thread.thread.thread_name {
        assert(io_thread_name(core1).subrange(i.len() as int, io_thread_name(core1).len() as int)
            =~= decimal(core1 as nat));
        assert(io_thread_name(core2).subrange(i.len() as int, io_thread_name(core2).len() as int)
            =~= decimal(core2 as nat));
        lemma_decimal_injective(core1 as nat, core2 as nat);
    }
}

} // verus!
