use vstd::prelude::*;

verus! {

/// Which sinks a run publishes to.
#[derive(Clone, Copy, Debug, PartialEq, Eq, Structural)]
pub enum OutputFormat {
    /// Durable recording only.
    Mcap,
    /// Live feed only.
    Websocket,
    /// Live feed and durable recording.
    Both,
}

impl OutputFormat {
    pub open spec fn spec_has_live(self) -> bool {
        self is Websocket || self is Both
    }

    pub open spec fn spec_has_durable(self) -> bool {
        self is Mcap || self is Both
    }

    /// Whether the live feed is part of this format.
    pub fn has_live(&self) -> (r: bool)
        ensures
            r == self.spec_has_live(),
    {
        match self {
            OutputFormat::Mcap => false,
            _ => true,
        }
    }

    /// Whether the durable recording is part of this format.
    pub fn has_durable(&self) -> (r: bool)
        ensures
            r == self.spec_has_durable(),
    {
        match self {
            OutputFormat::Websocket => false,
            _ => true,
        }
    }
}

/// A metric category. The declaration order is the order in which enabled
/// categories are sampled on every tick.
#[derive(Clone, Copy, Debug, PartialEq, Eq, Hash, Structural)]
pub enum Category {
    Cpu,
    Memory,
    Components,
    Disks,
    Networks,
    Processes,
    System,
}

/// Number of metric categories.
pub const CATEGORY_COUNT: usize = 7;

/// The category at position `k` of the fixed sampling order.
pub open spec fn category_at(k: int) -> Category {
    if k <= 0 {
        Category::Cpu
    } else if k == 1 {
        Category::Memory
    } else if k == 2 {
        Category::Components
    } else if k == 3 {
        Category::Disks
    } else if k == 4 {
        Category::Networks
    } else if k == 5 {
        Category::Processes
    } else {
        Category::System
    }
}

impl Category {
    /// Position of the category in the fixed sampling order.
    pub open spec fn rank(self) -> int {
        match self {
            Category::Cpu => 0,
            Category::Memory => 1,
            Category::Components => 2,
            Category::Disks => 3,
            Category::Networks => 4,
            Category::Processes => 5,
            Category::System => 6,
        }
    }

    pub open spec fn spec_topic(self) -> Seq<char> {
        match self {
            Category::Cpu => "/cpu"@,
            Category::Memory => "/memory"@,
            Category::Components => "/components"@,
            Category::Disks => "/disks"@,
            Category::Networks => "/networks"@,
            Category::Processes => "/processes"@,
            Category::System => "/system"@,
        }
    }

    /// The channel under which records of this category are published.
    pub fn topic(&self) -> (r: &'static str)
        ensures
            r@ == self.spec_topic(),
    {
        match self {
            Category::Cpu => "/cpu",
            Category::Memory => "/memory",
            Category::Components => "/components",
            Category::Disks => "/disks",
            Category::Networks => "/networks",
            Category::Processes => "/processes",
            Category::System => "/system",
        }
    }

    /// The category at position `k` of the fixed sampling order.
    pub fn at(k: usize) -> (r: Category)
        requires
            k < CATEGORY_COUNT,
        ensures
            r == category_at(k as int),
    {
        match k {
            0 => Category::Cpu,
            1 => Category::Memory,
            2 => Category::Components,
            3 => Category::Disks,
            4 => Category::Networks,
            5 => Category::Processes,
            _ => Category::System,
        }
    }
}

/// The settings of one run, fixed at startup.
#[derive(Clone, Debug)]
pub struct Config {
    pub cpu: bool,
    pub memory: bool,
    pub temperature: bool,
    pub disks: bool,
    pub networks: bool,
    pub processes: bool,
    pub system: bool,
    /// Tick period in milliseconds.
    pub interval: u64,
    /// Run length in ticks; `None` runs until cancelled.
    pub timeout: Option<u64>,
    pub format: OutputFormat,
    /// Location of the durable recording.
    pub path: String,
    /// Remove an existing durable recording at `path` before opening it.
    pub overwrite: bool,
}

impl Config {
    pub open spec fn enabled(self, c: Category) -> bool {
        match c {
            Category::Cpu => self.cpu,
            Category::Memory => self.memory,
            Category::Components => self.temperature,
            Category::Disks => self.disks,
            Category::Networks => self.networks,
            Category::Processes => self.processes,
            Category::System => self.system,
        }
    }

    /// The enabled categories among the first `k` of the fixed order, in that order.
    pub open spec fn enabled_prefix(self, k: nat) -> Seq<Category>
        decreases k,
    {
        if k == 0 {
            Seq::empty()
        } else {
            let before = self.enabled_prefix((k - 1) as nat);
            let c = category_at(k - 1);
            if self.enabled(c) {
                before.push(c)
            } else {
                before
            }
        }
    }

    /// The enabled categories, in the fixed sampling order.
    pub open spec fn enabled_seq(self) -> Seq<Category> {
        self.enabled_prefix(CATEGORY_COUNT as nat)
    }

    /// Whether category `c` is enabled.
    pub fn is_enabled(&self, c: Category) -> (r: bool)
        ensures
            r == self.enabled(c),
    {
        match c {
            Category::Cpu => self.cpu,
            Category::Memory => self.memory,
            Category::Components => self.temperature,
            Category::Disks => self.disks,
            Category::Networks => self.networks,
            Category::Processes => self.processes,
            Category::System => self.system,
        }
    }

    /// The enabled categories, in the fixed sampling order.
    pub fn enabled_categories(&self) -> (r: Vec<Category>)
        ensures
            r@ == self.enabled_seq(),
    {
        let mut r: Vec<Category> = Vec::new();
        let mut k: usize = 0;
        while k < CATEGORY_COUNT
            invariant
                k <= CATEGORY_COUNT,
                r@ == self.enabled_prefix(k as nat),
            decreases CATEGORY_COUNT - k,
        {
            let c = Category::at(k);
            if self.is_enabled(c) {
                r.push(c);
            }
            k = k + 1;
        }
        r
    }
}

proof fn lemma_enabled_prefix(config: Config, k: nat)
    requires
        k <= CATEGORY_COUNT,
    ensures
        forall|i: int|
            0 <= i < config.enabled_prefix(k).len() ==> #[trigger] config.enabled_prefix(k)[i].rank()
                < k,
        forall|i: int, j: int|
            0 <= i < j < config.enabled_prefix(k).len() ==> #[trigger] config.enabled_prefix(k)[i].rank()
                < #[trigger] config.enabled_prefix(k)[j].rank(),
        forall|c: Category|
            #[trigger] config.enabled_prefix(k).contains(c) <==> (config.enabled(c) && c.rank() < k),
    decreases k,
{
    if k > 0 {
        lemma_enabled_prefix(config, (k - 1) as nat);
        let before = config.enabled_prefix((k - 1) as nat);
        let c = category_at(k - 1);
        assert(c.rank() == k - 1);
        if config.enabled(c) {
            assert(config.enabled_prefix(k) == before.push(c));
            assert forall|d: Category| #[trigger]
                config.enabled_prefix(k).contains(d) <==> (config.enabled(d) && d.rank() < k) by {
                if before.push(c).contains(d) && d != c {
                    let i = choose|i: int| 0 <= i < before.push(c).len() && before.push(c)[i] == d;
                    assert(before[i] == d);
                }
                if config.enabled(d) && d.rank() < k && d != c {
                    assert(before.contains(d));
                    let i = choose|i: int| 0 <= i < before.len() && before[i] == d;
                    assert(before.push(c)[i] == d);
                }
                if d == c {
                    assert(before.push(c)[before.len() as int] == c);
                }
                if before.contains(d) {
                    let i = choose|i: int| 0 <= i < before.len() && before[i] == d;
                    assert(before.push(c)[i] == d);
                }
            }
        }
    }
}

/// Sampling order law: a configuration's enabled categories are exactly the
/// categories it enables, each once, in strictly increasing position of the
/// fixed order.
pub proof fn enabled_in_fixed_order(config: Config)
    ensures
        forall|c: Category| #[trigger] config.enabled_seq().contains(c) <==> config.enabled(c),
        forall|i: int, j: int|
            0 <= i < j < config.enabled_seq().len() ==> #[trigger] config.enabled_seq()[i].rank()
                < #[trigger] config.enabled_seq()[j].rank(),
        config.enabled_seq().no_duplicates(),
{
    lemma_enabled_prefix(config, CATEGORY_COUNT as nat);
    let s = config.enabled_seq();
    assert forall|c: Category| #[trigger] s.contains(c) <==> config.enabled(c) by {
        assert(c.rank() < CATEGORY_COUNT);
    }
    assert forall|i: int, j: int| 0 <= i < s.len() && 0 <= j < s.len() && i != j implies s[i]
        != s[j] by {
        if i < j {
            assert(s[i].rank() < s[j].rank());
        } else {
            assert(s[j].rank() < s[i].rank());
        }
    }
}

} // verus!
