//! Pool metric collectors.
//!
//! On every scrape a collector reads the shared cache of pool records and
//! renders each into labeled gauge samples. The cache lock and the node-name
//! resolution are the runtime's work; their outcomes are handed in as plain
//! values. A failed lock yields an empty snapshot; a failed resolution yields
//! whatever was accumulated before it (nothing, since it precedes all
//! per-entity work); a labeling failure — a label value that is empty, so no
//! well-formed label tuple exists for the sample — truncates the snapshot at
//! the entity that caused it.

use vstd::prelude::*;

verus! {

/// One pool record from the shared cache, read-only to the collectors.
#[derive(Debug, Clone)]
pub struct PoolInfo {
    /// The pool's name, its identity within the node.
    pub name: String,
    /// Total size of the pool in bytes.
    pub capacity: u64,
    /// Used size of the pool in bytes.
    pub used: u64,
    /// Committed size of the pool in bytes.
    pub committed: u64,
    /// Numeric encoding of the pool's health state.
    pub state: u64,
}

impl PoolInfo {
    /// Assemble a pool record.
    pub fn new(name: String, capacity: u64, used: u64, committed: u64, state: u64) -> (r: Self)
        ensures
            r.name@ == name@,
            r.capacity == capacity,
            r.used == used,
            r.committed == committed,
            r.state == state,
    {
        Self { name, capacity, used, committed, state }
    }
}

/// One emitted gauge sample: a metric name, the two label values of the
/// fixed `{node, name}` schema, and the sampled value.
#[derive(Debug, Clone)]
pub struct Sample {
    /// The metric family the sample belongs to.
    pub metric: String,
    /// Value of the `node` label: the resolved node name.
    pub node: String,
    /// Value of the `name` label: the pool's name.
    pub pool: String,
    /// The sampled value, in the metric's unit.
    pub value: u64,
}

/// Descriptor of one metric family: its name, help text and label schema,
/// fixed at construction.
#[derive(Debug)]
pub struct MetricDesc {
    pub name: String,
    pub help: String,
}

impl Clone for MetricDesc {
    fn clone(&self) -> (r: Self)
        ensures
            r.name@ == self.name@,
            r.help@ == self.help@,
    {
        MetricDesc { name: self.name.clone(), help: self.help.clone() }
    }
}

/// A label tuple is well formed when neither label value is empty.
pub open spec fn label_ok(node: Seq<char>, name: Seq<char>) -> bool {
    node.len() > 0 && name.len() > 0
}

/// Index of the first pool at or after `i` whose label tuple under `node`
/// is not well formed, or the cache's length when every one is.
pub open spec fn good_prefix_from(node: Seq<char>, pools: Seq<PoolInfo>, i: int) -> int
    decreases pools.len() - i,
    when 0 <= i <= pools.len()
{
    if i >= pools.len() {
        i
    } else if !label_ok(node, pools[i].name@) {
        i
    } else {
        good_prefix_from(node, pools, i + 1)
    }
}

/// How many pools, from the front of the cache, a collector labels before
/// the first labeling failure truncates the scrape.
pub open spec fn good_prefix_len(node: Seq<char>, pools: Seq<PoolInfo>) -> int {
    good_prefix_from(node, pools, 0)
}

/// The three capacity samples of pool `p` stand at `j`, `j + 1`, `j + 2` of
/// `s`: total, used and committed bytes, labeled `(node, p.name)`.
pub open spec fn is_capacity_triple(s: Seq<Sample>, j: int, node: Seq<char>, p: PoolInfo) -> bool {
    &&& s[j].metric@ == "disk_pool_total_size_bytes"@
    &&& s[j].node@ == node
    &&& s[j].pool@ == p.name@
    &&& s[j].value == p.capacity
    &&& s[j + 1].metric@ == "disk_pool_used_size_bytes"@
    &&& s[j + 1].node@ == node
    &&& s[j + 1].pool@ == p.name@
    &&& s[j + 1].value == p.used
    &&& s[j + 2].metric@ == "disk_pool_committed_size_bytes"@
    &&& s[j + 2].node@ == node
    &&& s[j + 2].pool@ == p.name@
    &&& s[j + 2].value == p.committed
}

/// The status sample of pool `p` stands at `j` of `s`: the numeric health
/// state, labeled `(node, p.name)`.
pub open spec fn is_status_sample(s: Seq<Sample>, j: int, node: Seq<char>, p: PoolInfo) -> bool {
    &&& s[j].metric@ == "disk_pool_status"@
    &&& s[j].node@ == node
    &&& s[j].pool@ == p.name@
    &&& s[j].value == p.state
}

/// Collects pool capacity metrics from the cache: three gauges per pool.
#[derive(Debug, Clone)]
pub struct PoolCapacityCollector {
    pool_total_size: MetricDesc,
    pool_used_size: MetricDesc,
    pool_committed_size: MetricDesc,
}

impl Default for PoolCapacityCollector {
    fn default() -> (r: Self)
        ensures
            r.wf(),
    {
        Self::new()
    }
}

impl PoolCapacityCollector {
    /// The collector's descriptors carry the three fixed capacity metric
    /// names and help texts.
    pub closed spec fn wf(&self) -> bool {
        &&& self.pool_total_size.name@ == "disk_pool_total_size_bytes"@
        &&& self.pool_total_size.help@ == "Total size of the pool in bytes"@
        &&& self.pool_used_size.name@ == "disk_pool_used_size_bytes"@
        &&& self.pool_used_size.help@ == "Used size of the pool in bytes"@
        &&& self.pool_committed_size.name@ == "disk_pool_committed_size_bytes"@
        &&& self.pool_committed_size.help@ == "Committed size of the pool in bytes"@
    }

    /// Initialize all the metrics to be defined for the pools capacity
    /// collector.
    pub fn new() -> (r: Self)
        ensures
            r.wf(),
    {
        let pool_total_size = MetricDesc {
            name: "disk_pool_total_size_bytes".to_owned(),
            help: "Total size of the pool in bytes".to_owned(),
        };
        let pool_used_size = MetricDesc {
            name: "disk_pool_used_size_bytes".to_owned(),
            help: "Used size of the pool in bytes".to_owned(),
        };
        let pool_committed_size = MetricDesc {
            name: "disk_pool_committed_size_bytes".to_owned(),
            help: "Committed size of the pool in bytes".to_owned(),
        };
        Self { pool_total_size, pool_used_size, pool_committed_size }
    }

    /// The collector's descriptors, in emission order.
    pub fn desc(&self) -> (r: Vec<MetricDesc>)
        requires
            self.wf(),
        ensures
            r@.len() == 3,
            r@[0].name@ == "disk_pool_total_size_bytes"@,
            r@[0].help@ == "Total size of the pool in bytes"@,
            r@[1].name@ == "disk_pool_used_size_bytes"@,
            r@[1].help@ == "Used size of the pool in bytes"@,
            r@[2].name@ == "disk_pool_committed_size_bytes"@,
            r@[2].help@ == "Committed size of the pool in bytes"@,
    {
        let mut descs: Vec<MetricDesc> = Vec::new();
        descs.push(self.pool_total_size.clone());
        descs.push(self.pool_used_size.clone());
        descs.push(self.pool_committed_size.clone());
        descs
    }

    /// Render one scrape. `cache` is what the lock attempt yielded — `None`
    /// when the lock was unavailable — and `node_name` is what identity
    /// resolution yielded. The snapshot holds the three capacity samples of
    /// every pool before the first labeling failure, in cache order.
    pub fn collect(&self, cache: Option<&Vec<PoolInfo>>, node_name: Option<&String>) -> (r: Vec<
        Sample,
    >)
        requires
            self.wf(),
        ensures
            cache is None ==> r@.len() == 0,
            node_name is None ==> r@.len() == 0,
            (cache matches Some(pools) ==> (node_name matches Some(node) ==> {
                &&& r@.len() == 3 * good_prefix_len(node@, pools@)
                &&& forall|i: int|
                    0 <= i < good_prefix_len(node@, pools@) ==> is_capacity_triple(
                        r@,
                        3 * i,
                        node@,
                        pools@[i],
                    )
            })),
    {
        let mut metric_family: Vec<Sample> = Vec::new();
        let pools = match cache {
            Some(pools) => pools,
            None => {
                return metric_family;
            },
        };
        let node = match node_name {
            Some(node) => node,
            None => {
                return metric_family;
            },
        };
        let ghost nodev = node@;
        let ghost poolsv = pools@;
        let mut idx: usize = 0;
        while idx < pools.len()
            invariant
                self.wf(),
                nodev == node@,
                poolsv == pools@,
                (cache matches Some(cp) && cp@ == poolsv),
                (node_name matches Some(nn) && nn@ == nodev),
                0 <= idx <= poolsv.len(),
                forall|j: int| 0 <= j < idx ==> label_ok(nodev, poolsv[j].name@),
                good_prefix_from(nodev, poolsv, 0) == good_prefix_from(nodev, poolsv, idx as int),
                metric_family@.len() == 3 * idx,
                forall|i: int|
                    0 <= i < idx ==> is_capacity_triple(metric_family@, 3 * i, nodev, poolsv[i]),
            decreases poolsv.len() - idx,
        {
            let p = &pools[idx];
            if node.as_str().is_empty() || p.name.as_str().is_empty() {
                // Labeling failure: no well-formed label tuple exists for
                // this pool, so the scrape is truncated here.
                proof {
                    assert(good_prefix_from(nodev, poolsv, idx as int) == idx as int);
                }
                return metric_family;
            }
            metric_family.push(Sample {
                metric: self.pool_total_size.name.clone(),
                node: node.clone(),
                pool: p.name.clone(),
                value: p.capacity,
            });
            metric_family.push(Sample {
                metric: self.pool_used_size.name.clone(),
                node: node.clone(),
                pool: p.name.clone(),
                value: p.used,
            });
            metric_family.push(Sample {
                metric: self.pool_committed_size.name.clone(),
                node: node.clone(),
                pool: p.name.clone(),
                value: p.committed,
            });
            proof {
                assert(good_prefix_from(nodev, poolsv, idx as int) == good_prefix_from(
                    nodev,
                    poolsv,
                    idx + 1,
                ));
            }
            idx = idx + 1;
        }
        metric_family
    }
}

/// Collects pool status (health) metrics from the cache: one gauge per pool.
#[derive(Debug, Clone)]
pub struct PoolStatusCollector {
    pool_status: MetricDesc,
}

impl Default for PoolStatusCollector {
    fn default() -> (r: Self)
        ensures
            r.wf(),
    {
        Self::new()
    }
}

impl PoolStatusCollector {
    /// The collector's descriptor carries the fixed status metric name and
    /// help text.
    pub closed spec fn wf(&self) -> bool {
        &&& self.pool_status.name@ == "disk_pool_status"@
        &&& self.pool_status.help@ == "Status of the pool"@
    }

    /// Initialize all the metrics to be defined for the pools status
    /// collector.
    pub fn new() -> (r: Self)
        ensures
            r.wf(),
    {
        let pool_status = MetricDesc {
            name: "disk_pool_status".to_owned(),
            help: "Status of the pool".to_owned(),
        };
        Self { pool_status }
    }

    /// The collector's descriptors, in emission order.
    pub fn desc(&self) -> (r: Vec<MetricDesc>)
        requires
            self.wf(),
        ensures
            r@.len() == 1,
            r@[0].name@ == "disk_pool_status"@,
            r@[0].help@ == "Status of the pool"@,
    {
        let mut descs: Vec<MetricDesc> = Vec::new();
        descs.push(self.pool_status.clone());
        descs
    }

    /// Render one scrape, with the same lock, resolution and truncation
    /// behavior as the capacity collector, emitting one status sample per
    /// pool.
    pub fn collect(&self, cache: Option<&Vec<PoolInfo>>, node_name: Option<&String>) -> (r: Vec<
        Sample,
    >)
        requires
            self.wf(),
        ensures
            cache is None ==> r@.len() == 0,
            node_name is None ==> r@.len() == 0,
            (cache matches Some(pools) ==> (node_name matches Some(node) ==> {
                &&& r@.len() == good_prefix_len(node@, pools@)
                &&& forall|i: int|
                    0 <= i < good_prefix_len(node@, pools@) ==> is_status_sample(
                        r@,
                        i,
                        node@,
                        pools@[i],
                    )
            })),
    {
        let mut metric_family: Vec<Sample> = Vec::new();
        let pools = match cache {
            Some(pools) => pools,
            None => {
                return metric_family;
            },
        };
        let node = match node_name {
            Some(node) => node,
            None => {
                return metric_family;
            },
        };
        let ghost nodev = node@;
        let ghost poolsv = pools@;
        let mut idx: usize = 0;
        while idx < pools.len()
            invariant
                self.wf(),
                nodev == node@,
                poolsv == pools@,
                (cache matches Some(cp) && cp@ == poolsv),
                (node_name matches Some(nn) && nn@ == nodev),
                0 <= idx <= poolsv.len(),
                forall|j: int| 0 <= j < idx ==> label_ok(nodev, poolsv[j].name@),
                good_prefix_from(nodev, poolsv, 0) == good_prefix_from(nodev, poolsv, idx as int),
                metric_family@.len() == idx,
                forall|i: int|
                    0 <= i < idx ==> is_status_sample(metric_family@, i, nodev, poolsv[i]),
            decreases poolsv.len() - idx,
        {
            let p = &pools[idx];
            if node.as_str().is_empty() || p.name.as_str().is_empty() {
                // Labeling failure: truncate the scrape at this pool.
                proof {
                    assert(good_prefix_from(nodev, poolsv, idx as int) == idx as int);
                }
                return metric_family;
            }
            metric_family.push(Sample {
                metric: self.pool_status.name.clone(),
                node: node.clone(),
                pool: p.name.clone(),
                value: p.state,
            });
            proof {
                assert(good_prefix_from(nodev, poolsv, idx as int) == good_prefix_from(
                    nodev,
                    poolsv,
                    idx + 1,
                ));
            }
            idx = idx + 1;
        }
        metric_family
    }
}

/// Scrape completeness: when the node name and every pool name are
/// non-empty, no labeling failure occurs, so the capacity collector emits
/// exactly three samples per pool and the status collector exactly one.
pub proof fn lemma_scrape_completeness(node: Seq<char>, pools: Seq<PoolInfo>)
    requires
        node.len() > 0,
        forall|i: int| 0 <= i < pools.len() ==> pools[i].name@.len() > 0,
    ensures
        good_prefix_len(node, pools) == pools.len(),
{
    lemma_good_prefix_from_complete(node, pools, 0);
}

proof fn lemma_good_prefix_from_complete(node: Seq<char>, pools: Seq<PoolInfo>, i: int)
    requires
        0 <= i <= pools.len(),
        node.len() > 0,
        forall|j: int| i <= j < pools.len() ==> pools[j].name@.len() > 0,
    ensures
        good_prefix_from(node, pools, i) == pools.len(),
    decreases pools.len() - i,
{
    if i < pools.len() {
        lemma_good_prefix_from_complete(node, pools, i + 1);
    }
}

/// Truncation on labeling error: when the pool at index `j` is the first
/// whose label tuple is not well formed, both collectors emit samples only
/// for the pools before `j` — the capacity collector `3 * j` of them, the
/// status collector `j`.
pub proof fn lemma_truncation_on_labeling_error(node: Seq<char>, pools: Seq<PoolInfo>, j: int)
    requires
        0 <= j < pools.len(),
        !label_ok(node, pools[j].name@),
        forall|i: int| 0 <= i < j ==> label_ok(node, pools[i].name@),
    ensures
        good_prefix_len(node, pools) == j,
{
    lemma_good_prefix_from_stops(node, pools, 0, j);
}

proof fn lemma_good_prefix_from_stops(node: Seq<char>, pools: Seq<PoolInfo>, i: int, j: int)
    requires
        0 <= i <= j < pools.len(),
        !label_ok(node, pools[j].name@),
        forall|k: int| i <= k < j ==> label_ok(node, pools[k].name@),
    ensures
        good_prefix_from(node, pools, i) == j,
    decreases j - i,
{
    if i < j {
        lemma_good_prefix_from_stops(node, pools, i + 1, j);
    }
}

/// Label correctness: every pool within the emitted prefix has a well-formed
/// label tuple, so — by the collectors' contracts — every emitted sample
/// carries the non-empty labels `(node, pool.name)` of its pool.
pub proof fn lemma_label_correctness(node: Seq<char>, pools: Seq<PoolInfo>, i: int)
    requires
        0 <= i < good_prefix_len(node, pools),
    ensures
        label_ok(node, pools[i].name@),
{
    lemma_good_prefix_from_all_ok(node, pools, 0, i);
}

proof fn lemma_good_prefix_from_all_ok(node: Seq<char>, pools: Seq<PoolInfo>, k: int, i: int)
    requires
        0 <= k <= i,
        k <= pools.len(),
        i < good_prefix_from(node, pools, k),
    ensures
        i < pools.len(),
        label_ok(node, pools[i].name@),
    decreases i - k,
{
    if k < i {
        lemma_good_prefix_from_all_ok(node, pools, k + 1, i);
    }
}

} // verus!
