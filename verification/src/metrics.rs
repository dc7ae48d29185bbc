//! Metrics of the operator, held in prometheus counters.
use vstd::prelude::*;

use crate::build_info::Version;

verus! {

/// A prometheus `IntCounter`: a counter shared by its clones, any of which
/// may change it.
#[verifier::external_body]
#[derive(Debug)]
pub struct PrometheusIntCounter {
    counter: prometheus::IntCounter,
}

/// A prometheus `IntCounterVec`: a family of counters, one per combination of
/// label values, shared by its clones.
#[verifier::external_body]
#[derive(Debug)]
pub struct PrometheusIntCounterVec {
    counters: prometheus::IntCounterVec,
}

/// A prometheus `IntGaugeVec`: a family of gauges, one per combination of
/// label values, shared by its clones.
#[verifier::external_body]
#[derive(Debug)]
pub struct PrometheusIntGaugeVec {
    gauges: prometheus::IntGaugeVec,
}

#[verifier::external_type_specification]
#[verifier::external_body]
pub struct ExRegistry(prometheus::Registry);

/// A counter with the name and help text it was created with.
pub struct IntCounterHandle {
    counter: PrometheusIntCounter,
    name: Ghost<Seq<char>>,
    help: Ghost<Seq<char>>,
}

impl IntCounterHandle {
    /// The name the counter was created with.
    pub closed spec fn name(&self) -> Seq<char> {
        self.name@
    }

    /// The help text the counter was created with.
    pub closed spec fn help(&self) -> Seq<char> {
        self.help@
    }
}

/// A counter family without labels, with the name and help text it was
/// created with. Its one counter is exported once it has been counted on.
pub struct IntCounterVecHandle {
    counters: PrometheusIntCounterVec,
    name: Ghost<Seq<char>>,
    help: Ghost<Seq<char>>,
}

impl IntCounterVecHandle {
    /// The name the family was created with.
    pub closed spec fn name(&self) -> Seq<char> {
        self.name@
    }

    /// The help text the family was created with.
    pub closed spec fn help(&self) -> Seq<char> {
        self.help@
    }
}

/// A gauge family with the name, help text and label names it was created
/// with.
pub struct IntGaugeVecHandle {
    gauges: PrometheusIntGaugeVec,
    name: Ghost<Seq<char>>,
    help: Ghost<Seq<char>>,
    label_names: Ghost<Seq<Seq<char>>>,
}

impl IntGaugeVecHandle {
    /// The name the family was created with.
    pub closed spec fn name(&self) -> Seq<char> {
        self.name@
    }

    /// The help text the family was created with.
    pub closed spec fn help(&self) -> Seq<char> {
        self.help@
    }

    /// The label names the family was created with, in order.
    pub closed spec fn label_names(&self) -> Seq<Seq<char>> {
        self.label_names@
    }
}

/// A character prometheus takes anywhere in a label name: `[a-zA-Z_]`.
pub open spec fn is_label_name_char(c: char) -> bool {
    let n = c as int;
    (0x61 <= n <= 0x7a) || (0x41 <= n <= 0x5a) || n == 0x5f
}

/// A character prometheus takes anywhere in a metric name: `[a-zA-Z_:]`.
pub open spec fn is_metric_name_char(c: char) -> bool {
    is_label_name_char(c) || c as int == 0x3a
}

pub open spec fn is_digit(c: char) -> bool {
    0x30 <= c as int <= 0x39
}

/// A metric name prometheus accepts: `^[a-zA-Z_:][a-zA-Z0-9_:]*$`.
pub open spec fn is_valid_metric_name(name: Seq<char>) -> bool {
    &&& name.len() > 0
    &&& is_metric_name_char(name[0])
    &&& forall|i: int| 1 <= i < name.len() ==> is_metric_name_char(#[trigger] name[i]) || is_digit(name[i])
}

/// A label name prometheus accepts: `^[a-zA-Z_][a-zA-Z0-9_]*$`.
pub open spec fn is_valid_label_name(name: Seq<char>) -> bool {
    &&& name.len() > 0
    &&& is_label_name_char(name[0])
    &&& forall|i: int| 1 <= i < name.len() ==> is_label_name_char(#[trigger] name[i]) || is_digit(name[i])
}

/// `prometheus::IntGaugeVec::new` over `prometheus::Opts::new(name, help)`
/// with three label names. The source refuses an empty help, an invalid
/// metric name, an invalid label name and a label name given twice, and
/// accepts everything else.
#[verifier::external_body]
fn new_int_gauge_vec3(name: &str, help: &str, label_names: [&str; 3]) -> (r: Option<
    IntGaugeVecHandle,
>)
    ensures
        r is Some <==> {
            &&& help@.len() > 0
            &&& is_valid_metric_name(name@)
            &&& forall|i: int| 0 <= i < 3 ==> is_valid_label_name(#[trigger] label_names[i]@)
            &&& label_names[0]@ != label_names[1]@
            &&& label_names[0]@ != label_names[2]@
            &&& label_names[1]@ != label_names[2]@
        },
        r matches Some(handle) ==> {
            &&& handle.name() == name@
            &&& handle.help() == help@
            &&& handle.label_names() == seq![label_names[0]@, label_names[1]@, label_names[2]@]
        },
{
    match prometheus::IntGaugeVec::new(prometheus::Opts::new(name, help), &label_names) {
        Ok(gauges) => Some(IntGaugeVecHandle {
            gauges: PrometheusIntGaugeVec { gauges },
            name: Ghost(name@),
            help: Ghost(help@),
            label_names: Ghost(seq![label_names[0]@, label_names[1]@, label_names[2]@]),
        }),
        Err(_) => None,
    }
}

/// `prometheus::IntGaugeVec::with_label_values(labels).set(value)` on a family
/// made with three label names (with another number of values the source
/// panics). Other handles may change the gauge too: nothing is stated of it.
#[verifier::external_body]
fn int_gauge_vec_set3(handle: &IntGaugeVecHandle, labels: [&str; 3], value: i64) {
    handle.gauges.gauges.with_label_values(&labels).set(value)
}

/// `prometheus::Registry::register` of a clone of the gauge family: whether the
/// registry accepted it.
#[verifier::external_body]
fn register_int_gauge_vec(registry: &prometheus::Registry, handle: &IntGaugeVecHandle) -> (r: bool) {
    registry.register(Box::new(handle.gauges.gauges.clone())).is_ok()
}

/// `prometheus::IntCounter::new`: a counter at zero. The source refuses an
/// empty help and an invalid metric name, and accepts everything else.
#[verifier::external_body]
fn new_int_counter(name: &str, help: &str) -> (r: Option<IntCounterHandle>)
    ensures
        r.is_some() == (help@.len() > 0 && is_valid_metric_name(name@)),
        r matches Some(handle) ==> handle.name() == name@ && handle.help() == help@,
{
    match prometheus::IntCounter::new(name, help) {
        Ok(counter) => Some(IntCounterHandle {
            counter: PrometheusIntCounter { counter },
            name: Ghost(name@),
            help: Ghost(help@),
        }),
        Err(_) => None,
    }
}

/// `prometheus::IntCounter::inc`: adds one to the counter. Other handles of the
/// same counter may change it too, so nothing is stated of its value.
#[verifier::external_body]
fn int_counter_inc(handle: &IntCounterHandle) {
    handle.counter.counter.inc()
}

/// `prometheus::Registry::register` of a clone of the counter: whether the
/// registry accepted it (it refuses a second collector with the same name).
#[verifier::external_body]
fn register_int_counter(registry: &prometheus::Registry, handle: &IntCounterHandle) -> (r: bool) {
    registry.register(Box::new(handle.counter.counter.clone())).is_ok()
}

/// `prometheus::IntCounterVec::new` over `prometheus::Opts::new(name, help)`
/// with no label names: a family without counters yet. The source refuses an
/// empty help and an invalid metric name, and accepts everything else.
#[verifier::external_body]
fn new_int_counter_vec0(name: &str, help: &str) -> (r: Option<IntCounterVecHandle>)
    ensures
        r.is_some() == (help@.len() > 0 && is_valid_metric_name(name@)),
        r matches Some(handle) ==> handle.name() == name@ && handle.help() == help@,
{
    match prometheus::IntCounterVec::new(prometheus::Opts::new(name, help), &[]) {
        Ok(counters) => Some(IntCounterVecHandle {
            counters: PrometheusIntCounterVec { counters },
            name: Ghost(name@),
            help: Ghost(help@),
        }),
        Err(_) => None,
    }
}

/// `prometheus::IntCounterVec::with_label_values(&[]).inc()` on a family made
/// with no label names (with a value the source would panic): adds one to its
/// counter. Other handles may change it too, so nothing is stated of it.
#[verifier::external_body]
fn int_counter_vec0_inc(handle: &IntCounterVecHandle) {
    handle.counters.counters.with_label_values(&[]).inc()
}

/// `prometheus::Registry::register` of a clone of the counter family: whether
/// the registry accepted it.
#[verifier::external_body]
fn register_int_counter_vec(registry: &prometheus::Registry, handle: &IntCounterVecHandle) -> (r:
    bool) {
    registry.register(Box::new(handle.counters.counters.clone())).is_ok()
}

/// A metric could not be created or registered.
#[derive(Debug, Clone, Copy, PartialEq, Eq, Structural)]
pub enum MetricsError {
    Creation,
    Registration,
}

/// The counters of the operator.
pub struct OperatorMetrics {
    /// Counter of the block processor errors (a family without labels).
    block_api_errors: IntCounterVecHandle,
    /// Counter of non 0 bids seen on the relay stream.
    non_0_competition_bids: IntCounterHandle,
    /// Version of the bidding service, labelled git, git_ref, build_time_utc.
    bidding_service_version: IntGaugeVecHandle,
}

impl OperatorMetrics {
    pub closed spec fn block_api_errors(&self) -> IntCounterVecHandle {
        self.block_api_errors
    }

    pub closed spec fn non_0_competition_bids(&self) -> IntCounterHandle {
        self.non_0_competition_bids
    }

    pub closed spec fn bidding_service_version(&self) -> IntGaugeVecHandle {
        self.bidding_service_version
    }

    /// The counter family without labels is named `block_api_errors`, the
    /// counter `non_0_competition_bids` and the version gauge family
    /// `bidding_service_version`, labelled `git`, `git_ref` and
    /// `build_time_utc`; each has its help text.
    pub open spec fn has_operator_metrics(&self) -> bool {
        &&& self.block_api_errors().name() == "block_api_errors"@
        &&& self.block_api_errors().help() == "counter of the block processor errors"@
        &&& self.non_0_competition_bids().name() == "non_0_competition_bids"@
        &&& self.non_0_competition_bids().help() == "Counter of non 0 bids seen on SCP stream"@
        &&& self.bidding_service_version().name() == "bidding_service_version"@
        &&& self.bidding_service_version().help() == "Version of the bidding service"@
        &&& self.bidding_service_version().label_names() == seq![
            "git"@,
            "git_ref"@,
            "build_time_utc"@,
        ]
    }

    /// Creates the counters, at zero. Their names, helps and labels are valid,
    /// so this succeeds.
    pub fn new() -> (r: Result<OperatorMetrics, MetricsError>)
        ensures
            r is Ok,
            r matches Ok(metrics) ==> metrics.has_operator_metrics(),
    {
        proof {
            reveal_strlit("block_api_errors");
            reveal_strlit("counter of the block processor errors");
            reveal_strlit("non_0_competition_bids");
            reveal_strlit("Counter of non 0 bids seen on SCP stream");
            reveal_strlit("bidding_service_version");
            reveal_strlit("Version of the bidding service");
            reveal_strlit("git");
            reveal_strlit("git_ref");
            reveal_strlit("build_time_utc");
        }
        let block_api_errors = match new_int_counter_vec0(
            "block_api_errors",
            "counter of the block processor errors",
        ) {
            Some(c) => c,
            None => {
                return Err(MetricsError::Creation);
            },
        };
        let non_0_competition_bids = match new_int_counter(
            "non_0_competition_bids",
            "Counter of non 0 bids seen on SCP stream",
        ) {
            Some(c) => c,
            None => {
                return Err(MetricsError::Creation);
            },
        };
        let label_names = ["git", "git_ref", "build_time_utc"];
        assert(forall|i: int| 0 <= i < 3 ==> is_valid_label_name(#[trigger] label_names[i]@)) by {
            assert(is_valid_label_name(label_names[0]@));
            assert(is_valid_label_name(label_names[1]@));
            assert(is_valid_label_name(label_names[2]@));
        }
        let bidding_service_version = match new_int_gauge_vec3(
            "bidding_service_version",
            "Version of the bidding service",
            label_names,
        ) {
            Some(g) => g,
            None => {
                return Err(MetricsError::Creation);
            },
        };
        Ok(OperatorMetrics { block_api_errors, non_0_competition_bids, bidding_service_version })
    }

    /// Registers the counters in `registry`. Whether the registry accepts them
    /// depends on what it already holds (it refuses a second collector of the
    /// same name), which is shared state that nothing here can see.
    pub fn register(&self, registry: &prometheus::Registry) -> (r: Result<(), MetricsError>)
        ensures
            r matches Err(e) ==> e == MetricsError::Registration,
    {
        if !register_int_counter_vec(registry, &self.block_api_errors) {
            return Err(MetricsError::Registration);
        }
        if !register_int_counter(registry, &self.non_0_competition_bids) {
            return Err(MetricsError::Registration);
        }
        if !register_int_gauge_vec(registry, &self.bidding_service_version) {
            return Err(MetricsError::Registration);
        }
        Ok(())
    }
}

/// Counts one error of the block processor.
pub fn inc_blocks_api_errors(metrics: &OperatorMetrics) {
    int_counter_vec0_inc(&metrics.block_api_errors);
}

/// Counts one non-zero bid seen on the relay stream.
pub fn inc_non_0_competition_bids(metrics: &OperatorMetrics) {
    int_counter_inc(&metrics.non_0_competition_bids);
}

/// Publishes the version of the bidding service: the gauge labelled with its
/// commit, ref and build time is set to 1.
pub fn set_bidding_service_version(metrics: &OperatorMetrics, version: &Version) {
    int_gauge_vec_set3(
        &metrics.bidding_service_version,
        [version.git_commit.as_str(), version.git_ref.as_str(), version.build_time_utc.as_str()],
        1,
    );
}

} // verus!
