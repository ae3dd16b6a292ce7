//! Named counters and gauges, and their export in the Prometheus text exposition format.
//!
//! A [`Registry`] holds the metrics. [`Metric::new_counter`] and [`Metric::new_gauge`] enter one
//! under its name, [`Metric::add`], [`Metric::inc`] and [`Metric::set`] change its value, and
//! [`write_prometheus`] renders them all, sorted by name:
//!
//! ```text
//! # TYPE <name> counter
//! <name> <value>
//! ```
//!
//! Metric names are restricted to `[A-Za-z0-9_]+`.
use portable_atomic::AtomicU64;
use vstd::prelude::*;

use crate::text;
use crate::text::Comparison;

verus! {

/// Whether a [`Metric`] is a monotonically increasing counter or a free-moving gauge.
#[derive(Debug, Clone, Copy, PartialEq, Eq, Structural)]
pub enum MetricType {
    /// A value that only ever increases (e.g. packets sent).
    Counter,
    /// A value that may rise and fall (e.g. current peer count).
    Gauge,
}

impl MetricType {
    /// The word behind `# TYPE <name>`.
    pub open spec fn token(self) -> Seq<char> {
        match self {
            MetricType::Counter => "counter"@,
            MetricType::Gauge => "gauge"@,
        }
    }

    /// The Prometheus `# TYPE` token for this kind.
    pub fn prometheus_token(self) -> (r: &'static str)
        ensures
            r@ == self.token(),
    {
        match self {
            MetricType::Counter => "counter",
            MetricType::Gauge => "gauge",
        }
    }
}

/// A 64-bit atomic integer of `portable_atomic`, which has a lock-based fallback on targets
/// without native 64-bit atomic instructions.
#[verifier::external_type_specification]
#[verifier::external_body]
pub struct ExAtomicU64(AtomicU64);

/// The integer that an atomic cell holds.
pub uninterp spec fn atomic_value(cell: AtomicU64) -> u64;

/// Calls `portable_atomic::AtomicU64::new`: the cell holds the value that it was made with.
#[verifier::external_body]
fn atomic_new(v: u64) -> (r: AtomicU64)
    ensures
        atomic_value(r) == v,
{
    AtomicU64::new(v)
}

/// Calls `portable_atomic::AtomicU64::load`: what comes back is the value that the cell holds.
/// Every change of a cell in this library goes through an exclusive borrow, so the value stands
/// still while this shared borrow lasts.
#[verifier::external_body]
fn atomic_load(cell: &AtomicU64) -> (r: u64)
    ensures
        r == atomic_value(*cell),
{
    cell.load(core::sync::atomic::Ordering::Relaxed)
}

/// Calls `portable_atomic::AtomicU64::store` on a cell that nothing else can reach: it then holds
/// the stored value.
#[verifier::external_body]
fn atomic_store(cell: &mut AtomicU64, v: u64)
    ensures
        atomic_value(*final(cell)) == v,
{
    cell.store(v, core::sync::atomic::Ordering::Relaxed)
}

/// Calls `portable_atomic::AtomicU64::fetch_add` on a cell that nothing else can reach: the value
/// grows by `v`, wrapping around at 2^64, and the value before comes back.
#[verifier::external_body]
fn atomic_fetch_add(cell: &mut AtomicU64, v: u64) -> (r: u64)
    ensures
        r == atomic_value(*old(cell)),
        atomic_value(*final(cell)) == (atomic_value(*old(cell)) + v) % 0x1_0000_0000_0000_0000,
{
    cell.fetch_add(v, core::sync::atomic::Ordering::Relaxed)
}

/// The integer that 64 bits stand for when read as two's complement.
pub open spec fn signed(bits: u64) -> int {
    if bits < 0x8000_0000_0000_0000 {
        bits as int
    } else {
        bits - 0x1_0000_0000_0000_0000
    }
}

/// The 64-bit signed integer that an integer wraps around to.
pub open spec fn wrap_i64(v: int) -> int {
    (v + 0x8000_0000_0000_0000) % 0x1_0000_0000_0000_0000 - 0x8000_0000_0000_0000
}

fn to_bits(v: i64) -> (r: u64)
    ensures
        signed(r) == v,
        r == (v as int) % 0x1_0000_0000_0000_0000,
{
    let r: u64 = v as u64;
    proof {
        assert(v >= 0 ==> v as u64 == v) by (bit_vector);
        assert(v < 0 ==> v as u64 == v + 0x1_0000_0000_0000_0000) by (bit_vector);
    }
    r
}

fn from_bits(bits: u64) -> (r: i64)
    ensures
        r == signed(bits),
{
    let r: i64 = bits as i64;
    proof {
        assert(bits < 0x8000_0000_0000_0000 ==> bits as i64 == bits) by (bit_vector);
        assert(bits >= 0x8000_0000_0000_0000 ==> bits as i64 == bits - 0x1_0000_0000_0000_0000)
            by (bit_vector);
    }
    r
}

/// What a metric is: its name, its kind, and its current value.
#[verifier::ext_equal]
pub struct MetricView {
    /// The name under which it is registered.
    pub name: Seq<char>,
    /// Counter or gauge.
    pub typ: MetricType,
    /// The current value.
    pub value: int,
}

/// A single named metric: a name, a type, and a value.
///
/// The value is an `i64` semantically; it is stored as an [`AtomicU64`] and reinterpreted, so a
/// gauge may go negative.
#[derive(Debug)]
pub struct Metric {
    name: &'static str,
    typ: MetricType,
    value: AtomicU64,
}

impl View for Metric {
    type V = MetricView;

    closed spec fn view(&self) -> MetricView {
        MetricView {
            name: self.name@,
            typ: self.typ,
            value: signed(atomic_value(self.value)),
        }
    }
}

/// Whether `c` may occur in a metric name: an ASCII letter, an ASCII digit, or an underscore.
pub open spec fn is_name_char(c: char) -> bool {
    'a' <= c <= 'z' || 'A' <= c <= 'Z' || '0' <= c <= '9' || c == '_'
}

/// Whether `name` is a legal metric name.
pub open spec fn valid_name(name: Seq<char>) -> bool {
    name.len() > 0 && forall|i: int| 0 <= i < name.len() ==> is_name_char(#[trigger] name[i])
}

/// Whether every name in `ms` is legal.
pub open spec fn names_valid(ms: Seq<MetricView>) -> bool {
    forall|i: int| 0 <= i < ms.len() ==> valid_name((#[trigger] ms[i]).name)
}

/// Whether no two metrics in `ms` share a name.
pub open spec fn names_distinct(ms: Seq<MetricView>) -> bool {
    forall|i: int, j: int|
        0 <= i < j < ms.len() ==> (#[trigger] ms[i]).name != (#[trigger] ms[j]).name
}

/// Whether a metric in `ms` is called `name`.
pub open spec fn has_name(ms: Seq<MetricView>, name: Seq<char>) -> bool {
    exists|i: int| 0 <= i < ms.len() && (#[trigger] ms[i]).name == name
}

/// Validate a metric name: non-empty, only ASCII letters, digits, and underscore.
pub fn is_valid_name(name: &str) -> (r: bool)
    ensures
        r == valid_name(name@),
{
    if name.is_empty() {
        return false;
    }
    for c in it: name.chars()
        invariant
            it.seq() == name@,
            forall|k: int| 0 <= k < it.index() ==> is_name_char(#[trigger] name@[k]),
    {
        let lower = 'a' <= c && c <= 'z';
        let upper = 'A' <= c && c <= 'Z';
        let digit = '0' <= c && c <= '9';
        if !(lower || upper || digit || c == '_') {
            assert(!is_name_char(name@[it.index() as int]));
            return false;
        }
    }
    true
}

impl Metric {
    /// Create and register a counter named `name` in `registry`. `name` must match
    /// `[A-Za-z0-9_]+`. A metric that already has this name is handed back instead, as it is.
    pub fn new_counter<'a>(registry: &'a mut Registry, name: &'static str) -> (r: &'a mut Metric)
        requires
            valid_name(name@),
        ensures
            registered(old(registry)@, name@, MetricType::Counter, r@, final(registry)@, final(r)@),
            old(registry).wf() && final(r)@.name == name@ ==> final(registry).wf(),
    {
        Self::register(registry, name, MetricType::Counter)
    }

    /// Create and register a gauge named `name`. Same name rules as [`Metric::new_counter`].
    pub fn new_gauge<'a>(registry: &'a mut Registry, name: &'static str) -> (r: &'a mut Metric)
        requires
            valid_name(name@),
        ensures
            registered(old(registry)@, name@, MetricType::Gauge, r@, final(registry)@, final(r)@),
            old(registry).wf() && final(r)@.name == name@ ==> final(registry).wf(),
    {
        Self::register(registry, name, MetricType::Gauge)
    }

    fn register<'a>(
        registry: &'a mut Registry,
        name: &'static str,
        typ: MetricType,
    ) -> (r: &'a mut Metric)
        requires
            valid_name(name@),
        ensures
            registered(old(registry)@, name@, typ, r@, final(registry)@, final(r)@),
            old(registry).wf() && final(r)@.name == name@ ==> final(registry).wf(),
    {
        registry.register(name, typ)
    }

    /// The metric's name.
    pub fn name(&self) -> (r: &'static str)
        ensures
            r@ == self@.name,
    {
        self.name
    }

    /// The metric's type.
    pub fn metric_type(&self) -> (r: MetricType)
        ensures
            r == self@.typ,
    {
        self.typ
    }

    /// Add `n` to the metric's value (wrapping, like an `i64` add). For a counter `n` is normally
    /// positive; a gauge may take a negative `n` to decrement.
    pub fn add(&mut self, n: i64)
        ensures
            final(self)@ == (MetricView { value: wrap_i64(old(self)@.value + n), ..old(self)@ }),
    {
        let bits = to_bits(n);
        atomic_fetch_add(&mut self.value, bits);
    }

    /// Increment a counter/gauge by 1.
    pub fn inc(&mut self)
        ensures
            final(self)@ == (MetricView { value: wrap_i64(old(self)@.value + 1), ..old(self)@ }),
    {
        self.add(1);
    }

    /// Set the metric's absolute value (mainly for gauges).
    pub fn set(&mut self, v: i64)
        ensures
            final(self)@ == (MetricView { value: v as int, ..old(self)@ }),
    {
        let bits = to_bits(v);
        atomic_store(&mut self.value, bits);
    }

    /// The current value.
    pub fn value(&self) -> (r: i64)
        ensures
            r == self@.value,
    {
        from_bits(atomic_load(&self.value))
    }
}

/// What entering `name` into a registry does: a metric of that name that is already there is
/// handed out as it is, else a new one of kind `typ` at zero stands behind all others. `handed`
/// is the metric that is handed out, `left` what the borrower leaves of it; the other metrics stay
/// as they are.
pub open spec fn registered(
    before: Seq<MetricView>,
    name: Seq<char>,
    typ: MetricType,
    handed: MetricView,
    after: Seq<MetricView>,
    left: MetricView,
) -> bool {
    if has_name(before, name) {
        exists|i: int|
            #![trigger before[i]]
            0 <= i < before.len() && before[i].name == name && handed == before[i] && after
                == before.update(i, left)
    } else {
        &&& handed == (MetricView { name, typ, value: 0 })
        &&& after == before.push(left)
    }
}

spec fn metric_views(ms: Seq<Metric>) -> Seq<MetricView> {
    ms.map_values(|m: Metric| m@)
}

proof fn lemma_views_update(ms: Seq<Metric>, i: int)
    requires
        0 <= i < ms.len(),
    ensures
        forall|m: Metric| #[trigger]
            metric_views(ms.update(i, m)) == metric_views(ms).update(i, m@),
{
    assert forall|m: Metric| #[trigger] metric_views(ms.update(i, m)) == metric_views(ms).update(
        i,
        m@,
    ) by {
        assert(metric_views(ms.update(i, m)) =~= metric_views(ms).update(i, m@));
    }
}

/// A metric registry.
#[derive(Debug)]
pub struct Registry {
    metrics: Vec<Metric>,
}

impl View for Registry {
    type V = Seq<MetricView>;

    closed spec fn view(&self) -> Seq<MetricView> {
        metric_views(self.metrics@)
    }
}

impl Registry {
    /// Every name is legal, and no two metrics share one.
    pub open spec fn wf(&self) -> bool {
        names_valid(self@) && names_distinct(self@)
    }

    /// An empty registry.
    pub fn new() -> (r: Registry)
        ensures
            r@ == Seq::<MetricView>::empty(),
            r.wf(),
    {
        let r = Registry { metrics: Vec::new() };
        assert(r@ =~= Seq::<MetricView>::empty());
        r
    }

    /// Whether a metric called `name` has been registered.
    pub fn is_registered(&self, name: &str) -> (r: bool)
        ensures
            r == has_name(self@, name@),
            r == exists|i: int| 0 <= i < self@.len() && (#[trigger] self@[i]).name == name@,
    {
        let mut i: usize = 0;
        while i < self.metrics.len()
            invariant
                0 <= i <= self.metrics.len(),
                forall|k: int| 0 <= k < i ==> (#[trigger] self@[k]).name != name@,
            decreases self.metrics.len() - i,
        {
            proof {
                text::lemma_compare_same(self.metrics@[i as int].name@, name@);
            }
            if text::compare_str(self.metrics[i].name, name) == Comparison::Same {
                assert(self@[i as int].name == name@);
                return true;
            }
            i += 1;
        }
        false
    }

    /// Enters a metric, or hands back the one that already has the name.
    fn register(&mut self, name: &'static str, typ: MetricType) -> (r: &mut Metric)
        requires
            valid_name(name@),
        ensures
            registered(old(self)@, name@, typ, r@, final(self)@, final(r)@),
            old(self).wf() && final(r)@.name == name@ ==> final(self).wf(),
    {
        let mut i: usize = 0;
        while i < self.metrics.len()
            invariant
                *self == *old(self),
                0 <= i <= self.metrics.len(),
                forall|k: int| 0 <= k < i ==> (#[trigger] self@[k]).name != name@,
            decreases self.metrics.len() - i,
        {
            proof {
                text::lemma_compare_same(self.metrics@[i as int].name@, name@);
            }
            if text::compare_str(self.metrics[i].name, name) == Comparison::Same {
                assert(self@[i as int].name == name@);
                proof {
                    lemma_views_update(self.metrics@, i as int);
                }
                return &mut self.metrics[i];
            }
            i += 1;
        }
        let metric = Metric { name, typ, value: atomic_new(0) };
        self.metrics.push(metric);
        let last: usize = self.metrics.len() - 1;
        proof {
            lemma_views_update(self.metrics@, last as int);
            assert(self@ =~= old(self)@.push(metric@));
            assert forall|left: MetricView| #[trigger] self@.update(last as int, left)
                == old(self)@.push(left) by {
                assert(self@.update(last as int, left) =~= old(self)@.push(left));
            }
        }
        &mut self.metrics[last]
    }
}

/// Whether the names in `ms` stand in dictionary order.
pub open spec fn name_sorted(ms: Seq<MetricView>) -> bool {
    forall|i: int, j: int|
        0 <= i < j < ms.len() ==> text::compare_text(
            (#[trigger] ms[i]).name,
            (#[trigger] ms[j]).name,
        ) != Comparison::After
}

/// Whether `order` is an order in which the metrics `ms` may be exported: all of them, each once,
/// sorted by name.
pub open spec fn export_order(order: Seq<MetricView>, ms: Seq<MetricView>) -> bool {
    &&& name_sorted(order)
    &&& order.to_multiset() == ms.to_multiset()
}

/// The two lines of one metric in the export.
pub open spec fn metric_lines(m: MetricView) -> Seq<char> {
    "# TYPE "@ + m.name + " "@ + m.typ.token() + "\n"@ + m.name + " "@ + text::decimal(m.value)
        + "\n"@
}

/// The export of metrics in a given order.
pub open spec fn render(ms: Seq<MetricView>) -> Seq<char>
    decreases ms.len(),
{
    if ms.len() == 0 {
        seq![]
    } else {
        render(ms.drop_last()) + metric_lines(ms.last())
    }
}

spec fn ref_views(ms: Seq<&Metric>) -> Seq<MetricView> {
    ms.map_values(|m: &Metric| m@)
}

impl Registry {
    /// The registered metrics, sorted by name (stable, deterministic export order).
    fn snapshot(&self) -> (r: Vec<&Metric>)
        ensures
            export_order(ref_views(r@), self@),
    {
        let mut sorted: Vec<&Metric> = Vec::new();
        let mut n: usize = 0;
        assert(ref_views(sorted@) =~= self@.take(0));
        while n < self.metrics.len()
            invariant
                0 <= n <= self.metrics.len(),
                export_order(ref_views(sorted@), self@.take(n as int)),
            decreases self.metrics.len() - n,
        {
            let metric = &self.metrics[n];
            let mut at: usize = sorted.len();
            while at > 0 && text::compare_str(sorted[at - 1].name, metric.name)
                == Comparison::After
                invariant
                    0 <= at <= sorted.len(),
                    name_sorted(ref_views(sorted@)),
                    forall|k: int|
                        at <= k < sorted.len() ==> text::compare_text(
                            (#[trigger] ref_views(sorted@)[k]).name,
                            metric@.name,
                        ) == Comparison::After,
                decreases at,
            {
                at -= 1;
            }
            let ghost before = ref_views(sorted@);
            proof {
                assert forall|k: int| 0 <= k < at implies text::compare_text(
                    (#[trigger] before[k]).name,
                    metric@.name,
                ) != Comparison::After by {
                    lemma_not_after_transitive(before[k].name, before[at - 1].name, metric@.name);
                }
            }
            sorted.insert(at, metric);
            proof {
                let after = ref_views(sorted@);
                assert(after =~= before.insert(at as int, metric@));
                assert forall|i: int, j: int| 0 <= i < j < after.len() implies text::compare_text(
                    (#[trigger] after[i]).name,
                    (#[trigger] after[j]).name,
                ) != Comparison::After by {
                    if i == at {
                        assert(after[j] == before[j - 1]);
                        text::lemma_compare_swap(metric@.name, before[j - 1].name);
                    } else if j == at {
                        assert(after[i] == before[i]);
                    } else {
                        let a = if i < at { i } else { i - 1 };
                        let b = if j < at { j } else { j - 1 };
                        assert(after[i] == before[a] && after[j] == before[b]);
                    }
                }
                assert(self@.take(n + 1) =~= self@.take(n as int).push(metric@));
                vstd::seq_lib::to_multiset_insert(before, at as int, metric@);
                broadcast use vstd::seq_lib::group_to_multiset_ensures;
            }
            n += 1;
        }
        assert(self@.take(n as int) =~= self@);
        sorted
    }
}

/// Render every registered metric in Prometheus text exposition format, sorted by name: per metric
/// a `# TYPE <name> <kind>` line followed by a `<name> <value>` line.
pub fn write_prometheus(registry: &Registry) -> (r: String)
    ensures
        exists|order: Seq<MetricView>| #[trigger]
            export_order(order, registry@) && r@ == render(order),
{
    let mut out = String::new();
    let sorted = registry.snapshot();
    let ghost order = ref_views(sorted@);
    let mut i: usize = 0;
    assert(out@ =~= render(order.take(0)));
    while i < sorted.len()
        invariant
            0 <= i <= sorted.len(),
            order == ref_views(sorted@),
            out@ == render(order.take(i as int)),
        decreases sorted.len() - i,
    {
        let m = sorted[i];
        out.append("# TYPE ");
        out.append(m.name);
        out.append(" ");
        out.append(m.typ.prometheus_token());
        out.append("\n");
        out.append(m.name);
        out.append(" ");
        text::append_decimal(&mut out, m.value());
        out.append("\n");
        proof {
            let before = render(order.take(i as int));
            assert(order.take(i + 1).drop_last() =~= order.take(i as int));
            assert(order.take(i + 1).last() == m@);
            assert(out@ =~= before + metric_lines(m@));
        }
        i += 1;
    }
    assert(order.take(i as int) =~= order);
    out
}

proof fn lemma_not_after_transitive(a: Seq<char>, b: Seq<char>, c: Seq<char>)
    requires
        text::compare_text(a, b) != Comparison::After || a == b,
        text::compare_text(b, c) != Comparison::After,
    ensures
        text::compare_text(a, c) != Comparison::After,
{
    text::lemma_compare_same(a, b);
    text::lemma_compare_same(b, c);
    if a != b && b != c {
        text::lemma_compare_transitive(a, b, c);
    }
}

spec fn precedes(a: MetricView, b: MetricView) -> bool {
    text::compare_text(a.name, b.name) == Comparison::Before || (a.name == b.name && (a.value
        < b.value || (a.value == b.value && (a.typ == b.typ || a.typ is Counter))))
}

proof fn lemma_precedes_total()
    ensures
        vstd::relations::total_ordering(|a: MetricView, b: MetricView| precedes(a, b)),
{
    let leq = |a: MetricView, b: MetricView| precedes(a, b);
    assert forall|a: MetricView, b: MetricView| #[trigger] leq(a, b) && #[trigger] leq(
        b,
        a,
    ) implies a == b by {
        text::lemma_compare_swap(a.name, b.name);
        text::lemma_compare_same(a.name, b.name);
        text::lemma_compare_same(b.name, a.name);
    }
    assert forall|a: MetricView, b: MetricView| #[trigger] leq(a, b) || #[trigger] leq(b, a) by {
        text::lemma_compare_swap(a.name, b.name);
        text::lemma_compare_swap(b.name, a.name);
        text::lemma_compare_same(a.name, b.name);
    }
    assert forall|a: MetricView, b: MetricView, c: MetricView| #[trigger]
        leq(a, b) && #[trigger] leq(b, c) implies leq(a, c) by {
        if a.name != b.name && b.name != c.name {
            text::lemma_compare_transitive(a.name, b.name, c.name);
        }
    }
}

proof fn lemma_same_members(s: Seq<MetricView>, t: Seq<MetricView>, m: MetricView)
    requires
        s.to_multiset() == t.to_multiset(),
    ensures
        s.contains(m) == t.contains(m),
{
    vstd::seq_lib::to_multiset_contains(s, m);
    vstd::seq_lib::to_multiset_contains(t, m);
}

proof fn lemma_order_names_distinct(order: Seq<MetricView>, ms: Seq<MetricView>)
    requires
        names_distinct(ms),
        order.to_multiset() == ms.to_multiset(),
    ensures
        names_distinct(order),
{
    assert(ms.no_duplicates());
    ms.lemma_multiset_has_no_duplicates();
    order.lemma_multiset_has_no_duplicates_conv();
    assert forall|i: int, j: int| 0 <= i < j < order.len() implies (#[trigger] order[i]).name != (
    #[trigger] order[j]).name by {
        assert(order.contains(order[i]) && order.contains(order[j]));
        lemma_same_members(order, ms, order[i]);
        lemma_same_members(order, ms, order[j]);
        assert(ms.contains(order[i]) && ms.contains(order[j]));
        let p = choose|p: int| 0 <= p < ms.len() && ms[p] == order[i];
        let q = choose|q: int| 0 <= q < ms.len() && ms[q] == order[j];
        if order[i].name == order[j].name {
            assert(p == q);
        }
    }
}

/// The export is deterministic: it depends on which metrics are registered, not on the order in
/// which they were registered.
pub proof fn law_export_is_deterministic(
    ms1: Seq<MetricView>,
    ms2: Seq<MetricView>,
    order1: Seq<MetricView>,
    order2: Seq<MetricView>,
)
    requires
        names_distinct(ms1),
        ms1.to_multiset() == ms2.to_multiset(),
        export_order(order1, ms1),
        export_order(order2, ms2),
    ensures
        order1 == order2,
        render(order1) == render(order2),
{
    let leq = |a: MetricView, b: MetricView| precedes(a, b);
    lemma_precedes_total();
    lemma_order_names_distinct(order1, ms1);
    lemma_order_names_distinct(order2, ms1);
    assert forall|order: Seq<MetricView>| names_distinct(order) && name_sorted(
        order,
    ) implies #[trigger] vstd::relations::sorted_by(order, leq) by {
        assert forall|i: int, j: int| 0 <= i < j < order.len() implies #[trigger] leq(
            order[i],
            order[j],
        ) by {
            text::lemma_compare_same(order[i].name, order[j].name);
        }
    }
    vstd::seq_lib::lemma_sorted_unique(order1, order2, leq);
}

/// Registering a name a second time, of whatever kind, hands back the metric as the first borrower
/// left it, and adds nothing: no second metric has the name, and if the second borrower leaves the
/// metric as it is, so is the registry.
pub proof fn law_a_name_is_registered_once(
    ms: Seq<MetricView>,
    name: Seq<char>,
    first: MetricType,
    handed: MetricView,
    after: Seq<MetricView>,
    left: MetricView,
    second: MetricType,
    handed_again: MetricView,
    after_again: Seq<MetricView>,
    left_again: MetricView,
)
    requires
        names_distinct(ms),
        registered(ms, name, first, handed, after, left),
        left.name == name,
        registered(after, name, second, handed_again, after_again, left_again),
        left_again.name == name,
    ensures
        !has_name(ms, name) ==> handed.typ == first,
        handed_again == left,
        after_again.len() == after.len(),
        left_again == handed_again ==> after_again == after,
        names_distinct(after_again),
{
    let at = if has_name(ms, name) {
        choose|i: int|
            #![trigger ms[i]]
            0 <= i < ms.len() && ms[i].name == name && handed == ms[i] && after == ms.update(
                i,
                left,
            )
    } else {
        ms.len() as int
    };
    assert(after[at] == left);
    assert forall|k: int| 0 <= k < after.len() && k != at implies (#[trigger] after[k]).name
        != name by {
        assert(after[k] == ms[k]);
    }
    assert(has_name(after, name));
    let again = choose|i: int|
        #![trigger after[i]]
        0 <= i < after.len() && after[i].name == name && handed_again == after[i] && after_again
            == after.update(i, left_again);
    assert(again == at);
    assert forall|i: int, j: int| 0 <= i < j < after_again.len() implies (
    #[trigger] after_again[i]).name != (#[trigger] after_again[j]).name by {
        assert(i != at ==> after_again[i] == after[i] && after[i] == ms[i]);
        assert(j != at ==> after_again[j] == after[j] && after[j] == ms[j]);
    }
    if left_again == handed_again {
        assert(after_again =~= after);
    }
}

/// Two additions in a row amount to one addition of the sum, wrap-around included.
pub proof fn law_additions_accumulate(v: int, m: int, n: int)
    ensures
        wrap_i64(wrap_i64(v + m) + n) == wrap_i64(v + m + n),
        i64::MIN <= wrap_i64(v) <= i64::MAX,
        i64::MIN <= v <= i64::MAX ==> wrap_i64(v) == v,
{
}

/// Every metric is found in the export: its two lines stand there.
pub proof fn law_export_holds_every_metric(ms: Seq<MetricView>, order: Seq<MetricView>, i: int)
    requires
        0 <= i < ms.len(),
        export_order(order, ms),
    ensures
        exists|before: Seq<char>, behind: Seq<char>|
            render(order) == #[trigger] (before + metric_lines(ms[i]) + behind),
{
    assert(ms.contains(ms[i]));
    lemma_same_members(order, ms, ms[i]);
    let k = choose|k: int| 0 <= k < order.len() && order[k] == ms[i];
    lemma_render_holds(order, k);
}

proof fn lemma_render_holds(order: Seq<MetricView>, k: int)
    requires
        0 <= k < order.len(),
    ensures
        exists|before: Seq<char>, behind: Seq<char>|
            render(order) == #[trigger] (before + metric_lines(order[k]) + behind),
    decreases order.len(),
{
    if k == order.len() - 1 {
        let before = render(order.drop_last());
        assert(render(order) =~= before + metric_lines(order[k]) + Seq::<char>::empty());
    } else {
        lemma_render_holds(order.drop_last(), k);
        let (before, behind) = choose|before: Seq<char>, behind: Seq<char>|
            render(order.drop_last()) == #[trigger] (before + metric_lines(
                order.drop_last()[k],
            ) + behind);
        assert(render(order) =~= before + metric_lines(order[k]) + (behind + metric_lines(
            order.last(),
        )));
    }
}

/// The 64 bits of a cell stand for the signed number that is congruent to them.
pub proof fn law_signed_values(bits: u64)
    ensures
        i64::MIN <= signed(bits) <= i64::MAX,
        signed(bits) == bits || signed(bits) == bits - 0x1_0000_0000_0000_0000,
{
}

/// An addition that overflows comes out a multiple of 2^64 away from the sum, within 64 bits.
pub proof fn law_additions_wrap_around(v: int)
    ensures
        i64::MIN <= wrap_i64(v) <= i64::MAX,
        (v - wrap_i64(v)) % 0x1_0000_0000_0000_0000 == 0,
{
}

/// A metric name: one or more ASCII letters, digits and underscores. A longer text is a name exactly
/// if its parts are.
pub proof fn law_metric_names(a: Seq<char>, b: Seq<char>, c: char)
    ensures
        !valid_name(seq![]),
        valid_name(seq![c]) <==> 48 <= c as int <= 57 || 65 <= c as int <= 90 || c as int == 95
            || 97 <= c as int <= 122,
        a.len() > 0 && b.len() > 0 ==> (valid_name(a + b) <==> valid_name(a) && valid_name(b)),
{
    assert(seq![c][0] == c);
    if a.len() > 0 && b.len() > 0 {
        if valid_name(a + b) {
            assert forall|i: int| 0 <= i < a.len() implies is_name_char(#[trigger] a[i]) by {
                assert(is_name_char((a + b)[i]));
            }
            assert forall|i: int| 0 <= i < b.len() implies is_name_char(#[trigger] b[i]) by {
                assert(is_name_char((a + b)[a.len() + i]));
            }
        }
        if valid_name(a) && valid_name(b) {
            assert forall|i: int| 0 <= i < (a + b).len() implies is_name_char(
                #[trigger] (a + b)[i],
            ) by {
                if i < a.len() {
                    assert(is_name_char(a[i]));
                } else {
                    assert(is_name_char(b[i - a.len()]));
                }
            }
        }
    }
}

/// Registering leaves every metric of another name where and as it is. A new name gets a metric of
/// the given kind at zero; a name that is there already, to the letter, gets the metric that has it.
pub proof fn law_registration(
    ms: Seq<MetricView>,
    name: Seq<char>,
    typ: MetricType,
    handed: MetricView,
    after: Seq<MetricView>,
    left: MetricView,
)
    requires
        registered(ms, name, typ, handed, after, left),
    ensures
        forall|i: int|
            0 <= i < ms.len() && (#[trigger] ms[i]).name != name ==> i < after.len() && after[i]
                == ms[i],
        handed.name == name,
        (forall|i: int| 0 <= i < ms.len() ==> (#[trigger] ms[i]).name != name) ==> {
            &&& handed.typ == typ
            &&& handed.value == 0
            &&& after.len() == ms.len() + 1
            &&& after[ms.len() as int] == left
        },
        (exists|i: int| 0 <= i < ms.len() && (#[trigger] ms[i]).name == name) ==> {
            &&& ms.contains(handed)
            &&& after.len() == ms.len()
            &&& after.contains(left)
        },
{
    if has_name(ms, name) {
        let i = choose|i: int|
            #![trigger ms[i]]
            0 <= i < ms.len() && ms[i].name == name && handed == ms[i] && after == ms.update(
                i,
                left,
            );
        assert(after[i] == left);
    }
}

/// The export of one metric is its type line and its value line, and the export of metrics behind
/// one another is the export of each.
pub proof fn law_export_text(m: MetricView, a: Seq<MetricView>, b: Seq<MetricView>)
    ensures
        render(seq![]) == Seq::<char>::empty(),
        render(seq![m]) == "# TYPE "@ + m.name + " "@ + (match m.typ {
            MetricType::Counter => "counter"@,
            MetricType::Gauge => "gauge"@,
        }) + "\n"@ + m.name + " "@ + text::decimal(m.value) + "\n"@,
        render(a + b) == render(a) + render(b),
    decreases b.len(),
{
    reveal_with_fuel(render, 2);
    assert(seq![m].drop_last() =~= seq![]);
    assert(render(seq![m]) =~= metric_lines(m));
    if b.len() == 0 {
        assert(a + b =~= a);
        assert(render(a) + render(b) =~= render(a));
    } else {
        law_export_text(m, a, b.drop_last());
        assert((a + b).drop_last() =~= a + b.drop_last());
        assert(render(a + b) =~= render(a) + render(b));
    }
}

/// The export holds every metric as often as it is registered and nothing else, and no name in it
/// stands behind one that the dictionary has later.
pub proof fn law_export_is_sorted_and_complete(
    ms: Seq<MetricView>,
    order: Seq<MetricView>,
    m: MetricView,
)
    requires
        export_order(order, ms),
    ensures
        order.len() == ms.len(),
        order.contains(m) <==> ms.contains(m),
        order.to_multiset().count(m) == ms.to_multiset().count(m),
        forall|i: int, j: int, k: int|
            0 <= i < j < order.len() ==> !(#[trigger] text::comes_first_at(
                (#[trigger] order[j]).name,
                (#[trigger] order[i]).name,
                k,
            )),
{
    lemma_same_members(order, ms, m);
    vstd::seq_lib::to_multiset_len(order);
    vstd::seq_lib::to_multiset_len(ms);
    assert forall|i: int, j: int, k: int| 0 <= i < j < order.len() implies !(
    #[trigger] text::comes_first_at(
        (#[trigger] order[j]).name,
        (#[trigger] order[i]).name,
        k,
    )) by {
        text::law_dictionary_order(order[j].name, order[i].name);
        text::law_dictionary_order(order[i].name, order[j].name);
    }
}

} // verus!
