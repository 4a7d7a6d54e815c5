use vstd::prelude::*;
use vstd::string::*;

verus! {

/// Prometheus metric type.
#[derive(Debug, Clone, Copy, PartialEq, Eq, Structural)]
pub enum MetricType {
    Counter,
    Gauge,
    Histogram,
}

pub open spec fn spec_exposition_name(t: MetricType) -> Seq<char> {
    match t {
        MetricType::Counter => "counter"@,
        MetricType::Gauge => "gauge"@,
        MetricType::Histogram => "histogram"@,
    }
}

impl MetricType {
    /// Name of the type in the exposition format.
    pub fn exposition_name(&self) -> (s: &'static str)
        ensures
            s@ == spec_exposition_name(*self),
    {
        match self {
            MetricType::Counter => "counter",
            MetricType::Gauge => "gauge",
            MetricType::Histogram => "histogram",
        }
    }
}

/// The `# HELP` and `# TYPE` lines of a metric.
pub open spec fn spec_metric_header(name: Seq<char>, help: Seq<char>, t: MetricType) -> Seq<char> {
    "# HELP "@ + name + " "@ + help + "\n"@ + "# TYPE "@ + name + " "@ + spec_exposition_name(t) + "\n"@
}

/// One `key="value"` label.
pub open spec fn spec_label(k: Seq<char>, v: Seq<char>) -> Seq<char> {
    k + "=\""@ + v + "\""@
}

/// The labels `k="v"` joined by commas.
pub open spec fn spec_labels(labels: Seq<(Seq<char>, Seq<char>)>) -> Seq<char>
    decreases labels.len(),
{
    if labels.len() == 0 {
        Seq::empty()
    } else if labels.len() == 1 {
        spec_label(labels[0].0, labels[0].1)
    } else {
        spec_labels(labels.drop_last()) + ","@ + spec_label(labels.last().0, labels.last().1)
    }
}

/// The series name of a metric sample: the name, with `{labels}` when there are any.
pub open spec fn spec_series(name: Seq<char>, labels: Seq<(Seq<char>, Seq<char>)>) -> Seq<char> {
    if labels.len() == 0 {
        name
    } else {
        name + "{"@ + spec_labels(labels) + "}"@
    }
}

pub open spec fn label_views(labels: Seq<(String, String)>) -> Seq<(Seq<char>, Seq<char>)> {
    labels.map_values(|p: (String, String)| (p.0@, p.1@))
}

/// The `# HELP` and `# TYPE` lines of a metric in the exposition format.
pub fn metric_header(name: &str, help: &str, metric_type: MetricType) -> (s: String)
    ensures
        s@ == spec_metric_header(name@, help@, metric_type),
{
    let s = String::from_str("# HELP ");
    let s = s.concat(name);
    let s = s.concat(" ");
    let s = s.concat(help);
    let s = s.concat("\n");
    let s = s.concat("# TYPE ");
    let s = s.concat(name);
    let s = s.concat(" ");
    let s = s.concat(metric_type.exposition_name());
    let s = s.concat("\n");
    proof {
        assert(s@ =~= spec_metric_header(name@, help@, metric_type));
    }
    s
}

/// The series name of a sample: `name` or `name{k="v",...}`.
pub fn metric_series(name: &str, labels: &Vec<(String, String)>) -> (s: String)
    ensures
        s@ == spec_series(name@, label_views(labels@)),
{
    if labels.len() == 0 {
        return String::from_str(name);
    }
    let mut joined = String::new();
    let mut i: usize = 0;
    while i < labels.len()
        invariant
            i <= labels@.len(),
            labels@.len() > 0,
            joined@ == spec_labels(label_views(labels@).take(i as int)),
        decreases labels@.len() - i,
    {
        let ghost prev = label_views(labels@).take(i as int);
        proof {
            assert(label_views(labels@).take(i as int + 1).drop_last() =~= prev);
        }
        if i > 0 {
            joined.append(",");
        }
        joined.append(labels[i].0.as_str());
        joined.append("=\"");
        joined.append(labels[i].1.as_str());
        joined.append("\"");
        proof {
            let next = label_views(labels@).take(i as int + 1);
            assert(next.last() == (labels@[i as int].0@, labels@[i as int].1@));
            if i == 0 {
                assert(joined@ =~= spec_labels(next));
            } else {
                assert(joined@ =~= spec_labels(next));
            }
        }
        i = i + 1;
    }
    proof {
        assert(label_views(labels@).take(labels@.len() as int) =~= label_views(labels@));
    }
    let s = String::from_str(name);
    let s = s.concat("{");
    let s = s.concat(joined.as_str());
    let s = s.concat("}");
    proof {
        assert(s@ =~= spec_series(name@, label_views(labels@)));
    }
    s
}

/// One metric series with its value.
pub struct MetricEntry<V> {
    pub name: String,
    pub metric_type: MetricType,
    pub help: String,
    pub value: V,
    pub labels: Vec<(String, String)>,
}

/// The identity of a series: its name and labels.
pub open spec fn series_key<V>(e: MetricEntry<V>) -> (Seq<char>, Seq<(Seq<char>, Seq<char>)>) {
    (e.name@, label_views(e.labels@))
}

/// Whether two label lists are equal, pair by pair.
pub fn labels_equal(a: &Vec<(String, String)>, b: &Vec<(String, String)>) -> (eq: bool)
    ensures
        eq == (label_views(a@) == label_views(b@)),
{
    if a.len() != b.len() {
        proof {
            assert(label_views(a@).len() != label_views(b@).len());
        }
        return false;
    }
    let mut i: usize = 0;
    while i < a.len()
        invariant
            a@.len() == b@.len(),
            i <= a@.len(),
            forall|j: int| 0 <= j < i ==> label_views(a@)[j] == label_views(b@)[j],
        decreases a@.len() - i,
    {
        if !(a[i].0 == b[i].0 && a[i].1 == b[i].1) {
            proof {
                assert(label_views(a@)[i as int] != label_views(b@)[i as int]);
            }
            return false;
        }
        i = i + 1;
    }
    proof {
        assert(label_views(a@) =~= label_views(b@));
    }
    true
}

/// Registry of metric series, at most one per name and label set.
pub struct MetricsRegistry<V> {
    entries: Vec<MetricEntry<V>>,
}

impl<V> MetricsRegistry<V> {
    pub closed spec fn spec_entries(&self) -> Seq<MetricEntry<V>> {
        self.entries@
    }

    /// No two series share a name and label set.
    pub open spec fn wf(&self) -> bool {
        forall|i: int, j: int| 0 <= i < j < self.spec_entries().len() ==> series_key(self.spec_entries()[i]) != series_key(self.spec_entries()[j])
    }

    pub fn new() -> (r: Self)
        ensures
            r.wf(),
            r.spec_entries() == Seq::<MetricEntry<V>>::empty(),
    {
        MetricsRegistry { entries: Vec::new() }
    }

    /// Position of the series with this name and these labels, if registered.
    pub fn position(&self, name: &str, labels: &Vec<(String, String)>) -> (r: Option<usize>)
        requires
            self.wf(),
        ensures
            match r {
                Some(i) => i < self.spec_entries().len() && series_key(self.spec_entries()[i as int]) == (name@, label_views(labels@)),
                None => forall|i: int| 0 <= i < self.spec_entries().len() ==> series_key(#[trigger] self.spec_entries()[i]) != (name@, label_views(labels@)),
            },
    {
        let target = String::from_str(name);
        let mut i: usize = 0;
        while i < self.entries.len()
            invariant
                i <= self.spec_entries().len(),
                target@ == name@,
                forall|j: int| 0 <= j < i ==> series_key(#[trigger] self.spec_entries()[j]) != (name@, label_views(labels@)),
            decreases self.spec_entries().len() - i,
        {
            if self.entries[i].name == target && labels_equal(&self.entries[i].labels, labels) {
                return Some(i);
            }
            i = i + 1;
        }
        None
    }

    /// Registers a series, or replaces the value of the registered one
    /// with the same name and labels (its type and help text stay).
    pub fn register(&mut self, entry: MetricEntry<V>)
        requires
            old(self).wf(),
        ensures
            final(self).wf(),
            match old(self).position_spec(series_key(entry)) {
                Some(i) => final(self).spec_entries() == old(self).spec_entries().update(
                    i,
                    MetricEntry { value: entry.value, ..old(self).spec_entries()[i] },
                ),
                None => final(self).spec_entries() == old(self).spec_entries().push(entry),
            },
    {
        match self.position(entry.name.as_str(), &entry.labels) {
            Some(i) => {
                proof {
                    self.lemma_position_unique(i as int, series_key(entry));
                }
                self.entries[i].value = entry.value;
            },
            None => {
                proof {
                    assert(old(self).position_spec(series_key(entry)) is None);
                }
                self.entries.push(entry);
            },
        }
    }

    /// Index of the series with key `k`, if any.
    pub open spec fn position_spec(&self, k: (Seq<char>, Seq<(Seq<char>, Seq<char>)>)) -> Option<int> {
        if exists|i: int| 0 <= i < self.spec_entries().len() && series_key(self.spec_entries()[i]) == k {
            Some(choose|i: int| 0 <= i < self.spec_entries().len() && series_key(self.spec_entries()[i]) == k)
        } else {
            None
        }
    }

    proof fn lemma_position_unique(&self, i: int, k: (Seq<char>, Seq<(Seq<char>, Seq<char>)>))
        requires
            self.wf(),
            0 <= i < self.spec_entries().len(),
            series_key(self.spec_entries()[i]) == k,
        ensures
            self.position_spec(k) == Some(i),
    {
        let j = choose|j: int| 0 <= j < self.spec_entries().len() && series_key(self.spec_entries()[j]) == k;
        if j != i {
            if j < i {
                assert(series_key(self.spec_entries()[j]) != series_key(self.spec_entries()[i]));
            } else {
                assert(series_key(self.spec_entries()[i]) != series_key(self.spec_entries()[j]));
            }
        }
    }

    /// Replaces the value of the series at `i`.
    pub fn set_value(&mut self, i: usize, value: V)
        requires
            old(self).wf(),
            i < old(self).spec_entries().len(),
        ensures
            final(self).wf(),
            final(self).spec_entries() == old(self).spec_entries().update(
                i as int,
                MetricEntry { value, ..old(self).spec_entries()[i as int] },
            ),
    {
        self.entries[i].value = value;
    }

    /// The registered series, in registration order.
    pub fn entries(&self) -> (r: &[MetricEntry<V>])
        ensures
            r@ == self.spec_entries(),
    {
        self.entries.as_slice()
    }

    /// Forgets every series.
    pub fn clear(&mut self)
        ensures
            final(self).wf(),
            final(self).spec_entries() == Seq::<MetricEntry<V>>::empty(),
    {
        self.entries.clear();
    }
}

/// Law: after a series is registered, looking its name and labels up finds
/// it, holding the value just registered (a new series or an update).
pub proof fn lemma_register_then_find<V>(old: MetricsRegistry<V>, new: MetricsRegistry<V>, e: MetricEntry<V>)
    requires
        old.wf(),
        new.wf(),
        match old.position_spec(series_key(e)) {
            Some(i) => new.spec_entries() == old.spec_entries().update(
                i,
                MetricEntry { value: e.value, ..old.spec_entries()[i] },
            ),
            None => new.spec_entries() == old.spec_entries().push(e),
        },
    ensures
        new.position_spec(series_key(e)) is Some,
        new.spec_entries()[new.position_spec(series_key(e))->0].value == e.value,
{
    let k = series_key(e);
    match old.position_spec(k) {
        Some(i) => {
            let j = choose|j: int| 0 <= j < old.spec_entries().len() && series_key(old.spec_entries()[j]) == k;
            assert(series_key(new.spec_entries()[j]) == k);
            new.lemma_position_unique(j, k);
        },
        None => {
            let last = old.spec_entries().len() as int;
            assert(new.spec_entries()[last] == e);
            new.lemma_position_unique(last, k);
        },
    }
}

/// CSV header of the trade log.
pub open spec fn spec_trade_csv_header() -> Seq<char> {
    "timestamp,trade_id,order_id,side,entry_price,exit_price,size,value_usd,gross_pnl,fees_paid,net_pnl,pnl_percent,duration_secs,volatility"@
}

/// Trade logger target: one CSV file per session.
pub struct TradeLogger {
    output_path: String,
    session_id: String,
}

impl TradeLogger {
    pub closed spec fn spec_output_path(&self) -> Seq<char> {
        self.output_path@
    }

    pub closed spec fn spec_session_id(&self) -> Seq<char> {
        self.session_id@
    }

    /// The logger of a session: its file is `{output_dir}/trades_{session_id}.csv`.
    pub fn new(output_dir: &str, session_id: String) -> (l: Self)
        ensures
            l.spec_session_id() == session_id@,
            l.spec_output_path() == output_dir@ + "/trades_"@ + session_id@ + ".csv"@,
    {
        let p = String::from_str(output_dir);
        let p = p.concat("/trades_");
        let p = p.concat(session_id.as_str());
        let p = p.concat(".csv");
        TradeLogger { output_path: p, session_id }
    }

    /// Get session ID.
    pub fn session_id(&self) -> (s: &str)
        ensures
            s@ == self.spec_session_id(),
    {
        self.session_id.as_str()
    }

    /// Get output path.
    pub fn output_path(&self) -> (s: &str)
        ensures
            s@ == self.spec_output_path(),
    {
        self.output_path.as_str()
    }

    /// The header line written at the top of the file.
    pub fn csv_header() -> (s: &'static str)
        ensures
            s@ == spec_trade_csv_header(),
    {
        "timestamp,trade_id,order_id,side,entry_price,exit_price,size,value_usd,gross_pnl,fees_paid,net_pnl,pnl_percent,duration_secs,volatility"
    }
}

/// Build identification of the library.
#[derive(Debug, Clone, Copy)]
pub struct BuildInfo {
    pub version: &'static str,
    pub name: &'static str,
    pub codename: &'static str,
    pub git_hash: &'static str,
    pub build_date: &'static str,
    pub rust_version: &'static str,
}

/// The build identification of this release.
pub fn build_info() -> (b: BuildInfo)
    ensures
        b.version@ == "7.0.0"@,
        b.name@ == "gridzbotz"@,
        b.codename@ == "GRIDZBOTZ V7.0 — Forensics Edition"@,
        b.git_hash@ == "v7.0-pre-launch-blockers"@,
        b.build_date@ == "2026-03-15"@,
        b.rust_version@ == "1.85"@,
{
    BuildInfo {
        version: "7.0.0",
        name: "gridzbotz",
        codename: "GRIDZBOTZ V7.0 — Forensics Edition",
        git_hash: "v7.0-pre-launch-blockers",
        build_date: "2026-03-15",
        rust_version: "1.85",
    }
}

} // verus!
