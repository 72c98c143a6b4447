//! Metrics on nodes, kept in gauge families of `prometheus_client`.

use vstd::prelude::*;

use crate::controller::reconciler;
use crate::controller::reconciler::to_signed;
use crate::lists::{push_item, two_items};
use crate::text;

verus! {

/// Labels for the ledger sequence metric
#[derive(Clone, Debug, PartialEq, Eq, Hash)]
pub struct NodeLabels {
    pub namespace: String,
    pub name: String,
    pub node_type: String,
    pub network: String,
}

/// The labels, each with its name, in the order in which they are written out.
pub open spec fn label_pairs(
    namespace: Seq<char>,
    name: Seq<char>,
    node_type: Seq<char>,
    network: Seq<char>,
) -> Seq<(Seq<char>, Seq<char>)> {
    seq![
        ("namespace"@, namespace),
        ("name"@, name),
        ("node_type"@, node_type),
        ("network"@, network),
    ]
}

impl NodeLabels {
    /// The labels, each with its name.
    pub fn pairs(&self) -> (r: Vec<(String, String)>)
        ensures
            r.deep_view() == label_pairs(
                self.namespace@,
                self.name@,
                self.node_type@,
                self.network@,
            ),
    {
        let mut pairs = two_items(
            ("namespace".to_owned(), self.namespace.clone()),
            ("name".to_owned(), self.name.clone()),
        );
        push_item(&mut pairs, ("node_type".to_owned(), self.node_type.clone()));
        push_item(&mut pairs, ("network".to_owned(), self.network.clone()));
        pairs
    }
}

/// A family of gauges, one for each set of labels. The family itself is kept out of
/// sight, since its type holds a function pointer.
#[verifier::external_body]
pub struct GaugeFamily {
    family: prometheus_client::metrics::family::Family<
        Vec<(String, String)>,
        prometheus_client::metrics::gauge::Gauge,
    >,
}

/// The gauges of a family: the value of each set of labels that was ever set.
pub uninterp spec fn gauges(family: GaugeFamily) -> Map<Seq<(Seq<char>, Seq<char>)>, i64>;

/// No gauges at all.
pub open spec fn no_gauges() -> Map<Seq<(Seq<char>, Seq<char>)>, i64> {
    Map::empty()
}

/// The value of a gauge; 0 where it was never set.
pub open spec fn gauge_value(
    gauges: Map<Seq<(Seq<char>, Seq<char>)>, i64>,
    labels: Seq<(Seq<char>, Seq<char>)>,
) -> i64 {
    if gauges.dom().contains(labels) {
        gauges[labels]
    } else {
        0
    }
}

/// A set of labels as it is written out.
pub open spec fn labels_text(labels: Seq<(Seq<char>, Seq<char>)>) -> Seq<char> {
    let texts = Seq::new(
        labels.len(),
        |i: int| labels[i].0 + "=\""@ + labels[i].1 + "\""@,
    );
    "{"@ + text::joined(texts, ","@) + "}"@
}

/// The line of a gauge.
pub open spec fn gauge_line(
    name: Seq<char>,
    labels: Seq<(Seq<char>, Seq<char>)>,
    value: i64,
) -> Seq<char> {
    name + labels_text(labels) + " "@ + text::signed_decimal(value as int) + "\n"@
}

/// The lines of gauges, in an order.
pub open spec fn gauge_lines(
    name: Seq<char>,
    gauges: Map<Seq<(Seq<char>, Seq<char>)>, i64>,
    order: Seq<Seq<(Seq<char>, Seq<char>)>>,
) -> Seq<char>
    decreases order.len(),
{
    if order.len() == 0 {
        Seq::empty()
    } else {
        gauge_lines(name, gauges, order.drop_last()) + gauge_line(
            name,
            order.last(),
            gauges[order.last()],
        )
    }
}

/// A family as it is written out: its name and help text, and its gauges in an
/// order.
pub open spec fn family_text(
    name: Seq<char>,
    help: Seq<char>,
    gauges: Map<Seq<(Seq<char>, Seq<char>)>, i64>,
    order: Seq<Seq<(Seq<char>, Seq<char>)>>,
) -> Seq<char> {
    "# HELP "@ + name + " "@ + help + ".\n# TYPE "@ + name + " gauge\n"@ + gauge_lines(
        name,
        gauges,
        order,
    )
}

/// Whether an order lists every gauge once.
pub open spec fn is_order_of(
    order: Seq<Seq<(Seq<char>, Seq<char>)>>,
    gauges: Map<Seq<(Seq<char>, Seq<char>)>, i64>,
) -> bool {
    &&& order.no_duplicates()
    &&& forall|labels: Seq<(Seq<char>, Seq<char>)>|
        gauges.dom().contains(labels) <==> #[trigger] order.contains(labels)
}

/// Whether a text writes two families out, the gauges of each in some order.
pub open spec fn is_exposition(
    exposition: Seq<char>,
    name: Seq<char>,
    help: Seq<char>,
    gauges: Map<Seq<(Seq<char>, Seq<char>)>, i64>,
    other_name: Seq<char>,
    other_help: Seq<char>,
    other_gauges: Map<Seq<(Seq<char>, Seq<char>)>, i64>,
) -> bool {
    exists|
        order: Seq<Seq<(Seq<char>, Seq<char>)>>,
        other_order: Seq<Seq<(Seq<char>, Seq<char>)>>,
    | #[trigger]
        is_order_of(order, gauges) && #[trigger] is_order_of(other_order, other_gauges)
            && exposition == family_text(name, help, gauges, order) + family_text(
            other_name,
            other_help,
            other_gauges,
            other_order,
        ) + "# EOF\n"@
}

impl GaugeFamily {
    /// `Family::default` of `prometheus_client`: a family without gauges.
    #[verifier::external_body]
    fn empty() -> (r: Self)
        ensures
            gauges(r) == no_gauges(),
    {
        GaugeFamily { family: Default::default() }
    }

    /// `Family::get_or_create` and `Gauge::set` of `prometheus_client`: the gauge of
    /// the labels gets the value, whether or not it was there before, and the other
    /// gauges stay as they are.
    #[verifier::external_body]
    fn set(&mut self, labels: Vec<(String, String)>, value: i64)
        ensures
            gauges(*final(self)) == gauges(*old(self)).insert(labels.deep_view(), value),
    {
        self.family.get_or_create(&labels).set(value);
    }

    /// `Family::get_or_create` and `Gauge::get` of `prometheus_client`: the value of
    /// the gauge of the labels, which is made with the value 0 where it is missing.
    #[verifier::external_body]
    fn get(&mut self, labels: Vec<(String, String)>) -> (r: i64)
        ensures
            r == gauge_value(gauges(*old(self)), labels.deep_view()),
            gauges(*final(self)) == gauges(*old(self)).insert(labels.deep_view(), r),
    {
        self.family.get_or_create(&labels).get()
    }

    /// `Registry::register` and `encoding::text::encode` of `prometheus_client`: the
    /// text of two families that are registered one after the other under names and
    /// with help texts. Each begins with its name, its help text and its type, and
    /// has one line for each of its gauges; a mark ends the text. In which order the
    /// gauges of a family come is not claimed, since it is that of a hash map.
    #[verifier::external_body]
    fn encode(&self, name: &str, help: &str, other: &Self, other_name: &str, other_help: &str) -> (r:
        String)
        ensures
            is_exposition(
                r@,
                name@,
                help@,
                gauges(*self),
                other_name@,
                other_help@,
                gauges(*other),
            ),
    {
        let mut registry = prometheus_client::registry::Registry::default();
        registry.register(name, help, self.family.clone());
        registry.register(other_name, other_help, other.family.clone());
        let mut buffer = String::new();
        prometheus_client::encoding::text::encode(&mut buffer, &registry).unwrap();
        buffer
    }

    /// A family without gauges.
    pub fn new() -> (r: Self)
        ensures
            gauges(r) == no_gauges(),
    {
        Self::empty()
    }

    /// The value of a node's gauge, which is made with the value 0 where it is
    /// missing.
    pub fn value(&mut self, labels: &NodeLabels) -> (r: i64)
        ensures
            r == gauge_value(
                gauges(*old(self)),
                label_pairs(labels.namespace@, labels.name@, labels.node_type@, labels.network@),
            ),
            gauges(*final(self)) == gauges(*old(self)).insert(
                label_pairs(labels.namespace@, labels.name@, labels.node_type@, labels.network@),
                r,
            ),
    {
        self.get(labels.pairs())
    }
}

/// Update the ledger sequence metric for a node
///
/// The gauge holds signed numbers; a sequence of the upper half becomes negative.
pub fn set_ledger_sequence(
    family: &mut GaugeFamily,
    namespace: &str,
    name: &str,
    node_type: &str,
    network: &str,
    sequence: u64,
)
    ensures
        gauges(*final(family)) == gauges(*old(family)).insert(
            label_pairs(namespace@, name@, node_type@, network@),
            reconciler::as_signed(sequence) as i64,
        ),
{
    let labels = NodeLabels {
        namespace: namespace.to_owned(),
        name: name.to_owned(),
        node_type: node_type.to_owned(),
        network: network.to_owned(),
    };
    family.set(labels.pairs(), to_signed(sequence));
}

/// Update the ingestion lag metric for a node
pub fn set_ingestion_lag(
    family: &mut GaugeFamily,
    namespace: &str,
    name: &str,
    node_type: &str,
    network: &str,
    lag: i64,
)
    ensures
        gauges(*final(family)) == gauges(*old(family)).insert(
            label_pairs(namespace@, name@, node_type@, network@),
            lag,
        ),
{
    let labels = NodeLabels {
        namespace: namespace.to_owned(),
        name: name.to_owned(),
        node_type: node_type.to_owned(),
        network: network.to_owned(),
    };
    family.set(labels.pairs(), lag);
}

/// Whether a text writes the metrics on nodes out.
pub open spec fn is_metrics_text(
    exposition: Seq<char>,
    ledger_sequence: Map<Seq<(Seq<char>, Seq<char>)>, i64>,
    ingestion_lag: Map<Seq<(Seq<char>, Seq<char>)>, i64>,
) -> bool {
    is_exposition(
        exposition,
        "stellar_node_ledger_sequence"@,
        "Current ledger sequence number of the Stellar node"@,
        ledger_sequence,
        "stellar_node_ingestion_lag"@,
        "Lag between latest network ledger and node ledger"@,
        ingestion_lag,
    )
}

/// The text of the metrics on nodes, for Prometheus to read.
pub fn metrics_text(ledger_sequence: &GaugeFamily, ingestion_lag: &GaugeFamily) -> (r: String)
    ensures
        is_metrics_text(r@, gauges(*ledger_sequence), gauges(*ingestion_lag)),
{
    ledger_sequence.encode(
        "stellar_node_ledger_sequence",
        "Current ledger sequence number of the Stellar node",
        ingestion_lag,
        "stellar_node_ingestion_lag",
        "Lag between latest network ledger and node ledger",
    )
}

/// Whether a text holds another one somewhere.
pub open spec fn holds(whole: Seq<char>, part: Seq<char>) -> bool {
    exists|before: Seq<char>, after: Seq<char>| whole == #[trigger] (before + part + after)
}

proof fn lemma_lines_hold(
    name: Seq<char>,
    gauges: Map<Seq<(Seq<char>, Seq<char>)>, i64>,
    order: Seq<Seq<(Seq<char>, Seq<char>)>>,
    i: int,
) -> (around: (Seq<char>, Seq<char>))
    requires
        0 <= i < order.len(),
    ensures
        gauge_lines(name, gauges, order) == around.0 + gauge_line(name, order[i], gauges[order[i]])
            + around.1,
    decreases order.len(),
{
    let rest = order.drop_last();
    let line = gauge_line(name, order[i], gauges[order[i]]);
    if i == order.len() - 1 {
        let around = (gauge_lines(name, gauges, rest), Seq::<char>::empty());
        assert(around.0 + line + around.1 =~= around.0 + line);
        around
    } else {
        let inner = lemma_lines_hold(name, gauges, rest, i);
        let last = gauge_line(name, order.last(), gauges[order.last()]);
        assert(inner.0 + line + inner.1 + last =~= inner.0 + line + (inner.1 + last));
        (inner.0, inner.1 + last)
    }
}

/// Every gauge that was set stands in the text that Prometheus reads, with its
/// labels and its value.
pub proof fn gauges_are_written_out(
    exposition: Seq<char>,
    ledger_sequence: Map<Seq<(Seq<char>, Seq<char>)>, i64>,
    ingestion_lag: Map<Seq<(Seq<char>, Seq<char>)>, i64>,
    labels: Seq<(Seq<char>, Seq<char>)>,
)
    requires
        is_metrics_text(exposition, ledger_sequence, ingestion_lag),
    ensures
        ledger_sequence.dom().contains(labels) ==> holds(
            exposition,
            gauge_line("stellar_node_ledger_sequence"@, labels, ledger_sequence[labels]),
        ),
        ingestion_lag.dom().contains(labels) ==> holds(
            exposition,
            gauge_line("stellar_node_ingestion_lag"@, labels, ingestion_lag[labels]),
        ),
{
    let name = "stellar_node_ledger_sequence"@;
    let help = "Current ledger sequence number of the Stellar node"@;
    let other_name = "stellar_node_ingestion_lag"@;
    let other_help = "Lag between latest network ledger and node ledger"@;
    let (order, other_order) = choose|
        order: Seq<Seq<(Seq<char>, Seq<char>)>>,
        other_order: Seq<Seq<(Seq<char>, Seq<char>)>>,
    | #[trigger]
        is_order_of(order, ledger_sequence) && #[trigger] is_order_of(other_order, ingestion_lag)
            && exposition == family_text(name, help, ledger_sequence, order) + family_text(
            other_name,
            other_help,
            ingestion_lag,
            other_order,
        ) + "# EOF\n"@;
    let first = family_text(name, help, ledger_sequence, order);
    let second = family_text(other_name, other_help, ingestion_lag, other_order);
    let eof = "# EOF\n"@;
    if ledger_sequence.dom().contains(labels) {
        assert(order.contains(labels));
        let i = choose|i: int| 0 <= i < order.len() && order[i] == labels;
        let around = lemma_lines_hold(name, ledger_sequence, order, i);
        let line = gauge_line(name, labels, ledger_sequence[labels]);
        let head = "# HELP "@ + name + " "@ + help + ".\n# TYPE "@ + name + " gauge\n"@;
        let before = head + around.0;
        let after = around.1 + second + eof;
        assert(exposition =~= before + line + after);
    }
    if ingestion_lag.dom().contains(labels) {
        assert(other_order.contains(labels));
        let i = choose|i: int| 0 <= i < other_order.len() && other_order[i] == labels;
        let around = lemma_lines_hold(other_name, ingestion_lag, other_order, i);
        let line = gauge_line(other_name, labels, ingestion_lag[labels]);
        let head = "# HELP "@ + other_name + " "@ + other_help + ".\n# TYPE "@ + other_name
            + " gauge\n"@;
        let before = first + head + around.0;
        let after = around.1 + eof;
        assert(exposition =~= before + line + after);
    }
}

/// Nodes that differ in a label have gauges of their own: setting the one does not
/// change the other.
pub proof fn gauges_of_other_nodes_stay(
    before: Map<Seq<(Seq<char>, Seq<char>)>, i64>,
    a: NodeLabels,
    b: NodeLabels,
    value: i64,
)
    requires
        a.namespace@ != b.namespace@ || a.name@ != b.name@ || a.node_type@ != b.node_type@
            || a.network@ != b.network@,
    ensures
        ({
            let set = label_pairs(a.namespace@, a.name@, a.node_type@, a.network@);
            let other = label_pairs(b.namespace@, b.name@, b.node_type@, b.network@);
            let after = before.insert(set, value);
            &&& gauge_value(after, set) == value
            &&& gauge_value(after, other) == gauge_value(before, other)
        }),
{
    let set = label_pairs(a.namespace@, a.name@, a.node_type@, a.network@);
    let other = label_pairs(b.namespace@, b.name@, b.node_type@, b.network@);
    assert(set[0].1 == a.namespace@ && set[1].1 == a.name@);
    assert(set[2].1 == a.node_type@ && set[3].1 == a.network@);
    assert(other[0].1 == b.namespace@ && other[1].1 == b.name@);
    assert(other[2].1 == b.node_type@ && other[3].1 == b.network@);
}

/// The line of a gauge of a node names the node by its namespace, name, kind and network,
/// in this order, and ends with the value of the gauge.
pub proof fn lines_name_the_node(
    name: Seq<char>,
    namespace: Seq<char>,
    node: Seq<char>,
    node_type: Seq<char>,
    network: Seq<char>,
    value: i64,
)
    ensures
        gauge_line(name, label_pairs(namespace, node, node_type, network), value) == name + "{"@ + (
        "namespace"@ + "=\""@ + namespace + "\""@) + ","@ + ("name"@ + "=\""@ + node + "\""@)
            + ","@ + ("node_type"@ + "=\""@ + node_type + "\""@) + ","@ + ("network"@ + "=\""@
            + network + "\""@) + "}"@ + " "@ + text::signed_decimal(value as int) + "\n"@,
{
    let labels = label_pairs(namespace, node, node_type, network);
    let texts = Seq::new(
        labels.len(),
        |i: int| labels[i].0 + "=\""@ + labels[i].1 + "\""@,
    );
    let first = "namespace"@ + "=\""@ + namespace + "\""@;
    let second = "name"@ + "=\""@ + node + "\""@;
    let third = "node_type"@ + "=\""@ + node_type + "\""@;
    let fourth = "network"@ + "=\""@ + network + "\""@;
    assert(texts =~= seq![first, second, third, fourth]);
    assert(texts.drop_last() =~= seq![first, second, third]);
    assert(texts.drop_last().drop_last() =~= seq![first, second]);
    assert(texts.drop_last().drop_last().drop_last() =~= seq![first]);
    let all = first + ","@ + second + ","@ + third + ","@ + fourth;
    reveal_with_fuel(text::joined, 4);
    assert(text::joined(texts, ","@) == all);
    assert(gauge_line(name, labels, value) =~= name + "{"@ + first + ","@ + second + ","@ + third
        + ","@ + fourth + "}"@ + " "@ + text::signed_decimal(value as int) + "\n"@);
}

/// Each family begins with its help text and its kind under its name.
pub proof fn families_are_introduced(
    name: Seq<char>,
    help: Seq<char>,
    gauges: Map<Seq<(Seq<char>, Seq<char>)>, i64>,
    order: Seq<Seq<(Seq<char>, Seq<char>)>>,
)
    ensures
        ("# HELP "@ + name + " "@ + help + ".\n# TYPE "@ + name + " gauge\n"@).is_prefix_of(
            family_text(name, help, gauges, order),
        ),
{
    let head = "# HELP "@ + name + " "@ + help + ".\n# TYPE "@ + name + " gauge\n"@;
    assert(family_text(name, help, gauges, order).subrange(0, head.len() as int) =~= head);
}

} // verus!
