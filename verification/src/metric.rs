//! The whole datagram of a metric: namespace, metric and tags, as bytes.
use vstd::prelude::*;
use vstd::string::*;
use vstd::utf8::encode_utf8;
use crate::buffer::{add_len, buffer};
use crate::decimal::signed_decimal_text;
use crate::integral::Integral;
use crate::metrics::metric_text;
use crate::tags::{render_tags, tag_pairs, tags_text, Tag};
use crate::DatagramFormat;

verus! {

/// Anything that is sent as one metric.
pub trait Metric {
    /// The metric as it is sent, without namespace and tags.
    spec fn line(&self) -> Seq<char>;

    /// Writes the metric out.
    fn write(&self) -> (text: String)
        ensures
            text@ == self.line(),
    ;
}

/// A count: one up, one down, or an arbitrary amount. Only `Arb` sends the
/// amount it holds.
pub enum CountMetric<'a, T: Integral> {
    Inc(&'a str, T),
    Dec(&'a str, T),
    Arb(&'a str, T),
}

impl<'a, T: Integral> Metric for CountMetric<'a, T> {
    open spec fn line(&self) -> Seq<char> {
        match self {
            CountMetric::Inc(name, _) => metric_text(name@, seq!['1'], 'c'),
            CountMetric::Dec(name, _) => metric_text(name@, seq!['-', '1'], 'c'),
            CountMetric::Arb(name, amt) => metric_text(
                name@,
                signed_decimal_text(amt.value()),
                'c',
            ),
        }
    }

    fn write(&self) -> (text: String) {
        match self {
            CountMetric::Inc(name, _) => write_count_metric_inc(name),
            CountMetric::Dec(name, _) => write_count_metric_dec(name),
            CountMetric::Arb(name, amt) => write_count_metric_arb(name, amt),
        }
    }
}

impl<'a, T: Integral> Metric for crate::metrics::Metric<'a, T> {
    open spec fn line(&self) -> Seq<char> {
        self.text()
    }

    fn write(&self) -> (text: String) {
        self.format()
    }
}

/// The name of a metric under a namespace: `<namespace>.<name>`, or the name
/// alone where the namespace is empty.
pub open spec fn namespaced(namespace: Seq<char>, line: Seq<char>) -> Seq<char> {
    if namespace.len() == 0 {
        line
    } else {
        namespace + seq!['.'] + line
    }
}

/// The text of a metric's datagram: the metric under its namespace, then the
/// tags.
pub open spec fn datagram_text(
    namespace: Seq<char>,
    line: Seq<char>,
    tags: Seq<(Seq<char>, Seq<char>)>,
) -> Seq<char> {
    namespaced(namespace, line) + tags_text(tags)
}

/// The datagram of `metric` under `namespace` with `tags`, in bytes of UTF-8
/// and without a line break at its end.
pub fn format_metric<M: Metric, T: Tag>(metric: &M, namespace: &str, tags: &[T]) -> (msg: Vec<u8>)
    ensures
        msg@ == encode_utf8(datagram_text(namespace@, metric.line(), tag_pairs(tags@))),
{
    let m = metric.write();
    let ns = namespace;
    let suffix = render_tags(tags);
    let mut capacity = add_len(Some(m.as_str().as_bytes().len()), ns.as_bytes().len());
    capacity = add_len(capacity, 1);
    capacity = add_len(capacity, suffix.as_str().as_bytes().len());
    let mut msg = buffer(capacity);
    if !ns.is_empty() {
        proof {
            reveal_strlit(".");
        }
        msg.append(ns);
        msg.append(".");
    }
    msg.append(m.as_str());
    assert(msg@ =~= namespaced(namespace@, metric.line()));
    msg.append(suffix.as_str());
    msg.as_str().as_bytes_vec()
}

/// A count of one up.
pub fn write_count_metric_inc(name: &str) -> (text: String)
    ensures
        text@ == metric_text(name@, seq!['1'], 'c'),
{
    proof {
        reveal_strlit(":1|c");
    }
    let mut buf = buffer(add_len(Some(name.as_bytes().len()), 4));
    buf.append(name);
    buf.append(":1|c");
    buf
}

/// A count of one down.
pub fn write_count_metric_dec(name: &str) -> (text: String)
    ensures
        text@ == metric_text(name@, seq!['-', '1'], 'c'),
{
    proof {
        reveal_strlit(":-1|c");
    }
    let mut buf = buffer(add_len(Some(name.as_bytes().len()), 5));
    buf.append(name);
    buf.append(":-1|c");
    buf
}

/// A count of an arbitrary amount.
pub fn write_count_metric_arb<T: Integral>(name: &str, amt: &T) -> (text: String)
    ensures
        text@ == metric_text(name@, signed_decimal_text(amt.value()), 'c'),
{
    proof {
        reveal_strlit(":");
        reveal_strlit("|c");
    }
    let mut buf = buffer(add_len(Some(name.as_bytes().len()), 43));
    buf.append(name);
    buf.append(":");
    amt.push_text(&mut buf);
    buf.append("|c");
    buf
}

/// Under an empty namespace a metric is sent under its own name, with no
/// dot before it; under any other the namespace and a dot come first.
pub proof fn lemma_namespaced(namespace: Seq<char>, line: Seq<char>)
    ensures
        namespace.len() == 0 ==> namespaced(namespace, line) == line,
        namespace.len() > 0 ==> namespaced(namespace, line) == namespace + "."@ + line,
{
    reveal_strlit(".");
}

/// Without namespace and tags the datagram of a metric is the metric alone.
pub proof fn lemma_bare_datagram(line: Seq<char>)
    ensures
        datagram_text(Seq::empty(), line, Seq::empty()) == line,
{
}

/// Formatting the datagram of one metric twice, under one namespace and
/// with the same tags, gives the same bytes.
pub proof fn lemma_format_metric_twice<M: Metric, T: Tag>(
    metric: &M,
    namespace: &str,
    tags: &[T],
    first: Vec<u8>,
    second: Vec<u8>,
)
    requires
        call_ensures(format_metric::<M, T>, (metric, namespace, tags), first),
        call_ensures(format_metric::<M, T>, (metric, namespace, tags), second),
    ensures
        first@ == second@,
{
}

} // verus!
