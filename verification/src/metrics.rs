//! The metric types that DogStatsD accepts: count, gauge, set, histogram and
//! distribution.
use vstd::prelude::*;
use vstd::string::*;
use vstd::utf8::encode_utf8;
use crate::buffer::{add_len, buffer};
use crate::decimal::signed_decimal_text;
use crate::integral::Integral;
use crate::DatagramFormat;

verus! {

/// The text of a metric: `<name>:<value>|<kind>`.
pub open spec fn metric_text(name: Seq<char>, value: Seq<char>, kind: char) -> Seq<char> {
    name + seq![':'] + value + seq!['|', kind]
}

/// One metric. A count goes up by one (`Inc`), down by one (`Dec`) or by an
/// arbitrary amount (`Arb`); the other kinds carry their value as text, which
/// is sent as it stands.
pub enum Metric<'a, T> {
    Inc(&'a str),
    Dec(&'a str),
    Arb(&'a str, T),
    Gauge(&'a str, &'a str),
    Histogram(&'a str, &'a str),
    Distribution(&'a str, &'a str),
    SetElement(&'a str, &'a str),
}

impl<'a, T: Integral> Metric<'a, T> {
    /// The name of the metric.
    pub open spec fn name(&self) -> Seq<char> {
        match self {
            Metric::Inc(name) => name@,
            Metric::Dec(name) => name@,
            Metric::Arb(name, _) => name@,
            Metric::Gauge(name, _) => name@,
            Metric::Histogram(name, _) => name@,
            Metric::Distribution(name, _) => name@,
            Metric::SetElement(name, _) => name@,
        }
    }

    /// The value as it is sent: `1` and `-1` for a step up and down, the
    /// amount in decimal, or the text given.
    pub open spec fn value_text(&self) -> Seq<char> {
        match self {
            Metric::Inc(_) => seq!['1'],
            Metric::Dec(_) => seq!['-', '1'],
            Metric::Arb(_, amount) => signed_decimal_text(amount.value()),
            Metric::Gauge(_, value) => value@,
            Metric::Histogram(_, value) => value@,
            Metric::Distribution(_, value) => value@,
            Metric::SetElement(_, value) => value@,
        }
    }

    /// The letter that tells the kind: each kind has exactly one.
    pub open spec fn kind(&self) -> char {
        match self {
            Metric::Inc(_) => 'c',
            Metric::Dec(_) => 'c',
            Metric::Arb(_, _) => 'c',
            Metric::Gauge(_, _) => 'g',
            Metric::Histogram(_, _) => 'h',
            Metric::Distribution(_, _) => 'd',
            Metric::SetElement(_, _) => 's',
        }
    }

    /// The metric as it is sent, without namespace and tags.
    pub open spec fn text(&self) -> Seq<char> {
        metric_text(self.name(), self.value_text(), self.kind())
    }
}

impl<'a, T: Integral> DatagramFormat for Metric<'a, T> {
    open spec fn formats_as(&self, text: Seq<char>) -> bool {
        text == self.text()
    }

    fn format(&self) -> (text: String) {
        proof {
            reveal_strlit("1");
            reveal_strlit("-1");
            reveal_strlit(":");
            reveal_strlit("|s");
            reveal_strlit("|g");
            reveal_strlit("|h");
            reveal_strlit("|d");
            reveal_strlit("|c");
        }
        let mut value = String::new();
        let (metric_name, identifier): (&str, &str) = match self {
            Metric::SetElement(metric_name, v) => {
                value.append(v);
                (metric_name, "|s")
            },
            Metric::Gauge(metric_name, v) => {
                value.append(v);
                (metric_name, "|g")
            },
            Metric::Histogram(metric_name, v) => {
                value.append(v);
                (metric_name, "|h")
            },
            Metric::Distribution(metric_name, v) => {
                value.append(v);
                (metric_name, "|d")
            },
            Metric::Inc(metric_name) => {
                value.append("1");
                (metric_name, "|c")
            },
            Metric::Dec(metric_name) => {
                value.append("-1");
                (metric_name, "|c")
            },
            Metric::Arb(metric_name, amount) => {
                amount.push_text(&mut value);
                (metric_name, "|c")
            },
        };
        let mut capacity = add_len(Some(metric_name.as_bytes().len()), 1);
        capacity = add_len(capacity, value.as_str().as_bytes().len());
        capacity = add_len(capacity, identifier.as_bytes().len());
        let mut msg = buffer(capacity);
        msg.append(metric_name);
        msg.append(":");
        msg.append(value.as_str());
        msg.append(identifier);
        assert(msg@ =~= self.text());
        msg
    }
}

/// A count of one up is sent as `<name>:1|c`, whatever the name.
pub proof fn lemma_inc_text<T: Integral>(name: &str)
    ensures
        Metric::<T>::Inc(name).text() == name@ + ":1|c"@,
{
    reveal_strlit(":1|c");
}

/// A count of one down is sent as `<name>:-1|c`, whatever the name.
pub proof fn lemma_dec_text<T: Integral>(name: &str)
    ensures
        Metric::<T>::Dec(name).text() == name@ + ":-1|c"@,
{
    reveal_strlit(":-1|c");
}

/// A count of an arbitrary amount is sent as `<name>:<amount>|c`, with the
/// amount in decimal.
pub proof fn lemma_arb_text<T: Integral>(name: &str, amount: T)
    ensures
        Metric::Arb(name, amount).text() == name@ + ":"@ + signed_decimal_text(amount.value())
            + "|c"@,
{
    reveal_strlit(":");
    reveal_strlit("|c");
    assert(Metric::Arb(name, amount).text() =~= name@ + ":"@ + signed_decimal_text(amount.value())
        + "|c"@);
}

/// A gauge, a histogram, a distribution and a set are sent as
/// `<name>:<value>|<letter>` with the letters `g`, `h`, `d` and `s`, the
/// value as it was given.
pub proof fn lemma_valued_text<T: Integral>(name: &str, value: &str)
    ensures
        Metric::<T>::Gauge(name, value).text() == name@ + ":"@ + value@ + "|g"@,
        Metric::<T>::Histogram(name, value).text() == name@ + ":"@ + value@ + "|h"@,
        Metric::<T>::Distribution(name, value).text() == name@ + ":"@ + value@ + "|d"@,
        Metric::<T>::SetElement(name, value).text() == name@ + ":"@ + value@ + "|s"@,
{
    reveal_strlit(":");
    reveal_strlit("|g");
    reveal_strlit("|h");
    reveal_strlit("|d");
    reveal_strlit("|s");
}

/// Formatting one metric twice gives the same text, and so the same bytes.
pub proof fn lemma_metric_format_twice<'a, T: Integral>(
    metric: &Metric<'a, T>,
    first: String,
    second: String,
)
    requires
        call_ensures(<Metric<'a, T> as DatagramFormat>::format, (metric,), first),
        call_ensures(<Metric<'a, T> as DatagramFormat>::format, (metric,), second),
    ensures
        first@ == second@,
        encode_utf8(first@) == encode_utf8(second@),
{
}

} // verus!
