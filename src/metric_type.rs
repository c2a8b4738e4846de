//! The four metric types and their canonical text forms.

use vstd::prelude::*;
use crate::text::str_equals;

verus! {

/// The type of a metric family, as written on its `# TYPE` line.
#[derive(Debug, Clone, Copy, PartialEq, Eq, Structural)]
pub enum MetricType {
    Counter,
    Gauge,
    Histogram,
    Summary,
}

/// A text that names none of the metric types.
#[derive(Debug, Clone)]
pub struct UnknownMetricType {
    passed_name: String,
}

impl MetricType {
    /// The canonical lowercase text of the type.
    pub open spec fn text(self) -> Seq<char> {
        match self {
            MetricType::Counter => "counter"@,
            MetricType::Gauge => "gauge"@,
            MetricType::Histogram => "histogram"@,
            MetricType::Summary => "summary"@,
        }
    }

    /// The type whose canonical text is exactly `s`, if any.
    pub open spec fn from_text(s: Seq<char>) -> Option<MetricType> {
        if s == "counter"@ {
            Some(MetricType::Counter)
        } else if s == "gauge"@ {
            Some(MetricType::Gauge)
        } else if s == "histogram"@ {
            Some(MetricType::Histogram)
        } else if s == "summary"@ {
            Some(MetricType::Summary)
        } else {
            None
        }
    }

    /// The canonical text of the type.
    pub fn as_ref(&self) -> (r: &'static str)
        ensures
            r@ == self.text(),
    {
        match self {
            MetricType::Counter => "counter",
            MetricType::Gauge => "gauge",
            MetricType::Histogram => "histogram",
            MetricType::Summary => "summary",
        }
    }

    /// The canonical text of the type, as an owned string.
    pub fn to_text(&self) -> (r: String)
        ensures
            r@ == self.text(),
    {
        self.as_ref().to_owned()
    }

    /// Reads a type from its canonical text; the match is exact and
    /// case-sensitive. Any other text is returned inside the error.
    pub fn try_from(txt: &str) -> (r: Result<MetricType, UnknownMetricType>)
        ensures
            match r {
                Ok(t) => MetricType::from_text(txt@) == Some(t),
                Err(e) => MetricType::from_text(txt@) is None && e@ == txt@,
            },
    {
        if str_equals(txt, "counter") {
            Ok(MetricType::Counter)
        } else if str_equals(txt, "gauge") {
            Ok(MetricType::Gauge)
        } else if str_equals(txt, "histogram") {
            Ok(MetricType::Histogram)
        } else if str_equals(txt, "summary") {
            Ok(MetricType::Summary)
        } else {
            Err(UnknownMetricType::new(txt))
        }
    }
}

impl View for UnknownMetricType {
    type V = Seq<char>;

    /// The text that was passed.
    closed spec fn view(&self) -> Seq<char> {
        self.passed_name@
    }
}

impl UnknownMetricType {
    pub(crate) fn new(passed_name: &str) -> (r: UnknownMetricType)
        ensures
            r@ == passed_name@,
    {
        UnknownMetricType { passed_name: passed_name.to_owned() }
    }

    /// The text that named no metric type.
    pub fn passed_name(&self) -> (r: &str)
        ensures
            r@ == self@,
    {
        self.passed_name.as_str()
    }

    /// A sentence describing the error.
    pub fn message(&self) -> (r: String)
        ensures
            r@ == "enum MetricType does not have the "@ + self@ + " variant"@,
    {
        let mut s = "enum MetricType does not have the ".to_owned();
        s.append(self.passed_name.as_str());
        s.append(" variant");
        s
    }
}

/// Reading the canonical text of any type gives that type back.
pub proof fn lemma_text_round_trip(t: MetricType)
    ensures
        MetricType::from_text(t.text()) == Some(t),
{
    reveal_strlit("counter");
    reveal_strlit("gauge");
    reveal_strlit("histogram");
    reveal_strlit("summary");
    assert("counter"@.len() != "gauge"@.len());
    assert("counter"@.len() != "histogram"@.len());
    assert("gauge"@.len() != "histogram"@.len());
    assert("gauge"@.len() != "summary"@.len());
    assert("histogram"@.len() != "summary"@.len());
    assert("counter"@[0] != "summary"@[0]);
}

/// Every text that reads as a type is that type's canonical text, so the
/// canonical text of what was read is the text itself.
pub proof fn lemma_parse_then_text(s: Seq<char>)
    requires
        MetricType::from_text(s) is Some,
    ensures
        MetricType::from_text(s).unwrap().text() == s,
{
}

} // verus!
