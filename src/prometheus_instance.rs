//! One sample of a metric family: ordered labels, a value and an optional
//! timestamp in milliseconds since the Unix epoch.

use vstd::prelude::*;
use std::marker::PhantomData;
use std::time::{SystemTime, SystemTimeError};
use crate::{ToAssign, Yes};
use crate::render_to_prometheus::RenderToPrometheus;
use crate::text::{decimal, push_decimal, push_signed_decimal, signed_decimal};

verus! {

#[verifier::external_type_specification]
#[verifier::external_body]
pub struct ExSystemTime(SystemTime);

#[verifier::external_type_specification]
#[verifier::external_body]
pub struct ExSystemTimeError(SystemTimeError);

/// Relies on `SystemTime::now`: reads the system clock.
#[verifier::external_body]
fn system_now() -> SystemTime {
    SystemTime::now()
}

/// Relies on `SystemTime::duration_since` against the Unix epoch, in whole
/// milliseconds; fails when the time lies before the epoch.
#[verifier::external_body]
fn millis_since_epoch(t: &SystemTime) -> Result<u128, SystemTimeError> {
    t.duration_since(std::time::UNIX_EPOCH).map(|d| d.as_millis())
}

/// Marks a sample whose value has not been given yet.
#[derive(Debug, Clone, Copy)]
pub struct MissingValue {}

impl ToAssign for MissingValue {
    open spec fn assigned() -> bool {
        false
    }
}

/// What a sample holds, as plain values.
pub struct InstanceModel {
    /// Label keys and values, in the order they were added.
    pub labels: Seq<(Seq<char>, Seq<char>)>,
    pub value: Option<int>,
    pub timestamp: Option<nat>,
}

/// One sample of a metric. `ValueSet` is `Yes` once the value has been
/// given; only then can the sample be rendered.
#[derive(Debug)]
pub struct PrometheusInstance<ValueSet: ToAssign> {
    labels: Vec<(String, String)>,
    value: Option<i128>,
    timestamp: Option<u128>,
    value_set: PhantomData<ValueSet>,
}

/// `key="value"`, the text of one label.
pub open spec fn label_text(key: Seq<char>, val: Seq<char>) -> Seq<char> {
    key + "=\""@ + val + "\""@
}

/// The labels' texts joined by commas, in order.
pub open spec fn labels_text(labels: Seq<(Seq<char>, Seq<char>)>) -> Seq<char>
    decreases labels.len(),
{
    if labels.len() == 0 {
        Seq::empty()
    } else if labels.len() == 1 {
        label_text(labels[0].0, labels[0].1)
    } else {
        labels_text(labels.drop_last()) + ","@ + label_text(labels.last().0, labels.last().1)
    }
}

/// The rendered sample, without the metric name: the braced labels (none
/// when there are no labels), a space, the value, and a space and the
/// timestamp when there is one.
pub open spec fn fragment_text(m: InstanceModel) -> Seq<char> {
    (if m.labels.len() == 0 {
        " "@
    } else {
        "{"@ + labels_text(m.labels) + "} "@
    }) + signed_decimal(m.value.unwrap()) + match m.timestamp {
        Some(t) => " "@ + decimal(t),
        None => Seq::empty(),
    }
}

impl<ValueSet: ToAssign> View for PrometheusInstance<ValueSet> {
    type V = InstanceModel;

    closed spec fn view(&self) -> InstanceModel {
        InstanceModel {
            labels: self.labels@.map_values(|l: (String, String)| (l.0@, l.1@)),
            value: match self.value {
                Some(v) => Some(v as int),
                None => None,
            },
            timestamp: match self.timestamp {
                Some(t) => Some(t as nat),
                None => None,
            },
        }
    }
}

impl<ValueSet: ToAssign> PrometheusInstance<ValueSet> {
    /// The value is present exactly when the marker says it was given.
    #[verifier::type_invariant]
    spec fn value_matches_marker(self) -> bool {
        ValueSet::assigned() <==> self.value is Some
    }
}

impl PrometheusInstance<MissingValue> {
    /// A sample with no labels, no value and no timestamp.
    pub fn new() -> (r: Self)
        ensures
            r@.labels.len() == 0,
            r@.value is None,
            r@.timestamp is None,
    {
        PrometheusInstance {
            labels: Vec::new(),
            value: None,
            timestamp: None,
            value_set: PhantomData,
        }
    }
}

impl Default for PrometheusInstance<MissingValue> {
    /// The same as [`PrometheusInstance::new`].
    fn default() -> (r: Self)
        ensures
            r@.labels.len() == 0,
            r@.value is None,
            r@.timestamp is None,
    {
        Self::new()
    }
}

impl<ValueSet: ToAssign> PrometheusInstance<ValueSet> {
    /// Adds a label after those already there.
    pub fn with_label(self, l: &str, v: &str) -> (r: Self)
        ensures
            r@.labels == self@.labels.push((l@, v@)),
            r@.value == self@.value,
            r@.timestamp == self@.timestamp,
    {
        proof {
            use_type_invariant(&self);
        }
        let mut labels = self.labels;
        labels.push((l.to_owned(), v.to_owned()));
        let r = PrometheusInstance {
            labels,
            value: self.value,
            timestamp: self.timestamp,
            value_set: PhantomData,
        };
        assert(r@.labels =~= self@.labels.push((l@, v@)));
        r
    }

    /// Sets the timestamp, in milliseconds since the Unix epoch.
    pub fn with_timestamp(self, timestamp: u128) -> (r: Self)
        ensures
            r@.labels == self@.labels,
            r@.value == self@.value,
            r@.timestamp == Some(timestamp as nat),
    {
        proof {
            use_type_invariant(&self);
        }
        PrometheusInstance {
            labels: self.labels,
            value: self.value,
            timestamp: Some(timestamp),
            value_set: PhantomData,
        }
    }

    /// Sets the timestamp to the current time in milliseconds since the
    /// Unix epoch. Fails when the system clock reads a time before the epoch.
    pub fn with_current_timestamp(self) -> (r: Result<Self, SystemTimeError>)
        ensures
            r matches Ok(i) ==> {
                &&& i@.labels == self@.labels
                &&& i@.value == self@.value
                &&& i@.timestamp is Some
            },
    {
        let now = system_now();
        match millis_since_epoch(&now) {
            Ok(ms) => Ok(self.with_timestamp(ms)),
            Err(e) => Err(e),
        }
    }

    /// Sets the value, which makes the sample renderable.
    pub fn with_value(self, value: i128) -> (r: PrometheusInstance<Yes>)
        ensures
            r@.labels == self@.labels,
            r@.value == Some(value as int),
            r@.timestamp == self@.timestamp,
    {
        PrometheusInstance {
            labels: self.labels,
            value: Some(value),
            timestamp: self.timestamp,
            value_set: PhantomData,
        }
    }
}

impl RenderToPrometheus for PrometheusInstance<Yes> {
    open spec fn rendered(&self) -> Seq<char> {
        fragment_text(self@)
    }

    fn render(&self) -> (r: String) {
        proof {
            use_type_invariant(self);
        }
        let ghost labels = self@.labels;
        let mut s = String::new();
        let n = self.labels.len();
        if n == 0 {
            s.append(" ");
        } else {
            s.append("{");
            let mut i: usize = 0;
            while i < n
                invariant
                    n == self.labels@.len(),
                    labels == self@.labels,
                    i <= n,
                    s@ == "{"@ + labels_text(labels.take(i as int)),
                decreases n - i,
            {
                if i > 0 {
                    s.append(",");
                }
                let (k, v) = &self.labels[i];
                s.append(k.as_str());
                s.append("=\"");
                s.append(v.as_str());
                s.append("\"");
                proof {
                    let next = labels.take(i + 1);
                    assert(next.drop_last() =~= labels.take(i as int));
                    assert(next.last() == labels[i as int]);
                    if i == 0 {
                        assert(labels.take(0) =~= Seq::<(Seq<char>, Seq<char>)>::empty());
                    }
                }
                i = i + 1;
            }
            assert(labels.take(n as int) =~= labels);
            s.append("} ");
        }
        let value = match self.value {
            Some(v) => v,
            None => 0,
        };
        push_signed_decimal(&mut s, value);
        match self.timestamp {
            Some(t) => {
                s.append(" ");
                push_decimal(&mut s, t);
            },
            None => {},
        }
        assert(s@ =~= fragment_text(self@));
        s
    }
}

/// Labels render in the order they were added, never sorted: a label added
/// after at least one other renders last, after a comma.
pub proof fn lemma_label_order(labels: Seq<(Seq<char>, Seq<char>)>, key: Seq<char>, val: Seq<char>)
    requires
        labels.len() > 0,
    ensures
        labels_text(labels.push((key, val))) == labels_text(labels) + ","@ + label_text(key, val),
{
    assert(labels.push((key, val)).drop_last() =~= labels);
}

} // verus!
