//! Builds and renders metrics in the Prometheus text exposition format.
//!
//! A [`PrometheusMetric`] carries a metric family's name, type and help text,
//! and is obtained through a builder that only offers `build` once all three
//! have been given. Each [`PrometheusInstance`] is one sample of the family:
//! ordered labels, a value and an optional timestamp. The metric renders its
//! `# HELP` / `# TYPE` header followed by one line per appended sample.

use vstd::prelude::*;

pub mod text;
pub mod metric_type;

pub mod render_to_prometheus;
pub mod prometheus_instance;
pub mod prometheus_metric;
pub mod prometheus_metric_builder;
pub mod server_options;
pub mod serve;

pub use metric_type::{MetricType, UnknownMetricType};
pub use render_to_prometheus::RenderToPrometheus;
pub use prometheus_instance::{MissingValue, PrometheusInstance};
pub use prometheus_metric::PrometheusMetric;
pub use prometheus_metric_builder::{MandatoryField, PrometheusMetricBuilder};
pub use server_options::Authorization;

verus! {

/// A marker for whether a mandatory field of a builder has been given.
pub trait ToAssign {
    /// Whether the marked field has been given.
    spec fn assigned() -> bool;
}

/// Marks a field as given.
#[derive(Debug, Clone, Copy)]
pub struct Yes {}

/// Marks a field as not given yet.
#[derive(Debug, Clone, Copy)]
pub struct No {}

impl ToAssign for Yes {
    open spec fn assigned() -> bool {
        true
    }
}

impl ToAssign for No {
    open spec fn assigned() -> bool {
        false
    }
}

} // verus!
