//! A builder for [`PrometheusMetric`] whose type records which of the
//! mandatory fields (name, type, help) have been given, so that `build` is
//! offered only once all three have.

use vstd::prelude::*;
use std::marker::PhantomData;
use crate::metric_type::MetricType;
use crate::prometheus_metric::{MetricModel, PrometheusMetric};
use crate::{No, ToAssign, Yes};

verus! {

/// What a builder holds, as plain values.
pub struct BuilderModel {
    pub name: Option<Seq<char>>,
    pub metric_type: Option<MetricType>,
    pub help: Option<Seq<char>>,
}

/// A mandatory field of a metric.
#[derive(Debug, Clone, Copy, PartialEq, Eq, Structural)]
pub enum MandatoryField {
    Name,
    MetricType,
    Help,
}

/// Builds a [`PrometheusMetric`]. Each marker is `Yes` once its field has
/// been given: a setter is offered only while its marker is `No`, and
/// `build` only when all three are `Yes`.
#[derive(Debug)]
pub struct PrometheusMetricBuilder<NameSet: ToAssign, MetricTypeSet: ToAssign, HelpSet: ToAssign> {
    p_name: PhantomData<NameSet>,
    p_metric_type: PhantomData<MetricTypeSet>,
    p_help: PhantomData<HelpSet>,
    name: Option<String>,
    metric_type: Option<MetricType>,
    help: Option<String>,
}

/// The mandatory fields that are not given yet, in the order name, type, help.
pub open spec fn missing_fields(b: BuilderModel) -> Seq<MandatoryField> {
    (if b.name is None { seq![MandatoryField::Name] } else { Seq::empty() }) + (
    if b.metric_type is None {
        seq![MandatoryField::MetricType]
    } else {
        Seq::empty()
    }) + (if b.help is None { seq![MandatoryField::Help] } else { Seq::empty() })
}

impl<N: ToAssign, T: ToAssign, H: ToAssign> View for PrometheusMetricBuilder<N, T, H> {
    type V = BuilderModel;

    closed spec fn view(&self) -> BuilderModel {
        BuilderModel {
            name: match self.name {
                Some(s) => Some(s@),
                None => None,
            },
            metric_type: self.metric_type,
            help: match self.help {
                Some(s) => Some(s@),
                None => None,
            },
        }
    }
}

impl<N: ToAssign, T: ToAssign, H: ToAssign> PrometheusMetricBuilder<N, T, H> {
    /// Each field is present exactly when its marker says it was given.
    #[verifier::type_invariant]
    spec fn fields_match_markers(self) -> bool {
        &&& N::assigned() <==> self.name is Some
        &&& T::assigned() <==> self.metric_type is Some
        &&& H::assigned() <==> self.help is Some
    }

    /// Builds the metric when all mandatory fields have been given; else
    /// reports every field that is missing, not only the first.
    pub fn try_build(self) -> (r: Result<PrometheusMetric, Vec<MandatoryField>>)
        ensures
            match r {
                Ok(m) => {
                    &&& missing_fields(self@).len() == 0
                    &&& m@ == (MetricModel {
                        name: self@.name.unwrap(),
                        metric_type: self@.metric_type.unwrap(),
                        help: self@.help.unwrap(),
                        fragments: Seq::empty(),
                    })
                },
                Err(missing) => missing_fields(self@).len() > 0 && missing@ == missing_fields(
                    self@,
                ),
            },
    {
        let ghost model = self@;
        match (self.name, self.metric_type, self.help) {
            (Some(name), Some(metric_type), Some(help)) => {
                Ok(PrometheusMetric::new(name.as_str(), metric_type, help.as_str()))
            },
            (name, metric_type, help) => {
                let mut missing: Vec<MandatoryField> = Vec::new();
                if name.is_none() {
                    missing.push(MandatoryField::Name);
                }
                if metric_type.is_none() {
                    missing.push(MandatoryField::MetricType);
                }
                if help.is_none() {
                    missing.push(MandatoryField::Help);
                }
                assert(missing@ =~= missing_fields(model));
                Err(missing)
            },
        }
    }
}

impl PrometheusMetricBuilder<No, No, No> {
    /// A builder with none of the fields given.
    pub fn new() -> (r: PrometheusMetricBuilder<No, No, No>)
        ensures
            r@.name is None,
            r@.metric_type is None,
            r@.help is None,
    {
        PrometheusMetricBuilder {
            p_name: PhantomData,
            p_metric_type: PhantomData,
            p_help: PhantomData,
            name: None,
            metric_type: None,
            help: None,
        }
    }
}

impl<T: ToAssign, H: ToAssign> PrometheusMetricBuilder<Yes, T, H> {
    /// The name that was given.
    pub fn name(&self) -> (r: &str)
        ensures
            self@.name == Some(r@),
    {
        proof {
            use_type_invariant(self);
        }
        self.name.as_ref().unwrap().as_str()
    }
}

impl<N: ToAssign, H: ToAssign> PrometheusMetricBuilder<N, Yes, H> {
    /// The type that was given.
    pub fn metric_type(&self) -> (r: MetricType)
        ensures
            self@.metric_type == Some(r),
    {
        proof {
            use_type_invariant(self);
        }
        self.metric_type.unwrap()
    }
}

impl<N: ToAssign, T: ToAssign> PrometheusMetricBuilder<N, T, Yes> {
    /// The help text that was given.
    pub fn help(&self) -> (r: &str)
        ensures
            self@.help == Some(r@),
    {
        proof {
            use_type_invariant(self);
        }
        self.help.as_ref().unwrap().as_str()
    }
}

impl<T: ToAssign, H: ToAssign> PrometheusMetricBuilder<No, T, H> {
    /// Gives the metric's name. Mandatory.
    pub fn with_name(self, name: &str) -> (r: PrometheusMetricBuilder<Yes, T, H>)
        ensures
            r@ == (BuilderModel { name: Some(name@), ..self@ }),
    {
        proof {
            use_type_invariant(&self);
        }
        PrometheusMetricBuilder {
            p_name: PhantomData,
            p_metric_type: PhantomData,
            p_help: PhantomData,
            name: Some(name.to_owned()),
            metric_type: self.metric_type,
            help: self.help,
        }
    }
}

impl<N: ToAssign, H: ToAssign> PrometheusMetricBuilder<N, No, H> {
    /// Gives the metric's type. Mandatory.
    pub fn with_metric_type(self, metric_type: MetricType) -> (r: PrometheusMetricBuilder<
        N,
        Yes,
        H,
    >)
        ensures
            r@ == (BuilderModel { metric_type: Some(metric_type), ..self@ }),
    {
        proof {
            use_type_invariant(&self);
        }
        PrometheusMetricBuilder {
            p_name: PhantomData,
            p_metric_type: PhantomData,
            p_help: PhantomData,
            name: self.name,
            metric_type: Some(metric_type),
            help: self.help,
        }
    }
}

impl<N: ToAssign, T: ToAssign> PrometheusMetricBuilder<N, T, No> {
    /// Gives the metric's help text. Mandatory.
    pub fn with_help(self, help: &str) -> (r: PrometheusMetricBuilder<N, T, Yes>)
        ensures
            r@ == (BuilderModel { help: Some(help@), ..self@ }),
    {
        proof {
            use_type_invariant(&self);
        }
        PrometheusMetricBuilder {
            p_name: PhantomData,
            p_metric_type: PhantomData,
            p_help: PhantomData,
            name: self.name,
            metric_type: self.metric_type,
            help: Some(help.to_owned()),
        }
    }
}

impl PrometheusMetricBuilder<Yes, Yes, Yes> {
    /// Builds the metric from the three given fields, with no samples.
    pub fn build(self) -> (r: PrometheusMetric)
        ensures
            self@.name is Some,
            self@.metric_type is Some,
            self@.help is Some,
            r@ == (MetricModel {
                name: self@.name.unwrap(),
                metric_type: self@.metric_type.unwrap(),
                help: self@.help.unwrap(),
                fragments: Seq::empty(),
            }),
    {
        proof {
            use_type_invariant(&self);
        }
        PrometheusMetric::new(self.name(), self.metric_type(), self.help())
    }
}

} // verus!
