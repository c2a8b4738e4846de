//! A metric family: its name, type and help text, and the samples rendered
//! into it so far.

use vstd::prelude::*;
use crate::metric_type::MetricType;
use crate::prometheus_metric_builder::PrometheusMetricBuilder;
use crate::render_to_prometheus::RenderToPrometheus;
use crate::No;

verus! {

/// What a metric holds, as plain values.
pub struct MetricModel {
    pub name: Seq<char>,
    pub metric_type: MetricType,
    pub help: Seq<char>,
    /// The rendered samples, in the order they were appended.
    pub fragments: Seq<Seq<char>>,
}

/// A metric family that accumulates rendered samples and renders them
/// under its `# HELP` and `# TYPE` header.
#[derive(Debug)]
pub struct PrometheusMetric {
    pub(crate) counter_name: String,
    pub(crate) counter_type: MetricType,
    pub(crate) counter_help: String,
    pub(crate) rendered_instances: Vec<String>,
}

/// The two header lines of a metric family.
pub open spec fn header_text(name: Seq<char>, metric_type: MetricType, help: Seq<char>) -> Seq<
    char,
> {
    "# HELP "@ + name + " "@ + help + "\n# TYPE "@ + name + " "@ + metric_type.text() + "\n"@
}

/// One line per rendered sample, in order: the name, the sample, a newline.
pub open spec fn sample_lines(name: Seq<char>, fragments: Seq<Seq<char>>) -> Seq<char>
    decreases fragments.len(),
{
    if fragments.len() == 0 {
        Seq::empty()
    } else {
        sample_lines(name, fragments.drop_last()) + name + fragments.last() + "\n"@
    }
}

/// The whole text of a metric: the header followed by the sample lines.
pub open spec fn metric_text(m: MetricModel) -> Seq<char> {
    header_text(m.name, m.metric_type, m.help) + sample_lines(m.name, m.fragments)
}

impl View for PrometheusMetric {
    type V = MetricModel;

    closed spec fn view(&self) -> MetricModel {
        MetricModel {
            name: self.counter_name@,
            metric_type: self.counter_type,
            help: self.counter_help@,
            fragments: self.rendered_instances@.map_values(|s: String| s@),
        }
    }
}

impl PrometheusMetric {
    /// A metric with the given name, type and help, and no samples. The
    /// builder returned by [`PrometheusMetric::build`] is the preferred way.
    pub fn new(counter_name: &str, counter_type: MetricType, counter_help: &str) -> (r:
        PrometheusMetric)
        ensures
            r@ == (MetricModel {
                name: counter_name@,
                metric_type: counter_type,
                help: counter_help@,
                fragments: Seq::empty(),
            }),
    {
        let r = PrometheusMetric {
            counter_name: counter_name.to_owned(),
            counter_type,
            counter_help: counter_help.to_owned(),
            rendered_instances: Vec::new(),
        };
        assert(r@.fragments =~= Seq::empty());
        r
    }

    /// A builder with none of the mandatory fields given.
    pub fn build() -> (r: PrometheusMetricBuilder<No, No, No>)
        ensures
            r@.name is None,
            r@.metric_type is None,
            r@.help is None,
    {
        PrometheusMetricBuilder::new()
    }

    /// The `# HELP` and `# TYPE` lines of the metric.
    pub fn render_header(&self) -> (r: String)
        ensures
            r@ == header_text(self@.name, self@.metric_type, self@.help),
    {
        let mut s = "# HELP ".to_owned();
        s.append(self.counter_name.as_str());
        s.append(" ");
        s.append(self.counter_help.as_str());
        s.append("\n# TYPE ");
        s.append(self.counter_name.as_str());
        s.append(" ");
        s.append(self.counter_type.as_ref());
        s.append("\n");
        s
    }

    /// Renders the sample now and keeps the text, after those appended
    /// before. Returns the metric itself, so that calls can be chained.
    pub fn render_and_append_instance<R: RenderToPrometheus>(&mut self, rendereable_instance: &R) -> (ret: &mut Self)
        ensures
            (*ret)@ == (MetricModel {
                fragments: old(self)@.fragments.push(rendereable_instance.rendered()),
                ..old(self)@
            }),
            *final(self) == *final(ret),
    {
        let rendered = rendereable_instance.render();
        self.rendered_instances.push(rendered);
        assert(self@.fragments =~= old(self)@.fragments.push(rendereable_instance.rendered()));
        self
    }

    /// The header followed by one line per appended sample, in order.
    pub fn render(&self) -> (r: String)
        ensures
            r@ == metric_text(self@),
    {
        let mut s = self.render_header();
        let ghost name = self@.name;
        let ghost fragments = self@.fragments;
        let n = self.rendered_instances.len();
        let mut i: usize = 0;
        while i < n
            invariant
                n == self.rendered_instances@.len(),
                name == self@.name,
                fragments == self@.fragments,
                i <= n,
                s@ == header_text(self@.name, self@.metric_type, self@.help) + sample_lines(
                    name,
                    fragments.take(i as int),
                ),
            decreases n - i,
        {
            s.append(self.counter_name.as_str());
            s.append(self.rendered_instances[i].as_str());
            s.append("\n");
            proof {
                let next = fragments.take(i + 1);
                assert(next.drop_last() =~= fragments.take(i as int));
                assert(next.last() == fragments[i as int]);
            }
            i = i + 1;
        }
        assert(fragments.take(n as int) =~= fragments);
        s
    }
}

/// Rendering is a function of the accumulated state alone: two metrics
/// holding the same name, type, help and samples render the same text, so
/// rendering one metric twice without changing it gives the same output.
pub proof fn lemma_render_depends_on_state_only(a: PrometheusMetric, b: PrometheusMetric)
    requires
        a@ == b@,
    ensures
        metric_text(a@) == metric_text(b@),
{
}

/// A sample appended last renders last: its line follows, unchanged, the
/// lines of the samples appended before it.
pub proof fn lemma_sample_order(m: MetricModel, fragment: Seq<char>)
    ensures
        metric_text(MetricModel { fragments: m.fragments.push(fragment), ..m }) == metric_text(m)
            + m.name + fragment + "\n"@,
{
    assert(m.fragments.push(fragment).drop_last() =~= m.fragments);
    assert(metric_text(MetricModel { fragments: m.fragments.push(fragment), ..m }) =~= metric_text(m)
        + m.name + fragment + "\n"@);
}

} // verus!
