//! What a sample must offer to be appended to a metric.

use vstd::prelude::*;

verus! {

/// Implemented by anything that can render itself as a sample line of the
/// Prometheus text format, without the metric name in front.
pub trait RenderToPrometheus {
    /// The text that `render` returns.
    spec fn rendered(&self) -> Seq<char>;

    /// Renders the sample: labels, value and timestamp, without the name.
    fn render(&self) -> (r: String)
        ensures
            r@ == self.rendered(),
    ;
}

} // verus!
