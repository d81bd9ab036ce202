use vstd::prelude::*;

use crate::metrics::{CounterId, GaugeId, HistogramId, MetricsRegistry};

verus! {

/// The metrics a sample access logger maintains: requests observed, reports
/// emitted, and a gauge for reports still being assembled.
#[derive(Clone, Copy, Debug, PartialEq, Eq)]
pub struct SampleAccessLoggerStats {
    pub requests_total: CounterId,
    pub reports_active: GaugeId,
    pub reports_total: CounterId,
}

impl SampleAccessLoggerStats {
    /// All three handles belong to `m`.
    pub open spec fn wf(&self, m: MetricsRegistry) -> bool {
        &&& m.counter_wf(self.requests_total)
        &&& m.gauge_wf(self.reports_active)
        &&& m.counter_wf(self.reports_total)
    }

    /// Bundles the logger's metric handles.
    pub fn new(requests_total: CounterId, reports_active: GaugeId, reports_total: CounterId) -> (r:
        SampleAccessLoggerStats)
        ensures
            r == (SampleAccessLoggerStats { requests_total, reports_active, reports_total }),
    {
        SampleAccessLoggerStats { requests_total, reports_active, reports_total }
    }

    /// Counter of requests the logger has seen.
    pub fn requests_total(&self) -> (r: CounterId)
        ensures
            r == self.requests_total,
    {
        self.requests_total
    }

    /// Gauge of reports currently being assembled.
    pub fn reports_active(&self) -> (r: GaugeId)
        ensures
            r == self.reports_active,
    {
        self.reports_active
    }

    /// Counter of reports the logger has emitted.
    pub fn reports_total(&self) -> (r: CounterId)
        ensures
            r == self.reports_total,
    {
        self.reports_total
    }
}

/// The metrics a sample HTTP filter maintains: completed exchanges, exchanges
/// in flight, and the sizes of response bodies.
#[derive(Clone, Copy, Debug, PartialEq, Eq)]
pub struct SampleHttpFilterStats {
    pub requests_total: CounterId,
    pub requests_active: GaugeId,
    pub response_body_size_bytes: HistogramId,
}

impl SampleHttpFilterStats {
    /// All three handles belong to `m`.
    pub open spec fn wf(&self, m: MetricsRegistry) -> bool {
        &&& m.counter_wf(self.requests_total)
        &&& m.gauge_wf(self.requests_active)
        &&& m.histogram_wf(self.response_body_size_bytes)
    }

    /// Bundles the filter's metric handles.
    pub fn new(
        requests_total: CounterId,
        requests_active: GaugeId,
        response_body_size_bytes: HistogramId,
    ) -> (r: SampleHttpFilterStats)
        ensures
            r == (SampleHttpFilterStats {
                requests_total,
                requests_active,
                response_body_size_bytes,
            }),
    {
        SampleHttpFilterStats { requests_total, requests_active, response_body_size_bytes }
    }

    /// Counter of exchanges this filter has completed.
    pub fn requests_total(&self) -> (r: CounterId)
        ensures
            r == self.requests_total,
    {
        self.requests_total
    }

    /// Gauge of exchanges currently in flight.
    pub fn requests_active(&self) -> (r: GaugeId)
        ensures
            r == self.requests_active,
    {
        self.requests_active
    }

    /// Histogram of response body sizes.
    pub fn response_body_size_bytes(&self) -> (r: HistogramId)
        ensures
            r == self.response_body_size_bytes,
    {
        self.response_body_size_bytes
    }
}

/// The metrics a sample network filter maintains; the same shape as the HTTP
/// filter's, keyed to connections instead of exchanges.
#[derive(Clone, Copy, Debug, PartialEq, Eq)]
pub struct SampleNetworkFilterStats {
    pub requests_total: CounterId,
    pub requests_active: GaugeId,
    pub response_body_size_bytes: HistogramId,
}

impl SampleNetworkFilterStats {
    /// All three handles belong to `m`.
    pub open spec fn wf(&self, m: MetricsRegistry) -> bool {
        &&& m.counter_wf(self.requests_total)
        &&& m.gauge_wf(self.requests_active)
        &&& m.histogram_wf(self.response_body_size_bytes)
    }

    /// Bundles the filter's metric handles.
    pub fn new(
        requests_total: CounterId,
        requests_active: GaugeId,
        response_body_size_bytes: HistogramId,
    ) -> (r: SampleNetworkFilterStats)
        ensures
            r == (SampleNetworkFilterStats {
                requests_total,
                requests_active,
                response_body_size_bytes,
            }),
    {
        SampleNetworkFilterStats { requests_total, requests_active, response_body_size_bytes }
    }

    /// Counter of connections this filter has completed.
    pub fn requests_total(&self) -> (r: CounterId)
        ensures
            r == self.requests_total,
    {
        self.requests_total
    }

    /// Gauge of connections currently open.
    pub fn requests_active(&self) -> (r: GaugeId)
        ensures
            r == self.requests_active,
    {
        self.requests_active
    }

    /// Histogram of upstream data chunk sizes.
    pub fn response_body_size_bytes(&self) -> (r: HistogramId)
        ensures
            r == self.response_body_size_bytes,
    {
        self.response_body_size_bytes
    }
}

} // verus!
