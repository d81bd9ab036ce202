use vstd::prelude::*;

use crate::arith::sat_add;
use crate::config::{config_accepted, ConfigurationStore};
use crate::errors::CoreError;
use crate::headers::Headers;
use crate::metrics::{
    has_name, lemma_registered_preserves_other, lemma_three_registrations, metrics_unchanged,
    name_index, three_registered, MetricKind, MetricsRegistry,
};
use crate::stats::SampleAccessLoggerStats;

verus! {

/// Sample access logger: the minimal shape of the access-log state machine.
/// Each log event is terminal — it reads the request and response metadata
/// of a finished stream and updates the logger's metrics in one step, with
/// no suspension point. The logger owns its configuration store and, like
/// every shape, observes configuration through published snapshots.
pub struct SampleAccessLogger {
    pub store: ConfigurationStore,
    pub stats: SampleAccessLoggerStats,
}

/// The logger's metric names are free to register in `m`: each is either
/// not taken yet or already registered with the kind the logger wants.
pub open spec fn access_logger_metrics_available(m: MetricsRegistry) -> bool {
    let ns = m.names@;
    &&& (has_name(ns, "examples.access_logger.requests_total"@) ==> m.kinds@[name_index(
        ns,
        "examples.access_logger.requests_total"@,
    )] == MetricKind::Counter)
    &&& (has_name(ns, "examples.access_logger.reports_active"@) ==> m.kinds@[name_index(
        ns,
        "examples.access_logger.reports_active"@,
    )] == MetricKind::Gauge)
    &&& (has_name(ns, "examples.access_logger.reports_total"@) ==> m.kinds@[name_index(
        ns,
        "examples.access_logger.reports_total"@,
    )] == MetricKind::Counter)
}

impl SampleAccessLogger {
    /// Registers the logger's three metrics and starts with the default
    /// configuration. Registration succeeds exactly when each metric name is
    /// still free or already taken by the matching kind; a name taken by a
    /// different kind fails the logger and leaves the registry untouched.
    /// On success the returned handles denote exactly the metrics registered
    /// under the logger's names, and nothing else was added or changed.
    pub fn new(metrics: &mut MetricsRegistry) -> (r: Result<SampleAccessLogger, CoreError>)
        requires
            old(metrics).wf(),
        ensures
            final(metrics).wf(),
            r is Ok <==> access_logger_metrics_available(*old(metrics)),
            r matches Ok(f) ==> f.store.wf() && f.store@ =~= seq![Seq::<u8>::empty()]
                && f.stats.wf(*final(metrics)) && three_registered(
                *old(metrics),
                *final(metrics),
                "examples.access_logger.requests_total"@,
                MetricKind::Counter,
                f.stats.requests_total.index,
                "examples.access_logger.reports_active"@,
                MetricKind::Gauge,
                f.stats.reports_active.index,
                "examples.access_logger.reports_total"@,
                MetricKind::Counter,
                f.stats.reports_total.index,
            ),
            r is Err ==> r == Err::<SampleAccessLogger, CoreError>(
                CoreError::MetricKindMismatch,
            ) && metrics_unchanged(*old(metrics), *final(metrics)),
    {
        proof {
            reveal_strlit("examples.access_logger.requests_total");
            reveal_strlit("examples.access_logger.reports_active");
            reveal_strlit("examples.access_logger.reports_total");
            // the first two names share a length but differ at one position;
            // the third is shorter than both
            assert("examples.access_logger.requests_total"@.len() == 37);
            assert("examples.access_logger.reports_active"@.len() == 37);
            assert("examples.access_logger.reports_total"@.len() == 36);
            assert("examples.access_logger.requests_total"@[25]
                != "examples.access_logger.reports_active"@[25]);
        }
        // probe first, register after: a mismatch anywhere changes nothing
        let free1 = match metrics.lookup_kind("examples.access_logger.requests_total") {
            None => true,
            Some(k) => k == MetricKind::Counter,
        };
        let free2 = match metrics.lookup_kind("examples.access_logger.reports_active") {
            None => true,
            Some(k) => k == MetricKind::Gauge,
        };
        let free3 = match metrics.lookup_kind("examples.access_logger.reports_total") {
            None => true,
            Some(k) => k == MetricKind::Counter,
        };
        if !(free1 && free2 && free3) {
            return Err(CoreError::MetricKindMismatch);
        }
        let ghost m0 = *metrics;
        let r1 = metrics.counter("examples.access_logger.requests_total");
        let requests_total = match r1 {
            Ok(c) => c,
            Err(_) => {
                // unreachable: the name was just probed as available
                proof {
                    assert(false);
                }
                return Err(CoreError::MetricKindMismatch);
            },
        };
        let ghost m1 = *metrics;
        let r2 = metrics.gauge("examples.access_logger.reports_active");
        proof {
            lemma_registered_preserves_other(
                m0,
                m1,
                "examples.access_logger.requests_total"@,
                MetricKind::Counter,
                Ok(requests_total.index),
                "examples.access_logger.reports_active"@,
            );
        }
        let reports_active = match r2 {
            Ok(g) => g,
            Err(_) => {
                // unreachable: registering the first name left this one free
                proof {
                    assert(false);
                }
                return Err(CoreError::MetricKindMismatch);
            },
        };
        let ghost m2 = *metrics;
        let r3 = metrics.counter("examples.access_logger.reports_total");
        proof {
            lemma_registered_preserves_other(
                m0,
                m1,
                "examples.access_logger.requests_total"@,
                MetricKind::Counter,
                Ok(requests_total.index),
                "examples.access_logger.reports_total"@,
            );
            lemma_registered_preserves_other(
                m1,
                m2,
                "examples.access_logger.reports_active"@,
                MetricKind::Gauge,
                Ok(reports_active.index),
                "examples.access_logger.reports_total"@,
            );
        }
        let reports_total = match r3 {
            Ok(h) => h,
            Err(_) => {
                // unreachable: the first two registrations left this one free
                proof {
                    assert(false);
                }
                return Err(CoreError::MetricKindMismatch);
            },
        };
        proof {
            lemma_three_registrations(
                m0,
                m1,
                m2,
                *metrics,
                "examples.access_logger.requests_total"@,
                MetricKind::Counter,
                requests_total.index,
                "examples.access_logger.reports_active"@,
                MetricKind::Gauge,
                reports_active.index,
                "examples.access_logger.reports_total"@,
                MetricKind::Counter,
                reports_total.index,
            );
        }
        Ok(
            SampleAccessLogger {
                store: ConfigurationStore::new(),
                stats: SampleAccessLoggerStats::new(requests_total, reports_active, reports_total),
            },
        )
    }

    /// The reference name under which the host wires this logger.
    pub fn name() -> (r: &'static str)
        ensures
            r@ == "sample_access_logger"@,
    {
        "sample_access_logger"
    }

    /// Publishes new configuration for log entries from now on. Empty input
    /// stands for the default configuration; malformed input is rejected and
    /// the previously active configuration stays authoritative.
    pub fn on_configure(&mut self, config: &[u8]) -> (r: Result<(), CoreError>)
        requires
            old(self).store.wf(),
        ensures
            final(self).store.wf(),
            final(self).stats == old(self).stats,
            r is Ok <==> config_accepted(config@),
            r is Ok ==> final(self).store@ =~= old(self).store@.push(config@),
            r is Err ==> final(self).store@ == old(self).store@ && r == Err::<(), CoreError>(
                CoreError::ConfigParseError,
            ),
            old(self).store@.is_prefix_of(final(self).store@),
    {
        match self.store.publish(config) {
            Ok(_) => Ok(()),
            Err(e) => Err(e),
        }
    }

    /// Logs one complete stream: reads its request and response metadata and
    /// counts one observed request and one emitted report. The event always
    /// succeeds; formatting and shipping the log line is the host's
    /// business, outside this core.
    pub fn on_log(
        &self,
        metrics: &mut MetricsRegistry,
        _request_headers: &Headers,
        _response_headers: &Headers,
    ) -> (r: Result<(), CoreError>)
        requires
            old(metrics).wf(),
            self.stats.wf(*old(metrics)),
        ensures
            final(metrics).wf(),
            self.stats.wf(*final(metrics)),
            r == Ok::<(), CoreError>(()),
            ({
                let m0 = *old(metrics);
                let m1 = *final(metrics);
                let a = self.stats.requests_total.index as int;
                let b = self.stats.reports_total.index as int;
                let mid = m0.counts@.update(a, sat_add(m0.counts@[a], 1));
                &&& m1.counts@ =~= mid.update(b, sat_add(mid[b], 1))
                &&& m1.names@ == m0.names@
                &&& m1.kinds@ == m0.kinds@
                &&& m1.levels@ == m0.levels@
                &&& m1.samples@ == m0.samples@
            }),
    {
        metrics.inc_counter(self.stats.requests_total);
        metrics.inc_counter(self.stats.reports_total);
        Ok(())
    }
}

} // verus!
