use vstd::prelude::*;

use crate::arith::{sat_add, sat_dec_i64, sat_inc_i64};
use crate::config::{config_accepted, ConfigurationStore};
use crate::errors::CoreError;
use crate::instance::{
    fresh_instance, has_id, id_index, lemma_same_ids_wf, EventStatus, Instance, InstanceRegistry,
    InstanceState, Shape,
};
use crate::metrics::{
    has_name, histogram_recorded, lemma_registered_preserves_other, lemma_three_registrations,
    metrics_unchanged, name_index, three_registered, MetricKind, MetricsRegistry,
};
use crate::stats::SampleNetworkFilterStats;

verus! {

/// Per-connection network filter: the same lifecycle skeleton as the HTTP
/// shape, keyed to the connection events instead of HTTP semantics. The
/// shared correlator machinery would carry a suspended connection too, but
/// this filter never suspends: the transport boundary offers no host
/// primitive to resume paused byte flow, a known limitation of the shape.
#[derive(Clone, Copy, Debug)]
pub struct SampleNetworkFilter {
    pub stats: SampleNetworkFilterStats,
    pub instance_id: u64,
}

impl SampleNetworkFilter {
    /// Creates the filter front-end for one connection.
    pub fn new(stats: SampleNetworkFilterStats, instance_id: u64) -> (r: SampleNetworkFilter)
        ensures
            r == (SampleNetworkFilter { stats, instance_id }),
    {
        SampleNetworkFilter { stats, instance_id }
    }

    /// Consumes the new-connection event: from `Created` the connection
    /// starts processing and the open-connections gauge steps up; in any
    /// other state the event is ignored.
    pub fn on_new_connection(
        &self,
        reg: &mut InstanceRegistry,
        metrics: &mut MetricsRegistry,
    ) -> (r: Result<EventStatus, CoreError>)
        requires
            old(reg).wf(),
            old(metrics).wf(),
            self.stats.wf(*old(metrics)),
        ensures
            final(reg).wf(),
            final(metrics).wf(),
            self.stats.wf(*final(metrics)),
            ({
                let s = old(reg).instances@;
                let id = self.instance_id;
                let i = id_index(s, id);
                let inst = s[i];
                let m0 = *old(metrics);
                let m1 = *final(metrics);
                if !has_id(s, id) {
                    &&& r == Err::<EventStatus, CoreError>(CoreError::NotFound)
                    &&& final(reg).instances@ == s
                    &&& metrics_unchanged(m0, m1)
                } else if !(inst.state is Created) {
                    &&& r == Ok::<EventStatus, CoreError>(EventStatus::Ignored)
                    &&& final(reg).instances@ == s
                    &&& metrics_unchanged(m0, m1)
                } else {
                    let g = self.stats.requests_active;
                    &&& r == Ok::<EventStatus, CoreError>(EventStatus::Continue)
                    &&& final(reg).instances@ =~= s.update(
                        i,
                        (Instance { state: InstanceState::Processing, ..inst }),
                    )
                    &&& m1.levels@ =~= m0.levels@.update(
                        g.index as int,
                        sat_inc_i64(m0.levels@[g.index as int]),
                    )
                    &&& m1.names@ == m0.names@
                    &&& m1.kinds@ == m0.kinds@
                    &&& m1.counts@ == m0.counts@
                    &&& m1.samples@ == m0.samples@
                }
            }),
    {
        match reg.index_of(self.instance_id) {
            None => Err(CoreError::NotFound),
            Some(i) => {
                let inst = reg.instances[i];
                match inst.state {
                    InstanceState::Created => {
                        reg.instances[i] = Instance { state: InstanceState::Processing, ..inst };
                        proof {
                            lemma_same_ids_wf(old(reg).instances@, reg.instances@);
                        }
                        metrics.inc_gauge(self.stats.requests_active);
                        Ok(EventStatus::Continue)
                    },
                    _ => Ok(EventStatus::Ignored),
                }
            },
        }
    }

    /// Consumes one chunk of upstream data while the connection is
    /// processing, recording its size; in any other state the event is
    /// ignored and nothing changes.
    pub fn on_upstream_data(
        &self,
        reg: &InstanceRegistry,
        metrics: &mut MetricsRegistry,
        data_size: u64,
    ) -> (r: Result<EventStatus, CoreError>)
        requires
            old(metrics).wf(),
            self.stats.wf(*old(metrics)),
        ensures
            final(metrics).wf(),
            self.stats.wf(*final(metrics)),
            ({
                let s = reg.instances@;
                let id = self.instance_id;
                if !has_id(s, id) {
                    &&& r == Err::<EventStatus, CoreError>(CoreError::NotFound)
                    &&& metrics_unchanged(*old(metrics), *final(metrics))
                } else if s[id_index(s, id)].state is Processing {
                    &&& r == Ok::<EventStatus, CoreError>(EventStatus::Continue)
                    &&& histogram_recorded(
                        *old(metrics),
                        *final(metrics),
                        self.stats.response_body_size_bytes,
                        data_size,
                    )
                } else {
                    &&& r == Ok::<EventStatus, CoreError>(EventStatus::Ignored)
                    &&& metrics_unchanged(*old(metrics), *final(metrics))
                }
            }),
    {
        match reg.index_of(self.instance_id) {
            None => Err(CoreError::NotFound),
            Some(i) => {
                match reg.instances[i].state {
                    InstanceState::Processing => {
                        metrics.record_histogram(self.stats.response_body_size_bytes, data_size);
                        Ok(EventStatus::Continue)
                    },
                    _ => Ok(EventStatus::Ignored),
                }
            },
        }
    }

    /// Finalizes the connection from any non-terminal state: one more
    /// connection is counted, the open-connections gauge steps back down if
    /// the connection had started, and the instance completes. On a
    /// completed instance the event is a no-op.
    pub fn on_connection_complete(
        &self,
        reg: &mut InstanceRegistry,
        metrics: &mut MetricsRegistry,
    ) -> (r: Result<(), CoreError>)
        requires
            old(reg).wf(),
            old(metrics).wf(),
            self.stats.wf(*old(metrics)),
        ensures
            final(reg).wf(),
            final(metrics).wf(),
            self.stats.wf(*final(metrics)),
            ({
                let s = old(reg).instances@;
                let id = self.instance_id;
                let i = id_index(s, id);
                let inst = s[i];
                let m0 = *old(metrics);
                let m1 = *final(metrics);
                if !has_id(s, id) {
                    &&& r == Err::<(), CoreError>(CoreError::NotFound)
                    &&& final(reg).instances@ == s
                    &&& metrics_unchanged(m0, m1)
                } else if inst.state is Completed {
                    &&& r == Ok::<(), CoreError>(())
                    &&& final(reg).instances@ == s
                    &&& metrics_unchanged(m0, m1)
                } else {
                    let started = inst.state is Processing || inst.state is Suspended;
                    let ct = self.stats.requests_total;
                    let g = self.stats.requests_active;
                    &&& r == Ok::<(), CoreError>(())
                    &&& final(reg).instances@ =~= s.update(
                        i,
                        (Instance { state: InstanceState::Completed, pending: None, ..inst }),
                    )
                    &&& m1.counts@ =~= m0.counts@.update(
                        ct.index as int,
                        sat_add(m0.counts@[ct.index as int], 1),
                    )
                    &&& if started {
                        m1.levels@ =~= m0.levels@.update(
                            g.index as int,
                            sat_dec_i64(m0.levels@[g.index as int]),
                        )
                    } else {
                        m1.levels@ == m0.levels@
                    }
                    &&& m1.names@ == m0.names@
                    &&& m1.kinds@ == m0.kinds@
                    &&& m1.samples@ == m0.samples@
                }
            }),
    {
        match reg.index_of(self.instance_id) {
            None => Err(CoreError::NotFound),
            Some(i) => {
                let inst = reg.instances[i];
                match inst.state {
                    InstanceState::Completed => Ok(()),
                    _ => {
                        let started = match inst.state {
                            InstanceState::Processing => true,
                            InstanceState::Suspended => true,
                            _ => false,
                        };
                        reg.instances[i] = Instance {
                            state: InstanceState::Completed,
                            pending: None,
                            ..inst
                        };
                        proof {
                            lemma_same_ids_wf(old(reg).instances@, reg.instances@);
                        }
                        metrics.inc_counter(self.stats.requests_total);
                        if started {
                            metrics.dec_gauge(self.stats.requests_active);
                        }
                        Ok(())
                    },
                }
            },
        }
    }
}

/// Factory for sample network filter instances: publishes configuration for
/// future instances and creates one filter instance per TCP connection,
/// bound to the configuration snapshot current at creation.
pub struct SampleNetworkFilterFactory {
    pub store: ConfigurationStore,
    pub stats: SampleNetworkFilterStats,
}

/// The filter's metric names are free to register in `m`: each is either
/// not taken yet or already registered with the kind the filter wants.
pub open spec fn network_filter_metrics_available(m: MetricsRegistry) -> bool {
    let ns = m.names@;
    &&& (has_name(ns, "examples.network_filter.requests_total"@) ==> m.kinds@[name_index(
        ns,
        "examples.network_filter.requests_total"@,
    )] == MetricKind::Counter)
    &&& (has_name(ns, "examples.network_filter.requests_active"@) ==> m.kinds@[name_index(
        ns,
        "examples.network_filter.requests_active"@,
    )] == MetricKind::Gauge)
    &&& (has_name(ns, "examples.network_filter.response_body_size_bytes"@) ==> m.kinds@[name_index(
        ns,
        "examples.network_filter.response_body_size_bytes"@,
    )] == MetricKind::Histogram)
}

impl SampleNetworkFilterFactory {
    /// Registers the factory's three metrics and starts with the default
    /// configuration. Registration succeeds exactly when each metric name is
    /// still free or already taken by the matching kind; a name taken by a
    /// different kind fails the factory and leaves the registry untouched.
    /// On success the returned handles denote exactly the metrics registered
    /// under the factory's names, and nothing else was added or changed.
    pub fn new(metrics: &mut MetricsRegistry) -> (r: Result<SampleNetworkFilterFactory, CoreError>)
        requires
            old(metrics).wf(),
        ensures
            final(metrics).wf(),
            r is Ok <==> network_filter_metrics_available(*old(metrics)),
            r matches Ok(f) ==> f.store.wf() && f.store@ =~= seq![Seq::<u8>::empty()]
                && f.stats.wf(*final(metrics)) && three_registered(
                *old(metrics),
                *final(metrics),
                "examples.network_filter.requests_total"@,
                MetricKind::Counter,
                f.stats.requests_total.index,
                "examples.network_filter.requests_active"@,
                MetricKind::Gauge,
                f.stats.requests_active.index,
                "examples.network_filter.response_body_size_bytes"@,
                MetricKind::Histogram,
                f.stats.response_body_size_bytes.index,
            ),
            r is Err ==> r == Err::<SampleNetworkFilterFactory, CoreError>(
                CoreError::MetricKindMismatch,
            ) && metrics_unchanged(*old(metrics), *final(metrics)),
    {
        proof {
            reveal_strlit("examples.network_filter.requests_total");
            reveal_strlit("examples.network_filter.requests_active");
            reveal_strlit("examples.network_filter.response_body_size_bytes");
            // the three names have pairwise different lengths
            assert("examples.network_filter.requests_total"@.len() == 38);
            assert("examples.network_filter.requests_active"@.len() == 39);
            assert("examples.network_filter.response_body_size_bytes"@.len() == 48);
        }
        // probe first, register after: a mismatch anywhere changes nothing
        let free1 = match metrics.lookup_kind("examples.network_filter.requests_total") {
            None => true,
            Some(k) => k == MetricKind::Counter,
        };
        let free2 = match metrics.lookup_kind("examples.network_filter.requests_active") {
            None => true,
            Some(k) => k == MetricKind::Gauge,
        };
        let free3 = match metrics.lookup_kind("examples.network_filter.response_body_size_bytes") {
            None => true,
            Some(k) => k == MetricKind::Histogram,
        };
        if !(free1 && free2 && free3) {
            return Err(CoreError::MetricKindMismatch);
        }
        let ghost m0 = *metrics;
        let r1 = metrics.counter("examples.network_filter.requests_total");
        let requests_total = match r1 {
            Ok(c) => c,
            Err(_) => {
                // unreachable: the name was just probed as available
                proof {
                    assert(false);
                }
                return Err(CoreError::MetricKindMismatch);
            },
        };
        let ghost m1 = *metrics;
        let r2 = metrics.gauge("examples.network_filter.requests_active");
        proof {
            lemma_registered_preserves_other(
                m0,
                m1,
                "examples.network_filter.requests_total"@,
                MetricKind::Counter,
                Ok(requests_total.index),
                "examples.network_filter.requests_active"@,
            );
        }
        let requests_active = match r2 {
            Ok(g) => g,
            Err(_) => {
                // unreachable: registering the first name left this one free
                proof {
                    assert(false);
                }
                return Err(CoreError::MetricKindMismatch);
            },
        };
        let ghost m2 = *metrics;
        let r3 = metrics.histogram("examples.network_filter.response_body_size_bytes");
        proof {
            lemma_registered_preserves_other(
                m0,
                m1,
                "examples.network_filter.requests_total"@,
                MetricKind::Counter,
                Ok(requests_total.index),
                "examples.network_filter.response_body_size_bytes"@,
            );
            lemma_registered_preserves_other(
                m1,
                m2,
                "examples.network_filter.requests_active"@,
                MetricKind::Gauge,
                Ok(requests_active.index),
                "examples.network_filter.response_body_size_bytes"@,
            );
        }
        let response_body_size_bytes = match r3 {
            Ok(h) => h,
            Err(_) => {
                // unreachable: the first two registrations left this one free
                proof {
                    assert(false);
                }
                return Err(CoreError::MetricKindMismatch);
            },
        };
        proof {
            lemma_three_registrations(
                m0,
                m1,
                m2,
                *metrics,
                "examples.network_filter.requests_total"@,
                MetricKind::Counter,
                requests_total.index,
                "examples.network_filter.requests_active"@,
                MetricKind::Gauge,
                requests_active.index,
                "examples.network_filter.response_body_size_bytes"@,
                MetricKind::Histogram,
                response_body_size_bytes.index,
            );
        }
        Ok(
            SampleNetworkFilterFactory {
                store: ConfigurationStore::new(),
                stats: SampleNetworkFilterStats::new(
                    requests_total,
                    requests_active,
                    response_body_size_bytes,
                ),
            },
        )
    }

    /// The reference name under which the host wires this factory.
    pub fn name() -> (r: &'static str)
        ensures
            r@ == "sample_network_filter"@,
    {
        "sample_network_filter"
    }

    /// Publishes new configuration for connections created from now on;
    /// same acceptance and snapshot rules as every publish.
    pub fn on_configure(&mut self, config: &[u8]) -> (r: Result<(), CoreError>)
        requires
            old(self).store.wf(),
        ensures
            final(self).store.wf(),
            final(self).stats == old(self).stats,
            r is Ok <==> config_accepted(config@),
            r is Ok ==> final(self).store@ =~= old(self).store@.push(config@),
            r is Err ==> final(self).store@ == old(self).store@ && r == Err::<(), CoreError>(
                CoreError::ConfigParseError,
            ),
            old(self).store@.is_prefix_of(final(self).store@),
    {
        match self.store.publish(config) {
            Ok(_) => Ok(()),
            Err(e) => Err(e),
        }
    }

    /// Creates the unique filter instance for one TCP connection, bound to
    /// the configuration epoch active right now (snapshot-at-creation).
    /// Fails with `DuplicateId`, changing nothing, if `instance_id` is
    /// already live.
    pub fn new_extension(&self, reg: &mut InstanceRegistry, instance_id: u64) -> (r: Result<
        SampleNetworkFilter,
        CoreError,
    >)
        requires
            old(reg).wf(),
            self.store.wf(),
        ensures
            final(reg).wf(),
            r is Ok <==> !has_id(old(reg).instances@, instance_id),
            r matches Ok(f) ==> f == (SampleNetworkFilter { stats: self.stats, instance_id })
                && final(reg).instances@ =~= old(reg).instances@.push(
                fresh_instance(instance_id, Shape::NetworkFilter, (self.store@.len() - 1) as usize),
            ),
            r is Err ==> final(reg).instances@ == old(reg).instances@ && r == Err::<
                SampleNetworkFilter,
                CoreError,
            >(CoreError::DuplicateId),
    {
        let epoch = self.store.current_epoch();
        match reg.create(instance_id, Shape::NetworkFilter, epoch) {
            Ok(_) => Ok(SampleNetworkFilter::new(self.stats, instance_id)),
            Err(e) => Err(e),
        }
    }
}

} // verus!
