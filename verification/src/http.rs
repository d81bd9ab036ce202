use vstd::prelude::*;

use crate::arith::{sat_add, sat_dec_i64};
use crate::config::{config_accepted, ConfigurationStore};
use crate::correlator::{correlator_unchanged, AsyncCallCorrelator, PendingCall};
use crate::errors::CoreError;
use crate::headers::{first_value, Headers};
use crate::instance::{
    fresh_instance, has_id, id_index, lemma_same_ids_wf, EventStatus, Instance, InstanceRegistry,
    InstanceState, Shape,
};
use crate::metrics::{
    counter_bumped, gauge_bumped, has_name, histogram_recorded, lemma_registered_preserves_other,
    lemma_three_registrations, metrics_unchanged, name_index, three_registered, MetricKind,
    MetricsRegistry,
};
use crate::stats::SampleHttpFilterStats;

verus! {

/// The request path the filter answers by itself.
pub open spec fn ping_path() -> Seq<char> {
    "/ping"@
}

/// The request path that makes the filter issue an authorization side call
/// and pause the exchange until the response arrives.
pub open spec fn secret_path() -> Seq<char> {
    "/secret"@
}

/// The body of the synthesized answer to the ping path.
pub open spec fn pong_body() -> Seq<char> {
    "Pong!\n"@
}

/// A response the filter synthesizes itself when it short-circuits an
/// exchange instead of forwarding it upstream.
#[derive(Debug)]
pub struct LocalResponse {
    pub status: u32,
    pub body: String,
}

/// What the filter answers to a request-headers event: let the host continue
/// the stream, pause it while a side call is in flight, answer the request
/// itself, or ignore an event that does not match the instance's state.
#[derive(Debug)]
pub enum HeadersOutcome {
    Continue,
    Pause,
    ShortCircuit(LocalResponse),
    Ignored,
}

/// Per-request HTTP filter: the state machine that consumes the events of
/// one HTTP exchange, driving the instance registered under `instance_id`.
/// Resumption after a side call is a distinct entry point — the correlator
/// delivers it through `AsyncCallCorrelator::resolve` — never a continuation
/// of the call that suspended.
#[derive(Clone, Copy, Debug)]
pub struct SampleHttpFilter {
    pub stats: SampleHttpFilterStats,
    pub instance_id: u64,
}

impl SampleHttpFilter {
    /// Creates the filter front-end for one instance.
    pub fn new(stats: SampleHttpFilterStats, instance_id: u64) -> (r: SampleHttpFilter)
        ensures
            r == (SampleHttpFilter { stats, instance_id }),
    {
        SampleHttpFilter { stats, instance_id }
    }

    /// Consumes the request-headers event of the exchange. From `Created`
    /// the filter chooses one of three transitions by the `:path` header:
    /// the ping path is answered on the spot with a fixed 200 response and
    /// the exchange completes without any side call; the secret path issues
    /// a side call, suspends the instance on its fresh handle and asks the
    /// host to pause the stream; every other request lets the stream
    /// continue. In any state but `Created` the event is ignored.
    pub fn on_request_headers(
        &self,
        reg: &mut InstanceRegistry,
        corr: &mut AsyncCallCorrelator,
        metrics: &mut MetricsRegistry,
        headers: &Headers,
        timeout: u64,
        now: u64,
    ) -> (r: Result<HeadersOutcome, CoreError>)
        requires
            old(reg).wf(),
            old(corr).wf(),
            old(metrics).wf(),
            old(corr).next_handle < u64::MAX,
            self.stats.wf(*old(metrics)),
        ensures
            final(reg).wf(),
            final(corr).wf(),
            final(metrics).wf(),
            self.stats.wf(*final(metrics)),
            ({
                let s = old(reg).instances@;
                let id = self.instance_id;
                let i = id_index(s, id);
                let inst = s[i];
                let path = first_value(headers.entries@, ":path"@);
                if !has_id(s, id) {
                    &&& r == Err::<HeadersOutcome, CoreError>(CoreError::NotFound)
                    &&& final(reg).instances@ == s
                    &&& correlator_unchanged(*old(corr), *final(corr))
                    &&& metrics_unchanged(*old(metrics), *final(metrics))
                } else if !(inst.state is Created) {
                    &&& r matches Ok(o) && o is Ignored
                    &&& final(reg).instances@ == s
                    &&& correlator_unchanged(*old(corr), *final(corr))
                    &&& metrics_unchanged(*old(metrics), *final(metrics))
                } else if path == Some(ping_path()) {
                    &&& r matches Ok(o) && o matches HeadersOutcome::ShortCircuit(resp)
                        && resp.status == 200 && resp.body@ == pong_body()
                    &&& final(reg).instances@ =~= s.update(
                        i,
                        (Instance { state: InstanceState::Completed, ..inst }),
                    )
                    &&& correlator_unchanged(*old(corr), *final(corr))
                    &&& counter_bumped(*old(metrics), *final(metrics), self.stats.requests_total)
                } else if path == Some(secret_path()) {
                    if inst.pending is Some {
                        &&& r == Err::<HeadersOutcome, CoreError>(CoreError::InstanceAlreadyPending)
                        &&& final(reg).instances@ == s
                        &&& correlator_unchanged(*old(corr), *final(corr))
                        &&& metrics_unchanged(*old(metrics), *final(metrics))
                    } else {
                        let h = old(corr).next_handle;
                        &&& r matches Ok(o) && o is Pause
                        &&& final(corr).next_handle == h + 1
                        &&& final(corr).calls@ =~= old(corr).calls@.push(
                            PendingCall { handle: h, owner: id, deadline: sat_add(now, timeout) },
                        )
                        &&& final(reg).instances@ =~= s.update(
                            i,
                            (Instance {
                                state: InstanceState::Suspended,
                                pending: Some(h),
                                ..inst
                            }),
                        )
                        &&& gauge_bumped(*old(metrics), *final(metrics), self.stats.requests_active)
                    }
                } else {
                    &&& r matches Ok(o) && o is Continue
                    &&& final(reg).instances@ =~= s.update(
                        i,
                        (Instance { state: InstanceState::Processing, ..inst }),
                    )
                    &&& correlator_unchanged(*old(corr), *final(corr))
                    &&& gauge_bumped(*old(metrics), *final(metrics), self.stats.requests_active)
                }
            }),
    {
        let id = self.instance_id;
        match reg.index_of(id) {
            None => Err(CoreError::NotFound),
            Some(i) => {
                let inst = reg.instances[i];
                match inst.state {
                    InstanceState::Created => {
                        let is_ping: bool;
                        let is_secret: bool;
                        match headers.get(":path") {
                            Some(p) => {
                                let ping: String = "/ping".to_owned();
                                let secret: String = "/secret".to_owned();
                                is_ping = *p == ping;
                                is_secret = !is_ping && *p == secret;
                            },
                            None => {
                                is_ping = false;
                                is_secret = false;
                            },
                        }
                        if is_ping {
                            reg.instances[i] = Instance {
                                state: InstanceState::Completed,
                                ..inst
                            };
                            proof {
                                lemma_same_ids_wf(old(reg).instances@, reg.instances@);
                            }
                            metrics.inc_counter(self.stats.requests_total);
                            let body: String = "Pong!\n".to_owned();
                            Ok(HeadersOutcome::ShortCircuit(LocalResponse { status: 200, body }))
                        } else if is_secret {
                            match corr.issue(reg, id, timeout, now) {
                                Ok(h) => {
                                    let inst2 = reg.instances[i];
                                    reg.instances[i] = Instance {
                                        state: InstanceState::Suspended,
                                        ..inst2
                                    };
                                    proof {
                                        lemma_same_ids_wf(old(reg).instances@, reg.instances@);
                                        assert(reg.instances@ =~= old(reg).instances@.update(
                                            i as int,
                                            (Instance {
                                                state: InstanceState::Suspended,
                                                pending: Some(h),
                                                ..inst
                                            }),
                                        ));
                                    }
                                    metrics.inc_gauge(self.stats.requests_active);
                                    Ok(HeadersOutcome::Pause)
                                },
                                Err(e) => Err(e),
                            }
                        } else {
                            reg.instances[i] = Instance {
                                state: InstanceState::Processing,
                                ..inst
                            };
                            proof {
                                lemma_same_ids_wf(old(reg).instances@, reg.instances@);
                            }
                            metrics.inc_gauge(self.stats.requests_active);
                            Ok(HeadersOutcome::Continue)
                        }
                    },
                    _ => Ok(HeadersOutcome::Ignored),
                }
            },
        }
    }

    /// Consumes the response-headers event. It is only meaningful while the
    /// exchange is processing; it never suspends and changes nothing.
    pub fn on_response_headers(&self, reg: &InstanceRegistry, _headers: &Headers) -> (r: Result<
        EventStatus,
        CoreError,
    >)
        ensures
            ({
                let s = reg.instances@;
                let id = self.instance_id;
                if !has_id(s, id) {
                    r == Err::<EventStatus, CoreError>(CoreError::NotFound)
                } else if s[id_index(s, id)].state is Processing {
                    r == Ok::<EventStatus, CoreError>(EventStatus::Continue)
                } else {
                    r == Ok::<EventStatus, CoreError>(EventStatus::Ignored)
                }
            }),
    {
        match reg.index_of(self.instance_id) {
            None => Err(CoreError::NotFound),
            Some(i) => {
                match reg.instances[i].state {
                    InstanceState::Processing => Ok(EventStatus::Continue),
                    _ => Ok(EventStatus::Ignored),
                }
            },
        }
    }

    /// Consumes one chunk of the response body while the exchange is
    /// processing, recording its size; in any other state the event is
    /// ignored and nothing changes.
    pub fn on_response_body(
        &self,
        reg: &InstanceRegistry,
        metrics: &mut MetricsRegistry,
        body_size: u64,
    ) -> (r: Result<EventStatus, CoreError>)
        requires
            old(metrics).wf(),
            self.stats.wf(*old(metrics)),
        ensures
            final(metrics).wf(),
            self.stats.wf(*final(metrics)),
            ({
                let s = reg.instances@;
                let id = self.instance_id;
                if !has_id(s, id) {
                    &&& r == Err::<EventStatus, CoreError>(CoreError::NotFound)
                    &&& metrics_unchanged(*old(metrics), *final(metrics))
                } else if s[id_index(s, id)].state is Processing {
                    &&& r == Ok::<EventStatus, CoreError>(EventStatus::Continue)
                    &&& histogram_recorded(
                        *old(metrics),
                        *final(metrics),
                        self.stats.response_body_size_bytes,
                        body_size,
                    )
                } else {
                    &&& r == Ok::<EventStatus, CoreError>(EventStatus::Ignored)
                    &&& metrics_unchanged(*old(metrics), *final(metrics))
                }
            }),
    {
        match reg.index_of(self.instance_id) {
            None => Err(CoreError::NotFound),
            Some(i) => {
                match reg.instances[i].state {
                    InstanceState::Processing => {
                        metrics.record_histogram(self.stats.response_body_size_bytes, body_size);
                        Ok(EventStatus::Continue)
                    },
                    _ => Ok(EventStatus::Ignored),
                }
            },
        }
    }

    /// Finalizes the exchange from any non-terminal state: one more request
    /// is counted, the in-flight gauge steps back down if the exchange had
    /// started, and the instance completes with no pending handle left. On a
    /// completed instance the event is a no-op.
    pub fn on_exchange_complete(
        &self,
        reg: &mut InstanceRegistry,
        metrics: &mut MetricsRegistry,
    ) -> (r: Result<(), CoreError>)
        requires
            old(reg).wf(),
            old(metrics).wf(),
            self.stats.wf(*old(metrics)),
        ensures
            final(reg).wf(),
            final(metrics).wf(),
            self.stats.wf(*final(metrics)),
            ({
                let s = old(reg).instances@;
                let id = self.instance_id;
                let i = id_index(s, id);
                let inst = s[i];
                let m0 = *old(metrics);
                let m1 = *final(metrics);
                if !has_id(s, id) {
                    &&& r == Err::<(), CoreError>(CoreError::NotFound)
                    &&& final(reg).instances@ == s
                    &&& metrics_unchanged(m0, m1)
                } else if inst.state is Completed {
                    &&& r == Ok::<(), CoreError>(())
                    &&& final(reg).instances@ == s
                    &&& metrics_unchanged(m0, m1)
                } else {
                    let started = inst.state is Processing || inst.state is Suspended;
                    let ct = self.stats.requests_total;
                    let g = self.stats.requests_active;
                    &&& r == Ok::<(), CoreError>(())
                    &&& final(reg).instances@ =~= s.update(
                        i,
                        (Instance { state: InstanceState::Completed, pending: None, ..inst }),
                    )
                    &&& m1.counts@ =~= m0.counts@.update(
                        ct.index as int,
                        sat_add(m0.counts@[ct.index as int], 1),
                    )
                    &&& if started {
                        m1.levels@ =~= m0.levels@.update(
                            g.index as int,
                            sat_dec_i64(m0.levels@[g.index as int]),
                        )
                    } else {
                        m1.levels@ == m0.levels@
                    }
                    &&& m1.names@ == m0.names@
                    &&& m1.kinds@ == m0.kinds@
                    &&& m1.samples@ == m0.samples@
                }
            }),
    {
        match reg.index_of(self.instance_id) {
            None => Err(CoreError::NotFound),
            Some(i) => {
                let inst = reg.instances[i];
                match inst.state {
                    InstanceState::Completed => Ok(()),
                    _ => {
                        let started = match inst.state {
                            InstanceState::Processing => true,
                            InstanceState::Suspended => true,
                            _ => false,
                        };
                        reg.instances[i] = Instance {
                            state: InstanceState::Completed,
                            pending: None,
                            ..inst
                        };
                        proof {
                            lemma_same_ids_wf(old(reg).instances@, reg.instances@);
                        }
                        metrics.inc_counter(self.stats.requests_total);
                        if started {
                            metrics.dec_gauge(self.stats.requests_active);
                        }
                        Ok(())
                    },
                }
            },
        }
    }
}

/// Factory for sample HTTP filter instances: publishes configuration for
/// future instances and creates one filter instance per HTTP request, bound
/// to the configuration snapshot current at creation.
pub struct SampleHttpFilterFactory {
    pub store: ConfigurationStore,
    pub stats: SampleHttpFilterStats,
}

/// The filter's metric names are free to register in `m`: each is either
/// not taken yet or already registered with the kind the filter wants.
pub open spec fn http_filter_metrics_available(m: MetricsRegistry) -> bool {
    let ns = m.names@;
    &&& (has_name(ns, "examples.http_filter.requests_total"@) ==> m.kinds@[name_index(
        ns,
        "examples.http_filter.requests_total"@,
    )] == MetricKind::Counter)
    &&& (has_name(ns, "examples.http_filter.requests_active"@) ==> m.kinds@[name_index(
        ns,
        "examples.http_filter.requests_active"@,
    )] == MetricKind::Gauge)
    &&& (has_name(ns, "examples.http_filter.response_body_size_bytes"@) ==> m.kinds@[name_index(
        ns,
        "examples.http_filter.response_body_size_bytes"@,
    )] == MetricKind::Histogram)
}

impl SampleHttpFilterFactory {
    /// Registers the filter's three metrics and starts with the default
    /// configuration. Registration succeeds exactly when each metric name is
    /// still free or already taken by the matching kind; a name taken by a
    /// different kind fails the factory and leaves the registry untouched.
    /// On success the returned handles denote exactly the metrics registered
    /// under the filter's names, and nothing else was added or changed.
    pub fn new(metrics: &mut MetricsRegistry) -> (r: Result<SampleHttpFilterFactory, CoreError>)
        requires
            old(metrics).wf(),
        ensures
            final(metrics).wf(),
            r is Ok <==> http_filter_metrics_available(*old(metrics)),
            r matches Ok(f) ==> f.store.wf() && f.store@ =~= seq![Seq::<u8>::empty()]
                && f.stats.wf(*final(metrics)) && three_registered(
                *old(metrics),
                *final(metrics),
                "examples.http_filter.requests_total"@,
                MetricKind::Counter,
                f.stats.requests_total.index,
                "examples.http_filter.requests_active"@,
                MetricKind::Gauge,
                f.stats.requests_active.index,
                "examples.http_filter.response_body_size_bytes"@,
                MetricKind::Histogram,
                f.stats.response_body_size_bytes.index,
            ),
            r is Err ==> r == Err::<SampleHttpFilterFactory, CoreError>(
                CoreError::MetricKindMismatch,
            ) && metrics_unchanged(*old(metrics), *final(metrics)),
    {
        proof {
            reveal_strlit("examples.http_filter.requests_total");
            reveal_strlit("examples.http_filter.requests_active");
            reveal_strlit("examples.http_filter.response_body_size_bytes");
            // the three names have pairwise different lengths
            assert("examples.http_filter.requests_total"@.len() == 35);
            assert("examples.http_filter.requests_active"@.len() == 36);
            assert("examples.http_filter.response_body_size_bytes"@.len() == 45);
        }
        // probe first, register after: a mismatch anywhere changes nothing
        let free1 = match metrics.lookup_kind("examples.http_filter.requests_total") {
            None => true,
            Some(k) => k == MetricKind::Counter,
        };
        let free2 = match metrics.lookup_kind("examples.http_filter.requests_active") {
            None => true,
            Some(k) => k == MetricKind::Gauge,
        };
        let free3 = match metrics.lookup_kind("examples.http_filter.response_body_size_bytes") {
            None => true,
            Some(k) => k == MetricKind::Histogram,
        };
        if !(free1 && free2 && free3) {
            return Err(CoreError::MetricKindMismatch);
        }
        let ghost m0 = *metrics;
        let r1 = metrics.counter("examples.http_filter.requests_total");
        let requests_total = match r1 {
            Ok(c) => c,
            Err(_) => {
                // unreachable: the name was just probed as available
                proof {
                    assert(false);
                }
                return Err(CoreError::MetricKindMismatch);
            },
        };
        let ghost m1 = *metrics;
        let r2 = metrics.gauge("examples.http_filter.requests_active");
        proof {
            lemma_registered_preserves_other(
                m0,
                m1,
                "examples.http_filter.requests_total"@,
                MetricKind::Counter,
                Ok(requests_total.index),
                "examples.http_filter.requests_active"@,
            );
        }
        let requests_active = match r2 {
            Ok(g) => g,
            Err(_) => {
                // unreachable: registering the first name left this one free
                proof {
                    assert(false);
                }
                return Err(CoreError::MetricKindMismatch);
            },
        };
        let ghost m2 = *metrics;
        let r3 = metrics.histogram("examples.http_filter.response_body_size_bytes");
        proof {
            lemma_registered_preserves_other(
                m0,
                m1,
                "examples.http_filter.requests_total"@,
                MetricKind::Counter,
                Ok(requests_total.index),
                "examples.http_filter.response_body_size_bytes"@,
            );
            lemma_registered_preserves_other(
                m1,
                m2,
                "examples.http_filter.requests_active"@,
                MetricKind::Gauge,
                Ok(requests_active.index),
                "examples.http_filter.response_body_size_bytes"@,
            );
        }
        let response_body_size_bytes = match r3 {
            Ok(h) => h,
            Err(_) => {
                // unreachable: the first two registrations left this one free
                proof {
                    assert(false);
                }
                return Err(CoreError::MetricKindMismatch);
            },
        };
        proof {
            lemma_three_registrations(
                m0,
                m1,
                m2,
                *metrics,
                "examples.http_filter.requests_total"@,
                MetricKind::Counter,
                requests_total.index,
                "examples.http_filter.requests_active"@,
                MetricKind::Gauge,
                requests_active.index,
                "examples.http_filter.response_body_size_bytes"@,
                MetricKind::Histogram,
                response_body_size_bytes.index,
            );
        }
        Ok(
            SampleHttpFilterFactory {
                store: ConfigurationStore::new(),
                stats: SampleHttpFilterStats::new(
                    requests_total,
                    requests_active,
                    response_body_size_bytes,
                ),
            },
        )
    }

    /// The reference name under which the host wires this factory.
    pub fn name() -> (r: &'static str)
        ensures
            r@ == "sample_http_filter"@,
    {
        "sample_http_filter"
    }

    /// Publishes new configuration for instances created from now on.
    /// Empty input stands for the default configuration; malformed input is
    /// rejected and the previously active configuration stays authoritative.
    /// Instances created earlier keep their snapshot either way.
    pub fn on_configure(&mut self, config: &[u8]) -> (r: Result<(), CoreError>)
        requires
            old(self).store.wf(),
        ensures
            final(self).store.wf(),
            final(self).stats == old(self).stats,
            r is Ok <==> config_accepted(config@),
            r is Ok ==> final(self).store@ =~= old(self).store@.push(config@),
            r is Err ==> final(self).store@ == old(self).store@ && r == Err::<(), CoreError>(
                CoreError::ConfigParseError,
            ),
            old(self).store@.is_prefix_of(final(self).store@),
    {
        match self.store.publish(config) {
            Ok(_) => Ok(()),
            Err(e) => Err(e),
        }
    }

    /// Creates the unique filter instance for one HTTP request, bound to the
    /// configuration epoch active right now (snapshot-at-creation). Fails
    /// with `DuplicateId`, changing nothing, if `instance_id` is already
    /// live.
    pub fn new_extension(&self, reg: &mut InstanceRegistry, instance_id: u64) -> (r: Result<
        SampleHttpFilter,
        CoreError,
    >)
        requires
            old(reg).wf(),
            self.store.wf(),
        ensures
            final(reg).wf(),
            r is Ok <==> !has_id(old(reg).instances@, instance_id),
            r matches Ok(f) ==> f == (SampleHttpFilter { stats: self.stats, instance_id })
                && final(reg).instances@ =~= old(reg).instances@.push(
                fresh_instance(instance_id, Shape::HttpFilter, (self.store@.len() - 1) as usize),
            ),
            r is Err ==> final(reg).instances@ == old(reg).instances@ && r == Err::<
                SampleHttpFilter,
                CoreError,
            >(CoreError::DuplicateId),
    {
        let epoch = self.store.current_epoch();
        match reg.create(instance_id, Shape::HttpFilter, epoch) {
            Ok(_) => Ok(SampleHttpFilter::new(self.stats, instance_id)),
            Err(e) => Err(e),
        }
    }
}

} // verus!
