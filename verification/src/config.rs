use vstd::prelude::*;

use crate::errors::CoreError;

verus! {

/// Whitespace bytes that the configuration grammar allows between tokens:
/// space, tab, line feed, carriage return.
pub open spec fn is_ws_byte(b: u8) -> bool {
    b == 32 || b == 9 || b == 10 || b == 13
}

/// The non-whitespace bytes of `s`, in order.
pub open spec fn strip_ws(s: Seq<u8>) -> Seq<u8>
    decreases s.len(),
{
    if s.len() == 0 {
        Seq::empty()
    } else if is_ws_byte(s.last()) {
        strip_ws(s.drop_last())
    } else {
        strip_ws(s.drop_last()).push(s.last())
    }
}

/// A well-formed configuration document: an empty JSON object surrounded by
/// any amount of whitespace. The sample extensions carry no configurable
/// fields, so `{}` (bytes 123 and 125) is the whole grammar.
pub open spec fn config_text_valid(s: Seq<u8>) -> bool {
    strip_ws(s) == seq![123u8, 125u8]
}

/// What a publish call accepts: empty input stands for "use the default
/// configuration", everything else must be a well-formed document.
pub open spec fn config_accepted(s: Seq<u8>) -> bool {
    s.len() == 0 || config_text_valid(s)
}

pub proof fn lemma_strip_ws_push(s: Seq<u8>, b: u8)
    ensures
        strip_ws(s.push(b)) == if is_ws_byte(b) {
            strip_ws(s)
        } else {
            strip_ws(s).push(b)
        },
{
    assert(s.push(b).drop_last() =~= s);
    assert(s.push(b).last() == b);
}

/// Checks that the non-whitespace content of `bytes` is exactly `{}`.
pub fn config_bytes_valid(bytes: &[u8]) -> (r: bool)
    ensures
        r == config_text_valid(bytes@),
{
    let mut i: usize = 0;
    // Number of non-whitespace bytes seen so far, capped at 3.
    let mut seen: usize = 0;
    // Whether every non-whitespace byte so far matched its position in `{}`.
    let mut good: bool = true;
    while i < bytes.len()
        invariant
            i <= bytes.len(),
            ({
                let f = strip_ws(bytes@.take(i as int));
                &&& seen == if f.len() < 3 { f.len() } else { 3nat }
                &&& good <==> {
                    &&& f.len() <= 2
                    &&& f.len() >= 1 ==> f[0] == 123
                    &&& f.len() >= 2 ==> f[1] == 125
                }
            }),
        decreases bytes.len() - i,
    {
        let b = bytes[i];
        proof {
            assert(bytes@.take(i as int + 1) =~= bytes@.take(i as int).push(bytes@[i as int]));
            lemma_strip_ws_push(bytes@.take(i as int), bytes@[i as int]);
        }
        if !(b == 32 || b == 9 || b == 10 || b == 13) {
            good = good && ((seen == 0 && b == 123) || (seen == 1 && b == 125));
            if seen < 3 {
                seen = seen + 1;
            }
        }
        i = i + 1;
    }
    proof {
        assert(bytes@.take(bytes@.len() as int) =~= bytes@);
        if good && seen == 2 {
            assert(strip_ws(bytes@) =~= seq![123u8, 125u8]);
        }
    }
    good && seen == 2
}

/// One published configuration: an immutable snapshot of the document it was
/// parsed from. A republish produces a new `Config`; no `Config` is ever
/// mutated after it is published.
pub struct Config {
    pub source: Vec<u8>,
}

/// Holds every configuration published so far, oldest first. The entry at
/// index 0 is the default configuration that is active before any publish;
/// the last entry is the currently active one. Instances record the index
/// ("epoch") that was current at their creation, and earlier entries are
/// never changed, which is what makes those snapshots permanent.
pub struct ConfigurationStore {
    pub published: Vec<Config>,
}

impl View for ConfigurationStore {
    type V = Seq<Seq<u8>>;

    open spec fn view(&self) -> Seq<Seq<u8>> {
        self.published@.map_values(|c: Config| c.source@)
    }
}

impl ConfigurationStore {
    /// A store is never empty: the default configuration is active from the
    /// start.
    pub open spec fn wf(&self) -> bool {
        self@.len() >= 1
    }

    /// Creates a store with only the default (empty) configuration active.
    pub fn new() -> (s: ConfigurationStore)
        ensures
            s.wf(),
            s@ =~= seq![Seq::<u8>::empty()],
    {
        let mut published: Vec<Config> = Vec::new();
        published.push(Config { source: Vec::new() });
        ConfigurationStore { published }
    }

    /// Parses `bytes` and publishes the result as the new active
    /// configuration. On malformed input nothing changes: the previously
    /// active configuration remains authoritative and the rejection is
    /// surfaced to the caller. On success the new epoch index is returned.
    pub fn publish(&mut self, bytes: &[u8]) -> (r: Result<usize, CoreError>)
        ensures
            r is Ok <==> config_accepted(bytes@),
            r is Ok ==> final(self)@ =~= old(self)@.push(bytes@) && r->Ok_0 == old(self)@.len(),
            r is Err ==> final(self)@ == old(self)@ && r == Err::<usize, CoreError>(
                CoreError::ConfigParseError,
            ),
            old(self)@.is_prefix_of(final(self)@),
            old(self).wf() ==> final(self).wf(),
    {
        if bytes.len() == 0 || config_bytes_valid(bytes) {
            let mut source: Vec<u8> = Vec::new();
            let mut i: usize = 0;
            while i < bytes.len()
                invariant
                    i <= bytes.len(),
                    source@ =~= bytes@.take(i as int),
                decreases bytes.len() - i,
            {
                source.push(bytes[i]);
                i = i + 1;
            }
            let epoch = self.published.len();
            self.published.push(Config { source });
            proof {
                assert(bytes@.take(bytes@.len() as int) =~= bytes@);
                assert(self@ =~= old(self)@.push(bytes@));
                assert(old(self)@.is_prefix_of(self@));
            }
            Ok(epoch)
        } else {
            proof {
                assert(old(self)@.is_prefix_of(self@));
            }
            Err(CoreError::ConfigParseError)
        }
    }

    /// The configuration active right now: the most recently published one.
    pub fn current(&self) -> (c: &Config)
        requires
            self.wf(),
        ensures
            c.source@ == self@.last(),
    {
        &self.published[self.published.len() - 1]
    }

    /// The epoch index of the currently active configuration. An instance
    /// created now records this index as its permanent snapshot.
    pub fn current_epoch(&self) -> (e: usize)
        requires
            self.wf(),
        ensures
            e == self@.len() - 1,
    {
        self.published.len() - 1
    }

    /// The configuration that was active at epoch `e`.
    pub fn config_at(&self, e: usize) -> (c: &Config)
        requires
            e < self@.len(),
        ensures
            c.source@ == self@[e as int],
    {
        &self.published[e]
    }
}

/// Snapshot-at-creation: a publish only appends, so the document at an
/// already-existing epoch never changes. An instance that recorded epoch `e`
/// observes the same configuration for its entire lifetime, across any number
/// of later republishes.
pub proof fn lemma_snapshot_stable(pre: Seq<Seq<u8>>, post: Seq<Seq<u8>>, e: int)
    requires
        pre.is_prefix_of(post),
        0 <= e < pre.len(),
    ensures
        post[e] == pre[e],
{
}

/// Configuration for a sample access logger. The sample reads no fields, so
/// a well-formed document is just the empty JSON object.
#[derive(Clone, Copy, Debug, PartialEq, Eq, Structural)]
pub struct SampleAccessLoggerConfig {}

impl SampleAccessLoggerConfig {
    /// Parses logger configuration from a JSON document.
    pub fn try_from(value: &[u8]) -> (r: Result<SampleAccessLoggerConfig, CoreError>)
        ensures
            r == if config_text_valid(value@) {
                Ok::<SampleAccessLoggerConfig, CoreError>((SampleAccessLoggerConfig {}))
            } else {
                Err::<SampleAccessLoggerConfig, CoreError>(CoreError::ConfigParseError)
            },
    {
        if config_bytes_valid(value) {
            Ok(SampleAccessLoggerConfig {})
        } else {
            Err(CoreError::ConfigParseError)
        }
    }
}

impl Default for SampleAccessLoggerConfig {
    fn default() -> (r: SampleAccessLoggerConfig)
        ensures
            r == (SampleAccessLoggerConfig {}),
    {
        SampleAccessLoggerConfig {}
    }
}

/// Configuration for a sample HTTP filter; same grammar as the other samples.
#[derive(Clone, Copy, Debug, PartialEq, Eq, Structural)]
pub struct SampleHttpFilterConfig {}

impl SampleHttpFilterConfig {
    /// Parses filter configuration from a JSON document.
    pub fn try_from(value: &[u8]) -> (r: Result<SampleHttpFilterConfig, CoreError>)
        ensures
            r == if config_text_valid(value@) {
                Ok::<SampleHttpFilterConfig, CoreError>((SampleHttpFilterConfig {}))
            } else {
                Err::<SampleHttpFilterConfig, CoreError>(CoreError::ConfigParseError)
            },
    {
        if config_bytes_valid(value) {
            Ok(SampleHttpFilterConfig {})
        } else {
            Err(CoreError::ConfigParseError)
        }
    }
}

impl Default for SampleHttpFilterConfig {
    fn default() -> (r: SampleHttpFilterConfig)
        ensures
            r == (SampleHttpFilterConfig {}),
    {
        SampleHttpFilterConfig {}
    }
}

/// Configuration for a sample network filter; same grammar as the other
/// samples.
#[derive(Clone, Copy, Debug, PartialEq, Eq, Structural)]
pub struct SampleNetworkFilterConfig {}

impl SampleNetworkFilterConfig {
    /// Parses filter configuration from a JSON document.
    pub fn try_from(value: &[u8]) -> (r: Result<SampleNetworkFilterConfig, CoreError>)
        ensures
            r == if config_text_valid(value@) {
                Ok::<SampleNetworkFilterConfig, CoreError>((SampleNetworkFilterConfig {}))
            } else {
                Err::<SampleNetworkFilterConfig, CoreError>(CoreError::ConfigParseError)
            },
    {
        if config_bytes_valid(value) {
            Ok(SampleNetworkFilterConfig {})
        } else {
            Err(CoreError::ConfigParseError)
        }
    }
}

impl Default for SampleNetworkFilterConfig {
    fn default() -> (r: SampleNetworkFilterConfig)
        ensures
            r == (SampleNetworkFilterConfig {}),
    {
        SampleNetworkFilterConfig {}
    }
}

} // verus!
