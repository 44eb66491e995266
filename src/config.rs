//! The run configuration: brokers, consumer group and topics, and the client
//! settings derived from them.

use vstd::prelude::*;
use vstd::string::*;

use rdkafka::config::ClientConfig;

use crate::client::{config_entries, config_log_level, config_new, config_set, config_set_log_level, LogLevel};

verus! {

/// The broker list used when none is given.
pub const DEFAULT_BROKERS: &'static str = "localhost:9092";

/// The consumer group used when none is given.
pub const DEFAULT_GROUP_ID: &'static str = "kafka-console-consumer";

/// Why a run configuration was refused.
#[derive(Clone, Copy, Debug, PartialEq, Eq, Structural)]
pub enum ConfigError {
    /// The topic list is empty: there is nothing to subscribe to.
    NoTopics,
}

/// What a run configuration holds, as mathematical values.
pub ghost struct RunConfigView {
    pub brokers: Seq<char>,
    pub group_id: Seq<char>,
    pub topics: Seq<Seq<char>>,
}

/// The parsed command line: a comma-separated broker list, a consumer group
/// id and at least one topic.
pub struct RunConfig {
    brokers: String,
    group_id: String,
    topics: Vec<String>,
}

/// The characters of each string, in order.
pub open spec fn string_views(v: Seq<String>) -> Seq<Seq<char>> {
    v.map_values(|s: String| s@)
}

impl View for RunConfig {
    type V = RunConfigView;

    closed spec fn view(&self) -> RunConfigView {
        RunConfigView {
            brokers: self.brokers@,
            group_id: self.group_id@,
            topics: string_views(self.topics@),
        }
    }
}

/// The pieces of `s` between commas, in order; `s` without a comma is one
/// piece, and an empty `s` is one empty piece.
pub open spec fn split_commas(s: Seq<char>) -> Seq<Seq<char>>
    decreases s.len(),
{
    if s.len() == 0 {
        seq![Seq::empty()]
    } else {
        let pieces = split_commas(s.drop_last());
        if s.last() == ',' {
            pieces.push(Seq::empty())
        } else {
            pieces.update(pieces.len() - 1, pieces.last().push(s.last()))
        }
    }
}

/// The settings that the broker client is configured with.
pub open spec fn client_settings(cfg: RunConfigView) -> Map<Seq<char>, Seq<char>> {
    map![
        "group.id"@ => cfg.group_id,
        "bootstrap.servers"@ => cfg.brokers,
        "enable.partition.eof"@ => "false"@,
        "session.timeout.ms"@ => "6000"@,
        "enable.auto.commit"@ => "true"@,
        "auto.offset.reset"@ => "latest"@,
    ]
}

impl RunConfig {
    /// A run configuration, refused when there is no topic.
    pub fn new(brokers: String, group_id: String, topics: Vec<String>) -> (r: Result<RunConfig, ConfigError>)
        ensures
            topics@.len() == 0 <==> r == Err::<RunConfig, ConfigError>(ConfigError::NoTopics),
            r matches Ok(c) ==> c@ == (RunConfigView {
                brokers: brokers@,
                group_id: group_id@,
                topics: string_views(topics@),
            }),
    {
        if topics.len() == 0 {
            Err(ConfigError::NoTopics)
        } else {
            Ok(RunConfig { brokers, group_id, topics })
        }
    }

    /// The broker list as given: addresses separated by commas.
    pub fn brokers(&self) -> (r: &str)
        ensures
            r@ == self@.brokers,
    {
        self.brokers.as_str()
    }

    pub fn group_id(&self) -> (r: &str)
        ensures
            r@ == self@.group_id,
    {
        self.group_id.as_str()
    }

    /// The topics to subscribe to, in the order given.
    pub fn topics(&self) -> (r: &[String])
        ensures
            string_views(r@) == self@.topics,
    {
        self.topics.as_slice()
    }
    /// The broker addresses: the pieces of the broker list between commas.
    pub fn broker_list(&self) -> (r: Vec<String>)
        ensures
            string_views(r@) == split_commas(self@.brokers),
    {
        let s = self.brokers.as_str();
        let n = s.unicode_len();
        let mut pieces: Vec<String> = Vec::new();
        let mut start: usize = 0;
        let mut i: usize = 0;
        proof {
            assert(s@.subrange(0, 0) =~= Seq::<char>::empty());
            assert(string_views(pieces@).push(s@.subrange(0, 0)) =~= seq![Seq::<char>::empty()]);
        }
        while i < n
            invariant
                n == s@.len(),
                s@ == self@.brokers,
                start <= i <= n,
                string_views(pieces@).push(s@.subrange(start as int, i as int)) == split_commas(
                    s@.subrange(0, i as int),
                ),
            decreases n - i,
        {
            let c = s.get_char(i);
            let ghost prefix = s@.subrange(0, i as int + 1);
            let ghost before = string_views(pieces@);
            let ghost old_start = start;
            proof {
                assert(prefix.drop_last() =~= s@.subrange(0, i as int));
                assert(prefix.last() == c);
            }
            if c == ',' {
                let piece = s.substring_char(start, i).to_owned();
                pieces.push(piece);
                start = i + 1;
                proof {
                    assert(string_views(pieces@) =~= before.push(s@.subrange(old_start as int, i as int)));
                    assert(s@.subrange(start as int, i as int + 1) =~= Seq::<char>::empty());
                }
            } else {
                proof {
                    assert(s@.subrange(start as int, i as int + 1) =~= s@.subrange(
                        start as int,
                        i as int,
                    ).push(c));
                }
            }
            i = i + 1;
            proof {
                assert(string_views(pieces@).push(s@.subrange(start as int, i as int))
                    =~= split_commas(prefix));
            }
        }
        let ghost before = string_views(pieces@);
        let last = s.substring_char(start, n).to_owned();
        pieces.push(last);
        proof {
            assert(s@.subrange(0, n as int) =~= s@);
            assert(string_views(pieces@) =~= before.push(s@.subrange(start as int, n as int)));
        }
        pieces
    }

    /// The broker client's configuration: the settings of `client_settings`
    /// and verbose client logging.
    pub fn client_config(&self) -> (r: ClientConfig)
        ensures
            config_entries(r) == client_settings(self@),
            config_log_level(r) == LogLevel::Debug,
    {
        let mut c = config_new();
        config_set(&mut c, "group.id", self.group_id.as_str());
        config_set(&mut c, "bootstrap.servers", self.brokers.as_str());
        config_set(&mut c, "enable.partition.eof", "false");
        config_set(&mut c, "session.timeout.ms", "6000");
        config_set(&mut c, "enable.auto.commit", "true");
        config_set(&mut c, "auto.offset.reset", "latest");
        config_set_log_level(&mut c, LogLevel::Debug);
        proof {
            assert(config_entries(c) =~= client_settings(self@));
        }
        c
    }
}

} // verus!
