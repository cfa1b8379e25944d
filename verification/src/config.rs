//! The configuration snapshot that every collector reads and none changes.

use vstd::prelude::*;
use vstd::string::*;
use crate::labels::CommonLabels;

verus! {

/// The collectors that configuration can switch off.
#[derive(Clone, Copy, Debug, PartialEq, Eq, PartialOrd, Ord, Hash, Structural)]
pub enum Collectors {
    CronTriggers,
    EventTriggers,
    ScheduledEvents,
    MetadataInconsistency,
}

/// The position of a collector in the order of its declaration.
pub open spec fn rank(collector: Collectors) -> int {
    match collector {
        Collectors::CronTriggers => 0,
        Collectors::EventTriggers => 1,
        Collectors::ScheduledEvents => 2,
        Collectors::MetadataInconsistency => 3,
    }
}

/// Whether a list of collectors is in declaration order with nothing twice.
pub open spec fn strictly_ordered(list: Seq<Collectors>) -> bool {
    forall|i: int, j: int| 0 <= i < j < list.len() ==> rank(list[i]) < rank(list[j])
}

/// Process configuration, built once at startup and read-only afterwards.
#[derive(Debug)]
pub struct Configuration {
    /// Prefix of the service check's name.
    pub prefix: String,
    /// Address of the metrics backend.
    pub datadog_addr: String,
    /// Base address of the monitored engine.
    pub hasura_addr: String,
    /// Admin credential of the monitored engine, where one was given.
    pub hasura_admin: Option<String>,
    /// Path of the log file that is tailed.
    pub log_file: String,
    /// Pause between two reads of the log file, in milliseconds.
    pub sleep_time: u64,
    /// Pause between two collection cycles, in milliseconds.
    pub collect_interval: u64,
    /// The collectors that do not run.
    pub disabled_collectors: Vec<Collectors>,
    /// Labels attached to every metric.
    pub common_labels: Option<CommonLabels>,
    /// Upper bound on data sources queried at once; 0 stands for no bound.
    pub concurrency_limit: usize,
}

impl Configuration {
    /// Whether configuration switches `collector` off.
    pub open spec fn disables(&self, collector: Collectors) -> bool {
        self.disabled_collectors@.contains(collector)
    }

    /// Whether configuration switches `collector` off.
    pub fn is_disabled(&self, collector: Collectors) -> (disabled: bool)
        ensures
            disabled == self.disables(collector),
    {
        let mut i: usize = 0;
        while i < self.disabled_collectors.len()
            invariant
                i <= self.disabled_collectors.len(),
                forall|k: int| 0 <= k < i ==> self.disabled_collectors@[k] != collector,
            decreases self.disabled_collectors.len() - i,
        {
            if self.disabled_collectors[i] == collector {
                return true;
            }
            i += 1;
        }
        false
    }

    /// The collectors that are off once a missing admin credential is taken
    /// into account: without the credential all four are off, with it those
    /// that configuration names. The list is in declaration order and holds
    /// nothing twice.
    pub fn effective_disabled(&self) -> (list: Vec<Collectors>)
        ensures
            strictly_ordered(list@),
            forall|c: Collectors|
                #[trigger] list@.contains(c) <==> (self.hasura_admin is None || self.disables(c)),
    {
        let all = [
            Collectors::CronTriggers,
            Collectors::EventTriggers,
            Collectors::ScheduledEvents,
            Collectors::MetadataInconsistency,
        ];
        let without_secret = self.hasura_admin.is_none();
        let mut list: Vec<Collectors> = Vec::new();
        let mut i: usize = 0;
        while i < 4
            invariant
                i <= 4,
                all@ == seq![
                    Collectors::CronTriggers,
                    Collectors::EventTriggers,
                    Collectors::ScheduledEvents,
                    Collectors::MetadataInconsistency,
                ],
                without_secret == (self.hasura_admin is None),
                strictly_ordered(list@),
                forall|k: int| 0 <= k < list.len() ==> rank(list@[k]) < i,
                forall|c: Collectors|
                    #[trigger] list@.contains(c) <==> (rank(c) < i && (without_secret
                        || self.disables(c))),
            decreases 4 - i,
        {
            let collector = all[i];
            assert(rank(collector) == i);
            if without_secret || self.is_disabled(collector) {
                let ghost before = list@;
                list.push(collector);
                assert forall|c: Collectors|
                    #[trigger] list@.contains(c) <==> (rank(c) < i + 1 && (without_secret
                        || self.disables(c))) by {
                    if list@.contains(c) {
                        let k = choose|k: int| 0 <= k < list@.len() && list@[k] == c;
                        if k < before.len() {
                            assert(before.contains(c));
                        }
                    }
                    if rank(c) < i + 1 && (without_secret || self.disables(c)) {
                        if rank(c) < i {
                            assert(before.contains(c));
                            let k = choose|k: int| 0 <= k < before.len() && before[k] == c;
                            assert(list@[k] == c);
                        } else {
                            assert(c == collector);
                            assert(list@[before.len() as int] == c);
                        }
                    }
                }
            } else {
                assert forall|c: Collectors|
                    #[trigger] list@.contains(c) <==> (rank(c) < i + 1 && (without_secret
                        || self.disables(c))) by {
                    if rank(c) == i {
                        assert(c == collector);
                    }
                }
            }
            i += 1;
        }
        list
    }
}

} // verus!
