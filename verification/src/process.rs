//! The service lifecycle manager.
//!
//! A service that was started has a record: its name and, as decimal
//! text, the id of its process. The manager holds the records; the
//! caller keeps them on disk, one file per record, and performs what
//! touches the machine (spawning the process, writing and deleting the
//! files). A record is a claim that the service runs, not a proof: the
//! process may have ended by itself, which `status` finds out.

use crate::decimal::{decimal, format_decimal, lemma_parse_decimal, parse_pid, parse_pid_spec};
use crate::process_table::{find_process, kill, process_ids, snapshot};
use crate::text::same_text;
use sysinfo::System;
use vstd::prelude::*;
use vstd::string::*;

verus! {

/// How long a started process is given before it is asked whether it
/// still runs, in milliseconds.
pub const GRACE_MILLIS: u64 = 100;

/// One record: a service's name and the text that was stored for it.
#[derive(Debug, Clone, PartialEq, Eq)]
pub struct ServiceRecord {
    pub name: String,
    pub content: String,
}

/// What a record is, as plain text.
pub struct RecordModel {
    pub name: Seq<char>,
    pub content: Seq<char>,
}

impl View for ServiceRecord {
    type V = RecordModel;

    open spec fn view(&self) -> RecordModel {
        RecordModel { name: self.name@, content: self.content@ }
    }
}

/// What became of a process after the grace period.
#[derive(Debug, Clone, Copy, PartialEq, Eq)]
pub enum LaunchOutcome {
    /// The process has already ended, with this exit code if it gave one.
    Exited { code: Option<i32> },
    /// The process runs, under this id.
    Alive { pid: u32 },
}

/// Why a service was not started.
#[derive(Debug, Clone, Copy, PartialEq, Eq)]
pub enum StartError {
    /// A record for the service exists; it is left as it is.
    AlreadyRunning,
    /// The process ended within the grace period; no record is written.
    ImmediateCrash { code: Option<i32> },
}

/// Why a service was not stopped.
#[derive(Debug, Clone, Copy, PartialEq, Eq)]
pub enum StopError {
    /// There is no record for the service.
    NotRunning,
    /// The record does not hold a process id.
    InvalidRecord,
}

/// How a stop ended. In both cases the record is gone.
#[derive(Debug, Clone, Copy, PartialEq, Eq)]
pub enum StopOutcome {
    /// The process was found and the kill signal was sent to it.
    Terminated { pid: u32 },
    /// No process with the recorded id was found: a warning, not an error.
    ProcessNotFound { pid: u32 },
}

/// Whether the process of a recorded service exists.
#[derive(Debug, Clone, Copy, PartialEq, Eq)]
pub enum ServiceState {
    Running,
    Crashed,
}

/// One line of a status report.
#[derive(Debug, Clone, PartialEq, Eq)]
pub struct ServiceStatusEntry {
    pub name: String,
    pub pid: u32,
    pub state: ServiceState,
}

pub struct StatusModel {
    pub name: Seq<char>,
    pub pid: u32,
    pub state: ServiceState,
}

impl View for ServiceStatusEntry {
    type V = StatusModel;

    open spec fn view(&self) -> StatusModel {
        StatusModel { name: self.name@, pid: self.pid, state: self.state }
    }
}

pub open spec fn record_models(records: Seq<ServiceRecord>) -> Seq<RecordModel> {
    records.map_values(|r: ServiceRecord| r@)
}

pub open spec fn status_models(entries: Seq<ServiceStatusEntry>) -> Seq<StatusModel> {
    entries.map_values(|e: ServiceStatusEntry| e@)
}

/// Whether there is a record for `name`.
pub open spec fn has_record(recs: Seq<RecordModel>, name: Seq<char>) -> bool {
    exists|i: int| 0 <= i < recs.len() && (#[trigger] recs[i]).name == name
}

/// No two records have the same name.
pub open spec fn distinct_names(recs: Seq<RecordModel>) -> bool {
    forall|i: int, j: int|
        0 <= i < recs.len() && 0 <= j < recs.len() && i != j ==> (#[trigger] recs[i]).name != (
        #[trigger] recs[j]).name
}

/// Where the record for `name` stands, if there is one.
pub open spec fn record_index(recs: Seq<RecordModel>, name: Seq<char>) -> int {
    choose|i: int| 0 <= i < recs.len() && (#[trigger] recs[i]).name == name
}

/// The text stored for `name`, if there is a record for it.
pub open spec fn record_content(recs: Seq<RecordModel>, name: Seq<char>) -> Option<Seq<char>> {
    if has_record(recs, name) {
        Some(recs[record_index(recs, name)].content)
    } else {
        None
    }
}

/// The records without the one for `name`.
pub open spec fn without(recs: Seq<RecordModel>, name: Seq<char>) -> Seq<RecordModel> {
    if has_record(recs, name) {
        recs.remove(record_index(recs, name))
    } else {
        recs
    }
}

/// What `start` returns, and the records it leaves.
pub open spec fn start_spec(recs: Seq<RecordModel>, name: Seq<char>, outcome: LaunchOutcome) -> (
    Result<u32, StartError>,
    Seq<RecordModel>,
) {
    if has_record(recs, name) {
        (Err(StartError::AlreadyRunning), recs)
    } else {
        match outcome {
            LaunchOutcome::Exited { code } => (Err(StartError::ImmediateCrash { code }), recs),
            LaunchOutcome::Alive { pid } => (
                Ok(pid),
                recs.push(RecordModel { name, content: decimal(pid as nat) }),
            ),
        }
    }
}

/// The process that a stop of `name` is aimed at, or why there is none.
pub open spec fn stop_target_spec(recs: Seq<RecordModel>, name: Seq<char>) -> Result<
    u32,
    StopError,
> {
    match record_content(recs, name) {
        None => Err(StopError::NotRunning),
        Some(content) => match parse_pid_spec(content) {
            None => Err(StopError::InvalidRecord),
            Some(pid) => Ok(pid),
        },
    }
}

/// What a stop of `name` returns, where `live` holds the ids of the
/// processes that exist: a process that exists is killed, one that does
/// not is a warning and no error.
pub open spec fn stop_result(recs: Seq<RecordModel>, name: Seq<char>, live: Set<u32>) -> Result<
    StopOutcome,
    StopError,
> {
    match stop_target_spec(recs, name) {
        Err(e) => Err(e),
        Ok(pid) => Ok(
            if live.contains(pid) {
                StopOutcome::Terminated { pid }
            } else {
                StopOutcome::ProcessNotFound { pid }
            },
        ),
    }
}

/// The records that a stop of `name` leaves: where it finds its target,
/// the record is gone; where it fails, nothing changes.
pub open spec fn after_stop(recs: Seq<RecordModel>, name: Seq<char>) -> Seq<RecordModel> {
    if stop_target_spec(recs, name) is Ok {
        without(recs, name)
    } else {
        recs
    }
}

/// The line that a record gives in a status report, where `live` holds the
/// ids of the processes that exist. A record whose text is no process id
/// gives none.
pub open spec fn entry_of(rec: RecordModel, live: Set<u32>) -> Option<StatusModel> {
    match parse_pid_spec(rec.content) {
        None => None,
        Some(pid) => Some(
            StatusModel {
                name: rec.name,
                pid,
                state: if live.contains(pid) {
                    ServiceState::Running
                } else {
                    ServiceState::Crashed
                },
            },
        ),
    }
}

/// Whether a status report leaves the record in place: it does unless the
/// record names a process that no longer exists.
pub open spec fn survives(rec: RecordModel, live: Set<u32>) -> bool {
    match parse_pid_spec(rec.content) {
        None => true,
        Some(pid) => live.contains(pid),
    }
}

/// The status report: the lines of the records, in the records' order.
pub open spec fn entries_of(recs: Seq<RecordModel>, live: Set<u32>) -> Seq<StatusModel>
    decreases recs.len(),
{
    if recs.len() == 0 {
        Seq::<StatusModel>::empty()
    } else {
        let init = entries_of(recs.drop_last(), live);
        match entry_of(recs.last(), live) {
            Some(e) => init.push(e),
            None => init,
        }
    }
}

/// The records that a status report leaves, in their order.
pub open spec fn survivors(recs: Seq<RecordModel>, live: Set<u32>) -> Seq<RecordModel>
    decreases recs.len(),
{
    if recs.len() == 0 {
        Seq::<RecordModel>::empty()
    } else {
        let init = survivors(recs.drop_last(), live);
        if survives(recs.last(), live) {
            init.push(recs.last())
        } else {
            init
        }
    }
}

/// The records of the services that were started and not yet stopped.
pub struct ProcessManager {
    records: Vec<ServiceRecord>,
}

impl View for ProcessManager {
    type V = Seq<RecordModel>;

    closed spec fn view(&self) -> Seq<RecordModel> {
        record_models(self.records@)
    }
}

impl ProcessManager {
    /// The manager's invariant: one record per name.
    pub open spec fn wf(&self) -> bool {
        distinct_names(self@)
    }

    /// A manager without records.
    pub fn new() -> (r: Self)
        ensures
            r@ == Seq::<RecordModel>::empty(),
            r.wf(),
    {
        ProcessManager { records: Vec::new() }
    }

    /// The records, in the order in which they were taken up.
    pub fn records(&self) -> (r: &Vec<ServiceRecord>)
        ensures
            record_models(r@) == self@,
    {
        &self.records
    }

    fn position(&self, name: &str) -> (r: Option<usize>)
        ensures
            match r {
                Some(i) => i < self.records.len() && self@[i as int].name == name@,
                None => !has_record(self@, name@),
            },
    {
        let mut i: usize = 0;
        while i < self.records.len()
            invariant
                i <= self.records.len(),
                forall|j: int| 0 <= j < i ==> (#[trigger] self@[j]).name != name@,
            decreases self.records.len() - i,
        {
            if same_text(self.records[i].name.as_str(), name) {
                return Some(i);
            }
            i += 1;
        }
        None
    }

    /// Takes up a record that the caller found on disk. A second record
    /// for a name is refused: the answer is `false` and nothing changes.
    pub fn insert_record(&mut self, name: &str, content: &str) -> (added: bool)
        requires
            old(self).wf(),
        ensures
            final(self).wf(),
            added == !has_record(old(self)@, name@),
            added ==> final(self)@ == old(self)@.push(
                RecordModel { name: name@, content: content@ },
            ),
            !added ==> final(self)@ == old(self)@,
    {
        match self.position(name) {
            Some(_) => false,
            None => {
                let ghost before = self@;
                let record = ServiceRecord {
                    name: String::from_str(name),
                    content: String::from_str(content),
                };
                self.records.push(record);
                proof {
                    assert(self@ =~= before.push(RecordModel { name: name@, content: content@ }));
                    lemma_push_distinct(before, RecordModel { name: name@, content: content@ });
                }
                true
            },
        }
    }

    /// The check that comes before a process is spawned: a service that
    /// has a record is not started again. The record is trusted as it
    /// stands; whether its process still exists is not asked.
    pub fn can_start(&self, name: &str) -> (r: Result<(), StartError>)
        ensures
            r == (if has_record(self@, name@) {
                Err::<(), StartError>(StartError::AlreadyRunning)
            } else {
                Ok::<(), StartError>(())
            }),
    {
        match self.position(name) {
            Some(_) => Err(StartError::AlreadyRunning),
            None => Ok(()),
        }
    }

    /// Registers a service whose process was spawned and, after the grace
    /// period, asked whether it still runs. A process that has ended
    /// leaves no record.
    pub fn start(&mut self, name: &str, outcome: LaunchOutcome) -> (r: Result<u32, StartError>)
        requires
            old(self).wf(),
        ensures
            final(self).wf(),
            (r, final(self)@) == start_spec(old(self)@, name@, outcome),
    {
        match self.position(name) {
            Some(_) => Err(StartError::AlreadyRunning),
            None => match outcome {
                LaunchOutcome::Exited { code } => Err(StartError::ImmediateCrash { code }),
                LaunchOutcome::Alive { pid } => {
                    let ghost before = self@;
                    let record = ServiceRecord {
                        name: String::from_str(name),
                        content: format_decimal(pid),
                    };
                    self.records.push(record);
                    proof {
                        let model = RecordModel { name: name@, content: decimal(pid as nat) };
                        assert(self@ =~= before.push(model));
                        lemma_push_distinct(before, model);
                    }
                    Ok(pid)
                },
            },
        }
    }

    /// The process that a stop of `name` is aimed at.
    pub fn stop_target(&self, name: &str) -> (r: Result<u32, StopError>)
        requires
            self.wf(),
        ensures
            r == stop_target_spec(self@, name@),
    {
        match self.position(name) {
            None => Err(StopError::NotRunning),
            Some(i) => {
                proof {
                    lemma_record_index(self@, name@, i as int);
                }
                match parse_pid(self.records[i].content.as_str()) {
                    None => Err(StopError::InvalidRecord),
                    Some(pid) => Ok(pid),
                }
            },
        }
    }

    /// Ends a stop: the record for `name` goes, whether or not the process
    /// was found.
    pub fn conclude_stop(&mut self, name: &str, pid: u32, found: bool) -> (r: StopOutcome)
        requires
            old(self).wf(),
        ensures
            final(self).wf(),
            final(self)@ == without(old(self)@, name@),
            r == (if found {
                StopOutcome::Terminated { pid }
            } else {
                StopOutcome::ProcessNotFound { pid }
            }),
    {
        match self.position(name) {
            None => {},
            Some(i) => {
                let ghost before = self@;
                proof {
                    lemma_record_index(before, name@, i as int);
                    lemma_remove_distinct(before, i as int);
                }
                let _ = self.records.remove(i);
                assert(self@ =~= before.remove(i as int));
            },
        }
        if found {
            StopOutcome::Terminated { pid }
        } else {
            StopOutcome::ProcessNotFound { pid }
        }
    }

    /// Stops a service against a snapshot of the process table: looks its
    /// process up, kills it if it is there, and removes the record in
    /// either case. Without a record, or with one that holds no process
    /// id, nothing is done.
    pub fn stop_in(&mut self, name: &str, table: &System) -> (r: Result<StopOutcome, StopError>)
        requires
            old(self).wf(),
        ensures
            final(self).wf(),
            final(self)@ == after_stop(old(self)@, name@),
            r == stop_result(old(self)@, name@, process_ids(*table)),
    {
        match self.stop_target(name) {
            Err(e) => Err(e),
            Ok(pid) => {
                let found = match find_process(table, pid) {
                    Some(process) => {
                        let _ = kill(process);
                        true
                    },
                    None => false,
                };
                Ok(self.conclude_stop(name, pid, found))
            },
        }
    }

    /// Stops a service against the process table as it is now. Whatever
    /// processes exist, the record is gone afterwards.
    pub fn stop(&mut self, name: &str) -> (r: Result<StopOutcome, StopError>)
        requires
            old(self).wf(),
        ensures
            final(self).wf(),
            final(self)@ == after_stop(old(self)@, name@),
            exists|live: Set<u32>| r == #[trigger] stop_result(old(self)@, name@, live),
    {
        match self.stop_target(name) {
            Err(e) => {
                assert(Err::<StopOutcome, StopError>(e) == stop_result(
                    self@,
                    name@,
                    Set::<u32>::empty(),
                ));
                Err(e)
            },
            Ok(_) => {
                let table = snapshot();
                self.stop_in(name, &table)
            },
        }
    }

    /// Reports on every record against a snapshot of the process table,
    /// and drops the records whose process is not in it.
    pub fn status_in(&mut self, table: &System) -> (r: Vec<ServiceStatusEntry>)
        requires
            old(self).wf(),
        ensures
            final(self).wf(),
            status_models(r@) == entries_of(old(self)@, process_ids(*table)),
            final(self)@ == survivors(old(self)@, process_ids(*table)),
    {
        let ghost before = self@;
        let ghost live = process_ids(*table);
        let mut entries: Vec<ServiceStatusEntry> = Vec::new();
        let mut kept: Vec<ServiceRecord> = Vec::new();
        let n: usize = self.records.len();
        let mut i: usize = 0;
        while i < n
            invariant
                i <= n,
                n == self.records.len(),
                self@ == before,
                live == process_ids(*table),
                status_models(entries@) == entries_of(before.take(i as int), live),
                record_models(kept@) == survivors(before.take(i as int), live),
            decreases n - i,
        {
            let record = &self.records[i];
            proof {
                assert(before.take(i + 1).drop_last() =~= before.take(i as int));
            }
            let mut keep: bool = true;
            match parse_pid(record.content.as_str()) {
                None => {},
                Some(pid) => {
                    let alive: bool = find_process(table, pid).is_some();
                    let state = if alive {
                        ServiceState::Running
                    } else {
                        ServiceState::Crashed
                    };
                    let entry = ServiceStatusEntry { name: record.name.clone(), pid, state };
                    entries.push(entry);
                    keep = alive;
                },
            }
            if keep {
                let copy = ServiceRecord {
                    name: record.name.clone(),
                    content: record.content.clone(),
                };
                kept.push(copy);
            }
            i += 1;
        }
        assert(before.take(n as int) =~= before);
        proof {
            lemma_survivors(before, live);
        }
        self.records = kept;
        entries
    }

    /// Reports on every record against the process table as it is now.
    /// The report depends on which processes exist; whatever they are,
    /// the records of those that do not exist are dropped.
    pub fn status(&mut self) -> (r: Vec<ServiceStatusEntry>)
        requires
            old(self).wf(),
        ensures
            final(self).wf(),
            exists|live: Set<u32>|
                status_models(r@) == #[trigger] entries_of(old(self)@, live) && final(self)@
                    == survivors(old(self)@, live),
    {
        let table = snapshot();
        self.status_in(&table)
    }
}

proof fn lemma_push_distinct(recs: Seq<RecordModel>, rec: RecordModel)
    requires
        distinct_names(recs),
        !has_record(recs, rec.name),
    ensures
        distinct_names(recs.push(rec)),
{
    let after = recs.push(rec);
    assert forall|i: int, j: int|
        0 <= i < after.len() && 0 <= j < after.len() && i != j implies (#[trigger] after[i]).name
        != (#[trigger] after[j]).name by {
        if i < recs.len() {
            assert(after[i] == recs[i]);
        }
        if j < recs.len() {
            assert(after[j] == recs[j]);
        }
    }
}

proof fn lemma_record_index(recs: Seq<RecordModel>, name: Seq<char>, i: int)
    requires
        distinct_names(recs),
        0 <= i < recs.len(),
        recs[i].name == name,
    ensures
        has_record(recs, name),
        record_index(recs, name) == i,
{
    let j = record_index(recs, name);
    assert(0 <= j < recs.len() && recs[j].name == name);
}

proof fn lemma_remove_distinct(recs: Seq<RecordModel>, i: int)
    requires
        distinct_names(recs),
        0 <= i < recs.len(),
    ensures
        distinct_names(recs.remove(i)),
        !has_record(recs.remove(i), recs[i].name),
        forall|name: Seq<char>| has_record(recs.remove(i), name) ==> has_record(recs, name),
{
    let after = recs.remove(i);
    assert forall|a: int| 0 <= a < after.len() implies #[trigger] after[a] == recs[if a < i {
        a
    } else {
        a + 1
    }] by {}
    assert forall|a: int, b: int|
        0 <= a < after.len() && 0 <= b < after.len() && a != b implies (#[trigger] after[a]).name
        != (#[trigger] after[b]).name by {
        let a2 = if a < i { a } else { a + 1 };
        let b2 = if b < i { b } else { b + 1 };
        assert(after[a] == recs[a2]);
        assert(after[b] == recs[b2]);
    }
    assert forall|a: int| 0 <= a < after.len() implies (#[trigger] after[a]).name
        != recs[i].name by {
        let a2 = if a < i { a } else { a + 1 };
        assert(after[a] == recs[a2]);
    }
    assert forall|name: Seq<char>| has_record(after, name) implies has_record(recs, name) by {
        let a = choose|a: int| 0 <= a < after.len() && (#[trigger] after[a]).name == name;
        let a2 = if a < i { a } else { a + 1 };
        assert(after[a] == recs[a2]);
        assert(recs[a2].name == name);
    }
}

/// What a status report leaves is part of what it found: no name is new,
/// and no name occurs twice.
proof fn lemma_survivors(recs: Seq<RecordModel>, live: Set<u32>)
    requires
        distinct_names(recs),
    ensures
        distinct_names(survivors(recs, live)),
        forall|name: Seq<char>| has_record(survivors(recs, live), name) ==> has_record(recs, name),
        forall|i: int|
            0 <= i < recs.len() && !survives(#[trigger] recs[i], live) ==> !has_record(
                survivors(recs, live),
                recs[i].name,
            ),
    decreases recs.len(),
{
    if recs.len() > 0 {
        let init = recs.drop_last();
        let last = recs.last();
        assert forall|i: int, j: int|
            0 <= i < init.len() && 0 <= j < init.len() && i != j implies (#[trigger] init[i]).name
            != (#[trigger] init[j]).name by {
            assert(init[i] == recs[i]);
            assert(init[j] == recs[j]);
        }
        lemma_survivors(init, live);
        let sub = survivors(init, live);
        let all = survivors(recs, live);
        assert forall|name: Seq<char>| has_record(init, name) implies has_record(
            recs,
            name,
        ) && name != last.name by {
            let a = choose|a: int| 0 <= a < init.len() && (#[trigger] init[a]).name == name;
            assert(init[a] == recs[a]);
            assert(recs[a].name == name);
            assert(recs[recs.len() - 1] == last);
        }
        if has_record(sub, last.name) {
            assert(has_record(init, last.name));
        }
        if survives(last, live) {
            lemma_push_distinct(sub, last);
            assert forall|name: Seq<char>| has_record(all, name) implies has_record(
                recs,
                name,
            ) by {
                let a = choose|a: int| 0 <= a < all.len() && (#[trigger] all[a]).name == name;
                if a < sub.len() {
                    assert(all[a] == sub[a]);
                    assert(has_record(sub, name));
                } else {
                    assert(recs[recs.len() - 1].name == name);
                }
            }
        }
        assert forall|i: int|
            0 <= i < recs.len() && !survives(#[trigger] recs[i], live) implies !has_record(
            all,
            recs[i].name,
        ) by {
            if i < init.len() {
                assert(init[i] == recs[i]);
                assert(!has_record(sub, recs[i].name));
                assert(has_record(init, recs[i].name));
                if survives(last, live) {
                    if has_record(all, recs[i].name) {
                        let a = choose|a: int|
                            0 <= a < all.len() && (#[trigger] all[a]).name == recs[i].name;
                        if a < sub.len() {
                            assert(all[a] == sub[a]);
                        }
                    }
                }
            }
        }
    }
}

/// A service that was stopped is not running: a second stop right after
/// a stop finds no record, returns `NotRunning` and leaves the records as
/// they are. (A record that holds no process id is never removed by a
/// stop, so it is left out here.)
pub proof fn lemma_second_stop_not_running(recs: Seq<RecordModel>, name: Seq<char>)
    requires
        distinct_names(recs),
        stop_target_spec(recs, name) != Err::<u32, StopError>(StopError::InvalidRecord),
    ensures
        stop_target_spec(after_stop(recs, name), name) == Err::<u32, StopError>(
            StopError::NotRunning,
        ),
        after_stop(after_stop(recs, name), name) == after_stop(recs, name),
{
    if has_record(recs, name) {
        let i = record_index(recs, name);
        lemma_remove_distinct(recs, i);
    }
}

/// Stopping a service whose process has ended by itself is no error: the
/// stop reports that the process was not found, the record goes, and the
/// service is not running afterwards.
pub proof fn lemma_stop_after_process_ended(
    recs: Seq<RecordModel>,
    name: Seq<char>,
    pid: u32,
    live: Set<u32>,
)
    requires
        distinct_names(recs),
        stop_target_spec(recs, name) == Ok::<u32, StopError>(pid),
        !live.contains(pid),
    ensures
        stop_result(recs, name, live) == Ok::<StopOutcome, StopError>(
            StopOutcome::ProcessNotFound { pid },
        ),
        !has_record(after_stop(recs, name), name),
        stop_target_spec(after_stop(recs, name), name) == Err::<u32, StopError>(
            StopError::NotRunning,
        ),
{
    lemma_second_stop_not_running(recs, name);
}

/// A service that was just started, and whose process exists, is reported
/// as running under the very process id that its record holds.
pub proof fn lemma_started_is_reported_running(
    recs: Seq<RecordModel>,
    name: Seq<char>,
    pid: u32,
    live: Set<u32>,
)
    requires
        distinct_names(recs),
        !has_record(recs, name),
        live.contains(pid),
    ensures
        start_spec(recs, name, LaunchOutcome::Alive { pid }).0 == Ok::<u32, StartError>(pid),
        record_content(start_spec(recs, name, LaunchOutcome::Alive { pid }).1, name) == Some(
            decimal(pid as nat),
        ),
        parse_pid_spec(decimal(pid as nat)) == Some(pid),
        entries_of(start_spec(recs, name, LaunchOutcome::Alive { pid }).1, live).contains(
            StatusModel { name, pid, state: ServiceState::Running },
        ),
{
    let model = RecordModel { name, content: decimal(pid as nat) };
    let after = recs.push(model);
    lemma_parse_decimal(pid);
    lemma_push_distinct(recs, model);
    lemma_record_index(after, name, recs.len() as int);
    assert(after.drop_last() =~= recs);
    assert(after.last() == model);
    let report = entries_of(after, live);
    assert(report[report.len() - 1] == StatusModel { name, pid, state: ServiceState::Running });
}

/// A process that ends within the grace period leaves no record: the
/// start fails with the exit code, and the service is as little
/// registered as before.
pub proof fn lemma_crash_leaves_no_record(
    recs: Seq<RecordModel>,
    name: Seq<char>,
    code: Option<i32>,
)
    requires
        !has_record(recs, name),
    ensures
        start_spec(recs, name, LaunchOutcome::Exited { code }).0 == Err::<u32, StartError>(
            StartError::ImmediateCrash { code },
        ),
        !has_record(start_spec(recs, name, LaunchOutcome::Exited { code }).1, name),
{
}

/// Every line of a status report speaks of a service that has a record.
pub proof fn lemma_entries_have_records(recs: Seq<RecordModel>, live: Set<u32>)
    ensures
        forall|k: int|
            0 <= k < entries_of(recs, live).len() ==> has_record(
                recs,
                (#[trigger] entries_of(recs, live)[k]).name,
            ),
    decreases recs.len(),
{
    if recs.len() > 0 {
        let init = recs.drop_last();
        let last = recs.last();
        lemma_entries_have_records(init, live);
        let sub = entries_of(init, live);
        let all = entries_of(recs, live);
        assert forall|k: int| 0 <= k < all.len() implies has_record(
            recs,
            (#[trigger] all[k]).name,
        ) by {
            if k < sub.len() {
                assert(all[k] == sub[k]);
                let a = choose|a: int|
                    0 <= a < init.len() && (#[trigger] init[a]).name == sub[k].name;
                assert(init[a] == recs[a]);
                assert(recs[a].name == sub[k].name);
            } else {
                assert(recs[recs.len() - 1] == last);
                assert(all[k].name == last.name);
            }
        }
    }
}

/// Status heals the records: a record whose process does not exist is
/// gone after one status report, and no later report, whatever processes
/// exist then, speaks of that service.
pub proof fn lemma_status_self_heals(
    recs: Seq<RecordModel>,
    live: Set<u32>,
    later: Set<u32>,
    i: int,
)
    requires
        distinct_names(recs),
        0 <= i < recs.len(),
        !survives(recs[i], live),
    ensures
        entries_of(recs, live).contains(entry_of(recs[i], live).unwrap()),
        entry_of(recs[i], live).unwrap().state == ServiceState::Crashed,
        !has_record(survivors(recs, live), recs[i].name),
        forall|k: int|
            0 <= k < entries_of(survivors(recs, live), later).len() ==> (
            #[trigger] entries_of(survivors(recs, live), later)[k]).name != recs[i].name,
{
    lemma_survivors(recs, live);
    lemma_entries_have_records(survivors(recs, live), later);
    lemma_entry_reported(recs, live, i);
}

proof fn lemma_entry_reported(recs: Seq<RecordModel>, live: Set<u32>, i: int)
    requires
        0 <= i < recs.len(),
        entry_of(recs[i], live) is Some,
    ensures
        entries_of(recs, live).contains(entry_of(recs[i], live).unwrap()),
    decreases recs.len(),
{
    let init = recs.drop_last();
    let all = entries_of(recs, live);
    if i == recs.len() - 1 {
        assert(all[all.len() - 1] == entry_of(recs[i], live).unwrap());
    } else {
        assert(init[i] == recs[i]);
        lemma_entry_reported(init, live, i);
        let sub = entries_of(init, live);
        let e = entry_of(recs[i], live).unwrap();
        let k = choose|k: int| 0 <= k < sub.len() && sub[k] == e;
        assert(all[k] == sub[k]);
    }
}

} // verus!
