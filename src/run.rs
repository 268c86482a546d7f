//! One listing run: the ordered scheduler and the single writer together.
//! The caller starts tasks, waits for the oldest and hands each result over;
//! the run says what to do next and what text to write.
use vstd::prelude::*;
use crate::encode::{OutputEncoding, document, opening, unit_text};
use crate::entry::{EntryInfo, ListingError};
use crate::schedule::{OrderedScheduler, SchedulerAction};
use crate::stream::{RecordStream, StreamState};

verus! {

/// A listing run over a known number of scanned entries.
pub struct ListingRun {
    scheduler: OrderedScheduler,
    stream: RecordStream,
    results: Ghost<Seq<Result<EntryInfo, ListingError>>>,
}

impl ListingRun {
    pub closed spec fn scheduler(&self) -> OrderedScheduler {
        self.scheduler
    }

    pub closed spec fn stream(&self) -> RecordStream {
        self.stream
    }

    /// The results handed over so far: that of entry `i` at index `i`.
    pub closed spec fn results(&self) -> Seq<Result<EntryInfo, ListingError>> {
        self.results@
    }

    pub open spec fn records(&self) -> Seq<EntryInfo> {
        self.stream().records()
    }

    pub open spec fn encoding(&self) -> OutputEncoding {
        self.stream().encoding()
    }

    pub open spec fn next_step(&self) -> SchedulerAction {
        self.scheduler().next_step()
    }

    pub open spec fn finished(&self) -> bool {
        self.stream().state() == StreamState::Closed
    }

    pub closed spec fn wf(&self) -> bool {
        &&& self.scheduler.wf()
        &&& self.stream.wf()
        &&& self.results@.len() == self.scheduler.completed()
        &&& self.stream.records().len() <= self.results@.len()
        &&& forall|i: int|
            0 <= i < self.stream.records().len() ==> self.results@[i] == Ok::<
                EntryInfo,
                ListingError,
            >(#[trigger] self.stream.records()[i])
        &&& !self.scheduler.failed() ==> self.stream.records().len() == self.results@.len()
        &&& self.scheduler.failed() ==> self.results@.len() == self.stream.records().len() + 1
            && self.results@.last() is Err
        &&& !self.scheduler.failed() ==> self.stream.state() != StreamState::Failed
        &&& self.scheduler.failed() ==> self.stream.state() != StreamState::Open
        &&& self.stream.state() == StreamState::Closed ==> self.scheduler.next_step() is Finish
    }

    /// Starts a run over `total` entries with at most `limit` tasks in
    /// flight (one when `limit` is zero); the text returned opens the
    /// document.
    pub fn start(total: usize, limit: usize, encoding: OutputEncoding) -> (r: (ListingRun, String))
        ensures
            r.0.wf(),
            r.0.encoding() == encoding,
            r.0.scheduler().total() == total,
            r.0.scheduler().limit() == (if limit == 0 { 1 } else { limit }),
            r.0.scheduler().submitted() == 0,
            r.0.scheduler().completed() == 0,
            !r.0.scheduler().failed(),
            r.0.results() == Seq::<Result<EntryInfo, ListingError>>::empty(),
            r.0.records() == Seq::<EntryInfo>::empty(),
            !r.0.finished(),
            r.1@ == opening(encoding),
            r.0.stream().written() == r.1@,
    {
        let scheduler = OrderedScheduler::new(total, limit);
        let (stream, text) = RecordStream::open(encoding);
        (ListingRun { scheduler, stream, results: Ghost(Seq::empty()) }, text)
    }

    /// What the caller does next.
    pub fn next_action(&self) -> (r: SchedulerAction)
        requires
            self.wf(),
        ensures
            r == self.next_step(),
    {
        self.scheduler.next_action()
    }

    /// Records that the task asked for was started.
    pub fn submitted(&mut self)
        requires
            old(self).wf(),
            old(self).next_step() is Submit,
        ensures
            final(self).wf(),
            final(self).encoding() == old(self).encoding(),
            final(self).scheduler().submitted() == old(self).scheduler().submitted() + 1,
            final(self).scheduler().completed() == old(self).scheduler().completed(),
            final(self).scheduler().failed() == old(self).scheduler().failed(),
            final(self).scheduler().limit() == old(self).scheduler().limit(),
            final(self).scheduler().total() == old(self).scheduler().total(),
            final(self).results() == old(self).results(),
            final(self).records() == old(self).records(),
            final(self).stream().written() == old(self).stream().written(),
            !final(self).finished(),
    {
        self.scheduler.on_submitted();
    }

    /// Hands over the result waited for. A record's text is returned to be
    /// written; a failure is returned and ends the run, the records before
    /// it already written.
    pub fn deliver(&mut self, result: Result<EntryInfo, ListingError>) -> (r: Result<String, ListingError>)
        requires
            old(self).wf(),
            old(self).next_step() is AwaitOldest,
        ensures
            final(self).wf(),
            final(self).encoding() == old(self).encoding(),
            final(self).scheduler().total() == old(self).scheduler().total(),
            final(self).results() == old(self).results().push(result),
            old(self).next_step() matches SchedulerAction::AwaitOldest(i) ==> i == old(
                self,
            ).results().len(),
            final(self).scheduler().completed() == old(self).scheduler().completed() + 1,
            final(self).scheduler().submitted() == old(self).scheduler().submitted(),
            final(self).scheduler().limit() == old(self).scheduler().limit(),
            result matches Err(e) ==> r == Err::<String, ListingError>(e),
            result matches Ok(rec) ==> (r matches Ok(t) && {
                &&& final(self).records() == old(self).records().push(rec)
                &&& t@ == unit_text(old(self).encoding(), old(self).records().len() == 0, rec)
                &&& final(self).stream().written() == old(self).stream().written() + t@
                &&& !final(self).scheduler().failed()
            }),
            result is Err ==> {
                &&& final(self).records() == old(self).records()
                &&& final(self).stream().written() == old(self).stream().written()
                &&& final(self).scheduler().failed()
                &&& final(self).next_step() is Finish
            },
            !final(self).finished(),
    {
        proof {
            self.scheduler.lemma_oldest_first();
        }
        let ghost r0 = result;
        let r = self.stream.accept(result);
        self.scheduler.on_completed(r.is_ok());
        self.results = Ghost(self.results@.push(r0));
        proof {
            let recs = self.stream.records();
            assert forall|i: int| 0 <= i < recs.len() implies self.results@[i] == Ok::<
                EntryInfo,
                ListingError,
            >(#[trigger] recs[i]) by {
                if i < self.results@.len() - 1 {
                    assert(self.results@[i] == old(self).results@[i]);
                }
            }
        }
        r
    }

    /// Ends the run when nothing is left to do; the text returned closes
    /// the document, which then lists exactly the records written.
    pub fn finish(&mut self) -> (r: String)
        requires
            old(self).wf(),
            old(self).next_step() is Finish,
            !old(self).finished(),
        ensures
            final(self).wf(),
            final(self).finished(),
            final(self).encoding() == old(self).encoding(),
            final(self).scheduler() == old(self).scheduler(),
            final(self).results() == old(self).results(),
            final(self).records() == old(self).records(),
            final(self).stream().written() == old(self).stream().written() + r@,
            final(self).stream().written() == document(old(self).encoding(), old(self).records()),
    {
        self.stream.close()
    }

    /// Whether the run ended on a failure.
    pub fn failed(&self) -> (r: bool)
        requires
            self.wf(),
        ensures
            r == self.scheduler().failed(),
    {
        self.scheduler.is_failed()
    }

    /// The results handed over are those of entries `0..completed`, one
    /// each, in order; the records written are the first of them, all
    /// successes; without a failure they are all of them.
    pub proof fn lemma_results_follow_entries(&self)
        requires
            self.wf(),
        ensures
            self.results().len() == self.scheduler().completed(),
            self.scheduler().awaited() == crate::schedule::indices(self.results().len() as int),
            self.records().len() <= self.results().len(),
            forall|i: int|
                0 <= i < self.records().len() ==> self.results()[i] == Ok::<
                    EntryInfo,
                    ListingError,
                >(#[trigger] self.records()[i]),
            !self.scheduler().failed() ==> self.records().len() == self.results().len(),
            self.scheduler().failed() ==> self.results().len() == self.records().len() + 1
                && self.results().last() is Err,
    {
        self.scheduler.lemma_oldest_first();
    }

    /// A finished run wrote exactly the document of its records.
    pub proof fn lemma_finished_document(&self)
        requires
            self.wf(),
            self.finished(),
        ensures
            self.stream().written() == document(self.encoding(), self.records()),
            self.next_step() is Finish,
    {
        self.stream.lemma_closed_document();
    }

    /// A run that ends without a failure lists one record for each scanned
    /// entry, the record of entry `i` at place `i`, whatever order the tasks
    /// finished in.
    pub proof fn lemma_success_lists_every_entry(&self)
        requires
            self.wf(),
            self.next_step() is Finish,
            !self.scheduler().failed(),
        ensures
            self.records().len() == self.scheduler().total(),
            self.results().len() == self.scheduler().total(),
            forall|i: int|
                0 <= i < self.records().len() ==> self.results()[i] == Ok::<
                    EntryInfo,
                    ListingError,
                >(#[trigger] self.records()[i]),
    {
        self.scheduler.lemma_success_covers_all();
    }

    /// A run that ends on a failure lists exactly the records of the entries
    /// before the failing one, and none of it or after it.
    pub proof fn lemma_failure_keeps_prefix(&self)
        requires
            self.wf(),
            self.scheduler().failed(),
        ensures
            self.next_step() is Finish,
            self.results().len() == self.records().len() + 1,
            self.results().last() is Err,
            forall|i: int|
                0 <= i < self.records().len() ==> self.results()[i] == Ok::<
                    EntryInfo,
                    ListingError,
                >(#[trigger] self.records()[i]),
            self.results().len() <= self.scheduler().total(),
    {
        self.scheduler.lemma_failure_stops();
        self.scheduler.lemma_in_flight_bounded();
    }
}

} // verus!
