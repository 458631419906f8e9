//! The journal: an append-only, date-partitioned log of events.
//!
//! A record with UTC date `Y-M-D` belongs in the file `YYYYMMDD.log`.  The
//! writer is lazy: a day's file is opened when the first event of that date
//! is written.  [`EventWriter`] here is the verified bookkeeping half of the
//! writer: it remembers the current date and turns each event into a
//! [`WritePlan`] (which file to switch to, and the exact line to append);
//! performing the file operations is the caller's part.

use crate::events::TimedEvent;
use crate::record::record_line;
use crate::record::serialize_timed_event;
use crate::strutil::append_four_digits;
use crate::strutil::append_two_digits;
use crate::strutil::four_digits;
use crate::strutil::two_digits;
use crate::time::UtcDate;
use vstd::prelude::*;
use vstd::string::StringExecFns;

verus! {

/// The file name `YYYYMMDD.log` for a date.
pub open spec fn filename_chars(d: UtcDate) -> Seq<char> {
    four_digits(d.year as int) + two_digits(d.month as int) + two_digits(d.day as int) + ".log"@
}

/// The journal file name for `date`: `YYYYMMDD.log`.
pub fn get_filename_by_date(date: UtcDate) -> (s: String)
    requires
        date.wf(),
    ensures
        s@ == filename_chars(date),
{
    let mut out = String::new();
    append_four_digits(&mut out, date.year as u32);
    append_two_digits(&mut out, date.month as u32);
    append_two_digits(&mut out, date.day as u32);
    out.append(".log");
    proof {
        assert(out@ =~= filename_chars(date));
    }
    out
}

/// What one write asks of the file layer: switch to a new file first if
/// `rotate_to` names one, then append `line` and a newline.
pub struct WritePlan {
    pub rotate_to: Option<String>,
    pub line: String,
}

/// The verified bookkeeping of the journal writer: which UTC date the
/// currently open file belongs to.
pub struct EventWriter {
    pub current_date: UtcDate,
}

impl EventWriter {
    /// Starts a writer whose open file is the one for `date`.
    pub fn open(date: UtcDate) -> (w: EventWriter)
        ensures
            w.current_date == date,
    {
        EventWriter { current_date: date }
    }

    /// Decides whether a write stamped `date` needs a new file.  Returns the
    /// name of the file to open, or `None` when the date is unchanged.
    pub fn maybe_rotate(&mut self, date: UtcDate) -> (rotate: Option<String>)
        requires
            date.wf(),
        ensures
            final(self).current_date == date,
            date == old(self).current_date ==> rotate is None,
            date != old(self).current_date ==> (rotate matches Some(f) && f@ == filename_chars(
                date,
            )),
    {
        if self.current_date == date {
            return None;
        }
        let filename = get_filename_by_date(date);
        self.current_date = date;
        Some(filename)
    }

    /// Turns one event into its write plan: the file for the event's date
    /// (named only when it differs from the current one) and the exact
    /// journal line.
    pub fn write(&mut self, event: &TimedEvent) -> (plan: WritePlan)
        requires
            event.timestamp.wf(),
        ensures
            final(self).current_date == event.timestamp.date_spec(),
            plan.line@ == record_line(*event),
            event.timestamp.date_spec() == old(self).current_date ==> plan.rotate_to is None,
            event.timestamp.date_spec() != old(self).current_date ==> (plan.rotate_to matches Some(
                f,
            ) && f@ == filename_chars(event.timestamp.date_spec())),
    {
        let rotate_to = self.maybe_rotate(event.timestamp.date());
        let line = serialize_timed_event(event);
        WritePlan { rotate_to, line }
    }
}

/// The file an event's record belongs to.
pub open spec fn event_filename(e: TimedEvent) -> Seq<char> {
    filename_chars(e.timestamp.date_spec())
}

/// The journal lines destined for file `f`, in write order.
pub open spec fn records_for(f: Seq<char>, evs: Seq<TimedEvent>) -> Seq<Seq<char>>
    decreases evs.len(),
{
    if evs.len() == 0 {
        Seq::empty()
    } else {
        let rest = records_for(f, evs.drop_last());
        if event_filename(evs.last()) == f {
            rest.push(record_line(evs.last()))
        } else {
            rest
        }
    }
}

/// The set of files named by a sequence of events.
pub open spec fn filenames_of(evs: Seq<TimedEvent>) -> Set<Seq<char>>
    decreases evs.len(),
{
    if evs.len() == 0 {
        Set::empty()
    } else {
        filenames_of(evs.drop_last()).insert(event_filename(evs.last()))
    }
}

/// What one applied [`WritePlan`] does to the journal's files: ensure the
/// event's file exists, then append its line.
pub open spec fn journal_step(
    m: Map<Seq<char>, Seq<Seq<char>>>,
    e: TimedEvent,
) -> Map<Seq<char>, Seq<Seq<char>>> {
    let f = event_filename(e);
    let lines = if m.dom().contains(f) {
        m[f]
    } else {
        Seq::empty()
    };
    m.insert(f, lines.push(record_line(e)))
}

/// The journal's files after opening at `start` (which creates that date's
/// file empty) and writing `evs` in order.
pub open spec fn journal_map(start: UtcDate, evs: Seq<TimedEvent>) -> Map<Seq<char>, Seq<Seq<char>>>
    decreases evs.len(),
{
    if evs.len() == 0 {
        Map::<Seq<char>, Seq<Seq<char>>>::empty().insert(filename_chars(start), Seq::empty())
    } else {
        journal_step(journal_map(start, evs.drop_last()), evs.last())
    }
}

/// Journal rotation: after writing any sequence of events, the set of files
/// is the file of the opening date plus one file per date written, and each
/// file holds exactly the records of the events that belong to it, in write
/// order.
pub proof fn lemma_journal_rotation(start: UtcDate, evs: Seq<TimedEvent>)
    ensures
        journal_map(start, evs).dom() =~= filenames_of(evs).insert(filename_chars(start)),
        forall|f: Seq<char>|
            journal_map(start, evs).dom().contains(f) ==> #[trigger] journal_map(start, evs)[f]
                == records_for(f, evs),
    decreases evs.len(),
{
    if evs.len() == 0 {
    } else {
        let dl = evs.drop_last();
        let last = evs.last();
        let fl = event_filename(last);
        lemma_journal_rotation(start, dl);
        let m0 = journal_map(start, dl);
        let m = journal_map(start, evs);
        assert forall|f: Seq<char>| m.dom().contains(f) implies #[trigger] m[f] == records_for(
            f,
            evs,
        ) by {
            if f == fl {
                if m0.dom().contains(fl) {
                    assert(m[fl] == m0[fl].push(record_line(last)));
                } else {
                    assert(!filenames_of(dl).contains(fl) && fl != filename_chars(start));
                    lemma_records_for_unnamed(fl, dl);
                    assert(m[fl] == Seq::<Seq<char>>::empty().push(record_line(last)));
                }
            } else {
                assert(m[f] == m0[f]);
            }
        }
    }
}

/// A file that no event in `evs` names receives no records.
proof fn lemma_records_for_unnamed(f: Seq<char>, evs: Seq<TimedEvent>)
    requires
        !filenames_of(evs).contains(f),
    ensures
        records_for(f, evs) == Seq::<Seq<char>>::empty(),
    decreases evs.len(),
{
    if evs.len() == 0 {
    } else {
        lemma_records_for_unnamed(f, evs.drop_last());
    }
}

} // verus!
