//! The output stream relay: dispatching backend events to log records.
//!
//! The long-lived task that waits on the transport lives outside the library;
//! for each event it receives it calls [`relay_event`] and hands the record,
//! if any, to the log sink. [`relay_all`] is the same dispatch over a whole
//! sequence of events at once.

use vstd::prelude::*;
use crate::decode::{all_ascii, ascii_chars, decode_lossy, lossy_decode};
use crate::event::{record_of, Level, LogRecord, LogRecordView, OutputEvent};

verus! {

/// The image of an optional record, for speaking about [`relay_event`]'s
/// result.
pub open spec fn opt_record_view(r: Option<LogRecord>) -> Option<LogRecordView> {
    match r {
        Some(rec) => Some(rec@),
        None => None,
    }
}

/// The records that a sequence of events gives rise to, in arrival order:
/// one per line event, none for the rest.
pub open spec fn records_of(events: Seq<OutputEvent>) -> Seq<LogRecordView>
    decreases events.len(),
{
    if events.len() == 0 {
        Seq::empty()
    } else {
        let rest = records_of(events.drop_last());
        match record_of(events.last()) {
            Some(v) => rest.push(v),
            None => rest,
        }
    }
}

/// Dispatches one event: a standard-output line becomes exactly one
/// info-level record and a standard-error line exactly one error-level
/// record, each carrying the lossily decoded payload; termination and other
/// events produce nothing. Decoding never fails, whatever the bytes.
pub fn relay_event(event: &OutputEvent) -> (r: Option<LogRecord>)
    ensures
        opt_record_view(r) == record_of(*event),
        *event matches OutputEvent::StandardOutLine(b) ==> (r matches Some(rec) && rec@.level
            == Level::Info && rec@.text == lossy_decode(b@)),
        *event matches OutputEvent::StandardErrLine(b) ==> (r matches Some(rec) && rec@.level
            == Level::Error && rec@.text == lossy_decode(b@)),
        (*event is Terminated || *event is Other) ==> r is None,
        *event matches OutputEvent::StandardOutLine(b) ==> all_ascii(b@) ==> (r matches Some(rec)
            && rec@.text == ascii_chars(b@)),
        *event matches OutputEvent::StandardErrLine(b) ==> all_ascii(b@) ==> (r matches Some(rec)
            && rec@.text == ascii_chars(b@)),
{
    match event {
        OutputEvent::StandardOutLine(b) => Some(
            LogRecord { level: Level::Info, text: decode_lossy(b) },
        ),
        OutputEvent::StandardErrLine(b) => Some(
            LogRecord { level: Level::Error, text: decode_lossy(b) },
        ),
        OutputEvent::Terminated(_) => None,
        OutputEvent::Other => None,
    }
}

/// Dispatches a whole sequence of events in order: the records come out in
/// exactly the order of the line events they stem from.
pub fn relay_all(events: &Vec<OutputEvent>) -> (r: Vec<LogRecord>)
    ensures
        r@.map_values(|rec: LogRecord| rec@) == records_of(events@),
{
    let mut out: Vec<LogRecord> = Vec::new();
    let mut i: usize = 0;
    while i < events.len()
        invariant
            i <= events.len(),
            out@.map_values(|rec: LogRecord| rec@) == records_of(events@.take(i as int)),
        decreases events.len() - i,
    {
        proof {
            assert(events@.take(i + 1).drop_last() =~= events@.take(i as int));
            assert(events@.take(i + 1).last() == events@[i as int]);
        }
        match relay_event(&events[i]) {
            Some(rec) => {
                let ghost prev = out@;
                out.push(rec);
                proof {
                    assert(out@.map_values(|rec: LogRecord| rec@) =~= prev.map_values(
                        |rec: LogRecord| rec@,
                    ).push(rec@));
                }
            },
            None => {},
        }
        i += 1;
    }
    proof {
        assert(events@.take(events@.len() as int) =~= events@);
    }
    out
}

/// Order preservation: relaying events fed in order concatenates, so the
/// records of a first batch stand before the records of a second, each batch
/// in its own arrival order.
pub proof fn lemma_relay_preserves_order(s1: Seq<OutputEvent>, s2: Seq<OutputEvent>)
    ensures
        records_of(s1 + s2) == records_of(s1) + records_of(s2),
    decreases s2.len(),
{
    if s2.len() == 0 {
        assert(s1 + s2 =~= s1);
        assert(records_of(s1) + records_of(s2) =~= records_of(s1));
    } else {
        lemma_relay_preserves_order(s1, s2.drop_last());
        assert((s1 + s2).drop_last() =~= s1 + s2.drop_last());
        assert((s1 + s2).last() == s2.last());
        match record_of(s2.last()) {
            Some(v) => {
                assert(records_of(s1) + records_of(s2) =~= (records_of(s1) + records_of(
                    s2.drop_last(),
                )).push(v));
            },
            None => {},
        }
    }
}

/// Every standard-output line event yields exactly one record, at info level,
/// holding the decoded payload verbatim.
pub proof fn lemma_stdout_yields_one_info(e: OutputEvent)
    requires
        (e is StandardOutLine),
    ensures
        records_of(seq![e]).len() == 1,
        records_of(seq![e])[0] == (LogRecordView {
            level: Level::Info,
            text: lossy_decode(crate::event::event_bytes(e)),
        }),
{
    assert(seq![e].drop_last() =~= Seq::<OutputEvent>::empty());
    assert(records_of(Seq::<OutputEvent>::empty()) =~= Seq::<LogRecordView>::empty());
}

/// Every standard-error line event yields exactly one record, at error level,
/// holding the decoded payload verbatim.
pub proof fn lemma_stderr_yields_one_error(e: OutputEvent)
    requires
        (e is StandardErrLine),
    ensures
        records_of(seq![e]).len() == 1,
        records_of(seq![e])[0] == (LogRecordView {
            level: Level::Error,
            text: lossy_decode(crate::event::event_bytes(e)),
        }),
{
    assert(seq![e].drop_last() =~= Seq::<OutputEvent>::empty());
    assert(records_of(Seq::<OutputEvent>::empty()) =~= Seq::<LogRecordView>::empty());
}

} // verus!
