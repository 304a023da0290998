//! Assertions over captured events, with failure messages that show what
//! was emitted.
use soroban_sdk::Val;
use vstd::prelude::*;

use crate::base::error::TestkitError;
use crate::base::render::{nat_text, u64_text};
use crate::events::capture::{carries_topic, opt_bytes, EventLog, RecordView};

verus! {

/// The first `k` event renderings, each on its own numbered line.
pub open spec fn numbered_lines(lines: Seq<Seq<char>>, k: nat) -> Seq<char>
    decreases k,
{
    if k == 0 {
        Seq::empty()
    } else {
        numbered_lines(lines, (k - 1) as nat) + "  ["@ + nat_text((k - 1) as nat) + "] "@ + lines[k
            - 1] + "\n"@
    }
}

/// The rendering of a list of events for failure messages.
pub open spec fn render_text(lines: Seq<Seq<char>>) -> Seq<char> {
    if lines.len() == 0 {
        "captured events: (none)"@
    } else {
        "captured events ("@ + nat_text(lines.len()) + "):\n"@ + numbered_lines(lines, lines.len())
    }
}

/// The renderings of a list of event records.
pub open spec fn lines_of(records: Seq<RecordView>) -> Seq<Seq<char>> {
    records.map_values(|rv: RecordView| rv.line)
}

/// The events of `records` that carry the topic encoded as `query`.
pub open spec fn matching(records: Seq<RecordView>, query: Option<Seq<u8>>) -> Seq<RecordView> {
    records.filter(carries_topic(query))
}

/// `r` is the verdict of [`EventLog::assert_emitted`] on a log with
/// `records` for a topic encoded as `query`.
pub open spec fn emitted_reported(records: Seq<RecordView>, query: Option<Seq<u8>>, r: Result<(), TestkitError>) -> bool {
    &&& r is Ok <==> matching(records, query).len() > 0
    &&& r matches Err(e) ==> e is AssertionFailed && e.detail()
        == "expected an event with the given topic, but none was found\n"@ + render_text(lines_of(records))
}

/// `r` is the verdict of [`EventLog::assert_emitted_times`].
pub open spec fn emitted_times_reported(
    records: Seq<RecordView>,
    query: Option<Seq<u8>>,
    n: usize,
    r: Result<(), TestkitError>,
) -> bool {
    &&& r is Ok <==> matching(records, query).len() == n
    &&& r matches Err(e) ==> e is AssertionFailed && e.detail() == "expected "@ + nat_text(n as nat)
        + " event(s) with the given topic, found "@ + nat_text(matching(records, query).len())
        + "\n"@ + render_text(lines_of(records))
}

/// `r` is the verdict of [`EventLog::assert_none`].
pub open spec fn none_reported(records: Seq<RecordView>, query: Option<Seq<u8>>, r: Result<(), TestkitError>) -> bool {
    &&& r is Ok <==> matching(records, query).len() == 0
    &&& r matches Err(e) ==> e is AssertionFailed && e.detail()
        == "expected no events with the given topic, found "@ + nat_text(
        matching(records, query).len(),
    ) + "\n"@ + render_text(lines_of(matching(records, query)))
}

/// The failure message of [`EventLog::decode_one`] on a log with `records`.
pub open spec fn decode_one_text(records: Seq<RecordView>) -> Seq<char> {
    if records.len() == 0 {
        "decode_one requires exactly one event, but this log is empty\n"@ + render_text(
            lines_of(records),
        )
    } else {
        "decode_one requires exactly one event, but this log has "@ + nat_text(records.len())
            + "\n"@ + render_text(lines_of(records))
    }
}

/// `r` is what decoding the single event of a log with `records` reports
/// when the decoder gave `d`: the value, or a decode failure listing the
/// log.
pub open spec fn decoded_reported<D>(records: Seq<RecordView>, d: Option<D>, r: Result<D, TestkitError>) -> bool {
    match d {
        Some(x) => r == Ok::<D, TestkitError>(x),
        None => r matches Err(e) && e is DecodeFailed && e.detail()
            == "failed to decode event data as the requested type\n"@ + render_text(lines_of(records)),
    }
}

impl EventLog {
    /// Render every captured event for inclusion in a failure message.
    pub fn render(&self) -> (s: String)
        ensures
            s@ == render_text(lines_of(self.records())),
    {
        let lines = self.lines();
        let ghost ls = lines_of(self.records());
        assert(lines@.map_values(|s: String| s@) == ls);
        if lines.len() == 0 {
            return String::from_str("captured events: (none)");
        }
        let mut out = String::from_str("captured events (");
        out.append(u64_text(lines.len() as u64).as_str());
        out.append("):\n");
        let ghost head = out@;
        let mut i: usize = 0;
        assert(out@ =~= head + numbered_lines(ls, 0));
        while i < lines.len()
            invariant
                i <= lines.len(),
                ls.len() == lines.len(),
                forall|j: int| 0 <= j < lines.len() ==> #[trigger] ls[j] == lines@[j]@,
                out@ == head + numbered_lines(ls, i as nat),
            decreases lines.len() - i,
        {
            let ghost before = out@;
            out.append("  [");
            out.append(u64_text(i as u64).as_str());
            out.append("] ");
            out.append(lines[i].as_str());
            out.append("\n");
            assert(ls[i as int] == lines@[i as int]@);
            assert(out@ =~= head + numbered_lines(ls, (i + 1) as nat));
            i = i + 1;
        }
        out
    }

    /// Check that at least one captured event has the given topic,
    /// reporting a [`TestkitError::AssertionFailed`] listing every captured
    /// event if none does: [`EventLog::emitted_verdict`] on the topic's XDR
    /// encoding.
    pub fn assert_emitted(&self, topic: Val) -> (r: Result<(), TestkitError>)
        ensures
            exists|query: Option<Seq<u8>>| #[trigger] emitted_reported(self.records(), query, r),
    {
        let query = self.topic_query(topic);
        self.emitted_verdict(&query)
    }

    /// The verdict of [`EventLog::assert_emitted`] for the topic whose XDR
    /// encoding is `query`.
    pub fn emitted_verdict(&self, query: &Option<Vec<u8>>) -> (r: Result<(), TestkitError>)
        ensures
            emitted_reported(self.records(), opt_bytes(*query), r),
    {
        let matched = self.with_encoded_topic(query);
        if matched.is_empty() {
            let mut m = String::from_str("expected an event with the given topic, but none was found\n");
            m.append(self.render().as_str());
            Err(TestkitError::AssertionFailed(m))
        } else {
            Ok(())
        }
    }

    /// Check that exactly `n` captured events have the given topic,
    /// reporting a [`TestkitError::AssertionFailed`] with both counts and the
    /// full log if not: [`EventLog::emitted_times_verdict`] on the topic's
    /// XDR encoding.
    pub fn assert_emitted_times(&self, topic: Val, n: usize) -> (r: Result<(), TestkitError>)
        ensures
            exists|query: Option<Seq<u8>>| #[trigger] emitted_times_reported(self.records(), query, n, r),
    {
        let query = self.topic_query(topic);
        self.emitted_times_verdict(&query, n)
    }

    /// The verdict of [`EventLog::assert_emitted_times`] for the topic whose
    /// XDR encoding is `query`.
    pub fn emitted_times_verdict(&self, query: &Option<Vec<u8>>, n: usize) -> (r: Result<(), TestkitError>)
        ensures
            emitted_times_reported(self.records(), opt_bytes(*query), n, r),
    {
        let matched = self.with_encoded_topic(query);
        let count = matched.len();
        if count != n {
            let mut m = String::from_str("expected ");
            m.append(u64_text(n as u64).as_str());
            m.append(" event(s) with the given topic, found ");
            m.append(u64_text(count as u64).as_str());
            m.append("\n");
            m.append(self.render().as_str());
            Err(TestkitError::AssertionFailed(m))
        } else {
            Ok(())
        }
    }

    /// Check that no captured event has the given topic, reporting a
    /// [`TestkitError::AssertionFailed`] listing the matching events if any:
    /// [`EventLog::none_verdict`] on the topic's XDR encoding.
    pub fn assert_none(&self, topic: Val) -> (r: Result<(), TestkitError>)
        ensures
            exists|query: Option<Seq<u8>>| #[trigger] none_reported(self.records(), query, r),
    {
        let query = self.topic_query(topic);
        self.none_verdict(&query)
    }

    /// The verdict of [`EventLog::assert_none`] for the topic whose XDR
    /// encoding is `query`.
    pub fn none_verdict(&self, query: &Option<Vec<u8>>) -> (r: Result<(), TestkitError>)
        ensures
            none_reported(self.records(), opt_bytes(*query), r),
    {
        let matched = self.with_encoded_topic(query);
        if !matched.is_empty() {
            let mut m = String::from_str("expected no events with the given topic, found ");
            m.append(u64_text(matched.len() as u64).as_str());
            m.append("\n");
            m.append(matched.render().as_str());
            Err(TestkitError::AssertionFailed(m))
        } else {
            Ok(())
        }
    }

    /// Decode the data payload of the single event in this log with
    /// `decode` (typically `|v| T::try_from_val(env, &v).ok()`). Reports the
    /// errors of [`EventLog::decode_one`] when the log does not hold exactly
    /// one event, and a [`TestkitError::DecodeFailed`] listing the log when
    /// `decode` gives nothing back.
    pub fn decode_one_as<D, F: Fn(Val) -> Option<D>>(&self, decode: F) -> (r: Result<D, TestkitError>)
        requires
            forall|v: Val| call_requires(decode, (v,)),
        ensures
            self.records().len() != 1 ==> (r matches Err(e) && e is AssertionFailed && e.detail()
                == decode_one_text(self.records())),
            self.records().len() == 1 ==> exists|d: Option<D>|
                #[trigger] call_ensures(decode, (self.data_of()[0],), d) && decoded_reported(self.records(), d, r),
    {
        match self.decode_one() {
            Err(e) => Err(e),
            Ok(v) => {
                let d = decode(v);
                let r = match d {
                    Some(x) => Ok(x),
                    None => {
                        let mut m = String::from_str("failed to decode event data as the requested type\n");
                        m.append(self.render().as_str());
                        Err(TestkitError::DecodeFailed(m))
                    },
                };
                assert(decoded_reported(self.records(), d, r));
                r
            },
        }
    }

    /// The data payload of the single event in this log (filter first, e.g.
    /// with [`EventLog::with_topic`]). Reports a
    /// [`TestkitError::AssertionFailed`] with the full log if the log does
    /// not hold exactly one event; converting the payload to a Rust type is
    /// left to the caller.
    pub fn decode_one(&self) -> (r: Result<Val, TestkitError>)
        ensures
            r is Ok <==> self.records().len() == 1,
            r matches Ok(v) ==> v == self.data_of()[0],
            r matches Err(e) ==> e is AssertionFailed && e.detail() == decode_one_text(self.records()),
    {
        match self.only_data() {
            Some(v) => Ok(v),
            None => {
                let n = self.len();
                let mut m = if n == 0 {
                    String::from_str("decode_one requires exactly one event, but this log is empty\n")
                } else {
                    let mut h = String::from_str("decode_one requires exactly one event, but this log has ");
                    h.append(u64_text(n as u64).as_str());
                    h.append("\n");
                    h
                };
                m.append(self.render().as_str());
                Err(TestkitError::AssertionFailed(m))
            },
        }
    }
}

/// The three event assertions agree on the same log and topic: "emitted"
/// passes exactly when "none" fails, exactly when "emitted 0 times" fails.
pub proof fn lemma_event_verdicts_agree(
    records: Seq<RecordView>,
    query: Option<Seq<u8>>,
    emitted: Result<(), TestkitError>,
    none: Result<(), TestkitError>,
    zero: Result<(), TestkitError>,
)
    requires
        emitted_reported(records, query, emitted),
        none_reported(records, query, none),
        emitted_times_reported(records, query, 0, zero),
    ensures
        emitted is Ok <==> none is Err,
        none is Ok <==> zero is Ok,
{
}

} // verus!
