//! The export streamer's decisions: the destination key derived for one
//! namespace and database from the current UTC time, and the step taken
//! after one attempt to open the dump stream. The stream itself flows
//! outside this crate, from the HTTP response into the upload sink,
//! without buffering.

use vstd::prelude::*;
use vstd::string::StringExecFns;

use crate::retry::RETRY_LIMIT;
use crate::timefmt::UtcTime;
use crate::timefmt::format_timestamp;
use crate::timefmt::lemma_pad_fixed_injective;
use crate::timefmt::lemma_pad_fixed_len;
use crate::timefmt::pad_fixed;
use crate::timefmt::pow10;
use crate::timefmt::timestamp_chars;
use crate::timefmt::utc_now;
use crate::timefmt::year_chars;

verus! {

/// The destination key of one export: the namespace and database joined
/// to the rendered timestamp as `{namespace}_{database}_{timestamp}.sql`.
pub open spec fn export_key_chars(ns: Seq<char>, db: Seq<char>, t: UtcTime) -> Seq<char> {
    ns + seq!['_'] + db + seq!['_'] + timestamp_chars(t) + seq!['.', 's', 'q', 'l']
}

/// Derive the destination key for one namespace and database at time
/// `t`.
pub fn destination_key(namespace: &String, database: &String, t: &UtcTime) -> (key: String)
    requires
        t.wf(),
    ensures
        key@ == export_key_chars(namespace@, database@, *t),
{
    let mut key = namespace.clone();
    key.append("_");
    key.append(database.as_str());
    key.append("_");
    key.append(format_timestamp(t).as_str());
    key.append(".sql");
    proof {
        reveal_strlit("_");
        reveal_strlit(".sql");
        assert(key@ =~= export_key_chars(namespace@, database@, *t));
    }
    key
}

/// Derive the destination key for one namespace and database at the
/// current UTC time.
pub fn export_key_now(namespace: &String, database: &String) -> (key: String)
    ensures
        exists|t: UtcTime| t.wf() && key@ == export_key_chars(namespace@, database@, t),
{
    let now = utc_now();
    let key = destination_key(namespace, database, &now);
    proof {
        assert(now.wf() && key@ == export_key_chars(namespace@, database@, now));
    }
    key
}

/// What one attempt to open the dump stream came to: the export request
/// could not be sent or answered, or the response stream is open.
pub enum ConnectEvent {
    TransportError,
    Connected,
}

/// The next move of one export task after one attempt: retry with the
/// given attempt counter, or stream the open response body to the
/// upload sink under the given destination key.
pub enum ExportStep {
    Retry { next_attempt: u8 },
    Upload { destination_key: String },
}

/// One step of the export streamer for one namespace and database on
/// attempt `retry_count`: a transport failure asks for a retry with the
/// counter raised by one; an open stream is handed on to the upload
/// sink under a key derived from the current UTC time. Each export task
/// carries its own attempt counter, independent of every other task.
pub fn export_namespace_database(
    namespace: &String,
    database: &String,
    event: &ConnectEvent,
    retry_count: u8,
) -> (step: ExportStep)
    requires
        retry_count <= RETRY_LIMIT,
    ensures
        match *event {
            ConnectEvent::TransportError => step == (ExportStep::Retry {
                next_attempt: (retry_count + 1) as u8,
            }),
            ConnectEvent::Connected => step matches ExportStep::Upload { destination_key }
                && exists|t: UtcTime|
                t.wf() && destination_key@ == export_key_chars(namespace@, database@, t),
        },
{
    match event {
        ConnectEvent::TransportError => ExportStep::Retry { next_attempt: retry_count + 1 },
        ConnectEvent::Connected => ExportStep::Upload {
            destination_key: export_key_now(namespace, database),
        },
    }
}

/// Splitting a concatenation: when two concatenations are equal and
/// their left parts have the same length, both parts agree.
pub proof fn lemma_concat_split(a1: Seq<char>, b1: Seq<char>, a2: Seq<char>, b2: Seq<char>)
    requires
        a1.len() == a2.len(),
        a1 + b1 == a2 + b2,
    ensures
        a1 == a2,
        b1 == b2,
{
    assert(a1 =~= a2) by {
        assert forall|i: int| 0 <= i < a1.len() implies a1[i] == a2[i] by {
            assert((a1 + b1)[i] == a1[i]);
            assert((a2 + b2)[i] == a2[i]);
        }
    }
    assert((a1 + b1).len() == a1.len() + b1.len());
    assert((a2 + b2).len() == a2.len() + b2.len());
    assert(b1.len() == b2.len());
    assert(b1 =~= b2) by {
        assert forall|i: int| 0 <= i < b1.len() implies b1[i] == b2[i] by {
            assert((a1 + b1)[a1.len() + i] == b1[i]);
            assert((a2 + b2)[a2.len() + i] == b2[i]);
        }
    }
}

/// Two well-formed times render to the same timestamp only if they
/// are the same time: the rendering is injective.
pub proof fn lemma_timestamp_injective(t1: UtcTime, t2: UtcTime)
    requires
        t1.wf(),
        t2.wf(),
        timestamp_chars(t1) == timestamp_chars(t2),
    ensures
        t1 == t2,
{
    reveal_with_fuel(pow10, 7);
    assert(pow10(2) == 100);
    assert(pow10(4) == 10000);
    assert(pow10(6) == 1000000);
    lemma_timestamp_len(t1);
    lemma_timestamp_len(t2);
    // Equal renderings have equal length, so the year fields have the
    // same width.
    assert((t1.year < 10000) == (t2.year < 10000));
    let w: nat = if t1.year < 10000 { 4nat } else { 6nat };
    lemma_pad_fixed_len(t1.year as nat, w);
    lemma_pad_fixed_len(t2.year as nat, w);
    lemma_pad_fixed_len(t1.month as nat, 2);
    lemma_pad_fixed_len(t2.month as nat, 2);
    lemma_pad_fixed_len(t1.day as nat, 2);
    lemma_pad_fixed_len(t2.day as nat, 2);
    lemma_pad_fixed_len(t1.hour as nat, 2);
    lemma_pad_fixed_len(t2.hour as nat, 2);
    lemma_pad_fixed_len(t1.minute as nat, 2);
    lemma_pad_fixed_len(t2.minute as nat, 2);
    lemma_pad_fixed_len(t1.second as nat, 2);
    lemma_pad_fixed_len(t2.second as nat, 2);
    assert(year_chars(t1.year as nat) == pad_fixed(t1.year as nat, w));
    assert(year_chars(t2.year as nat) == pad_fixed(t2.year as nat, w));
    let y1 = pad_fixed(t1.year as nat, w);
    let y2 = pad_fixed(t2.year as nat, w);
    let mo1 = pad_fixed(t1.month as nat, 2);
    let mo2 = pad_fixed(t2.month as nat, 2);
    let d1 = pad_fixed(t1.day as nat, 2);
    let d2 = pad_fixed(t2.day as nat, 2);
    let h1 = pad_fixed(t1.hour as nat, 2);
    let h2 = pad_fixed(t2.hour as nat, 2);
    let mi1 = pad_fixed(t1.minute as nat, 2);
    let mi2 = pad_fixed(t2.minute as nat, 2);
    let s1 = pad_fixed(t1.second as nat, 2);
    let s2 = pad_fixed(t2.second as nat, 2);
    let x10_1 = y1 + seq!['_'] + mo1 + seq!['_'] + d1 + seq![' '] + h1 + seq!['_', '_'] + mi1
        + seq!['_', '_'];
    let x10_2 = y2 + seq!['_'] + mo2 + seq!['_'] + d2 + seq![' '] + h2 + seq!['_', '_'] + mi2
        + seq!['_', '_'];
    lemma_concat_split(x10_1, s1, x10_2, s2);
    lemma_pad_fixed_injective(t1.second as nat, t2.second as nat, 2);
    lemma_concat_split(
        y1 + seq!['_'] + mo1 + seq!['_'] + d1 + seq![' '] + h1 + seq!['_', '_'] + mi1,
        seq!['_', '_'],
        y2 + seq!['_'] + mo2 + seq!['_'] + d2 + seq![' '] + h2 + seq!['_', '_'] + mi2,
        seq!['_', '_'],
    );
    lemma_concat_split(
        y1 + seq!['_'] + mo1 + seq!['_'] + d1 + seq![' '] + h1 + seq!['_', '_'],
        mi1,
        y2 + seq!['_'] + mo2 + seq!['_'] + d2 + seq![' '] + h2 + seq!['_', '_'],
        mi2,
    );
    lemma_pad_fixed_injective(t1.minute as nat, t2.minute as nat, 2);
    lemma_concat_split(
        y1 + seq!['_'] + mo1 + seq!['_'] + d1 + seq![' '] + h1,
        seq!['_', '_'],
        y2 + seq!['_'] + mo2 + seq!['_'] + d2 + seq![' '] + h2,
        seq!['_', '_'],
    );
    lemma_concat_split(
        y1 + seq!['_'] + mo1 + seq!['_'] + d1 + seq![' '],
        h1,
        y2 + seq!['_'] + mo2 + seq!['_'] + d2 + seq![' '],
        h2,
    );
    lemma_pad_fixed_injective(t1.hour as nat, t2.hour as nat, 2);
    lemma_concat_split(
        y1 + seq!['_'] + mo1 + seq!['_'] + d1,
        seq![' '],
        y2 + seq!['_'] + mo2 + seq!['_'] + d2,
        seq![' '],
    );
    lemma_concat_split(
        y1 + seq!['_'] + mo1 + seq!['_'],
        d1,
        y2 + seq!['_'] + mo2 + seq!['_'],
        d2,
    );
    lemma_pad_fixed_injective(t1.day as nat, t2.day as nat, 2);
    lemma_concat_split(y1 + seq!['_'] + mo1, seq!['_'], y2 + seq!['_'] + mo2, seq!['_']);
    lemma_concat_split(y1 + seq!['_'], mo1, y2 + seq!['_'], mo2);
    lemma_pad_fixed_injective(t1.month as nat, t2.month as nat, 2);
    lemma_concat_split(y1, seq!['_'], y2, seq!['_']);
    lemma_pad_fixed_injective(t1.year as nat, t2.year as nat, w);
}

/// For one namespace and database, keys derived at different times are
/// different: a later cycle's upload never lands on an earlier cycle's
/// key.
pub proof fn lemma_export_key_injective_in_time(
    ns: Seq<char>,
    db: Seq<char>,
    t1: UtcTime,
    t2: UtcTime,
)
    requires
        t1.wf(),
        t2.wf(),
        export_key_chars(ns, db, t1) == export_key_chars(ns, db, t2),
    ensures
        t1 == t2,
{
    let prefix = ns + seq!['_'] + db + seq!['_'];
    assert(export_key_chars(ns, db, t1) == prefix + timestamp_chars(t1) + seq!['.', 's', 'q', 'l'])
        by {
        assert(export_key_chars(ns, db, t1) =~= prefix + timestamp_chars(t1) + seq![
            '.',
            's',
            'q',
            'l',
        ]);
    }
    assert(export_key_chars(ns, db, t2) == prefix + timestamp_chars(t2) + seq!['.', 's', 'q', 'l'])
        by {
        assert(export_key_chars(ns, db, t2) =~= prefix + timestamp_chars(t2) + seq![
            '.',
            's',
            'q',
            'l',
        ]);
    }
    let ts1 = timestamp_chars(t1);
    let ts2 = timestamp_chars(t2);
    assert((prefix + ts1 + seq!['.', 's', 'q', 'l']).len() == prefix.len() + ts1.len() + 4);
    assert((prefix + ts2 + seq!['.', 's', 'q', 'l']).len() == prefix.len() + ts2.len() + 4);
    assert(ts1.len() == ts2.len());
    lemma_concat_split(
        prefix + timestamp_chars(t1),
        seq!['.', 's', 'q', 'l'],
        prefix + timestamp_chars(t2),
        seq!['.', 's', 'q', 'l'],
    );
    lemma_concat_split(prefix, timestamp_chars(t1), prefix, timestamp_chars(t2));
    lemma_timestamp_injective(t1, t2);
}

/// A timestamp renders in exactly 21 characters, or 23 for the
/// far-off years beyond 9999.
pub proof fn lemma_timestamp_len(t: UtcTime)
    requires
        t.wf(),
    ensures
        t.year < 10000 ==> timestamp_chars(t).len() == 21,
        t.year >= 10000 ==> timestamp_chars(t).len() == 23,
{
    if t.year < 10000 {
        lemma_pad_fixed_len(t.year as nat, 4);
    } else {
        lemma_pad_fixed_len(t.year as nat, 6);
    }
    lemma_pad_fixed_len(t.month as nat, 2);
    lemma_pad_fixed_len(t.day as nat, 2);
    lemma_pad_fixed_len(t.hour as nat, 2);
    lemma_pad_fixed_len(t.minute as nat, 2);
    lemma_pad_fixed_len(t.second as nat, 2);
}

} // verus!
