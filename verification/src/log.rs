//! The request log: an append-only, in-order sequence of record lines,
//! together with the text it is rendered to and the law that keeps an
//! append-only file mirror in sync with it.

use vstd::prelude::*;
use crate::clock::local_time_string;
use crate::record::format_record;
use crate::record::is_reserved;
use crate::record::is_reserved_path;
use crate::record::record_of;

verus! {

/// The concatenation of all records, in order: the text of the whole log.
/// This is both what the plaintext endpoint returns and what the on-disk
/// mirror of the log is meant to hold.
pub open spec fn log_text(records: Seq<Seq<char>>) -> Seq<char>
    decreases records.len(),
{
    if records.len() == 0 {
        Seq::empty()
    } else {
        log_text(records.drop_last()) + records.last()
    }
}

/// What one capture request does to the log. A request to a reserved path
/// leaves the log alone and yields no record; any other request appends
/// exactly one record, built from the request's fields, and yields that
/// record, so that the caller can append the very same text to the file.
pub open spec fn capture_post(
    pre: Seq<Seq<char>>,
    post: Seq<Seq<char>>,
    r: Option<String>,
    time: Seq<char>,
    method: Seq<char>,
    path: Seq<char>,
    headers: Seq<char>,
    body: Seq<char>,
) -> bool {
    if is_reserved(path) {
        post == pre && r is None
    } else {
        let rec = record_of(time, method, path, headers, body);
        post == pre.push(rec) && r is Some && r->0@ == rec
    }
}

/// The in-memory request log: captured records, in arrival order.
pub struct RequestLog {
    records: Vec<String>,
}

impl View for RequestLog {
    type V = Seq<Seq<char>>;

    closed spec fn view(&self) -> Seq<Seq<char>> {
        self.records@.map_values(|s: String| s@)
    }
}

impl RequestLog {
    /// An empty log: the state a fresh process starts from.
    pub fn new() -> (log: RequestLog)
        ensures
            log@ == Seq::<Seq<char>>::empty(),
    {
        let log = RequestLog { records: Vec::new() };
        proof {
            assert(log@ =~= Seq::<Seq<char>>::empty());
        }
        log
    }

    /// The number of captured records.
    pub fn len(&self) -> (n: usize)
        ensures
            n == self@.len(),
    {
        self.records.len()
    }

    /// The record at a given position, oldest first.
    pub fn record_at(&self, i: usize) -> (r: &String)
        requires
            i < self@.len(),
        ensures
            r@ == self@[i as int],
    {
        let r = &self.records[i];
        proof {
            assert(self@[i as int] == self.records@[i as int]@);
        }
        r
    }

    /// Captures one request whose time stamp is already rendered: a reserved
    /// path is left unlogged, any other request appends its record. The
    /// returned record, when there is one, is what must be appended to the
    /// file mirror.
    pub fn capture_at(
        &mut self,
        time: &str,
        method: &str,
        path: &str,
        headers: &str,
        body: &str,
    ) -> (r: Option<String>)
        ensures
            capture_post(old(self)@, final(self)@, r, time@, method@, path@, headers@, body@),
    {
        if is_reserved_path(path) {
            return None;
        }
        let rec = format_record(time, method, path, headers, body);
        let out = rec.clone();
        self.records.push(rec);
        proof {
            assert(self@ =~= old(self)@.push(record_of(time@, method@, path@, headers@, body@)));
        }
        Some(out)
    }

    /// Captures one request, stamping it with the current local time. The
    /// time the clock hands back is not pinned, so the contract holds for
    /// some time stamp; everything else is as in `capture_at`.
    pub fn capture(
        &mut self,
        method: &str,
        path: &str,
        headers: &str,
        body: &str,
    ) -> (r: Option<String>)
        ensures
            exists|t: Seq<char>|
                capture_post(old(self)@, final(self)@, r, t, method@, path@, headers@, body@),
    {
        let time = local_time_string();
        let r = self.capture_at(time.as_str(), method, path, headers, body);
        proof {
            assert(capture_post(old(self)@, self@, r, time@, method@, path@, headers@, body@));
        }
        r
    }

    /// The whole log as one text blob: the concatenation of all records in
    /// arrival order. This is the body of the plaintext endpoint.
    pub fn render_api(&self) -> (r: String)
        ensures
            r@ == log_text(self@),
    {
        let n = self.records.len();
        let mut r = String::new();
        let mut i: usize = 0;
        while i < n
            invariant
                n == self@.len(),
                n == self.records.len(),
                i <= n,
                r@ == log_text(self@.take(i as int)),
            decreases n - i,
        {
            r.append(self.records[i].as_str());
            proof {
                assert(self@[i as int] == self.records@[i as int]@);
                lemma_log_text_take_step(self@, i as int);
            }
            i += 1;
        }
        proof {
            assert(self@.take(n as int) =~= self@);
        }
        r
    }
}

/// One step of joining the records: taking one more record extends the text
/// by exactly that record.
proof fn lemma_log_text_take_step(records: Seq<Seq<char>>, i: int)
    requires
        0 <= i < records.len(),
    ensures
        log_text(records.take(i + 1)) == log_text(records.take(i)) + records[i],
{
    assert(records.take(i + 1).drop_last() =~= records.take(i));
    assert(records.take(i + 1).last() == records[i]);
}

/// Appending one record to the log and the same text to the file keeps the
/// file equal to the text of the log. A writer that holds this invariant
/// before a capture holds it after, so a file built by appends, one per
/// record and in log order, holds exactly the text of the in-memory log.
pub proof fn lemma_append_keeps_sync(file: Seq<char>, records: Seq<Seq<char>>, rec: Seq<char>)
    requires
        file == log_text(records),
    ensures
        file + rec == log_text(records.push(rec)),
{
    assert(records.push(rec).drop_last() =~= records);
    assert(records.push(rec).last() == rec);
}

} // verus!
