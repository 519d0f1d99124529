//! Resumable model downloads: the byte-range request for resuming, the
//! total size read back from a range response, and the progress tracker
//! that reports at most one event per whole-percent step.
//!
//! The HTTP transfer and the file writes are the driver's work; every
//! decision — what to request, what counts as the total, when to emit
//! progress — is made here.

use vstd::prelude::*;
use vstd::arithmetic::div_mod::lemma_div_is_ordered;
use vstd::string::StringSliceAdditionalSpecFns;

use crate::provider::{AsrError, DownloadProgress};
use crate::text::{spec_dec, u64_to_string};

verus! {

/// The `Range` header value that resumes a transfer at `offset`:
/// `bytes=<offset>-`.
pub fn range_header_value(offset: u64) -> (r: String)
    ensures
        r@ == ("bytes=")@ + spec_dec(offset as nat) + ("-")@,
{
    let mut s = String::new();
    s.append("bytes=");
    let n = u64_to_string(offset);
    s.append(n.as_str());
    s.append("-");
    proof {
        assert(s@ =~= ("bytes=")@ + spec_dec(offset as nat) + ("-")@);
    }
    s
}

/// The header to send when resuming: a byte-range from the partial
/// file's size, or nothing for a fresh transfer.
pub fn resume_range_header(already_downloaded: u64) -> (r: Option<String>)
    ensures
        r is Some <==> already_downloaded > 0,
        r is Some ==> r.unwrap()@ == ("bytes=")@ + spec_dec(already_downloaded as nat) + ("-")@,
{
    if already_downloaded > 0 {
        Some(range_header_value(already_downloaded))
    } else {
        None
    }
}

/// What stands after the last `/` of a byte string; the whole string
/// where it has no `/`.
pub open spec fn spec_after_last_slash(s: Seq<u8>) -> Seq<u8>
    decreases s.len(),
{
    if s.len() == 0 {
        s
    } else if s[s.len() - 1] == 0x2f {
        Seq::empty()
    } else {
        spec_after_last_slash(s.take(s.len() - 1)).push(s[s.len() - 1])
    }
}

proof fn lemma_after_last_slash(s: Seq<u8>, i: int)
    requires
        0 <= i <= s.len(),
        forall|j: int| i <= j < s.len() ==> s[j] != 0x2f,
        i > 0 ==> s[i - 1] == 0x2f,
    ensures
        spec_after_last_slash(s) == s.skip(i),
    decreases s.len(),
{
    if s.len() == 0 {
        assert(spec_after_last_slash(s) =~= s.skip(i));
    } else if i == s.len() {
        assert(s[s.len() - 1] == 0x2f);
        assert(spec_after_last_slash(s) =~= s.skip(i));
    } else {
        assert(s[s.len() - 1] != 0x2f);
        let head = s.take(s.len() - 1);
        lemma_after_last_slash(head, i);
        assert(spec_after_last_slash(s) =~= s.skip(i));
    }
}

/// Whether every byte is a decimal digit (and there is at least one).
pub open spec fn spec_is_digits(s: Seq<u8>) -> bool {
    s.len() > 0 && forall|i: int| 0 <= i < s.len() ==> 0x30 <= #[trigger] s[i] <= 0x39
}

/// The value of a decimal digit string, most significant digit first.
pub open spec fn spec_digits_value(s: Seq<u8>) -> int
    decreases s.len(),
{
    if s.len() == 0 {
        0
    } else {
        spec_digits_value(s.take(s.len() - 1)) * 10 + (s[s.len() - 1] - 0x30)
    }
}

proof fn lemma_digits_value_nonneg(s: Seq<u8>)
    requires
        forall|i: int| 0 <= i < s.len() ==> 0x30 <= #[trigger] s[i] <= 0x39,
    ensures
        spec_digits_value(s) >= 0,
    decreases s.len(),
{
    if s.len() > 0 {
        let head = s.take(s.len() - 1);
        lemma_digits_value_nonneg(head);
    }
}

proof fn lemma_digits_value_prefix_le(s: Seq<u8>, i: int)
    requires
        0 <= i <= s.len(),
        forall|j: int| 0 <= j < s.len() ==> 0x30 <= #[trigger] s[j] <= 0x39,
    ensures
        spec_digits_value(s.take(i)) <= spec_digits_value(s),
    decreases s.len() - i,
{
    if i == s.len() {
        assert(s.take(i) =~= s);
    } else {
        let next = s.take(i + 1);
        assert(next.take(i) =~= s.take(i));
        lemma_digits_value_nonneg(s.take(i));
        assert(spec_digits_value(next) == spec_digits_value(s.take(i)) * 10 + (s[i] - 0x30));
        lemma_digits_value_prefix_le(s, i + 1);
    }
}

/// The number a decimal digit string denotes: `None` where the string
/// is empty, holds a non-digit, or denotes more than `u64::MAX`.
pub open spec fn spec_parse_u64(s: Seq<u8>) -> Option<u64> {
    if spec_is_digits(s) && spec_digits_value(s) <= u64::MAX {
        Some(spec_digits_value(s) as u64)
    } else {
        None
    }
}

/// Parses a decimal digit string into a number, rejecting anything
/// that is empty, holds a non-digit, or overflows 64 bits.
pub fn parse_u64_decimal(s: &[u8]) -> (r: Option<u64>)
    ensures
        r == spec_parse_u64(s@),
{
    if s.len() == 0 {
        return None;
    }
    let mut acc: u64 = 0;
    let mut i: usize = 0;
    while i < s.len()
        invariant
            0 < s@.len() <= usize::MAX,
            i <= s@.len(),
            forall|j: int| 0 <= j < i ==> 0x30 <= #[trigger] s@[j] <= 0x39,
            acc == spec_digits_value(s@.take(i as int)),
        decreases s@.len() - i,
    {
        let b = s[i];
        if b < 0x30 || b > 0x39 {
            return None;
        }
        let digit = (b - 0x30) as u64;
        if acc > (u64::MAX - digit) / 10 {
            proof {
                assert(s@.take(i as int + 1).take(i as int) =~= s@.take(i as int));
                assert(spec_digits_value(s@.take(i as int + 1)) == acc * 10 + digit);
                if spec_is_digits(s@) {
                    lemma_digits_value_prefix_le(s@, i as int + 1);
                }
            }
            return None;
        }
        proof {
            assert(s@.take(i as int + 1).take(i as int) =~= s@.take(i as int));
        }
        acc = acc * 10 + digit;
        i = i + 1;
    }
    proof {
        assert(s@.take(s@.len() as int) =~= s@);
    }
    Some(acc)
}

/// The total size declared by a `Content-Range` header: the number
/// after its last `/`, or nothing where that is not a number.
pub fn total_from_content_range(header: &str) -> (r: Option<u64>)
    ensures
        r == spec_parse_u64(spec_after_last_slash(header.spec_bytes())),
{
    let bytes = header.as_bytes();
    let mut start: usize = bytes.len();
    while start > 0
        invariant
            start <= bytes@.len(),
            bytes@.len() <= usize::MAX,
            forall|j: int| start <= j < bytes@.len() ==> bytes@[j] != 0x2f,
        ensures
            start <= bytes@.len(),
            forall|j: int| start <= j < bytes@.len() ==> bytes@[j] != 0x2f,
            start > 0 ==> bytes@[start - 1] == 0x2f,
        decreases start,
    {
        if bytes[start - 1] == 0x2f {
            break ;
        }
        start = start - 1;
    }
    proof {
        lemma_after_last_slash(bytes@, start as int);
    }
    let suffix = vstd::slice::slice_subrange(bytes, start, bytes.len());
    proof {
        assert(suffix@ =~= bytes@.skip(start as int));
    }
    parse_u64_decimal(suffix)
}

/// The total size used for progress reporting: for a resumed transfer
/// the total that the range response declares (0 where absent or
/// unreadable), otherwise the plain content length (0 where absent).
pub fn total_size_for(already_downloaded: u64, content_range: Option<&str>, content_length: Option<
    u64,
>) -> (r: u64)
    ensures
        already_downloaded > 0 ==> r == (match content_range {
            Some(h) => match spec_parse_u64(spec_after_last_slash(h.spec_bytes())) {
                Some(t) => t,
                None => 0,
            },
            None => 0,
        }),
        already_downloaded == 0 ==> r == (match content_length {
            Some(l) => l,
            None => 0,
        }),
{
    if already_downloaded > 0 {
        match content_range {
            Some(h) => {
                match total_from_content_range(h) {
                    Some(t) => t,
                    None => 0,
                }
            },
            None => 0,
        }
    } else {
        match content_length {
            Some(l) => l,
            None => 0,
        }
    }
}

/// The whole-percent completion of `downloaded` out of `total`:
/// truncated, 0 where the total is unknown, capped at `u32::MAX`.
pub open spec fn spec_percent(downloaded: u64, total: u64) -> int {
    if total == 0 {
        0
    } else if downloaded as int * 100 / total as int > u32::MAX {
        u32::MAX as int
    } else {
        downloaded as int * 100 / total as int
    }
}

/// Growing the downloaded count never lowers the percent.
pub proof fn lemma_percent_monotone(d1: u64, d2: u64, total: u64)
    requires
        d1 <= d2,
    ensures
        spec_percent(d1, total) <= spec_percent(d2, total),
{
    if total > 0 {
        lemma_div_is_ordered(d1 as int * 100, d2 as int * 100, total as int);
    }
}

fn percent_of(downloaded: u64, total: u64) -> (r: u32)
    ensures
        r == spec_percent(downloaded, total),
{
    if total == 0 {
        return 0;
    }
    let p: u128 = (downloaded as u128) * 100 / (total as u128);
    if p > (u32::MAX as u128) {
        u32::MAX
    } else {
        p as u32
    }
}

/// Progress accounting for one transfer. `downloaded` counts every
/// byte in the temp file, including those a previous attempt left
/// there; `last_percent` is the last whole-percent value reported.
pub struct DownloadTracker {
    pub model_id: String,
    pub downloaded: u64,
    pub total_bytes: u64,
    pub last_percent: u32,
}

impl DownloadTracker {
    /// The reported percent never runs ahead of the true completion.
    pub open spec fn wf(&self) -> bool {
        self.last_percent <= spec_percent(self.downloaded, self.total_bytes)
    }

    /// A tracker for a transfer that already holds
    /// `already_downloaded` bytes on disk out of `total_bytes`.
    pub fn new(model_id: String, already_downloaded: u64, total_bytes: u64) -> (r: DownloadTracker)
        ensures
            r.model_id@ == model_id@,
            r.downloaded == already_downloaded,
            r.total_bytes == total_bytes,
            r.last_percent == 0,
            r.wf(),
    {
        proof {
            if total_bytes > 0 {
                vstd::arithmetic::div_mod::lemma_div_pos_is_pos(
                    already_downloaded as int * 100,
                    total_bytes as int,
                );
            }
        }
        DownloadTracker { model_id, downloaded: already_downloaded, total_bytes, last_percent: 0 }
    }

    /// Accounts one received chunk. An event is emitted exactly when
    /// the whole-percent value moved, and every emitted event carries a
    /// strictly larger percent than every event before it: at most one
    /// event per distinct percent value.
    pub fn on_chunk(&mut self, chunk_len: u64) -> (r: Option<DownloadProgress>)
        requires
            old(self).wf(),
            old(self).downloaded + chunk_len <= u64::MAX,
        ensures
            final(self).downloaded == old(self).downloaded + chunk_len,
            final(self).total_bytes == old(self).total_bytes,
            final(self).model_id@ == old(self).model_id@,
            final(self).wf(),
            r is Some <==> spec_percent(
                (old(self).downloaded + chunk_len) as u64,
                old(self).total_bytes,
            ) != old(self).last_percent,
            r is Some ==> {
                let p = r.unwrap();
                &&& p.percent == spec_percent(final(self).downloaded, final(self).total_bytes)
                &&& p.percent > old(self).last_percent
                &&& p.downloaded_bytes == final(self).downloaded
                &&& p.total_bytes == final(self).total_bytes
                &&& p.model_id@ == old(self).model_id@
                &&& final(self).last_percent == p.percent
            },
            r is None ==> final(self).last_percent == old(self).last_percent,
    {
        proof {
            lemma_percent_monotone(
                self.downloaded,
                (self.downloaded + chunk_len) as u64,
                self.total_bytes,
            );
        }
        self.downloaded = self.downloaded + chunk_len;
        let current = percent_of(self.downloaded, self.total_bytes);
        if current != self.last_percent {
            self.last_percent = current;
            Some(
                DownloadProgress {
                    model_id: self.model_id.clone(),
                    downloaded_bytes: self.downloaded,
                    total_bytes: self.total_bytes,
                    percent: current,
                },
            )
        } else {
            None
        }
    }

    /// Reports the final 100% on success — once: nothing is emitted
    /// where a chunk already reported 100.
    pub fn finish(&mut self) -> (r: Option<DownloadProgress>)
        ensures
            final(self).last_percent == 100,
            final(self).downloaded == old(self).downloaded,
            final(self).total_bytes == old(self).total_bytes,
            final(self).model_id@ == old(self).model_id@,
            r is Some <==> old(self).last_percent != 100,
            r is Some ==> {
                let p = r.unwrap();
                &&& p.percent == 100
                &&& p.downloaded_bytes == old(self).total_bytes
                &&& p.total_bytes == old(self).total_bytes
                &&& p.model_id@ == old(self).model_id@
            },
    {
        if self.last_percent != 100 {
            self.last_percent = 100;
            Some(
                DownloadProgress {
                    model_id: self.model_id.clone(),
                    downloaded_bytes: self.total_bytes,
                    total_bytes: self.total_bytes,
                    percent: 100,
                },
            )
        } else {
            None
        }
    }
}

/// The per-chunk cancellation decision: a set flag aborts the
/// transfer with the dedicated cancellation error, leaving the partial
/// temp file in place for a later resume.
pub fn cancellation_check(cancelled: bool) -> (r: Result<(), AsrError>)
    ensures
        r is Ok <==> !cancelled,
        cancelled ==> (r.unwrap_err() matches AsrError::Cancelled(m) && m@ == ("下载已取消")@),
{
    if cancelled {
        Err(AsrError::Cancelled(String::from_str("下载已取消")))
    } else {
        Ok(())
    }
}

/// The lengths of the chunks a transfer delivered, summed.
pub open spec fn spec_sum(lens: Seq<u64>) -> int
    decreases lens.len(),
{
    if lens.len() == 0 {
        0
    } else {
        lens[0] + spec_sum(lens.drop_first())
    }
}

/// Law: a transfer resumed on a partial file of `offset` bytes whose
/// chunks sum to `total - offset` bytes leaves a file of exactly
/// `total` bytes, since every chunk is appended whole.
pub proof fn lemma_resume_assembles_total(offset: u64, lens: Seq<u64>, total: u64)
    requires
        offset <= total,
        spec_sum(lens) == total - offset,
    ensures
        offset + spec_sum(lens) == total,
{
}

} // verus!
