use vstd::prelude::*;
use vstd::arithmetic::power2::{pow2, lemma_pow2_unfold, lemma_pow2_strictly_increases, lemma2_to64_rest};

use crate::config::Config;
use std::io::Write;

verus! {

#[verifier::external_type_specification]
#[verifier::external_body]
pub struct ExIoError(std::io::Error);

/// What gzip compression at the fastest level (`flate2::write::GzEncoder`
/// with `Compression::fast()`, written to a `Vec`) gives for some bytes:
/// the compressed bytes, or `None` where the encoder reports an error.
pub uninterp spec fn gzip_fast(data: Seq<u8>) -> Option<Seq<u8>>;

/// The ten-byte gzip header that `GzEncoder::new` writes at
/// `Compression::fast()`: magic `1f 8b`, method 8 (deflate), no flags,
/// modification time 0, extra flags 4 (fastest), operating system 255.
pub open spec fn gzip_fast_header() -> Seq<u8> {
    seq![0x1fu8, 0x8bu8, 8u8, 0u8, 0u8, 0u8, 0u8, 0u8, 4u8, 255u8]
}

/// Whether some bytes are a gzip stream as `GzEncoder` at the fastest level
/// writes it: the fixed header, then at least the eight-byte trailer.
pub open spec fn is_gzip_stream(bytes: Seq<u8>) -> bool {
    &&& bytes.len() >= 18
    &&& bytes.subrange(0, 10) == gzip_fast_header()
}

/// Compresses bytes with `flate2::write::GzEncoder` at `Compression::fast()`
/// into a `Vec`: `write_all`, then `finish`. What is claimed: the outcome
/// depends on the bytes alone (it is `gzip_fast` of them), and the bytes of a
/// success begin with the fixed header that `GzBuilder::into_header` builds
/// (written to the empty `Vec` before anything else) and end with the
/// eight-byte CRC and length trailer of `try_finish`. That the deflate data
/// decompresses to the input, and that the encoder never fails on a `Vec`, is
/// not stated.
#[verifier::external_body]
pub fn gzip_compress(data: &[u8]) -> (r: Result<Vec<u8>, std::io::Error>)
    ensures
        match r {
            Ok(c) => gzip_fast(data@) == Some(c@) && is_gzip_stream(c@),
            Err(_) => gzip_fast(data@).is_none(),
        },
{
    let mut encoder = flate2::write::GzEncoder::new(Vec::new(), flate2::Compression::fast());
    encoder.write_all(data)?;
    encoder.finish()
}

/// Whether the body of a request carrying the JSON is gzip data: compression
/// is on and it succeeded.
pub open spec fn body_is_gzip(json: Seq<u8>, gzip: bool) -> bool {
    gzip && gzip_fast(json).is_some()
}

/// The body a request carries: the gzip-compressed JSON when compression is
/// on and succeeds, else the JSON itself.
pub open spec fn request_body_of(json: Seq<u8>, gzip: bool) -> Seq<u8> {
    if body_is_gzip(json, gzip) {
        gzip_fast(json).unwrap()
    } else {
        json
    }
}

/// A copy of some bytes.
pub fn copy_bytes(data: &[u8]) -> (v: Vec<u8>)
    ensures
        v@ == data@,
{
    let mut v: Vec<u8> = Vec::new();
    let mut i: usize = 0;
    while i < data.len()
        invariant
            i <= data@.len(),
            v@ == data@.subrange(0, i as int),
        decreases data@.len() - i,
    {
        v.push(data[i]);
        proof {
            assert(v@ =~= data@.subrange(0, i + 1));
        }
        i = i + 1;
    }
    proof {
        assert(v@ =~= data@);
    }
    v
}

/// The body after an attempt at compression: the compressed bytes if there
/// are any, else (compression failed) the JSON itself.
pub fn body_after_compression(json: &[u8], compressed: Option<Vec<u8>>) -> (body: Vec<u8>)
    ensures
        body@ == match compressed {
            Some(c) => c@,
            None => json@,
        },
{
    match compressed {
        Some(c) => c,
        None => copy_bytes(json),
    }
}

/// The body of a request carrying the given JSON, compressed if asked, and
/// whether it is gzip data.
pub fn request_body(json: &[u8], gzip: bool) -> (r: (Vec<u8>, bool))
    ensures
        r.0@ == request_body_of(json@, gzip),
        r.1 == body_is_gzip(json@, gzip),
        r.1 ==> is_gzip_stream(r.0@),
{
    if gzip {
        let compressed = match gzip_compress(json) {
            Ok(c) => Some(c),
            Err(_) => None,
        };
        let encoded = compressed.is_some();
        (body_after_compression(json, compressed), encoded)
    } else {
        (copy_bytes(json), false)
    }
}

/// An HTTP request to the ingestion API, ready to send: a POST to `url`
/// with bearer authentication, the headers in order, and the body.
#[derive(Debug)]
pub struct HttpRequest {
    pub url: String,
    pub bearer_token: String,
    pub headers: Vec<(String, String)>,
    pub body: Vec<u8>,
}

/// The headers of a request: the JSON content type, and the gzip content
/// encoding when the body is gzip data.
pub open spec fn request_headers_of(gzip_body: bool) -> Seq<(Seq<char>, Seq<char>)> {
    if gzip_body {
        seq![("Content-Type"@, "application/json"@), ("Content-Encoding"@, "gzip"@)]
    } else {
        seq![("Content-Type"@, "application/json"@)]
    }
}

/// The headers as pairs of character sequences.
pub open spec fn header_view(headers: Seq<(String, String)>) -> Seq<(Seq<char>, Seq<char>)> {
    headers.map_values(|h: (String, String)| (h.0@, h.1@))
}

/// The request that ships a JSON batch under a configuration. The body is
/// the gzip-compressed JSON when compression is on (and succeeds), and the
/// `Content-Encoding: gzip` header is sent exactly when the body is gzip data.
pub fn prepare_request(config: &Config, json: &[u8]) -> (r: HttpRequest)
    ensures
        r.url@ == config.endpoint@,
        r.bearer_token@ == config.token@,
        header_view(r.headers@) == request_headers_of(body_is_gzip(json@, config.gzip)),
        r.body@ == request_body_of(json@, config.gzip),
        body_is_gzip(json@, config.gzip) ==> is_gzip_stream(r.body@),
{
    let (body, encoded) = request_body(json, config.gzip);
    let mut headers: Vec<(String, String)> = Vec::new();
    headers.push(("Content-Type".to_owned(), "application/json".to_owned()));
    if encoded {
        headers.push(("Content-Encoding".to_owned(), "gzip".to_owned()));
    }
    proof {
        assert(header_view(headers@) =~= request_headers_of(encoded));
    }
    HttpRequest {
        url: config.endpoint.clone(),
        bearer_token: config.token.clone(),
        headers,
        body,
    }
}

/// Milliseconds to wait before retrying after failed attempt number `attempt`
/// (counted from 0): 100 ms, doubled for each attempt.
pub open spec fn backoff_ms(attempt: nat) -> nat {
    100 * pow2(attempt)
}

/// The largest attempt number after which a wait can still be computed in 64
/// bits: `100 * 2^57` fits in a `u64`, `100 * 2^58` does not.
pub const MAX_BACKOFF_ATTEMPT: u32 = 57;

/// The wait before the retry that follows failed attempt `attempt`.
pub fn backoff_millis(attempt: u32) -> (ms: u64)
    requires
        attempt <= MAX_BACKOFF_ATTEMPT,
    ensures
        ms == backoff_ms(attempt as nat),
{
    let mut p: u64 = 1;
    let mut i: u32 = 0;
    proof {
        lemma2_to64_rest();
        assert(pow2(0) == 1) by {
            vstd::arithmetic::power2::lemma2_to64();
        }
    }
    while i < attempt
        invariant
            i <= attempt <= MAX_BACKOFF_ATTEMPT,
            p == pow2(i as nat),
            pow2(57) == 0x200000000000000,
        decreases attempt - i,
    {
        proof {
            lemma_pow2_unfold((i + 1) as nat);
            if i + 1 < 57 {
                lemma_pow2_strictly_increases((i + 1) as nat, 57);
            }
        }
        p = p * 2;
        i = i + 1;
    }
    proof {
        if attempt < 57 {
            lemma_pow2_strictly_increases(attempt as nat, 57);
        }
    }
    100 * p
}

/// Doubling law of the backoff: each wait is twice the one before.
pub proof fn lemma_backoff_doubles(attempt: nat)
    ensures
        backoff_ms(attempt + 1) == 2 * backoff_ms(attempt),
        backoff_ms(0) == 100,
{
    lemma_pow2_unfold(attempt + 1);
    vstd::arithmetic::power2::lemma2_to64();
}

/// What the sender does after an attempt to deliver a batch.
#[derive(Debug, Clone, Copy, PartialEq, Eq, Structural)]
pub enum RetryStep {
    /// The batch was accepted; stop.
    Delivered,
    /// The attempt failed; wait this many milliseconds, then try again.
    RetryAfterMillis(u64),
    /// The last allowed attempt failed; the batch is dropped.
    GaveUp,
}

/// The decision after attempt `attempt` (from 0) with `max_retries` retries
/// allowed, given whether the attempt delivered the batch.
pub open spec fn retry_decision(attempt: nat, max_retries: nat, delivered: bool) -> RetryStep {
    if delivered {
        RetryStep::Delivered
    } else if attempt < max_retries {
        RetryStep::RetryAfterMillis(backoff_ms(attempt) as u64)
    } else {
        RetryStep::GaveUp
    }
}

/// Whether a decision ends the sending of a batch.
pub open spec fn is_final(step: RetryStep) -> bool {
    !(step is RetryAfterMillis)
}

/// The decisions taken for a sequence of attempt outcomes, up to and
/// including the first final one; outcomes after it are not looked at.
pub open spec fn retry_run(max_retries: nat, outcomes: Seq<bool>) -> Seq<RetryStep>
    decreases outcomes.len(),
{
    if outcomes.len() == 0 {
        Seq::empty()
    } else {
        let steps = retry_run(max_retries, outcomes.drop_last());
        if steps.len() > 0 && is_final(steps.last()) {
            steps
        } else {
            steps.push(retry_decision(steps.len(), max_retries, outcomes.last()))
        }
    }
}

/// Retry law: a batch is tried at most `max_retries + 1` times; the wait after
/// failed attempt `i` is `100 * 2^i` ms; the batch counts as delivered exactly
/// when an attempt succeeded, and is given up only after `max_retries + 1`
/// failed attempts. Stated where every wait fits in 64 bits.
pub proof fn lemma_retry_run(max_retries: nat, outcomes: Seq<bool>)
    requires
        max_retries <= MAX_BACKOFF_ATTEMPT + 1,
    ensures
        ({
            let steps = retry_run(max_retries, outcomes);
            &&& steps.len() <= outcomes.len()
            &&& steps.len() <= max_retries + 1
            &&& forall|i: int| 0 <= i < steps.len() - 1 ==> #[trigger] steps[i] == RetryStep::RetryAfterMillis(backoff_ms(i as nat) as u64) && !outcomes[i]
            &&& steps.len() > 0 ==> (steps.last() == RetryStep::Delivered <==> outcomes[steps.len() - 1])
            &&& steps.len() > 0 && steps.last() == RetryStep::GaveUp ==> steps.len() == max_retries + 1
            &&& steps.len() < outcomes.len() ==> steps.len() > 0 && is_final(steps.last())
        }),
    decreases outcomes.len(),
{
    if outcomes.len() > 0 {
        let prefix = outcomes.drop_last();
        lemma_retry_run(max_retries, prefix);
        let steps = retry_run(max_retries, prefix);
        if !(steps.len() > 0 && is_final(steps.last())) {
            let all = steps.push(retry_decision(steps.len(), max_retries, outcomes.last()));
            assert forall|i: int| 0 <= i < all.len() - 1 implies #[trigger] all[i] == RetryStep::RetryAfterMillis(backoff_ms(i as nat) as u64) && !outcomes[i] by {
                assert(all[i] == steps[i]);
                assert(outcomes[i] == prefix[i]);
                if i == steps.len() - 1 {
                    assert(!is_final(steps.last()));
                }
            }
            if steps.len() > 0 {
                assert(!is_final(steps.last()));
                assert(steps.last() == RetryStep::RetryAfterMillis(backoff_ms((steps.len() - 1) as nat) as u64) || steps.len() == 1);
            }
        } else {
            assert forall|i: int| 0 <= i < steps.len() - 1 implies #[trigger] steps[i] == RetryStep::RetryAfterMillis(backoff_ms(i as nat) as u64) && !outcomes[i] by {
                assert(outcomes[i] == prefix[i]);
            }
            assert(outcomes[steps.len() - 1] == prefix[steps.len() - 1]);
        }
    }
}

/// The retry schedule for one batch: which attempt is next, how many retries
/// are allowed, and whether sending is over.
pub struct RetrySchedule {
    attempt: u32,
    max_retries: u32,
    finished: bool,
}

impl RetrySchedule {
    #[verifier::type_invariant]
    spec fn within(self) -> bool {
        self.attempt <= self.max_retries
    }

    /// The number of the next attempt, from 0.
    pub closed spec fn next_attempt(self) -> nat {
        self.attempt as nat
    }

    /// The retries allowed after the first attempt.
    pub closed spec fn retries(self) -> nat {
        self.max_retries as nat
    }

    /// Whether the batch was delivered or given up.
    pub closed spec fn is_finished(self) -> bool {
        self.finished
    }

    /// A schedule before the first attempt.
    pub fn new(max_retries: u32) -> (s: RetrySchedule)
        ensures
            s.next_attempt() == 0,
            s.retries() == max_retries,
            !s.is_finished(),
    {
        RetrySchedule { attempt: 0, max_retries, finished: false }
    }

    /// The number of the next attempt, from 0.
    pub fn attempt(&self) -> (a: u32)
        ensures
            a == self.next_attempt(),
            a <= self.retries(),
    {
        proof {
            use_type_invariant(self);
        }
        self.attempt
    }

    /// Whether sending is over.
    pub fn finished(&self) -> (b: bool)
        ensures
            b == self.is_finished(),
    {
        self.finished
    }

    /// Record the outcome of the current attempt and decide what follows, as
    /// `retry_decision` says. A retry moves on to the next attempt.
    pub fn on_outcome(&mut self, delivered: bool) -> (step: RetryStep)
        requires
            !old(self).is_finished(),
            delivered || old(self).next_attempt() >= old(self).retries() || old(self).next_attempt()
                <= MAX_BACKOFF_ATTEMPT,
        ensures
            step == retry_decision(old(self).next_attempt(), old(self).retries(), delivered),
            final(self).retries() == old(self).retries(),
            final(self).is_finished() == is_final(step),
            final(self).next_attempt() == if step is RetryAfterMillis {
                old(self).next_attempt() + 1
            } else {
                old(self).next_attempt()
            },
    {
        proof {
            use_type_invariant(&*self);
        }
        if delivered {
            self.finished = true;
            RetryStep::Delivered
        } else if self.attempt < self.max_retries {
            let ms = backoff_millis(self.attempt);
            self.attempt = self.attempt + 1;
            RetryStep::RetryAfterMillis(ms)
        } else {
            self.finished = true;
            RetryStep::GaveUp
        }
    }
}

} // verus!
