//! Wrapping the encoded metrics in an HTTP-style response.
//!
//! Building the response never fails: an encoder failure is converted into
//! a well-formed error response rather than propagated.

use vstd::prelude::*;
use vstd::string::StrSliceExecFns;
use vstd::string::StringExecFns;
use vstd::utf8::encode_utf8;

use crate::decimal::dec_rep;
use crate::decimal::u64_to_dec_string;
use crate::encoder::encode_metrics;
use crate::encoder::BufferSink;
use crate::encoder::GaugeValues;
use crate::encoder::MetricsEncoder;
use crate::encoder::MetricsSink;
use crate::exposition::metrics_payload;

verus! {

/// An HTTP-style response: status code, headers in insertion order, body.
pub struct HttpResponse {
    /// 200 on a successful encode, 500 on a failed one.
    pub status_code: u16,
    /// Header (name, value) pairs, insertion order preserved.
    pub headers: Vec<(String, String)>,
    /// The response body.
    pub body: Vec<u8>,
}

/// What the body of an error response starts with.
pub open spec fn encode_failure_prefix() -> Seq<char> {
    "Failed to encode metrics: "@
}

/// UTF-8 encoding distributes over concatenation.
pub proof fn lemma_encode_utf8_concat(a: Seq<char>, b: Seq<char>)
    ensures
        encode_utf8(a + b) == encode_utf8(a) + encode_utf8(b),
    decreases a.len(),
{
    if a.len() == 0 {
        assert(a + b =~= b);
        assert(encode_utf8(a) + encode_utf8(b) =~= encode_utf8(b));
    } else {
        assert((a + b).drop_first() =~= a.drop_first() + b);
        assert((a + b)[0] == a[0]);
        lemma_encode_utf8_concat(a.drop_first(), b);
        assert(encode_utf8(a + b) =~= encode_utf8(a) + encode_utf8(b));
    }
}

/// Encodes the metrics through the given sink and wraps the outcome in a
/// response.
///
/// With a non-failing sink the response has status 200, the content-type
/// and content-length headers, and as body the UTF-8 bytes of whatever the
/// sink already held followed by the payload text; the content-length value
/// is the decimal byte length of the body. With a failing sink it has
/// status 500, no headers, and a body that starts with the failure prefix
/// followed by the write error's description.
pub fn build_metrics_response<S: MetricsSink>(
    sink: S,
    now_millis: u64,
    values: &GaugeValues,
) -> (r: HttpResponse)
    ensures
        !sink.fails() ==> ({
            &&& r.status_code == 200
            &&& r.headers@.len() == 2
            &&& r.headers@[0].0@ == "Content-Type"@
            &&& r.headers@[0].1@ == "text/plain; version=0.0.4"@
            &&& r.headers@[1].0@ == "Content-Length"@
            &&& r.headers@[1].1@ == dec_rep(r.body@.len() as nat)
            &&& r.body@ == encode_utf8(
                sink.buffered() + metrics_payload(
                    values.stable_memory_gib@,
                    values.wasm_memory_gib@,
                    values.cycles_balance@,
                    now_millis as nat,
                ),
            )
        }),
        sink.fails() ==> ({
            &&& r.status_code == 500
            &&& r.headers@.len() == 0
            &&& r.body@.len() >= encode_utf8(encode_failure_prefix()).len()
            &&& r.body@.subrange(0, encode_utf8(encode_failure_prefix()).len() as int)
                == encode_utf8(encode_failure_prefix())
            &&& exists|m: Seq<char>|
                r.body@ == encode_utf8(#[trigger] (encode_failure_prefix() + m))
        }),
{
    let mut encoder = MetricsEncoder::new(sink, now_millis);
    match encode_metrics(&mut encoder, values) {
        Ok(()) => {
            let text = encoder.into_inner().into_buffer();
            let body = text.as_str().as_bytes_vec();
            let length = u64_to_dec_string(body.len() as u64);
            let mut headers: Vec<(String, String)> = Vec::new();
            headers.push(
                (String::from_str("Content-Type"), String::from_str("text/plain; version=0.0.4")),
            );
            headers.push((String::from_str("Content-Length"), length));
            HttpResponse { status_code: 200, headers, body }
        },
        Err(e) => {
            let mut text = String::from_str("Failed to encode metrics: ");
            text.append(e.message.as_str());
            let body = text.as_str().as_bytes_vec();
            proof {
                lemma_encode_utf8_concat(encode_failure_prefix(), e.message@);
                assert(body@ == encode_utf8(encode_failure_prefix() + e.message@));
                assert(body@.subrange(0, encode_utf8(encode_failure_prefix()).len() as int)
                    =~= encode_utf8(encode_failure_prefix()));
            }
            HttpResponse { status_code: 500, headers: Vec::new(), body }
        },
    }
}

/// Returns the metrics response: gauge values encoded in the exposition
/// format with `now_millis` as the shared sample timestamp, status 200, and
/// the content-type and content-length headers. Writing to the in-memory
/// buffer never fails, so this always succeeds.
pub fn get_metrics(now_millis: u64, values: &GaugeValues) -> (r: HttpResponse)
    ensures
        r.status_code == 200,
        r.headers@.len() == 2,
        r.headers@[0].0@ == "Content-Type"@,
        r.headers@[0].1@ == "text/plain; version=0.0.4"@,
        r.headers@[1].0@ == "Content-Length"@,
        r.headers@[1].1@ == dec_rep(r.body@.len() as nat),
        r.body@ == encode_utf8(
            metrics_payload(
                values.stable_memory_gib@,
                values.wasm_memory_gib@,
                values.cycles_balance@,
                now_millis as nat,
            ),
        ),
{
    let sink = BufferSink::new();
    proof {
        assert(Seq::<char>::empty() + metrics_payload(
            values.stable_memory_gib@,
            values.wasm_memory_gib@,
            values.cycles_balance@,
            now_millis as nat,
        ) =~= metrics_payload(
            values.stable_memory_gib@,
            values.wasm_memory_gib@,
            values.cycles_balance@,
            now_millis as nat,
        ));
    }
    build_metrics_response(sink, now_millis, values)
}

} // verus!
