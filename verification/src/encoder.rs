//! Encoding the gauges into exposition-format text.
//!
//! The encoder writes through a [`MetricsSink`], the one fallible seam of
//! the pipeline: encoding fails exactly when the sink refuses a write.
//! [`BufferSink`] is the in-memory sink used in production, whose writes
//! never fail; [`FailingSink`] refuses every write, so that the failure
//! path can be exercised.

use vstd::prelude::*;
use vstd::string::StringExecFns;

use crate::decimal::u64_to_dec_string;
use crate::exposition::gauge_block;
use crate::exposition::metrics_payload;

verus! {

/// The error of a failed encode: the sink refused a write.
#[derive(Debug)]
pub struct EncodeError {
    /// A human-readable description of the failed write.
    pub message: String,
}

/// A text-accumulating sink with fallible writes.
///
/// `fails()` says whether this sink refuses writes; it is fixed for the
/// sink's lifetime. A write succeeds if and only if the sink does not fail,
/// and a successful write appends exactly the given text to `buffered()`.
pub trait MetricsSink: Sized {
    /// The text accepted so far.
    spec fn buffered(&self) -> Seq<char>;

    /// Whether this sink refuses writes.
    spec fn fails(&self) -> bool;

    /// Appends `text` to the buffered text, or refuses.
    fn write_text(&mut self, text: &str) -> (r: Result<(), EncodeError>)
        ensures
            final(self).fails() == old(self).fails(),
            !old(self).fails() ==> r is Ok && final(self).buffered() == old(self).buffered()
                + text@,
            old(self).fails() ==> r is Err && final(self).buffered() == old(self).buffered(),
    ;

    /// Hands the buffered text out.
    fn into_buffer(self) -> (r: String)
        ensures
            r@ == self.buffered(),
    ;
}

/// The production sink: an in-memory buffer whose writes always succeed.
pub struct BufferSink {
    /// The accumulated text.
    pub buffer: String,
}

impl BufferSink {
    /// An empty buffer sink.
    pub fn new() -> (r: BufferSink)
        ensures
            r.buffered() == Seq::<char>::empty(),
            !r.fails(),
    {
        BufferSink { buffer: String::new() }
    }
}

impl MetricsSink for BufferSink {
    open spec fn buffered(&self) -> Seq<char> {
        self.buffer@
    }

    open spec fn fails(&self) -> bool {
        false
    }

    fn write_text(&mut self, text: &str) -> (r: Result<(), EncodeError>) {
        self.buffer.append(text);
        Ok(())
    }

    fn into_buffer(self) -> (r: String) {
        self.buffer
    }
}

/// A sink that refuses every write, for exercising the failure path.
pub struct FailingSink {}

impl MetricsSink for FailingSink {
    open spec fn buffered(&self) -> Seq<char> {
        Seq::empty()
    }

    open spec fn fails(&self) -> bool {
        true
    }

    fn write_text(&mut self, _text: &str) -> (r: Result<(), EncodeError>) {
        Err(EncodeError { message: String::from_str("the sink refused the write") })
    }

    fn into_buffer(self) -> (r: String) {
        String::new()
    }
}

/// Writes gauges in the exposition format to a sink, stamping every sample
/// line with one shared timestamp in milliseconds.
pub struct MetricsEncoder<S: MetricsSink> {
    /// Where the encoded text goes.
    pub sink: S,
    /// The shared sample timestamp, in milliseconds since the epoch.
    pub now_millis: u64,
}

impl<S: MetricsSink> MetricsEncoder<S> {
    /// The text written so far.
    pub open spec fn buffered(&self) -> Seq<char> {
        self.sink.buffered()
    }

    /// Whether the underlying sink refuses writes.
    pub open spec fn fails(&self) -> bool {
        self.sink.fails()
    }

    /// An encoder over `sink` whose sample lines all carry `now_millis`.
    pub fn new(sink: S, now_millis: u64) -> (r: Self)
        ensures
            r.sink == sink,
            r.now_millis == now_millis,
    {
        MetricsEncoder { sink, now_millis }
    }

    /// Writes one gauge record (HELP line, TYPE line, sample line). On a
    /// non-failing sink this succeeds and appends exactly the record; on a
    /// failing sink it returns the error and appends nothing.
    pub fn encode_gauge(&mut self, name: &str, value: &str, help: &str) -> (r: Result<
        (),
        EncodeError,
    >)
        ensures
            final(self).now_millis == old(self).now_millis,
            final(self).fails() == old(self).fails(),
            !old(self).fails() ==> r is Ok && final(self).buffered() == old(self).buffered()
                + gauge_block(name@, value@, help@, old(self).now_millis as nat),
            old(self).fails() ==> r is Err && final(self).buffered() == old(self).buffered(),
    {
        let mut text = String::new();
        text.append("# HELP ");
        text.append(name);
        text.append(" ");
        text.append(help);
        text.append("\n");
        text.append("# TYPE ");
        text.append(name);
        text.append(" gauge");
        text.append("\n");
        text.append(name);
        text.append(" ");
        text.append(value);
        text.append(" ");
        let ts = u64_to_dec_string(self.now_millis);
        text.append(ts.as_str());
        text.append("\n");
        proof {
            assert(text@ =~= gauge_block(name@, value@, help@, self.now_millis as nat));
        }
        self.sink.write_text(text.as_str())
    }

    /// Hands the sink back.
    pub fn into_inner(self) -> (r: S)
        ensures
            r == self.sink,
    {
        self.sink
    }
}

/// Gauge values ready for exposition: each is the decimal text of one
/// gauge, as the host-side conversion rendered it.
pub struct GaugeValues {
    /// Stable memory size in binary gibibytes.
    pub stable_memory_gib: String,
    /// Wasm memory size in binary gibibytes.
    pub wasm_memory_gib: String,
    /// Cycles balance.
    pub cycles_balance: String,
}

/// Encodes the three metrics of this library, in the fixed order stable
/// memory, wasm memory, cycles balance. On a non-failing sink this returns
/// `Ok` and appends exactly the payload text; on a failing sink it returns
/// the first write's error and appends nothing.
pub fn encode_metrics<S: MetricsSink>(w: &mut MetricsEncoder<S>, values: &GaugeValues) -> (r:
    Result<(), EncodeError>)
    ensures
        final(w).now_millis == old(w).now_millis,
        final(w).fails() == old(w).fails(),
        !old(w).fails() ==> r is Ok && final(w).buffered() == old(w).buffered() + metrics_payload(
            values.stable_memory_gib@,
            values.wasm_memory_gib@,
            values.cycles_balance@,
            old(w).now_millis as nat,
        ),
        old(w).fails() ==> r is Err && final(w).buffered() == old(w).buffered(),
{
    match w.encode_gauge(
        "nx_gov_stable_memory_size_gib",
        values.stable_memory_gib.as_str(),
        "Amount of stable memory used by this canister, in GiB",
    ) {
        Ok(()) => {},
        Err(e) => {
            return Err(e);
        },
    }
    match w.encode_gauge(
        "nx_gov_wasm_memory_size_gib",
        values.wasm_memory_gib.as_str(),
        "Amount of wasm memory used by this canister, in GiB",
    ) {
        Ok(()) => {},
        Err(e) => {
            return Err(e);
        },
    }
    match w.encode_gauge(
        "nx_gov_canister_cycles_balance",
        values.cycles_balance.as_str(),
        "Amount of wasm memory used by this canister, in GiB",
    ) {
        Ok(()) => {},
        Err(e) => {
            return Err(e);
        },
    }
    proof {
        assert(w.buffered() =~= old(w).buffered() + metrics_payload(
            values.stable_memory_gib@,
            values.wasm_memory_gib@,
            values.cycles_balance@,
            old(w).now_millis as nat,
        ));
    }
    Ok(())
}

} // verus!
