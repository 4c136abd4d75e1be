//! Ordering one request against an existing handle.
//!
//! Recognition and tagging run through a per-call working stream: create the
//! stream, feed the input waveform, compute, read the result, and only then
//! destroy the stream.  Synthesis passes its texts directly to a generate
//! call.  The foreign calls are made by the unverified shell; [`StreamFlow`]
//! pins their order, so that the stream is never fed before it exists, never
//! computed before it is fed, and never destroyed before the result taken
//! from it has been extracted.  Exactly one compute call is made per logical
//! request: a failure is surfaced, never retried.

use vstd::prelude::*;

use crate::error::Error;
use crate::extract::{check_result_present, AudioBuffer, WhisperRecognizerResult};
use crate::extract::extract_tags;
use crate::marshal::{marshaled, text_ok, TransientStrings};

verus! {

/// Validate caller input before anything reaches the engine: the sample
/// sequence must be non-empty, and both the rate and the count must fit the
/// engine's positive signed 32-bit arguments.
pub fn validate_wave_input(sample_count: usize, sample_rate: u32) -> (r: Result<(), Error>)
    ensures
        sample_count == 0 ==> (r matches Err(e) && e == Error::EmptySamples),
        sample_count > 0 && (sample_rate == 0 || sample_rate > i32::MAX || sample_count
            > i32::MAX) ==> (r matches Err(e) && e == Error::InvalidSampleRate),
        1 <= sample_count <= i32::MAX && 1 <= sample_rate <= i32::MAX <==> r is Ok,
{
    if sample_count == 0 {
        Err(Error::EmptySamples)
    } else if sample_rate == 0 || sample_rate > i32::MAX as u32 || sample_count > i32::MAX
        as usize {
        Err(Error::InvalidSampleRate)
    } else {
        Ok(())
    }
}

/// Where one stream-based request stands.
pub enum FlowPhase {
    /// Nothing happened yet.
    Ready,
    /// The working stream exists.
    StreamOpen,
    /// The input waveform was fed to the stream.
    Fed,
    /// The compute call returned a raw result pointer.
    Computed,
    /// The result was extracted (or rejected); the transient result is gone.
    Extracted,
    /// The stream's destroy call was issued; nothing may touch it again.
    Closed,
}

/// The order of one recognition or tagging request.  Each step requires the
/// phase the previous step established, so a verified driver cannot feed a
/// stream that does not exist, fetch a result before computing, or destroy
/// the stream before extraction is over.
pub struct StreamFlow {
    phase: FlowPhase,
    stream_addr: usize,
    result_addr: usize,
}

impl StreamFlow {
    pub closed spec fn spec_phase(&self) -> FlowPhase {
        self.phase
    }

    /// The working stream's address, once the stream is open.
    pub closed spec fn spec_stream(&self) -> usize {
        self.stream_addr
    }

    /// The raw result pointer, once the compute call returned.
    pub closed spec fn spec_result(&self) -> usize {
        self.result_addr
    }

    /// A request about to start.
    pub fn begin() -> (f: StreamFlow)
        ensures
            f.spec_phase() is Ready,
    {
        StreamFlow { phase: FlowPhase::Ready, stream_addr: 0, result_addr: 0 }
    }

    /// Record the stream the engine created from the handle.
    pub fn open_stream(&mut self, stream_addr: usize)
        requires
            old(self).spec_phase() is Ready,
        ensures
            final(self).spec_phase() is StreamOpen,
            final(self).spec_stream() == stream_addr,
    {
        self.stream_addr = stream_addr;
        self.phase = FlowPhase::StreamOpen;
    }

    /// Marshal the waveform arguments for the accept call: the validated
    /// count and rate as the engine's signed 32-bit values.
    pub fn feed(&mut self, sample_count: usize, sample_rate: u32) -> (args: (i32, i32))
        requires
            old(self).spec_phase() is StreamOpen,
            sample_count <= i32::MAX,
            1 <= sample_rate <= i32::MAX,
        ensures
            final(self).spec_phase() is Fed,
            final(self).spec_stream() == old(self).spec_stream(),
            args.0 == sample_count,
            args.1 == sample_rate,
    {
        self.phase = FlowPhase::Fed;
        (sample_count as i32, sample_rate as i32)
    }

    /// Record the raw result pointer the compute call returned.
    pub fn computed(&mut self, result_addr: usize)
        requires
            old(self).spec_phase() is Fed,
        ensures
            final(self).spec_phase() is Computed,
            final(self).spec_stream() == old(self).spec_stream(),
            final(self).spec_result() == result_addr,
    {
        self.result_addr = result_addr;
        self.phase = FlowPhase::Computed;
    }

    /// The raw result pointer, for validation and extraction.
    pub fn result_addr(&self) -> (a: usize)
        requires
            self.spec_phase() is Computed,
        ensures
            a == self.spec_result(),
    {
        self.result_addr
    }

    /// Extraction is over: every needed field was copied out (or the result
    /// was rejected), and the transient result was destroyed exactly once.
    pub fn extraction_done(&mut self)
        requires
            old(self).spec_phase() is Computed,
        ensures
            final(self).spec_phase() is Extracted,
            final(self).spec_stream() == old(self).spec_stream(),
    {
        self.phase = FlowPhase::Extracted;
    }

    /// Give the stream up for its destroy call — reachable only after
    /// extraction, so the stream outlives every read taken through it.
    pub fn close(&mut self) -> (stream: usize)
        requires
            old(self).spec_phase() is Extracted,
        ensures
            final(self).spec_phase() is Closed,
            stream == old(self).spec_stream(),
    {
        self.phase = FlowPhase::Closed;
        self.stream_addr
    }
}

/// The marshaled images a synthesis call references, in staging order.
pub open spec fn synthesis_staged(text: Seq<char>, prompt: Seq<char>) -> Seq<Seq<u8>> {
    seq![marshaled(text), marshaled(prompt)]
}

/// The marshaled argument set of one zipvoice generate call.
pub struct ZipvoiceCallArgs {
    /// Where the call's text lives in the transient set.
    pub text_idx: usize,
    /// Where the prompt text lives in the transient set.
    pub prompt_idx: usize,
    /// The prompt sample count as the engine's signed 32-bit argument.
    pub prompt_count: i32,
    /// The prompt sample rate as the engine's signed 32-bit argument.
    pub prompt_rate: i32,
}

/// Marshal the call-scoped strings and numeric arguments of one zipvoice
/// generate call.  The transient set must stay alive until the call has
/// returned; it is released through the same completion step as every other
/// transient set.
pub fn plan_zipvoice_call(
    text: &str,
    prompt_text: &str,
    prompt_count: usize,
    prompt_rate: u32,
    strings: &mut TransientStrings,
) -> (args: ZipvoiceCallArgs)
    requires
        !old(strings).is_released(),
        old(strings).wf(),
        text_ok(text@),
        text_ok(prompt_text@),
        prompt_count <= i32::MAX,
        prompt_rate <= i32::MAX,
    ensures
        final(strings).entries() == old(strings).entries() + synthesis_staged(
            text@,
            prompt_text@,
        ),
        !final(strings).is_released(),
        final(strings).wf(),
        args.text_idx == old(strings).entries().len(),
        args.prompt_idx == old(strings).entries().len() + 1,
        args.prompt_count == prompt_count,
        args.prompt_rate == prompt_rate,
{
    let text_idx = strings.add(text);
    let prompt_idx = strings.add(prompt_text);
    assert(strings.entries() =~= old(strings).entries() + synthesis_staged(
        text@,
        prompt_text@,
    ));
    ZipvoiceCallArgs {
        text_idx,
        prompt_idx,
        prompt_count: prompt_count as i32,
        prompt_rate: prompt_rate as i32,
    }
}

/// Turn a recognition compute call's raw outcome into the owned transcript.
/// A null result pointer short-circuits before the text is touched; a
/// present result yields exactly the text the shell copied out.
pub fn bridge_recognition(result_addr: usize, text: String) -> (r: Result<
    WhisperRecognizerResult,
    Error,
>)
    ensures
        result_addr == 0 ==> (r matches Err(e) && e == Error::NullResult),
        result_addr != 0 ==> (r matches Ok(w) && w.text@ == text@),
{
    match check_result_present(result_addr) {
        Err(e) => Err(e),
        Ok(()) => Ok(WhisperRecognizerResult::from_text(text)),
    }
}

/// Turn a synthesis generate call's raw outcome into an owned audio buffer,
/// in the strict validation order: null result first, then the count's
/// sign, then the buffer pointer, and only then the copy.  `samples` is the
/// buffer's copied contents where the buffer pointer was non-null.
pub fn bridge_synthesis(
    result_addr: usize,
    n: i32,
    samples: Option<Vec<u32>>,
    sample_rate: i32,
) -> (r: Result<AudioBuffer, Error>)
    requires
        result_addr != 0 && n >= 0 ==> (samples matches Some(v) ==> v@.len() == n),
        result_addr != 0 && n >= 0 && (n == 0 || samples is Some) ==> sample_rate >= 1,
    ensures
        result_addr == 0 ==> (r matches Err(e) && e == Error::NullResult),
        result_addr != 0 && n < 0 ==> (r matches Err(e) && e == Error::NegativeCount),
        result_addr != 0 && n > 0 && samples is None ==> (r matches Err(e) && e
            == Error::NullBuffer),
        result_addr != 0 && n >= 0 && (n == 0 || samples is Some) ==> (r matches Ok(b) && b.wf()
            && b.sample_rate == sample_rate && b.sample_bits@.len() == n && b.duration == n as int
            / sample_rate as int),
{
    if let Err(e) = check_result_present(result_addr) {
        return Err(e);
    }
    if n < 0 {
        return Err(Error::NegativeCount);
    }
    let bits: Vec<u32> = match samples {
        Some(v) => v,
        None => {
            if n > 0 {
                return Err(Error::NullBuffer);
            }
            Vec::new()
        },
    };
    Ok(AudioBuffer::from_engine(bits, sample_rate))
}

/// Turn a tagging compute call's raw outcome into the owned, order-preserved
/// tag list.  A null result pointer short-circuits before any entry is
/// touched; a present result yields the engine's own ranking, element for
/// element.
pub fn bridge_tagging(result_addr: usize, names: Vec<String>, top_k: i32) -> (r: Result<
    Vec<String>,
    Error,
>)
    ensures
        result_addr == 0 ==> (r matches Err(e) && e == Error::NullResult),
        result_addr != 0 && top_k < 0 ==> (r matches Err(e) && e == Error::NegativeCount),
        result_addr != 0 && top_k >= 0 && names@.len() != top_k ==> (r matches Err(e) && e
            == Error::NullBuffer),
        result_addr != 0 && top_k >= 0 && names@.len() == top_k ==> (r matches Ok(v) && v@
            == names@),
{
    match check_result_present(result_addr) {
        Err(e) => Err(e),
        Ok(()) => extract_tags(names, top_k),
    }
}

} // verus!
