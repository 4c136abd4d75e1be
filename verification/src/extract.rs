//! Validating a transient result and copying its data out.
//!
//! A compute call hands back a raw result pointer.  Before anything is read
//! from it, the pointer is checked non-null; a count field is checked
//! non-negative before it sizes any read; a data pointer guarded by a
//! positive count is checked non-null before the copy.  Only data copied
//! after these checks reaches an owned output value, and the transient
//! structure is destroyed exactly once, after the copy.  The unverified
//! shell performs the raw reads; the decisions — in this strict order —
//! are made here.

use vstd::prelude::*;

use crate::error::Error;

verus! {

/// Judge a raw result pointer before any field is read.  Null
/// short-circuits the whole extraction with [`Error::NullResult`].
pub fn check_result_present(result_addr: usize) -> (r: Result<(), Error>)
    ensures
        result_addr != 0 <==> r is Ok,
        result_addr == 0 ==> (r matches Err(e) && e == Error::NullResult),
{
    if result_addr == 0 {
        Err(Error::NullResult)
    } else {
        Ok(())
    }
}

/// Judge an audio result's header before its sample buffer is read: a
/// negative count short-circuits before the buffer pointer is even
/// considered, and a positive count with a null buffer refuses the read.
/// On success the returned value is the exact number of samples to copy.
pub fn audio_copy_len(n: i32, samples_addr: usize) -> (r: Result<usize, Error>)
    ensures
        n < 0 ==> (r matches Err(e) && e == Error::NegativeCount),
        n > 0 && samples_addr == 0 ==> (r matches Err(e) && e == Error::NullBuffer),
        n >= 0 && (n == 0 || samples_addr != 0) ==> (r matches Ok(c) && c == n),
{
    if n < 0 {
        Err(Error::NegativeCount)
    } else if n > 0 && samples_addr == 0 {
        Err(Error::NullBuffer)
    } else {
        Ok(n as usize)
    }
}

/// Generated audio copied out of a transient result: a sample sequence and
/// its rate, with the derived whole-unit duration.  The samples are the
/// engine's 32-bit values carried as raw bit patterns; this layer never
/// computes with them.
pub struct AudioBuffer {
    pub sample_bits: Vec<u32>,
    pub sample_rate: u32,
    pub duration: u32,
}

impl AudioBuffer {
    /// The duration is exactly the sample count divided by the rate,
    /// rounded toward zero — an intentionally coarse whole-unit measure.
    pub open spec fn wf(&self) -> bool {
        &&& self.sample_rate >= 1
        &&& self.duration == self.sample_bits@.len() as int / self.sample_rate as int
    }

    /// Own a validated sample copy.  The count was already checked against
    /// the result header, so it fits the engine's signed 32-bit count, and
    /// the rate was checked positive.
    pub fn from_engine(sample_bits: Vec<u32>, sample_rate: i32) -> (b: AudioBuffer)
        requires
            sample_rate >= 1,
            sample_bits@.len() <= i32::MAX,
        ensures
            b.sample_bits@ == sample_bits@,
            b.sample_rate == sample_rate,
            b.duration == sample_bits@.len() as int / sample_rate as int,
            b.wf(),
    {
        let rate = sample_rate as u32;
        let duration = (sample_bits.len() / (rate as usize)) as u32;
        AudioBuffer { sample_bits, sample_rate: rate, duration }
    }

    /// The derived duration in whole time units.
    pub fn duration(&self) -> (d: u32)
        ensures
            d == self.duration,
    {
        self.duration
    }
}

/// For any well-formed audio buffer the duration is the floor of the exact
/// quotient of sample count by sample rate: it undershoots the true length
/// by less than one unit, never overshoots.
pub proof fn lemma_duration_floor(b: AudioBuffer)
    requires
        b.wf(),
    ensures
        b.duration == b.sample_bits@.len() as int / b.sample_rate as int,
        b.duration * b.sample_rate <= b.sample_bits@.len(),
        b.sample_bits@.len() < (b.duration + 1) * b.sample_rate,
{
    let len = b.sample_bits@.len() as int;
    let rate = b.sample_rate as int;
    let d = b.duration as int;
    vstd::arithmetic::div_mod::lemma_fundamental_div_mod(len, rate);
    vstd::arithmetic::div_mod::lemma_mod_bound(len, rate);
    assert((d + 1) * rate == d * rate + rate) by (nonlinear_arith);
    assert(d * rate == rate * d) by (nonlinear_arith);
}

/// The transcript copied out of one recognition result.
#[derive(Debug)]
pub struct WhisperRecognizerResult {
    pub text: String,
}

impl WhisperRecognizerResult {
    /// Own the text field that the shell copied out of a present result.
    pub fn from_text(text: String) -> (r: WhisperRecognizerResult)
        ensures
            r.text@ == text@,
    {
        WhisperRecognizerResult { text }
    }
}

/// Judge one tag entry's pointer before its name is read: the engine
/// declared the entry, so a null entry refuses the read.
pub fn check_tag_entry(event_addr: usize) -> (r: Result<(), Error>)
    ensures
        event_addr != 0 <==> r is Ok,
        event_addr == 0 ==> (r matches Err(e) && e == Error::NullBuffer),
{
    if event_addr == 0 {
        Err(Error::NullBuffer)
    } else {
        Ok(())
    }
}

/// Accept the tag names copied out of a tagging result, exactly as the
/// engine ranked them.  A request for a negative number of tags is refused;
/// so is a result that did not hold the requested number of entries — the
/// engine's array is never read past what it actually returned.  On success
/// the output is the input order, element for element: no re-ranking.
pub fn extract_tags(names: Vec<String>, requested: i32) -> (r: Result<Vec<String>, Error>)
    ensures
        requested < 0 ==> (r matches Err(e) && e == Error::NegativeCount),
        requested >= 0 && names@.len() != requested ==> (r matches Err(e) && e
            == Error::NullBuffer),
        requested >= 0 && names@.len() == requested ==> (r matches Ok(v) && v@ == names@),
{
    if requested < 0 {
        Err(Error::NegativeCount)
    } else if names.len() != requested as usize {
        Err(Error::NullBuffer)
    } else {
        Ok(names)
    }
}

} // verus!
