use vstd::prelude::*;

verus! {

/// Number of bars the spectrum analyzer reports.
pub const SPECTRUM_BANDS: usize = 16;

/// What the spectrum analyzer does with its bars after taking a sample.
#[derive(Clone, Copy, Debug, PartialEq, Eq, Structural)]
pub enum SpectrumStep {
    /// Recompute every bar from the buffered samples.
    Refresh,
    /// Let every bar fall back a little.
    Decay,
    /// Leave the bars as they are.
    Hold,
}

/// The buffer after appending `sample` to `buf`, trimmed at the front to at most
/// `cap` entries when it was within `cap` before (one entry leaves at most).
pub open spec fn windowed<T>(buf: Seq<T>, sample: T, cap: nat) -> Seq<T> {
    if buf.len() + 1 > cap {
        buf.push(sample).drop_first()
    } else {
        buf.push(sample)
    }
}

/// The schedule of the spectrum analyzer, by the number of samples seen so far
/// and the number it holds: a full refresh every 64 samples once 128 are held,
/// else a decay every 32 samples.
pub open spec fn spectrum_step_for(count: nat, buffered: nat) -> SpectrumStep {
    if count % 64 == 0 && buffered >= 128 {
        SpectrumStep::Refresh
    } else if count % 32 == 0 {
        SpectrumStep::Decay
    } else {
        SpectrumStep::Hold
    }
}

/// Appends `sample` and drops the oldest entry once the buffer outgrows `cap`.
pub fn push_windowed<T>(buf: &mut Vec<T>, sample: T, cap: usize)
    requires
        old(buf)@.len() < usize::MAX,
    ensures
        final(buf)@ == windowed(old(buf)@, sample, cap as nat),
{
    buf.push(sample);
    if buf.len() > cap {
        buf.remove(0);
    }
}

/// Samples the spectrum analyzer keeps: a twentieth of a second of audio, and
/// never fewer than 1024.
pub fn spectrum_window_len(sample_rate: u32) -> (n: usize)
    ensures
        n == (if sample_rate / 20 > 1024 {
            (sample_rate / 20) as int
        } else {
            1024
        }),
{
    let n: usize = sample_rate as usize / 20;
    if n > 1024 {
        n
    } else {
        1024
    }
}

/// Samples the equalizer analyses: a hundredth of a second of audio, and never
/// fewer than 256.
pub fn equalizer_window_len(sample_rate: u32) -> (n: usize)
    ensures
        n == (if sample_rate / 100 > 256 {
            (sample_rate / 100) as int
        } else {
            256
        }),
{
    let n: usize = sample_rate as usize / 100;
    if n > 256 {
        n
    } else {
        256
    }
}

/// What the spectrum analyzer does after its `count`-th sample while holding `buffered`.
pub fn spectrum_step(count: usize, buffered: usize) -> (step: SpectrumStep)
    ensures
        step == spectrum_step_for(count as nat, buffered as nat),
        count % 64 == 0 && buffered >= 128 ==> step == SpectrumStep::Refresh,
        count % 64 == 0 && buffered < 128 ==> step == SpectrumStep::Decay,
        count % 64 != 0 && count % 32 == 0 ==> step == SpectrumStep::Decay,
        count % 32 != 0 ==> step == SpectrumStep::Hold,
{
    if count % 64 == 0 && buffered >= 128 {
        SpectrumStep::Refresh
    } else if count % 32 == 0 {
        SpectrumStep::Decay
    } else {
        SpectrumStep::Hold
    }
}

/// The slice of a buffer of `buffer_len` samples that bar `band` of `bands`
/// summarizes: equal runs of `buffer_len / bands` samples from the front, or
/// `None` when that run is empty.
pub fn band_span(band: usize, buffer_len: usize, bands: usize) -> (span: Option<(usize, usize)>)
    requires
        0 < bands,
        band < bands,
    ensures
        ({
            let per: int = buffer_len as int / bands as int;
            if per == 0 {
                span is None
            } else {
                span matches Some((start, end)) && start == band as int * per && end == (band as int
                    + 1) * per
            }
        }),
        span matches Some((start, end)) ==> start < end <= buffer_len,
{
    let per: usize = buffer_len / bands;
    proof {
        assert(per * bands <= buffer_len) by (nonlinear_arith)
            requires
                per == buffer_len / bands,
                bands > 0,
        ;
        assert((band + 1) * per <= bands * per) by (nonlinear_arith)
            requires
                band + 1 <= bands,
        ;
        assert(band * per <= (band + 1) * per) by (nonlinear_arith);
    }
    let start: usize = band * per;
    let stop: usize = (band + 1) * per;
    let end: usize = if stop < buffer_len {
        stop
    } else {
        buffer_len
    };
    if start < end {
        proof {
            assert(per > 0) by (nonlinear_arith)
                requires
                    start < end,
                    start == band * per,
                    end <= (band + 1) * per,
            ;
        }
        Some((start, end))
    } else {
        proof {
            assert(per == 0) by (nonlinear_arith)
                requires
                    start >= end,
                    start == band * per,
                    end == (band + 1) * per,
                    per >= 0,
            ;
        }
        None
    }
}

/// The channel position after one more interleaved sample of a `channels`-channel stream.
pub fn next_channel(counter: u16, channels: u16) -> (next: u16)
    requires
        channels > 0,
    ensures
        next == (counter as int + 1) % channels as int,
{
    ((counter as u32 + 1) % channels as u32) as u16
}

/// Whether the sample at channel position `counter` is fed to the spectrum
/// analyzer: every sample of a mono stream, else the first channel's only.
pub fn captures_channel(counter: u16, channels: u16) -> (captured: bool)
    ensures
        captured == (channels == 1 || counter == 0),
{
    channels == 1 || counter == 0
}

/// On every 64th sample the bars are recomputed as soon as 128 samples are held,
/// and holding more never stops that; every other 32nd sample lets them decay,
/// and no other sample touches them.
pub proof fn law_spectrum_schedule(count: nat, buffered: nat, more: nat)
    ensures
        count % 64 == 0 && buffered >= 128 ==> spectrum_step_for(count, buffered)
            == SpectrumStep::Refresh,
        spectrum_step_for(count, buffered) == SpectrumStep::Refresh && more >= buffered
            ==> spectrum_step_for(count, more) == SpectrumStep::Refresh,
        count % 64 == 0 && buffered < 128 ==> spectrum_step_for(count, buffered)
            == SpectrumStep::Decay,
        count % 64 != 0 && count % 32 == 0 ==> spectrum_step_for(count, buffered)
            == SpectrumStep::Decay,
        count % 32 != 0 ==> spectrum_step_for(count, buffered) == SpectrumStep::Hold,
{
    assert(count % 64 == 0 ==> count % 32 == 0) by (nonlinear_arith);
}

/// A window that starts within its bound stays within it, whatever is pushed.
pub proof fn law_window_stays_bounded<T>(buf: Seq<T>, sample: T, cap: nat)
    requires
        buf.len() <= cap,
        cap > 0,
    ensures
        windowed(buf, sample, cap).len() <= cap,
        windowed(buf, sample, cap).last() == sample,
{
}

/// Until a window is full nothing is dropped: the new sample is simply appended.
pub proof fn law_window_keeps_all_until_full<T>(buf: Seq<T>, sample: T, cap: nat)
    requires
        buf.len() < cap,
    ensures
        windowed(buf, sample, cap) == buf.push(sample),
{
}

/// A full window drops exactly its oldest sample: what stays is the newer part,
/// in order, followed by the new sample.
pub proof fn law_window_drops_oldest<T>(buf: Seq<T>, sample: T, cap: nat)
    requires
        buf.len() == cap,
        cap > 0,
    ensures
        windowed(buf, sample, cap) == buf.drop_first().push(sample),
{
    assert(buf.push(sample).drop_first() =~= buf.drop_first().push(sample));
}

/// Counting channels comes back to the first channel after one sample per channel.
pub proof fn law_channels_cycle(counter: int, channels: int)
    requires
        0 <= counter < channels,
    ensures
        (counter + 1) % channels == (if counter + 1 == channels {
            0
        } else {
            counter + 1
        }),
{
    if counter + 1 == channels {
        vstd::arithmetic::div_mod::lemma_mod_self_0(channels);
    } else {
        vstd::arithmetic::div_mod::lemma_small_mod((counter + 1) as nat, channels as nat);
    }
}

} // verus!
