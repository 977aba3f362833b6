//! The output device's bookkeeping: what it was opened with, the rate it
//! agreed to, and how device writes and state decide what happens next.

use vstd::prelude::*;
use crate::audio::error::AudioError;
use crate::text::{concat2, decimal, decimal_string, owned};
use vstd::string::StringExecFns;

verus! {

/// The states of a PCM device that matter here.
#[derive(Debug, Clone, Copy, PartialEq, Eq, Structural)]
pub enum PcmStateKind {
    Open,
    Setup,
    Prepared,
    Running,
    XRun,
    Draining,
    Paused,
    Suspended,
    Disconnected,
}

/// Whether a device in this state has queued audio to drain or drop:
/// running or prepared.
pub fn has_pending_audio(state: PcmStateKind) -> (r: bool)
    ensures
        r == (state == PcmStateKind::Running || state == PcmStateKind::Prepared),
{
    match state {
        PcmStateKind::Running => true,
        PcmStateKind::Prepared => true,
        _ => false,
    }
}

/// How one interleaved write to the device went.
#[derive(Debug, PartialEq)]
pub enum DeviceWrite {
    /// The device took this many frames.
    Written(usize),
    /// The device ran dry (a broken pipe); the recovery then succeeded or
    /// failed with this message.
    Underrun(Result<(), String>),
    /// The write failed otherwise, with this message.
    Failed(String),
}

/// The result of a device write: the frames written; zero after an underrun
/// that was recovered from, so that the caller writes the chunk again; or
/// the device error.
pub fn write_result(w: DeviceWrite) -> (r: Result<usize, AudioError>)
    ensures
        match w {
            DeviceWrite::Written(n) => r == Ok::<usize, AudioError>(n),
            DeviceWrite::Underrun(Ok(())) => r == Ok::<usize, AudioError>(0),
            DeviceWrite::Underrun(Err(m)) => r matches Err(AudioError::AlsaError(e)) && e@
                == "ALSA recovery failed: "@ + m@,
            DeviceWrite::Failed(m) => r == Err::<usize, AudioError>(AudioError::AlsaError(m)),
        },
{
    match w {
        DeviceWrite::Written(n) => Ok(n),
        DeviceWrite::Underrun(Ok(())) => Ok(0),
        DeviceWrite::Underrun(Err(m)) => Err(
            AudioError::AlsaError(concat2("ALSA recovery failed: ", m.as_str())),
        ),
        DeviceWrite::Failed(m) => Err(AudioError::AlsaError(m)),
    }
}

/// The error for a sample rate the device refused.
pub fn rate_refused(rate: u32, cause: &str) -> (e: AudioError)
    ensures
        e matches AudioError::AlsaError(m) && m@ == "Failed to set sample rate "@ + decimal(
            rate as nat,
        ) + ": "@ + cause@,
{
    let mut m = owned("Failed to set sample rate ");
    m.append(decimal_string(rate as u64).as_str());
    m.append(": ");
    m.append(cause);
    AudioError::AlsaError(m)
}

/// The frames the device must hold before it starts playing: its buffer
/// less one period.
pub fn start_threshold(buffer_size: i64, period_size: i64) -> (r: i64)
    requires
        0 <= period_size <= buffer_size,
    ensures
        r == buffer_size - period_size,
{
    buffer_size - period_size
}

/// What the output device was opened with.
#[derive(Debug, Clone, Copy, PartialEq, Eq, Structural)]
pub struct DeviceSpec {
    pub rate: u32,
    pub channels: usize,
}

/// The output device's bookkeeping.
#[derive(Debug, Clone)]
pub struct AlsaPcmHandler {
    device_name: String,
    requested_spec: Option<DeviceSpec>,
    actual_rate: Option<u32>,
}

impl AlsaPcmHandler {
    /// The device's name.
    pub closed spec fn device(&self) -> Seq<char> {
        self.device_name@
    }

    /// What the open device was asked for, if it is open.
    pub closed spec fn requested(&self) -> Option<DeviceSpec> {
        self.requested_spec
    }

    /// The rate the open device agreed to, if it is open.
    pub closed spec fn rate(&self) -> Option<u32> {
        self.actual_rate
    }

    /// Bookkeeping for the device `device_name`, not yet opened.
    pub fn new(device_name: &str) -> (h: AlsaPcmHandler)
        ensures
            h.device() == device_name@,
            h.requested() is None,
            h.rate() is None,
    {
        AlsaPcmHandler { device_name: owned(device_name), requested_spec: None, actual_rate: None }
    }

    /// The device's name.
    pub fn device_name(&self) -> (r: &str)
        ensures
            r@ == self.device(),
    {
        self.device_name.as_str()
    }

    /// Records that the device was opened for `spec` and agreed to `rate`.
    pub fn record_initialized(&mut self, spec: DeviceSpec, rate: u32)
        ensures
            final(self).device() == old(self).device(),
            final(self).requested() == Some(spec),
            final(self).rate() == Some(rate),
    {
        self.requested_spec = Some(spec);
        self.actual_rate = Some(rate);
    }

    /// Records that the device was closed: nothing is requested or agreed.
    pub fn close(&mut self)
        ensures
            final(self).device() == old(self).device(),
            final(self).requested() is None,
            final(self).rate() is None,
    {
        self.requested_spec = None;
        self.actual_rate = None;
    }

    /// The rate the device agreed to, if it is open.
    pub fn get_actual_rate(&self) -> (r: Option<u32>)
        ensures
            r == self.rate(),
    {
        self.actual_rate
    }

    /// The channel count that frames are counted by: the opened spec's, or
    /// two before the device is opened.
    pub fn frame_channels(&self) -> (r: usize)
        ensures
            r == match self.requested() {
                Some(s) => s.channels,
                None => 2,
            },
    {
        match self.requested_spec {
            Some(s) => s.channels,
            None => 2,
        }
    }
}

} // verus!
