//! Values that cross between the control plane and the audio callback.
//!
//! Models, resamplers, convolvers and oversamplers are large heap objects. The
//! library never looks inside one: it moves a handle, which carries the object's
//! identity and the few numbers that decisions are made on.

use vstd::arithmetic::power2::{lemma2_to64, pow2};
use vstd::prelude::*;

use crate::single::Single;

verus! {

/// Manual quality override of the adaptive engine.
#[derive(Clone, Copy, Debug, PartialEq, Eq, Structural)]
pub enum SlimOverride {
    /// The engine decides from the measured load.
    Auto,
    /// Full quality, whatever the load.
    ForceFull,
    /// Reduced quality, whatever the load.
    ForceLite,
}

/// Oversampling around the neural stage.
#[derive(Clone, Copy, Debug, PartialEq, Eq, Structural)]
pub enum OversampleFactor {
    /// No oversampling.
    Off,
    /// Twice the rate.
    X2,
    /// Four times the rate.
    X4,
}

impl OversampleFactor {
    /// The number under which a factor is requested: 0, 1 or 2.
    pub open spec fn code_spec(self) -> u32 {
        match self {
            OversampleFactor::Off => 0,
            OversampleFactor::X2 => 1,
            OversampleFactor::X4 => 2,
        }
    }

    /// The number under which this factor is requested.
    pub fn code(self) -> (r: u32)
        ensures
            r == self.code_spec(),
    {
        match self {
            OversampleFactor::Off => 0,
            OversampleFactor::X2 => 1,
            OversampleFactor::X4 => 2,
        }
    }

    /// The factor requested under `code`; an unknown number means none.
    pub fn from_code(code: u32) -> (r: Self)
        ensures
            code == 1 <==> r == OversampleFactor::X2,
            code == 2 <==> r == OversampleFactor::X4,
            code != 1 && code != 2 <==> r == OversampleFactor::Off,
    {
        if code == 1 {
            OversampleFactor::X2
        } else if code == 2 {
            OversampleFactor::X4
        } else {
            OversampleFactor::Off
        }
    }
}

/// Handle of a loaded neural model.
#[derive(Clone, Copy, Debug, PartialEq, Eq, Structural)]
pub struct StaticModel {
    /// Identity of the model object.
    pub id: u64,
    /// Whether this is a WaveNet with a run-time channel count.
    pub wavenet_dyn: bool,
    /// Channel count.
    pub channels: usize,
    /// Whether the model can be sliced to fewer channels.
    pub slimmable_capable: bool,
}

/// Handle of a resampler between the host rate and the model rate.
#[derive(Clone, Copy, Debug, PartialEq, Eq, Structural)]
pub struct NamResampler {
    /// Identity of the resampler object.
    pub id: u64,
    /// Rate on the host side.
    pub host_rate: u32,
    /// Rate on the model side.
    pub nam_rate: u32,
}

/// Handle of the streaming adapter that accompanies a resampler.
#[derive(Clone, Copy, Debug, PartialEq, Eq, Structural)]
pub struct StreamingResampleBuffer {
    /// Identity of the adapter object.
    pub id: u64,
}

/// Handle of a stereo pair of convolvers.
#[derive(Clone, Copy, Debug, PartialEq, Eq, Structural)]
pub struct CabSimPair {
    /// Identity of the pair.
    pub id: u64,
    /// Partition size both convolvers were built for.
    pub partition_size: usize,
    /// Host rate the impulse response was resampled to.
    pub sample_rate: u32,
}

/// Handle of an oversampling engine.
#[derive(Clone, Copy, Debug, PartialEq, Eq, Structural)]
pub struct OversampleEngine {
    /// Identity of the engine object.
    pub id: u64,
    /// The factor it runs at.
    pub factor: OversampleFactor,
}

/// Silence and mono gate settings.
#[derive(Clone, Copy, Debug, PartialEq, Eq, Structural)]
pub struct GateParams {
    /// Opening threshold, in dB.
    pub threshold_open_db: Single,
    /// Closing threshold, in dB.
    pub threshold_close_db: Single,
    /// Silent frames before the silence gate closes.
    pub hold_frames: usize,
    /// Frames of a fade.
    pub fade_frames: usize,
    /// Reciprocal of `fade_frames`.
    pub inv_fade_frames: Single,
    /// Channel difference below which a signal counts as mono.
    pub mono_epsilon: Single,
}

/// New models for both channels, with what they expect of the signal.
#[derive(Clone, Copy, Debug, PartialEq, Eq, Structural)]
pub struct LoadModel {
    /// Left channel.
    pub model_l: Option<StaticModel>,
    /// Right channel.
    pub model_r: Option<StaticModel>,
    /// Input multiplier the models expect.
    pub input_mult_adj: Single,
    /// Output multiplier the models expect.
    pub output_mult_adj: Single,
    /// Rate the models run at.
    pub sample_rate: u32,
}

/// A command of the control plane to the audio callback.
#[derive(Clone, Copy, Debug, PartialEq, Eq, Structural)]
pub enum ParamPayload {
    /// Sets the input gain multiplier.
    InputGain(Single),
    /// Sets the output gain multiplier.
    OutputGain(Single),
    /// Replaces the models of both channels.
    LoadModel(LoadModel),
    /// Sets the silence gate.
    GateConfig(GateParams),
    /// Sets the manual quality override.
    SlimOverride(SlimOverride),
    /// Asks for another oversampling factor.
    SetOversample(OversampleFactor),
}

/// A resampler built for one request.
#[derive(Clone, Copy, Debug, PartialEq, Eq, Structural)]
pub struct ResamplerSwapPayload {
    /// The request it answers.
    pub generation: u64,
    /// The resampler.
    pub resampler: NamResampler,
    /// Its streaming adapter.
    pub stream: StreamingResampleBuffer,
}

/// A cab-sim pair built for one request; no pair means bypass.
#[derive(Clone, Copy, Debug, PartialEq, Eq, Structural)]
pub struct CabSimSwapPayload {
    /// The request it answers.
    pub generation: u64,
    /// The pair.
    pub pair: Option<CabSimPair>,
}

/// Models of both channels, sliced for one request; no right model means mono.
#[derive(Clone, Copy, Debug, PartialEq, Eq, Structural)]
pub struct SlimModelPair {
    /// The request it answers.
    pub generation: u64,
    /// Channel count both models were sliced to.
    pub channels: usize,
    /// Left channel.
    pub l: Option<StaticModel>,
    /// Right channel.
    pub r: Option<StaticModel>,
}

/// Oversampling engines of both channels, built for one request.
#[derive(Clone, Copy, Debug, PartialEq, Eq, Structural)]
pub struct OsEnginePair {
    /// The request it answers.
    pub generation: u64,
    /// Left channel.
    pub l: OversampleEngine,
    /// Right channel.
    pub r: OversampleEngine,
}

/// The four kinds of object that are rebuilt off the audio thread.
#[derive(Clone, Copy, Debug, PartialEq, Eq, Structural)]
pub enum SwapFamily {
    /// Rate conversion.
    Resampler,
    /// Cabinet simulation.
    CabSim,
    /// Model pairs with another channel count.
    Slimmable,
    /// Oversampling.
    Oversample,
}

/// An envelope with rebuilt objects on its way to the audio callback.
#[derive(Clone, Copy, Debug, PartialEq, Eq, Structural)]
pub enum SwapPayload {
    /// A resampler.
    Resampler(ResamplerSwapPayload),
    /// A cab-sim pair.
    CabSim(CabSimSwapPayload),
    /// A model pair.
    Slimmable(SlimModelPair),
    /// An oversampling engine pair.
    Oversample(OsEnginePair),
}

impl SwapPayload {
    /// The family of the objects inside.
    pub open spec fn family_spec(self) -> SwapFamily {
        match self {
            SwapPayload::Resampler(_) => SwapFamily::Resampler,
            SwapPayload::CabSim(_) => SwapFamily::CabSim,
            SwapPayload::Slimmable(_) => SwapFamily::Slimmable,
            SwapPayload::Oversample(_) => SwapFamily::Oversample,
        }
    }

    /// The request that the envelope answers.
    pub open spec fn generation_spec(self) -> u64 {
        match self {
            SwapPayload::Resampler(p) => p.generation,
            SwapPayload::CabSim(p) => p.generation,
            SwapPayload::Slimmable(p) => p.generation,
            SwapPayload::Oversample(p) => p.generation,
        }
    }

    /// The envelope as a retired item.
    pub open spec fn retired_spec(self) -> GcItem {
        match self {
            SwapPayload::Resampler(p) => GcItem::ResamplerSwap(p),
            SwapPayload::CabSim(p) => GcItem::CabSimSwap(p),
            SwapPayload::Slimmable(p) => GcItem::SlimModelPair(p),
            SwapPayload::Oversample(p) => GcItem::OsEnginePair(p),
        }
    }

    /// The family of the objects inside.
    pub fn family(&self) -> (r: SwapFamily)
        ensures
            r == self.family_spec(),
    {
        match self {
            SwapPayload::Resampler(_) => SwapFamily::Resampler,
            SwapPayload::CabSim(_) => SwapFamily::CabSim,
            SwapPayload::Slimmable(_) => SwapFamily::Slimmable,
            SwapPayload::Oversample(_) => SwapFamily::Oversample,
        }
    }

    /// The request that the envelope answers.
    pub fn generation(&self) -> (r: u64)
        ensures
            r == self.generation_spec(),
    {
        match self {
            SwapPayload::Resampler(p) => p.generation,
            SwapPayload::CabSim(p) => p.generation,
            SwapPayload::Slimmable(p) => p.generation,
            SwapPayload::Oversample(p) => p.generation,
        }
    }

    /// Turns the envelope into a retired item.
    pub fn into_retired(self) -> (r: GcItem)
        ensures
            r == self.retired_spec(),
    {
        match self {
            SwapPayload::Resampler(p) => GcItem::ResamplerSwap(p),
            SwapPayload::CabSim(p) => GcItem::CabSimSwap(p),
            SwapPayload::Slimmable(p) => GcItem::SlimModelPair(p),
            SwapPayload::Oversample(p) => GcItem::OsEnginePair(p),
        }
    }
}

/// An object that left the audio callback and waits to be freed off it.
#[derive(Clone, Copy, Debug, PartialEq, Eq, Structural)]
pub enum GcItem {
    /// One model.
    Model(StaticModel),
    /// A resampler envelope.
    ResamplerSwap(ResamplerSwapPayload),
    /// A cab-sim envelope.
    CabSimSwap(CabSimSwapPayload),
    /// A model-pair envelope.
    SlimModelPair(SlimModelPair),
    /// An oversampling envelope.
    OsEnginePair(OsEnginePair),
}

/// A message to the recorder.
#[derive(Clone, Copy, Debug, PartialEq, Eq, Structural)]
pub enum ControlPayload {
    /// What audio is to come.
    Metadata {
        /// Frames per second.
        sample_rate: u32,
        /// Bits per sample.
        bit_depth: u16,
        /// Channels.
        channels: u16,
    },
}

/// A factor's number is how often the rate is doubled.
pub proof fn factor_number_counts_doublings(f: OversampleFactor)
    ensures
        f is Off ==> pow2(f.code_spec() as nat) == 1,
        f is X2 ==> pow2(f.code_spec() as nat) == 2,
        f is X4 ==> pow2(f.code_spec() as nat) == 4,
{
    lemma2_to64();
}

/// An envelope and its retired form hold the same objects, under the same
/// request, and the family tells what they are.
pub proof fn retired_envelope_keeps_its_objects(p: SwapPayload)
    ensures
        p.family_spec() is Resampler <==> p is Resampler,
        p.family_spec() is CabSim <==> p is CabSim,
        p.family_spec() is Slimmable <==> p is Slimmable,
        p.family_spec() is Oversample <==> p is Oversample,
        match p.retired_spec() {
            GcItem::Model(_) => false,
            GcItem::ResamplerSwap(x) => p == SwapPayload::Resampler(x) && p.generation_spec()
                == x.generation,
            GcItem::CabSimSwap(x) => p == SwapPayload::CabSim(x) && p.generation_spec()
                == x.generation,
            GcItem::SlimModelPair(x) => p == SwapPayload::Slimmable(x) && p.generation_spec()
                == x.generation,
            GcItem::OsEnginePair(x) => p == SwapPayload::Oversample(x) && p.generation_spec()
                == x.generation,
        },
{
}

} // verus!
