//! Choosing one concrete capture format among those a device advertises.
use vstd::prelude::*;

verus! {

/// The native representation of one sample as delivered by the hardware.
#[derive(Clone, Copy, Debug, PartialEq, Eq, Structural)]
pub enum SampleFormat {
    F32,
    I32,
    I16,
    U16,
    U8,
    /// Any representation this library cannot convert.
    Unsupported,
}

/// One hardware-advertised combination of channel count, rate range and format.
#[derive(Clone, Copy, Debug, PartialEq, Eq, Structural)]
pub struct DeviceCapability {
    pub channels: u16,
    pub min_rate: u32,
    pub max_rate: u32,
    pub format: SampleFormat,
}

/// What the capture session asks for.
#[derive(Clone, Copy, Debug, PartialEq, Eq, Structural)]
pub struct CaptureConfig {
    pub target_sample_rate: u32,
    pub target_channels: u16,
    pub chunk_duration_ms: u32,
    /// Rate to prefer over `target_sample_rate` when present.
    pub preferred_rate: Option<u32>,
}

/// The result of negotiation: fixed for one capture run.
#[derive(Clone, Copy, Debug, PartialEq, Eq, Structural)]
pub struct ChosenFormat {
    pub sample_rate: u32,
    pub channels: u16,
    pub format: SampleFormat,
}

#[derive(Clone, Copy, Debug, PartialEq, Eq, Structural)]
pub enum NegotiationError {
    NoCompatibleDevice,
}

/// The rate negotiation aims for.
pub open spec fn preferred_rate(config: CaptureConfig) -> u32 {
    match config.preferred_rate {
        Some(r) => r,
        None => config.target_sample_rate,
    }
}

/// Rank of a format, best first; only meaningful for supported formats.
pub open spec fn format_rank(f: SampleFormat) -> int {
    match f {
        SampleFormat::F32 => 0,
        SampleFormat::I32 => 10,
        SampleFormat::I16 => 15,
        SampleFormat::U16 => 20,
        SampleFormat::U8 => 30,
        SampleFormat::Unsupported => 1000,
    }
}

pub open spec fn is_supported(f: SampleFormat) -> bool {
    f != SampleFormat::Unsupported
}

/// The preferred rate if the capability covers it, else the nearest bound.
pub open spec fn candidate_rate(c: DeviceCapability, preferred: u32) -> u32 {
    if c.min_rate <= preferred && preferred <= c.max_rate {
        preferred
    } else if preferred < c.min_rate {
        c.min_rate
    } else {
        c.max_rate
    }
}

pub open spec fn abs_diff(a: int, b: int) -> int {
    if a >= b {
        a - b
    } else {
        b - a
    }
}

/// Penalty of a capability, lower is better: the distance to the preferred
/// rate, plus a thousand per step of format rank.
pub open spec fn score(c: DeviceCapability, preferred: u32) -> int {
    abs_diff(candidate_rate(c, preferred) as int, preferred as int) + 1000 * format_rank(c.format)
}

pub open spec fn eligible(c: DeviceCapability, channels: u16) -> bool {
    c.channels == channels && is_supported(c.format)
}

pub open spec fn has_eligible(caps: Seq<DeviceCapability>, channels: u16) -> bool {
    exists|j: int| 0 <= j < caps.len() && eligible(#[trigger] caps[j], channels)
}

/// `i` is the first index of minimal score among the eligible entries of `caps[..n]`.
pub open spec fn best_in_prefix(
    caps: Seq<DeviceCapability>,
    channels: u16,
    preferred: u32,
    n: int,
    i: int,
) -> bool {
    &&& 0 <= i < n <= caps.len()
    &&& eligible(caps[i], channels)
    &&& forall|j: int|
        0 <= j < n && eligible(#[trigger] caps[j], channels) ==> score(caps[i], preferred) <= score(
            caps[j],
            preferred,
        )
    &&& forall|j: int|
        0 <= j < i && eligible(#[trigger] caps[j], channels) ==> score(caps[i], preferred) < score(
            caps[j],
            preferred,
        )
}

pub open spec fn is_best_index(caps: Seq<DeviceCapability>, channels: u16, preferred: u32, i: int) -> bool {
    best_in_prefix(caps, channels, preferred, caps.len() as int, i)
}

pub open spec fn chosen_from(c: DeviceCapability, preferred: u32) -> ChosenFormat {
    ChosenFormat { sample_rate: candidate_rate(c, preferred), channels: c.channels, format: c.format }
}

/// The index negotiation picks, when there is one.
pub open spec fn best_index(caps: Seq<DeviceCapability>, channels: u16, preferred: u32) -> int {
    choose|i: int| #[trigger] is_best_index(caps, channels, preferred, i)
}

/// Negotiation for a channel count and a preferred rate.
pub open spec fn negotiated(caps: Seq<DeviceCapability>, channels: u16, preferred: u32) -> Result<
    ChosenFormat,
    NegotiationError,
> {
    if has_eligible(caps, channels) {
        Ok(chosen_from(caps[best_index(caps, channels, preferred)], preferred))
    } else {
        Err(NegotiationError::NoCompatibleDevice)
    }
}

/// What `select` returns.
pub open spec fn negotiation_result(caps: Seq<DeviceCapability>, config: CaptureConfig) -> Result<
    ChosenFormat,
    NegotiationError,
> {
    negotiated(caps, config.target_channels, preferred_rate(config))
}

/// At most one index is the best one.
pub proof fn lemma_best_unique(
    caps: Seq<DeviceCapability>,
    channels: u16,
    preferred: u32,
    i: int,
    k: int,
)
    requires
        is_best_index(caps, channels, preferred, i),
        is_best_index(caps, channels, preferred, k),
    ensures
        i == k,
{
    if i < k {
        assert(eligible(caps[i], channels));
    } else if k < i {
        assert(eligible(caps[k], channels));
    }
}

/// Whenever some entry is eligible, a best one exists among the first `n`.
proof fn lemma_best_exists_prefix(caps: Seq<DeviceCapability>, channels: u16, preferred: u32, n: int)
    requires
        0 <= n <= caps.len(),
        exists|j: int| 0 <= j < n && eligible(#[trigger] caps[j], channels),
    ensures
        exists|i: int| #[trigger] best_in_prefix(caps, channels, preferred, n, i),
    decreases n,
{
    let j = choose|j: int| 0 <= j < n && eligible(#[trigger] caps[j], channels);
    if exists|j2: int| 0 <= j2 < n - 1 && eligible(#[trigger] caps[j2], channels) {
        lemma_best_exists_prefix(caps, channels, preferred, n - 1);
        let b = choose|i: int| #[trigger] best_in_prefix(caps, channels, preferred, n - 1, i);
        if eligible(caps[n - 1], channels) && score(caps[n - 1], preferred) < score(caps[b], preferred) {
            assert(best_in_prefix(caps, channels, preferred, n, n - 1));
        } else {
            assert(best_in_prefix(caps, channels, preferred, n, b));
        }
    } else {
        assert(j == n - 1);
        assert(best_in_prefix(caps, channels, preferred, n, n - 1));
    }
}

pub proof fn lemma_best_exists(caps: Seq<DeviceCapability>, ch: u16, pref: u32)
    requires
        has_eligible(caps, ch),
    ensures
        is_best_index(caps, ch, pref, best_index(caps, ch, pref)),
{
    lemma_best_exists_prefix(caps, ch, pref, caps.len() as int);
    let i = choose|i: int| #[trigger] best_in_prefix(caps, ch, pref, caps.len() as int, i);
    assert(is_best_index(caps, ch, pref, i));
}

fn rank_of(f: SampleFormat) -> (r: u64)
    ensures
        r == format_rank(f),
{
    match f {
        SampleFormat::F32 => 0,
        SampleFormat::I32 => 10,
        SampleFormat::I16 => 15,
        SampleFormat::U16 => 20,
        SampleFormat::U8 => 30,
        SampleFormat::Unsupported => 1000,
    }
}

fn supported(f: SampleFormat) -> (r: bool)
    ensures
        r == is_supported(f),
{
    match f {
        SampleFormat::Unsupported => false,
        _ => true,
    }
}

/// The rate that capability `c` would run at.
pub fn rate_for(c: &DeviceCapability, preferred: u32) -> (r: u32)
    ensures
        r == candidate_rate(*c, preferred),
{
    if c.min_rate <= preferred && preferred <= c.max_rate {
        preferred
    } else if preferred < c.min_rate {
        c.min_rate
    } else {
        c.max_rate
    }
}

/// Score of `c` as defined by `score`.
pub fn score_of(c: &DeviceCapability, preferred: u32) -> (r: u64)
    ensures
        r == score(*c, preferred),
{
    let rate = rate_for(c, preferred);
    let diff: u64 = if rate >= preferred {
        (rate - preferred) as u64
    } else {
        (preferred - rate) as u64
    };
    diff + 1000 * rank_of(c.format)
}

/// Index of the first eligible capability of minimal score, if any.
pub fn best_capability(caps: &Vec<DeviceCapability>, channels: u16, preferred: u32) -> (r: Option<
    usize,
>)
    ensures
        r is None <==> !has_eligible(caps@, channels),
        r is Some ==> is_best_index(caps@, channels, preferred, r->0 as int),
{
    let mut best: Option<usize> = None;
    let mut best_score: u64 = 0;
    let mut k: usize = 0;
    while k < caps.len()
        invariant
            k <= caps.len(),
            best is None ==> forall|j: int| 0 <= j < k ==> !eligible(#[trigger] caps@[j], channels),
            best is Some ==> best_in_prefix(caps@, channels, preferred, k as int, best->0 as int)
                && best_score == score(caps@[best->0 as int], preferred),
        decreases caps.len() - k,
    {
        let c = &caps[k];
        if c.channels == channels && supported(c.format) {
            let s = score_of(c, preferred);
            match best {
                None => {
                    best = Some(k);
                    best_score = s;
                },
                Some(_) => {
                    if s < best_score {
                        best = Some(k);
                        best_score = s;
                    }
                },
            }
        }
        k = k + 1;
    }
    proof {
        if best is Some {
            assert(eligible(caps@[best->0 as int], channels));
        }
    }
    best
}

/// Negotiation for `channels` around the rate `preferred`.
pub fn negotiate_for(caps: &Vec<DeviceCapability>, channels: u16, preferred: u32) -> (r: Result<
    ChosenFormat,
    NegotiationError,
>)
    ensures
        r == negotiated(caps@, channels, preferred),
{
    match best_capability(caps, channels, preferred) {
        None => Err(NegotiationError::NoCompatibleDevice),
        Some(i) => {
            proof {
                lemma_best_exists(caps@, channels, preferred);
                lemma_best_unique(caps@, channels, preferred, i as int, best_index(caps@, channels, preferred));
            }
            let c = &caps[i];
            Ok(ChosenFormat { sample_rate: rate_for(c, preferred), channels: c.channels, format: c.format })
        },
    }
}

/// Picks a concrete format: among the capabilities with the requested channel
/// count and a supported format, the first one of minimal `score`, run at the
/// preferred rate (or the target rate when none is preferred) if its range
/// covers it, else at the nearest bound of its range.
pub fn select(caps: &Vec<DeviceCapability>, config: &CaptureConfig) -> (r: Result<
    ChosenFormat,
    NegotiationError,
>)
    ensures
        r == negotiation_result(caps@, *config),
{
    let preferred = match config.preferred_rate {
        Some(p) => p,
        None => config.target_sample_rate,
    };
    negotiate_for(caps, config.target_channels, preferred)
}

/// The rate capture prefers when nothing else is asked for.
pub const PREFERRED_SAMPLE_RATE: u32 = 16000;

/// Negotiation around the requested rate itself.
pub fn find_best_config(caps: &Vec<DeviceCapability>, target_sample_rate: u32, target_channels: u16) -> (r:
    Result<ChosenFormat, NegotiationError>)
    ensures
        r == negotiated(caps@, target_channels, target_sample_rate),
{
    negotiate_for(caps, target_channels, target_sample_rate)
}

/// Negotiation around `PREFERRED_SAMPLE_RATE`, whatever rate was requested.
pub fn find_best_config_with_priority(caps: &Vec<DeviceCapability>, target_channels: u16) -> (r: Result<
    ChosenFormat,
    NegotiationError,
>)
    ensures
        r == negotiated(caps@, target_channels, PREFERRED_SAMPLE_RATE),
{
    negotiate_for(caps, target_channels, PREFERRED_SAMPLE_RATE)
}

/// A capability whose range is not inverted.
pub open spec fn well_formed(c: DeviceCapability) -> bool {
    c.min_rate <= c.max_rate
}

/// When some capability has the target channel count and a supported format,
/// negotiation succeeds, and the chosen rate lies within the range of the
/// capability it was taken from, which has that channel count.
pub proof fn lemma_selected_rate_in_range(caps: Seq<DeviceCapability>, config: CaptureConfig)
    requires
        has_eligible(caps, config.target_channels),
        forall|i: int| 0 <= i < caps.len() ==> well_formed(#[trigger] caps[i]),
    ensures
        negotiation_result(caps, config) is Ok,
        ({
            let i = best_index(caps, config.target_channels, preferred_rate(config));
            let chosen = negotiation_result(caps, config)->Ok_0;
            &&& 0 <= i < caps.len()
            &&& caps[i].channels == config.target_channels
            &&& chosen.channels == config.target_channels
            &&& caps[i].min_rate <= chosen.sample_rate <= caps[i].max_rate
        }),
{
    lemma_best_exists(caps, config.target_channels, preferred_rate(config));
    let i = best_index(caps, config.target_channels, preferred_rate(config));
    assert(well_formed(caps[i]));
}

/// When no capability has the target channel count, negotiation fails with
/// `NoCompatibleDevice`.
pub proof fn lemma_no_matching_channels(caps: Seq<DeviceCapability>, config: CaptureConfig)
    requires
        forall|i: int| 0 <= i < caps.len() ==> (#[trigger] caps[i]).channels != config.target_channels,
    ensures
        negotiation_result(caps, config) == Err::<ChosenFormat, NegotiationError>(
            NegotiationError::NoCompatibleDevice,
        ),
{
    assert(!has_eligible(caps, config.target_channels));
}

} // verus!
