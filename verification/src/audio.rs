//! Input configuration selection.
//!
//! The device and its stream stay with the caller; this module picks the
//! best capture configuration from plain descriptions of what the device
//! supports: mono first, then fewer channels, then richer sample formats.

use vstd::prelude::*;

verus! {

/// A sample format a device offers, reduced to what the scoring needs.
#[derive(Debug, Clone, Copy, PartialEq, Eq, Structural)]
pub enum SampleKind {
    F32,
    I16,
    U16,
    Other,
}

/// One supported input configuration, as the caller read it off the
/// device.
#[derive(Debug, Clone, Copy, PartialEq, Eq, Structural)]
pub struct InputConfigDesc {
    pub min_sample_rate: u32,
    pub max_sample_rate: u32,
    pub channels: u16,
    pub kind: SampleKind,
}

/// Whether a configuration can serve the wanted rate at all: the rate
/// lies in its range and its format is one the capture path handles.
pub open spec fn config_eligible(c: InputConfigDesc, sample_rate: u32) -> bool {
    &&& c.min_sample_rate <= sample_rate
    &&& c.max_sample_rate >= sample_rate
    &&& c.kind != SampleKind::Other
}

/// The format preference: float first, then signed, then unsigned.
pub open spec fn format_score_spec(k: SampleKind) -> int {
    match k {
        SampleKind::F32 => 3,
        SampleKind::I16 => 2,
        SampleKind::U16 => 1,
        SampleKind::Other => 0,
    }
}

/// The channel preference: mono wins outright, then fewer channels beat
/// more (counted in the low byte, saturating at ten).
pub open spec fn channel_score_spec(ch: u16) -> int {
    let low = (ch as int) % 256;
    if ch == 1 {
        20
    } else if low >= 10 {
        0
    } else {
        10 - low
    }
}

/// A configuration's total score.
pub open spec fn config_score(c: InputConfigDesc) -> int {
    channel_score_spec(c.channels) + format_score_spec(c.kind)
}

/// Pick the best eligible configuration: the earliest one of maximal
/// score, or nothing when none is eligible.
pub fn choose_input_config(configs: &Vec<InputConfigDesc>, sample_rate: u32) -> (r: Option<usize>)
    ensures
        r matches Some(i) ==> 0 <= i < configs@.len() && config_eligible(
            configs@[i as int],
            sample_rate,
        ) && forall|j: int|
            0 <= j < configs@.len() && config_eligible(#[trigger] configs@[j], sample_rate)
                ==> config_score(configs@[j]) < config_score(configs@[i as int]) || (config_score(
                configs@[j],
            ) == config_score(configs@[i as int]) && i <= j),
        r is None ==> forall|j: int|
            0 <= j < configs@.len() ==> !config_eligible(#[trigger] configs@[j], sample_rate),
{
    let mut best: Option<usize> = None;
    let mut best_score: u8 = 0;
    let mut k: usize = 0;
    while k < configs.len()
        invariant
            0 <= k <= configs@.len(),
            best matches Some(i) ==> 0 <= i < k && config_eligible(configs@[i as int], sample_rate)
                && best_score as int == config_score(configs@[i as int]) && forall|j: int|
                0 <= j < k && config_eligible(#[trigger] configs@[j], sample_rate) ==> config_score(
                    configs@[j],
                ) < best_score as int || (config_score(configs@[j]) == best_score as int && i <= j),
            best is None ==> forall|j: int|
                0 <= j < k ==> !config_eligible(#[trigger] configs@[j], sample_rate),
        decreases configs@.len() - k,
    {
        let c = configs[k];
        let eligible = c.min_sample_rate <= sample_rate && c.max_sample_rate >= sample_rate
            && !matches!(c.kind, SampleKind::Other);
        if eligible {
            let format_score: u8 = match c.kind {
                SampleKind::F32 => 3,
                SampleKind::I16 => 2,
                SampleKind::U16 => 1,
                SampleKind::Other => 0,
            };
            let low: u8 = (c.channels % 256) as u8;
            let channel_score: u8 = if c.channels == 1 {
                20
            } else if low >= 10 {
                0
            } else {
                10 - low
            };
            let score = channel_score + format_score;
            let replace = match best {
                Some(_) => score > best_score,
                None => true,
            };
            proof {
                assert(config_eligible(configs@[k as int], sample_rate));
                assert(channel_score as int == channel_score_spec(c.channels));
                assert(format_score as int == format_score_spec(c.kind));
                assert(score as int == config_score(configs@[k as int]));
            }
            if replace {
                best = Some(k);
                best_score = score;
            }
        } else {
            proof {
                assert(!config_eligible(configs@[k as int], sample_rate));
            }
        }
        k = k + 1;
    }
    best
}

} // verus!
