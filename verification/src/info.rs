//! Effect metadata handed to a hosting environment.
use vstd::prelude::*;
use crate::params::{param_count_spec, Profile};

verus! {

/// The identity an effect instance reports to its host: display name,
/// vendor, a stable numeric identifier, and its channel and parameter
/// counts.
pub struct EffectInfo {
    /// The effect's display name.
    pub name: String,
    /// The vendor string shown beside the name.
    pub vendor: String,
    /// A stable identifier that distinguishes the effect from others.
    pub unique_id: i32,
    /// Number of input channels.
    pub inputs: i32,
    /// Number of output channels.
    pub outputs: i32,
    /// Number of declared parameters.
    pub parameters: i32,
}

/// The display name of each profile.
pub open spec fn effect_name_spec(p: Profile) -> Seq<char> {
    match p {
        Profile::SingleClip => "Reznorify Clip"@,
        Profile::ThresholdGain => "Reznorify"@,
    }
}

/// The stable numeric identifier of each profile.
pub open spec fn unique_id_spec(p: Profile) -> int {
    match p {
        Profile::SingleClip => 450845847,
        Profile::ThresholdGain => 450845848,
    }
}

/// The metadata for an instance of the given profile: a stereo effect with
/// as many parameters as the profile declares.
pub fn effect_info(profile: Profile) -> (info: EffectInfo)
    ensures
        info.name@ == effect_name_spec(profile),
        info.vendor@ == "nicopellerin"@,
        info.unique_id as int == unique_id_spec(profile),
        info.inputs == 2,
        info.outputs == 2,
        info.parameters as int == param_count_spec(profile),
{
    match profile {
        Profile::SingleClip => EffectInfo {
            name: "Reznorify Clip".to_owned(),
            vendor: "nicopellerin".to_owned(),
            unique_id: 450845847,
            inputs: 2,
            outputs: 2,
            parameters: 1,
        },
        Profile::ThresholdGain => EffectInfo {
            name: "Reznorify".to_owned(),
            vendor: "nicopellerin".to_owned(),
            unique_id: 450845848,
            inputs: 2,
            outputs: 2,
            parameters: 2,
        },
    }
}

} // verus!
