//! The parameter store: the fixed, ordered list of control values for one
//! effect instance, with clamping writes and total, never-failing reads.
use vstd::prelude::*;
use crate::text::{centi_rep, centi_string, dec_rep, decimal_string};
use crate::{PARAM_FLOOR, VAL_MAX};

verus! {

/// Which of the two effect profiles an instance runs.
#[derive(Clone, Copy, PartialEq, Eq, Structural, Debug)]
pub enum Profile {
    /// One knob, `amount`: a hard clip to `[-amount, amount]` followed by
    /// normalization back to full scale.
    SingleClip,
    /// Two knobs, `threshold` and `gain`: the clipped value is computed and
    /// then superseded by a plain linear gain stage, so the audible result is
    /// the gain stage alone.
    ThresholdGain,
}

/// How many parameters a profile declares.
pub open spec fn param_count_spec(p: Profile) -> int {
    match p {
        Profile::SingleClip => 1,
        Profile::ThresholdGain => 2,
    }
}

/// The lower bound a write to parameter `i` is clamped to: the first
/// parameter of either profile is the clipping bound and is floored away from
/// zero; the gain knob may go as far negative as the representation allows.
pub open spec fn lower_bound_spec(i: int) -> int {
    if i == 0 {
        PARAM_FLOOR as int
    } else {
        -(VAL_MAX as int)
    }
}

/// The default value of parameter `i` of profile `p`, in hundredths.
pub open spec fn default_value_spec(p: Profile, i: int) -> int {
    match p {
        Profile::SingleClip => 100,
        Profile::ThresholdGain => if i == 0 {
            50
        } else {
            100
        },
    }
}

/// The display name of parameter `i` of profile `p`; empty for an index
/// outside the declared set.
pub open spec fn name_spec(p: Profile, i: int) -> Seq<char> {
    match p {
        Profile::SingleClip => if i == 0 {
            "Amount"@
        } else {
            Seq::<char>::empty()
        },
        Profile::ThresholdGain => if i == 0 {
            "Threshold"@
        } else if i == 1 {
            "Gain"@
        } else {
            Seq::<char>::empty()
        },
    }
}

/// The unit label of parameter `i` of profile `p`: the single-knob profile
/// shows its amount as a percentage; no other parameter carries a unit.
pub open spec fn label_spec(p: Profile, i: int) -> Seq<char> {
    match p {
        Profile::SingleClip => if i == 0 {
            "%"@
        } else {
            Seq::<char>::empty()
        },
        Profile::ThresholdGain => Seq::<char>::empty(),
    }
}

/// A write clamped into the admissible range of parameter `i`.
pub open spec fn clamped_spec(i: int, v: int) -> int {
    if v < lower_bound_spec(i) {
        lower_bound_spec(i)
    } else if v > VAL_MAX as int {
        VAL_MAX as int
    } else {
        v
    }
}

/// The control values of one effect instance. The first slot holds the
/// clipping bound (`amount` or `threshold`), the second the gain factor; a
/// profile with one parameter leaves the second slot at its default.
pub struct ParameterStore {
    /// The profile this instance was built for; fixed for its lifetime.
    pub profile: Profile,
    /// Parameter 0: the clipping bound, in hundredths.
    pub slot0: i64,
    /// Parameter 1: the gain factor, in hundredths.
    pub slot1: i64,
}

impl ParameterStore {
    /// Every stored value lies within the range writes are clamped to.
    pub open spec fn wf(self) -> bool {
        &&& PARAM_FLOOR <= self.slot0 <= VAL_MAX
        &&& -VAL_MAX <= self.slot1 <= VAL_MAX
    }

    /// The value a read of parameter `i` observes: the stored value for a
    /// declared index, and the neutral 0 for any other index.
    pub open spec fn value_spec(self, i: int) -> int {
        if 0 <= i < param_count_spec(self.profile) {
            if i == 0 {
                self.slot0 as int
            } else {
                self.slot1 as int
            }
        } else {
            0
        }
    }

    /// The store after a write of `v` to parameter `i`: the value is clamped
    /// into the parameter's range and stored for a declared index, and the
    /// write is a no-op for any other index.
    pub open spec fn set_spec(self, i: int, v: int) -> ParameterStore {
        if 0 <= i < param_count_spec(self.profile) {
            if i == 0 {
                ParameterStore { slot0: clamped_spec(0, v) as i64, ..self }
            } else {
                ParameterStore { slot1: clamped_spec(1, v) as i64, ..self }
            }
        } else {
            self
        }
    }

    /// A fresh store for the given profile, every parameter at its default.
    pub fn new(profile: Profile) -> (s: ParameterStore)
        ensures
            s.profile == profile,
            s.wf(),
            forall|i: int| s.value_spec(i) == if 0 <= i < param_count_spec(profile) {
                default_value_spec(profile, i)
            } else {
                0
            },
    {
        match profile {
            Profile::SingleClip => ParameterStore { profile, slot0: 100, slot1: 100 },
            Profile::ThresholdGain => ParameterStore { profile, slot0: 50, slot1: 100 },
        }
    }

    /// How many parameters this instance declares.
    pub fn parameter_count(&self) -> (n: usize)
        ensures
            n as int == param_count_spec(self.profile),
    {
        match self.profile {
            Profile::SingleClip => 1,
            Profile::ThresholdGain => 2,
        }
    }

    /// Reads parameter `index`; an index outside the declared set reads as 0.
    pub fn get(&self, index: usize) -> (v: i64)
        ensures
            v as int == self.value_spec(index as int),
    {
        if index < self.parameter_count() {
            if index == 0 {
                self.slot0
            } else {
                self.slot1
            }
        } else {
            0
        }
    }

    /// Writes `value` to parameter `index`, clamped into the parameter's
    /// range; a write to an index outside the declared set is a no-op.
    pub fn set(&mut self, index: usize, value: i64)
        ensures
            *final(self) == old(self).set_spec(index as int, value as int),
            old(self).wf() ==> final(self).wf(),
    {
        if index < self.parameter_count() {
            let lower: i64 = if index == 0 {
                PARAM_FLOOR
            } else {
                -VAL_MAX
            };
            let clamped: i64 = if value < lower {
                lower
            } else if value > VAL_MAX {
                VAL_MAX
            } else {
                value
            };
            if index == 0 {
                self.slot0 = clamped;
            } else {
                self.slot1 = clamped;
            }
        }
    }

    /// The display name of parameter `index`; an index outside the declared
    /// set reads as the empty string.
    pub fn name(&self, index: usize) -> (r: String)
        ensures
            r@ == name_spec(self.profile, index as int),
    {
        proof {
            reveal_strlit("");
            assert(""@ =~= Seq::<char>::empty());
        }
        match self.profile {
            Profile::SingleClip => {
                if index == 0 {
                    "Amount".to_owned()
                } else {
                    "".to_owned()
                }
            },
            Profile::ThresholdGain => {
                if index == 0 {
                    "Threshold".to_owned()
                } else if index == 1 {
                    "Gain".to_owned()
                } else {
                    "".to_owned()
                }
            },
        }
    }

    /// The unit label of parameter `index`; empty where the parameter carries
    /// no unit or the index is outside the declared set.
    pub fn label(&self, index: usize) -> (r: String)
        ensures
            r@ == label_spec(self.profile, index as int),
    {
        proof {
            reveal_strlit("");
            assert(""@ =~= Seq::<char>::empty());
        }
        match self.profile {
            Profile::SingleClip => {
                if index == 0 {
                    "%".to_owned()
                } else {
                    "".to_owned()
                }
            },
            Profile::ThresholdGain => "".to_owned(),
        }
    }

    /// The value of parameter `i` rendered as display text: the single-knob
    /// profile shows the raw count of hundredths (the amount as a
    /// percentage), the two-knob profile shows each value with exactly two
    /// decimal places; empty for an index outside the declared set.
    pub open spec fn display_spec(self, i: int) -> Seq<char> {
        match self.profile {
            Profile::SingleClip => if i == 0 {
                dec_rep(self.slot0 as nat)
            } else {
                Seq::<char>::empty()
            },
            Profile::ThresholdGain => if i == 0 {
                centi_rep(self.slot0 as int)
            } else if i == 1 {
                centi_rep(self.slot1 as int)
            } else {
                Seq::<char>::empty()
            },
        }
    }

    /// Renders the value of parameter `index` as display text.
    pub fn display_text(&self, index: usize) -> (r: String)
        requires
            self.wf(),
        ensures
            r@ == self.display_spec(index as int),
    {
        proof {
            reveal_strlit("");
            assert(""@ =~= Seq::<char>::empty());
        }
        match self.profile {
            Profile::SingleClip => {
                if index == 0 {
                    decimal_string(self.slot0 as u64)
                } else {
                    "".to_owned()
                }
            },
            Profile::ThresholdGain => {
                if index == 0 {
                    centi_string(self.slot0)
                } else if index == 1 {
                    centi_string(self.slot1)
                } else {
                    "".to_owned()
                }
            },
        }
    }
}

/// Writing `v` to the clipping-bound parameter and reading it back yields
/// exactly the floor when `v` lies below it, and exactly `v` otherwise (up to
/// the largest representable value, where the write is capped).
pub proof fn lemma_set_then_get_clamps(s: ParameterStore, v: i64)
    ensures
        v < PARAM_FLOOR ==> s.set_spec(0, v as int).value_spec(0) == PARAM_FLOOR as int,
        PARAM_FLOOR <= v <= VAL_MAX ==> s.set_spec(0, v as int).value_spec(0) == v as int,
{
}

/// A stored value always lies within the declared valid range: construction
/// puts every parameter there, and a write of any value whatever, to any
/// index whatever, keeps every parameter there, because out-of-range inputs
/// are clamped at write time rather than rejected.
pub proof fn lemma_set_preserves_wf(s: ParameterStore, i: int, v: int)
    requires
        s.wf(),
    ensures
        s.set_spec(i, v).wf(),
{
}

/// A read of an index outside the declared set observes the neutral 0, and a
/// write to such an index leaves every parameter of the store unchanged.
pub proof fn lemma_invalid_index_neutral(s: ParameterStore, i: int, v: int)
    requires
        !(0 <= i < param_count_spec(s.profile)),
    ensures
        s.value_spec(i) == 0,
        s.set_spec(i, v) == s,
        forall|j: int| s.set_spec(i, v).value_spec(j) == s.value_spec(j),
{
}

} // verus!
