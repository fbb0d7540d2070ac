//! What a caller knows of a play, and what the model is told of it.
//!
//! A score is a record of optional fields: any subset of them may be present. It is
//! resolved into a state by one rule: an absent miss count is zero misses. Every
//! other field is forwarded when present and withheld when absent, so that the model
//! applies its own default for it. No combination of fields is rejected, and fields
//! are not checked against each other.
//!
//! The library never computes with an accuracy: it is a value of the caller's number
//! type `N`, handed on as it came.
//!
//! The settings of a state are what a calculator holds once the state has been
//! applied to it (see [`crate::model`]). The accuracy is not among them: where a
//! state has one, it is given to the calculator after all settings, because the
//! model derives hit counts from it on the spot.

use crate::model::{capped, Setting};
use vstd::prelude::*;

verus! {

/// The miss count that the model is told: the one given, or zero.
pub open spec fn misses_or_zero(miss_count: Option<usize>) -> usize {
    match miss_count {
        Some(n) => n,
        None => 0,
    }
}

/// `settings` with `value` under `key` where a value is present, else unchanged.
pub open spec fn with_setting(
    settings: Map<Setting, nat>,
    key: Setting,
    value: Option<usize>,
) -> Map<Setting, nat> {
    match value {
        Some(v) => settings.insert(key, v as nat),
        None => settings,
    }
}

/// The miss count that the model is told: the one given, or zero.
pub fn resolve_misses(miss_count: Option<usize>) -> (n: usize)
    ensures
        n == misses_or_zero(miss_count),
{
    match miss_count {
        Some(n) => n,
        None => 0,
    }
}

/// What is known of an osu!standard play.
#[derive(Clone, Copy, Debug, PartialEq)]
pub struct StdScore<N> {
    pub combo: Option<usize>,
    pub accuracy: Option<N>,
    /// The accuracy of the best play that is thought possible.
    pub potential_accuracy: Option<N>,
    pub n300: Option<usize>,
    pub n100: Option<usize>,
    pub n50: Option<usize>,
    pub miss_count: Option<usize>,
    pub passed_objects: Option<usize>,
}

/// What the model is told of an osu!standard play.
#[derive(Clone, Copy, Debug, PartialEq)]
pub struct StdState<N> {
    pub combo: Option<usize>,
    pub accuracy: Option<N>,
    pub n300: Option<usize>,
    pub n100: Option<usize>,
    pub n50: Option<usize>,
    pub miss_count: usize,
    pub passed_objects: Option<usize>,
}

/// The two states that an osu!standard score is evaluated in.
#[derive(Clone, Copy, Debug, PartialEq)]
pub struct StdStates<N> {
    /// The play as it was.
    pub achieved: StdState<N>,
    /// The best play that is thought possible.
    pub potential: StdState<N>,
}

impl<N> StdScore<N> {
    /// The play as it was: every field as given, and no misses where none are given.
    pub open spec fn achieved_state(self) -> StdState<N> {
        StdState {
            combo: self.combo,
            accuracy: self.accuracy,
            n300: self.n300,
            n100: self.n100,
            n50: self.n50,
            miss_count: misses_or_zero(self.miss_count),
            passed_objects: self.passed_objects,
        }
    }

    /// The best play that is thought possible: no misses, the potential accuracy in
    /// place of the accuracy, and nothing else of the play.
    pub open spec fn potential_state(self) -> StdState<N> {
        StdState {
            combo: None,
            accuracy: self.potential_accuracy,
            n300: None,
            n100: None,
            n50: None,
            miss_count: 0,
            passed_objects: None,
        }
    }

    /// Resolves the score into the state of the play as it was and the state of the
    /// best play that is thought possible.
    pub fn resolve(self) -> (states: StdStates<N>)
        ensures
            states.achieved == self.achieved_state(),
            states.potential == self.potential_state(),
    {
        let achieved = StdState {
            combo: self.combo,
            accuracy: self.accuracy,
            n300: self.n300,
            n100: self.n100,
            n50: self.n50,
            miss_count: resolve_misses(self.miss_count),
            passed_objects: self.passed_objects,
        };
        let potential = StdState {
            combo: None,
            accuracy: self.potential_accuracy,
            n300: None,
            n100: None,
            n50: None,
            miss_count: 0,
            passed_objects: None,
        };
        StdStates { achieved, potential }
    }
}

impl<N> StdState<N> {
    /// What an osu!standard calculator holds for this state under `mods`.
    pub open spec fn settings(self, mods: u32) -> Map<Setting, nat> {
        let s = map![Setting::Mods => mods as nat, Setting::Misses => self.miss_count as nat];
        let s = with_setting(s, Setting::PassedObjects, self.passed_objects);
        let s = with_setting(s, Setting::Combo, self.combo);
        let s = with_setting(s, Setting::N300, self.n300);
        let s = with_setting(s, Setting::N100, self.n100);
        with_setting(s, Setting::N50, self.n50)
    }
}

/// What is known of an osu!taiko play.
#[derive(Clone, Copy, Debug, PartialEq)]
pub struct TaikoScore<N> {
    pub combo: Option<usize>,
    pub accuracy: Option<N>,
    pub n300: Option<usize>,
    pub n100: Option<usize>,
    pub miss_count: Option<usize>,
    pub passed_objects: Option<usize>,
}

/// What the model is told of an osu!taiko play.
#[derive(Clone, Copy, Debug, PartialEq)]
pub struct TaikoState<N> {
    pub combo: Option<usize>,
    pub accuracy: Option<N>,
    pub n300: Option<usize>,
    pub n100: Option<usize>,
    pub miss_count: usize,
    pub passed_objects: Option<usize>,
}

impl<N> TaikoScore<N> {
    /// The play as it was: every field as given, and no misses where none are given.
    pub open spec fn state(self) -> TaikoState<N> {
        TaikoState {
            combo: self.combo,
            accuracy: self.accuracy,
            n300: self.n300,
            n100: self.n100,
            miss_count: misses_or_zero(self.miss_count),
            passed_objects: self.passed_objects,
        }
    }

    /// Resolves the score into the state that the model is told.
    pub fn resolve(self) -> (state: TaikoState<N>)
        ensures
            state == self.state(),
    {
        TaikoState {
            combo: self.combo,
            accuracy: self.accuracy,
            n300: self.n300,
            n100: self.n100,
            miss_count: resolve_misses(self.miss_count),
            passed_objects: self.passed_objects,
        }
    }
}

impl<N> TaikoState<N> {
    /// What an osu!taiko calculator holds for this state under `mods`, on a chart of
    /// `circles` circles: it never holds more misses than the chart has circles.
    pub open spec fn settings(self, mods: u32, circles: nat) -> Map<Setting, nat> {
        let s = map![
            Setting::Mods => mods as nat,
            Setting::Misses => capped(self.miss_count as nat, circles),
        ];
        let s = with_setting(s, Setting::PassedObjects, self.passed_objects);
        let s = with_setting(s, Setting::Combo, self.combo);
        let s = with_setting(s, Setting::N300, self.n300);
        with_setting(s, Setting::N100, self.n100)
    }
}

/// What is known of an osu!mania play. There is no miss count in this mode, so the
/// model is told the score as it stands.
#[derive(Clone, Copy, Debug, PartialEq, Eq)]
pub struct ManiaScore {
    pub score: Option<u32>,
    pub passed_objects: Option<usize>,
}

impl ManiaScore {
    /// What an osu!mania calculator holds for this score under `mods`.
    pub open spec fn settings(self, mods: u32) -> Map<Setting, nat> {
        let s = map![Setting::Mods => mods as nat];
        let s = with_setting(s, Setting::PassedObjects, self.passed_objects);
        match self.score {
            Some(v) => s.insert(Setting::Score, v as nat),
            None => s,
        }
    }
}

/// What is known of an osu!catch play.
#[derive(Clone, Copy, Debug, PartialEq, Eq)]
pub struct CatchScore {
    pub combo: Option<usize>,
    pub fruits: Option<usize>,
    pub droplets: Option<usize>,
    pub tiny_droplets: Option<usize>,
    pub tiny_droplet_misses: Option<usize>,
    pub miss_count: Option<usize>,
    pub passed_objects: Option<usize>,
}

/// What the model is told of an osu!catch play.
#[derive(Clone, Copy, Debug, PartialEq, Eq)]
pub struct CatchState {
    pub combo: Option<usize>,
    pub fruits: Option<usize>,
    pub droplets: Option<usize>,
    pub tiny_droplets: Option<usize>,
    pub tiny_droplet_misses: Option<usize>,
    pub miss_count: usize,
    pub passed_objects: Option<usize>,
}

impl CatchScore {
    /// The play as it was: every field as given, and no misses where none are given.
    pub open spec fn state(self) -> CatchState {
        CatchState {
            combo: self.combo,
            fruits: self.fruits,
            droplets: self.droplets,
            tiny_droplets: self.tiny_droplets,
            tiny_droplet_misses: self.tiny_droplet_misses,
            miss_count: misses_or_zero(self.miss_count),
            passed_objects: self.passed_objects,
        }
    }

    /// Resolves the score into the state that the model is told.
    pub fn resolve(self) -> (state: CatchState)
        ensures
            state == self.state(),
    {
        CatchState {
            combo: self.combo,
            fruits: self.fruits,
            droplets: self.droplets,
            tiny_droplets: self.tiny_droplets,
            tiny_droplet_misses: self.tiny_droplet_misses,
            miss_count: resolve_misses(self.miss_count),
            passed_objects: self.passed_objects,
        }
    }
}

impl CatchState {
    /// What an osu!catch calculator holds for this state under `mods`.
    pub open spec fn settings(self, mods: u32) -> Map<Setting, nat> {
        let s = map![Setting::Mods => mods as nat, Setting::Misses => self.miss_count as nat];
        let s = with_setting(s, Setting::PassedObjects, self.passed_objects);
        let s = with_setting(s, Setting::Combo, self.combo);
        let s = with_setting(s, Setting::Fruits, self.fruits);
        let s = with_setting(s, Setting::Droplets, self.droplets);
        let s = with_setting(s, Setting::TinyDroplets, self.tiny_droplets);
        with_setting(s, Setting::TinyDropletMisses, self.tiny_droplet_misses)
    }
}

} // verus!
