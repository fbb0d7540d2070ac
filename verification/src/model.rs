//! The performance model as this library drives it: the calculators of `rosu_pp`.
//!
//! A calculator is created for a chart and then told, one call at a time, what is
//! known of a play. This module declares the calculators to the verifier and states,
//! for every call that the library makes, what the call leaves in the calculator.
//! None of these statements is proved here: each one restates what the source of
//! `rosu_pp` does, and the doc comment above it says so.
//!
//! A calculator is described by two things: the chart it was created for, and its
//! settings, a map from [`Setting`] to the number held for it. A setting that the
//! calculator holds as an optional value is in the map exactly when a value is
//! present; the mod mask and the miss count are always present.

use rosu_pp::{Beatmap, FruitsPP, ManiaPP, OsuPP, TaikoPP};
use vstd::prelude::*;

verus! {

/// What a calculator can be told about a play.
#[derive(Clone, Copy, Debug, PartialEq, Eq, Structural)]
pub enum Setting {
    /// The mod mask.
    Mods,
    /// How many objects of the chart the play reached.
    PassedObjects,
    /// The longest combo of the play.
    Combo,
    /// The number of misses.
    Misses,
    /// The number of 300s.
    N300,
    /// The number of 100s.
    N100,
    /// The number of 50s.
    N50,
    /// The score of a mania play.
    Score,
    /// The number of fruits caught.
    Fruits,
    /// The number of droplets caught.
    Droplets,
    /// The number of tiny droplets caught.
    TinyDroplets,
    /// The number of tiny droplets missed.
    TinyDropletMisses,
}

/// The smaller of `n` and `limit`.
pub open spec fn capped(n: nat, limit: nat) -> nat {
    if n <= limit {
        n
    } else {
        limit
    }
}

/// `rosu_pp::Beatmap`, a parsed chart. Nothing inside it is visible to the verifier.
#[verifier::external_type_specification]
#[verifier::external_body]
pub struct ExBeatmap(Beatmap);

/// `rosu_pp::OsuPP`, the calculator for osu!standard.
#[verifier::external_type_specification]
#[verifier::external_body]
pub struct ExOsuPP<'m>(OsuPP<'m>);

/// `rosu_pp::TaikoPP`, the calculator for osu!taiko.
#[verifier::external_type_specification]
#[verifier::external_body]
pub struct ExTaikoPP<'m>(TaikoPP<'m>);

/// `rosu_pp::ManiaPP`, the calculator for osu!mania.
#[verifier::external_type_specification]
#[verifier::external_body]
pub struct ExManiaPP<'m>(ManiaPP<'m>);

/// `rosu_pp::FruitsPP`, the calculator for osu!catch.
#[verifier::external_type_specification]
#[verifier::external_body]
pub struct ExFruitsPP<'m>(FruitsPP<'m>);

/// The number of circles of a chart: the field `n_circles` of `rosu_pp::Beatmap`.
/// The taiko calculator never holds more misses than this.
pub uninterp spec fn chart_circles(chart: Beatmap) -> nat;

/// The chart that an osu!standard calculator was created for: its field `map`.
pub uninterp spec fn osu_chart(calculator: OsuPP) -> Beatmap;

/// The settings of an osu!standard calculator: `Mods` and `Misses` are its fields
/// `mods` and `n_misses`; `PassedObjects`, `Combo`, `N300`, `N100` and `N50` are in
/// the map where the optional field of that name holds a value.
pub uninterp spec fn osu_settings(calculator: OsuPP) -> Map<Setting, nat>;

/// The chart that an osu!taiko calculator was created for: its field `map`.
pub uninterp spec fn taiko_chart(calculator: TaikoPP) -> Beatmap;

/// The settings of an osu!taiko calculator: `Mods` and `Misses` are its fields
/// `mods` and `n_misses`; `PassedObjects`, `Combo`, `N300` and `N100` are in the map
/// where the optional field of that name holds a value.
pub uninterp spec fn taiko_settings(calculator: TaikoPP) -> Map<Setting, nat>;

/// The chart that an osu!mania calculator was created for: its field `map`.
pub uninterp spec fn mania_chart(calculator: ManiaPP) -> Beatmap;

/// The settings of an osu!mania calculator: `Mods` is its field `mods`;
/// `PassedObjects` and `Score` are in the map where the optional field of that name
/// holds a value.
pub uninterp spec fn mania_settings(calculator: ManiaPP) -> Map<Setting, nat>;

/// The chart that an osu!catch calculator was created for: its field `map`.
pub uninterp spec fn catch_chart(calculator: FruitsPP) -> Beatmap;

/// The settings of an osu!catch calculator: `Mods` and `Misses` are its fields
/// `mods` and `n_misses`; `PassedObjects`, `Combo`, `Fruits`, `Droplets`,
/// `TinyDroplets` and `TinyDropletMisses` are in the map where the optional field
/// for it holds a value.
pub uninterp spec fn catch_settings(calculator: FruitsPP) -> Map<Setting, nat>;

/// `OsuPP::new` keeps a reference to the chart and starts with no mods, no misses and
/// every optional field empty.
pub assume_specification<'m>[ OsuPP::<'m>::new ](map: &'m Beatmap) -> (r: OsuPP<'m>)
    ensures
        osu_chart(r) == *map,
        osu_settings(r) == map![Setting::Mods => 0nat, Setting::Misses => 0nat],
;

/// `OsuPP::mods` assigns the field `mods` and touches nothing else.
pub assume_specification<'m>[ OsuPP::<'m>::mods ](b: OsuPP<'m>, mods: u32) -> (r: OsuPP<'m>)
    ensures
        osu_chart(r) == osu_chart(b),
        osu_settings(r) == osu_settings(b).insert(Setting::Mods, mods as nat),
;

/// `OsuPP::passed_objects` puts the number into the field `passed_objects` and
/// touches nothing else.
pub assume_specification<'m>[ OsuPP::<'m>::passed_objects ](
    b: OsuPP<'m>,
    passed_objects: usize,
) -> (r: OsuPP<'m>)
    ensures
        osu_chart(r) == osu_chart(b),
        osu_settings(r) == osu_settings(b).insert(Setting::PassedObjects, passed_objects as nat),
;

/// `OsuPP::combo` puts the number into the field `combo` and touches nothing else.
pub assume_specification<'m>[ OsuPP::<'m>::combo ](b: OsuPP<'m>, combo: usize) -> (r: OsuPP<'m>)
    ensures
        osu_chart(r) == osu_chart(b),
        osu_settings(r) == osu_settings(b).insert(Setting::Combo, combo as nat),
;

/// `OsuPP::misses` assigns the field `n_misses` and touches nothing else.
pub assume_specification<'m>[ OsuPP::<'m>::misses ](b: OsuPP<'m>, n_misses: usize) -> (r: OsuPP<'m>)
    ensures
        osu_chart(r) == osu_chart(b),
        osu_settings(r) == osu_settings(b).insert(Setting::Misses, n_misses as nat),
;

/// `OsuPP::n300` puts the number into the field `n300` and touches nothing else.
pub assume_specification<'m>[ OsuPP::<'m>::n300 ](b: OsuPP<'m>, n300: usize) -> (r: OsuPP<'m>)
    ensures
        osu_chart(r) == osu_chart(b),
        osu_settings(r) == osu_settings(b).insert(Setting::N300, n300 as nat),
;

/// `OsuPP::n100` puts the number into the field `n100` and touches nothing else.
pub assume_specification<'m>[ OsuPP::<'m>::n100 ](b: OsuPP<'m>, n100: usize) -> (r: OsuPP<'m>)
    ensures
        osu_chart(r) == osu_chart(b),
        osu_settings(r) == osu_settings(b).insert(Setting::N100, n100 as nat),
;

/// `OsuPP::n50` puts the number into the field `n50` and touches nothing else.
pub assume_specification<'m>[ OsuPP::<'m>::n50 ](b: OsuPP<'m>, n50: usize) -> (r: OsuPP<'m>)
    ensures
        osu_chart(r) == osu_chart(b),
        osu_settings(r) == osu_settings(b).insert(Setting::N50, n50 as nat),
;

/// `TaikoPP::new` keeps a reference to the chart and starts with no mods, no misses
/// and every optional field empty.
pub assume_specification<'m>[ TaikoPP::<'m>::new ](map: &'m Beatmap) -> (r: TaikoPP<'m>)
    ensures
        taiko_chart(r) == *map,
        taiko_settings(r) == map![Setting::Mods => 0nat, Setting::Misses => 0nat],
;

/// `TaikoPP::mods` assigns the field `mods` and touches nothing else.
pub assume_specification<'m>[ TaikoPP::<'m>::mods ](b: TaikoPP<'m>, mods: u32) -> (r: TaikoPP<'m>)
    ensures
        taiko_chart(r) == taiko_chart(b),
        taiko_settings(r) == taiko_settings(b).insert(Setting::Mods, mods as nat),
;

/// `TaikoPP::passed_objects` puts the number into the field `passed_objects` and
/// touches nothing else.
pub assume_specification<'m>[ TaikoPP::<'m>::passed_objects ](
    b: TaikoPP<'m>,
    passed_objects: usize,
) -> (r: TaikoPP<'m>)
    ensures
        taiko_chart(r) == taiko_chart(b),
        taiko_settings(r) == taiko_settings(b).insert(
            Setting::PassedObjects,
            passed_objects as nat,
        ),
;

/// `TaikoPP::combo` puts the number into the field `combo` and touches nothing else.
pub assume_specification<'m>[ TaikoPP::<'m>::combo ](
    b: TaikoPP<'m>,
    combo: usize,
) -> (r: TaikoPP<'m>)
    ensures
        taiko_chart(r) == taiko_chart(b),
        taiko_settings(r) == taiko_settings(b).insert(Setting::Combo, combo as nat),
;

/// `TaikoPP::misses` assigns to the field `n_misses` the smaller of the number given
/// and the chart's number of circles, and touches nothing else.
pub assume_specification<'m>[ TaikoPP::<'m>::misses ](
    b: TaikoPP<'m>,
    n_misses: usize,
) -> (r: TaikoPP<'m>)
    ensures
        taiko_chart(r) == taiko_chart(b),
        taiko_settings(r) == taiko_settings(b).insert(
            Setting::Misses,
            capped(n_misses as nat, chart_circles(taiko_chart(b))),
        ),
;

/// `TaikoPP::n300` puts the number into the field `n300` and touches nothing else.
pub assume_specification<'m>[ TaikoPP::<'m>::n300 ](b: TaikoPP<'m>, n300: usize) -> (r: TaikoPP<'m>)
    ensures
        taiko_chart(r) == taiko_chart(b),
        taiko_settings(r) == taiko_settings(b).insert(Setting::N300, n300 as nat),
;

/// `TaikoPP::n100` puts the number into the field `n100` and touches nothing else.
pub assume_specification<'m>[ TaikoPP::<'m>::n100 ](b: TaikoPP<'m>, n100: usize) -> (r: TaikoPP<'m>)
    ensures
        taiko_chart(r) == taiko_chart(b),
        taiko_settings(r) == taiko_settings(b).insert(Setting::N100, n100 as nat),
;

/// `ManiaPP::new` keeps a reference to the chart and starts with no mods and every
/// optional field empty.
pub assume_specification<'m>[ ManiaPP::<'m>::new ](map: &'m Beatmap) -> (r: ManiaPP<'m>)
    ensures
        mania_chart(r) == *map,
        mania_settings(r) == map![Setting::Mods => 0nat],
;

/// `ManiaPP::mods` assigns the field `mods` and touches nothing else.
pub assume_specification<'m>[ ManiaPP::<'m>::mods ](b: ManiaPP<'m>, mods: u32) -> (r: ManiaPP<'m>)
    ensures
        mania_chart(r) == mania_chart(b),
        mania_settings(r) == mania_settings(b).insert(Setting::Mods, mods as nat),
;

/// `ManiaPP::passed_objects` puts the number into the field `passed_objects` and
/// touches nothing else.
pub assume_specification<'m>[ ManiaPP::<'m>::passed_objects ](
    b: ManiaPP<'m>,
    passed_objects: usize,
) -> (r: ManiaPP<'m>)
    ensures
        mania_chart(r) == mania_chart(b),
        mania_settings(r) == mania_settings(b).insert(
            Setting::PassedObjects,
            passed_objects as nat,
        ),
;

/// `ManiaPP::score` puts the score into the field `score`, as a float that holds
/// every 32-bit number exactly, and touches nothing else.
pub assume_specification<'m>[ ManiaPP::<'m>::score ](b: ManiaPP<'m>, score: u32) -> (r: ManiaPP<'m>)
    ensures
        mania_chart(r) == mania_chart(b),
        mania_settings(r) == mania_settings(b).insert(Setting::Score, score as nat),
;

/// `FruitsPP::new` keeps a reference to the chart and starts with no mods, no misses
/// and every optional field empty.
pub assume_specification<'m>[ FruitsPP::<'m>::new ](map: &'m Beatmap) -> (r: FruitsPP<'m>)
    ensures
        catch_chart(r) == *map,
        catch_settings(r) == map![Setting::Mods => 0nat, Setting::Misses => 0nat],
;

/// `FruitsPP::mods` assigns the field `mods` and touches nothing else.
pub assume_specification<'m>[ FruitsPP::<'m>::mods ](
    b: FruitsPP<'m>,
    mods: u32,
) -> (r: FruitsPP<'m>)
    ensures
        catch_chart(r) == catch_chart(b),
        catch_settings(r) == catch_settings(b).insert(Setting::Mods, mods as nat),
;

/// `FruitsPP::passed_objects` puts the number into the field `passed_objects` and
/// touches nothing else.
pub assume_specification<'m>[ FruitsPP::<'m>::passed_objects ](
    b: FruitsPP<'m>,
    passed_objects: usize,
) -> (r: FruitsPP<'m>)
    ensures
        catch_chart(r) == catch_chart(b),
        catch_settings(r) == catch_settings(b).insert(
            Setting::PassedObjects,
            passed_objects as nat,
        ),
;

/// `FruitsPP::misses` assigns the field `n_misses` and touches nothing else.
pub assume_specification<'m>[ FruitsPP::<'m>::misses ](
    b: FruitsPP<'m>,
    n_misses: usize,
) -> (r: FruitsPP<'m>)
    ensures
        catch_chart(r) == catch_chart(b),
        catch_settings(r) == catch_settings(b).insert(Setting::Misses, n_misses as nat),
;

/// `FruitsPP::combo` puts the number into the field `combo` and touches nothing else.
pub assume_specification<'m>[ FruitsPP::<'m>::combo ](
    b: FruitsPP<'m>,
    combo: usize,
) -> (r: FruitsPP<'m>)
    ensures
        catch_chart(r) == catch_chart(b),
        catch_settings(r) == catch_settings(b).insert(Setting::Combo, combo as nat),
;

/// `FruitsPP::fruits` puts the number into the field `n_fruits` and touches nothing
/// else.
pub assume_specification<'m>[ FruitsPP::<'m>::fruits ](
    b: FruitsPP<'m>,
    n_fruits: usize,
) -> (r: FruitsPP<'m>)
    ensures
        catch_chart(r) == catch_chart(b),
        catch_settings(r) == catch_settings(b).insert(Setting::Fruits, n_fruits as nat),
;

/// `FruitsPP::droplets` puts the number into the field `n_droplets` and touches
/// nothing else.
pub assume_specification<'m>[ FruitsPP::<'m>::droplets ](
    b: FruitsPP<'m>,
    n_droplets: usize,
) -> (r: FruitsPP<'m>)
    ensures
        catch_chart(r) == catch_chart(b),
        catch_settings(r) == catch_settings(b).insert(Setting::Droplets, n_droplets as nat),
;

/// `FruitsPP::tiny_droplets` puts the number into the field `n_tiny_droplets` and
/// touches nothing else.
pub assume_specification<'m>[ FruitsPP::<'m>::tiny_droplets ](
    b: FruitsPP<'m>,
    n_tiny_droplets: usize,
) -> (r: FruitsPP<'m>)
    ensures
        catch_chart(r) == catch_chart(b),
        catch_settings(r) == catch_settings(b).insert(
            Setting::TinyDroplets,
            n_tiny_droplets as nat,
        ),
;

/// `FruitsPP::tiny_droplet_misses` puts the number into the field
/// `n_tiny_droplet_misses` and touches nothing else.
pub assume_specification<'m>[ FruitsPP::<'m>::tiny_droplet_misses ](
    b: FruitsPP<'m>,
    n_tiny_droplet_misses: usize,
) -> (r: FruitsPP<'m>)
    ensures
        catch_chart(r) == catch_chart(b),
        catch_settings(r) == catch_settings(b).insert(
            Setting::TinyDropletMisses,
            n_tiny_droplet_misses as nat,
        ),
;

} // verus!
