//! What holds of every score, every state and every result.

use crate::model::{
    catch_chart, catch_settings, mania_chart, mania_settings, osu_chart, osu_settings, taiko_chart,
    taiko_settings, Setting,
};
use crate::results::{CatchResults, Field, ManiaResults, StdResults, TaikoResults};
use crate::score::{CatchScore, CatchState, ManiaScore, StdScore, StdState, TaikoScore, TaikoState};
use rosu_pp::{Beatmap, FruitsPP, ManiaPP, OsuPP, TaikoPP};
use vstd::prelude::*;

verus! {

/// `settings` holds `value` under `key` where a value is present, and nothing under
/// `key` where none is.
pub open spec fn forwarded(
    settings: Map<Setting, nat>,
    key: Setting,
    value: Option<usize>,
) -> bool {
    match value {
        Some(v) => settings.dom().contains(key) && settings[key] == v,
        None => !settings.dom().contains(key),
    }
}

/// An osu!standard score without a miss count is resolved as the same score with a
/// miss count of zero, in both of its states, and so the calculators are told the
/// same.
pub proof fn law_std_absent_misses_are_zero<N>(score: StdScore<N>, mods: u32)
    ensures
        (StdScore { miss_count: None, ..score }).achieved_state() == (StdScore {
            miss_count: Some(0),
            ..score
        }).achieved_state(),
        (StdScore { miss_count: None, ..score }).potential_state() == (StdScore {
            miss_count: Some(0),
            ..score
        }).potential_state(),
        (StdScore { miss_count: None, ..score }).achieved_state().settings(mods) == (StdScore {
            miss_count: Some(0),
            ..score
        }).achieved_state().settings(mods),
        (StdScore { miss_count: None, ..score }).achieved_state().settings(mods)[Setting::Misses]
            == 0,
{
}

/// An osu!taiko score without a miss count is resolved as the same score with a
/// miss count of zero, and so the calculator is told the same, whatever the number
/// of circles of the chart is.
pub proof fn law_taiko_absent_misses_are_zero<N>(score: TaikoScore<N>, mods: u32, circles: nat)
    ensures
        (TaikoScore { miss_count: None, ..score }).state() == (TaikoScore {
            miss_count: Some(0),
            ..score
        }).state(),
        (TaikoScore { miss_count: None, ..score }).state().settings(mods, circles) == (TaikoScore {
            miss_count: Some(0),
            ..score
        }).state().settings(mods, circles),
        (TaikoScore { miss_count: None, ..score }).state().settings(mods, circles)[Setting::Misses]
            == 0,
{
}

/// An osu!catch score without a miss count is resolved as the same score with a
/// miss count of zero, and so the calculator is told the same.
pub proof fn law_catch_absent_misses_are_zero(score: CatchScore, mods: u32)
    ensures
        (CatchScore { miss_count: None, ..score }).state() == (CatchScore {
            miss_count: Some(0),
            ..score
        }).state(),
        (CatchScore { miss_count: None, ..score }).state().settings(mods) == (CatchScore {
            miss_count: Some(0),
            ..score
        }).state().settings(mods),
        (CatchScore { miss_count: None, ..score }).state().settings(mods)[Setting::Misses] == 0,
{
}

/// The best play that is thought possible depends on the potential accuracy alone:
/// two osu!standard scores that agree on it have the same potential state, and so
/// the same settings under the same mod mask, whatever their combo, hit counts, miss
/// count, accuracy and passed objects are.
pub proof fn law_potential_ignores_the_play<N>(first: StdScore<N>, second: StdScore<N>, mods: u32)
    requires
        first.potential_accuracy == second.potential_accuracy,
    ensures
        first.potential_state() == second.potential_state(),
        first.potential_state().settings(mods) == second.potential_state().settings(mods),
{
}

/// The best play that is thought possible has no misses, and its calculator holds
/// the mod mask and the zero miss count and nothing else.
pub proof fn law_potential_has_no_misses<N>(score: StdScore<N>, mods: u32)
    ensures
        score.potential_state().miss_count == 0,
        score.potential_state().settings(mods) == map![
            Setting::Mods => mods as nat,
            Setting::Misses => 0nat,
        ],
{
}

/// Without a potential accuracy the best play that is thought possible has no
/// accuracy at all, so that the model applies its own: the accuracy of the play as
/// it was is not used in its place.
pub proof fn law_potential_without_accuracy<N>(score: StdScore<N>)
    requires
        score.potential_accuracy is None,
    ensures
        score.potential_state().accuracy is None,
        score.potential_state().miss_count == 0,
{
}

/// The settings of an osu!standard state hold the mod mask and the miss count, each
/// optional field where it is present, and nothing else.
pub proof fn law_std_settings_forward<N>(state: StdState<N>, mods: u32)
    ensures
        state.settings(mods).dom().contains(Setting::Mods),
        state.settings(mods)[Setting::Mods] == mods,
        state.settings(mods).dom().contains(Setting::Misses),
        state.settings(mods)[Setting::Misses] == state.miss_count,
        forwarded(state.settings(mods), Setting::PassedObjects, state.passed_objects),
        forwarded(state.settings(mods), Setting::Combo, state.combo),
        forwarded(state.settings(mods), Setting::N300, state.n300),
        forwarded(state.settings(mods), Setting::N100, state.n100),
        forwarded(state.settings(mods), Setting::N50, state.n50),
        !state.settings(mods).dom().contains(Setting::Score),
        !state.settings(mods).dom().contains(Setting::Fruits),
        !state.settings(mods).dom().contains(Setting::Droplets),
        !state.settings(mods).dom().contains(Setting::TinyDroplets),
        !state.settings(mods).dom().contains(Setting::TinyDropletMisses),
{
}

/// The settings of an osu!taiko state hold the mod mask, the miss count where it is
/// no more than the chart's circles and the number of circles where it is more, each
/// optional field where it is present, and nothing else.
pub proof fn law_taiko_settings_forward<N>(state: TaikoState<N>, mods: u32, circles: nat)
    ensures
        state.settings(mods, circles).dom().contains(Setting::Mods),
        state.settings(mods, circles)[Setting::Mods] == mods,
        state.settings(mods, circles).dom().contains(Setting::Misses),
        state.miss_count <= circles ==> state.settings(mods, circles)[Setting::Misses]
            == state.miss_count,
        state.miss_count > circles ==> state.settings(mods, circles)[Setting::Misses] == circles,
        forwarded(state.settings(mods, circles), Setting::PassedObjects, state.passed_objects),
        forwarded(state.settings(mods, circles), Setting::Combo, state.combo),
        forwarded(state.settings(mods, circles), Setting::N300, state.n300),
        forwarded(state.settings(mods, circles), Setting::N100, state.n100),
        !state.settings(mods, circles).dom().contains(Setting::N50),
        !state.settings(mods, circles).dom().contains(Setting::Score),
        !state.settings(mods, circles).dom().contains(Setting::Fruits),
        !state.settings(mods, circles).dom().contains(Setting::Droplets),
        !state.settings(mods, circles).dom().contains(Setting::TinyDroplets),
        !state.settings(mods, circles).dom().contains(Setting::TinyDropletMisses),
{
}

/// The settings of an osu!mania score hold the mod mask, the passed objects and the
/// score where they are present, and nothing else: no miss count is ever set.
pub proof fn law_mania_settings_forward(score: ManiaScore, mods: u32)
    ensures
        score.settings(mods).dom().contains(Setting::Mods),
        score.settings(mods)[Setting::Mods] == mods,
        forwarded(score.settings(mods), Setting::PassedObjects, score.passed_objects),
        score.score matches Some(v) ==> score.settings(mods).dom().contains(Setting::Score)
            && score.settings(mods)[Setting::Score] == v,
        score.score is None ==> !score.settings(mods).dom().contains(Setting::Score),
        !score.settings(mods).dom().contains(Setting::Misses),
        !score.settings(mods).dom().contains(Setting::Combo),
        !score.settings(mods).dom().contains(Setting::N300),
        !score.settings(mods).dom().contains(Setting::N100),
        !score.settings(mods).dom().contains(Setting::N50),
        !score.settings(mods).dom().contains(Setting::Fruits),
        !score.settings(mods).dom().contains(Setting::Droplets),
        !score.settings(mods).dom().contains(Setting::TinyDroplets),
        !score.settings(mods).dom().contains(Setting::TinyDropletMisses),
{
}

/// The settings of an osu!catch state hold the mod mask and the miss count, each
/// optional field where it is present, and nothing else.
pub proof fn law_catch_settings_forward(state: CatchState, mods: u32)
    ensures
        state.settings(mods).dom().contains(Setting::Mods),
        state.settings(mods)[Setting::Mods] == mods,
        state.settings(mods).dom().contains(Setting::Misses),
        state.settings(mods)[Setting::Misses] == state.miss_count,
        forwarded(state.settings(mods), Setting::PassedObjects, state.passed_objects),
        forwarded(state.settings(mods), Setting::Combo, state.combo),
        forwarded(state.settings(mods), Setting::Fruits, state.fruits),
        forwarded(state.settings(mods), Setting::Droplets, state.droplets),
        forwarded(state.settings(mods), Setting::TinyDroplets, state.tiny_droplets),
        forwarded(state.settings(mods), Setting::TinyDropletMisses, state.tiny_droplet_misses),
        !state.settings(mods).dom().contains(Setting::N300),
        !state.settings(mods).dom().contains(Setting::N100),
        !state.settings(mods).dom().contains(Setting::N50),
        !state.settings(mods).dom().contains(Setting::Score),
{
}

/// Where a score gives no passed objects, no calculator is told any: in every mode
/// the run of the play is then over the whole chart, as the rating of the whole
/// chart is.
pub proof fn law_whole_chart_without_passed_objects<N>(
    std: StdScore<N>,
    taiko: TaikoScore<N>,
    mania: ManiaScore,
    catch: CatchScore,
    mods: u32,
    circles: nat,
)
    ensures
        std.passed_objects is None ==> !std.achieved_state().settings(mods).dom().contains(
            Setting::PassedObjects,
        ),
        !std.potential_state().settings(mods).dom().contains(Setting::PassedObjects),
        taiko.passed_objects is None ==> !taiko.state().settings(mods, circles).dom().contains(
            Setting::PassedObjects,
        ),
        mania.passed_objects is None ==> !mania.settings(mods).dom().contains(
            Setting::PassedObjects,
        ),
        catch.passed_objects is None ==> !catch.state().settings(mods).dom().contains(
            Setting::PassedObjects,
        ),
{
}

/// Two osu!standard calculators that were set up for the same chart, mod mask and
/// state cannot be told apart by their chart or their settings: setting up keeps
/// nothing from one call to the next.
pub proof fn law_std_same_arguments_same_calculator<N>(
    chart: Beatmap,
    mods: u32,
    state: StdState<N>,
    first: OsuPP,
    second: OsuPP,
)
    requires
        osu_chart(first) == chart,
        osu_settings(first) == state.settings(mods),
        osu_chart(second) == chart,
        osu_settings(second) == state.settings(mods),
    ensures
        osu_chart(first) == osu_chart(second),
        osu_settings(first) == osu_settings(second),
{
}

/// Two osu!taiko calculators that were set up for the same chart, mod mask and
/// state cannot be told apart by their chart or their settings.
pub proof fn law_taiko_same_arguments_same_calculator<N>(
    chart: Beatmap,
    mods: u32,
    circles: nat,
    state: TaikoState<N>,
    first: TaikoPP,
    second: TaikoPP,
)
    requires
        taiko_chart(first) == chart,
        taiko_settings(first) == state.settings(mods, circles),
        taiko_chart(second) == chart,
        taiko_settings(second) == state.settings(mods, circles),
    ensures
        taiko_chart(first) == taiko_chart(second),
        taiko_settings(first) == taiko_settings(second),
{
}

/// Two osu!mania calculators that were set up for the same chart, mod mask and
/// score cannot be told apart by their chart or their settings.
pub proof fn law_mania_same_arguments_same_calculator(
    chart: Beatmap,
    mods: u32,
    score: ManiaScore,
    first: ManiaPP,
    second: ManiaPP,
)
    requires
        mania_chart(first) == chart,
        mania_settings(first) == score.settings(mods),
        mania_chart(second) == chart,
        mania_settings(second) == score.settings(mods),
    ensures
        mania_chart(first) == mania_chart(second),
        mania_settings(first) == mania_settings(second),
{
}

/// Two osu!catch calculators that were set up for the same chart, mod mask and
/// state cannot be told apart by their chart or their settings.
pub proof fn law_catch_same_arguments_same_calculator(
    chart: Beatmap,
    mods: u32,
    state: CatchState,
    first: FruitsPP,
    second: FruitsPP,
)
    requires
        catch_chart(first) == chart,
        catch_settings(first) == state.settings(mods),
        catch_chart(second) == chart,
        catch_settings(second) == state.settings(mods),
    ensures
        catch_chart(first) == catch_chart(second),
        catch_settings(first) == catch_settings(second),
{
}

/// Every result begins with the star rating of the whole chart, the star rating of
/// the part that was played and the performance value, in this order.
pub proof fn law_results_begin_alike<N>(
    std: StdResults<N>,
    taiko: TaikoResults<N>,
    mania: ManiaResults<N>,
    catch: CatchResults<N>,
)
    ensures
        std.field_list().len() >= 3 && std.field_list()[0].0 == Field::TotalStars
            && std.field_list()[1].0 == Field::PartialStars && std.field_list()[2].0 == Field::Pp,
        taiko.field_list().len() >= 3 && taiko.field_list()[0].0 == Field::TotalStars
            && taiko.field_list()[1].0 == Field::PartialStars && taiko.field_list()[2].0
            == Field::Pp,
        mania.field_list().len() >= 3 && mania.field_list()[0].0 == Field::TotalStars
            && mania.field_list()[1].0 == Field::PartialStars && mania.field_list()[2].0
            == Field::Pp,
        catch.field_list().len() >= 3 && catch.field_list()[0].0 == Field::TotalStars
            && catch.field_list()[1].0 == Field::PartialStars && catch.field_list()[2].0
            == Field::Pp,
{
}

/// An osu!mania result has no field for the longest combo, and none for a second
/// performance value.
pub proof fn law_mania_counts_no_combo<N>(results: ManiaResults<N>)
    ensures
        forall|i: int|
            0 <= i < results.field_list().len() ==> (#[trigger] results.field_list()[i]).0
                != Field::MaxCombo && results.field_list()[i].0 != Field::MaxPp,
{
}

/// Only an osu!standard result has a second performance value.
pub proof fn law_only_std_has_max_pp<N>(
    std: StdResults<N>,
    taiko: TaikoResults<N>,
    catch: CatchResults<N>,
)
    ensures
        std.field_list()[3].0 == Field::MaxPp,
        forall|i: int|
            0 <= i < taiko.field_list().len() ==> (#[trigger] taiko.field_list()[i]).0
                != Field::MaxPp,
        forall|i: int|
            0 <= i < catch.field_list().len() ==> (#[trigger] catch.field_list()[i]).0
                != Field::MaxPp,
{
}

/// No two fields are returned under the same name.
pub proof fn law_field_names_differ(first: Field, second: Field)
    requires
        first != second,
    ensures
        first.name_text() != second.name_text(),
{
    reveal_strlit("total_stars");
    reveal_strlit("partial_stars");
    reveal_strlit("pp");
    reveal_strlit("max_pp");
    reveal_strlit("max_combo");
    reveal_strlit("ar");
    reveal_strlit("cs");
    reveal_strlit("od");
    reveal_strlit("hp");
    reveal_strlit("clock_rate");
    let a = first.name_text();
    let b = second.name_text();
    if a.len() == b.len() {
        assert(a[0] != b[0] || a[1] != b[1]);
    }
}

} // verus!
