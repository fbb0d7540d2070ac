//! Setting up the model for a play.
//!
//! For every mode there is a function that creates the model's calculator for a
//! chart and a mod mask and applies a state to it, setting by setting. What is
//! present in the state reaches the calculator; what is absent is never set, so that
//! the model's own default stands. The miss count is always set.
//!
//! An osu!standard score is evaluated twice over the same chart and mod mask: once
//! as the play was, and once as the best play that is thought possible, which takes
//! nothing from the play but the potential accuracy.
//!
//! Running a calculator is left to the caller, and so is the accuracy: the caller
//! gives it to the calculator last, after the settings made here, and then runs it.
//! This fixes the precedence where a score holds both an accuracy and hit counts:
//! both are handed on, the hit counts first, and the model settles the counts from
//! the accuracy that it is given after them.
//!
//! Nothing in this module can fail. The model itself can: it stops with a panic on
//! some plays (a combo above what the chart allows, an accuracy of zero) and on a
//! chart of another mode than the calculator's, which is one more reason why it is
//! run outside this library, whose functions never panic.

use crate::model::{
    catch_chart, catch_settings, chart_circles, mania_chart, mania_settings, osu_chart,
    osu_settings, taiko_chart, taiko_settings,
};
use crate::score::{CatchScore, CatchState, ManiaScore, StdScore, StdState, TaikoScore, TaikoState};
use rosu_pp::{Beatmap, FruitsPP, ManiaPP, OsuPP, TaikoPP};
use vstd::prelude::*;

verus! {

/// One run of the model, ready but for the accuracy: the calculator with every
/// setting made, and the accuracy that is to be given to it last, if there is one.
#[derive(Clone, Debug)]
pub struct Pass<C, N> {
    pub calculator: C,
    pub accuracy: Option<N>,
}

/// The two runs of the model for an osu!standard score.
#[derive(Clone, Debug)]
pub struct StdPasses<'m, N> {
    /// The play as it was.
    pub achieved: Pass<OsuPP<'m>, N>,
    /// The best play that is thought possible.
    pub potential: Pass<OsuPP<'m>, N>,
}

/// Creates the osu!standard calculator for `chart` under `mods` and applies `state`
/// to it.
pub fn std_calculator<'m, N>(
    chart: &'m Beatmap,
    mods: u32,
    state: &StdState<N>,
) -> (calculator: OsuPP<'m>)
    ensures
        osu_chart(calculator) == *chart,
        osu_settings(calculator) == state.settings(mods),
{
    let calculator = OsuPP::new(chart).mods(mods);
    let calculator = match state.passed_objects {
        Some(n) => calculator.passed_objects(n),
        None => calculator,
    };
    let calculator = match state.combo {
        Some(n) => calculator.combo(n),
        None => calculator,
    };
    let calculator = calculator.misses(state.miss_count);
    let calculator = match state.n300 {
        Some(n) => calculator.n300(n),
        None => calculator,
    };
    let calculator = match state.n100 {
        Some(n) => calculator.n100(n),
        None => calculator,
    };
    let calculator = match state.n50 {
        Some(n) => calculator.n50(n),
        None => calculator,
    };
    calculator
}

/// Sets up both runs of the model for an osu!standard score: the play as it was,
/// and the best play that is thought possible. Both are over `chart` and `mods`.
pub fn prepare_std<'m, N>(
    chart: &'m Beatmap,
    mods: u32,
    score: StdScore<N>,
) -> (passes: StdPasses<'m, N>)
    ensures
        osu_chart(passes.achieved.calculator) == *chart,
        osu_settings(passes.achieved.calculator) == score.achieved_state().settings(mods),
        passes.achieved.accuracy == score.accuracy,
        osu_chart(passes.potential.calculator) == *chart,
        osu_settings(passes.potential.calculator) == score.potential_state().settings(mods),
        passes.potential.accuracy == score.potential_accuracy,
{
    let states = score.resolve();
    let achieved = std_calculator(chart, mods, &states.achieved);
    let potential = std_calculator(chart, mods, &states.potential);
    StdPasses {
        achieved: Pass { calculator: achieved, accuracy: states.achieved.accuracy },
        potential: Pass { calculator: potential, accuracy: states.potential.accuracy },
    }
}

/// Creates the osu!taiko calculator for `chart` under `mods` and applies `state` to
/// it.
pub fn taiko_calculator<'m, N>(
    chart: &'m Beatmap,
    mods: u32,
    state: &TaikoState<N>,
) -> (calculator: TaikoPP<'m>)
    ensures
        taiko_chart(calculator) == *chart,
        taiko_settings(calculator) == state.settings(mods, chart_circles(*chart)),
{
    let calculator = TaikoPP::new(chart).mods(mods);
    let calculator = match state.passed_objects {
        Some(n) => calculator.passed_objects(n),
        None => calculator,
    };
    let calculator = match state.combo {
        Some(n) => calculator.combo(n),
        None => calculator,
    };
    let calculator = calculator.misses(state.miss_count);
    let calculator = match state.n300 {
        Some(n) => calculator.n300(n),
        None => calculator,
    };
    let calculator = match state.n100 {
        Some(n) => calculator.n100(n),
        None => calculator,
    };
    calculator
}

/// Sets up the run of the model for an osu!taiko score.
pub fn prepare_taiko<'m, N>(
    chart: &'m Beatmap,
    mods: u32,
    score: TaikoScore<N>,
) -> (pass: Pass<TaikoPP<'m>, N>)
    ensures
        taiko_chart(pass.calculator) == *chart,
        taiko_settings(pass.calculator) == score.state().settings(mods, chart_circles(*chart)),
        pass.accuracy == score.accuracy,
{
    let state = score.resolve();
    let calculator = taiko_calculator(chart, mods, &state);
    Pass { calculator, accuracy: state.accuracy }
}

/// Sets up the run of the model for an osu!mania score: creates the calculator for
/// `chart` under `mods` and applies the score to it.
pub fn prepare_mania<'m>(
    chart: &'m Beatmap,
    mods: u32,
    score: &ManiaScore,
) -> (calculator: ManiaPP<'m>)
    ensures
        mania_chart(calculator) == *chart,
        mania_settings(calculator) == score.settings(mods),
{
    let calculator = ManiaPP::new(chart).mods(mods);
    let calculator = match score.passed_objects {
        Some(n) => calculator.passed_objects(n),
        None => calculator,
    };
    let calculator = match score.score {
        Some(n) => calculator.score(n),
        None => calculator,
    };
    calculator
}

/// Creates the osu!catch calculator for `chart` under `mods` and applies `state` to
/// it.
pub fn catch_calculator<'m>(
    chart: &'m Beatmap,
    mods: u32,
    state: &CatchState,
) -> (calculator: FruitsPP<'m>)
    ensures
        catch_chart(calculator) == *chart,
        catch_settings(calculator) == state.settings(mods),
{
    let calculator = FruitsPP::new(chart).mods(mods);
    let calculator = match state.passed_objects {
        Some(n) => calculator.passed_objects(n),
        None => calculator,
    };
    let calculator = calculator.misses(state.miss_count);
    let calculator = match state.combo {
        Some(n) => calculator.combo(n),
        None => calculator,
    };
    let calculator = match state.fruits {
        Some(n) => calculator.fruits(n),
        None => calculator,
    };
    let calculator = match state.droplets {
        Some(n) => calculator.droplets(n),
        None => calculator,
    };
    let calculator = match state.tiny_droplets {
        Some(n) => calculator.tiny_droplets(n),
        None => calculator,
    };
    let calculator = match state.tiny_droplet_misses {
        Some(n) => calculator.tiny_droplet_misses(n),
        None => calculator,
    };
    calculator
}

/// Sets up the run of the model for an osu!catch score.
pub fn prepare_catch<'m>(
    chart: &'m Beatmap,
    mods: u32,
    score: CatchScore,
) -> (calculator: FruitsPP<'m>)
    ensures
        catch_chart(calculator) == *chart,
        catch_settings(calculator) == score.state().settings(mods),
{
    let state = score.resolve();
    catch_calculator(chart, mods, &state)
}

} // verus!
