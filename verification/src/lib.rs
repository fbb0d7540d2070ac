//! Performance and difficulty of a played rhythm-game chart, from whatever is known
//! of the play.
//!
//! A caller describes a play by a score: a record in which any field may be absent.
//! The library resolves the score into the state that the performance model is told
//! ([`score`]), sets up the model's calculators for it ([`evaluate`]), and places the
//! numbers that the model returns into the result of the mode ([`results`]). The
//! model itself is `rosu_pp` ([`model`]); [`error`] says why an evaluation can fail,
//! and [`laws`] what holds of every score, state and result.

pub mod error;
pub mod evaluate;
pub mod laws;
pub mod model;
pub mod results;
pub mod score;

pub use error::{ChartError, ParseFailure};
pub use evaluate::{
    catch_calculator, prepare_catch, prepare_mania, prepare_std, prepare_taiko, std_calculator,
    taiko_calculator, Pass, StdPasses,
};
pub use model::Setting;
pub use results::{
    Attributes, CatchResults, Field, ManiaPerformance, ManiaResults, Performance, StdResults,
    TaikoResults, Value,
};
pub use score::{
    resolve_misses, CatchScore, CatchState, ManiaScore, StdScore, StdState, StdStates, TaikoScore,
    TaikoState,
};
