//! Every action as a type of its own. A value of one converts into the
//! `CraftingActionEnum` that the session works with.

pub mod buff;
pub mod other;
pub mod progression;
pub mod quality;

pub use buff::{
    WasteNot,
    WasteNotII,
    GreatStrides,
    Innovation,
    Veneration,
    FinalAppraisal,
    QuickInnovation,
    TrainedPerfection,
    Manipulation,
    HeartAndSoul,
};
pub use other::{
    TricksOfTheTrade,
    MastersMend,
    ImmaculateMend,
    Observe,
    CarefulObservation,
    DelicateSynthesis,
    RemoveFinalAppraisal,
};
pub use progression::{
    BasicSynthesis,
    CarefulSynthesis,
    PrudentSynthesis,
    RapidSynthesis,
    Groundwork,
    MuscleMemory,
    IntensiveSynthesis,
};
pub use quality::{
    BasicTouch,
    StandardTouch,
    AdvancedTouch,
    HastyTouch,
    ByregotsBlessing,
    PreciseTouch,
    PrudentTouch,
    TrainedEye,
    PreparatoryTouch,
    Reflect,
    TrainedFinesse,
    DaringTouch,
    RefinedTouch,
};
