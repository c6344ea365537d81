use vstd::prelude::*;

verus! {

/// The condition of a crafting step.
#[derive(Clone, Copy, Debug, PartialEq, Eq, Hash, Structural)]
pub enum StepState {
    Unset,
    Normal,
    Good,
    Excellent,
    Poor,
    Centered,
    Sturdy,
    Pliant,
    Malleable,
    Primed,
    GoodOmen,
}

/// The ordinal of a condition: the bit `ordinal - 1` of a recipe's condition mask selects it.
pub open spec fn state_ordinal(s: StepState) -> nat {
    match s {
        StepState::Unset => 0,
        StepState::Normal => 1,
        StepState::Good => 2,
        StepState::Excellent => 3,
        StepState::Poor => 4,
        StepState::Centered => 5,
        StepState::Sturdy => 6,
        StepState::Pliant => 7,
        StepState::Malleable => 8,
        StepState::Primed => 9,
        StepState::GoodOmen => 10,
    }
}

/// The condition whose ordinal is `ix`, if there is one other than `Unset`.
pub fn step_state_from_ordinal(ix: usize) -> (r: Option<StepState>)
    ensures
        1 <= ix <= 10 <==> r.is_some(),
        r matches Some(s) ==> state_ordinal(s) == ix,
{
    match ix {
        1 => Some(StepState::Normal),
        2 => Some(StepState::Good),
        3 => Some(StepState::Excellent),
        4 => Some(StepState::Poor),
        5 => Some(StepState::Centered),
        6 => Some(StepState::Sturdy),
        7 => Some(StepState::Pliant),
        8 => Some(StepState::Malleable),
        9 => Some(StepState::Primed),
        10 => Some(StepState::GoodOmen),
        _ => None,
    }
}

/// A named temporary effect.
#[derive(Clone, Copy, Debug, PartialEq, Eq, Hash, Structural)]
pub enum Buff {
    InnerQuiet,
    Innovation,
    Veneration,
    GreatStrides,
    WasteNot,
    WasteNotII,
    Manipulation,
    MuscleMemory,
    FinalAppraisal,
    HeartAndSoul,
}

/// The crafting job an action belongs to.
#[derive(Clone, Copy, Debug, PartialEq, Eq, Hash, Structural)]
pub enum CraftingJob {
    Any,
    Carpenter,
    Blacksmith,
    Armorer,
    Goldsmith,
    Leatherworker,
    Weaver,
    Alchemist,
    Culinarian,
}

/// What kind of effect an action has.
#[derive(Clone, Copy, Debug, PartialEq, Eq, Hash, Structural)]
pub enum ActionType {
    Progression,
    Quality,
    CpRecovery,
    Buff,
    Specialty,
    Repair,
    Other,
}

/// Why a step, or a whole run, did not go as asked.
#[derive(Clone, Copy, Debug, PartialEq, Eq, Hash, Structural)]
pub enum FailCause {
    NotEnoughCp,
    DurabilityReachedZero,
    UnsafeAction,
    QualityTooLow,
    MissingLevelRequirement,
    NotSpecialist,
    NoInnerQuiet,
    Unavailable,
}

impl FailCause {
    /// The human-readable text of the cause.
    pub fn message(&self) -> (r: &'static str)
        ensures
            *self == FailCause::NotEnoughCp ==> r@ == "Not enough CP"@,
            *self == FailCause::DurabilityReachedZero ==> r@ == "Durability reached zero"@,
            *self == FailCause::UnsafeAction ==> r@ == "Unsafe action"@,
            *self == FailCause::QualityTooLow ==> r@ == "Quality too low"@,
            *self == FailCause::MissingLevelRequirement ==> r@ == "Missing level requirement"@,
            *self == FailCause::NotSpecialist ==> r@ == "Not specialist"@,
            *self == FailCause::NoInnerQuiet ==> r@ == "No Inner Quiet"@,
            *self == FailCause::Unavailable ==> r@ == "Cannot be used now"@,
    {
        proof {
            reveal_strlit("Not enough CP");
            reveal_strlit("Durability reached zero");
            reveal_strlit("Unsafe action");
            reveal_strlit("Quality too low");
            reveal_strlit("Missing level requirement");
            reveal_strlit("Not specialist");
            reveal_strlit("No Inner Quiet");
            reveal_strlit("Cannot be used now");
        }
        match self {
            FailCause::NotEnoughCp => "Not enough CP",
            FailCause::DurabilityReachedZero => "Durability reached zero",
            FailCause::UnsafeAction => "Unsafe action",
            FailCause::QualityTooLow => "Quality too low",
            FailCause::MissingLevelRequirement => "Missing level requirement",
            FailCause::NotSpecialist => "Not specialist",
            FailCause::NoInnerQuiet => "No Inner Quiet",
            FailCause::Unavailable => "Cannot be used now",
        }
    }
}

/// Every crafting action the engine knows.
#[derive(Clone, Copy, Debug, PartialEq, Eq, Hash, Structural)]
pub enum CraftingActionEnum {
    BasicSynthesis,
    BasicTouch,
    MastersMend,
    HastyTouch,
    RapidSynthesis,
    Observe,
    TricksOfTheTrade,
    WasteNot,
    Veneration,
    StandardTouch,
    GreatStrides,
    Innovation,
    FinalAppraisal,
    WasteNotII,
    ByregotsBlessing,
    PreciseTouch,
    MuscleMemory,
    CarefulSynthesis,
    Manipulation,
    PrudentTouch,
    FocusedSynthesis,
    FocusedTouch,
    Reflect,
    PreparatoryTouch,
    Groundwork,
    DelicateSynthesis,
    IntensiveSynthesis,
    AdvancedTouch,
    HeartAndSoul,
    PrudentSynthesis,
    TrainedFinesse,
    CarefulObservation,
    RemoveFinalAppraisal,
}

} // verus!
