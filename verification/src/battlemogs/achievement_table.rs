//! What a player has achieved.

use vstd::prelude::*;

verus! {

#[derive(Copy, Clone, Debug, PartialEq, Eq, Structural)]
pub enum AchievementState {
    InProgress { current: u16, target: u16 },
    Completed,
}

/// `current` and `amount` together, capped at the largest count.
pub open spec fn count_sum(current: u16, amount: u16) -> u16 {
    if current + amount > u16::MAX {
        u16::MAX
    } else {
        (current + amount) as u16
    }
}

impl AchievementState {
    /// An achievement in progress has not reached its target.
    pub open spec fn wf(self) -> bool {
        match self {
            AchievementState::InProgress { current, target } => current < target,
            AchievementState::Completed => true,
        }
    }

    /// The state after `amount` more: completed once the count reaches the
    /// target, and completed for good.
    pub open spec fn updated(self, amount: u16) -> AchievementState {
        match self {
            AchievementState::InProgress { current, target } => if count_sum(current, amount) >= target {
                AchievementState::Completed
            } else {
                AchievementState::InProgress { current: count_sum(current, amount), target }
            },
            AchievementState::Completed => AchievementState::Completed,
        }
    }

    /// The state after `amount` more. The state itself stays as it is.
    pub fn increase_by(&mut self, amount: u16) -> (next: AchievementState)
        ensures
            next == old(self).updated(amount),
            *final(self) == *old(self),
    {
        match *self {
            AchievementState::InProgress { current, target } => {
                let new_current = current.saturating_add(amount);
                if new_current >= target {
                    AchievementState::Completed
                } else {
                    AchievementState::InProgress { current: new_current, target }
                }
            },
            AchievementState::Completed => AchievementState::Completed,
        }
    }

    pub fn new(target: u16) -> (state: Self)
        ensures
            state == (AchievementState::InProgress { current: 0, target }),
    {
        Self::InProgress { current: 0, target }
    }

    /// The state after `amount` more.
    pub fn update(self, amount: u16) -> (next: Self)
        ensures
            next == self.updated(amount),
    {
        match self {
            AchievementState::InProgress { current, target } => {
                let new_current = current.saturating_add(amount);
                if new_current >= target {
                    Self::Completed
                } else {
                    Self::InProgress { current: new_current, target }
                }
            },
            AchievementState::Completed => Self::Completed,
        }
    }
}

/// What is completed stays completed.
pub proof fn lemma_completed_is_final(amount: u16)
    ensures
        AchievementState::Completed.updated(amount) == AchievementState::Completed,
{
}

/// An update never takes the count back, never changes the target, and
/// leaves the count below the target for as long as the achievement is in
/// progress.
pub proof fn lemma_update_goes_forward(state: AchievementState, amount: u16)
    ensures
        state.updated(amount) matches AchievementState::InProgress { current, target } ==> {
            &&& state matches AchievementState::InProgress { current: before, target: same }
            &&& same == target
            &&& before <= current
            &&& current < target
        },
        state.updated(amount).wf(),
{
}

/// The five kinds of achievement.
#[derive(Copy, Clone, Debug, PartialEq, Eq, Structural)]
pub enum AchievementKind {
    EggHatcher,
    Sacrificer,
    Morpheus,
    LegendBreeder,
    Promiscuous,
}

#[derive(Copy, Clone, Debug, PartialEq, Eq, Structural)]
pub struct AchievementTable {
    pub egg_hatcher: AchievementState,
    pub sacrificer: AchievementState,
    pub morpheus: AchievementState,
    pub legend_breeder: AchievementState,
    pub promiscuous: AchievementState,
}

impl AchievementTable {
    /// The state of the achievement of kind `kind`.
    pub open spec fn state_of(self, kind: AchievementKind) -> AchievementState {
        match kind {
            AchievementKind::EggHatcher => self.egg_hatcher,
            AchievementKind::Sacrificer => self.sacrificer,
            AchievementKind::Morpheus => self.morpheus,
            AchievementKind::LegendBreeder => self.legend_breeder,
            AchievementKind::Promiscuous => self.promiscuous,
        }
    }

    /// The table with `amount` more for the achievement of kind `kind`.
    pub open spec fn bumped(self, kind: AchievementKind, amount: u16) -> AchievementTable {
        match kind {
            AchievementKind::EggHatcher => AchievementTable {
                egg_hatcher: self.egg_hatcher.updated(amount),
                ..self
            },
            AchievementKind::Sacrificer => AchievementTable { sacrificer: self.sacrificer.updated(amount), ..self },
            AchievementKind::Morpheus => AchievementTable { morpheus: self.morpheus.updated(amount), ..self },
            AchievementKind::LegendBreeder => AchievementTable {
                legend_breeder: self.legend_breeder.updated(amount),
                ..self
            },
            AchievementKind::Promiscuous => AchievementTable {
                promiscuous: self.promiscuous.updated(amount),
                ..self
            },
        }
    }

    /// Counts `amount` more for the achievement of kind `kind`.
    pub fn bump(self, kind: AchievementKind, amount: u16) -> (table: AchievementTable)
        ensures
            table == self.bumped(kind, amount),
    {
        let mut table = self;
        match kind {
            AchievementKind::EggHatcher => {
                table.egg_hatcher = self.egg_hatcher.update(amount);
            },
            AchievementKind::Sacrificer => {
                table.sacrificer = self.sacrificer.update(amount);
            },
            AchievementKind::Morpheus => {
                table.morpheus = self.morpheus.update(amount);
            },
            AchievementKind::LegendBreeder => {
                table.legend_breeder = self.legend_breeder.update(amount);
            },
            AchievementKind::Promiscuous => {
                table.promiscuous = self.promiscuous.update(amount);
            },
        }
        table
    }
}

/// A bump counts for one achievement and leaves the other four as they are.
pub proof fn lemma_bump_counts_for_one(
    table: AchievementTable,
    kind: AchievementKind,
    amount: u16,
    other: AchievementKind,
)
    ensures
        table.bumped(kind, amount).state_of(kind) == table.state_of(kind).updated(amount),
        other != kind ==> table.bumped(kind, amount).state_of(other) == table.state_of(other),
{
}

} // verus!
