//! The three rewards, and what each is called and worth.

use crate::clock::ResetPeriod;
use crate::constants::{icon, CustomEmoji};
use crate::text::str_eq;
use vstd::prelude::*;

verus! {

/// A reward that can be claimed once per period.
#[derive(Clone, Copy, PartialEq, Eq, Structural, Debug)]
pub enum RewardKind {
    Daily,
    Weekly,
    Monthly,
}

/// The reward that a button id names, if it names one.
pub open spec fn kind_for(id: Seq<char>) -> Option<RewardKind> {
    if id == "eco_daily"@ {
        Some(RewardKind::Daily)
    } else if id == "eco_weekly"@ {
        Some(RewardKind::Weekly)
    } else if id == "eco_monthly"@ {
        Some(RewardKind::Monthly)
    } else {
        None
    }
}

impl RewardKind {
    /// Every reward, in the order of the buttons.
    pub const ALL: [RewardKind; 3] = [RewardKind::Daily, RewardKind::Weekly, RewardKind::Monthly];

    /// The id of the button that claims the reward.
    pub open spec fn custom_id_spec(self) -> Seq<char> {
        match self {
            RewardKind::Daily => "eco_daily"@,
            RewardKind::Weekly => "eco_weekly"@,
            RewardKind::Monthly => "eco_monthly"@,
        }
    }

    /// The name under which the reward's state is stored.
    pub open spec fn db_name_spec(self) -> Seq<char> {
        match self {
            RewardKind::Daily => "daily"@,
            RewardKind::Weekly => "weekly"@,
            RewardKind::Monthly => "monthly"@,
        }
    }

    /// The text on the button that claims the reward.
    pub open spec fn button_label_spec(self) -> Seq<char> {
        match self {
            RewardKind::Daily => "Diária"@,
            RewardKind::Weekly => "Semanal"@,
            RewardKind::Monthly => "Mensal"@,
        }
    }

    /// The heading of the reward's field.
    pub open spec fn field_title_spec(self) -> Seq<char> {
        match self {
            RewardKind::Daily => "Recompensa diária"@,
            RewardKind::Weekly => "Recompensa semanal"@,
            RewardKind::Monthly => "Recompensa mensal"@,
        }
    }

    /// The least and the most coins that the reward pays.
    pub open spec fn money_range_spec(self) -> (i64, i64) {
        match self {
            RewardKind::Daily => (250, 400),
            RewardKind::Weekly => (800, 1400),
            RewardKind::Monthly => (4000, 6000),
        }
    }

    /// How often the reward can be claimed.
    pub open spec fn reset_period_spec(self) -> ResetPeriod {
        match self {
            RewardKind::Daily => ResetPeriod::Daily,
            RewardKind::Weekly => ResetPeriod::Weekly,
            RewardKind::Monthly => ResetPeriod::Monthly,
        }
    }

    /// The id of the button that claims the reward.
    pub fn custom_id(self) -> (id: &'static str)
        ensures
            id@ == self.custom_id_spec(),
    {
        match self {
            RewardKind::Daily => "eco_daily",
            RewardKind::Weekly => "eco_weekly",
            RewardKind::Monthly => "eco_monthly",
        }
    }

    /// The name under which the reward's state is stored.
    pub fn db_name(self) -> (name: &'static str)
        ensures
            name@ == self.db_name_spec(),
    {
        match self {
            RewardKind::Daily => "daily",
            RewardKind::Weekly => "weekly",
            RewardKind::Monthly => "monthly",
        }
    }

    /// The text on the button that claims the reward.
    pub fn button_label(self) -> (label: &'static str)
        ensures
            label@ == self.button_label_spec(),
    {
        match self {
            RewardKind::Daily => "Diária",
            RewardKind::Weekly => "Semanal",
            RewardKind::Monthly => "Mensal",
        }
    }

    /// The heading of the reward's field.
    pub fn field_title(self) -> (title: &'static str)
        ensures
            title@ == self.field_title_spec(),
    {
        match self {
            RewardKind::Daily => "Recompensa diária",
            RewardKind::Weekly => "Recompensa semanal",
            RewardKind::Monthly => "Recompensa mensal",
        }
    }

    /// The emoji on the button that claims the reward.
    pub fn button_emoji(self) -> (emoji: CustomEmoji)
        ensures
            emoji.id == match self {
                RewardKind::Daily => icon::DOLLAR,
                RewardKind::Weekly => icon::GIFT,
                RewardKind::Monthly => icon::DIAMOND,
            },
    {
        match self {
            RewardKind::Daily => CustomEmoji::new(icon::DOLLAR),
            RewardKind::Weekly => CustomEmoji::new(icon::GIFT),
            RewardKind::Monthly => CustomEmoji::new(icon::DIAMOND),
        }
    }

    /// The least and the most coins that the reward pays.
    pub fn money_range(self) -> (range: (i64, i64))
        ensures
            range == self.money_range_spec(),
            0 < range.0 <= range.1,
    {
        match self {
            RewardKind::Daily => (250, 400),
            RewardKind::Weekly => (800, 1400),
            RewardKind::Monthly => (4000, 6000),
        }
    }

    /// The reward that a button id names.
    pub fn from_custom_id(id: &str) -> (kind: Option<RewardKind>)
        ensures
            kind == kind_for(id@),
    {
        if str_eq(id, RewardKind::Daily.custom_id()) {
            Some(RewardKind::Daily)
        } else if str_eq(id, RewardKind::Weekly.custom_id()) {
            Some(RewardKind::Weekly)
        } else if str_eq(id, RewardKind::Monthly.custom_id()) {
            Some(RewardKind::Monthly)
        } else {
            None
        }
    }

    /// How often the reward can be claimed.
    pub fn reset_period(self) -> (period: ResetPeriod)
        ensures
            period == self.reset_period_spec(),
    {
        match self {
            RewardKind::Daily => ResetPeriod::Daily,
            RewardKind::Weekly => ResetPeriod::Weekly,
            RewardKind::Monthly => ResetPeriod::Monthly,
        }
    }
}

} // verus!
