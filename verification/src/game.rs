use vstd::prelude::*;

verus! {

#[derive(Clone, Copy, Debug, PartialEq, Eq, Structural)]
pub enum GameLevelDifficulty {
    Easy,
    Normal,
    Hard,
}

impl GameLevelDifficulty {
    /// Number of the difficulty level: 0 (easy), 1 (normal) or 2 (hard).
    pub open spec fn level(self) -> int {
        match self {
            GameLevelDifficulty::Easy => 0,
            GameLevelDifficulty::Normal => 1,
            GameLevelDifficulty::Hard => 2,
        }
    }

    pub fn starting_funds(&self) -> (r: u32)
        ensures
            r == match self {
                GameLevelDifficulty::Easy => 20000u32,
                GameLevelDifficulty::Normal => 10000u32,
                GameLevelDifficulty::Hard => 5000u32,
            },
    {
        match self {
            GameLevelDifficulty::Easy => 20000,
            GameLevelDifficulty::Normal => 10000,
            GameLevelDifficulty::Hard => 5000,
        }
    }

    pub fn from_usize(value: usize) -> (r: Option<Self>)
        ensures
            r matches Some(d) ==> d.level() == value,
            r is None <==> value > 2,
    {
        match value {
            0 => Some(GameLevelDifficulty::Easy),
            1 => Some(GameLevelDifficulty::Normal),
            2 => Some(GameLevelDifficulty::Hard),
            _ => None,
        }
    }

    pub fn to_usize(&self) -> (r: Option<usize>)
        ensures
            r == Some(self.level() as usize),
    {
        match self {
            GameLevelDifficulty::Easy => Some(0),
            GameLevelDifficulty::Normal => Some(1),
            GameLevelDifficulty::Hard => Some(2),
        }
    }
}

#[derive(Clone, Copy, Debug, PartialEq, Eq, Structural)]
pub enum GameScenario {
    /// Free play.
    NoScenario,
    /// Dullsville (boredom).
    Dullsville,
    /// San Francisco (earthquake).
    SanFrancisco,
    /// Hamburg (fire bombs).
    Hamburg,
    /// Bern (traffic).
    Bern,
    /// Tokyo (scary monster).
    Tokyo,
    /// Detroit (crime).
    Detroit,
    /// Boston (nuclear meltdown).
    Boston,
    /// Rio (flooding).
    Rio,
}

impl GameScenario {
    /// Delay before the disaster of the scenario.
    pub open spec fn disaster_delay(self) -> int {
        match self {
            GameScenario::NoScenario => 0,
            GameScenario::Dullsville => 2,
            GameScenario::SanFrancisco => 10,
            GameScenario::Hamburg => 40,
            GameScenario::Bern => 20,
            GameScenario::Tokyo => 3,
            GameScenario::Detroit => 5,
            GameScenario::Boston => 5,
            GameScenario::Rio => 96,
        }
    }

    /// Get the disaster delay.
    pub fn get_disaster_timer(&self) -> (r: u16)
        ensures
            r == self.disaster_delay(),
    {
        match self {
            GameScenario::NoScenario => 0,
            GameScenario::Dullsville => 2,
            GameScenario::SanFrancisco => 10,
            GameScenario::Hamburg => 4 * 10,
            GameScenario::Bern => 20,
            GameScenario::Tokyo => 3,
            GameScenario::Detroit => 5,
            GameScenario::Boston => 5,
            GameScenario::Rio => 2 * 48,
        }
    }
}

#[derive(Clone, Copy, Debug, PartialEq, Eq, Structural)]
pub struct GameSpeed {
    /// Determines how often the animation timer fires, in milliseconds.
    pub animations_delay: u16,
    /// Determines how many simulation steps are fired at each screen update.
    pub sim_steps_per_update: u16,
}

impl GameSpeed {
    pub fn get_animations_delay(&self) -> (r: u16)
        ensures
            r == self.animations_delay,
    {
        self.animations_delay
    }

    pub fn get_sim_steps_per_update(&self) -> (r: u16)
        ensures
            r == self.sim_steps_per_update,
    {
        self.sim_steps_per_update
    }
}

#[derive(Clone, Copy, Debug, PartialEq, Eq, Structural)]
pub enum GameSpeedPreset {
    Paused,
    Slow,
    Normal,
    Fast,
    SuperFast,
}

/// Speed of each preset.
pub open spec fn speed_of_preset(preset: GameSpeedPreset) -> GameSpeed {
    match preset {
        GameSpeedPreset::Paused => GameSpeed { animations_delay: 999, sim_steps_per_update: 0 },
        GameSpeedPreset::Slow => GameSpeed { animations_delay: 625, sim_steps_per_update: 1 },
        GameSpeedPreset::Normal => GameSpeed { animations_delay: 125, sim_steps_per_update: 1 },
        GameSpeedPreset::Fast => GameSpeed { animations_delay: 25, sim_steps_per_update: 1 },
        GameSpeedPreset::SuperFast => GameSpeed { animations_delay: 25, sim_steps_per_update: 5 },
    }
}

impl From<GameSpeedPreset> for GameSpeed {
    fn from(preset: GameSpeedPreset) -> (r: GameSpeed) {
        match preset {
            GameSpeedPreset::Paused => GameSpeed { animations_delay: 999, sim_steps_per_update: 0 },
            GameSpeedPreset::Slow => GameSpeed { animations_delay: 625, sim_steps_per_update: 1 },
            GameSpeedPreset::Normal => GameSpeed { animations_delay: 125, sim_steps_per_update: 1 },
            GameSpeedPreset::Fast => GameSpeed { animations_delay: 25, sim_steps_per_update: 1 },
            GameSpeedPreset::SuperFast => GameSpeed {
                animations_delay: 25,
                sim_steps_per_update: 5,
            },
        }
    }
}

impl vstd::std_specs::convert::FromSpecImpl<GameSpeedPreset> for GameSpeed {
    open spec fn obeys_from_spec() -> bool {
        true
    }

    open spec fn from_spec(preset: GameSpeedPreset) -> GameSpeed {
        speed_of_preset(preset)
    }
}

} // verus!
