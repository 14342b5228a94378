//! The modules of the game.

use vstd::prelude::*;

verus! {

/// The part of the game that is running.
#[derive(Debug, Clone, Copy, PartialEq, Eq)]
pub enum GameModule {
    NoModule,
    Field,
    Battle,
    World,
    Menu,
    Highway,
    Chocobo,
    SnowBoard,
    Condor,
    Submarine,
    Jet,
    ChangeDisc,
    Snowboard2,
    Quit,
    Start,
    BattleSwirl,
    Ending,
    GameOver,
    Intro,
    Credits,
}

impl GameModule {
    /// The number by which the game knows the module.
    pub open spec fn spec_code(self) -> u8 {
        match self {
            GameModule::NoModule => 0,
            GameModule::Field => 1,
            GameModule::Battle => 2,
            GameModule::World => 3,
            GameModule::Menu => 5,
            GameModule::Highway => 6,
            GameModule::Chocobo => 7,
            GameModule::SnowBoard => 8,
            GameModule::Condor => 9,
            GameModule::Submarine => 10,
            GameModule::Jet => 11,
            GameModule::ChangeDisc => 12,
            GameModule::Snowboard2 => 14,
            GameModule::Quit => 19,
            GameModule::Start => 20,
            GameModule::BattleSwirl => 23,
            GameModule::Ending => 25,
            GameModule::GameOver => 26,
            GameModule::Intro => 27,
            GameModule::Credits => 28,
        }
    }

    /// The number by which the game knows the module.
    #[verifier::when_used_as_spec(spec_code)]
    pub fn code(self) -> (code: u8)
        ensures
            code == self.spec_code(),
    {
        match self {
            GameModule::NoModule => 0,
            GameModule::Field => 1,
            GameModule::Battle => 2,
            GameModule::World => 3,
            GameModule::Menu => 5,
            GameModule::Highway => 6,
            GameModule::Chocobo => 7,
            GameModule::SnowBoard => 8,
            GameModule::Condor => 9,
            GameModule::Submarine => 10,
            GameModule::Jet => 11,
            GameModule::ChangeDisc => 12,
            GameModule::Snowboard2 => 14,
            GameModule::Quit => 19,
            GameModule::Start => 20,
            GameModule::BattleSwirl => 23,
            GameModule::Ending => 25,
            GameModule::GameOver => 26,
            GameModule::Intro => 27,
            GameModule::Credits => 28,
        }
    }
}

} // verus!
