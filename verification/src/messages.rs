mod parser;

use vstd::prelude::*;

pub use parser::{kept_messages, parse_messages_resource, ParsedMessagesResource};

verus! {

/// Strings of the score card and messages of the game, as read from their resources.
pub struct MessagesStorage {
    score_card_strings: ParsedMessagesResource,
    game_messages: ParsedMessagesResource,
}

/// String literals displayed in the score card and
/// corresponding to the "stri.202" data resource.
#[derive(Clone, Copy, Debug, PartialEq, Eq, Hash, Structural)]
pub enum ScoreCardString {
    /// Low
    PopulationdensityLow,
    /// Medium
    PopulationdensityMedium,
    /// High
    PopulationdensityHigh,
    /// Very High
    PopulationdensityVeryhigh,
    /// Slum
    LandvalueSlum,
    /// Lower Class
    LandvalueLowerClass,
    /// Middle Class
    LandvalueMiddleClass,
    /// High
    LandvalueHighClass,
    /// Safe
    CrimeNone,
    /// Light
    CrimeLight,
    /// Moderate
    CrimeModerate,
    /// Dangerous
    CrimeDangerous,
    /// None
    PollutionNone,
    /// Moderate
    PollutionModerate,
    /// Heavy,
    PollutionHeavy,
    /// Very Heavy
    PollutionVeryHeavy,
    /// Declining
    GrowrateDeclining,
    /// Stable
    GrowrateStable,
    /// Slow Growth
    GrowrateSlowGrowth,
    /// Fast Growth
    GrowrateFastGrowth,
}

/// Messages of the game, corresponding to the "stri.301" data resource
/// (numbered from 1).
#[derive(Clone, Copy, Debug, PartialEq, Eq, Hash, Structural)]
pub enum GameMessage {
    /// More residential zones needed.
    MessageNeedMoreResidential,
    /// More commercial zones needed.
    MessageNeedMoreCommercial,
    /// More industrial zones needed.
    MessageNeedMoreIndustrial,
    /// More roads required.
    MessageNeedMoreRoads,
    /// Inadequate rail system.
    MessageNeedMoreRails,
    /// Build a Power Plant.
    MessageNeedElectricity,
    /// Residents demand a Stadium.
    MessageNeedStadium,
    /// Industry requires a Sea Port.
    MessageNeedSeaport,
    /// Commerce requires an Airport.
    MessageNeedAirport,
    /// Pollution very high.
    MessageHighPollution,
    /// Crime very high.
    MessageHighCrime,
    /// Frequent traffic jams reported.
    MessageTrafficJams,
    /// Citizens demand a Fire Department.
    MessageNeedFireStation,
    /// Citizens demand a Police Department.
    MessageNeedPoliceStation,
    /// Blackouts reported. Check power map.
    MessageBlackoutsReported,
    /// Citizens upset. The tax rate is too high.
    MessageTaxTooHigh,
    /// Roads deteriorating, due to lack of funds.
    MessageRoadNeedsFunding,
    /// Fire departments need funding.
    MessageFireStationNeedsFunding,
    /// Police departments need funding.
    MessagePoliceNeedsFunding,
    /// Fire reported !
    MessageFireReported,
    /// A Monster has been sighted !!
    MessageMonsterSighted,
    /// Tornado reported !!
    MessageTornadoSighted,
    /// Major earthquake reported !!!
    MessageEarthquake,
    /// A plane has crashed !
    MessagePlaneCrashed,
    /// Shipwreck reported !
    MessageShipCrashed,
    /// A train crashed !
    MessageTrainCrashed,
    /// A helicopter crashed !
    MessageHelicopterCrashed,
    /// Unemployment rate is high.
    MessageHighUnemployment,
    /// YOUR CITY HAS GONE BROKE!
    MessageNoMoney,
    /// Firebombing reported !
    MessageFirebombing,
    /// Need more parks.
    MessageNeedMoreParks,
    /// Explosion detected !
    MessageExplosionReported,
    /// Insufficient funds to build that.
    MessageNotEnoughFunds,
    /// Area must be bulldozed first.
    MessageBulldozeAreaFirst,
    /// Population has reached 2,000.
    MessageReachedTown,
    /// Population has reached 10,000.
    MessageReachedCity,
    /// Population has reached 50,000.
    MessageReachedCapital,
    /// Population has reached 100,000.
    MessageReachedMetropolis,
    /// Population has reached 500,000.
    MessageReachedMegalopolis,
    /// Brownouts, build another Power Plant.
    MessageNotEnoughPower,
    /// Heavy Traffic reported.
    MessageHeavyTraffic,
    /// Flooding reported !!
    MessageFloodingReported,
    /// A Nuclear Meltdown has occurred !!!
    MessageNuclearMeltdown,
    /// They're rioting in the streets !!
    MessageRiotsReported,
    /// Started a New City.
    MessageStartedNewCity,
    /// Restored a Saved City.
    MessageLoadedSavedCity,
    /// You won the scenario
    MessageScenarioWon,
    /// You lose the scenario
    MessageScenarioLost,
    /// About micropolis.
    MessageAboutMicropolis,
    /// Dullsville scenario.
    MessageScenarioDullsville,
    /// San Francisco scenario.
    MessageScenarioSanFrancisco,
    /// Hamburg scenario.
    MessageScenarioHamburg,
    /// Bern scenario.
    MessageScenarioBern,
    /// Tokyo scenario.
    MessageScenarioTokyo,
    /// Detroit scenario.
    MessageScenarioDetroit,
    /// Boston scenario.
    MessageScenarioBoston,
    /// Rio de Janeiro scenario.
    MessageScenarioRioDeJaneiro,
    /// Last valid message
    MessageLast,
}

impl ScoreCardString {
    /// Index of the string in its resource.
    pub open spec fn index(self) -> int {
        match self {
            ScoreCardString::PopulationdensityLow => 0,
            ScoreCardString::PopulationdensityMedium => 1,
            ScoreCardString::PopulationdensityHigh => 2,
            ScoreCardString::PopulationdensityVeryhigh => 3,
            ScoreCardString::LandvalueSlum => 4,
            ScoreCardString::LandvalueLowerClass => 5,
            ScoreCardString::LandvalueMiddleClass => 6,
            ScoreCardString::LandvalueHighClass => 7,
            ScoreCardString::CrimeNone => 8,
            ScoreCardString::CrimeLight => 9,
            ScoreCardString::CrimeModerate => 10,
            ScoreCardString::CrimeDangerous => 11,
            ScoreCardString::PollutionNone => 12,
            ScoreCardString::PollutionModerate => 13,
            ScoreCardString::PollutionHeavy => 14,
            ScoreCardString::PollutionVeryHeavy => 15,
            ScoreCardString::GrowrateDeclining => 16,
            ScoreCardString::GrowrateStable => 17,
            ScoreCardString::GrowrateSlowGrowth => 18,
            ScoreCardString::GrowrateFastGrowth => 19,
        }
    }

    pub fn to_usize(&self) -> (r: usize)
        ensures
            r == self.index(),
    {
        match self {
            ScoreCardString::PopulationdensityLow => 0,
            ScoreCardString::PopulationdensityMedium => 1,
            ScoreCardString::PopulationdensityHigh => 2,
            ScoreCardString::PopulationdensityVeryhigh => 3,
            ScoreCardString::LandvalueSlum => 4,
            ScoreCardString::LandvalueLowerClass => 5,
            ScoreCardString::LandvalueMiddleClass => 6,
            ScoreCardString::LandvalueHighClass => 7,
            ScoreCardString::CrimeNone => 8,
            ScoreCardString::CrimeLight => 9,
            ScoreCardString::CrimeModerate => 10,
            ScoreCardString::CrimeDangerous => 11,
            ScoreCardString::PollutionNone => 12,
            ScoreCardString::PollutionModerate => 13,
            ScoreCardString::PollutionHeavy => 14,
            ScoreCardString::PollutionVeryHeavy => 15,
            ScoreCardString::GrowrateDeclining => 16,
            ScoreCardString::GrowrateStable => 17,
            ScoreCardString::GrowrateSlowGrowth => 18,
            ScoreCardString::GrowrateFastGrowth => 19,
        }
    }
}

impl GameMessage {
    /// Number of the message (the first message is number 1).
    pub open spec fn number(self) -> int {
        match self {
            GameMessage::MessageNeedMoreResidential => 1,
            GameMessage::MessageNeedMoreCommercial => 2,
            GameMessage::MessageNeedMoreIndustrial => 3,
            GameMessage::MessageNeedMoreRoads => 4,
            GameMessage::MessageNeedMoreRails => 5,
            GameMessage::MessageNeedElectricity => 6,
            GameMessage::MessageNeedStadium => 7,
            GameMessage::MessageNeedSeaport => 8,
            GameMessage::MessageNeedAirport => 9,
            GameMessage::MessageHighPollution => 10,
            GameMessage::MessageHighCrime => 11,
            GameMessage::MessageTrafficJams => 12,
            GameMessage::MessageNeedFireStation => 13,
            GameMessage::MessageNeedPoliceStation => 14,
            GameMessage::MessageBlackoutsReported => 15,
            GameMessage::MessageTaxTooHigh => 16,
            GameMessage::MessageRoadNeedsFunding => 17,
            GameMessage::MessageFireStationNeedsFunding => 18,
            GameMessage::MessagePoliceNeedsFunding => 19,
            GameMessage::MessageFireReported => 20,
            GameMessage::MessageMonsterSighted => 21,
            GameMessage::MessageTornadoSighted => 22,
            GameMessage::MessageEarthquake => 23,
            GameMessage::MessagePlaneCrashed => 24,
            GameMessage::MessageShipCrashed => 25,
            GameMessage::MessageTrainCrashed => 26,
            GameMessage::MessageHelicopterCrashed => 27,
            GameMessage::MessageHighUnemployment => 28,
            GameMessage::MessageNoMoney => 29,
            GameMessage::MessageFirebombing => 30,
            GameMessage::MessageNeedMoreParks => 31,
            GameMessage::MessageExplosionReported => 32,
            GameMessage::MessageNotEnoughFunds => 33,
            GameMessage::MessageBulldozeAreaFirst => 34,
            GameMessage::MessageReachedTown => 35,
            GameMessage::MessageReachedCity => 36,
            GameMessage::MessageReachedCapital => 37,
            GameMessage::MessageReachedMetropolis => 38,
            GameMessage::MessageReachedMegalopolis => 39,
            GameMessage::MessageNotEnoughPower => 40,
            GameMessage::MessageHeavyTraffic => 41,
            GameMessage::MessageFloodingReported => 42,
            GameMessage::MessageNuclearMeltdown => 43,
            GameMessage::MessageRiotsReported => 44,
            GameMessage::MessageStartedNewCity => 45,
            GameMessage::MessageLoadedSavedCity => 46,
            GameMessage::MessageScenarioWon => 47,
            GameMessage::MessageScenarioLost => 48,
            GameMessage::MessageAboutMicropolis => 49,
            GameMessage::MessageScenarioDullsville => 50,
            GameMessage::MessageScenarioSanFrancisco => 51,
            GameMessage::MessageScenarioHamburg => 52,
            GameMessage::MessageScenarioBern => 53,
            GameMessage::MessageScenarioTokyo => 54,
            GameMessage::MessageScenarioDetroit => 55,
            GameMessage::MessageScenarioBoston => 56,
            GameMessage::MessageScenarioRioDeJaneiro => 57,
            GameMessage::MessageLast => 58,
        }
    }

    pub fn to_usize(&self) -> (r: usize)
        ensures
            r == self.number(),
    {
        match self {
            GameMessage::MessageNeedMoreResidential => 1,
            GameMessage::MessageNeedMoreCommercial => 2,
            GameMessage::MessageNeedMoreIndustrial => 3,
            GameMessage::MessageNeedMoreRoads => 4,
            GameMessage::MessageNeedMoreRails => 5,
            GameMessage::MessageNeedElectricity => 6,
            GameMessage::MessageNeedStadium => 7,
            GameMessage::MessageNeedSeaport => 8,
            GameMessage::MessageNeedAirport => 9,
            GameMessage::MessageHighPollution => 10,
            GameMessage::MessageHighCrime => 11,
            GameMessage::MessageTrafficJams => 12,
            GameMessage::MessageNeedFireStation => 13,
            GameMessage::MessageNeedPoliceStation => 14,
            GameMessage::MessageBlackoutsReported => 15,
            GameMessage::MessageTaxTooHigh => 16,
            GameMessage::MessageRoadNeedsFunding => 17,
            GameMessage::MessageFireStationNeedsFunding => 18,
            GameMessage::MessagePoliceNeedsFunding => 19,
            GameMessage::MessageFireReported => 20,
            GameMessage::MessageMonsterSighted => 21,
            GameMessage::MessageTornadoSighted => 22,
            GameMessage::MessageEarthquake => 23,
            GameMessage::MessagePlaneCrashed => 24,
            GameMessage::MessageShipCrashed => 25,
            GameMessage::MessageTrainCrashed => 26,
            GameMessage::MessageHelicopterCrashed => 27,
            GameMessage::MessageHighUnemployment => 28,
            GameMessage::MessageNoMoney => 29,
            GameMessage::MessageFirebombing => 30,
            GameMessage::MessageNeedMoreParks => 31,
            GameMessage::MessageExplosionReported => 32,
            GameMessage::MessageNotEnoughFunds => 33,
            GameMessage::MessageBulldozeAreaFirst => 34,
            GameMessage::MessageReachedTown => 35,
            GameMessage::MessageReachedCity => 36,
            GameMessage::MessageReachedCapital => 37,
            GameMessage::MessageReachedMetropolis => 38,
            GameMessage::MessageReachedMegalopolis => 39,
            GameMessage::MessageNotEnoughPower => 40,
            GameMessage::MessageHeavyTraffic => 41,
            GameMessage::MessageFloodingReported => 42,
            GameMessage::MessageNuclearMeltdown => 43,
            GameMessage::MessageRiotsReported => 44,
            GameMessage::MessageStartedNewCity => 45,
            GameMessage::MessageLoadedSavedCity => 46,
            GameMessage::MessageScenarioWon => 47,
            GameMessage::MessageScenarioLost => 48,
            GameMessage::MessageAboutMicropolis => 49,
            GameMessage::MessageScenarioDullsville => 50,
            GameMessage::MessageScenarioSanFrancisco => 51,
            GameMessage::MessageScenarioHamburg => 52,
            GameMessage::MessageScenarioBern => 53,
            GameMessage::MessageScenarioTokyo => 54,
            GameMessage::MessageScenarioDetroit => 55,
            GameMessage::MessageScenarioBoston => 56,
            GameMessage::MessageScenarioRioDeJaneiro => 57,
            GameMessage::MessageLast => 58,
        }
    }
}

/// Number of strings of the score card resource.
pub const SCORE_CARD_STRINGS_COUNT: usize = 20;

/// Number of messages of the game messages resource.
pub const GAME_MESSAGES_COUNT: usize = 49;

impl MessagesStorage {
    #[verifier::type_invariant]
    spec fn counts(self) -> bool {
        self.score_card_strings@.len() == SCORE_CARD_STRINGS_COUNT && self.game_messages@.len()
            == GAME_MESSAGES_COUNT
    }

    /// Strings of the score card, in resource order.
    pub closed spec fn score_cards(&self) -> Seq<String> {
        self.score_card_strings@
    }

    /// Messages of the game, in resource order.
    pub closed spec fn messages(&self) -> Seq<String> {
        self.game_messages@
    }

    /// Build the storage from the lines of the score card resource and of
    /// the game messages resource.
    pub fn load(score_card_lines: Vec<String>, game_message_lines: Vec<String>) -> (r: Result<
        Self,
        String,
    >)
        ensures
            match r {
                Ok(storage) => {
                    &&& kept_messages(score_card_lines@).len() == SCORE_CARD_STRINGS_COUNT
                    &&& kept_messages(game_message_lines@).len() == GAME_MESSAGES_COUNT
                    &&& storage.score_cards().map_values(|s: String| s@) == kept_messages(
                        score_card_lines@,
                    )
                    &&& storage.messages().map_values(|s: String| s@) == kept_messages(
                        game_message_lines@,
                    )
                },
                Err(_) => kept_messages(score_card_lines@).len() != SCORE_CARD_STRINGS_COUNT
                    || kept_messages(game_message_lines@).len() != GAME_MESSAGES_COUNT,
            },
    {
        let score_card_strings = match parse_messages_resource(
            SCORE_CARD_STRINGS_COUNT,
            score_card_lines,
        ) {
            Ok(parsed) => parsed,
            Err(e) => {
                return Err(e);
            },
        };
        let game_messages = match parse_messages_resource(GAME_MESSAGES_COUNT, game_message_lines) {
            Ok(parsed) => parsed,
            Err(e) => {
                return Err(e);
            },
        };
        Ok(MessagesStorage { score_card_strings, game_messages })
    }

    pub fn get_score_card_string(&self, id: ScoreCardString) -> (r: Option<&String>)
        ensures
            r matches Some(s) && *s == self.score_cards()[id.index()],
    {
        proof {
            use_type_invariant(self);
        }
        let index = id.to_usize();
        if index < self.score_card_strings.len() {
            Some(&self.score_card_strings[index])
        } else {
            None
        }
    }

    pub fn get_game_message(&self, id: GameMessage) -> (r: Option<&String>)
        ensures
            id.number() <= GAME_MESSAGES_COUNT ==> (r matches Some(s) && *s == self.messages()[id.number() - 1]),
            id.number() > GAME_MESSAGES_COUNT ==> r is None,
    {
        proof {
            use_type_invariant(self);
        }
        match id.to_usize() {
            0 => None,
            index => if index - 1 < self.game_messages.len() {
                Some(&self.game_messages[index - 1])
            } else {
                None
            },
        }
    }
}

} // verus!
