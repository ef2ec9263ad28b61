//! What the service is configured with, and how a defect in it is named.

use crate::decimal::{parse_i32, parsed_i32};
use crate::models::{option_text, GameType};
use vstd::prelude::*;
use vstd::string::StringExecFns;

verus! {

/// A defect in the configuration. None of these is an outcome of a game.
#[derive(Debug, Clone, Copy, PartialEq, Eq, Structural)]
pub enum ConfigurationError {
    /// The wheel's weights add up to zero, so no slot can be drawn.
    ZeroTotalWeight,
    /// No database is configured for this game.
    MissingDatabaseId(GameType),
}

/// The daily limit of records per key and game, where none is set.
pub const DEFAULT_DAILY_LIMIT: i32 = 1;

/// The daily limit that a setting gives: the number that it denotes, and the
/// default where it is missing or denotes none.
pub open spec fn configured_limit(setting: Option<Seq<char>>) -> i32 {
    match setting {
        Some(text) => match parsed_i32(text) {
            Some(limit) => limit,
            None => DEFAULT_DAILY_LIMIT,
        },
        None => DEFAULT_DAILY_LIMIT,
    }
}

/// The view of a piece of text that may be missing.
pub open spec fn option_str_view(text: Option<&str>) -> Option<Seq<char>> {
    match text {
        Some(s) => Some(s@),
        None => None,
    }
}

/// The daily limit that a setting gives: see [`configured_limit`].
pub fn daily_spin_limit(setting: Option<&str>) -> (limit: i32)
    ensures
        limit == configured_limit(option_str_view(setting)),
{
    match setting {
        Some(text) => match parse_i32(text) {
            Some(limit) => limit,
            None => DEFAULT_DAILY_LIMIT,
        },
        None => DEFAULT_DAILY_LIMIT,
    }
}

/// The port on which the service listens, where none is set.
pub const DEFAULT_PORT: &'static str = "80";

/// The address on which the service listens: every interface, at the port
/// that is set, or at the default port.
pub open spec fn listening_at(port: Option<Seq<char>>) -> Seq<char> {
    "0.0.0.0:"@ + match port {
        Some(text) => text,
        None => DEFAULT_PORT@,
    }
}

/// The address on which the service listens: see [`listening_at`].
pub fn listen_address(port: Option<&str>) -> (address: String)
    ensures
        address@ == listening_at(option_str_view(port)),
{
    let port = match port {
        Some(text) => text,
        None => DEFAULT_PORT,
    };
    String::from_str("0.0.0.0:").concat(port)
}

/// The database of each game. A game without a database is not configured.
#[derive(Debug, PartialEq, Eq)]
pub struct DatabaseIds {
    pub spin: Option<String>,
    pub wheel: Option<String>,
}

/// What a [`DatabaseIds`] holds, as mathematical values.
pub struct DatabaseIdsView {
    pub spin: Option<Seq<char>>,
    pub wheel: Option<Seq<char>>,
}

impl DatabaseIdsView {
    /// The database of a game, if it has one.
    pub open spec fn id_of(self, game_type: GameType) -> Option<Seq<char>> {
        match game_type {
            GameType::Spin => self.spin,
            GameType::Wheel => self.wheel,
        }
    }
}

/// The databases that the settings name. A legacy database, where one is
/// set, serves every game, whatever else is set. Without one each game needs
/// a database of its own, and the first game without one is the defect.
pub open spec fn resolved_ids(
    legacy: Option<Seq<char>>,
    spin: Option<Seq<char>>,
    wheel: Option<Seq<char>>,
) -> Result<DatabaseIdsView, ConfigurationError> {
    if legacy is Some {
        Ok(DatabaseIdsView { spin: legacy, wheel: legacy })
    } else if spin is None {
        Err(ConfigurationError::MissingDatabaseId(GameType::Spin))
    } else if wheel is None {
        Err(ConfigurationError::MissingDatabaseId(GameType::Wheel))
    } else {
        Ok(DatabaseIdsView { spin, wheel })
    }
}

impl View for DatabaseIds {
    type V = DatabaseIdsView;

    open spec fn view(&self) -> DatabaseIdsView {
        DatabaseIdsView { spin: option_text(self.spin), wheel: option_text(self.wheel) }
    }
}

impl DatabaseIds {
    /// The databases that the settings name: see [`resolved_ids`].
    pub fn resolve(legacy: Option<String>, spin: Option<String>, wheel: Option<String>) -> (ids:
        Result<DatabaseIds, ConfigurationError>)
        ensures
            match ids {
                Ok(found) => resolved_ids(
                    option_text(legacy),
                    option_text(spin),
                    option_text(wheel),
                ) == Ok::<DatabaseIdsView, ConfigurationError>(found@),
                Err(defect) => resolved_ids(
                    option_text(legacy),
                    option_text(spin),
                    option_text(wheel),
                ) == Err::<DatabaseIdsView, ConfigurationError>(defect),
            },
    {
        match legacy {
            Some(id) => {
                let copy = id.clone();
                Ok(DatabaseIds { spin: Some(copy), wheel: Some(id) })
            },
            None => match spin {
                None => Err(ConfigurationError::MissingDatabaseId(GameType::Spin)),
                Some(spin_id) => match wheel {
                    None => Err(ConfigurationError::MissingDatabaseId(GameType::Wheel)),
                    Some(wheel_id) => Ok(
                        DatabaseIds { spin: Some(spin_id), wheel: Some(wheel_id) },
                    ),
                },
            },
        }
    }

    /// The database of a game, if it has one.
    pub fn get(&self, game_type: GameType) -> (id: Option<&String>)
        ensures
            match id {
                Some(found) => self@.id_of(game_type) == Some(found@),
                None => self@.id_of(game_type) is None,
            },
    {
        match game_type {
            GameType::Spin => self.spin.as_ref(),
            GameType::Wheel => self.wheel.as_ref(),
        }
    }
}

} // verus!
