//! Core logic of a turn-paced physics arena game.
//!
//! Small simulated creatures ("bugs") receive directional impulses from
//! players; a scheduler divides wall-clock ticks into an input half and a
//! resolve half, applies queued turns in strict index order, resolves combat
//! from collision reports and scores dwell time inside a central capture
//! zone. A two-seat lobby gates when the game may advance.
//!
//! All spatial quantities are fixed-point integers in thousandths of a world
//! unit; the host that owns the floating-point physics world converts at the
//! boundary.

mod audio;
mod bug;
mod draw;
mod game;
mod lobby;
mod particle;
mod pointer;
mod ui;
mod net;
mod turn;
mod position;
mod team;
mod vec2;

pub use audio::ClipId;
pub use bug::BugData;
pub use bug::BugSort;
pub use draw::text_length;
pub use game::Contact;
pub use game::Game;
pub use game::Impact;
pub use game::PropData;
pub use game::TickAction;
pub use game::IMPACT_SPEED_SQ;
pub use game::PROP_ID_BASE;
pub use game::TICKS_PER_SECOND;
pub use game::TURN_DURATION;
pub use game::TURN_TICK_COUNT;
pub use game::TURN_TICK_COUNT_HALF;
pub use lobby::Lobby;
pub use lobby::LobbyError;
pub use lobby::LobbyErrorKind;
pub use lobby::LobbyID;
pub use lobby::LobbySettings;
pub use lobby::LobbySort;
pub use lobby::Player;
pub use net::Message;
pub use net::MessagePool;
pub use net::SessionMessage;
pub use net::SessionNewLobby;
pub use net::SessionRequest;
pub use particle::ParticleSort;
pub use pointer::Pointer;
pub use ui::Alignment;
pub use ui::ButtonElement;
pub use ui::ButtonGroupElement;
pub use ui::ConfirmButtonElement;
pub use ui::ContentElement;
pub use ui::LabelTheme;
pub use ui::LabelTrim;
pub use ui::ToggleButtonElement;
pub use ui::UIEvent;
pub use position::Position;
pub use team::GameResult;
pub use team::Team;
pub use turn::Turn;
pub use vec2::Vec2;
pub use vec2::clamp_intent;
pub use vec2::isqrt;
