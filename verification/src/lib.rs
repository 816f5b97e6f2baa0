//! Verified core of a client for the Charles Schwab trading API: the rules
//! for application credentials, the lifetimes of OAuth tokens, the HTTP
//! requests of every API call, the requests of the streaming service, the
//! record of stream subscriptions that a reconnected stream asks for again,
//! and the reconnection policy. Network and file access are the caller's:
//! this crate decides what to send and how the client's state evolves.

pub mod assoc;
pub mod client;
pub mod codec;
pub mod enums;
pub mod error;
pub mod pkce;
pub mod stream;
pub mod subscriptions;
pub mod text;
pub mod time;
pub mod tokens;
pub mod types;

pub use client::Client;
pub use client::HttpMethod;
pub use client::HttpRequest;
pub use client::RequestTimeout;
pub use enums::AssetType;
pub use enums::Duration;
pub use enums::FrequencyType;
pub use enums::Instruction;
pub use enums::MoversSort;
pub use enums::OptionRange;
pub use enums::OptionStrategy;
pub use enums::OptionType;
pub use enums::OrderStatus;
pub use enums::OrderType;
pub use enums::PeriodType;
pub use enums::Session;
pub use enums::StreamCommand;
pub use enums::StreamService;
pub use enums::TimeFormat;
pub use error::SchwabError;
pub use stream::ReconnectAction;
pub use stream::StreamClient;
pub use time::UtcTime;
pub use tokens::OAuthTokenRequest;
pub use tokens::TokenManager;
pub use types::AccountPreferences;
pub use types::Offer;
pub use types::SavedTokens;
pub use types::StreamRequest;
pub use types::StreamRequests;
pub use types::StreamerInfo;
pub use types::TokenResponse;
pub use types::UserPreferences;
