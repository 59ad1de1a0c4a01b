//! A small user directory: user records with a closed set of statuses, a
//! keyed cache of fetched users with the decisions of a cache-or-fetch client,
//! and aggregation helpers over collections of users.

pub mod clock;
pub mod manager;
pub mod status;
pub mod user;

pub use clock::{days_between, Timestamp};
pub use manager::{FetchReply, FetchStep, UserManager, UserStatistics};
pub use status::UserStatus;
pub use user::{ApiResponse, User, UserError, UserOperations, UserView};
