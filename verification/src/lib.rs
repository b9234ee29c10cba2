//! Verified exercises: a credential-verification pipeline with a layered
//! error taxonomy, a FizzBuzz sequence generator, and a small monster-taming
//! model.

pub mod auth;
pub mod fizzbuzz;
pub mod laws;
pub mod monster;
pub mod store;
pub mod token;

pub use auth::VerifyError;
pub use auth::check_credentials;
pub use auth::verify;
pub use fizzbuzz::fizz_buzz;
pub use monster::Battle;
pub use monster::Monster;
pub use monster::Slime;
pub use monster::Tamed;
pub use monster::TamedSlime;
pub use store::LoadError;
pub use store::User;
pub use store::find_user;
pub use token::ParseError;
pub use token::parse_basic_auth;
