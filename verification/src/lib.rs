//! The core of a mobile client: the user session, the dictionary and GraphQL
//! asset data sources, and a repository of users with a session observer.

pub mod text;
pub mod model;
pub mod user_repository;
pub mod dictionary;
pub mod graphql;
pub mod spike;
