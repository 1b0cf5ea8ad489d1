//! Verified core of the Adept combat simulator for Shop Titans: the
//! combinatorics, parsing and bookkeeping that drive skill studies.
pub mod combinations;
pub mod text;
pub mod lookup;
pub mod equipment;
pub mod dungeons;
pub mod heroes;
pub mod skills;
pub mod hero_builder;
pub mod gear;
pub mod studies;
pub mod dockets;
pub mod simulations;
pub mod deserialize;
pub mod reports;
