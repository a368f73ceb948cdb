//! The shop's records, as far as they are pure computation: how a bill is
//! priced and taxed, and the shape of the stored license row. The SQLite
//! queries themselves live outside the verified library.
pub mod bills;
pub mod items;
pub mod license;
