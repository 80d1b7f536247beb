//! Core rule components shared with the host battle engine.

pub mod action;
pub use self::action::{Action, ActionId, ActionInitializer, ActionsSeed};

pub mod narrator;
pub use self::narrator::Narrator;

pub mod size;
pub use self::size::CreatureSize;

pub mod statistic;
pub use self::statistic::{
    Statistic, StatisticChange, StatisticId, StatisticInitializer, StatisticsSeed,
};

use crate::util::PackageVersion;
use vstd::prelude::*;

verus! {

/// Version of one set of battle rules: the version of the compendium the
/// rules were built against, together with this package's version.
#[derive(Debug, Copy, Clone, PartialEq, Eq, Structural)]
pub struct SRDRulesVersion {
    compendium: u32,
    package: PackageVersion,
}

impl SRDRulesVersion {
    /// The compendium version.
    pub closed spec fn spec_compendium(self) -> u32 {
        self.compendium
    }

    /// The package version.
    pub closed spec fn spec_package(self) -> PackageVersion {
        self.package
    }

    /// Constructs a version from its two components.
    pub fn new(compendium: u32, package: PackageVersion) -> (r: Self)
        ensures
            r.spec_compendium() == compendium,
            r.spec_package() == package,
    {
        SRDRulesVersion { compendium, package }
    }
}

} // verus!
