//! Compendium module.
//!
//! The registry holds at most one installed compendium per game session.
//! Installation succeeds exactly once: after a compendium has been
//! accepted, every later attempt fails, and reads fall back to an empty
//! catalog until the single installation has happened.

pub mod standard_compendium;
pub use self::standard_compendium::StandardCompendium;

use self::standard_compendium::{spec_is_srd_compendium, StandardCompendium as Catalog};
use crate::error::{SRDError, SRDResult};
use vstd::prelude::*;

verus! {

/// A compendium with no registered content at all: what reads observe
/// while no compendium has been installed.
pub open spec fn spec_is_empty_compendium(c: StandardCompendium) -> bool {
    &&& c.spec_abilities().len() == 0
    &&& c.spec_skills().len() == 0
    &&& c.spec_races().len() == 0
    &&& c.spec_classes().len() == 0
    &&& c.spec_version() == 0
}

/// The installation slot for the content catalog of one game session.
///
/// The slot accepts exactly one compendium over its lifetime. While it is
/// empty, reads observe a catalog with no content, never an error.
pub struct CompendiumRegistry {
    installed: bool,
    current: StandardCompendium,
}

impl CompendiumRegistry {
    /// Whether a compendium has been installed.
    pub closed spec fn spec_installed(self) -> bool {
        self.installed
    }

    /// The catalog that reads observe.
    pub closed spec fn spec_current(self) -> StandardCompendium {
        self.current
    }

    /// The catalog is always well formed, and empty until a compendium
    /// has been installed.
    #[verifier::type_invariant]
    pub closed spec fn wf(self) -> bool {
        self.current.wf() && (!self.installed ==> spec_is_empty_compendium(self.current))
    }

    /// Constructs a registry with no compendium installed.
    pub fn new() -> (r: Self)
        ensures
            !r.spec_installed(),
            spec_is_empty_compendium(r.spec_current()),
    {
        Self { installed: false, current: StandardCompendium::default() }
    }
}

/// The registry after one attempt to install `compendium`: the attempt
/// takes effect only on a registry that holds nothing yet.
pub closed spec fn spec_after_set(
    registry: CompendiumRegistry,
    compendium: StandardCompendium,
) -> CompendiumRegistry {
    if registry.spec_installed() {
        registry
    } else {
        CompendiumRegistry { installed: true, current: compendium }
    }
}

/// Sets the registry's compendium.
///
/// This operation can succeed only once in the lifetime of a registry: it
/// returns an error if and only if a compendium has already been set, and
/// in that case the registry is unchanged.
pub fn set_compendium(
    registry: &mut CompendiumRegistry,
    compendium: StandardCompendium,
) -> (r: SRDResult<()>)
    requires
        compendium.wf(),
    ensures
        *final(registry) == spec_after_set(*old(registry), compendium),
        r matches Ok(u) <==> !old(registry).spec_installed(),
        old(registry).spec_installed() ==> r == Err::<(), SRDError>(SRDError::SetCompendiumError),
        final(registry).spec_installed(),
        !old(registry).spec_installed() ==> final(registry).spec_current() == compendium,
{
    proof {
        use_type_invariant(&*registry);
    }
    if registry.installed {
        Err(SRDError::SetCompendiumError)
    } else {
        *registry = CompendiumRegistry { installed: true, current: compendium };
        Ok(())
    }
}

/// Builds the full SRD catalog and installs it.
///
/// This is intended to run exactly once, at the start of a game session;
/// it must not be called after a compendium has been installed.
pub fn init_srd_compendium(registry: &mut CompendiumRegistry)
    requires
        !old(registry).spec_installed(),
    ensures
        final(registry).spec_installed(),
        spec_is_srd_compendium(final(registry).spec_current()),
{
    let catalog = StandardCompendium::with_srd();
    let installed = set_compendium(registry, catalog);
    proof {
        assert(installed is Ok);
    }
}

/// Returns a reference to the registry's catalog.
///
/// If a compendium has not been set, the catalog observed here has no
/// content: every lookup yields an empty result, never an error.
pub fn compendium(registry: &CompendiumRegistry) -> (r: &StandardCompendium)
    ensures
        *r == registry.spec_current(),
        r.wf(),
        !registry.spec_installed() ==> spec_is_empty_compendium(*r),
{
    proof {
        use_type_invariant(registry);
    }
    &registry.current
}

/// How many installation attempts out of a sequence of them take effect,
/// when they run one after the other against the same registry.
pub open spec fn spec_successful_sets(
    registry: CompendiumRegistry,
    attempts: Seq<StandardCompendium>,
) -> nat
    decreases attempts.len(),
{
    if attempts.len() == 0 {
        0
    } else {
        (if registry.spec_installed() {
            0nat
        } else {
            1nat
        }) + spec_successful_sets(spec_after_set(registry, attempts[0]), attempts.drop_first())
    }
}

/// One-time initialization: out of any number of installation attempts
/// performed in sequence, exactly one succeeds on a registry that holds
/// nothing yet, and none succeeds on a registry whose slot is already
/// taken.
pub proof fn lemma_set_compendium_succeeds_once(
    registry: CompendiumRegistry,
    attempts: Seq<StandardCompendium>,
)
    ensures
        registry.spec_installed() ==> spec_successful_sets(registry, attempts) == 0,
        !registry.spec_installed() && attempts.len() > 0 ==> spec_successful_sets(
            registry,
            attempts,
        ) == 1,
    decreases attempts.len(),
{
    if attempts.len() > 0 {
        lemma_set_compendium_succeeds_once(
            spec_after_set(registry, attempts[0]),
            attempts.drop_first(),
        );
        assert(spec_after_set(registry, attempts[0]).spec_installed());
    }
}

} // verus!
