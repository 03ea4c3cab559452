//! The `Crate` entity — an organizing bucket of genre × optional energy role.
//! (File named `crate_` because `crate` is a Rust keyword.)
use vstd::prelude::*;
use uuid::Uuid;
use crate::domain::confidence::Energy;
use crate::domain::identity::{uuid_of_bits, hyphenated_hex, uuid_bits, uuid_from_bits, uuid_text};
use crate::text::str_eq;

verus! {

/// Stable identity of a `Crate`, held as the 128 bits of its UUID.
#[derive(Debug, Clone, Copy, PartialEq, Eq, Structural, Hash)]
pub struct CrateId {
    bits: u128,
}

impl CrateId {
    /// The canonical text of this id.
    pub closed spec fn spec_text(self) -> Seq<char> {
        hyphenated_hex(self.bits)
    }

    /// The UUID this id stands for.
    pub closed spec fn spec_uuid(self) -> Uuid {
        uuid_of_bits(self.bits)
    }

    /// Wraps a raw UUID (minted by the application's id provider).
    pub fn from_uuid(id: Uuid) -> (r: Self)
        ensures
            r.spec_uuid() == id,
            forall|other: Self| #[trigger] other.spec_uuid() == id ==> other == r,
    {
        CrateId { bits: uuid_bits(id) }
    }

    /// Returns the underlying UUID (for persistence at the adapter edge).
    pub fn as_uuid(&self) -> (u: Uuid)
        ensures
            u == self.spec_uuid(),
    {
        uuid_from_bits(self.bits)
    }

    /// The canonical hyphenated text of the id, as `Uuid`'s `Display` writes it.
    pub fn to_string(&self) -> (s: String)
        ensures
            s@ == self.spec_text(),
    {
        uuid_text(self.bits)
    }
}

/// The energy position of a crate within a set (the sub-axis unlocked by audio analysis).
#[derive(Debug, Clone, Copy, PartialEq, Eq, Structural)]
pub enum EnergyRole {
    /// Early-set, lower-energy openers.
    Warmup,
    /// Mid-set groove builders.
    Groove,
    /// Peak-time high energy.
    Peak,
    /// Set-closing wind-down.
    Closing,
}

/// Upper bound (inclusive) of the `Closing` energy band.
pub const CLOSING_ENERGY_MAX: u8 = 19;
/// Upper bound (inclusive) of the `Warmup` energy band.
pub const WARMUP_ENERGY_MAX: u8 = 44;
/// Upper bound (inclusive) of the `Groove` energy band; anything above is `Peak`.
pub const GROOVE_ENERGY_MAX: u8 = 69;

/// The role for an energy level: four ascending bands,
/// `Closing` (0–19), `Warmup` (20–44), `Groove` (45–69), `Peak` (70–100).
pub open spec fn role_for_level(level: int) -> EnergyRole {
    if level <= 19 {
        EnergyRole::Closing
    } else if level <= 44 {
        EnergyRole::Warmup
    } else if level <= 69 {
        EnergyRole::Groove
    } else {
        EnergyRole::Peak
    }
}

impl EnergyRole {
    /// The place of a role on the energy scale, lowest first.
    pub open spec fn rank(self) -> int {
        match self {
            EnergyRole::Closing => 0,
            EnergyRole::Warmup => 1,
            EnergyRole::Groove => 2,
            EnergyRole::Peak => 3,
        }
    }

    /// Human-readable label.
    pub open spec fn spec_label(self) -> Seq<char> {
        match self {
            EnergyRole::Warmup => "Warmup"@,
            EnergyRole::Groove => "Groove"@,
            EnergyRole::Peak => "Peak"@,
            EnergyRole::Closing => "Closing"@,
        }
    }

    /// Persistence token.
    pub open spec fn spec_str(self) -> Seq<char> {
        match self {
            EnergyRole::Warmup => "warmup"@,
            EnergyRole::Groove => "groove"@,
            EnergyRole::Peak => "peak"@,
            EnergyRole::Closing => "closing"@,
        }
    }

    /// The role a token names, if any.
    pub open spec fn spec_from_token(token: Seq<char>) -> Option<EnergyRole> {
        if token == "warmup"@ {
            Some(EnergyRole::Warmup)
        } else if token == "groove"@ {
            Some(EnergyRole::Groove)
        } else if token == "peak"@ {
            Some(EnergyRole::Peak)
        } else if token == "closing"@ {
            Some(EnergyRole::Closing)
        } else {
            None
        }
    }

    /// The role for a measured `energy`, by the four ascending bands of [`role_for_level`].
    ///
    /// Analysis only measures loudness, so the mapping is a reading of energy, not knowledge of
    /// where a track sits in a set; triage lets the human override it.
    pub fn for_energy(energy: Energy) -> (r: Self)
        ensures
            r == role_for_level(energy@),
    {
        let level = energy.value();
        if level <= CLOSING_ENERGY_MAX {
            EnergyRole::Closing
        } else if level <= WARMUP_ENERGY_MAX {
            EnergyRole::Warmup
        } else if level <= GROOVE_ENERGY_MAX {
            EnergyRole::Groove
        } else {
            EnergyRole::Peak
        }
    }

    /// Human-readable label used in crate display names.
    pub fn label(self) -> (s: &'static str)
        ensures
            s@ == self.spec_label(),
    {
        match self {
            EnergyRole::Warmup => "Warmup",
            EnergyRole::Groove => "Groove",
            EnergyRole::Peak => "Peak",
            EnergyRole::Closing => "Closing",
        }
    }

    /// Lowercase persistence token.
    pub fn as_str(self) -> (s: &'static str)
        ensures
            s@ == self.spec_str(),
    {
        match self {
            EnergyRole::Warmup => "warmup",
            EnergyRole::Groove => "groove",
            EnergyRole::Peak => "peak",
            EnergyRole::Closing => "closing",
        }
    }

    /// Parses a persistence token back into an energy role; `None` when unrecognized.
    pub fn from_token(token: &str) -> (r: Option<Self>)
        ensures
            r == Self::spec_from_token(token@),
    {
        if str_eq(token, "warmup") {
            Some(EnergyRole::Warmup)
        } else if str_eq(token, "groove") {
            Some(EnergyRole::Groove)
        } else if str_eq(token, "peak") {
            Some(EnergyRole::Peak)
        } else if str_eq(token, "closing") {
            Some(EnergyRole::Closing)
        } else {
            None
        }
    }
}

/// Energy is a scale, so the mapping never inverts: a louder track never files to a
/// lower-energy role than a quieter one.
pub proof fn lemma_role_monotonic(quieter: int, louder: int)
    requires
        0 <= quieter <= louder <= 100,
    ensures
        role_for_level(quieter).rank() <= role_for_level(louder).rank(),
{
}

/// The bands tile `0..=100` with no gap and no overlap: one step up the scale stays in the same
/// band or moves to the next one up, and every band is reached.
pub proof fn lemma_bands_contiguous(level: int)
    requires
        0 <= level < 100,
    ensures
        role_for_level(level + 1).rank() == role_for_level(level).rank()
            || role_for_level(level + 1).rank() == role_for_level(level).rank() + 1,
        role_for_level(0) == EnergyRole::Closing,
        role_for_level(100) == EnergyRole::Peak,
        role_for_level(20) == EnergyRole::Warmup,
        role_for_level(45) == EnergyRole::Groove,
{
}

/// Every energy role reads back from its own token.
pub proof fn lemma_role_token_round_trip(role: EnergyRole)
    ensures
        EnergyRole::spec_from_token(role.spec_str()) == Some(role),
{
    reveal_strlit("warmup");
    reveal_strlit("groove");
    reveal_strlit("peak");
    reveal_strlit("closing");
    assert("warmup"@ != "groove"@) by {
        assert("warmup"@[0] != "groove"@[0]);
    }
    assert("peak"@.len() != "warmup"@.len());
    assert("closing"@.len() != "warmup"@.len());
    assert("closing"@.len() != "groove"@.len());
    assert("closing"@.len() != "peak"@.len());
    assert("peak"@.len() != "groove"@.len());
}

/// How a crate came to exist.
#[derive(Debug, Clone, Copy, PartialEq, Eq, Structural)]
pub enum CrateOrigin {
    /// Discovered from a genre/energy present in the scanned library.
    Auto,
    /// Created by the user during triage.
    Manual,
}

impl CrateOrigin {
    /// Persistence token.
    pub open spec fn spec_str(self) -> Seq<char> {
        match self {
            CrateOrigin::Auto => "auto"@,
            CrateOrigin::Manual => "manual"@,
        }
    }

    /// The origin a token names, if any.
    pub open spec fn spec_from_token(token: Seq<char>) -> Option<CrateOrigin> {
        if token == "auto"@ {
            Some(CrateOrigin::Auto)
        } else if token == "manual"@ {
            Some(CrateOrigin::Manual)
        } else {
            None
        }
    }

    /// Lowercase persistence token.
    pub fn as_str(self) -> (s: &'static str)
        ensures
            s@ == self.spec_str(),
    {
        match self {
            CrateOrigin::Auto => "auto",
            CrateOrigin::Manual => "manual",
        }
    }

    /// Parses a persistence token back into an origin; `None` when unrecognized.
    pub fn from_token(token: &str) -> (r: Option<Self>)
        ensures
            r == Self::spec_from_token(token@),
    {
        if str_eq(token, "auto") {
            Some(CrateOrigin::Auto)
        } else if str_eq(token, "manual") {
            Some(CrateOrigin::Manual)
        } else {
            None
        }
    }
}

/// Every origin reads back from its own token.
pub proof fn lemma_origin_token_round_trip(origin: CrateOrigin)
    ensures
        CrateOrigin::spec_from_token(origin.spec_str()) == Some(origin),
{
    reveal_strlit("auto");
    reveal_strlit("manual");
    assert("auto"@.len() != "manual"@.len());
}

/// An organizing bucket. Crates are created from the genres/energies present in the library;
/// there is no fixed global taxonomy.
#[derive(Debug, PartialEq, Eq)]
pub struct Crate {
    id: CrateId,
    genre: String,
    energy_role: Option<EnergyRole>,
    created_by: CrateOrigin,
}

/// The abstract value of a `Crate`.
pub struct CrateView {
    /// Identity.
    pub id: CrateId,
    /// Primary genre axis.
    pub genre: Seq<char>,
    /// Optional energy sub-role.
    pub energy_role: Option<EnergyRole>,
    /// How the crate was created.
    pub created_by: CrateOrigin,
}

impl View for Crate {
    type V = CrateView;

    closed spec fn view(&self) -> CrateView {
        CrateView {
            id: self.id,
            genre: self.genre@,
            energy_role: self.energy_role,
            created_by: self.created_by,
        }
    }
}

/// The display name of a crate: `"<genre> · <Role>"`, or just the genre without a role.
pub open spec fn spec_display_name(genre: Seq<char>, role: Option<EnergyRole>) -> Seq<char> {
    match role {
        Some(r) => genre + " · "@ + r.spec_label(),
        None => genre,
    }
}

impl Clone for Crate {
    fn clone(&self) -> (r: Self)
        ensures
            r@ == self@,
    {
        Crate {
            id: self.id,
            genre: self.genre.clone(),
            energy_role: self.energy_role,
            created_by: self.created_by,
        }
    }
}

impl Crate {
    /// Builds a crate.
    pub fn new(
        id: CrateId,
        genre: String,
        energy_role: Option<EnergyRole>,
        created_by: CrateOrigin,
    ) -> (c: Self)
        ensures
            c@ == (CrateView { id, genre: genre@, energy_role, created_by }),
    {
        Crate { id, genre, energy_role, created_by }
    }

    /// The crate's identity.
    pub fn id(&self) -> (i: CrateId)
        ensures
            i == self@.id,
    {
        self.id
    }

    /// The primary genre axis.
    pub fn genre(&self) -> (g: &str)
        ensures
            g@ == self@.genre,
    {
        self.genre.as_str()
    }

    /// The optional energy sub-role.
    pub fn energy_role(&self) -> (r: Option<EnergyRole>)
        ensures
            r == self@.energy_role,
    {
        self.energy_role
    }

    /// How the crate was created.
    pub fn created_by(&self) -> (o: CrateOrigin)
        ensures
            o == self@.created_by,
    {
        self.created_by
    }

    /// Derived display name, e.g. `"Deep House · Peak"` or `"Deep House"`.
    pub fn display_name(&self) -> (s: String)
        ensures
            s@ == spec_display_name(self@.genre, self@.energy_role),
    {
        match self.energy_role {
            Some(role) => {
                let mut name = self.genre.clone();
                name.append(" · ");
                name.append(role.label());
                name
            },
            None => self.genre.clone(),
        }
    }
}

} // verus!
