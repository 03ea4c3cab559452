//! In-memory crate store: dynamic find-or-create keyed on `(genre, energy role)`.
use vstd::prelude::*;
use crate::application::ports::crate_repository::CrateSpec;
use crate::domain::crate_::{Crate, CrateId, CrateOrigin, CrateView, EnergyRole};
use crate::text::str_eq;

verus! {

/// The views of a list of crates.
pub open spec fn crate_views(s: Seq<Crate>) -> Seq<CrateView> {
    s.map_values(|c: Crate| c@)
}

/// Whether no two crates share a `(genre, role)` pair.
pub open spec fn pairs_unique(s: Seq<CrateView>) -> bool {
    forall|i: int, j: int|
        0 <= i < j < s.len() ==> !((#[trigger] s[i]).genre == (#[trigger] s[j]).genre
            && s[i].energy_role == s[j].energy_role)
}

/// The position of the crate for `(genre, role)`, if any.
pub open spec fn position_of_pair(s: Seq<CrateView>, genre: Seq<char>, role: Option<EnergyRole>) -> Option<int>
    decreases s.len(),
{
    if s.len() == 0 {
        None
    } else if s[0].genre == genre && s[0].energy_role == role {
        Some(0)
    } else {
        match position_of_pair(s.drop_first(), genre, role) {
            Some(i) => Some(i + 1),
            None => None,
        }
    }
}

/// The position of the first crate with id `id`, if any.
pub open spec fn position_of_crate(s: Seq<CrateView>, id: CrateId) -> Option<int>
    decreases s.len(),
{
    if s.len() == 0 {
        None
    } else if s[0].id == id {
        Some(0)
    } else {
        match position_of_crate(s.drop_first(), id) {
            Some(i) => Some(i + 1),
            None => None,
        }
    }
}

/// The store and the crate after resolving `(genre, role)`: the existing crate, unchanged, or
/// a new one with `fresh` as its id and `origin` as its origin.
pub open spec fn spec_find_or_create(
    s: Seq<CrateView>,
    genre: Seq<char>,
    role: Option<EnergyRole>,
    origin: CrateOrigin,
    fresh: CrateId,
) -> (Seq<CrateView>, CrateView) {
    match position_of_pair(s, genre, role) {
        Some(i) => (s, s[i]),
        None => {
            let c = CrateView { id: fresh, genre, energy_role: role, created_by: origin };
            (s.push(c), c)
        },
    }
}

/// `position_of_pair` finds the first crate with the pair, and only when there is one.
proof fn lemma_position_of_pair(s: Seq<CrateView>, genre: Seq<char>, role: Option<EnergyRole>)
    ensures
        match position_of_pair(s, genre, role) {
            Some(i) => 0 <= i < s.len() && s[i].genre == genre && s[i].energy_role == role
                && forall|j: int| 0 <= j < i ==> !((#[trigger] s[j]).genre == genre && s[j].energy_role == role),
            None => forall|j: int| 0 <= j < s.len() ==> !((#[trigger] s[j]).genre == genre && s[j].energy_role == role),
        },
    decreases s.len(),
{
    if s.len() > 0 {
        lemma_position_of_pair(s.drop_first(), genre, role);
        assert forall|j: int| 1 <= j < s.len() implies s[j] == s.drop_first()[j - 1] by {}
    }
}

/// `position_of_crate` finds the first crate with the id, and only when there is one.
pub proof fn lemma_position_of_crate(s: Seq<CrateView>, id: CrateId)
    ensures
        match position_of_crate(s, id) {
            Some(i) => 0 <= i < s.len() && s[i].id == id && forall|j: int|
                0 <= j < i ==> (#[trigger] s[j]).id != id,
            None => forall|j: int| 0 <= j < s.len() ==> (#[trigger] s[j]).id != id,
        },
    decreases s.len(),
{
    if s.len() > 0 {
        lemma_position_of_crate(s.drop_first(), id);
        assert forall|j: int| 1 <= j < s.len() implies s[j] == s.drop_first()[j - 1] by {}
    }
}

/// Resolving a pair keeps pairs unique.
proof fn lemma_find_or_create_unique(
    s: Seq<CrateView>,
    genre: Seq<char>,
    role: Option<EnergyRole>,
    origin: CrateOrigin,
    fresh: CrateId,
)
    requires
        pairs_unique(s),
    ensures
        pairs_unique(spec_find_or_create(s, genre, role, origin, fresh).0),
{
    lemma_position_of_pair(s, genre, role);
}

/// Find-or-create is idempotent: resolving the same pair again finds the crate the first call
/// returned and leaves the store as the first call left it, whatever origin or fresh id the
/// second call offers.
pub proof fn lemma_find_or_create_idempotent(
    s: Seq<CrateView>,
    genre: Seq<char>,
    role: Option<EnergyRole>,
    origin: CrateOrigin,
    fresh: CrateId,
    origin2: CrateOrigin,
    fresh2: CrateId,
)
    requires
        pairs_unique(s),
    ensures
        ({
            let (s1, c1) = spec_find_or_create(s, genre, role, origin, fresh);
            let (s2, c2) = spec_find_or_create(s1, genre, role, origin2, fresh2);
            s2 == s1 && c2 == c1
        }),
{
    lemma_position_of_pair(s, genre, role);
    let (s1, c1) = spec_find_or_create(s, genre, role, origin, fresh);
    lemma_find_or_create_unique(s, genre, role, origin, fresh);
    lemma_position_of_pair(s1, genre, role);
    match position_of_pair(s, genre, role) {
        Some(i) => {},
        None => {
            assert(s1[s.len() as int] == c1);
        },
    }
}

/// A `CrateRepository` backed by an in-memory list.
#[derive(Debug)]
pub struct InMemoryCrateRepository {
    crates: Vec<Crate>,
}

impl View for InMemoryCrateRepository {
    type V = Seq<CrateView>;

    closed spec fn view(&self) -> Seq<CrateView> {
        crate_views(self.crates@)
    }
}

impl InMemoryCrateRepository {
    #[verifier::type_invariant]
    spec fn unique_pairs(self) -> bool {
        pairs_unique(crate_views(self.crates@))
    }

    /// Builds an empty repository.
    pub fn new() -> (r: Self)
        ensures
            r@ == Seq::<CrateView>::empty(),
    {
        let r = InMemoryCrateRepository { crates: Vec::new() };
        assert(r@ =~= Seq::<CrateView>::empty());
        r
    }

    /// The crate for `(genre, role)`, if one exists.
    pub fn find_matching(&self, genre: &str, role: Option<EnergyRole>) -> (r: Option<Crate>)
        ensures
            match position_of_pair(self@, genre@, role) {
                Some(i) => r is Some && r->0@ == self@[i],
                None => r is None,
            },
    {
        let mut i: usize = 0;
        while i < self.crates.len()
            invariant
                i <= self.crates.len(),
                self@ == crate_views(self.crates@),
                forall|j: int| 0 <= j < i ==> !((#[trigger] self@[j]).genre == genre@ && self@[j].energy_role == role),
            decreases self.crates.len() - i,
        {
            assert(self@[i as int] == self.crates@[i as int]@);
            if str_eq(self.crates[i].genre(), genre) && self.crates[i].energy_role() == role {
                proof {
                    lemma_position_of_pair(self@, genre@, role);
                }
                return Some(self.crates[i].clone());
            }
            i = i + 1;
        }
        proof {
            lemma_position_of_pair(self@, genre@, role);
        }
        None
    }

    /// Returns the crate for `(spec.genre, spec.role)`, creating it with id `fresh` if absent.
    /// Idempotent, and `spec.origin` applies only to a fresh creation.
    pub fn find_or_create(&mut self, spec: &CrateSpec, fresh: CrateId) -> (c: Crate)
        ensures
            (final(self)@, c@) == spec_find_or_create(
                old(self)@,
                spec.genre@,
                spec.role,
                spec.origin,
                fresh,
            ),
    {
        proof {
            use_type_invariant(&*self);
            lemma_find_or_create_unique(self@, spec.genre@, spec.role, spec.origin, fresh);
        }
        if let Some(existing) = self.find_matching(spec.genre.as_str(), spec.role) {
            return existing;
        }
        let created = Crate::new(fresh, spec.genre.clone(), spec.role, spec.origin);
        let ghost s = self@;
        let mut crates: Vec<Crate> = Vec::new();
        std::mem::swap(&mut crates, &mut self.crates);
        crates.push(created.clone());
        assert(crate_views(crates@) =~= s.push(created@));
        self.crates = crates;
        created
    }

    /// Looks up a crate by id.
    pub fn find_by_id(&self, id: CrateId) -> (r: Option<Crate>)
        ensures
            match position_of_crate(self@, id) {
                Some(i) => r is Some && r->0@ == self@[i],
                None => r is None,
            },
    {
        let mut i: usize = 0;
        while i < self.crates.len()
            invariant
                i <= self.crates.len(),
                self@ == crate_views(self.crates@),
                forall|j: int| 0 <= j < i ==> (#[trigger] self@[j]).id != id,
            decreases self.crates.len() - i,
        {
            assert(self@[i as int] == self.crates@[i as int]@);
            if self.crates[i].id() == id {
                proof {
                    lemma_position_of_crate(self@, id);
                }
                return Some(self.crates[i].clone());
            }
            i = i + 1;
        }
        proof {
            lemma_position_of_crate(self@, id);
        }
        None
    }

    /// Returns every crate.
    pub fn list(&self) -> (r: Vec<Crate>)
        ensures
            crate_views(r@) == self@,
    {
        let mut r: Vec<Crate> = Vec::new();
        let mut i: usize = 0;
        while i < self.crates.len()
            invariant
                i <= self.crates.len(),
                crate_views(r@) == crate_views(self.crates@.take(i as int)),
            decreases self.crates.len() - i,
        {
            let ghost before = r@;
            let c = self.crates[i].clone();
            r.push(c);
            assert(crate_views(r@) =~= crate_views(before).push(c@));
            assert(crate_views(self.crates@.take(i + 1)) =~= crate_views(self.crates@.take(i as int)).push(
                self.crates@[i as int]@,
            ));
            i = i + 1;
        }
        assert(self.crates@.take(self.crates.len() as int) =~= self.crates@);
        r
    }
}

} // verus!
