//! A transactional part-fitting and costing engine for an incrementally
//! constructed spaceship.
//!
//! A [`Spaceship`] is the persistent, already-paid-for collection of
//! installed parts. A [`SpaceshipBuilder`] is a single-use staging
//! transaction bound to one ship: it accumulates candidate parts and a
//! running cost, and `complete` either drains every staged part into the
//! ship (last staged first) or hands the still-intact builder back.
//!
//! All monetary amounts are integers in hundredths of a unit; see
//! [`part`] for why this fixed-point representation is exact.

use vstd::prelude::*;

pub mod laws;
pub mod part;

use crate::part::{
    capacity_fits, cost_formula, derived_part, lemma_wf_part_cost_bounds, CreatePartType, Part,
};

verus! {

/// Outcome of finalizing a transaction. On success the paid-for ship is
/// handed back; on failure the builder is returned intact, staged parts
/// and running cost unchanged, so the caller can inspect and retry.
#[derive(Debug)]
pub enum Purchase {
    Success(Spaceship),
    Failure(SpaceshipBuilder, FailureReason),
}

/// Why a purchase failed. Only `TooLittleFunds` is produced today; the
/// other variants are reserved in the taxonomy for rules to come.
#[derive(Debug, PartialEq)]
pub enum FailureReason {
    TooLittleFunds,
    MissingParts(Vec<CreatePartType>),
    ElectricityDeficit,
    NotEnoughProtection,
}

/// Mathematical value of a [`Spaceship`].
#[verifier::ext_equal]
pub ghost struct ShipView {
    pub name: Seq<char>,
    pub parts: Seq<Part>,
    pub id: u128,
    pub iteration: int,
}

/// The persistent aggregate of committed parts. Its part sequence is
/// mutated only by a successful builder commit, as one atomic append.
#[derive(Debug)]
pub struct Spaceship {
    pub name: String,
    pub parts: Vec<Part>,
    pub id: u128,
    pub iteration: u16,
}

impl View for Spaceship {
    type V = ShipView;

    open spec fn view(&self) -> ShipView {
        ShipView {
            name: self.name@,
            parts: self.parts@,
            id: self.id,
            iteration: self.iteration as int,
        }
    }
}

/// Sum of the sizes of a sequence of parts.
pub open spec fn total_size_of(parts: Seq<Part>) -> int
    decreases parts.len(),
{
    if parts.len() == 0 {
        0
    } else {
        total_size_of(parts.drop_last()) + parts.last().size
    }
}

pub proof fn lemma_total_size_nonneg(parts: Seq<Part>)
    ensures
        total_size_of(parts) >= 0,
    decreases parts.len(),
{
    if parts.len() > 0 {
        lemma_total_size_nonneg(parts.drop_last());
    }
}

pub proof fn lemma_total_size_push(parts: Seq<Part>, p: Part)
    ensures
        total_size_of(parts.push(p)) == total_size_of(parts) + p.size,
{
    assert(parts.push(p).drop_last() =~= parts);
    assert(parts.push(p).last() == p);
}

pub proof fn lemma_total_size_take_step(parts: Seq<Part>, i: int)
    requires
        0 <= i < parts.len(),
    ensures
        total_size_of(parts.take(i + 1)) == total_size_of(parts.take(i)) + parts[i].size,
{
    assert(parts.take(i + 1).drop_last() =~= parts.take(i));
    assert(parts.take(i + 1).last() == parts[i]);
}

pub proof fn lemma_total_size_take_le(parts: Seq<Part>, i: int)
    requires
        0 <= i <= parts.len(),
    ensures
        total_size_of(parts.take(i)) <= total_size_of(parts),
    decreases parts.len() - i,
{
    if i == parts.len() {
        assert(parts.take(i) =~= parts);
    } else {
        lemma_total_size_take_step(parts, i);
        lemma_total_size_take_le(parts, i + 1);
    }
}

pub proof fn lemma_total_size_remove(parts: Seq<Part>, j: int)
    requires
        0 <= j < parts.len(),
    ensures
        total_size_of(parts.remove(j)) == total_size_of(parts) - parts[j].size,
    decreases parts.len(),
{
    if j == parts.len() - 1 {
        assert(parts.remove(j) =~= parts.drop_last());
    } else {
        assert(parts.remove(j).drop_last() =~= parts.drop_last().remove(j));
        assert(parts.remove(j).last() == parts.last());
        lemma_total_size_remove(parts.drop_last(), j);
        assert(parts.drop_last()[j] == parts[j]);
    }
}

/// Sums part sizes on top of `base`, staying within `u16`.
fn sum_sizes(parts: &Vec<Part>, base: u16) -> (r: u16)
    requires
        base + total_size_of(parts@) <= u16::MAX,
    ensures
        r == base + total_size_of(parts@),
{
    let mut acc: u16 = base;
    let mut i: usize = 0;
    proof {
        assert(parts@.take(0) =~= Seq::<Part>::empty());
    }
    while i < parts.len()
        invariant
            i <= parts@.len(),
            acc == base + total_size_of(parts@.take(i as int)),
            base + total_size_of(parts@) <= u16::MAX,
        decreases parts@.len() - i,
    {
        proof {
            lemma_total_size_take_step(parts@, i as int);
            lemma_total_size_take_le(parts@, i as int + 1);
            lemma_total_size_nonneg(parts@.take(i as int));
        }
        acc = acc + parts[i].size;
        i = i + 1;
    }
    proof {
        assert(parts@.take(parts@.len() as int) =~= parts@);
    }
    acc
}

/// Generates a fresh 128-bit identifier.
///
/// Relies on `uuid::Uuid::new_v4`: a randomly generated identifier,
/// returned here as its 128-bit value. The value is random, so nothing
/// is promised of it.
#[verifier::external_body]
fn fresh_id() -> u128 {
    uuid::Uuid::new_v4().as_u128()
}

impl Spaceship {
    /// A ship is well formed when its installed parts are well formed
    /// and their total size fits the 16-bit total that `size` reports.
    pub open spec fn wf(self) -> bool {
        &&& total_size_of(self@.parts) <= u16::MAX
        &&& forall|i: int| 0 <= i < self@.parts.len() ==> (#[trigger] self@.parts[i]).wf()
    }

    /// Creates an empty ship with a fresh identifier and iteration 0.
    pub fn new(name: String) -> (s: Spaceship)
        ensures
            s@.name == name@,
            s@.parts == Seq::<Part>::empty(),
            s@.iteration == 0,
            s.wf(),
    {
        let s = Spaceship { name, parts: Vec::new(), id: fresh_id(), iteration: 0 };
        proof {
            assert(s@.parts =~= Seq::<Part>::empty());
        }
        s
    }

    /// Total size of the installed parts.
    pub fn size(&self) -> (r: u16)
        requires
            self.wf(),
        ensures
            r == total_size_of(self@.parts),
    {
        sum_sizes(&self.parts, 0)
    }
}

/// Mathematical value of a [`SpaceshipBuilder`].
#[verifier::ext_equal]
pub ghost struct BuilderView {
    pub ship: ShipView,
    pub costs: int,
    pub iteration: int,
    pub staged: Seq<Part>,
}

/// Base cost of a transaction, in hundredths (1000 whole units).
pub const BASE_COST: i64 = 100000;

/// Running cost a freshly opened transaction starts from, in
/// hundredths: the base cost scaled by (1 + 0.01 * iteration).
pub open spec fn base_cost_at(iteration: int) -> int {
    BASE_COST + 1000 * iteration
}

/// Installed plus staged size of everything the transaction sees.
pub open spec fn staged_total_size(b: BuilderView) -> int {
    total_size_of(b.ship.parts) + total_size_of(b.staged)
}

/// Marginal cost of adding `p` when `total` size is already present:
/// the part's own cost plus 0.01 per unit of present size.
pub open spec fn marginal_cost_of(p: Part, total: int) -> int {
    p.cost + total
}

/// The builder state after staging `p`.
pub open spec fn with_part_added(b: BuilderView, p: Part) -> BuilderView {
    BuilderView {
        costs: b.costs + marginal_cost_of(p, staged_total_size(b)),
        staged: b.staged.push(p),
        ..b
    }
}

/// The builder state after undoing the most recently staged part: the
/// part leaves the staging sequence and its marginal cost, recomputed
/// on the state after removal, leaves the running total.
pub open spec fn with_last_popped(b: BuilderView) -> BuilderView {
    let shrunk = BuilderView { staged: b.staged.drop_last(), ..b };
    BuilderView {
        costs: b.costs - marginal_cost_of(b.staged.last(), staged_total_size(shrunk)),
        ..shrunk
    }
}

/// The builder state after removing the staged part at index `j`, its
/// marginal cost recomputed on the state after removal.
pub open spec fn with_removed_at(b: BuilderView, j: int) -> BuilderView {
    let shrunk = BuilderView { staged: b.staged.remove(j), ..b };
    BuilderView {
        costs: b.costs - marginal_cost_of(b.staged[j], staged_total_size(shrunk)),
        ..shrunk
    }
}

/// The ship a successful commit leaves behind: every staged part is
/// appended, last staged first.
pub open spec fn committed_ship(b: BuilderView) -> ShipView {
    ShipView { parts: b.ship.parts + b.staged.reverse(), ..b.ship }
}

/// Index of the first staged part carrying `id`, or -1 if none does.
pub open spec fn find_staged(parts: Seq<Part>, id: u128) -> int
    decreases parts.len(),
{
    if parts.len() == 0 {
        -1
    } else if parts[0].id == id {
        0
    } else if find_staged(parts.skip(1), id) < 0 {
        -1
    } else {
        1 + find_staged(parts.skip(1), id)
    }
}

pub proof fn lemma_find_staged_absent(parts: Seq<Part>, id: u128)
    requires
        forall|k: int| 0 <= k < parts.len() ==> (#[trigger] parts[k]).id != id,
    ensures
        find_staged(parts, id) == -1,
    decreases parts.len(),
{
    if parts.len() > 0 {
        assert(forall|k: int|
            0 <= k < parts.skip(1).len() ==> #[trigger] parts.skip(1)[k] == parts[k + 1]);
        lemma_find_staged_absent(parts.skip(1), id);
    }
}

pub proof fn lemma_find_staged_first(parts: Seq<Part>, id: u128, j: int)
    requires
        0 <= j < parts.len(),
        parts[j].id == id,
        forall|k: int| 0 <= k < j ==> (#[trigger] parts[k]).id != id,
    ensures
        find_staged(parts, id) == j,
    decreases parts.len(),
{
    if j > 0 {
        assert(forall|k: int|
            0 <= k < parts.skip(1).len() ==> #[trigger] parts.skip(1)[k] == parts[k + 1]);
        lemma_find_staged_first(parts.skip(1), id, j - 1);
    }
}

/// An exclusively owned, single-use staging transaction bound to one
/// ship. Opening it increments the ship's iteration counter; it is
/// consumed by `complete`, which either commits or returns it intact.
#[derive(Debug)]
pub struct SpaceshipBuilder {
    pub ship: Spaceship,
    pub costs: i64,
    pub iteration: u16,
    pub parts: Vec<Part>,
}

impl View for SpaceshipBuilder {
    type V = BuilderView;

    open spec fn view(&self) -> BuilderView {
        BuilderView {
            ship: self.ship@,
            costs: self.costs as int,
            iteration: self.iteration as int,
            staged: self.parts@,
        }
    }
}

impl SpaceshipBuilder {
    /// A builder is well formed when its ship is, its staged parts are,
    /// and everything it sees still fits the 16-bit size total.
    pub open spec fn wf(self) -> bool {
        &&& self.ship.wf()
        &&& staged_total_size(self@) <= u16::MAX
        &&& forall|i: int| 0 <= i < self@.staged.len() ==> (#[trigger] self@.staged[i]).wf()
    }

    /// The running cost total, in hundredths.
    pub fn costs(&self) -> (r: i64)
        ensures
            r == self@.costs,
    {
        self.costs
    }

    /// Opens a transaction against `ship`, taking ownership of it for
    /// the transaction's lifetime. The ship's iteration counter is
    /// incremented and the running cost seeded from it.
    pub fn new(ship: Spaceship) -> (b: SpaceshipBuilder)
        requires
            ship.wf(),
            ship@.iteration < u16::MAX,
        ensures
            b.wf(),
            b@.ship.name == ship@.name,
            b@.ship.id == ship@.id,
            b@.ship.parts == ship@.parts,
            b@.ship.iteration == ship@.iteration + 1,
            b@.iteration == ship@.iteration + 1,
            b@.costs == base_cost_at(ship@.iteration + 1),
            b@.staged == Seq::<Part>::empty(),
    {
        let mut vessel = ship;
        vessel.iteration = vessel.iteration + 1;
        let iteration = vessel.iteration;
        let b = SpaceshipBuilder {
            ship: vessel,
            costs: BASE_COST + 1000 * (iteration as i64),
            iteration,
            parts: Vec::new(),
        };
        proof {
            assert(b@.staged =~= Seq::<Part>::empty());
        }
        b
    }

    /// Total size of everything the transaction sees: the ship's
    /// installed parts plus every staged part.
    pub fn size(&self) -> (r: u16)
        requires
            self.wf(),
        ensures
            r == staged_total_size(self@),
    {
        proof {
            lemma_total_size_nonneg(self@.ship.parts);
            lemma_total_size_nonneg(self@.staged);
        }
        let base = self.ship.size();
        sum_sizes(&self.parts, base)
    }

    /// Marginal cost that staging `part` would incur right now, in
    /// hundredths: the part's cost plus 0.01 per unit of present size.
    pub fn insert_part_cost(&self, part: &Part) -> (r: i64)
        requires
            self.wf(),
            part.wf(),
        ensures
            r == marginal_cost_of(*part, staged_total_size(self@)),
    {
        proof {
            lemma_wf_part_cost_bounds(*part);
        }
        part.cost + (self.size() as i64)
    }

    /// Marginal cost that `add_part(kind, size, level)` would incur
    /// right now, computed without mutating any state.
    pub fn add_part_cost(&self, part_type: CreatePartType, size: u16, level: u16) -> (r: i64)
        requires
            self.wf(),
            capacity_fits(part_type, size as int, level as int),
        ensures
            r == cost_formula(part_type, size as int, level as int) + staged_total_size(self@),
    {
        self.insert_part_cost(&Part::new(part_type, size, level, 0))
    }

    /// Stages an already-derived part, adding its marginal cost to the
    /// running total.
    pub fn insert_part(&mut self, part: Part)
        requires
            old(self).wf(),
            part.wf(),
            staged_total_size(old(self)@) + part.size <= u16::MAX,
            old(self)@.costs + part.cost + staged_total_size(old(self)@) <= i64::MAX,
        ensures
            final(self).wf(),
            final(self)@ == with_part_added(old(self)@, part),
    {
        proof {
            lemma_wf_part_cost_bounds(part);
            lemma_total_size_nonneg(old(self)@.ship.parts);
            lemma_total_size_nonneg(old(self)@.staged);
        }
        let marginal = self.insert_part_cost(&part);
        self.costs = self.costs + marginal;
        self.parts.push(part);
        proof {
            lemma_total_size_push(old(self)@.staged, part);
            assert(self@ =~= with_part_added(old(self)@, part));
            assert(forall|i: int|
                0 <= i < self@.staged.len() ==> (#[trigger] self@.staged[i]).wf());
        }
    }

    /// Derives a new part with a fresh identifier and stages it, adding
    /// its marginal cost to the running total.
    pub fn add_part(&mut self, part_type: CreatePartType, size: u16, level: u16)
        requires
            old(self).wf(),
            capacity_fits(part_type, size as int, level as int),
            staged_total_size(old(self)@) + size <= u16::MAX,
            old(self)@.costs + cost_formula(part_type, size as int, level as int)
                + staged_total_size(old(self)@) <= i64::MAX,
        ensures
            final(self).wf(),
            final(self)@.staged.len() == old(self)@.staged.len() + 1,
            (final(self)@.staged.last() == derived_part(
                part_type,
                size,
                level,
                final(self)@.staged.last().id,
            )),
            final(self)@ == with_part_added(old(self)@, final(self)@.staged.last()),
    {
        let id = fresh_id();
        self.insert_part(Part::new(part_type, size, level, id));
    }

    /// Removes and returns the most recently staged part, subtracting
    /// its marginal cost, recomputed on the state after removal, from
    /// the running total. Returns `None` if nothing is staged.
    pub fn pop_part(&mut self) -> (r: Option<Part>)
        requires
            old(self).wf(),
            old(self)@.staged.len() > 0 ==> i64::MIN <= with_last_popped(old(self)@).costs,
        ensures
            final(self).wf(),
            old(self)@.staged.len() == 0 ==> r == None::<Part> && final(self)@ == old(self)@,
            old(self)@.staged.len() > 0 ==> r == Some(old(self)@.staged.last()) && final(self)@
                == with_last_popped(old(self)@),
    {
        let part = match self.parts.pop() {
            Some(part) => part,
            None => {
                return None;
            },
        };
        proof {
            assert(forall|i: int|
                0 <= i < self@.staged.len() ==> (#[trigger] self@.staged[i]).wf());
            lemma_wf_part_cost_bounds(part);
            lemma_total_size_nonneg(self@.ship.parts);
            lemma_total_size_nonneg(self@.staged);
        }
        let marginal = self.insert_part_cost(&part);
        self.costs = self.costs - marginal;
        proof {
            assert(self@ =~= with_last_popped(old(self)@));
        }
        Some(part)
    }

    /// Removes the first staged part carrying `id`, subtracting its
    /// marginal cost, recomputed on the state after removal, from the
    /// running total. Returns `None`, changing nothing, if no staged
    /// part carries `id`.
    pub fn remove_part(&mut self, id: u128) -> (r: Option<Part>)
        requires
            old(self).wf(),
            find_staged(old(self)@.staged, id) >= 0 ==> i64::MIN <= with_removed_at(
                old(self)@,
                find_staged(old(self)@.staged, id),
            ).costs,
        ensures
            final(self).wf(),
            find_staged(old(self)@.staged, id) < 0 ==> r == None::<Part> && final(self)@ == old(
                self,
            )@,
            find_staged(old(self)@.staged, id) >= 0 ==> r == Some(
                old(self)@.staged[find_staged(old(self)@.staged, id)],
            ) && final(self)@ == with_removed_at(old(self)@, find_staged(old(self)@.staged, id)),
    {
        let found = position_of(&self.parts, id);
        let j = match found {
            Some(j) => j,
            None => {
                proof {
                    lemma_find_staged_absent(old(self)@.staged, id);
                }
                return None;
            },
        };
        proof {
            lemma_find_staged_first(old(self)@.staged, id, j as int);
        }
        let part = self.parts.remove(j);
        proof {
            lemma_total_size_remove(old(self)@.staged, j as int);
            lemma_total_size_nonneg(self@.staged);
            lemma_total_size_nonneg(self@.ship.parts);
            old(self)@.staged.remove_ensures(j as int);
            assert(forall|i: int|
                0 <= i < self@.staged.len() ==> (#[trigger] self@.staged[i]).wf());
            lemma_wf_part_cost_bounds(part);
        }
        let marginal = self.insert_part_cost(&part);
        self.costs = self.costs - marginal;
        proof {
            assert(self@ =~= with_removed_at(old(self)@, find_staged(old(self)@.staged, id)));
        }
        Some(part)
    }

    /// A read-only view of the currently staged parts, in staging
    /// order.
    pub fn parts_iter(&self) -> (r: &Vec<Part>)
        ensures
            r@ == self@.staged,
    {
        &self.parts
    }

    /// Consumes the transaction. If `funds` strictly exceeds the
    /// running cost, the cost is deducted from `funds`, every staged
    /// part moves into the ship in reverse staging order (last staged
    /// appended first) and the paid-for ship is returned. Otherwise
    /// nothing changes: the intact builder comes back inside the
    /// failure, tagged `TooLittleFunds`.
    pub fn complete(self, funds: &mut i64) -> (r: Purchase)
        requires
            self.wf(),
            *old(funds) - self@.costs <= i64::MAX,
        ensures
            *old(funds) > self@.costs ==> ({
                &&& *final(funds) == *old(funds) - self@.costs
                &&& r matches Purchase::Success(ship) && ship@ == committed_ship(self@)
                    && ship.wf() && ship@.parts.len() == self@.ship.parts.len()
                    + self@.staged.len()
            }),
            *old(funds) <= self@.costs ==> ({
                &&& *final(funds) == *old(funds)
                &&& r matches Purchase::Failure(b, reason) && b@ == self@ && b.wf()
                    && reason == (FailureReason::TooLittleFunds)
            }),
    {
        let ghost orig: BuilderView = self@;
        let mut this = self;
        if *funds > this.costs {
            *funds = *funds - this.costs;
            proof {
                assert(orig.staged.take(orig.staged.len() as int) =~= orig.staged);
                assert(orig.ship.parts + orig.staged.skip(orig.staged.len() as int).reverse()
                    =~= orig.ship.parts);
            }
            while this.parts.len() > 0
                invariant
                    this.parts@.len() <= orig.staged.len(),
                    this.parts@ == orig.staged.take(this.parts@.len() as int),
                    this.ship@.parts == orig.ship.parts + orig.staged.skip(
                        this.parts@.len() as int,
                    ).reverse(),
                    this.ship@.name == orig.ship.name,
                    this.ship@.id == orig.ship.id,
                    this.ship@.iteration == orig.ship.iteration,
                    total_size_of(this.ship@.parts) + total_size_of(this.parts@)
                        == staged_total_size(orig),
                    staged_total_size(orig) <= u16::MAX,
                    forall|i: int|
                        0 <= i < this.ship@.parts.len() ==> (#[trigger] this.ship@.parts[i]).wf(),
                    forall|i: int|
                        0 <= i < orig.staged.len() ==> (#[trigger] orig.staged[i]).wf(),
                decreases this.parts@.len(),
            {
                let ghost k = this.parts@.len() as int;
                let part = this.parts.pop().unwrap();
                proof {
                    assert(orig.staged.take(k).drop_last() =~= orig.staged.take(k - 1));
                    assert(orig.staged.take(k).last() == orig.staged[k - 1]);
                    lemma_total_size_take_step(orig.staged, k - 1);
                    lemma_total_size_push(this.ship@.parts, part);
                }
                this.ship.parts.push(part);
                proof {
                    assert(orig.staged.skip(k - 1).reverse() =~= orig.staged.skip(
                        k,
                    ).reverse().push(orig.staged[k - 1]));
                }
            }
            proof {
                assert(orig.staged.take(0) =~= Seq::<Part>::empty());
                assert(orig.staged.skip(0) =~= orig.staged);
                assert(this.ship@ =~= committed_ship(orig));
                lemma_total_size_nonneg(this.parts@);
            }
            Purchase::Success(this.ship)
        } else {
            Purchase::Failure(this, FailureReason::TooLittleFunds)
        }
    }
}

/// Index of the first part in `parts` carrying `id`, if any does.
fn position_of(parts: &Vec<Part>, id: u128) -> (r: Option<usize>)
    ensures
        (match r {
            Some(j) => j < parts@.len() && parts@[j as int].id == id && (forall|k: int|
                0 <= k < j ==> (#[trigger] parts@[k]).id != id),
            None => forall|k: int| 0 <= k < parts@.len() ==> (#[trigger] parts@[k]).id != id,
        }),
{
    let mut i: usize = 0;
    while i < parts.len()
        invariant
            i <= parts@.len(),
            forall|k: int| 0 <= k < i ==> (#[trigger] parts@[k]).id != id,
        decreases parts@.len() - i,
    {
        if parts[i].id == id {
            return Some(i);
        }
        i = i + 1;
    }
    None
}

} // verus!
