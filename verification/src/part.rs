//! Parts and their derived stats.
//!
//! Monetary amounts and derived stats (health, electricity, cost,
//! protection) are held as integers in hundredths of a unit. Every
//! coefficient in the derivation formulas is an exact multiple of 0.01,
//! so this fixed-point representation is exact.

use vstd::prelude::*;

verus! {

/// The kind of part a caller asks for.
#[derive(Debug, Clone, Copy, PartialEq, Eq)]
pub enum CreatePartType {
    Hull,
    Cargo,
    Cockpit,
    SolarPanels,
    LivingQuarters,
}

/// Hull payload: protection, in hundredths (0.6 * size * 0.4 * level).
#[derive(Debug)]
pub struct Hull {
    pub protection: i64,
}

/// Cargo payload: capacity, in whole units (size + 10 * level).
#[derive(Debug)]
pub struct Cargo {
    pub capacity: u16,
}

pub type Cockpit = ();

pub type SolarPanels = ();

/// Living-quarters payload: capacity, in whole units (size + 10 * level).
#[derive(Debug)]
pub struct LivingQuarters {
    pub capacity: u16,
}

/// A constructed part's type tag, carrying the kind-specific payload.
#[derive(Debug)]
pub enum PartType {
    Hull(Hull),
    Cargo(Cargo),
    Cockpit(Cockpit),
    SolarPanels(SolarPanels),
    LivingQuarters(LivingQuarters),
}

/// An immutable part. The three derived stats are computed once at
/// construction from (kind, size, level) and never recomputed.
#[derive(Debug)]
pub struct Part {
    pub id: u128,
    pub part_type: PartType,
    pub size: u16,
    pub level: u16,
    /// Health capacity, in hundredths.
    pub health: i64,
    /// Monetary cost, in hundredths.
    pub cost: i64,
    /// Net electricity contribution, in hundredths; generating kinds are
    /// positive, consuming kinds negative.
    pub electricity: i64,
}

/// Health capacity of a part, in hundredths.
pub open spec fn health_formula(kind: CreatePartType, size: int, level: int) -> int {
    match kind {
        CreatePartType::Hull => 40 * (size * level),
        CreatePartType::Cargo => 10 * (size * level),
        CreatePartType::Cockpit => 80 * (size * level),
        CreatePartType::SolarPanels => 80 * (size * level),
        CreatePartType::LivingQuarters => 80 * (size * level),
    }
}

/// Net electricity contribution of a part, in hundredths.
pub open spec fn electricity_formula(kind: CreatePartType, size: int, level: int) -> int {
    match kind {
        CreatePartType::Hull => -10 * (size * level),
        CreatePartType::Cargo => -20 * (size * level),
        CreatePartType::Cockpit => -80 * (size * level),
        CreatePartType::SolarPanels => 120 * (size * level),
        CreatePartType::LivingQuarters => -80 * (size * level),
    }
}

/// Monetary cost of a part on its own, in hundredths.
pub open spec fn cost_formula(kind: CreatePartType, size: int, level: int) -> int {
    match kind {
        CreatePartType::Hull => 10000 + 2 * size + 5000 * level,
        CreatePartType::Cargo => 5000 + 8 * size + 10000 * level,
        CreatePartType::Cockpit => 10000 + 10 * size + 10000 * level,
        CreatePartType::SolarPanels => 10000 + 10 * size + 10000 * level,
        CreatePartType::LivingQuarters => 10000 + 10 * size + 10000 * level,
    }
}

/// The type tag a derived part carries, payload included.
pub open spec fn part_type_formula(kind: CreatePartType, size: int, level: int) -> PartType {
    match kind {
        CreatePartType::Hull => PartType::Hull(Hull { protection: (24 * (size * level)) as i64 }),
        CreatePartType::Cargo => PartType::Cargo(Cargo { capacity: (size + 10 * level) as u16 }),
        CreatePartType::Cockpit => PartType::Cockpit(()),
        CreatePartType::SolarPanels => PartType::SolarPanels(()),
        CreatePartType::LivingQuarters => PartType::LivingQuarters(
            LivingQuarters { capacity: (size + 10 * level) as u16 },
        ),
    }
}

/// The cargo and living-quarters kinds store a capacity in a 16-bit
/// field; for the other kinds no capacity exists and no bound is asked.
pub open spec fn capacity_fits(kind: CreatePartType, size: int, level: int) -> bool {
    (kind is Cargo || kind is LivingQuarters) ==> size + 10 * level <= u16::MAX
}

/// The part `derive(kind, size, level, id)` returns.
pub open spec fn derived_part(kind: CreatePartType, size: u16, level: u16, id: u128) -> Part {
    Part {
        id,
        part_type: part_type_formula(kind, size as int, level as int),
        size,
        level,
        health: health_formula(kind, size as int, level as int) as i64,
        cost: cost_formula(kind, size as int, level as int) as i64,
        electricity: electricity_formula(kind, size as int, level as int) as i64,
    }
}

impl Part {
    /// The kind this part was derived from.
    pub open spec fn kind(self) -> CreatePartType {
        match self.part_type {
            PartType::Hull(_) => CreatePartType::Hull,
            PartType::Cargo(_) => CreatePartType::Cargo,
            PartType::Cockpit(_) => CreatePartType::Cockpit,
            PartType::SolarPanels(_) => CreatePartType::SolarPanels,
            PartType::LivingQuarters(_) => CreatePartType::LivingQuarters,
        }
    }

    /// A part is well formed when every stored field agrees with the
    /// derivation formulas for its kind.
    pub open spec fn wf(self) -> bool {
        self == derived_part(self.kind(), self.size, self.level, self.id)
    }

    pub fn id(&self) -> (r: u128)
        ensures
            r == self.id,
    {
        self.id
    }

    pub fn part_type(&self) -> (r: &PartType)
        ensures
            r == &self.part_type,
    {
        &self.part_type
    }

    pub fn size(&self) -> (r: u16)
        ensures
            r == self.size,
    {
        self.size
    }

    pub fn level(&self) -> (r: u16)
        ensures
            r == self.level,
    {
        self.level
    }

    pub fn health(&self) -> (r: i64)
        ensures
            r == self.health,
    {
        self.health
    }

    pub fn cost(&self) -> (r: i64)
        ensures
            r == self.cost,
    {
        self.cost
    }

    pub fn electricity(&self) -> (r: i64)
        ensures
            r == self.electricity,
    {
        self.electricity
    }

    /// Derives a part per the formula table from (kind, size, level).
    pub(crate) fn new(part_type: CreatePartType, size: u16, level: u16, id: u128) -> (p: Part)
        requires
            capacity_fits(part_type, size as int, level as int),
        ensures
            p == derived_part(part_type, size, level, id),
            p.wf(),
    {
        let s = size as i64;
        let l = level as i64;
        proof {
            assert(0 <= (size as int) * (level as int) <= 65535 * 65535) by (nonlinear_arith)
                requires
                    0 <= size as int <= 65535,
                    0 <= level as int <= 65535,
            ;
        }
        let sl = s * l;
        proof {
            assert(0 <= sl <= 65535 * 65535);
        }
        match part_type {
            CreatePartType::Hull => Part {
                part_type: PartType::Hull(Hull { protection: 24 * sl }),
                size,
                level,
                id,
                health: 40 * sl,
                electricity: -(10 * sl),
                cost: 10000 + 2 * s + 5000 * l,
            },
            CreatePartType::Cargo => Part {
                part_type: PartType::Cargo(Cargo { capacity: size + 10 * level }),
                size,
                level,
                id,
                health: 10 * sl,
                electricity: -(20 * sl),
                cost: 5000 + 8 * s + 10000 * l,
            },
            CreatePartType::Cockpit => Part {
                part_type: PartType::Cockpit(()),
                size,
                level,
                id,
                health: 80 * sl,
                electricity: -(80 * sl),
                cost: 10000 + 10 * s + 10000 * l,
            },
            CreatePartType::SolarPanels => Part {
                part_type: PartType::SolarPanels(()),
                size,
                level,
                id,
                health: 80 * sl,
                electricity: 120 * sl,
                cost: 10000 + 10 * s + 10000 * l,
            },
            CreatePartType::LivingQuarters => Part {
                part_type: PartType::LivingQuarters(
                    LivingQuarters { capacity: size + 10 * level },
                ),
                size,
                level,
                id,
                health: 80 * sl,
                electricity: -(80 * sl),
                cost: 10000 + 10 * s + 10000 * l,
            },
        }
    }
}

impl PartType {
    pub fn hull(self) -> (r: Option<Hull>)
        ensures
            (match self {
                PartType::Hull(t) => r == Some(t),
                _ => r == None::<Hull>,
            }),
    {
        match self {
            PartType::Hull(t) => Some(t),
            _ => None,
        }
    }

    pub fn cargo(self) -> (r: Option<Cargo>)
        ensures
            (match self {
                PartType::Cargo(t) => r == Some(t),
                _ => r == None::<Cargo>,
            }),
    {
        match self {
            PartType::Cargo(t) => Some(t),
            _ => None,
        }
    }

    pub fn cargo_ref(&self) -> (r: Option<&Cargo>)
        ensures
            (match self {
                PartType::Cargo(t) => r == Some(t),
                _ => r == None::<&Cargo>,
            }),
    {
        match self {
            PartType::Cargo(t) => Some(t),
            _ => None,
        }
    }

    pub fn is_cargo(&self) -> (r: bool)
        ensures
            r == (self is Cargo),
    {
        match self {
            PartType::Cargo(_) => true,
            _ => false,
        }
    }
}

/// A well-formed part's cost is positive and small enough that a
/// marginal cost never leaves the 64-bit range.
pub proof fn lemma_wf_part_cost_bounds(p: Part)
    requires
        p.wf(),
    ensures
        0 < p.cost <= 656015350,
{
}

} // verus!
