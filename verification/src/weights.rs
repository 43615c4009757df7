//! Weight functions for the delegation operations: fixed base costs plus
//! per-item costs and database accesses, all with saturating arithmetic.

use vstd::prelude::*;

verus! {

/// The weight of a computation.
pub type Weight = u64;

/// `v` clamped to the range of a weight.
pub open spec fn saturate(v: int) -> Weight {
    if v > u64::MAX {
        u64::MAX
    } else {
        v as u64
    }
}

/// Saturating addition of weights.
pub open spec fn sat_add(a: Weight, b: Weight) -> Weight {
    saturate(a + b)
}

/// Saturating multiplication of weights.
pub open spec fn sat_mul(a: Weight, b: Weight) -> Weight {
    saturate(a * b)
}

/// Adds two weights, saturating at the maximum weight.
pub fn saturating_add(a: Weight, b: Weight) -> (w: Weight)
    ensures
        w == sat_add(a, b),
{
    a.saturating_add(b)
}

/// Multiplies two weights, saturating at the maximum weight.
pub fn saturating_mul(a: Weight, b: Weight) -> (w: Weight)
    ensures
        w == sat_mul(a, b),
{
    match a.checked_mul(b) {
        Some(v) => v,
        None => u64::MAX,
    }
}

/// The weight of one database read and of one database write.
#[derive(Clone, Copy, Debug, PartialEq, Eq, Structural)]
pub struct RuntimeDbWeight {
    pub read: Weight,
    pub write: Weight,
}

impl RuntimeDbWeight {
    /// The weight of `r` reads.
    pub open spec fn reads_spec(self, r: Weight) -> Weight {
        sat_mul(self.read, r)
    }

    /// The weight of `w` writes.
    pub open spec fn writes_spec(self, w: Weight) -> Weight {
        sat_mul(self.write, w)
    }

    /// The weight of `r` reads.
    pub fn reads(self, r: Weight) -> (w: Weight)
        ensures
            w == self.reads_spec(r),
    {
        saturating_mul(self.read, r)
    }

    /// The weight of `w` writes.
    pub fn writes(self, w: Weight) -> (x: Weight)
        ensures
            x == self.writes_spec(w),
    {
        saturating_mul(self.write, w)
    }

    /// The weight of `r` reads and `w` writes.
    pub fn reads_writes(self, r: Weight, w: Weight) -> (x: Weight)
        ensures
            x == sat_add(self.reads_spec(r), self.writes_spec(w)),
    {
        let read_weight = saturating_mul(self.read, r);
        let write_weight = saturating_mul(self.write, w);
        saturating_add(read_weight, write_weight)
    }
}

/// Weight functions needed for delegation.
pub trait WeightInfo {
    fn submit_delegation_root_creation_operation(&self) -> Weight;

    fn submit_delegation_creation_operation(&self) -> Weight;

    fn submit_delegation_root_revocation_operation(&self, r: u32) -> Weight;

    fn submit_delegation_revocation_operation(&self, r: u32) -> Weight;

    fn revoke_delegation_leaf(&self, r: u32) -> Weight;
}

/// Weights for delegation using the Substrate node and recommended
/// hardware, over the database weights of the runtime.
#[derive(Clone, Copy, Debug, PartialEq, Eq)]
pub struct SubstrateWeight {
    /// The weight of database accesses in the runtime.
    pub db_weight: RuntimeDbWeight,
}

impl SubstrateWeight {
    /// Weight of creating a delegation root.
    pub open spec fn root_creation_weight(self) -> Weight {
        sat_add(sat_add(100_067_000, self.db_weight.reads_spec(3)), self.db_weight.writes_spec(2))
    }

    /// Weight of creating a delegation.
    pub open spec fn creation_weight(self) -> Weight {
        sat_add(sat_add(272_160_000, self.db_weight.reads_spec(6)), self.db_weight.writes_spec(3))
    }

    /// Weight of revoking a delegation root with `r` revocations.
    pub open spec fn root_revocation_weight(self, r: u32) -> Weight {
        let r = r as u64;
        let w1 = sat_add(99_623_000, sat_mul(140_205_000, r));
        let w2 = sat_add(w1, self.db_weight.reads_spec(3));
        let w3 = sat_add(w2, self.db_weight.reads_spec(sat_mul(2, r)));
        let w4 = sat_add(w3, self.db_weight.writes_spec(2));
        sat_add(w4, self.db_weight.writes_spec(sat_mul(1, r)))
    }

    /// Weight of revoking a delegation with `r` revocations.
    pub open spec fn revocation_weight(self, r: u32) -> Weight {
        let r = r as u64;
        let w1 = sat_add(32_579_000, sat_mul(139_299_000, r));
        let w2 = sat_add(w1, self.db_weight.reads_spec(sat_mul(2, r)));
        let w3 = sat_add(w2, self.db_weight.writes_spec(sat_mul(1, r)));
        sat_add(w3, sat_add(self.db_weight.reads_spec(1), self.db_weight.writes_spec(1)))
    }

    /// Weight of revoking a delegation leaf with `r` lookups.
    pub open spec fn leaf_revocation_weight(self, r: u32) -> Weight {
        let r = r as u64;
        let w1 = sat_add(151_834_000, sat_mul(43_149_000, r));
        let w2 = sat_add(w1, self.db_weight.reads_spec(2));
        let w3 = sat_add(w2, self.db_weight.reads_spec(sat_mul(1, r)));
        sat_add(w3, self.db_weight.writes_spec(1))
    }
}

impl WeightInfo for SubstrateWeight {
    fn submit_delegation_root_creation_operation(&self) -> (w: Weight)
        ensures
            w == self.root_creation_weight(),
    {
        let db = self.db_weight;
        saturating_add(saturating_add(100_067_000u64, db.reads(3)), db.writes(2))
    }

    fn submit_delegation_creation_operation(&self) -> (w: Weight)
        ensures
            w == self.creation_weight(),
    {
        let db = self.db_weight;
        saturating_add(saturating_add(272_160_000u64, db.reads(6)), db.writes(3))
    }

    fn submit_delegation_root_revocation_operation(&self, r: u32) -> (w: Weight)
        ensures
            w == self.root_revocation_weight(r),
    {
        let db = self.db_weight;
        let r = r as u64;
        let w = saturating_add(99_623_000u64, saturating_mul(140_205_000u64, r));
        let w = saturating_add(w, db.reads(3));
        let w = saturating_add(w, db.reads(saturating_mul(2, r)));
        let w = saturating_add(w, db.writes(2));
        saturating_add(w, db.writes(saturating_mul(1, r)))
    }

    fn submit_delegation_revocation_operation(&self, r: u32) -> (w: Weight)
        ensures
            w == self.revocation_weight(r),
    {
        let db = self.db_weight;
        let r = r as u64;
        let w = saturating_add(32_579_000u64, saturating_mul(139_299_000u64, r));
        let w = saturating_add(w, db.reads(saturating_mul(2, r)));
        let w = saturating_add(w, db.writes(saturating_mul(1, r)));
        saturating_add(w, db.reads_writes(1, 1))
    }

    fn revoke_delegation_leaf(&self, r: u32) -> (w: Weight)
        ensures
            w == self.leaf_revocation_weight(r),
    {
        let db = self.db_weight;
        let r = r as u64;
        let w = saturating_add(151_834_000u64, saturating_mul(43_149_000u64, r));
        let w = saturating_add(w, db.reads(2));
        let w = saturating_add(w, db.reads(saturating_mul(1, r)));
        saturating_add(w, db.writes(1))
    }
}

} // verus!
