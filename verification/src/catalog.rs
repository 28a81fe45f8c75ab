//! The static creature catalog: a read-only map from creature identifier to
//! its classification, loaded once at match start.

use vstd::prelude::*;

verus! {

/// Classification of a creature: three collectible types plus the hostile
/// monster classification.
#[derive(Clone, Copy, PartialEq, Eq, Structural, Debug)]
pub enum CreatureType {
    Monster,
    Type0,
    Type1,
    Type2,
}

/// Error raised when a numeric classification code from the one-time
/// initialization payload denotes no creature type.
#[derive(Clone, Copy, PartialEq, Eq, Structural, Debug)]
pub struct UnknownTypeCode {
    pub code: i32,
}

/// Meaning of a wire classification code: -1 is the monster classification,
/// 0 through 2 are the collectible types, anything else is undefined.
pub open spec fn type_of_code(code: i32) -> Option<CreatureType> {
    if code == -1 {
        Some(CreatureType::Monster)
    } else if code == 0 {
        Some(CreatureType::Type0)
    } else if code == 1 {
        Some(CreatureType::Type1)
    } else if code == 2 {
        Some(CreatureType::Type2)
    } else {
        None
    }
}

impl CreatureType {
    /// Checked conversion from the wire code. An out-of-range code is an
    /// explicit error, never a panic.
    pub fn from_code(code: i32) -> (r: Result<CreatureType, UnknownTypeCode>)
        ensures
            match r {
                Ok(t) => type_of_code(code) == Some(t),
                Err(e) => type_of_code(code) is None && e.code == code,
            },
    {
        match code {
            -1 => Ok(CreatureType::Monster),
            0 => Ok(CreatureType::Type0),
            1 => Ok(CreatureType::Type1),
            2 => Ok(CreatureType::Type2),
            _ => Err(UnknownTypeCode { code }),
        }
    }
}

/// One entry of the static creature catalog. The color is cosmetic and
/// unused by the decision logic.
#[derive(Clone, Copy, PartialEq, Eq, Structural, Debug)]
pub struct Creature {
    pub id: i32,
    pub color: i32,
    pub creature_type: CreatureType,
}

/// The catalog is a map keyed by creature identifier: no id occurs twice.
pub open spec fn catalog_ids_unique(catalog: Seq<Creature>) -> bool {
    forall|i: int, j: int|
        0 <= i < j < catalog.len() ==> catalog[i].id != catalog[j].id
}

/// Whether some catalog entry carries the given creature id.
pub open spec fn in_catalog(catalog: Seq<Creature>, cid: i32) -> bool {
    exists|i: int| 0 <= i < catalog.len() && catalog[i].id == cid
}

/// Classification of the first catalog entry with the given id, front to
/// back; `None` when the id is not in the catalog.
pub open spec fn type_in_catalog(catalog: Seq<Creature>, cid: i32) -> Option<CreatureType>
    decreases catalog.len(),
{
    if catalog.len() == 0 {
        None
    } else {
        let rest = type_in_catalog(catalog.drop_last(), cid);
        if rest is Some {
            rest
        } else if catalog.last().id == cid {
            Some(catalog.last().creature_type)
        } else {
            None
        }
    }
}

/// Whether the catalog classifies the given creature id as a monster.
pub open spec fn is_monster_id(catalog: Seq<Creature>, cid: i32) -> bool {
    type_in_catalog(catalog, cid) == Some(CreatureType::Monster)
}

/// Looks a creature id up in the catalog, returning the classification of
/// the first entry with that id.
pub fn lookup_type(catalog: &Vec<Creature>, cid: i32) -> (r: Option<CreatureType>)
    ensures
        r == type_in_catalog(catalog@, cid),
{
    let mut found: Option<CreatureType> = None;
    let mut i: usize = 0;
    while i < catalog.len()
        invariant
            0 <= i <= catalog@.len(),
            found == type_in_catalog(catalog@.take(i as int), cid),
        decreases catalog@.len() - i,
    {
        if found.is_none() && catalog[i].id == cid {
            found = Some(catalog[i].creature_type);
        }
        proof {
            assert(catalog@.take(i + 1).drop_last() =~= catalog@.take(i as int));
            assert(catalog@.take(i + 1).last() == catalog@[i as int]);
        }
        i = i + 1;
    }
    proof {
        assert(catalog@.take(catalog@.len() as int) =~= catalog@);
    }
    found
}

} // verus!
