//! Per-guild weapon drop-rate tables: twelve named integer percentages,
//! static for each guild key 0-9.

use crate::guild::SectionID;
use vstd::prelude::*;

verus! {

/// Drop rates for the twelve weapon categories of one guild.
#[derive(Debug, Clone, Copy, PartialEq, Eq, Structural)]
pub struct DropRates {
    pub sabers: u32,
    pub swords: u32,
    pub daggers: u32,
    pub partisans: u32,
    pub slicers: u32,
    pub handguns: u32,
    pub rifles: u32,
    pub machineguns: u32,
    pub shotguns: u32,
    pub canes: u32,
    pub rods: u32,
    pub wands: u32,
}

/// The all-zero table, handed back only for a key outside 0-9.
pub open spec fn zero_drop_rates() -> DropRates {
    DropRates {
        sabers: 0,
        swords: 0,
        daggers: 0,
        partisans: 0,
        slicers: 0,
        handguns: 0,
        rifles: 0,
        machineguns: 0,
        shotguns: 0,
        canes: 0,
        rods: 0,
        wands: 0,
    }
}

/// The canonical drop-rate table: one fixed record per guild key 0-9,
/// the all-zero record outside that range.
pub open spec fn drop_table(k: int) -> DropRates {
    if k == 0 {
        DropRates {
            sabers: 13,
            swords: 6,
            daggers: 7,
            partisans: 10,
            slicers: 1,
            handguns: 13,
            rifles: 6,
            machineguns: 6,
            shotguns: 11,
            canes: 13,
            rods: 7,
            wands: 7,
        }
    } else if k == 1 {
        DropRates {
            sabers: 13,
            swords: 1,
            daggers: 10,
            partisans: 6,
            slicers: 6,
            handguns: 13,
            rifles: 13,
            machineguns: 7,
            shotguns: 4,
            canes: 13,
            rods: 7,
            wands: 7,
        }
    } else if k == 2 {
        DropRates {
            sabers: 13,
            swords: 13,
            daggers: 7,
            partisans: 6,
            slicers: 6,
            handguns: 13,
            rifles: 10,
            machineguns: 1,
            shotguns: 4,
            canes: 13,
            rods: 7,
            wands: 7,
        }
    } else if k == 3 {
        DropRates {
            sabers: 13,
            swords: 7,
            daggers: 6,
            partisans: 13,
            slicers: 6,
            handguns: 13,
            rifles: 7,
            machineguns: 7,
            shotguns: 4,
            canes: 13,
            rods: 10,
            wands: 1,
        }
    } else if k == 4 {
        DropRates {
            sabers: 13,
            swords: 3,
            daggers: 10,
            partisans: 3,
            slicers: 6,
            handguns: 13,
            rifles: 7,
            machineguns: 13,
            shotguns: 5,
            canes: 13,
            rods: 7,
            wands: 7,
        }
    } else if k == 5 {
        DropRates {
            sabers: 13,
            swords: 6,
            daggers: 7,
            partisans: 10,
            slicers: 6,
            handguns: 13,
            rifles: 1,
            machineguns: 7,
            shotguns: 4,
            canes: 13,
            rods: 7,
            wands: 13,
        }
    } else if k == 6 {
        DropRates {
            sabers: 13,
            swords: 7,
            daggers: 1,
            partisans: 7,
            slicers: 10,
            handguns: 13,
            rifles: 7,
            machineguns: 7,
            shotguns: 8,
            canes: 13,
            rods: 7,
            wands: 7,
        }
    } else if k == 7 {
        DropRates {
            sabers: 13,
            swords: 8,
            daggers: 13,
            partisans: 7,
            slicers: 6,
            handguns: 13,
            rifles: 7,
            machineguns: 7,
            shotguns: 4,
            canes: 13,
            rods: 1,
            wands: 8,
        }
    } else if k == 8 {
        DropRates {
            sabers: 13,
            swords: 7,
            daggers: 7,
            partisans: 7,
            slicers: 7,
            handguns: 13,
            rifles: 7,
            machineguns: 7,
            shotguns: 5,
            canes: 13,
            rods: 7,
            wands: 7,
        }
    } else if k == 9 {
        DropRates {
            sabers: 13,
            swords: 6,
            daggers: 6,
            partisans: 6,
            slicers: 13,
            handguns: 13,
            rifles: 6,
            machineguns: 10,
            shotguns: 1,
            canes: 13,
            rods: 7,
            wands: 6,
        }
    } else {
        zero_drop_rates()
    }
}

impl DropRates {
    /// The drop-rate table of the guild with key `section_id`: the
    /// canonical record for every key 0-9, nothing for any other key.
    pub fn for_section_id(section_id: u32) -> (r: Option<DropRates>)
        ensures
            r is Some <==> section_id < 10,
            r is Some ==> r->Some_0 == drop_table(section_id as int),
    {
        match section_id {
            0 => Some(
                DropRates {
                    sabers: 13,
                    swords: 6,
                    daggers: 7,
                    partisans: 10,
                    slicers: 1,
                    handguns: 13,
                    rifles: 6,
                    machineguns: 6,
                    shotguns: 11,
                    canes: 13,
                    rods: 7,
                    wands: 7,
                },
            ),
            1 => Some(
                DropRates {
                    sabers: 13,
                    swords: 1,
                    daggers: 10,
                    partisans: 6,
                    slicers: 6,
                    handguns: 13,
                    rifles: 13,
                    machineguns: 7,
                    shotguns: 4,
                    canes: 13,
                    rods: 7,
                    wands: 7,
                },
            ),
            2 => Some(
                DropRates {
                    sabers: 13,
                    swords: 13,
                    daggers: 7,
                    partisans: 6,
                    slicers: 6,
                    handguns: 13,
                    rifles: 10,
                    machineguns: 1,
                    shotguns: 4,
                    canes: 13,
                    rods: 7,
                    wands: 7,
                },
            ),
            3 => Some(
                DropRates {
                    sabers: 13,
                    swords: 7,
                    daggers: 6,
                    partisans: 13,
                    slicers: 6,
                    handguns: 13,
                    rifles: 7,
                    machineguns: 7,
                    shotguns: 4,
                    canes: 13,
                    rods: 10,
                    wands: 1,
                },
            ),
            4 => Some(
                DropRates {
                    sabers: 13,
                    swords: 3,
                    daggers: 10,
                    partisans: 3,
                    slicers: 6,
                    handguns: 13,
                    rifles: 7,
                    machineguns: 13,
                    shotguns: 5,
                    canes: 13,
                    rods: 7,
                    wands: 7,
                },
            ),
            5 => Some(
                DropRates {
                    sabers: 13,
                    swords: 6,
                    daggers: 7,
                    partisans: 10,
                    slicers: 6,
                    handguns: 13,
                    rifles: 1,
                    machineguns: 7,
                    shotguns: 4,
                    canes: 13,
                    rods: 7,
                    wands: 13,
                },
            ),
            6 => Some(
                DropRates {
                    sabers: 13,
                    swords: 7,
                    daggers: 1,
                    partisans: 7,
                    slicers: 10,
                    handguns: 13,
                    rifles: 7,
                    machineguns: 7,
                    shotguns: 8,
                    canes: 13,
                    rods: 7,
                    wands: 7,
                },
            ),
            7 => Some(
                DropRates {
                    sabers: 13,
                    swords: 8,
                    daggers: 13,
                    partisans: 7,
                    slicers: 6,
                    handguns: 13,
                    rifles: 7,
                    machineguns: 7,
                    shotguns: 4,
                    canes: 13,
                    rods: 1,
                    wands: 8,
                },
            ),
            8 => Some(
                DropRates {
                    sabers: 13,
                    swords: 7,
                    daggers: 7,
                    partisans: 7,
                    slicers: 7,
                    handguns: 13,
                    rifles: 7,
                    machineguns: 7,
                    shotguns: 5,
                    canes: 13,
                    rods: 7,
                    wands: 7,
                },
            ),
            9 => Some(
                DropRates {
                    sabers: 13,
                    swords: 6,
                    daggers: 6,
                    partisans: 6,
                    slicers: 13,
                    handguns: 13,
                    rifles: 6,
                    machineguns: 10,
                    shotguns: 1,
                    canes: 13,
                    rods: 7,
                    wands: 6,
                },
            ),
            _ => None,
        }
    }
}

impl SectionID {
    /// The weapon drop rates for this record's key: the canonical table
    /// entry, or — defensively, for a hand-built record with a key
    /// outside 0-9 — the all-zero table.
    pub fn drop_rates(&self) -> (r: DropRates)
        ensures
            r == drop_table(self.id as int),
    {
        match DropRates::for_section_id(self.id) {
            Some(rates) => rates,
            None => DropRates {
                sabers: 0,
                swords: 0,
                daggers: 0,
                partisans: 0,
                slicers: 0,
                handguns: 0,
                rifles: 0,
                machineguns: 0,
                shotguns: 0,
                canes: 0,
                rods: 0,
                wands: 0,
            },
        }
    }
}

} // verus!
