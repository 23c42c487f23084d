//! The ten guild records and their lookup, total over keys 0-9.

use crate::text::decimal_digits;
use crate::text::u32_to_decimal;
use vstd::prelude::*;

verus! {

/// A mathematical guild record: what one entry of the canonical table
/// states, with strings as character sequences.
pub struct GuildEntry {
    pub key: int,
    pub name: Seq<char>,
    pub role: Seq<char>,
    pub common_item: Seq<char>,
    pub common_pct: int,
    pub rare_item: Seq<char>,
    pub rare_pct: int,
    pub mag: Seq<char>,
}

/// The canonical guild table, one entry per key 0-9. The MAG type
/// follows the index bands: 0-2 are "A", 3-5 are "B", 6-8 are "C" and 9
/// is "D".
pub open spec fn guild_entry(k: int) -> GuildEntry {
    if k == 0 {
        GuildEntry {
            key: 0,
            name: "Viridia"@,
            role: "Ranger"@,
            common_item: "Partisans"@,
            common_pct: 10,
            rare_item: "Slicers"@,
            rare_pct: 1,
            mag: "A"@,
        }
    } else if k == 1 {
        GuildEntry {
            key: 1,
            name: "Greennill"@,
            role: "Force"@,
            common_item: "Rifles"@,
            common_pct: 13,
            rare_item: "Swords"@,
            rare_pct: 1,
            mag: "A"@,
        }
    } else if k == 2 {
        GuildEntry {
            key: 2,
            name: "Skyly"@,
            role: "Ranger"@,
            common_item: "Swords"@,
            common_pct: 13,
            rare_item: "Machineguns"@,
            rare_pct: 1,
            mag: "A"@,
        }
    } else if k == 3 {
        GuildEntry {
            key: 3,
            name: "Bluefull"@,
            role: "Hunter"@,
            common_item: "Partisans"@,
            common_pct: 13,
            rare_item: "Wands"@,
            rare_pct: 1,
            mag: "B"@,
        }
    } else if k == 4 {
        GuildEntry {
            key: 4,
            name: "Purplenum"@,
            role: "Force"@,
            common_item: "Machineguns"@,
            common_pct: 13,
            rare_item: "Daggers"@,
            rare_pct: 10,
            mag: "B"@,
        }
    } else if k == 5 {
        GuildEntry {
            key: 5,
            name: "Pinkal"@,
            role: "Force"@,
            common_item: "Wands"@,
            common_pct: 13,
            rare_item: "Rifles"@,
            rare_pct: 1,
            mag: "B"@,
        }
    } else if k == 6 {
        GuildEntry {
            key: 6,
            name: "Redria"@,
            role: "Hunter"@,
            common_item: "Slicers"@,
            common_pct: 10,
            rare_item: "Daggers"@,
            rare_pct: 1,
            mag: "C"@,
        }
    } else if k == 7 {
        GuildEntry {
            key: 7,
            name: "Oran"@,
            role: "Force"@,
            common_item: "Daggers"@,
            common_pct: 13,
            rare_item: "Rods"@,
            rare_pct: 1,
            mag: "C"@,
        }
    } else if k == 8 {
        GuildEntry {
            key: 8,
            name: "Yellowboze"@,
            role: "Ranger"@,
            common_item: "All Equal"@,
            common_pct: 0,
            rare_item: "All Equal"@,
            rare_pct: 0,
            mag: "C"@,
        }
    } else {
        GuildEntry {
            key: 9,
            name: "Whitill"@,
            role: "Ranger"@,
            common_item: "Machineguns"@,
            common_pct: 10,
            rare_item: "Shotguns"@,
            rare_pct: 1,
            mag: "D"@,
        }
    }
}

/// A section ID together with all the guild information attached to it.
#[derive(Debug, Clone, Copy, PartialEq, Eq)]
pub struct SectionID {
    /// The numeric section ID, 0-9.
    pub id: u32,
    /// The guild name.
    pub name: &'static str,
    /// Best character class for this guild.
    pub best_class: &'static str,
    /// Common drop weapon type and percentage.
    pub common_drop: (&'static str, u32),
    /// Rare drop weapon type and percentage.
    pub rare_drop: (&'static str, u32),
    /// MAG type for this guild.
    pub mag_type: &'static str,
}

impl SectionID {
    /// Whether this record carries exactly the data of entry `g`.
    pub open spec fn matches_entry(self, g: GuildEntry) -> bool {
        &&& self.id == g.key
        &&& self.name@ == g.name
        &&& self.best_class@ == g.role
        &&& self.common_drop.0@ == g.common_item
        &&& self.common_drop.1 == g.common_pct
        &&& self.rare_drop.0@ == g.rare_item
        &&& self.rare_drop.1 == g.rare_pct
        &&& self.mag_type@ == g.mag
    }

    /// A well-formed record: its key is a digit and its fields are the
    /// canonical table's entry for that key.
    pub open spec fn wf(self) -> bool {
        self.id < 10 && self.matches_entry(guild_entry(self.id as int))
    }

    /// The text of `summary`, assembled from this record's fields.
    pub open spec fn summary_view(self) -> Seq<char> {
        "Guild: "@ + self.name@ + ", Class: "@ + self.best_class@ + ", Common: "@
            + self.common_drop.0@ + " ("@ + decimal_digits(self.common_drop.1 as nat) + "%), Rare: "@
            + self.rare_drop.0@ + " ("@ + decimal_digits(self.rare_drop.1 as nat) + "%), MAG: "@
            + self.mag_type@
    }

    /// A human-readable one-line summary of this record.
    pub fn summary(&self) -> (r: String)
        ensures
            r@ == self.summary_view(),
    {
        let mut r = "Guild: ".to_owned();
        r.append(self.name);
        r.append(", Class: ");
        r.append(self.best_class);
        r.append(", Common: ");
        r.append(self.common_drop.0);
        r.append(" (");
        let common_pct = u32_to_decimal(self.common_drop.1);
        r.append(common_pct.as_str());
        r.append("%), Rare: ");
        r.append(self.rare_drop.0);
        r.append(" (");
        let rare_pct = u32_to_decimal(self.rare_drop.1);
        r.append(rare_pct.as_str());
        r.append("%), MAG: ");
        r.append(self.mag_type);
        proof {
            assert(r@ =~= self.summary_view());
        }
        r
    }
}

/// Two records that carry the same observable data, field by field.
pub open spec fn same_record(a: SectionID, b: SectionID) -> bool {
    &&& a.id == b.id
    &&& a.name@ == b.name@
    &&& a.best_class@ == b.best_class@
    &&& a.common_drop.0@ == b.common_drop.0@
    &&& a.common_drop.1 == b.common_drop.1
    &&& a.rare_drop.0@ == b.rare_drop.0@
    &&& a.rare_drop.1 == b.rare_drop.1
    &&& a.mag_type@ == b.mag_type@
}

/// Looks a key up in the canonical table: the guild record for every key
/// 0-9, nothing for any other key.
pub fn get_section_id(id: u32) -> (r: Option<SectionID>)
    ensures
        r is Some <==> id < 10,
        r is Some ==> r->Some_0.wf() && r->Some_0.id == id,
{
    match id {
        0 => Some(
            SectionID {
                id: 0,
                name: "Viridia",
                best_class: "Ranger",
                common_drop: ("Partisans", 10),
                rare_drop: ("Slicers", 1),
                mag_type: "A",
            },
        ),
        1 => Some(
            SectionID {
                id: 1,
                name: "Greennill",
                best_class: "Force",
                common_drop: ("Rifles", 13),
                rare_drop: ("Swords", 1),
                mag_type: "A",
            },
        ),
        2 => Some(
            SectionID {
                id: 2,
                name: "Skyly",
                best_class: "Ranger",
                common_drop: ("Swords", 13),
                rare_drop: ("Machineguns", 1),
                mag_type: "A",
            },
        ),
        3 => Some(
            SectionID {
                id: 3,
                name: "Bluefull",
                best_class: "Hunter",
                common_drop: ("Partisans", 13),
                rare_drop: ("Wands", 1),
                mag_type: "B",
            },
        ),
        4 => Some(
            SectionID {
                id: 4,
                name: "Purplenum",
                best_class: "Force",
                common_drop: ("Machineguns", 13),
                rare_drop: ("Daggers", 10),
                mag_type: "B",
            },
        ),
        5 => Some(
            SectionID {
                id: 5,
                name: "Pinkal",
                best_class: "Force",
                common_drop: ("Wands", 13),
                rare_drop: ("Rifles", 1),
                mag_type: "B",
            },
        ),
        6 => Some(
            SectionID {
                id: 6,
                name: "Redria",
                best_class: "Hunter",
                common_drop: ("Slicers", 10),
                rare_drop: ("Daggers", 1),
                mag_type: "C",
            },
        ),
        7 => Some(
            SectionID {
                id: 7,
                name: "Oran",
                best_class: "Force",
                common_drop: ("Daggers", 13),
                rare_drop: ("Rods", 1),
                mag_type: "C",
            },
        ),
        8 => Some(
            SectionID {
                id: 8,
                name: "Yellowboze",
                best_class: "Ranger",
                common_drop: ("All Equal", 0),
                rare_drop: ("All Equal", 0),
                mag_type: "C",
            },
        ),
        9 => Some(
            SectionID {
                id: 9,
                name: "Whitill",
                best_class: "Ranger",
                common_drop: ("Machineguns", 10),
                rare_drop: ("Shotguns", 1),
                mag_type: "D",
            },
        ),
        _ => None,
    }
}

/// A guild record under its older field names, kept for callers of the
/// earlier guild-centric interface. It carries the same data as the
/// matching `SectionID`.
#[derive(Debug, Clone, Copy, PartialEq, Eq)]
pub struct Guild {
    /// The name of the guild.
    pub name: &'static str,
    /// The section ID, 0-9.
    pub section_id: u32,
    /// Best character class for this guild.
    pub best_class: &'static str,
    /// Common drop weapon type and percentage.
    pub common_drop: (&'static str, u32),
    /// Rare drop weapon type and percentage.
    pub rare_drop: (&'static str, u32),
    /// MAG type for this guild.
    pub mag_type: &'static str,
}

impl Guild {
    /// Whether this record carries exactly the data of entry `g`.
    pub open spec fn matches_entry(self, g: GuildEntry) -> bool {
        &&& self.section_id == g.key
        &&& self.name@ == g.name
        &&& self.best_class@ == g.role
        &&& self.common_drop.0@ == g.common_item
        &&& self.common_drop.1 == g.common_pct
        &&& self.rare_drop.0@ == g.rare_item
        &&& self.rare_drop.1 == g.rare_pct
        &&& self.mag_type@ == g.mag
    }

    /// A well-formed record: its key is a digit and its fields are the
    /// canonical table's entry for that key.
    pub open spec fn wf(self) -> bool {
        self.section_id < 10 && self.matches_entry(guild_entry(self.section_id as int))
    }
}

/// Looks a key up as a `Guild`: the record for every key 0-9, built from
/// the one canonical table, nothing for any other key.
pub fn get_guild(section_id: u32) -> (r: Option<Guild>)
    ensures
        r is Some <==> section_id < 10,
        r is Some ==> r->Some_0.wf() && r->Some_0.section_id == section_id,
{
    match get_section_id(section_id) {
        Some(s) => Some(
            Guild {
                name: s.name,
                section_id: s.id,
                best_class: s.best_class,
                common_drop: s.common_drop,
                rare_drop: s.rare_drop,
                mag_type: s.mag_type,
            },
        ),
        None => None,
    }
}

/// Guild lookup is injective over key to name: distinct keys 0-9 name
/// distinct guilds.
pub proof fn lemma_guild_names_distinct(i: int, j: int)
    requires
        0 <= i < 10,
        0 <= j < 10,
        i != j,
    ensures
        guild_entry(i).name != guild_entry(j).name,
{
    reveal_strlit("Viridia");
    reveal_strlit("Greennill");
    reveal_strlit("Skyly");
    reveal_strlit("Bluefull");
    reveal_strlit("Purplenum");
    reveal_strlit("Pinkal");
    reveal_strlit("Redria");
    reveal_strlit("Oran");
    reveal_strlit("Yellowboze");
    reveal_strlit("Whitill");
    let a = guild_entry(i).name;
    let b = guild_entry(j).name;
    assert(a.len() != b.len() || a[0] != b[0]);
}

/// Guild lookup is injective over the records it returns: two
/// well-formed records with distinct keys name distinct guilds.
pub proof fn lemma_lookup_injective(a: SectionID, b: SectionID)
    requires
        a.wf(),
        b.wf(),
        a.id != b.id,
    ensures
        a.name@ != b.name@,
{
    lemma_guild_names_distinct(a.id as int, b.id as int);
}

} // verus!
