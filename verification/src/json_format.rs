//! The stat records the statistics service answers with.
//!
//! A rate such as kills per minute is a binary64 number in the service's
//! answers; a record here carries it as its IEEE 754 bit pattern, which the
//! records never compute with.
use vstd::prelude::*;
use crate::ranking::{
    Ranked, is_kill_ranking, of_type, first_n, sort_by_kills, select_type, keep_first,
    lemma_ranking_permutes, lemma_selection_is_exact,
};

verus! {

/// The number of records that `get_top_item` keeps.
pub const TOP_ITEMS: usize = 10;

/// The stats of one vehicle.
#[derive(Debug)]
pub struct PerVehicles {
    pub vehicle_name: String,
    pub vehicle_type: String,
    pub kills: u32,
    /// Bit pattern of the kills per minute.
    pub kills_per_minute_bits: u64,
    pub time_in: u32,
}

/// The stats of one weapon.
#[derive(Debug)]
pub struct PerWeapons {
    pub weapon_name: String,
    pub weapon_type: String,
    pub kills: u32,
    /// Bit pattern of the kills per minute.
    pub kills_per_minute_bits: u64,
    pub accuracy: String,
    pub headshots: String,
}

/// A player's vehicle stats.
#[derive(Debug)]
pub struct Vehicles {
    pub vehicles: Vec<PerVehicles>,
}

/// A player's weapon stats.
#[derive(Debug)]
pub struct Weapons {
    pub weapons: Vec<PerWeapons>,
}

/// A player's overall stats; each `*_bits` field is the bit pattern of a rate.
#[derive(Debug)]
pub struct PlayerStats {
    pub user_name: String,
    pub rank_name: String,
    pub skill_bits: u64,
    pub score_per_minute_bits: u64,
    pub kills_per_minute_bits: u64,
    pub win_percent: String,
    pub accuracy: String,
    pub headshots: String,
    pub time_played: String,
    pub kill_death_bits: u64,
    pub infantry_kill_death_bits: u64,
    pub infantry_kills_per_minute_bits: u64,
    pub kills: u32,
    pub deaths: u32,
    pub wins: u32,
    pub loses: u32,
    pub longest_head_shot_bits: u64,
    pub highest_kill_streak: u32,
    pub rounds_played: u32,
}

impl Ranked for PerVehicles {
    open spec fn kill_count(&self) -> u32 {
        self.kills
    }

    open spec fn category(&self) -> Seq<char> {
        self.vehicle_type@
    }

    fn kills(&self) -> (k: u32) {
        self.kills
    }

    fn is_of_type(&self, wanted: &String) -> (b: bool) {
        self.vehicle_type == *wanted
    }

    fn duplicate(&self) -> (r: Self) {
        PerVehicles {
            vehicle_name: self.vehicle_name.clone(),
            vehicle_type: self.vehicle_type.clone(),
            kills: self.kills,
            kills_per_minute_bits: self.kills_per_minute_bits,
            time_in: self.time_in,
        }
    }
}

impl Ranked for PerWeapons {
    open spec fn kill_count(&self) -> u32 {
        self.kills
    }

    open spec fn category(&self) -> Seq<char> {
        self.weapon_type@
    }

    fn kills(&self) -> (k: u32) {
        self.kills
    }

    fn is_of_type(&self, wanted: &String) -> (b: bool) {
        self.weapon_type == *wanted
    }

    fn duplicate(&self) -> (r: Self) {
        PerWeapons {
            weapon_name: self.weapon_name.clone(),
            weapon_type: self.weapon_type.clone(),
            kills: self.kills,
            kills_per_minute_bits: self.kills_per_minute_bits,
            accuracy: self.accuracy.clone(),
            headshots: self.headshots.clone(),
        }
    }
}

impl Vehicles {
    /// Orders the vehicles by kills, most first; vehicles with equal kills
    /// keep their order.
    pub fn sort_by_kill(&mut self)
        ensures
            is_kill_ranking(final(self).vehicles@, old(self).vehicles@),
            forall|i: int, j: int|
                0 <= i < j < final(self).vehicles@.len() ==> final(self).vehicles@[i].kills
                    >= final(self).vehicles@[j].kills,
            final(self).vehicles@.to_multiset() == old(self).vehicles@.to_multiset(),
    {
        sort_by_kills(&mut self.vehicles);
        proof {
            lemma_ranking_permutes(self.vehicles@, old(self).vehicles@);
        }
    }

    /// The vehicles whose type is `vehicle_type`, in their order here.
    pub fn fitter_by_type(&self, vehicle_type: &str) -> (r: Vehicles)
        ensures
            r.vehicles@ == of_type(self.vehicles@, vehicle_type@),
            forall|i: int| 0 <= i < r.vehicles@.len() ==> #[trigger] r.vehicles@[i].vehicle_type@ == vehicle_type@,
            forall|i: int|
                0 <= i < self.vehicles@.len() && self.vehicles@[i].vehicle_type@ == vehicle_type@ ==> r.vehicles@.contains(
                    #[trigger] self.vehicles@[i],
                ),
    {
        let r = Vehicles { vehicles: select_type(&self.vehicles, vehicle_type) };
        proof {
            lemma_selection_is_exact(self.vehicles@, vehicle_type@);
        }
        r
    }

    /// Keeps the first `TOP_ITEMS` vehicles.
    pub fn get_top_item(&mut self)
        ensures
            final(self).vehicles@ == first_n(old(self).vehicles@, TOP_ITEMS as nat),
            final(self).vehicles@.len() == if old(self).vehicles@.len() <= 10 {
                old(self).vehicles@.len()
            } else {
                10
            },
            forall|i: int| 0 <= i < final(self).vehicles@.len() ==> final(self).vehicles@[i] == old(self).vehicles@[i],
    {
        keep_first(&mut self.vehicles, TOP_ITEMS);
    }
}

impl Weapons {
    /// Orders the weapons by kills, most first; weapons with equal kills
    /// keep their order.
    pub fn sort_by_kill(&mut self)
        ensures
            is_kill_ranking(final(self).weapons@, old(self).weapons@),
            forall|i: int, j: int|
                0 <= i < j < final(self).weapons@.len() ==> final(self).weapons@[i].kills
                    >= final(self).weapons@[j].kills,
            final(self).weapons@.to_multiset() == old(self).weapons@.to_multiset(),
    {
        sort_by_kills(&mut self.weapons);
        proof {
            lemma_ranking_permutes(self.weapons@, old(self).weapons@);
        }
    }

    /// The weapons whose type is `weapon_type`, in their order here.
    pub fn fitter_by_type(&self, weapon_type: &str) -> (r: Weapons)
        ensures
            r.weapons@ == of_type(self.weapons@, weapon_type@),
            forall|i: int| 0 <= i < r.weapons@.len() ==> #[trigger] r.weapons@[i].weapon_type@ == weapon_type@,
            forall|i: int|
                0 <= i < self.weapons@.len() && self.weapons@[i].weapon_type@ == weapon_type@ ==> r.weapons@.contains(
                    #[trigger] self.weapons@[i],
                ),
    {
        let r = Weapons { weapons: select_type(&self.weapons, weapon_type) };
        proof {
            lemma_selection_is_exact(self.weapons@, weapon_type@);
        }
        r
    }

    /// Keeps the first `TOP_ITEMS` weapons.
    pub fn get_top_item(&mut self)
        ensures
            final(self).weapons@ == first_n(old(self).weapons@, TOP_ITEMS as nat),
            final(self).weapons@.len() == if old(self).weapons@.len() <= 10 {
                old(self).weapons@.len()
            } else {
                10
            },
            forall|i: int| 0 <= i < final(self).weapons@.len() ==> final(self).weapons@[i] == old(self).weapons@[i],
    {
        keep_first(&mut self.weapons, TOP_ITEMS);
    }
}

/// A vehicle is ranked by its kills field and selected by its whole type
/// field; a weapon likewise.
pub proof fn lemma_records_rank_by_kills_and_select_by_type(v: PerVehicles, w: PerWeapons)
    ensures
        v.kill_count() == v.kills,
        v.category() == v.vehicle_type@,
        w.kill_count() == w.kills,
        w.category() == w.weapon_type@,
{
}

} // verus!
