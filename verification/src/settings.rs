//! User configuration: one enable flag per splittable level, plus a global
//! auto-start flag. All flags default to enabled. The decision layer only
//! reads them.

use vstd::prelude::*;

verus! {

/// The per-level split toggles and the global auto-start toggle.
#[derive(Clone, Copy, Debug, PartialEq, Eq, Structural)]
pub struct Settings {
    /// Enable auto start.
    pub start: bool,
    /// 1.1 - Buccaneer Beach
    pub buccaneer_beach: bool,
    /// 1.2 - Corsair's Cove
    pub corsair_cove: bool,
    /// 1.3 - Crazy Cannonade
    pub crazy_cannonade: bool,
    /// 1.4 - HMS Windbag
    pub hms_windbag: bool,
    /// 2.1 - Crisis Cavern
    pub crisis_cavern: bool,
    /// 2.2 - Manic Mines
    pub manic_mines: bool,
    /// 2.3 - Anubis Rex
    pub anubis_rex: bool,
    /// 3.1 - Space Race
    pub space_race: bool,
    /// 3.2 - Far Out
    pub far_out: bool,
    /// 3.3 - Gimme Space
    pub gimme_space: bool,
    /// 3.4 - King Galaxian
    pub king_galaxian: bool,
    /// 4.1 - Clowning Around
    pub clowning_around: bool,
    /// 4.2 - Barrel Blast
    pub barrel_blast: bool,
    /// 4.3 - Barrel Dizzy
    pub barrel_dizzy: bool,
    /// 4.4 - Clown Prix
    pub clown_prix: bool,
    /// 5.1 - Perilous Pipes
    pub perilous_pipes: bool,
    /// 5.2 - Under Pressure
    pub under_pressure: bool,
    /// 5.3 - Down the Tubes
    pub down_the_tubes: bool,
    /// 5.4 - Krome Keeper
    pub krome_keeper: bool,
    /// 6.1 - Ghostly Garden
    pub ghostly_garden: bool,
    /// 6.2 - Creepy Catacombs
    pub creepy_catacombs: bool,
    /// 6.3 - Grave Danger
    pub grave_danger: bool,
    /// 6.4 - Toc-Man's Lair
    pub toc_man_lair: bool,
}

impl Settings {
    /// Every flag enabled: the default configuration.
    pub open spec fn spec_all_enabled() -> Settings {
        Settings {
            start: true,
            buccaneer_beach: true,
            corsair_cove: true,
            crazy_cannonade: true,
            hms_windbag: true,
            crisis_cavern: true,
            manic_mines: true,
            anubis_rex: true,
            space_race: true,
            far_out: true,
            gimme_space: true,
            king_galaxian: true,
            clowning_around: true,
            barrel_blast: true,
            barrel_dizzy: true,
            clown_prix: true,
            perilous_pipes: true,
            under_pressure: true,
            down_the_tubes: true,
            krome_keeper: true,
            ghostly_garden: true,
            creepy_catacombs: true,
            grave_danger: true,
            toc_man_lair: true,
        }
    }

    /// The split flag gated by a filtered level code: a total mapping from
    /// the 24 known level codes to their toggles; unknown codes never split.
    pub open spec fn spec_split_enabled(self, level_code: u32) -> bool {
        match level_code {
            101u32 => self.buccaneer_beach,
            102u32 => self.corsair_cove,
            103u32 => self.crazy_cannonade,
            104u32 => self.hms_windbag,
            201u32 => self.crisis_cavern,
            202u32 => self.manic_mines,
            203u32 => self.anubis_rex,
            301u32 => self.space_race,
            302u32 => self.far_out,
            303u32 => self.gimme_space,
            304u32 => self.king_galaxian,
            401u32 => self.clowning_around,
            402u32 => self.barrel_blast,
            403u32 => self.barrel_dizzy,
            404u32 => self.clown_prix,
            501u32 => self.perilous_pipes,
            502u32 => self.under_pressure,
            503u32 => self.down_the_tubes,
            504u32 => self.krome_keeper,
            601u32 => self.ghostly_garden,
            602u32 => self.creepy_catacombs,
            603u32 => self.grave_danger,
            604u32 => self.toc_man_lair,
            _ => false,
        }
    }

    /// Look up the split flag for a filtered level code.
    pub fn split_enabled(&self, level_code: u32) -> (r: bool)
        ensures
            r == self.spec_split_enabled(level_code),
    {
        match level_code {
            101u32 => self.buccaneer_beach,
            102u32 => self.corsair_cove,
            103u32 => self.crazy_cannonade,
            104u32 => self.hms_windbag,
            201u32 => self.crisis_cavern,
            202u32 => self.manic_mines,
            203u32 => self.anubis_rex,
            301u32 => self.space_race,
            302u32 => self.far_out,
            303u32 => self.gimme_space,
            304u32 => self.king_galaxian,
            401u32 => self.clowning_around,
            402u32 => self.barrel_blast,
            403u32 => self.barrel_dizzy,
            404u32 => self.clown_prix,
            501u32 => self.perilous_pipes,
            502u32 => self.under_pressure,
            503u32 => self.down_the_tubes,
            504u32 => self.krome_keeper,
            601u32 => self.ghostly_garden,
            602u32 => self.creepy_catacombs,
            603u32 => self.grave_danger,
            604u32 => self.toc_man_lair,
            _ => false,
        }
    }
}

impl Default for Settings {
    /// The configuration with every flag enabled.
    fn default() -> (s: Settings)
        ensures
            s == Settings::spec_all_enabled(),
    {
        Settings {
            start: true,
            buccaneer_beach: true,
            corsair_cove: true,
            crazy_cannonade: true,
            hms_windbag: true,
            crisis_cavern: true,
            manic_mines: true,
            anubis_rex: true,
            space_race: true,
            far_out: true,
            gimme_space: true,
            king_galaxian: true,
            clowning_around: true,
            barrel_blast: true,
            barrel_dizzy: true,
            clown_prix: true,
            perilous_pipes: true,
            under_pressure: true,
            down_the_tubes: true,
            krome_keeper: true,
            ghostly_garden: true,
            creepy_catacombs: true,
            grave_danger: true,
            toc_man_lair: true,
        }
    }
}

} // verus!
