use pacman_world_splitter::settings::Settings;

const LEVEL_CODES: [u32; 23] = [
    101, 102, 103, 104, 201, 202, 203, 301, 302, 303, 304, 401, 402, 403, 404, 501, 502, 503,
    504, 601, 602, 603, 604,
];

#[test]
fn all_flags_default_to_enabled() {
    let s = Settings::default();
    assert!(s.start);
    assert!(s.buccaneer_beach);
    assert!(s.corsair_cove);
    assert!(s.crazy_cannonade);
    assert!(s.hms_windbag);
    assert!(s.crisis_cavern);
    assert!(s.manic_mines);
    assert!(s.anubis_rex);
    assert!(s.space_race);
    assert!(s.far_out);
    assert!(s.gimme_space);
    assert!(s.king_galaxian);
    assert!(s.clowning_around);
    assert!(s.barrel_blast);
    assert!(s.barrel_dizzy);
    assert!(s.clown_prix);
    assert!(s.perilous_pipes);
    assert!(s.under_pressure);
    assert!(s.down_the_tubes);
    assert!(s.krome_keeper);
    assert!(s.ghostly_garden);
    assert!(s.creepy_catacombs);
    assert!(s.grave_danger);
    assert!(s.toc_man_lair);
}

#[test]
fn every_known_code_is_enabled_by_default() {
    let s = Settings::default();
    for code in LEVEL_CODES {
        assert!(s.split_enabled(code));
    }
}

#[test]
fn disabling_one_flag_disables_only_its_code() {
    let mut s = Settings::default();
    s.king_galaxian = false;
    assert!(!s.split_enabled(304));
    for code in LEVEL_CODES {
        if code != 304 {
            assert!(s.split_enabled(code));
        }
    }
}

#[test]
fn each_code_maps_to_its_own_flag() {
    // Disable the flags one at a time and check that exactly the matching
    // code stops splitting.
    for (i, code) in LEVEL_CODES.iter().enumerate() {
        let mut s = Settings::default();
        match i {
            0 => s.buccaneer_beach = false,
            1 => s.corsair_cove = false,
            2 => s.crazy_cannonade = false,
            3 => s.hms_windbag = false,
            4 => s.crisis_cavern = false,
            5 => s.manic_mines = false,
            6 => s.anubis_rex = false,
            7 => s.space_race = false,
            8 => s.far_out = false,
            9 => s.gimme_space = false,
            10 => s.king_galaxian = false,
            11 => s.clowning_around = false,
            12 => s.barrel_blast = false,
            13 => s.barrel_dizzy = false,
            14 => s.clown_prix = false,
            15 => s.perilous_pipes = false,
            16 => s.under_pressure = false,
            17 => s.down_the_tubes = false,
            18 => s.krome_keeper = false,
            19 => s.ghostly_garden = false,
            20 => s.creepy_catacombs = false,
            21 => s.grave_danger = false,
            _ => s.toc_man_lair = false,
        }
        for other in LEVEL_CODES {
            assert_eq!(s.split_enabled(other), other != *code);
        }
    }
}

#[test]
fn codes_outside_the_table_never_split() {
    let s = Settings::default();
    for code in [0u32, 1, 3, 4, 100, 105, 110, 199, 204, 205, 305, 405, 505, 605, 1000, 1001, 9999]
    {
        assert!(!s.split_enabled(code));
    }
}

#[test]
fn the_table_covers_exactly_the_known_codes() {
    let s = Settings::default();
    let mut known: Vec<u32> = Vec::new();
    for code in 0u32..=2000 {
        if s.split_enabled(code) {
            known.push(code);
        }
    }
    assert_eq!(known, LEVEL_CODES.to_vec());
}
