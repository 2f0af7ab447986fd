//! Magic keys of the sliding pieces: for each square, a multiplier that
//! maps the blockers on a rook's or a bishop's lines to an index of the
//! table of their moves, and where the square's part of that table starts
//! (from the magic numbers published on the TalkChess forum).

use vstd::prelude::*;

verus! {

/// Magic key.
#[derive(Debug, Clone, Copy, PartialEq, Eq, Structural)]
pub struct Key {
    /// Multiplied with the bit board.
    pub magic: u64,
    /// Offset in the look up table index
    pub offset: u32,
}

/// Rook magic multipliers, by square.
pub const ROOK_MAGICS: [u64; 64] = [
    0x0028_0077_ffeb_fffe, 0x2004_0102_0109_7fff, 0x0010_0200_1005_3fff, 0x0030_002f_f71f_fffa,
    0x7fd0_0441_ffff_d003, 0x0040_01d9_e03f_fff7, 0x0040_0088_8847_ffff, 0x0068_00fb_ff75_fffd,
    0x0000_2801_0113_ffff, 0x0020_0402_01fc_ffff, 0x007f_e800_42ff_ffe8, 0x0000_1800_217f_ffe8,
    0x0000_1800_073f_ffe8, 0x007f_e800_9eff_ffe8, 0x0000_1800_602f_ffe8, 0x0000_3000_2fff_ffa0,
    0x0030_0018_010b_ffff, 0x0003_000c_0085_fffb, 0x0004_0008_0201_0008, 0x0002_0020_0400_2002,
    0x0002_0020_2001_0002, 0x0001_0020_2000_8001, 0x0000_0040_4000_8001, 0x0000_8020_0020_0040,
    0x0040_2000_1008_0010, 0x0000_0800_1004_0010, 0x0004_0100_0802_0008, 0x0000_0400_2020_0200,
    0x0000_0100_2002_0020, 0x0000_0100_2020_0080, 0x0000_0080_2020_0040, 0x0000_2000_2000_4081,
    0x00ff_fd18_0030_0030, 0x007f_ff7f_bfd4_0020, 0x003f_ffbd_0018_0018, 0x001f_ffde_8018_0018,
    0x000f_ffe0_bfe8_0018, 0x0001_0000_8020_2001, 0x0003_fffb_ff98_0180, 0x0001_fffd_ff90_00e0,
    0x00ff_feeb_feff_d800, 0x007f_fff7_ffc0_1400, 0x0000_4081_0420_0204, 0x001f_fff0_1fc0_3000,
    0x000f_ffe7_f8bf_e800, 0x0000_0080_0100_2020, 0x0003_fff8_5fff_a804, 0x0001_fffd_75ff_a802,
    0x00ff_ffec_0028_0028, 0x007f_ff75_ff7f_bfd8, 0x003f_ff86_3fbf_7fd8, 0x001f_ffbf_dfd7_ffd8,
    0x000f_fff8_1028_0028, 0x0007_ffd7_f7fe_ffd8, 0x0003_fffc_0c48_0048, 0x0001_ffff_afd7_ffd8,
    0x00ff_ffe4_ffdf_a3ba, 0x007f_ffef_7ff3_d3da, 0x003f_ffbf_dfef_f7fa, 0x001f_ffef_f7fb_fc22,
    0x0000_0204_0800_1001, 0x0007_fffe_ffff_77fd, 0x0003_ffff_bf7d_feec, 0x0001_ffff_9dff_a333,
];

/// Rook table offsets, by square.
pub const ROOK_OFFSETS: [u32; 64] = [
    41305, 14326, 24477, 8223, 49795, 60546, 28543, 79282,
    6457, 4125, 81021, 42341, 14139, 19465, 9514, 71090,
    75419, 33476, 27117, 85964, 54915, 36544, 71854, 37996,
    30398, 55939, 53891, 56963, 77451, 12319, 88500, 51405,
    72878, 676, 83122, 22206, 75186, 681, 36453, 20369,
    1981, 13343, 10650, 57987, 26302, 58357, 40546, 0,
    14967, 80361, 40905, 58347, 20381, 81868, 59381, 84404,
    45811, 62898, 45796, 66994, 67204, 32448, 62946, 17005,
];

/// Bishop magic multipliers, by square.
pub const BISHOP_MAGICS: [u64; 64] = [
    0x0000_4040_4040_4040, 0x0000_a060_4010_07fc, 0x0000_4010_2020_0000, 0x0000_8060_0400_0000,
    0x0000_4402_0000_0000, 0x0000_0801_0080_0000, 0x0000_1041_0400_4000, 0x0000_0200_2082_0080,
    0x0000_0401_0020_2004, 0x0000_0200_8020_0802, 0x0000_0100_4008_0200, 0x0000_0080_6004_0000,
    0x0000_0044_0200_0000, 0x0000_0021_c100_b200, 0x0000_0004_0041_0080, 0x0000_03f7_f05f_ffc0,
    0x0004_2280_4080_8010, 0x0000_2000_4040_4040, 0x0000_4000_8080_8080, 0x0000_2002_0080_1000,
    0x0000_2400_8084_0000, 0x0000_1800_0c03_fff8, 0x0000_0a58_4020_8020, 0x0000_0584_0840_4010,
    0x0002_0220_0040_8020, 0x0000_4020_0040_8080, 0x0000_8040_0081_0100, 0x0001_0040_3c04_03ff,
    0x0007_8402_a880_2000, 0x0000_1010_0080_4400, 0x0000_0808_0010_4100, 0x0000_4004_8010_1008,
    0x0001_0101_0200_4040, 0x0000_8080_9040_2020, 0x0007_fefe_0881_0010, 0x0003_ff0f_833f_c080,
    0x007f_e080_1900_3042, 0x0000_2020_4000_8040, 0x0001_0040_0838_1008, 0x0000_8020_0370_0808,
    0x0000_2082_0040_0080, 0x0000_1041_0020_0040, 0x0003_ffdf_7f83_3fc0, 0x0000_0088_4045_0020,
    0x0000_0200_4010_0100, 0x007f_ffdd_8014_0028, 0x0000_2020_2020_0040, 0x0001_0040_1003_9004,
    0x0000_0400_4100_8000, 0x0003_ffef_e0c0_2200, 0x0000_0010_1080_6000, 0x0000_0000_0840_3000,
    0x0000_0001_0020_2000, 0x0000_0401_0020_0800, 0x0000_4040_4040_4000, 0x0000_6020_6018_03f4,
    0x0003_ffdf_dfc2_8048, 0x0000_0008_2082_0020, 0x0000_0000_1010_8060, 0x0000_0000_0008_4030,
    0x0000_0000_0100_2020, 0x0000_0000_4040_8020, 0x0000_0040_4040_4040, 0x0000_4040_4040_4040,
];

/// Bishop table offsets, by square.
pub const BISHOP_OFFSETS: [u32; 64] = [
    33104, 4094, 24764, 13882, 23090, 32640, 11558, 32912,
    13674, 6109, 26494, 17919, 25757, 17338, 16983, 16659,
    13610, 2224, 60405, 7983, 17, 34321, 33216, 17127,
    6397, 22169, 42727, 155, 8601, 21101, 29885, 29340,
    19785, 12258, 50451, 1712, 78475, 7855, 13642, 8156,
    4348, 28794, 22578, 50315, 85452, 32816, 13930, 17967,
    33200, 32456, 7762, 7794, 22761, 14918, 11620, 15925,
    32528, 12196, 32720, 26781, 19817, 24732, 25468, 10186,
];

/// Size of the move lookup table.
pub const SLIDERS_TABLE_SIZE: usize = 89524;

/// The rook magic key of a square.
pub fn rook_key(square: usize) -> (key: Key)
    requires
        square < 64,
    ensures
        key == (Key { magic: ROOK_MAGICS[square as int], offset: ROOK_OFFSETS[square as int] }),
{
    Key { magic: ROOK_MAGICS[square], offset: ROOK_OFFSETS[square] }
}

/// The bishop magic key of a square.
pub fn bishop_key(square: usize) -> (key: Key)
    requires
        square < 64,
    ensures
        key == (Key { magic: BISHOP_MAGICS[square as int], offset: BISHOP_OFFSETS[square as int] }),
{
    Key { magic: BISHOP_MAGICS[square], offset: BISHOP_OFFSETS[square] }
}

} // verus!
