//! The code-page table (CP437 to Unicode and back) and the outline-style table.
use vstd::prelude::*;

verus! {

/// The Unicode scalar that code-page byte `b` stands for.
pub open spec fn cp437(b: u8) -> char {
    match b {
        0 => '\u{0}',
        1 => '\u{263a}',
        2 => '\u{263b}',
        3 => '\u{2665}',
        4 => '\u{2666}',
        5 => '\u{2663}',
        6 => '\u{2660}',
        7 => '\u{2022}',
        8 => '\u{8}',
        9 => '\u{9}',
        10 => '\u{a}',
        11 => '\u{2642}',
        12 => '\u{2640}',
        13 => '\u{d}',
        14 => '\u{266b}',
        15 => '\u{263c}',
        16 => '\u{25ba}',
        17 => '\u{25c4}',
        18 => '\u{2195}',
        19 => '\u{203c}',
        20 => '\u{b6}',
        21 => '\u{a7}',
        22 => '\u{25ac}',
        23 => '\u{21a8}',
        24 => '\u{2191}',
        25 => '\u{2193}',
        26 => '\u{1a}',
        27 => '\u{1b}',
        28 => '\u{221f}',
        29 => '\u{2194}',
        30 => '\u{25b2}',
        31 => '\u{25bc}',
        32 => '\u{20}',
        33 => '\u{21}',
        34 => '\u{22}',
        35 => '\u{23}',
        36 => '\u{24}',
        37 => '\u{25}',
        38 => '\u{26}',
        39 => '\u{27}',
        40 => '\u{28}',
        41 => '\u{29}',
        42 => '\u{2a}',
        43 => '\u{2b}',
        44 => '\u{2c}',
        45 => '\u{2d}',
        46 => '\u{2e}',
        47 => '\u{2f}',
        48 => '\u{30}',
        49 => '\u{31}',
        50 => '\u{32}',
        51 => '\u{33}',
        52 => '\u{34}',
        53 => '\u{35}',
        54 => '\u{36}',
        55 => '\u{37}',
        56 => '\u{38}',
        57 => '\u{39}',
        58 => '\u{3a}',
        59 => '\u{3b}',
        60 => '\u{3c}',
        61 => '\u{3d}',
        62 => '\u{3e}',
        63 => '\u{3f}',
        64 => '\u{40}',
        65 => '\u{41}',
        66 => '\u{42}',
        67 => '\u{43}',
        68 => '\u{44}',
        69 => '\u{45}',
        70 => '\u{46}',
        71 => '\u{47}',
        72 => '\u{48}',
        73 => '\u{49}',
        74 => '\u{4a}',
        75 => '\u{4b}',
        76 => '\u{4c}',
        77 => '\u{4d}',
        78 => '\u{4e}',
        79 => '\u{4f}',
        80 => '\u{50}',
        81 => '\u{51}',
        82 => '\u{52}',
        83 => '\u{53}',
        84 => '\u{54}',
        85 => '\u{55}',
        86 => '\u{56}',
        87 => '\u{57}',
        88 => '\u{58}',
        89 => '\u{59}',
        90 => '\u{5a}',
        91 => '\u{5b}',
        92 => '\u{5c}',
        93 => '\u{5d}',
        94 => '\u{5e}',
        95 => '\u{5f}',
        96 => '\u{60}',
        97 => '\u{61}',
        98 => '\u{62}',
        99 => '\u{63}',
        100 => '\u{64}',
        101 => '\u{65}',
        102 => '\u{66}',
        103 => '\u{67}',
        104 => '\u{68}',
        105 => '\u{69}',
        106 => '\u{6a}',
        107 => '\u{6b}',
        108 => '\u{6c}',
        109 => '\u{6d}',
        110 => '\u{6e}',
        111 => '\u{6f}',
        112 => '\u{70}',
        113 => '\u{71}',
        114 => '\u{72}',
        115 => '\u{73}',
        116 => '\u{74}',
        117 => '\u{75}',
        118 => '\u{76}',
        119 => '\u{77}',
        120 => '\u{78}',
        121 => '\u{79}',
        122 => '\u{7a}',
        123 => '\u{7b}',
        124 => '\u{7c}',
        125 => '\u{7d}',
        126 => '\u{7e}',
        127 => '\u{7f}',
        128 => '\u{c7}',
        129 => '\u{fc}',
        130 => '\u{e9}',
        131 => '\u{e2}',
        132 => '\u{e4}',
        133 => '\u{e0}',
        134 => '\u{e5}',
        135 => '\u{e7}',
        136 => '\u{ea}',
        137 => '\u{eb}',
        138 => '\u{e8}',
        139 => '\u{ef}',
        140 => '\u{ee}',
        141 => '\u{ec}',
        142 => '\u{c4}',
        143 => '\u{c5}',
        144 => '\u{c9}',
        145 => '\u{e6}',
        146 => '\u{c6}',
        147 => '\u{f4}',
        148 => '\u{f6}',
        149 => '\u{f2}',
        150 => '\u{fb}',
        151 => '\u{f9}',
        152 => '\u{ff}',
        153 => '\u{d6}',
        154 => '\u{dc}',
        155 => '\u{a2}',
        156 => '\u{a3}',
        157 => '\u{a5}',
        158 => '\u{20a7}',
        159 => '\u{192}',
        160 => '\u{e1}',
        161 => '\u{ed}',
        162 => '\u{f3}',
        163 => '\u{fa}',
        164 => '\u{f1}',
        165 => '\u{d1}',
        166 => '\u{aa}',
        167 => '\u{ba}',
        168 => '\u{bf}',
        169 => '\u{2310}',
        170 => '\u{ac}',
        171 => '\u{bd}',
        172 => '\u{bc}',
        173 => '\u{a1}',
        174 => '\u{ab}',
        175 => '\u{bb}',
        176 => '\u{2591}',
        177 => '\u{2592}',
        178 => '\u{2593}',
        179 => '\u{2502}',
        180 => '\u{2524}',
        181 => '\u{2561}',
        182 => '\u{2562}',
        183 => '\u{2556}',
        184 => '\u{2555}',
        185 => '\u{2563}',
        186 => '\u{2551}',
        187 => '\u{2557}',
        188 => '\u{255d}',
        189 => '\u{255c}',
        190 => '\u{255b}',
        191 => '\u{2510}',
        192 => '\u{2514}',
        193 => '\u{2534}',
        194 => '\u{252c}',
        195 => '\u{251c}',
        196 => '\u{2500}',
        197 => '\u{253c}',
        198 => '\u{255e}',
        199 => '\u{255f}',
        200 => '\u{255a}',
        201 => '\u{2554}',
        202 => '\u{2569}',
        203 => '\u{2566}',
        204 => '\u{2560}',
        205 => '\u{2550}',
        206 => '\u{256c}',
        207 => '\u{2567}',
        208 => '\u{2568}',
        209 => '\u{2564}',
        210 => '\u{2565}',
        211 => '\u{2559}',
        212 => '\u{2558}',
        213 => '\u{2552}',
        214 => '\u{2553}',
        215 => '\u{256b}',
        216 => '\u{256a}',
        217 => '\u{2518}',
        218 => '\u{250c}',
        219 => '\u{2588}',
        220 => '\u{2584}',
        221 => '\u{258c}',
        222 => '\u{2590}',
        223 => '\u{2580}',
        224 => '\u{3b1}',
        225 => '\u{df}',
        226 => '\u{393}',
        227 => '\u{3c0}',
        228 => '\u{3a3}',
        229 => '\u{3c3}',
        230 => '\u{b5}',
        231 => '\u{3c4}',
        232 => '\u{3a6}',
        233 => '\u{398}',
        234 => '\u{3a9}',
        235 => '\u{3b4}',
        236 => '\u{221e}',
        237 => '\u{3c6}',
        238 => '\u{3b5}',
        239 => '\u{2229}',
        240 => '\u{2261}',
        241 => '\u{b1}',
        242 => '\u{2265}',
        243 => '\u{2264}',
        244 => '\u{2320}',
        245 => '\u{2321}',
        246 => '\u{f7}',
        247 => '\u{2248}',
        248 => '\u{b0}',
        249 => '\u{2219}',
        250 => '\u{b7}',
        251 => '\u{221a}',
        252 => '\u{207f}',
        253 => '\u{b2}',
        254 => '\u{25a0}',
        _ => '\u{a0}',
    }
}

/// The byte that a character is written as: the code-page byte that stands for it,
/// or `'?'` where none does (NUL is never produced).
pub open spec fn cp437_byte(c: char) -> u8 {
    match c {
        '\u{263a}' => 1,
        '\u{263b}' => 2,
        '\u{2665}' => 3,
        '\u{2666}' => 4,
        '\u{2663}' => 5,
        '\u{2660}' => 6,
        '\u{2022}' => 7,
        '\u{8}' => 8,
        '\u{9}' => 9,
        '\u{a}' => 10,
        '\u{2642}' => 11,
        '\u{2640}' => 12,
        '\u{d}' => 13,
        '\u{266b}' => 14,
        '\u{263c}' => 15,
        '\u{25ba}' => 16,
        '\u{25c4}' => 17,
        '\u{2195}' => 18,
        '\u{203c}' => 19,
        '\u{b6}' => 20,
        '\u{a7}' => 21,
        '\u{25ac}' => 22,
        '\u{21a8}' => 23,
        '\u{2191}' => 24,
        '\u{2193}' => 25,
        '\u{1a}' => 26,
        '\u{1b}' => 27,
        '\u{221f}' => 28,
        '\u{2194}' => 29,
        '\u{25b2}' => 30,
        '\u{25bc}' => 31,
        '\u{20}' => 32,
        '\u{21}' => 33,
        '\u{22}' => 34,
        '\u{23}' => 35,
        '\u{24}' => 36,
        '\u{25}' => 37,
        '\u{26}' => 38,
        '\u{27}' => 39,
        '\u{28}' => 40,
        '\u{29}' => 41,
        '\u{2a}' => 42,
        '\u{2b}' => 43,
        '\u{2c}' => 44,
        '\u{2d}' => 45,
        '\u{2e}' => 46,
        '\u{2f}' => 47,
        '\u{30}' => 48,
        '\u{31}' => 49,
        '\u{32}' => 50,
        '\u{33}' => 51,
        '\u{34}' => 52,
        '\u{35}' => 53,
        '\u{36}' => 54,
        '\u{37}' => 55,
        '\u{38}' => 56,
        '\u{39}' => 57,
        '\u{3a}' => 58,
        '\u{3b}' => 59,
        '\u{3c}' => 60,
        '\u{3d}' => 61,
        '\u{3e}' => 62,
        '\u{3f}' => 63,
        '\u{40}' => 64,
        '\u{41}' => 65,
        '\u{42}' => 66,
        '\u{43}' => 67,
        '\u{44}' => 68,
        '\u{45}' => 69,
        '\u{46}' => 70,
        '\u{47}' => 71,
        '\u{48}' => 72,
        '\u{49}' => 73,
        '\u{4a}' => 74,
        '\u{4b}' => 75,
        '\u{4c}' => 76,
        '\u{4d}' => 77,
        '\u{4e}' => 78,
        '\u{4f}' => 79,
        '\u{50}' => 80,
        '\u{51}' => 81,
        '\u{52}' => 82,
        '\u{53}' => 83,
        '\u{54}' => 84,
        '\u{55}' => 85,
        '\u{56}' => 86,
        '\u{57}' => 87,
        '\u{58}' => 88,
        '\u{59}' => 89,
        '\u{5a}' => 90,
        '\u{5b}' => 91,
        '\u{5c}' => 92,
        '\u{5d}' => 93,
        '\u{5e}' => 94,
        '\u{5f}' => 95,
        '\u{60}' => 96,
        '\u{61}' => 97,
        '\u{62}' => 98,
        '\u{63}' => 99,
        '\u{64}' => 100,
        '\u{65}' => 101,
        '\u{66}' => 102,
        '\u{67}' => 103,
        '\u{68}' => 104,
        '\u{69}' => 105,
        '\u{6a}' => 106,
        '\u{6b}' => 107,
        '\u{6c}' => 108,
        '\u{6d}' => 109,
        '\u{6e}' => 110,
        '\u{6f}' => 111,
        '\u{70}' => 112,
        '\u{71}' => 113,
        '\u{72}' => 114,
        '\u{73}' => 115,
        '\u{74}' => 116,
        '\u{75}' => 117,
        '\u{76}' => 118,
        '\u{77}' => 119,
        '\u{78}' => 120,
        '\u{79}' => 121,
        '\u{7a}' => 122,
        '\u{7b}' => 123,
        '\u{7c}' => 124,
        '\u{7d}' => 125,
        '\u{7e}' => 126,
        '\u{7f}' => 127,
        '\u{c7}' => 128,
        '\u{fc}' => 129,
        '\u{e9}' => 130,
        '\u{e2}' => 131,
        '\u{e4}' => 132,
        '\u{e0}' => 133,
        '\u{e5}' => 134,
        '\u{e7}' => 135,
        '\u{ea}' => 136,
        '\u{eb}' => 137,
        '\u{e8}' => 138,
        '\u{ef}' => 139,
        '\u{ee}' => 140,
        '\u{ec}' => 141,
        '\u{c4}' => 142,
        '\u{c5}' => 143,
        '\u{c9}' => 144,
        '\u{e6}' => 145,
        '\u{c6}' => 146,
        '\u{f4}' => 147,
        '\u{f6}' => 148,
        '\u{f2}' => 149,
        '\u{fb}' => 150,
        '\u{f9}' => 151,
        '\u{ff}' => 152,
        '\u{d6}' => 153,
        '\u{dc}' => 154,
        '\u{a2}' => 155,
        '\u{a3}' => 156,
        '\u{a5}' => 157,
        '\u{20a7}' => 158,
        '\u{192}' => 159,
        '\u{e1}' => 160,
        '\u{ed}' => 161,
        '\u{f3}' => 162,
        '\u{fa}' => 163,
        '\u{f1}' => 164,
        '\u{d1}' => 165,
        '\u{aa}' => 166,
        '\u{ba}' => 167,
        '\u{bf}' => 168,
        '\u{2310}' => 169,
        '\u{ac}' => 170,
        '\u{bd}' => 171,
        '\u{bc}' => 172,
        '\u{a1}' => 173,
        '\u{ab}' => 174,
        '\u{bb}' => 175,
        '\u{2591}' => 176,
        '\u{2592}' => 177,
        '\u{2593}' => 178,
        '\u{2502}' => 179,
        '\u{2524}' => 180,
        '\u{2561}' => 181,
        '\u{2562}' => 182,
        '\u{2556}' => 183,
        '\u{2555}' => 184,
        '\u{2563}' => 185,
        '\u{2551}' => 186,
        '\u{2557}' => 187,
        '\u{255d}' => 188,
        '\u{255c}' => 189,
        '\u{255b}' => 190,
        '\u{2510}' => 191,
        '\u{2514}' => 192,
        '\u{2534}' => 193,
        '\u{252c}' => 194,
        '\u{251c}' => 195,
        '\u{2500}' => 196,
        '\u{253c}' => 197,
        '\u{255e}' => 198,
        '\u{255f}' => 199,
        '\u{255a}' => 200,
        '\u{2554}' => 201,
        '\u{2569}' => 202,
        '\u{2566}' => 203,
        '\u{2560}' => 204,
        '\u{2550}' => 205,
        '\u{256c}' => 206,
        '\u{2567}' => 207,
        '\u{2568}' => 208,
        '\u{2564}' => 209,
        '\u{2565}' => 210,
        '\u{2559}' => 211,
        '\u{2558}' => 212,
        '\u{2552}' => 213,
        '\u{2553}' => 214,
        '\u{256b}' => 215,
        '\u{256a}' => 216,
        '\u{2518}' => 217,
        '\u{250c}' => 218,
        '\u{2588}' => 219,
        '\u{2584}' => 220,
        '\u{258c}' => 221,
        '\u{2590}' => 222,
        '\u{2580}' => 223,
        '\u{3b1}' => 224,
        '\u{df}' => 225,
        '\u{393}' => 226,
        '\u{3c0}' => 227,
        '\u{3a3}' => 228,
        '\u{3c3}' => 229,
        '\u{b5}' => 230,
        '\u{3c4}' => 231,
        '\u{3a6}' => 232,
        '\u{398}' => 233,
        '\u{3a9}' => 234,
        '\u{3b4}' => 235,
        '\u{221e}' => 236,
        '\u{3c6}' => 237,
        '\u{3b5}' => 238,
        '\u{2229}' => 239,
        '\u{2261}' => 240,
        '\u{b1}' => 241,
        '\u{2265}' => 242,
        '\u{2264}' => 243,
        '\u{2320}' => 244,
        '\u{2321}' => 245,
        '\u{f7}' => 246,
        '\u{2248}' => 247,
        '\u{b0}' => 248,
        '\u{2219}' => 249,
        '\u{b7}' => 250,
        '\u{221a}' => 251,
        '\u{207f}' => 252,
        '\u{b2}' => 253,
        '\u{25a0}' => 254,
        '\u{a0}' => 255,
        _ => 63,
    }
}

/// Translates a code-page byte to its Unicode scalar.
pub fn cp437_to_unicode(b: u8) -> (c: char)
    ensures
        c == cp437(b),
{
    match b {
        0 => '\u{0}',
        1 => '\u{263a}',
        2 => '\u{263b}',
        3 => '\u{2665}',
        4 => '\u{2666}',
        5 => '\u{2663}',
        6 => '\u{2660}',
        7 => '\u{2022}',
        8 => '\u{8}',
        9 => '\u{9}',
        10 => '\u{a}',
        11 => '\u{2642}',
        12 => '\u{2640}',
        13 => '\u{d}',
        14 => '\u{266b}',
        15 => '\u{263c}',
        16 => '\u{25ba}',
        17 => '\u{25c4}',
        18 => '\u{2195}',
        19 => '\u{203c}',
        20 => '\u{b6}',
        21 => '\u{a7}',
        22 => '\u{25ac}',
        23 => '\u{21a8}',
        24 => '\u{2191}',
        25 => '\u{2193}',
        26 => '\u{1a}',
        27 => '\u{1b}',
        28 => '\u{221f}',
        29 => '\u{2194}',
        30 => '\u{25b2}',
        31 => '\u{25bc}',
        32 => '\u{20}',
        33 => '\u{21}',
        34 => '\u{22}',
        35 => '\u{23}',
        36 => '\u{24}',
        37 => '\u{25}',
        38 => '\u{26}',
        39 => '\u{27}',
        40 => '\u{28}',
        41 => '\u{29}',
        42 => '\u{2a}',
        43 => '\u{2b}',
        44 => '\u{2c}',
        45 => '\u{2d}',
        46 => '\u{2e}',
        47 => '\u{2f}',
        48 => '\u{30}',
        49 => '\u{31}',
        50 => '\u{32}',
        51 => '\u{33}',
        52 => '\u{34}',
        53 => '\u{35}',
        54 => '\u{36}',
        55 => '\u{37}',
        56 => '\u{38}',
        57 => '\u{39}',
        58 => '\u{3a}',
        59 => '\u{3b}',
        60 => '\u{3c}',
        61 => '\u{3d}',
        62 => '\u{3e}',
        63 => '\u{3f}',
        64 => '\u{40}',
        65 => '\u{41}',
        66 => '\u{42}',
        67 => '\u{43}',
        68 => '\u{44}',
        69 => '\u{45}',
        70 => '\u{46}',
        71 => '\u{47}',
        72 => '\u{48}',
        73 => '\u{49}',
        74 => '\u{4a}',
        75 => '\u{4b}',
        76 => '\u{4c}',
        77 => '\u{4d}',
        78 => '\u{4e}',
        79 => '\u{4f}',
        80 => '\u{50}',
        81 => '\u{51}',
        82 => '\u{52}',
        83 => '\u{53}',
        84 => '\u{54}',
        85 => '\u{55}',
        86 => '\u{56}',
        87 => '\u{57}',
        88 => '\u{58}',
        89 => '\u{59}',
        90 => '\u{5a}',
        91 => '\u{5b}',
        92 => '\u{5c}',
        93 => '\u{5d}',
        94 => '\u{5e}',
        95 => '\u{5f}',
        96 => '\u{60}',
        97 => '\u{61}',
        98 => '\u{62}',
        99 => '\u{63}',
        100 => '\u{64}',
        101 => '\u{65}',
        102 => '\u{66}',
        103 => '\u{67}',
        104 => '\u{68}',
        105 => '\u{69}',
        106 => '\u{6a}',
        107 => '\u{6b}',
        108 => '\u{6c}',
        109 => '\u{6d}',
        110 => '\u{6e}',
        111 => '\u{6f}',
        112 => '\u{70}',
        113 => '\u{71}',
        114 => '\u{72}',
        115 => '\u{73}',
        116 => '\u{74}',
        117 => '\u{75}',
        118 => '\u{76}',
        119 => '\u{77}',
        120 => '\u{78}',
        121 => '\u{79}',
        122 => '\u{7a}',
        123 => '\u{7b}',
        124 => '\u{7c}',
        125 => '\u{7d}',
        126 => '\u{7e}',
        127 => '\u{7f}',
        128 => '\u{c7}',
        129 => '\u{fc}',
        130 => '\u{e9}',
        131 => '\u{e2}',
        132 => '\u{e4}',
        133 => '\u{e0}',
        134 => '\u{e5}',
        135 => '\u{e7}',
        136 => '\u{ea}',
        137 => '\u{eb}',
        138 => '\u{e8}',
        139 => '\u{ef}',
        140 => '\u{ee}',
        141 => '\u{ec}',
        142 => '\u{c4}',
        143 => '\u{c5}',
        144 => '\u{c9}',
        145 => '\u{e6}',
        146 => '\u{c6}',
        147 => '\u{f4}',
        148 => '\u{f6}',
        149 => '\u{f2}',
        150 => '\u{fb}',
        151 => '\u{f9}',
        152 => '\u{ff}',
        153 => '\u{d6}',
        154 => '\u{dc}',
        155 => '\u{a2}',
        156 => '\u{a3}',
        157 => '\u{a5}',
        158 => '\u{20a7}',
        159 => '\u{192}',
        160 => '\u{e1}',
        161 => '\u{ed}',
        162 => '\u{f3}',
        163 => '\u{fa}',
        164 => '\u{f1}',
        165 => '\u{d1}',
        166 => '\u{aa}',
        167 => '\u{ba}',
        168 => '\u{bf}',
        169 => '\u{2310}',
        170 => '\u{ac}',
        171 => '\u{bd}',
        172 => '\u{bc}',
        173 => '\u{a1}',
        174 => '\u{ab}',
        175 => '\u{bb}',
        176 => '\u{2591}',
        177 => '\u{2592}',
        178 => '\u{2593}',
        179 => '\u{2502}',
        180 => '\u{2524}',
        181 => '\u{2561}',
        182 => '\u{2562}',
        183 => '\u{2556}',
        184 => '\u{2555}',
        185 => '\u{2563}',
        186 => '\u{2551}',
        187 => '\u{2557}',
        188 => '\u{255d}',
        189 => '\u{255c}',
        190 => '\u{255b}',
        191 => '\u{2510}',
        192 => '\u{2514}',
        193 => '\u{2534}',
        194 => '\u{252c}',
        195 => '\u{251c}',
        196 => '\u{2500}',
        197 => '\u{253c}',
        198 => '\u{255e}',
        199 => '\u{255f}',
        200 => '\u{255a}',
        201 => '\u{2554}',
        202 => '\u{2569}',
        203 => '\u{2566}',
        204 => '\u{2560}',
        205 => '\u{2550}',
        206 => '\u{256c}',
        207 => '\u{2567}',
        208 => '\u{2568}',
        209 => '\u{2564}',
        210 => '\u{2565}',
        211 => '\u{2559}',
        212 => '\u{2558}',
        213 => '\u{2552}',
        214 => '\u{2553}',
        215 => '\u{256b}',
        216 => '\u{256a}',
        217 => '\u{2518}',
        218 => '\u{250c}',
        219 => '\u{2588}',
        220 => '\u{2584}',
        221 => '\u{258c}',
        222 => '\u{2590}',
        223 => '\u{2580}',
        224 => '\u{3b1}',
        225 => '\u{df}',
        226 => '\u{393}',
        227 => '\u{3c0}',
        228 => '\u{3a3}',
        229 => '\u{3c3}',
        230 => '\u{b5}',
        231 => '\u{3c4}',
        232 => '\u{3a6}',
        233 => '\u{398}',
        234 => '\u{3a9}',
        235 => '\u{3b4}',
        236 => '\u{221e}',
        237 => '\u{3c6}',
        238 => '\u{3b5}',
        239 => '\u{2229}',
        240 => '\u{2261}',
        241 => '\u{b1}',
        242 => '\u{2265}',
        243 => '\u{2264}',
        244 => '\u{2320}',
        245 => '\u{2321}',
        246 => '\u{f7}',
        247 => '\u{2248}',
        248 => '\u{b0}',
        249 => '\u{2219}',
        250 => '\u{b7}',
        251 => '\u{221a}',
        252 => '\u{207f}',
        253 => '\u{b2}',
        254 => '\u{25a0}',
        _ => '\u{a0}',
    }
}

/// Translates a character back to its code-page byte, `'?'` where the page lacks it.
pub fn unicode_to_cp437(c: char) -> (b: u8)
    ensures
        b == cp437_byte(c),
{
    match c {
        '\u{263a}' => 1,
        '\u{263b}' => 2,
        '\u{2665}' => 3,
        '\u{2666}' => 4,
        '\u{2663}' => 5,
        '\u{2660}' => 6,
        '\u{2022}' => 7,
        '\u{8}' => 8,
        '\u{9}' => 9,
        '\u{a}' => 10,
        '\u{2642}' => 11,
        '\u{2640}' => 12,
        '\u{d}' => 13,
        '\u{266b}' => 14,
        '\u{263c}' => 15,
        '\u{25ba}' => 16,
        '\u{25c4}' => 17,
        '\u{2195}' => 18,
        '\u{203c}' => 19,
        '\u{b6}' => 20,
        '\u{a7}' => 21,
        '\u{25ac}' => 22,
        '\u{21a8}' => 23,
        '\u{2191}' => 24,
        '\u{2193}' => 25,
        '\u{1a}' => 26,
        '\u{1b}' => 27,
        '\u{221f}' => 28,
        '\u{2194}' => 29,
        '\u{25b2}' => 30,
        '\u{25bc}' => 31,
        '\u{20}' => 32,
        '\u{21}' => 33,
        '\u{22}' => 34,
        '\u{23}' => 35,
        '\u{24}' => 36,
        '\u{25}' => 37,
        '\u{26}' => 38,
        '\u{27}' => 39,
        '\u{28}' => 40,
        '\u{29}' => 41,
        '\u{2a}' => 42,
        '\u{2b}' => 43,
        '\u{2c}' => 44,
        '\u{2d}' => 45,
        '\u{2e}' => 46,
        '\u{2f}' => 47,
        '\u{30}' => 48,
        '\u{31}' => 49,
        '\u{32}' => 50,
        '\u{33}' => 51,
        '\u{34}' => 52,
        '\u{35}' => 53,
        '\u{36}' => 54,
        '\u{37}' => 55,
        '\u{38}' => 56,
        '\u{39}' => 57,
        '\u{3a}' => 58,
        '\u{3b}' => 59,
        '\u{3c}' => 60,
        '\u{3d}' => 61,
        '\u{3e}' => 62,
        '\u{3f}' => 63,
        '\u{40}' => 64,
        '\u{41}' => 65,
        '\u{42}' => 66,
        '\u{43}' => 67,
        '\u{44}' => 68,
        '\u{45}' => 69,
        '\u{46}' => 70,
        '\u{47}' => 71,
        '\u{48}' => 72,
        '\u{49}' => 73,
        '\u{4a}' => 74,
        '\u{4b}' => 75,
        '\u{4c}' => 76,
        '\u{4d}' => 77,
        '\u{4e}' => 78,
        '\u{4f}' => 79,
        '\u{50}' => 80,
        '\u{51}' => 81,
        '\u{52}' => 82,
        '\u{53}' => 83,
        '\u{54}' => 84,
        '\u{55}' => 85,
        '\u{56}' => 86,
        '\u{57}' => 87,
        '\u{58}' => 88,
        '\u{59}' => 89,
        '\u{5a}' => 90,
        '\u{5b}' => 91,
        '\u{5c}' => 92,
        '\u{5d}' => 93,
        '\u{5e}' => 94,
        '\u{5f}' => 95,
        '\u{60}' => 96,
        '\u{61}' => 97,
        '\u{62}' => 98,
        '\u{63}' => 99,
        '\u{64}' => 100,
        '\u{65}' => 101,
        '\u{66}' => 102,
        '\u{67}' => 103,
        '\u{68}' => 104,
        '\u{69}' => 105,
        '\u{6a}' => 106,
        '\u{6b}' => 107,
        '\u{6c}' => 108,
        '\u{6d}' => 109,
        '\u{6e}' => 110,
        '\u{6f}' => 111,
        '\u{70}' => 112,
        '\u{71}' => 113,
        '\u{72}' => 114,
        '\u{73}' => 115,
        '\u{74}' => 116,
        '\u{75}' => 117,
        '\u{76}' => 118,
        '\u{77}' => 119,
        '\u{78}' => 120,
        '\u{79}' => 121,
        '\u{7a}' => 122,
        '\u{7b}' => 123,
        '\u{7c}' => 124,
        '\u{7d}' => 125,
        '\u{7e}' => 126,
        '\u{7f}' => 127,
        '\u{c7}' => 128,
        '\u{fc}' => 129,
        '\u{e9}' => 130,
        '\u{e2}' => 131,
        '\u{e4}' => 132,
        '\u{e0}' => 133,
        '\u{e5}' => 134,
        '\u{e7}' => 135,
        '\u{ea}' => 136,
        '\u{eb}' => 137,
        '\u{e8}' => 138,
        '\u{ef}' => 139,
        '\u{ee}' => 140,
        '\u{ec}' => 141,
        '\u{c4}' => 142,
        '\u{c5}' => 143,
        '\u{c9}' => 144,
        '\u{e6}' => 145,
        '\u{c6}' => 146,
        '\u{f4}' => 147,
        '\u{f6}' => 148,
        '\u{f2}' => 149,
        '\u{fb}' => 150,
        '\u{f9}' => 151,
        '\u{ff}' => 152,
        '\u{d6}' => 153,
        '\u{dc}' => 154,
        '\u{a2}' => 155,
        '\u{a3}' => 156,
        '\u{a5}' => 157,
        '\u{20a7}' => 158,
        '\u{192}' => 159,
        '\u{e1}' => 160,
        '\u{ed}' => 161,
        '\u{f3}' => 162,
        '\u{fa}' => 163,
        '\u{f1}' => 164,
        '\u{d1}' => 165,
        '\u{aa}' => 166,
        '\u{ba}' => 167,
        '\u{bf}' => 168,
        '\u{2310}' => 169,
        '\u{ac}' => 170,
        '\u{bd}' => 171,
        '\u{bc}' => 172,
        '\u{a1}' => 173,
        '\u{ab}' => 174,
        '\u{bb}' => 175,
        '\u{2591}' => 176,
        '\u{2592}' => 177,
        '\u{2593}' => 178,
        '\u{2502}' => 179,
        '\u{2524}' => 180,
        '\u{2561}' => 181,
        '\u{2562}' => 182,
        '\u{2556}' => 183,
        '\u{2555}' => 184,
        '\u{2563}' => 185,
        '\u{2551}' => 186,
        '\u{2557}' => 187,
        '\u{255d}' => 188,
        '\u{255c}' => 189,
        '\u{255b}' => 190,
        '\u{2510}' => 191,
        '\u{2514}' => 192,
        '\u{2534}' => 193,
        '\u{252c}' => 194,
        '\u{251c}' => 195,
        '\u{2500}' => 196,
        '\u{253c}' => 197,
        '\u{255e}' => 198,
        '\u{255f}' => 199,
        '\u{255a}' => 200,
        '\u{2554}' => 201,
        '\u{2569}' => 202,
        '\u{2566}' => 203,
        '\u{2560}' => 204,
        '\u{2550}' => 205,
        '\u{256c}' => 206,
        '\u{2567}' => 207,
        '\u{2568}' => 208,
        '\u{2564}' => 209,
        '\u{2565}' => 210,
        '\u{2559}' => 211,
        '\u{2558}' => 212,
        '\u{2552}' => 213,
        '\u{2553}' => 214,
        '\u{256b}' => 215,
        '\u{256a}' => 216,
        '\u{2518}' => 217,
        '\u{250c}' => 218,
        '\u{2588}' => 219,
        '\u{2584}' => 220,
        '\u{258c}' => 221,
        '\u{2590}' => 222,
        '\u{2580}' => 223,
        '\u{3b1}' => 224,
        '\u{df}' => 225,
        '\u{393}' => 226,
        '\u{3c0}' => 227,
        '\u{3a3}' => 228,
        '\u{3c3}' => 229,
        '\u{b5}' => 230,
        '\u{3c4}' => 231,
        '\u{3a6}' => 232,
        '\u{398}' => 233,
        '\u{3a9}' => 234,
        '\u{3b4}' => 235,
        '\u{221e}' => 236,
        '\u{3c6}' => 237,
        '\u{3b5}' => 238,
        '\u{2229}' => 239,
        '\u{2261}' => 240,
        '\u{b1}' => 241,
        '\u{2265}' => 242,
        '\u{2264}' => 243,
        '\u{2320}' => 244,
        '\u{2321}' => 245,
        '\u{f7}' => 246,
        '\u{2248}' => 247,
        '\u{b0}' => 248,
        '\u{2219}' => 249,
        '\u{b7}' => 250,
        '\u{221a}' => 251,
        '\u{207f}' => 252,
        '\u{b2}' => 253,
        '\u{25a0}' => 254,
        '\u{a0}' => 255,
        _ => 63,
    }
}

/// Number of outline styles.
pub const OUTLINE_STYLE_COUNT: usize = 19;

/// Number of placeholder letters per outline style (`'A'` through `'Q'`).
pub const OUTLINE_STYLE_WIDTH: usize = 17;

/// The character that outline style `style` draws for placeholder index `i`.
pub open spec fn outline_style_char(style: usize, i: usize) -> char {
    match style {
        0 => match i {
            0 => '\u{2500}',
            1 => '\u{2500}',
            2 => '\u{2502}',
            3 => '\u{2502}',
            4 => '\u{250c}',
            5 => '\u{2510}',
            6 => '\u{250c}',
            7 => '\u{2510}',
            8 => '\u{2514}',
            9 => '\u{2518}',
            10 => '\u{2514}',
            11 => '\u{2518}',
            12 => '\u{2524}',
            13 => '\u{251c}',
            14 => '\u{20}',
            15 => '\u{20}',
            _ => '\u{20}',
        },
        1 => match i {
            0 => '\u{2550}',
            1 => '\u{2500}',
            2 => '\u{2502}',
            3 => '\u{2502}',
            4 => '\u{2552}',
            5 => '\u{2555}',
            6 => '\u{250c}',
            7 => '\u{2510}',
            8 => '\u{2558}',
            9 => '\u{255b}',
            10 => '\u{2514}',
            11 => '\u{2518}',
            12 => '\u{2561}',
            13 => '\u{251c}',
            14 => '\u{20}',
            15 => '\u{20}',
            _ => '\u{20}',
        },
        2 => match i {
            0 => '\u{2500}',
            1 => '\u{2550}',
            2 => '\u{2502}',
            3 => '\u{2502}',
            4 => '\u{250c}',
            5 => '\u{2510}',
            6 => '\u{2552}',
            7 => '\u{2555}',
            8 => '\u{2514}',
            9 => '\u{2518}',
            10 => '\u{2558}',
            11 => '\u{255b}',
            12 => '\u{2524}',
            13 => '\u{255e}',
            14 => '\u{20}',
            15 => '\u{20}',
            _ => '\u{20}',
        },
        3 => match i {
            0 => '\u{2550}',
            1 => '\u{2550}',
            2 => '\u{2502}',
            3 => '\u{2502}',
            4 => '\u{2552}',
            5 => '\u{2555}',
            6 => '\u{2552}',
            7 => '\u{2555}',
            8 => '\u{2558}',
            9 => '\u{255b}',
            10 => '\u{2558}',
            11 => '\u{255b}',
            12 => '\u{2561}',
            13 => '\u{255e}',
            14 => '\u{20}',
            15 => '\u{20}',
            _ => '\u{20}',
        },
        4 => match i {
            0 => '\u{2500}',
            1 => '\u{2500}',
            2 => '\u{2551}',
            3 => '\u{2502}',
            4 => '\u{2553}',
            5 => '\u{2510}',
            6 => '\u{250c}',
            7 => '\u{2556}',
            8 => '\u{2514}',
            9 => '\u{255c}',
            10 => '\u{2559}',
            11 => '\u{2518}',
            12 => '\u{2562}',
            13 => '\u{251c}',
            14 => '\u{20}',
            15 => '\u{20}',
            _ => '\u{20}',
        },
        5 => match i {
            0 => '\u{2550}',
            1 => '\u{2500}',
            2 => '\u{2551}',
            3 => '\u{2502}',
            4 => '\u{2554}',
            5 => '\u{2555}',
            6 => '\u{250c}',
            7 => '\u{2556}',
            8 => '\u{2558}',
            9 => '\u{255d}',
            10 => '\u{2559}',
            11 => '\u{2518}',
            12 => '\u{2563}',
            13 => '\u{251c}',
            14 => '\u{20}',
            15 => '\u{20}',
            _ => '\u{20}',
        },
        6 => match i {
            0 => '\u{2500}',
            1 => '\u{2550}',
            2 => '\u{2551}',
            3 => '\u{2502}',
            4 => '\u{2553}',
            5 => '\u{2510}',
            6 => '\u{2552}',
            7 => '\u{2557}',
            8 => '\u{2514}',
            9 => '\u{255c}',
            10 => '\u{255a}',
            11 => '\u{255b}',
            12 => '\u{2562}',
            13 => '\u{255e}',
            14 => '\u{20}',
            15 => '\u{20}',
            _ => '\u{20}',
        },
        7 => match i {
            0 => '\u{2550}',
            1 => '\u{2550}',
            2 => '\u{2551}',
            3 => '\u{2502}',
            4 => '\u{2554}',
            5 => '\u{2555}',
            6 => '\u{2552}',
            7 => '\u{2557}',
            8 => '\u{2558}',
            9 => '\u{255d}',
            10 => '\u{255a}',
            11 => '\u{255b}',
            12 => '\u{2563}',
            13 => '\u{255e}',
            14 => '\u{20}',
            15 => '\u{20}',
            _ => '\u{20}',
        },
        8 => match i {
            0 => '\u{2500}',
            1 => '\u{2500}',
            2 => '\u{2502}',
            3 => '\u{2551}',
            4 => '\u{250c}',
            5 => '\u{2556}',
            6 => '\u{2553}',
            7 => '\u{2510}',
            8 => '\u{2559}',
            9 => '\u{2518}',
            10 => '\u{2514}',
            11 => '\u{255c}',
            12 => '\u{2524}',
            13 => '\u{255f}',
            14 => '\u{20}',
            15 => '\u{20}',
            _ => '\u{20}',
        },
        9 => match i {
            0 => '\u{2550}',
            1 => '\u{2500}',
            2 => '\u{2502}',
            3 => '\u{2551}',
            4 => '\u{2552}',
            5 => '\u{2557}',
            6 => '\u{2553}',
            7 => '\u{2510}',
            8 => '\u{255a}',
            9 => '\u{255b}',
            10 => '\u{2514}',
            11 => '\u{255c}',
            12 => '\u{2561}',
            13 => '\u{255f}',
            14 => '\u{20}',
            15 => '\u{20}',
            _ => '\u{20}',
        },
        10 => match i {
            0 => '\u{2500}',
            1 => '\u{2550}',
            2 => '\u{2502}',
            3 => '\u{2551}',
            4 => '\u{250c}',
            5 => '\u{2556}',
            6 => '\u{2554}',
            7 => '\u{2555}',
            8 => '\u{2559}',
            9 => '\u{2518}',
            10 => '\u{2558}',
            11 => '\u{255d}',
            12 => '\u{2524}',
            13 => '\u{2560}',
            14 => '\u{20}',
            15 => '\u{20}',
            _ => '\u{20}',
        },
        11 => match i {
            0 => '\u{2550}',
            1 => '\u{2550}',
            2 => '\u{2502}',
            3 => '\u{2551}',
            4 => '\u{2552}',
            5 => '\u{2557}',
            6 => '\u{2554}',
            7 => '\u{2555}',
            8 => '\u{255a}',
            9 => '\u{255b}',
            10 => '\u{2558}',
            11 => '\u{255d}',
            12 => '\u{2561}',
            13 => '\u{2560}',
            14 => '\u{20}',
            15 => '\u{20}',
            _ => '\u{20}',
        },
        12 => match i {
            0 => '\u{2500}',
            1 => '\u{2500}',
            2 => '\u{2551}',
            3 => '\u{2551}',
            4 => '\u{2553}',
            5 => '\u{2556}',
            6 => '\u{2553}',
            7 => '\u{2556}',
            8 => '\u{2559}',
            9 => '\u{255c}',
            10 => '\u{2559}',
            11 => '\u{255c}',
            12 => '\u{2562}',
            13 => '\u{255f}',
            14 => '\u{20}',
            15 => '\u{20}',
            _ => '\u{20}',
        },
        13 => match i {
            0 => '\u{2550}',
            1 => '\u{2500}',
            2 => '\u{2551}',
            3 => '\u{2551}',
            4 => '\u{2554}',
            5 => '\u{2557}',
            6 => '\u{2553}',
            7 => '\u{2556}',
            8 => '\u{255a}',
            9 => '\u{255d}',
            10 => '\u{2559}',
            11 => '\u{255c}',
            12 => '\u{2563}',
            13 => '\u{255f}',
            14 => '\u{20}',
            15 => '\u{20}',
            _ => '\u{20}',
        },
        14 => match i {
            0 => '\u{2500}',
            1 => '\u{2550}',
            2 => '\u{2551}',
            3 => '\u{2551}',
            4 => '\u{2553}',
            5 => '\u{2556}',
            6 => '\u{2554}',
            7 => '\u{2557}',
            8 => '\u{2559}',
            9 => '\u{255c}',
            10 => '\u{255a}',
            11 => '\u{255d}',
            12 => '\u{2562}',
            13 => '\u{2560}',
            14 => '\u{20}',
            15 => '\u{20}',
            _ => '\u{20}',
        },
        15 => match i {
            0 => '\u{2550}',
            1 => '\u{2550}',
            2 => '\u{2551}',
            3 => '\u{2551}',
            4 => '\u{2554}',
            5 => '\u{2557}',
            6 => '\u{2554}',
            7 => '\u{2557}',
            8 => '\u{255a}',
            9 => '\u{255d}',
            10 => '\u{255a}',
            11 => '\u{255d}',
            12 => '\u{2563}',
            13 => '\u{2560}',
            14 => '\u{20}',
            15 => '\u{20}',
            _ => '\u{20}',
        },
        16 => match i {
            0 => '\u{2584}',
            1 => '\u{2584}',
            2 => '\u{2588}',
            3 => '\u{2588}',
            4 => '\u{2584}',
            5 => '\u{2584}',
            6 => '\u{2584}',
            7 => '\u{2584}',
            8 => '\u{2588}',
            9 => '\u{2588}',
            10 => '\u{2588}',
            11 => '\u{2588}',
            12 => '\u{2588}',
            13 => '\u{2588}',
            14 => '\u{20}',
            15 => '\u{20}',
            _ => '\u{20}',
        },
        17 => match i {
            0 => '\u{2580}',
            1 => '\u{2580}',
            2 => '\u{2588}',
            3 => '\u{2588}',
            4 => '\u{2588}',
            5 => '\u{2588}',
            6 => '\u{2588}',
            7 => '\u{2588}',
            8 => '\u{2580}',
            9 => '\u{2580}',
            10 => '\u{2580}',
            11 => '\u{2580}',
            12 => '\u{2588}',
            13 => '\u{2588}',
            14 => '\u{20}',
            15 => '\u{20}',
            _ => '\u{20}',
        },
        _ => match i {
            0 => '\u{2580}',
            1 => '\u{2584}',
            2 => '\u{2590}',
            3 => '\u{258c}',
            4 => '\u{2590}',
            5 => '\u{258c}',
            6 => '\u{2584}',
            7 => '\u{2584}',
            8 => '\u{2580}',
            9 => '\u{2580}',
            10 => '\u{2590}',
            11 => '\u{258c}',
            12 => '\u{2588}',
            13 => '\u{2588}',
            14 => '\u{20}',
            15 => '\u{20}',
            _ => '\u{20}',
        },
    }
}

/// Looks up the outline-style table.
pub fn outline_style_lookup(style: usize, i: usize) -> (c: char)
    requires
        style < OUTLINE_STYLE_COUNT,
        i < OUTLINE_STYLE_WIDTH,
    ensures
        c == outline_style_char(style, i),
{
    match style {
        0 => match i {
            0 => '\u{2500}',
            1 => '\u{2500}',
            2 => '\u{2502}',
            3 => '\u{2502}',
            4 => '\u{250c}',
            5 => '\u{2510}',
            6 => '\u{250c}',
            7 => '\u{2510}',
            8 => '\u{2514}',
            9 => '\u{2518}',
            10 => '\u{2514}',
            11 => '\u{2518}',
            12 => '\u{2524}',
            13 => '\u{251c}',
            14 => '\u{20}',
            15 => '\u{20}',
            _ => '\u{20}',
        },
        1 => match i {
            0 => '\u{2550}',
            1 => '\u{2500}',
            2 => '\u{2502}',
            3 => '\u{2502}',
            4 => '\u{2552}',
            5 => '\u{2555}',
            6 => '\u{250c}',
            7 => '\u{2510}',
            8 => '\u{2558}',
            9 => '\u{255b}',
            10 => '\u{2514}',
            11 => '\u{2518}',
            12 => '\u{2561}',
            13 => '\u{251c}',
            14 => '\u{20}',
            15 => '\u{20}',
            _ => '\u{20}',
        },
        2 => match i {
            0 => '\u{2500}',
            1 => '\u{2550}',
            2 => '\u{2502}',
            3 => '\u{2502}',
            4 => '\u{250c}',
            5 => '\u{2510}',
            6 => '\u{2552}',
            7 => '\u{2555}',
            8 => '\u{2514}',
            9 => '\u{2518}',
            10 => '\u{2558}',
            11 => '\u{255b}',
            12 => '\u{2524}',
            13 => '\u{255e}',
            14 => '\u{20}',
            15 => '\u{20}',
            _ => '\u{20}',
        },
        3 => match i {
            0 => '\u{2550}',
            1 => '\u{2550}',
            2 => '\u{2502}',
            3 => '\u{2502}',
            4 => '\u{2552}',
            5 => '\u{2555}',
            6 => '\u{2552}',
            7 => '\u{2555}',
            8 => '\u{2558}',
            9 => '\u{255b}',
            10 => '\u{2558}',
            11 => '\u{255b}',
            12 => '\u{2561}',
            13 => '\u{255e}',
            14 => '\u{20}',
            15 => '\u{20}',
            _ => '\u{20}',
        },
        4 => match i {
            0 => '\u{2500}',
            1 => '\u{2500}',
            2 => '\u{2551}',
            3 => '\u{2502}',
            4 => '\u{2553}',
            5 => '\u{2510}',
            6 => '\u{250c}',
            7 => '\u{2556}',
            8 => '\u{2514}',
            9 => '\u{255c}',
            10 => '\u{2559}',
            11 => '\u{2518}',
            12 => '\u{2562}',
            13 => '\u{251c}',
            14 => '\u{20}',
            15 => '\u{20}',
            _ => '\u{20}',
        },
        5 => match i {
            0 => '\u{2550}',
            1 => '\u{2500}',
            2 => '\u{2551}',
            3 => '\u{2502}',
            4 => '\u{2554}',
            5 => '\u{2555}',
            6 => '\u{250c}',
            7 => '\u{2556}',
            8 => '\u{2558}',
            9 => '\u{255d}',
            10 => '\u{2559}',
            11 => '\u{2518}',
            12 => '\u{2563}',
            13 => '\u{251c}',
            14 => '\u{20}',
            15 => '\u{20}',
            _ => '\u{20}',
        },
        6 => match i {
            0 => '\u{2500}',
            1 => '\u{2550}',
            2 => '\u{2551}',
            3 => '\u{2502}',
            4 => '\u{2553}',
            5 => '\u{2510}',
            6 => '\u{2552}',
            7 => '\u{2557}',
            8 => '\u{2514}',
            9 => '\u{255c}',
            10 => '\u{255a}',
            11 => '\u{255b}',
            12 => '\u{2562}',
            13 => '\u{255e}',
            14 => '\u{20}',
            15 => '\u{20}',
            _ => '\u{20}',
        },
        7 => match i {
            0 => '\u{2550}',
            1 => '\u{2550}',
            2 => '\u{2551}',
            3 => '\u{2502}',
            4 => '\u{2554}',
            5 => '\u{2555}',
            6 => '\u{2552}',
            7 => '\u{2557}',
            8 => '\u{2558}',
            9 => '\u{255d}',
            10 => '\u{255a}',
            11 => '\u{255b}',
            12 => '\u{2563}',
            13 => '\u{255e}',
            14 => '\u{20}',
            15 => '\u{20}',
            _ => '\u{20}',
        },
        8 => match i {
            0 => '\u{2500}',
            1 => '\u{2500}',
            2 => '\u{2502}',
            3 => '\u{2551}',
            4 => '\u{250c}',
            5 => '\u{2556}',
            6 => '\u{2553}',
            7 => '\u{2510}',
            8 => '\u{2559}',
            9 => '\u{2518}',
            10 => '\u{2514}',
            11 => '\u{255c}',
            12 => '\u{2524}',
            13 => '\u{255f}',
            14 => '\u{20}',
            15 => '\u{20}',
            _ => '\u{20}',
        },
        9 => match i {
            0 => '\u{2550}',
            1 => '\u{2500}',
            2 => '\u{2502}',
            3 => '\u{2551}',
            4 => '\u{2552}',
            5 => '\u{2557}',
            6 => '\u{2553}',
            7 => '\u{2510}',
            8 => '\u{255a}',
            9 => '\u{255b}',
            10 => '\u{2514}',
            11 => '\u{255c}',
            12 => '\u{2561}',
            13 => '\u{255f}',
            14 => '\u{20}',
            15 => '\u{20}',
            _ => '\u{20}',
        },
        10 => match i {
            0 => '\u{2500}',
            1 => '\u{2550}',
            2 => '\u{2502}',
            3 => '\u{2551}',
            4 => '\u{250c}',
            5 => '\u{2556}',
            6 => '\u{2554}',
            7 => '\u{2555}',
            8 => '\u{2559}',
            9 => '\u{2518}',
            10 => '\u{2558}',
            11 => '\u{255d}',
            12 => '\u{2524}',
            13 => '\u{2560}',
            14 => '\u{20}',
            15 => '\u{20}',
            _ => '\u{20}',
        },
        11 => match i {
            0 => '\u{2550}',
            1 => '\u{2550}',
            2 => '\u{2502}',
            3 => '\u{2551}',
            4 => '\u{2552}',
            5 => '\u{2557}',
            6 => '\u{2554}',
            7 => '\u{2555}',
            8 => '\u{255a}',
            9 => '\u{255b}',
            10 => '\u{2558}',
            11 => '\u{255d}',
            12 => '\u{2561}',
            13 => '\u{2560}',
            14 => '\u{20}',
            15 => '\u{20}',
            _ => '\u{20}',
        },
        12 => match i {
            0 => '\u{2500}',
            1 => '\u{2500}',
            2 => '\u{2551}',
            3 => '\u{2551}',
            4 => '\u{2553}',
            5 => '\u{2556}',
            6 => '\u{2553}',
            7 => '\u{2556}',
            8 => '\u{2559}',
            9 => '\u{255c}',
            10 => '\u{2559}',
            11 => '\u{255c}',
            12 => '\u{2562}',
            13 => '\u{255f}',
            14 => '\u{20}',
            15 => '\u{20}',
            _ => '\u{20}',
        },
        13 => match i {
            0 => '\u{2550}',
            1 => '\u{2500}',
            2 => '\u{2551}',
            3 => '\u{2551}',
            4 => '\u{2554}',
            5 => '\u{2557}',
            6 => '\u{2553}',
            7 => '\u{2556}',
            8 => '\u{255a}',
            9 => '\u{255d}',
            10 => '\u{2559}',
            11 => '\u{255c}',
            12 => '\u{2563}',
            13 => '\u{255f}',
            14 => '\u{20}',
            15 => '\u{20}',
            _ => '\u{20}',
        },
        14 => match i {
            0 => '\u{2500}',
            1 => '\u{2550}',
            2 => '\u{2551}',
            3 => '\u{2551}',
            4 => '\u{2553}',
            5 => '\u{2556}',
            6 => '\u{2554}',
            7 => '\u{2557}',
            8 => '\u{2559}',
            9 => '\u{255c}',
            10 => '\u{255a}',
            11 => '\u{255d}',
            12 => '\u{2562}',
            13 => '\u{2560}',
            14 => '\u{20}',
            15 => '\u{20}',
            _ => '\u{20}',
        },
        15 => match i {
            0 => '\u{2550}',
            1 => '\u{2550}',
            2 => '\u{2551}',
            3 => '\u{2551}',
            4 => '\u{2554}',
            5 => '\u{2557}',
            6 => '\u{2554}',
            7 => '\u{2557}',
            8 => '\u{255a}',
            9 => '\u{255d}',
            10 => '\u{255a}',
            11 => '\u{255d}',
            12 => '\u{2563}',
            13 => '\u{2560}',
            14 => '\u{20}',
            15 => '\u{20}',
            _ => '\u{20}',
        },
        16 => match i {
            0 => '\u{2584}',
            1 => '\u{2584}',
            2 => '\u{2588}',
            3 => '\u{2588}',
            4 => '\u{2584}',
            5 => '\u{2584}',
            6 => '\u{2584}',
            7 => '\u{2584}',
            8 => '\u{2588}',
            9 => '\u{2588}',
            10 => '\u{2588}',
            11 => '\u{2588}',
            12 => '\u{2588}',
            13 => '\u{2588}',
            14 => '\u{20}',
            15 => '\u{20}',
            _ => '\u{20}',
        },
        17 => match i {
            0 => '\u{2580}',
            1 => '\u{2580}',
            2 => '\u{2588}',
            3 => '\u{2588}',
            4 => '\u{2588}',
            5 => '\u{2588}',
            6 => '\u{2588}',
            7 => '\u{2588}',
            8 => '\u{2580}',
            9 => '\u{2580}',
            10 => '\u{2580}',
            11 => '\u{2580}',
            12 => '\u{2588}',
            13 => '\u{2588}',
            14 => '\u{20}',
            15 => '\u{20}',
            _ => '\u{20}',
        },
        _ => match i {
            0 => '\u{2580}',
            1 => '\u{2584}',
            2 => '\u{2590}',
            3 => '\u{258c}',
            4 => '\u{2590}',
            5 => '\u{258c}',
            6 => '\u{2584}',
            7 => '\u{2584}',
            8 => '\u{2580}',
            9 => '\u{2580}',
            10 => '\u{2590}',
            11 => '\u{258c}',
            12 => '\u{2588}',
            13 => '\u{2588}',
            14 => '\u{20}',
            15 => '\u{20}',
            _ => '\u{20}',
        },
    }
}

} // verus!
