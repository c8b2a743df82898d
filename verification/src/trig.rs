//! Sine and cosine of fixed-point angles, from a table of one quarter turn.
//!
//! Angles are radians in thousandths. A full turn is taken as `TAU`
//! thousandths and is divided into 1000 steps; the sine of every angle inside a
//! step is the sine at the start of that step.

use vstd::prelude::*;
use vstd::arithmetic::div_mod::{
    lemma_div_is_ordered, lemma_div_pos_is_pos, lemma_fundamental_div_mod,
    lemma_fundamental_div_mod_converse_div, lemma_fundamental_div_mod_converse_mod,
    lemma_small_mod,
};

verus! {

/// One full turn, in thousandths of a radian.
pub const TAU: i64 = 6283;

/// Half a turn, in thousandths of a radian, rounded.
pub const PI: i64 = 3142;

/// The number of steps into which a full turn is divided.
pub const STEPS: i64 = 1000;

/// Sines of the first quarter turn, in thousandths: entry `k` is the sine of
/// `k` thousandths of a turn.
pub const QUARTER: [i64; 251] = [
    0, 6, 13, 19, 25, 31, 38, 44, 50, 57,
    63, 69, 75, 82, 88, 94, 100, 107, 113, 119,
    125, 132, 138, 144, 150, 156, 163, 169, 175, 181,
    187, 194, 200, 206, 212, 218, 224, 230, 236, 243,
    249, 255, 261, 267, 273, 279, 285, 291, 297, 303,
    309, 315, 321, 327, 333, 339, 345, 351, 356, 362,
    368, 374, 380, 386, 391, 397, 403, 409, 414, 420,
    426, 431, 437, 443, 448, 454, 460, 465, 471, 476,
    482, 487, 493, 498, 504, 509, 514, 520, 525, 531,
    536, 541, 546, 552, 557, 562, 567, 572, 578, 583,
    588, 593, 598, 603, 608, 613, 618, 623, 628, 633,
    637, 642, 647, 652, 657, 661, 666, 671, 675, 680,
    685, 689, 694, 698, 703, 707, 712, 716, 720, 725,
    729, 733, 738, 742, 746, 750, 754, 758, 762, 766,
    771, 775, 778, 782, 786, 790, 794, 798, 802, 805,
    809, 813, 816, 820, 824, 827, 831, 834, 838, 841,
    844, 848, 851, 854, 858, 861, 864, 867, 870, 873,
    876, 879, 882, 885, 888, 891, 894, 897, 899, 902,
    905, 907, 910, 913, 915, 918, 920, 923, 925, 927,
    930, 932, 934, 937, 939, 941, 943, 945, 947, 949,
    951, 953, 955, 957, 959, 960, 962, 964, 965, 967,
    969, 970, 972, 973, 975, 976, 977, 979, 980, 981,
    982, 983, 985, 986, 987, 988, 989, 990, 990, 991,
    992, 993, 994, 994, 995, 996, 996, 997, 997, 998,
    998, 998, 999, 999, 999, 1000, 1000, 1000, 1000, 1000,
    1000,
];

/// Entry `k` of the quarter table.
pub open spec fn quarter(k: int) -> int {
    QUARTER@[k] as int
}

/// By how much the squared length of a table direction, in millionths, may
/// differ from one.
pub const NORM_SLACK: i64 = 1314;

/// What is needed of entry `k`: it lies between zero and one, it does not fall
/// below the entry before it, and together with its mirror entry it is the
/// sine and cosine of one angle, up to [`NORM_SLACK`].
pub open spec fn entry_ok(k: int) -> bool {
    &&& 0 <= quarter(k) <= 1000
    &&& k > 0 ==> quarter(k - 1) <= quarter(k)
    &&& -NORM_SLACK <= quarter(k) * quarter(k) + quarter(250 - k) * quarter(250 - k) - 1_000_000
        <= NORM_SLACK
}

/// One row of the table check: with the entry, its mirror and its predecessor
/// given as literals, the products are sums of literals.
proof fn lemma_row(k: int, s: int, c: int, p: int)
    requires
        0 <= k <= 250,
        quarter(k) == s,
        quarter(250 - k) == c,
        k > 0 ==> quarter(k - 1) == p,
        0 <= s <= 1000,
        p <= s,
        -1314 <= s * s + c * c - 1_000_000 <= 1314,
    ensures
        entry_ok(k),
{
}

proof fn lemma_rows_0(k: int)
    requires
        0 <= k < 32,
    ensures
        entry_ok(k),
{
    if k == 0 { lemma_row(k, 0, 1000, 0); }
    if k == 1 { lemma_row(k, 6, 1000, 0); }
    if k == 2 { lemma_row(k, 13, 1000, 6); }
    if k == 3 { lemma_row(k, 19, 1000, 13); }
    if k == 4 { lemma_row(k, 25, 1000, 19); }
    if k == 5 { lemma_row(k, 31, 1000, 25); }
    if k == 6 { lemma_row(k, 38, 999, 31); }
    if k == 7 { lemma_row(k, 44, 999, 38); }
    if k == 8 { lemma_row(k, 50, 999, 44); }
    if k == 9 { lemma_row(k, 57, 998, 50); }
    if k == 10 { lemma_row(k, 63, 998, 57); }
    if k == 11 { lemma_row(k, 69, 998, 63); }
    if k == 12 { lemma_row(k, 75, 997, 69); }
    if k == 13 { lemma_row(k, 82, 997, 75); }
    if k == 14 { lemma_row(k, 88, 996, 82); }
    if k == 15 { lemma_row(k, 94, 996, 88); }
    if k == 16 { lemma_row(k, 100, 995, 94); }
    if k == 17 { lemma_row(k, 107, 994, 100); }
    if k == 18 { lemma_row(k, 113, 994, 107); }
    if k == 19 { lemma_row(k, 119, 993, 113); }
    if k == 20 { lemma_row(k, 125, 992, 119); }
    if k == 21 { lemma_row(k, 132, 991, 125); }
    if k == 22 { lemma_row(k, 138, 990, 132); }
    if k == 23 { lemma_row(k, 144, 990, 138); }
    if k == 24 { lemma_row(k, 150, 989, 144); }
    if k == 25 { lemma_row(k, 156, 988, 150); }
    if k == 26 { lemma_row(k, 163, 987, 156); }
    if k == 27 { lemma_row(k, 169, 986, 163); }
    if k == 28 { lemma_row(k, 175, 985, 169); }
    if k == 29 { lemma_row(k, 181, 983, 175); }
    if k == 30 { lemma_row(k, 187, 982, 181); }
    if k == 31 { lemma_row(k, 194, 981, 187); }
}

proof fn lemma_rows_32(k: int)
    requires
        32 <= k < 64,
    ensures
        entry_ok(k),
{
    if k == 32 { lemma_row(k, 200, 980, 194); }
    if k == 33 { lemma_row(k, 206, 979, 200); }
    if k == 34 { lemma_row(k, 212, 977, 206); }
    if k == 35 { lemma_row(k, 218, 976, 212); }
    if k == 36 { lemma_row(k, 224, 975, 218); }
    if k == 37 { lemma_row(k, 230, 973, 224); }
    if k == 38 { lemma_row(k, 236, 972, 230); }
    if k == 39 { lemma_row(k, 243, 970, 236); }
    if k == 40 { lemma_row(k, 249, 969, 243); }
    if k == 41 { lemma_row(k, 255, 967, 249); }
    if k == 42 { lemma_row(k, 261, 965, 255); }
    if k == 43 { lemma_row(k, 267, 964, 261); }
    if k == 44 { lemma_row(k, 273, 962, 267); }
    if k == 45 { lemma_row(k, 279, 960, 273); }
    if k == 46 { lemma_row(k, 285, 959, 279); }
    if k == 47 { lemma_row(k, 291, 957, 285); }
    if k == 48 { lemma_row(k, 297, 955, 291); }
    if k == 49 { lemma_row(k, 303, 953, 297); }
    if k == 50 { lemma_row(k, 309, 951, 303); }
    if k == 51 { lemma_row(k, 315, 949, 309); }
    if k == 52 { lemma_row(k, 321, 947, 315); }
    if k == 53 { lemma_row(k, 327, 945, 321); }
    if k == 54 { lemma_row(k, 333, 943, 327); }
    if k == 55 { lemma_row(k, 339, 941, 333); }
    if k == 56 { lemma_row(k, 345, 939, 339); }
    if k == 57 { lemma_row(k, 351, 937, 345); }
    if k == 58 { lemma_row(k, 356, 934, 351); }
    if k == 59 { lemma_row(k, 362, 932, 356); }
    if k == 60 { lemma_row(k, 368, 930, 362); }
    if k == 61 { lemma_row(k, 374, 927, 368); }
    if k == 62 { lemma_row(k, 380, 925, 374); }
    if k == 63 { lemma_row(k, 386, 923, 380); }
}

proof fn lemma_rows_64(k: int)
    requires
        64 <= k < 96,
    ensures
        entry_ok(k),
{
    if k == 64 { lemma_row(k, 391, 920, 386); }
    if k == 65 { lemma_row(k, 397, 918, 391); }
    if k == 66 { lemma_row(k, 403, 915, 397); }
    if k == 67 { lemma_row(k, 409, 913, 403); }
    if k == 68 { lemma_row(k, 414, 910, 409); }
    if k == 69 { lemma_row(k, 420, 907, 414); }
    if k == 70 { lemma_row(k, 426, 905, 420); }
    if k == 71 { lemma_row(k, 431, 902, 426); }
    if k == 72 { lemma_row(k, 437, 899, 431); }
    if k == 73 { lemma_row(k, 443, 897, 437); }
    if k == 74 { lemma_row(k, 448, 894, 443); }
    if k == 75 { lemma_row(k, 454, 891, 448); }
    if k == 76 { lemma_row(k, 460, 888, 454); }
    if k == 77 { lemma_row(k, 465, 885, 460); }
    if k == 78 { lemma_row(k, 471, 882, 465); }
    if k == 79 { lemma_row(k, 476, 879, 471); }
    if k == 80 { lemma_row(k, 482, 876, 476); }
    if k == 81 { lemma_row(k, 487, 873, 482); }
    if k == 82 { lemma_row(k, 493, 870, 487); }
    if k == 83 { lemma_row(k, 498, 867, 493); }
    if k == 84 { lemma_row(k, 504, 864, 498); }
    if k == 85 { lemma_row(k, 509, 861, 504); }
    if k == 86 { lemma_row(k, 514, 858, 509); }
    if k == 87 { lemma_row(k, 520, 854, 514); }
    if k == 88 { lemma_row(k, 525, 851, 520); }
    if k == 89 { lemma_row(k, 531, 848, 525); }
    if k == 90 { lemma_row(k, 536, 844, 531); }
    if k == 91 { lemma_row(k, 541, 841, 536); }
    if k == 92 { lemma_row(k, 546, 838, 541); }
    if k == 93 { lemma_row(k, 552, 834, 546); }
    if k == 94 { lemma_row(k, 557, 831, 552); }
    if k == 95 { lemma_row(k, 562, 827, 557); }
}

proof fn lemma_rows_96(k: int)
    requires
        96 <= k < 128,
    ensures
        entry_ok(k),
{
    if k == 96 { lemma_row(k, 567, 824, 562); }
    if k == 97 { lemma_row(k, 572, 820, 567); }
    if k == 98 { lemma_row(k, 578, 816, 572); }
    if k == 99 { lemma_row(k, 583, 813, 578); }
    if k == 100 { lemma_row(k, 588, 809, 583); }
    if k == 101 { lemma_row(k, 593, 805, 588); }
    if k == 102 { lemma_row(k, 598, 802, 593); }
    if k == 103 { lemma_row(k, 603, 798, 598); }
    if k == 104 { lemma_row(k, 608, 794, 603); }
    if k == 105 { lemma_row(k, 613, 790, 608); }
    if k == 106 { lemma_row(k, 618, 786, 613); }
    if k == 107 { lemma_row(k, 623, 782, 618); }
    if k == 108 { lemma_row(k, 628, 778, 623); }
    if k == 109 { lemma_row(k, 633, 775, 628); }
    if k == 110 { lemma_row(k, 637, 771, 633); }
    if k == 111 { lemma_row(k, 642, 766, 637); }
    if k == 112 { lemma_row(k, 647, 762, 642); }
    if k == 113 { lemma_row(k, 652, 758, 647); }
    if k == 114 { lemma_row(k, 657, 754, 652); }
    if k == 115 { lemma_row(k, 661, 750, 657); }
    if k == 116 { lemma_row(k, 666, 746, 661); }
    if k == 117 { lemma_row(k, 671, 742, 666); }
    if k == 118 { lemma_row(k, 675, 738, 671); }
    if k == 119 { lemma_row(k, 680, 733, 675); }
    if k == 120 { lemma_row(k, 685, 729, 680); }
    if k == 121 { lemma_row(k, 689, 725, 685); }
    if k == 122 { lemma_row(k, 694, 720, 689); }
    if k == 123 { lemma_row(k, 698, 716, 694); }
    if k == 124 { lemma_row(k, 703, 712, 698); }
    if k == 125 { lemma_row(k, 707, 707, 703); }
    if k == 126 { lemma_row(k, 712, 703, 707); }
    if k == 127 { lemma_row(k, 716, 698, 712); }
}

proof fn lemma_rows_128(k: int)
    requires
        128 <= k < 160,
    ensures
        entry_ok(k),
{
    if k == 128 { lemma_row(k, 720, 694, 716); }
    if k == 129 { lemma_row(k, 725, 689, 720); }
    if k == 130 { lemma_row(k, 729, 685, 725); }
    if k == 131 { lemma_row(k, 733, 680, 729); }
    if k == 132 { lemma_row(k, 738, 675, 733); }
    if k == 133 { lemma_row(k, 742, 671, 738); }
    if k == 134 { lemma_row(k, 746, 666, 742); }
    if k == 135 { lemma_row(k, 750, 661, 746); }
    if k == 136 { lemma_row(k, 754, 657, 750); }
    if k == 137 { lemma_row(k, 758, 652, 754); }
    if k == 138 { lemma_row(k, 762, 647, 758); }
    if k == 139 { lemma_row(k, 766, 642, 762); }
    if k == 140 { lemma_row(k, 771, 637, 766); }
    if k == 141 { lemma_row(k, 775, 633, 771); }
    if k == 142 { lemma_row(k, 778, 628, 775); }
    if k == 143 { lemma_row(k, 782, 623, 778); }
    if k == 144 { lemma_row(k, 786, 618, 782); }
    if k == 145 { lemma_row(k, 790, 613, 786); }
    if k == 146 { lemma_row(k, 794, 608, 790); }
    if k == 147 { lemma_row(k, 798, 603, 794); }
    if k == 148 { lemma_row(k, 802, 598, 798); }
    if k == 149 { lemma_row(k, 805, 593, 802); }
    if k == 150 { lemma_row(k, 809, 588, 805); }
    if k == 151 { lemma_row(k, 813, 583, 809); }
    if k == 152 { lemma_row(k, 816, 578, 813); }
    if k == 153 { lemma_row(k, 820, 572, 816); }
    if k == 154 { lemma_row(k, 824, 567, 820); }
    if k == 155 { lemma_row(k, 827, 562, 824); }
    if k == 156 { lemma_row(k, 831, 557, 827); }
    if k == 157 { lemma_row(k, 834, 552, 831); }
    if k == 158 { lemma_row(k, 838, 546, 834); }
    if k == 159 { lemma_row(k, 841, 541, 838); }
}

proof fn lemma_rows_160(k: int)
    requires
        160 <= k < 192,
    ensures
        entry_ok(k),
{
    if k == 160 { lemma_row(k, 844, 536, 841); }
    if k == 161 { lemma_row(k, 848, 531, 844); }
    if k == 162 { lemma_row(k, 851, 525, 848); }
    if k == 163 { lemma_row(k, 854, 520, 851); }
    if k == 164 { lemma_row(k, 858, 514, 854); }
    if k == 165 { lemma_row(k, 861, 509, 858); }
    if k == 166 { lemma_row(k, 864, 504, 861); }
    if k == 167 { lemma_row(k, 867, 498, 864); }
    if k == 168 { lemma_row(k, 870, 493, 867); }
    if k == 169 { lemma_row(k, 873, 487, 870); }
    if k == 170 { lemma_row(k, 876, 482, 873); }
    if k == 171 { lemma_row(k, 879, 476, 876); }
    if k == 172 { lemma_row(k, 882, 471, 879); }
    if k == 173 { lemma_row(k, 885, 465, 882); }
    if k == 174 { lemma_row(k, 888, 460, 885); }
    if k == 175 { lemma_row(k, 891, 454, 888); }
    if k == 176 { lemma_row(k, 894, 448, 891); }
    if k == 177 { lemma_row(k, 897, 443, 894); }
    if k == 178 { lemma_row(k, 899, 437, 897); }
    if k == 179 { lemma_row(k, 902, 431, 899); }
    if k == 180 { lemma_row(k, 905, 426, 902); }
    if k == 181 { lemma_row(k, 907, 420, 905); }
    if k == 182 { lemma_row(k, 910, 414, 907); }
    if k == 183 { lemma_row(k, 913, 409, 910); }
    if k == 184 { lemma_row(k, 915, 403, 913); }
    if k == 185 { lemma_row(k, 918, 397, 915); }
    if k == 186 { lemma_row(k, 920, 391, 918); }
    if k == 187 { lemma_row(k, 923, 386, 920); }
    if k == 188 { lemma_row(k, 925, 380, 923); }
    if k == 189 { lemma_row(k, 927, 374, 925); }
    if k == 190 { lemma_row(k, 930, 368, 927); }
    if k == 191 { lemma_row(k, 932, 362, 930); }
}

proof fn lemma_rows_192(k: int)
    requires
        192 <= k < 224,
    ensures
        entry_ok(k),
{
    if k == 192 { lemma_row(k, 934, 356, 932); }
    if k == 193 { lemma_row(k, 937, 351, 934); }
    if k == 194 { lemma_row(k, 939, 345, 937); }
    if k == 195 { lemma_row(k, 941, 339, 939); }
    if k == 196 { lemma_row(k, 943, 333, 941); }
    if k == 197 { lemma_row(k, 945, 327, 943); }
    if k == 198 { lemma_row(k, 947, 321, 945); }
    if k == 199 { lemma_row(k, 949, 315, 947); }
    if k == 200 { lemma_row(k, 951, 309, 949); }
    if k == 201 { lemma_row(k, 953, 303, 951); }
    if k == 202 { lemma_row(k, 955, 297, 953); }
    if k == 203 { lemma_row(k, 957, 291, 955); }
    if k == 204 { lemma_row(k, 959, 285, 957); }
    if k == 205 { lemma_row(k, 960, 279, 959); }
    if k == 206 { lemma_row(k, 962, 273, 960); }
    if k == 207 { lemma_row(k, 964, 267, 962); }
    if k == 208 { lemma_row(k, 965, 261, 964); }
    if k == 209 { lemma_row(k, 967, 255, 965); }
    if k == 210 { lemma_row(k, 969, 249, 967); }
    if k == 211 { lemma_row(k, 970, 243, 969); }
    if k == 212 { lemma_row(k, 972, 236, 970); }
    if k == 213 { lemma_row(k, 973, 230, 972); }
    if k == 214 { lemma_row(k, 975, 224, 973); }
    if k == 215 { lemma_row(k, 976, 218, 975); }
    if k == 216 { lemma_row(k, 977, 212, 976); }
    if k == 217 { lemma_row(k, 979, 206, 977); }
    if k == 218 { lemma_row(k, 980, 200, 979); }
    if k == 219 { lemma_row(k, 981, 194, 980); }
    if k == 220 { lemma_row(k, 982, 187, 981); }
    if k == 221 { lemma_row(k, 983, 181, 982); }
    if k == 222 { lemma_row(k, 985, 175, 983); }
    if k == 223 { lemma_row(k, 986, 169, 985); }
}

proof fn lemma_rows_224(k: int)
    requires
        224 <= k < 251,
    ensures
        entry_ok(k),
{
    if k == 224 { lemma_row(k, 987, 163, 986); }
    if k == 225 { lemma_row(k, 988, 156, 987); }
    if k == 226 { lemma_row(k, 989, 150, 988); }
    if k == 227 { lemma_row(k, 990, 144, 989); }
    if k == 228 { lemma_row(k, 990, 138, 990); }
    if k == 229 { lemma_row(k, 991, 132, 990); }
    if k == 230 { lemma_row(k, 992, 125, 991); }
    if k == 231 { lemma_row(k, 993, 119, 992); }
    if k == 232 { lemma_row(k, 994, 113, 993); }
    if k == 233 { lemma_row(k, 994, 107, 994); }
    if k == 234 { lemma_row(k, 995, 100, 994); }
    if k == 235 { lemma_row(k, 996, 94, 995); }
    if k == 236 { lemma_row(k, 996, 88, 996); }
    if k == 237 { lemma_row(k, 997, 82, 996); }
    if k == 238 { lemma_row(k, 997, 75, 997); }
    if k == 239 { lemma_row(k, 998, 69, 997); }
    if k == 240 { lemma_row(k, 998, 63, 998); }
    if k == 241 { lemma_row(k, 998, 57, 998); }
    if k == 242 { lemma_row(k, 999, 50, 998); }
    if k == 243 { lemma_row(k, 999, 44, 999); }
    if k == 244 { lemma_row(k, 999, 38, 999); }
    if k == 245 { lemma_row(k, 1000, 31, 999); }
    if k == 246 { lemma_row(k, 1000, 25, 1000); }
    if k == 247 { lemma_row(k, 1000, 19, 1000); }
    if k == 248 { lemma_row(k, 1000, 13, 1000); }
    if k == 249 { lemma_row(k, 1000, 6, 1000); }
    if k == 250 { lemma_row(k, 1000, 0, 1000); }
}

/// Every entry of the quarter table meets [`entry_ok`].
pub proof fn lemma_quarter(k: int)
    requires
        0 <= k <= 250,
    ensures
        entry_ok(k),
{
    if k < 32 {
        lemma_rows_0(k);
    } else if k < 64 {
        lemma_rows_32(k);
    } else if k < 96 {
        lemma_rows_64(k);
    } else if k < 128 {
        lemma_rows_96(k);
    } else if k < 160 {
        lemma_rows_128(k);
    } else if k < 192 {
        lemma_rows_160(k);
    } else if k < 224 {
        lemma_rows_192(k);
    } else {
        lemma_rows_224(k);
    }
}

/// The step of the turn in which `angle` lies: the angle is reduced into one
/// turn and scaled to [`STEPS`].
pub open spec fn step_of(angle: int) -> int {
    ((angle % (TAU as int)) * STEPS) / (TAU as int)
}

/// The sine at the start of step `step`, in thousandths; `0 <= step < 1000`.
pub open spec fn sine_at(step: int) -> int {
    let q = step / 250;
    let r = step % 250;
    if q == 0 {
        quarter(r)
    } else if q == 1 {
        quarter(250 - r)
    } else if q == 2 {
        -quarter(r)
    } else {
        -quarter(250 - r)
    }
}

/// The cosine at the start of step `step`, in thousandths; `0 <= step < 1000`.
pub open spec fn cosine_at(step: int) -> int {
    let q = step / 250;
    let r = step % 250;
    if q == 0 {
        quarter(250 - r)
    } else if q == 1 {
        -quarter(r)
    } else if q == 2 {
        -quarter(250 - r)
    } else {
        quarter(r)
    }
}

/// The sine of `angle`, in thousandths.
pub open spec fn sine(angle: int) -> int {
    sine_at(step_of(angle))
}

/// The cosine of `angle`, in thousandths.
pub open spec fn cosine(angle: int) -> int {
    cosine_at(step_of(angle))
}

/// The step of an angle is one of the [`STEPS`] steps of a turn.
pub proof fn lemma_step_range(angle: int)
    ensures
        0 <= step_of(angle) < 1000,
{
    let m = angle % 6283;
    assert(0 <= m < 6283);
    assert(0 <= m * 1000 <= 6282 * 1000);
    lemma_div_pos_is_pos(m * 1000, 6283);
    lemma_div_is_ordered(m * 1000, 6282000int, 6283);
}

/// Sine and cosine of a step are the coordinates of one point whose squared
/// distance from the origin differs from one by at most [`NORM_SLACK`]
/// millionths, and neither exceeds one in size.
pub proof fn lemma_step_norm(step: int)
    requires
        0 <= step < 1000,
    ensures
        -1000 <= sine_at(step) <= 1000,
        -1000 <= cosine_at(step) <= 1000,
        -NORM_SLACK <= sine_at(step) * sine_at(step) + cosine_at(step) * cosine_at(step)
            - 1_000_000 <= NORM_SLACK,
{
    let r = step % 250;
    lemma_quarter(r);
    lemma_quarter(250 - r);
    let a = quarter(r);
    let b = quarter(250 - r);
    assert((-a) * (-a) == a * a) by (nonlinear_arith);
    assert((-b) * (-b) == b * b) by (nonlinear_arith);
    assert(a * a + b * b == b * b + a * a);
}

/// The same for the sine and cosine of any angle.
pub proof fn lemma_unit_norm(angle: int)
    ensures
        -1000 <= sine(angle) <= 1000,
        -1000 <= cosine(angle) <= 1000,
        -NORM_SLACK <= sine(angle) * sine(angle) + cosine(angle) * cosine(angle) - 1_000_000
            <= NORM_SLACK,
{
    lemma_step_range(angle);
    lemma_step_norm(step_of(angle));
}

/// The step of the turn in which `angle` lies.
pub fn step(angle: i64) -> (r: usize)
    ensures
        r == step_of(angle as int),
        r < 1000,
{
    proof {
        lemma_step_range(angle as int);
    }
    let m: i64 = if angle >= 0 {
        angle % 6283
    } else {
        let n: i64 = -(angle + 1);
        let below: i64 = n % 6283;
        proof {
            lemma_fundamental_div_mod(n as int, 6283);
            let q = (n as int) / 6283;
            assert(angle as int == (-q - 1) * 6283 + (6282 - below)) by (nonlinear_arith)
                requires
                    n == 6283 * q + below,
                    angle == -n - 1,
            ;
            lemma_fundamental_div_mod_converse_mod(
                angle as int,
                6283,
                -q - 1,
                6282 - below,
            );
        }
        6282 - below
    };
    ((m * 1000) / 6283) as usize
}

fn quarter_entry(k: usize) -> (r: i64)
    requires
        k <= 250,
    ensures
        r == quarter(k as int),
        0 <= r <= 1000,
{
    proof {
        lemma_quarter(k as int);
    }
    QUARTER[k]
}

/// The sine at the start of step `s`, in thousandths.
pub fn sin_step(s: usize) -> (r: i64)
    requires
        s < 1000,
    ensures
        r == sine_at(s as int),
        -1000 <= r <= 1000,
{
    let q: usize = s / 250;
    let r: usize = s % 250;
    if q == 0 {
        quarter_entry(r)
    } else if q == 1 {
        quarter_entry(250 - r)
    } else if q == 2 {
        -quarter_entry(r)
    } else {
        -quarter_entry(250 - r)
    }
}

/// The cosine at the start of step `s`, in thousandths.
pub fn cos_step(s: usize) -> (r: i64)
    requires
        s < 1000,
    ensures
        r == cosine_at(s as int),
        -1000 <= r <= 1000,
{
    let q: usize = s / 250;
    let r: usize = s % 250;
    if q == 0 {
        quarter_entry(250 - r)
    } else if q == 1 {
        -quarter_entry(r)
    } else if q == 2 {
        -quarter_entry(250 - r)
    } else {
        quarter_entry(r)
    }
}

/// The sine of `angle`, in thousandths.
pub fn sin(angle: i64) -> (r: i64)
    ensures
        r == sine(angle as int),
        -1000 <= r <= 1000,
{
    sin_step(step(angle))
}

/// The cosine of `angle`, in thousandths.
pub fn cos(angle: i64) -> (r: i64)
    ensures
        r == cosine(angle as int),
        -1000 <= r <= 1000,
{
    cos_step(step(angle))
}

/// The least angle that lies in step `k`.
pub open spec fn angle_of_step(k: int) -> int {
    (k * TAU + (STEPS - 1)) / (STEPS as int)
}

/// The angle of a step lies in that step, and inside the first turn.
pub proof fn lemma_angle_of_step(k: int)
    requires
        0 <= k < 1000,
    ensures
        0 <= angle_of_step(k) < 6283,
        step_of(angle_of_step(k)) == k,
{
    let a = angle_of_step(k);
    lemma_fundamental_div_mod(k * 6283 + 999, 1000);
    assert(0 <= a < 6283);
    assert(a % 6283 == a) by {
        lemma_small_mod(a as nat, 6283);
    }
    // 6283 * k <= 1000 * a < 6283 * k + 1000
    assert(6283 * k <= 1000 * a < 6283 * k + 1000);
    let r = a * 1000 - 6283 * k;
    lemma_fundamental_div_mod_converse_div(a * 1000, 6283, k, r);
}

/// The least angle that lies in step `k`.
pub fn step_angle(k: usize) -> (r: i64)
    requires
        k < 1000,
    ensures
        r == angle_of_step(k as int),
{
    ((k as i64) * 6283 + 999) / 1000
}

} // verus!
