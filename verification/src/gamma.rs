//! Gamma expansion of an 8-bit sRGB channel into linear light, in fixed point.
//!
//! WCAG 2.0 maps a channel value `x` in `0.0..=1.0` to `x / 12.92` when
//! `x <= 0.03928` and to `((x + 0.055) / 1.055) ^ 2.4` otherwise. Here the
//! result is held as an integer count of `1 / UNIT`, rounded down. The 256
//! possible results are tabulated, and each entry is proved to be exactly
//! that rounded-down value.

use vstd::prelude::*;

verus! {

/// The fixed-point scale: an intensity `t` stands for the real number `t / UNIT`.
pub const UNIT: u64 = 1_000_000_000;

/// `x` to the fifth power.
pub open spec fn fifth_power(x: int) -> int {
    x * x * x * x * x
}

/// `x` to the twelfth power.
pub open spec fn twelfth_power(x: int) -> int {
    x * x * x * x * x * x * x * x * x * x * x * x
}

/// Whether the channel value lies on the linear segment, that is whether
/// `value / 255 <= 0.03928`.
pub open spec fn on_linear_segment(value: int) -> bool {
    100_000 * value <= 3_928 * 255
}

/// `t / UNIT <= (value / 255) / 12.92 < (t + 1) / UNIT`, cleared of fractions:
/// `(value / 255) / 12.92` is `100 * value / 329_460`, and `100 * UNIT` is
/// written out.
pub open spec fn segment_floor(value: int, t: int) -> bool {
    &&& 0 <= t
    &&& t * 329_460 <= 100_000_000_000 * value
    &&& 100_000_000_000 * value < (t + 1) * 329_460
}

/// `t / UNIT <= (base / 269_025) ^ 2.4`, raised to the fifth power and
/// cleared of fractions: `t^5 * 269_025^12 <= UNIT^5 * base^12`.
pub open spec fn gamma_at_least(base: int, t: int) -> bool {
    fifth_power(t)
        * 143_718_170_736_715_179_673_922_499_054_650_690_394_393_835_706_770_420_074_462_890_625
        <= 1_000_000_000_000_000_000_000_000_000_000_000_000_000_000_000 * twelfth_power(base)
}

/// `t / UNIT <= (base / 269_025) ^ 2.4 < (t + 1) / UNIT`.
pub open spec fn gamma_floor(base: int, t: int) -> bool {
    &&& 0 <= t
    &&& gamma_at_least(base, t)
    &&& !gamma_at_least(base, t + 1)
}

/// Whether `t` is the linear-light intensity of the channel value `value`,
/// in units of `1 / UNIT` and rounded down.
///
/// With `x = value / 255`, the base of the power is
/// `(x + 0.055) / 1.055 = (1000 * value + 14_025) / 269_025`.
pub open spec fn is_linear_intensity(value: int, t: int) -> bool {
    if on_linear_segment(value) {
        segment_floor(value, t)
    } else {
        gamma_floor(1000 * value + 14_025, t)
    }
}

/// The linear-light intensity of every channel value, in units of `1 / UNIT`.
pub const LINEAR_INTENSITY: [u64; 256] = [
    0, 303_526, 607_053, 910_580,
    1_214_107, 1_517_634, 1_821_161, 2_124_688,
    2_428_215, 2_731_742, 3_035_269, 3_346_535,
    3_676_507, 4_024_717, 4_391_442, 4_776_953,
    5_181_516, 5_605_391, 6_048_833, 6_512_090,
    6_995_410, 7_499_032, 8_023_192, 8_568_125,
    9_134_058, 9_721_217, 10_329_823, 10_960_094,
    11_612_245, 12_286_488, 12_983_032, 13_702_083,
    14_443_843, 15_208_514, 15_996_293, 16_807_375,
    17_641_954, 18_500_220, 19_382_360, 20_288_563,
    21_219_010, 22_173_884, 23_153_366, 24_157_632,
    25_186_859, 26_241_221, 27_320_891, 28_426_039,
    29_556_834, 30_713_443, 31_896_033, 33_104_766,
    34_339_806, 35_601_314, 36_889_450, 38_204_371,
    39_546_235, 40_915_196, 42_311_410, 43_735_029,
    45_186_204, 46_665_086, 48_171_824, 49_706_565,
    51_269_458, 52_860_647, 54_480_276, 56_128_490,
    57_805_430, 59_511_238, 61_246_054, 63_010_017,
    64_803_266, 66_625_938, 68_478_169, 70_360_095,
    72_271_850, 74_213_568, 76_185_381, 78_187_421,
    80_219_820, 82_282_707, 84_376_211, 86_500_462,
    88_655_586, 90_841_711, 93_058_962, 95_307_466,
    97_587_347, 99_898_728, 102_241_733, 104_616_484,
    107_023_102, 109_461_710, 111_932_427, 114_435_373,
    116_970_667, 119_538_427, 122_138_772, 124_771_817,
    127_437_680, 130_136_476, 132_868_321, 135_633_329,
    138_431_615, 141_263_291, 144_128_470, 147_027_266,
    149_959_789, 152_926_151, 155_926_463, 158_960_835,
    162_029_375, 165_132_194, 168_269_400, 171_441_100,
    174_647_403, 177_888_415, 181_164_244, 184_474_994,
    187_820_772, 191_201_682, 194_617_830, 198_069_319,
    201_556_253, 205_078_736, 208_636_870, 212_230_757,
    215_860_500, 219_526_199, 223_227_957, 226_965_873,
    230_740_048, 234_550_582, 238_397_573, 242_281_122,
    246_201_326, 250_158_284, 254_152_094, 258_182_852,
    262_250_657, 266_355_604, 270_497_791, 274_677_312,
    278_894_263, 283_148_740, 287_440_837, 291_770_649,
    296_138_270, 300_543_794, 304_987_314, 309_468_922,
    313_988_713, 318_546_778, 323_143_209, 327_778_098,
    332_451_536, 337_163_615, 341_914_424, 346_704_056,
    351_532_599, 356_400_144, 361_306_779, 366_252_595,
    371_237_680, 376_262_122, 381_326_011, 386_429_433,
    391_572_477, 396_755_230, 401_977_779, 407_240_211,
    412_542_613, 417_885_070, 423_267_669, 428_690_496,
    434_153_636, 439_657_173, 445_201_194, 450_785_782,
    456_411_023, 462_076_999, 467_783_796, 473_531_496,
    479_320_183, 485_149_940, 491_020_849, 496_932_995,
    502_886_458, 508_881_320, 514_917_665, 520_995_573,
    527_115_125, 533_276_404, 539_479_489, 545_724_461,
    552_011_401, 558_340_389, 564_711_505, 571_124_829,
    577_580_440, 584_078_417, 590_618_840, 597_201_788,
    603_827_338, 610_495_570, 617_206_562, 623_960_391,
    630_757_136, 637_596_873, 644_479_681, 651_405_637,
    658_374_817, 665_387_298, 672_443_156, 679_542_469,
    686_685_312, 693_871_761, 701_101_891, 708_375_779,
    715_693_500, 723_055_128, 730_460_740, 737_910_408,
    745_404_209, 752_942_216, 760_524_504, 768_151_147,
    775_822_218, 783_537_791, 791_297_940, 799_102_738,
    806_952_257, 814_846_572, 822_785_754, 830_769_876,
    838_799_011, 846_873_231, 854_992_608, 863_157_213,
    871_367_119, 879_622_396, 887_923_117, 896_269_353,
    904_661_174, 913_098_651, 921_581_856, 930_110_858,
    938_685_728, 947_306_536, 955_973_353, 964_686_247,
    973_445_290, 982_250_550, 991_102_097, 1_000_000_000,
];

/// The linear-light intensity of a channel value, in units of `1 / UNIT`.
pub open spec fn linear_intensity(value: u8) -> int {
    LINEAR_INTENSITY[value as int] as int
}

/// The fifth power does not decrease on the non-negative integers.
proof fn lemma_fifth_power_increases(a: int, b: int)
    requires
        0 <= a <= b,
    ensures
        fifth_power(a) <= fifth_power(b),
{
    assert(a * a <= b * b) by (nonlinear_arith)
        requires
            0 <= a <= b,
    ;
    assert((a * a) * (a * a) <= (b * b) * (b * b)) by (nonlinear_arith)
        requires
            0 <= a * a <= b * b,
    ;
    assert(((a * a) * (a * a)) * a <= ((b * b) * (b * b)) * b) by (nonlinear_arith)
        requires
            0 <= (a * a) * (a * a) <= (b * b) * (b * b),
            0 <= a <= b,
    ;
    assert(fifth_power(a) == ((a * a) * (a * a)) * a) by (nonlinear_arith);
    assert(fifth_power(b) == ((b * b) * (b * b)) * b) by (nonlinear_arith);
}

/// At most one intensity is the rounded-down gamma expansion of a channel
/// value: `is_linear_intensity` determines it.
pub proof fn lemma_linear_intensity_unique(value: int, t1: int, t2: int)
    requires
        is_linear_intensity(value, t1),
        is_linear_intensity(value, t2),
    ensures
        t1 == t2,
{
    if !on_linear_segment(value) {
        let base = 1000 * value + 14_025;
        if t1 < t2 {
            lemma_fifth_power_increases(t1 + 1, t2);
            assert(gamma_at_least(base, t1 + 1));
        } else if t2 < t1 {
            lemma_fifth_power_increases(t2 + 1, t1);
            assert(gamma_at_least(base, t2 + 1));
        }
    }
}

/// Whether the table entry for `value` lies between black and white: it is
/// at most `UNIT`, zero only for the value 0 and `UNIT` only for the value 255.
pub open spec fn is_within_unit(value: u8) -> bool {
    &&& 0 <= linear_intensity(value) <= UNIT
    &&& (linear_intensity(value) == 0 <==> value == 0)
    &&& (linear_intensity(value) == UNIT <==> value == 255)
}

/// The two long literals of `gamma_at_least` are `269_025^12` and `UNIT^5`.
pub proof fn lemma_gamma_constants()
    ensures
        twelfth_power(269_025)
            == 143_718_170_736_715_179_673_922_499_054_650_690_394_393_835_706_770_420_074_462_890_625,
        fifth_power(UNIT as int) == 1_000_000_000_000_000_000_000_000_000_000_000_000_000_000_000,
{
}

proof fn lemma_entries_from_0(value: u8)
    requires
        0 <= value <= 15,
    ensures
        is_linear_intensity(value as int, linear_intensity(value)),
        is_within_unit(value),
{
    if value == 0 {
        assert(segment_floor(0, 0));
    } else if value == 1 {
        assert(segment_floor(1, 303_526));
    } else if value == 2 {
        assert(segment_floor(2, 607_053));
    } else if value == 3 {
        assert(segment_floor(3, 910_580));
    } else if value == 4 {
        assert(segment_floor(4, 1_214_107));
    } else if value == 5 {
        assert(segment_floor(5, 1_517_634));
    } else if value == 6 {
        assert(segment_floor(6, 1_821_161));
    } else if value == 7 {
        assert(segment_floor(7, 2_124_688));
    } else if value == 8 {
        assert(segment_floor(8, 2_428_215));
    } else if value == 9 {
        assert(segment_floor(9, 2_731_742));
    } else if value == 10 {
        assert(segment_floor(10, 3_035_269));
    } else if value == 11 {
        assert(gamma_floor(25_025, 3_346_535));
    } else if value == 12 {
        assert(gamma_floor(26_025, 3_676_507));
    } else if value == 13 {
        assert(gamma_floor(27_025, 4_024_717));
    } else if value == 14 {
        assert(gamma_floor(28_025, 4_391_442));
    } else {
        assert(gamma_floor(29_025, 4_776_953));
    }
}

proof fn lemma_entries_from_16(value: u8)
    requires
        16 <= value <= 31,
    ensures
        is_linear_intensity(value as int, linear_intensity(value)),
        is_within_unit(value),
{
    if value == 16 {
        assert(gamma_floor(30_025, 5_181_516));
    } else if value == 17 {
        assert(gamma_floor(31_025, 5_605_391));
    } else if value == 18 {
        assert(gamma_floor(32_025, 6_048_833));
    } else if value == 19 {
        assert(gamma_floor(33_025, 6_512_090));
    } else if value == 20 {
        assert(gamma_floor(34_025, 6_995_410));
    } else if value == 21 {
        assert(gamma_floor(35_025, 7_499_032));
    } else if value == 22 {
        assert(gamma_floor(36_025, 8_023_192));
    } else if value == 23 {
        assert(gamma_floor(37_025, 8_568_125));
    } else if value == 24 {
        assert(gamma_floor(38_025, 9_134_058));
    } else if value == 25 {
        assert(gamma_floor(39_025, 9_721_217));
    } else if value == 26 {
        assert(gamma_floor(40_025, 10_329_823));
    } else if value == 27 {
        assert(gamma_floor(41_025, 10_960_094));
    } else if value == 28 {
        assert(gamma_floor(42_025, 11_612_245));
    } else if value == 29 {
        assert(gamma_floor(43_025, 12_286_488));
    } else if value == 30 {
        assert(gamma_floor(44_025, 12_983_032));
    } else {
        assert(gamma_floor(45_025, 13_702_083));
    }
}

proof fn lemma_entries_from_32(value: u8)
    requires
        32 <= value <= 47,
    ensures
        is_linear_intensity(value as int, linear_intensity(value)),
        is_within_unit(value),
{
    if value == 32 {
        assert(gamma_floor(46_025, 14_443_843));
    } else if value == 33 {
        assert(gamma_floor(47_025, 15_208_514));
    } else if value == 34 {
        assert(gamma_floor(48_025, 15_996_293));
    } else if value == 35 {
        assert(gamma_floor(49_025, 16_807_375));
    } else if value == 36 {
        assert(gamma_floor(50_025, 17_641_954));
    } else if value == 37 {
        assert(gamma_floor(51_025, 18_500_220));
    } else if value == 38 {
        assert(gamma_floor(52_025, 19_382_360));
    } else if value == 39 {
        assert(gamma_floor(53_025, 20_288_563));
    } else if value == 40 {
        assert(gamma_floor(54_025, 21_219_010));
    } else if value == 41 {
        assert(gamma_floor(55_025, 22_173_884));
    } else if value == 42 {
        assert(gamma_floor(56_025, 23_153_366));
    } else if value == 43 {
        assert(gamma_floor(57_025, 24_157_632));
    } else if value == 44 {
        assert(gamma_floor(58_025, 25_186_859));
    } else if value == 45 {
        assert(gamma_floor(59_025, 26_241_221));
    } else if value == 46 {
        assert(gamma_floor(60_025, 27_320_891));
    } else {
        assert(gamma_floor(61_025, 28_426_039));
    }
}

proof fn lemma_entries_from_48(value: u8)
    requires
        48 <= value <= 63,
    ensures
        is_linear_intensity(value as int, linear_intensity(value)),
        is_within_unit(value),
{
    if value == 48 {
        assert(gamma_floor(62_025, 29_556_834));
    } else if value == 49 {
        assert(gamma_floor(63_025, 30_713_443));
    } else if value == 50 {
        assert(gamma_floor(64_025, 31_896_033));
    } else if value == 51 {
        assert(gamma_floor(65_025, 33_104_766));
    } else if value == 52 {
        assert(gamma_floor(66_025, 34_339_806));
    } else if value == 53 {
        assert(gamma_floor(67_025, 35_601_314));
    } else if value == 54 {
        assert(gamma_floor(68_025, 36_889_450));
    } else if value == 55 {
        assert(gamma_floor(69_025, 38_204_371));
    } else if value == 56 {
        assert(gamma_floor(70_025, 39_546_235));
    } else if value == 57 {
        assert(gamma_floor(71_025, 40_915_196));
    } else if value == 58 {
        assert(gamma_floor(72_025, 42_311_410));
    } else if value == 59 {
        assert(gamma_floor(73_025, 43_735_029));
    } else if value == 60 {
        assert(gamma_floor(74_025, 45_186_204));
    } else if value == 61 {
        assert(gamma_floor(75_025, 46_665_086));
    } else if value == 62 {
        assert(gamma_floor(76_025, 48_171_824));
    } else {
        assert(gamma_floor(77_025, 49_706_565));
    }
}

proof fn lemma_entries_from_64(value: u8)
    requires
        64 <= value <= 79,
    ensures
        is_linear_intensity(value as int, linear_intensity(value)),
        is_within_unit(value),
{
    if value == 64 {
        assert(gamma_floor(78_025, 51_269_458));
    } else if value == 65 {
        assert(gamma_floor(79_025, 52_860_647));
    } else if value == 66 {
        assert(gamma_floor(80_025, 54_480_276));
    } else if value == 67 {
        assert(gamma_floor(81_025, 56_128_490));
    } else if value == 68 {
        assert(gamma_floor(82_025, 57_805_430));
    } else if value == 69 {
        assert(gamma_floor(83_025, 59_511_238));
    } else if value == 70 {
        assert(gamma_floor(84_025, 61_246_054));
    } else if value == 71 {
        assert(gamma_floor(85_025, 63_010_017));
    } else if value == 72 {
        assert(gamma_floor(86_025, 64_803_266));
    } else if value == 73 {
        assert(gamma_floor(87_025, 66_625_938));
    } else if value == 74 {
        assert(gamma_floor(88_025, 68_478_169));
    } else if value == 75 {
        assert(gamma_floor(89_025, 70_360_095));
    } else if value == 76 {
        assert(gamma_floor(90_025, 72_271_850));
    } else if value == 77 {
        assert(gamma_floor(91_025, 74_213_568));
    } else if value == 78 {
        assert(gamma_floor(92_025, 76_185_381));
    } else {
        assert(gamma_floor(93_025, 78_187_421));
    }
}

proof fn lemma_entries_from_80(value: u8)
    requires
        80 <= value <= 95,
    ensures
        is_linear_intensity(value as int, linear_intensity(value)),
        is_within_unit(value),
{
    if value == 80 {
        assert(gamma_floor(94_025, 80_219_820));
    } else if value == 81 {
        assert(gamma_floor(95_025, 82_282_707));
    } else if value == 82 {
        assert(gamma_floor(96_025, 84_376_211));
    } else if value == 83 {
        assert(gamma_floor(97_025, 86_500_462));
    } else if value == 84 {
        assert(gamma_floor(98_025, 88_655_586));
    } else if value == 85 {
        assert(gamma_floor(99_025, 90_841_711));
    } else if value == 86 {
        assert(gamma_floor(100_025, 93_058_962));
    } else if value == 87 {
        assert(gamma_floor(101_025, 95_307_466));
    } else if value == 88 {
        assert(gamma_floor(102_025, 97_587_347));
    } else if value == 89 {
        assert(gamma_floor(103_025, 99_898_728));
    } else if value == 90 {
        assert(gamma_floor(104_025, 102_241_733));
    } else if value == 91 {
        assert(gamma_floor(105_025, 104_616_484));
    } else if value == 92 {
        assert(gamma_floor(106_025, 107_023_102));
    } else if value == 93 {
        assert(gamma_floor(107_025, 109_461_710));
    } else if value == 94 {
        assert(gamma_floor(108_025, 111_932_427));
    } else {
        assert(gamma_floor(109_025, 114_435_373));
    }
}

proof fn lemma_entries_from_96(value: u8)
    requires
        96 <= value <= 111,
    ensures
        is_linear_intensity(value as int, linear_intensity(value)),
        is_within_unit(value),
{
    if value == 96 {
        assert(gamma_floor(110_025, 116_970_667));
    } else if value == 97 {
        assert(gamma_floor(111_025, 119_538_427));
    } else if value == 98 {
        assert(gamma_floor(112_025, 122_138_772));
    } else if value == 99 {
        assert(gamma_floor(113_025, 124_771_817));
    } else if value == 100 {
        assert(gamma_floor(114_025, 127_437_680));
    } else if value == 101 {
        assert(gamma_floor(115_025, 130_136_476));
    } else if value == 102 {
        assert(gamma_floor(116_025, 132_868_321));
    } else if value == 103 {
        assert(gamma_floor(117_025, 135_633_329));
    } else if value == 104 {
        assert(gamma_floor(118_025, 138_431_615));
    } else if value == 105 {
        assert(gamma_floor(119_025, 141_263_291));
    } else if value == 106 {
        assert(gamma_floor(120_025, 144_128_470));
    } else if value == 107 {
        assert(gamma_floor(121_025, 147_027_266));
    } else if value == 108 {
        assert(gamma_floor(122_025, 149_959_789));
    } else if value == 109 {
        assert(gamma_floor(123_025, 152_926_151));
    } else if value == 110 {
        assert(gamma_floor(124_025, 155_926_463));
    } else {
        assert(gamma_floor(125_025, 158_960_835));
    }
}

proof fn lemma_entries_from_112(value: u8)
    requires
        112 <= value <= 127,
    ensures
        is_linear_intensity(value as int, linear_intensity(value)),
        is_within_unit(value),
{
    if value == 112 {
        assert(gamma_floor(126_025, 162_029_375));
    } else if value == 113 {
        assert(gamma_floor(127_025, 165_132_194));
    } else if value == 114 {
        assert(gamma_floor(128_025, 168_269_400));
    } else if value == 115 {
        assert(gamma_floor(129_025, 171_441_100));
    } else if value == 116 {
        assert(gamma_floor(130_025, 174_647_403));
    } else if value == 117 {
        assert(gamma_floor(131_025, 177_888_415));
    } else if value == 118 {
        assert(gamma_floor(132_025, 181_164_244));
    } else if value == 119 {
        assert(gamma_floor(133_025, 184_474_994));
    } else if value == 120 {
        assert(gamma_floor(134_025, 187_820_772));
    } else if value == 121 {
        assert(gamma_floor(135_025, 191_201_682));
    } else if value == 122 {
        assert(gamma_floor(136_025, 194_617_830));
    } else if value == 123 {
        assert(gamma_floor(137_025, 198_069_319));
    } else if value == 124 {
        assert(gamma_floor(138_025, 201_556_253));
    } else if value == 125 {
        assert(gamma_floor(139_025, 205_078_736));
    } else if value == 126 {
        assert(gamma_floor(140_025, 208_636_870));
    } else {
        assert(gamma_floor(141_025, 212_230_757));
    }
}

proof fn lemma_entries_from_128(value: u8)
    requires
        128 <= value <= 143,
    ensures
        is_linear_intensity(value as int, linear_intensity(value)),
        is_within_unit(value),
{
    if value == 128 {
        assert(gamma_floor(142_025, 215_860_500));
    } else if value == 129 {
        assert(gamma_floor(143_025, 219_526_199));
    } else if value == 130 {
        assert(gamma_floor(144_025, 223_227_957));
    } else if value == 131 {
        assert(gamma_floor(145_025, 226_965_873));
    } else if value == 132 {
        assert(gamma_floor(146_025, 230_740_048));
    } else if value == 133 {
        assert(gamma_floor(147_025, 234_550_582));
    } else if value == 134 {
        assert(gamma_floor(148_025, 238_397_573));
    } else if value == 135 {
        assert(gamma_floor(149_025, 242_281_122));
    } else if value == 136 {
        assert(gamma_floor(150_025, 246_201_326));
    } else if value == 137 {
        assert(gamma_floor(151_025, 250_158_284));
    } else if value == 138 {
        assert(gamma_floor(152_025, 254_152_094));
    } else if value == 139 {
        assert(gamma_floor(153_025, 258_182_852));
    } else if value == 140 {
        assert(gamma_floor(154_025, 262_250_657));
    } else if value == 141 {
        assert(gamma_floor(155_025, 266_355_604));
    } else if value == 142 {
        assert(gamma_floor(156_025, 270_497_791));
    } else {
        assert(gamma_floor(157_025, 274_677_312));
    }
}

proof fn lemma_entries_from_144(value: u8)
    requires
        144 <= value <= 159,
    ensures
        is_linear_intensity(value as int, linear_intensity(value)),
        is_within_unit(value),
{
    if value == 144 {
        assert(gamma_floor(158_025, 278_894_263));
    } else if value == 145 {
        assert(gamma_floor(159_025, 283_148_740));
    } else if value == 146 {
        assert(gamma_floor(160_025, 287_440_837));
    } else if value == 147 {
        assert(gamma_floor(161_025, 291_770_649));
    } else if value == 148 {
        assert(gamma_floor(162_025, 296_138_270));
    } else if value == 149 {
        assert(gamma_floor(163_025, 300_543_794));
    } else if value == 150 {
        assert(gamma_floor(164_025, 304_987_314));
    } else if value == 151 {
        assert(gamma_floor(165_025, 309_468_922));
    } else if value == 152 {
        assert(gamma_floor(166_025, 313_988_713));
    } else if value == 153 {
        assert(gamma_floor(167_025, 318_546_778));
    } else if value == 154 {
        assert(gamma_floor(168_025, 323_143_209));
    } else if value == 155 {
        assert(gamma_floor(169_025, 327_778_098));
    } else if value == 156 {
        assert(gamma_floor(170_025, 332_451_536));
    } else if value == 157 {
        assert(gamma_floor(171_025, 337_163_615));
    } else if value == 158 {
        assert(gamma_floor(172_025, 341_914_424));
    } else {
        assert(gamma_floor(173_025, 346_704_056));
    }
}

proof fn lemma_entries_from_160(value: u8)
    requires
        160 <= value <= 175,
    ensures
        is_linear_intensity(value as int, linear_intensity(value)),
        is_within_unit(value),
{
    if value == 160 {
        assert(gamma_floor(174_025, 351_532_599));
    } else if value == 161 {
        assert(gamma_floor(175_025, 356_400_144));
    } else if value == 162 {
        assert(gamma_floor(176_025, 361_306_779));
    } else if value == 163 {
        assert(gamma_floor(177_025, 366_252_595));
    } else if value == 164 {
        assert(gamma_floor(178_025, 371_237_680));
    } else if value == 165 {
        assert(gamma_floor(179_025, 376_262_122));
    } else if value == 166 {
        assert(gamma_floor(180_025, 381_326_011));
    } else if value == 167 {
        assert(gamma_floor(181_025, 386_429_433));
    } else if value == 168 {
        assert(gamma_floor(182_025, 391_572_477));
    } else if value == 169 {
        assert(gamma_floor(183_025, 396_755_230));
    } else if value == 170 {
        assert(gamma_floor(184_025, 401_977_779));
    } else if value == 171 {
        assert(gamma_floor(185_025, 407_240_211));
    } else if value == 172 {
        assert(gamma_floor(186_025, 412_542_613));
    } else if value == 173 {
        assert(gamma_floor(187_025, 417_885_070));
    } else if value == 174 {
        assert(gamma_floor(188_025, 423_267_669));
    } else {
        assert(gamma_floor(189_025, 428_690_496));
    }
}

proof fn lemma_entries_from_176(value: u8)
    requires
        176 <= value <= 191,
    ensures
        is_linear_intensity(value as int, linear_intensity(value)),
        is_within_unit(value),
{
    if value == 176 {
        assert(gamma_floor(190_025, 434_153_636));
    } else if value == 177 {
        assert(gamma_floor(191_025, 439_657_173));
    } else if value == 178 {
        assert(gamma_floor(192_025, 445_201_194));
    } else if value == 179 {
        assert(gamma_floor(193_025, 450_785_782));
    } else if value == 180 {
        assert(gamma_floor(194_025, 456_411_023));
    } else if value == 181 {
        assert(gamma_floor(195_025, 462_076_999));
    } else if value == 182 {
        assert(gamma_floor(196_025, 467_783_796));
    } else if value == 183 {
        assert(gamma_floor(197_025, 473_531_496));
    } else if value == 184 {
        assert(gamma_floor(198_025, 479_320_183));
    } else if value == 185 {
        assert(gamma_floor(199_025, 485_149_940));
    } else if value == 186 {
        assert(gamma_floor(200_025, 491_020_849));
    } else if value == 187 {
        assert(gamma_floor(201_025, 496_932_995));
    } else if value == 188 {
        assert(gamma_floor(202_025, 502_886_458));
    } else if value == 189 {
        assert(gamma_floor(203_025, 508_881_320));
    } else if value == 190 {
        assert(gamma_floor(204_025, 514_917_665));
    } else {
        assert(gamma_floor(205_025, 520_995_573));
    }
}

proof fn lemma_entries_from_192(value: u8)
    requires
        192 <= value <= 207,
    ensures
        is_linear_intensity(value as int, linear_intensity(value)),
        is_within_unit(value),
{
    if value == 192 {
        assert(gamma_floor(206_025, 527_115_125));
    } else if value == 193 {
        assert(gamma_floor(207_025, 533_276_404));
    } else if value == 194 {
        assert(gamma_floor(208_025, 539_479_489));
    } else if value == 195 {
        assert(gamma_floor(209_025, 545_724_461));
    } else if value == 196 {
        assert(gamma_floor(210_025, 552_011_401));
    } else if value == 197 {
        assert(gamma_floor(211_025, 558_340_389));
    } else if value == 198 {
        assert(gamma_floor(212_025, 564_711_505));
    } else if value == 199 {
        assert(gamma_floor(213_025, 571_124_829));
    } else if value == 200 {
        assert(gamma_floor(214_025, 577_580_440));
    } else if value == 201 {
        assert(gamma_floor(215_025, 584_078_417));
    } else if value == 202 {
        assert(gamma_floor(216_025, 590_618_840));
    } else if value == 203 {
        assert(gamma_floor(217_025, 597_201_788));
    } else if value == 204 {
        assert(gamma_floor(218_025, 603_827_338));
    } else if value == 205 {
        assert(gamma_floor(219_025, 610_495_570));
    } else if value == 206 {
        assert(gamma_floor(220_025, 617_206_562));
    } else {
        assert(gamma_floor(221_025, 623_960_391));
    }
}

proof fn lemma_entries_from_208(value: u8)
    requires
        208 <= value <= 223,
    ensures
        is_linear_intensity(value as int, linear_intensity(value)),
        is_within_unit(value),
{
    if value == 208 {
        assert(gamma_floor(222_025, 630_757_136));
    } else if value == 209 {
        assert(gamma_floor(223_025, 637_596_873));
    } else if value == 210 {
        assert(gamma_floor(224_025, 644_479_681));
    } else if value == 211 {
        assert(gamma_floor(225_025, 651_405_637));
    } else if value == 212 {
        assert(gamma_floor(226_025, 658_374_817));
    } else if value == 213 {
        assert(gamma_floor(227_025, 665_387_298));
    } else if value == 214 {
        assert(gamma_floor(228_025, 672_443_156));
    } else if value == 215 {
        assert(gamma_floor(229_025, 679_542_469));
    } else if value == 216 {
        assert(gamma_floor(230_025, 686_685_312));
    } else if value == 217 {
        assert(gamma_floor(231_025, 693_871_761));
    } else if value == 218 {
        assert(gamma_floor(232_025, 701_101_891));
    } else if value == 219 {
        assert(gamma_floor(233_025, 708_375_779));
    } else if value == 220 {
        assert(gamma_floor(234_025, 715_693_500));
    } else if value == 221 {
        assert(gamma_floor(235_025, 723_055_128));
    } else if value == 222 {
        assert(gamma_floor(236_025, 730_460_740));
    } else {
        assert(gamma_floor(237_025, 737_910_408));
    }
}

proof fn lemma_entries_from_224(value: u8)
    requires
        224 <= value <= 239,
    ensures
        is_linear_intensity(value as int, linear_intensity(value)),
        is_within_unit(value),
{
    if value == 224 {
        assert(gamma_floor(238_025, 745_404_209));
    } else if value == 225 {
        assert(gamma_floor(239_025, 752_942_216));
    } else if value == 226 {
        assert(gamma_floor(240_025, 760_524_504));
    } else if value == 227 {
        assert(gamma_floor(241_025, 768_151_147));
    } else if value == 228 {
        assert(gamma_floor(242_025, 775_822_218));
    } else if value == 229 {
        assert(gamma_floor(243_025, 783_537_791));
    } else if value == 230 {
        assert(gamma_floor(244_025, 791_297_940));
    } else if value == 231 {
        assert(gamma_floor(245_025, 799_102_738));
    } else if value == 232 {
        assert(gamma_floor(246_025, 806_952_257));
    } else if value == 233 {
        assert(gamma_floor(247_025, 814_846_572));
    } else if value == 234 {
        assert(gamma_floor(248_025, 822_785_754));
    } else if value == 235 {
        assert(gamma_floor(249_025, 830_769_876));
    } else if value == 236 {
        assert(gamma_floor(250_025, 838_799_011));
    } else if value == 237 {
        assert(gamma_floor(251_025, 846_873_231));
    } else if value == 238 {
        assert(gamma_floor(252_025, 854_992_608));
    } else {
        assert(gamma_floor(253_025, 863_157_213));
    }
}

proof fn lemma_entries_from_240(value: u8)
    requires
        240 <= value <= 255,
    ensures
        is_linear_intensity(value as int, linear_intensity(value)),
        is_within_unit(value),
{
    if value == 240 {
        assert(gamma_floor(254_025, 871_367_119));
    } else if value == 241 {
        assert(gamma_floor(255_025, 879_622_396));
    } else if value == 242 {
        assert(gamma_floor(256_025, 887_923_117));
    } else if value == 243 {
        assert(gamma_floor(257_025, 896_269_353));
    } else if value == 244 {
        assert(gamma_floor(258_025, 904_661_174));
    } else if value == 245 {
        assert(gamma_floor(259_025, 913_098_651));
    } else if value == 246 {
        assert(gamma_floor(260_025, 921_581_856));
    } else if value == 247 {
        assert(gamma_floor(261_025, 930_110_858));
    } else if value == 248 {
        assert(gamma_floor(262_025, 938_685_728));
    } else if value == 249 {
        assert(gamma_floor(263_025, 947_306_536));
    } else if value == 250 {
        assert(gamma_floor(264_025, 955_973_353));
    } else if value == 251 {
        assert(gamma_floor(265_025, 964_686_247));
    } else if value == 252 {
        assert(gamma_floor(266_025, 973_445_290));
    } else if value == 253 {
        assert(gamma_floor(267_025, 982_250_550));
    } else if value == 254 {
        assert(gamma_floor(268_025, 991_102_097));
    } else {
        assert(gamma_floor(269_025, 1_000_000_000));
    }
}

/// Every table entry is the rounded-down fixed-point value of the WCAG
/// gamma expansion of its index.
pub proof fn lemma_linear_intensity_is_floor(value: u8)
    ensures
        is_linear_intensity(value as int, linear_intensity(value)),
{
    if value <= 15 {
        lemma_entries_from_0(value);
    } else if value <= 31 {
        lemma_entries_from_16(value);
    } else if value <= 47 {
        lemma_entries_from_32(value);
    } else if value <= 63 {
        lemma_entries_from_48(value);
    } else if value <= 79 {
        lemma_entries_from_64(value);
    } else if value <= 95 {
        lemma_entries_from_80(value);
    } else if value <= 111 {
        lemma_entries_from_96(value);
    } else if value <= 127 {
        lemma_entries_from_112(value);
    } else if value <= 143 {
        lemma_entries_from_128(value);
    } else if value <= 159 {
        lemma_entries_from_144(value);
    } else if value <= 175 {
        lemma_entries_from_160(value);
    } else if value <= 191 {
        lemma_entries_from_176(value);
    } else if value <= 207 {
        lemma_entries_from_192(value);
    } else if value <= 223 {
        lemma_entries_from_208(value);
    } else if value <= 239 {
        lemma_entries_from_224(value);
    } else {
        lemma_entries_from_240(value);
    }
}

/// Every intensity lies in `0..=UNIT`; only the channel value 0 has
/// intensity zero, and only the channel value 255 has intensity `UNIT`.
pub proof fn lemma_linear_intensity_bounds(value: u8)
    ensures
        is_within_unit(value),
{
    if value <= 15 {
        lemma_entries_from_0(value);
    } else if value <= 31 {
        lemma_entries_from_16(value);
    } else if value <= 47 {
        lemma_entries_from_32(value);
    } else if value <= 63 {
        lemma_entries_from_48(value);
    } else if value <= 79 {
        lemma_entries_from_64(value);
    } else if value <= 95 {
        lemma_entries_from_80(value);
    } else if value <= 111 {
        lemma_entries_from_96(value);
    } else if value <= 127 {
        lemma_entries_from_112(value);
    } else if value <= 143 {
        lemma_entries_from_128(value);
    } else if value <= 159 {
        lemma_entries_from_144(value);
    } else if value <= 175 {
        lemma_entries_from_160(value);
    } else if value <= 191 {
        lemma_entries_from_176(value);
    } else if value <= 207 {
        lemma_entries_from_192(value);
    } else if value <= 223 {
        lemma_entries_from_208(value);
    } else if value <= 239 {
        lemma_entries_from_224(value);
    } else {
        lemma_entries_from_240(value);
    }
}

/// Gamma expansion of one channel: its linear-light intensity in units of
/// `1 / UNIT`.
pub fn transform_color_value(rgb_val: u8) -> (t: u64)
    ensures
        t == linear_intensity(rgb_val),
{
    LINEAR_INTENSITY[rgb_val as usize]
}

} // verus!
