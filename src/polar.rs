use vstd::prelude::*;
use crate::geometry::Vec2;

verus! {

/// Milliturns in a full turn: angles are fractions of a turn in thousandths.
pub const TURN: u32 = 1000;

/// The scale of the sine and cosine values below.
pub const UNIT: u64 = 10_000_000_000;

/// Interpolation of `lo..hi` by a draw that is uniform over all `u32` values.
pub open spec fn lerp_spec(lo: int, hi: int, draw: int) -> int {
    lo + (hi - lo) * draw / 4294967296
}

/// `UNIT * sin(k / 1000 turn)` rounded down, for `k` from 0 to a quarter turn.
#[verifier::opaque]
pub open spec fn quarter_sine_spec(k: int) -> int {
    if k == 0 {
        0
    } else
    if k == 1 {
        62831439
    } else
    if k == 2 {
        125660398
    } else
    if k == 3 {
        188484397
    } else
    if k == 4 {
        251300954
    } else
    if k == 5 {
        314107590
    } else
    if k == 6 {
        376901826
    } else
    if k == 7 {
        439681183
    } else
    if k == 8 {
        502443181
    } else
    if k == 9 {
        565185344
    } else
    if k == 10 {
        627905195
    } else
    if k == 11 {
        690600257
    } else
    if k == 12 {
        753268055
    } else
    if k == 13 {
        815906115
    } else
    if k == 14 {
        878511965
    } else
    if k == 15 {
        941083133
    } else
    if k == 16 {
        1003617148
    } else
    if k == 17 {
        1066111542
    } else
    if k == 18 {
        1128563848
    } else
    if k == 19 {
        1190971600
    } else
    if k == 20 {
        1253332335
    } else
    if k == 21 {
        1315643590
    } else
    if k == 22 {
        1377902906
    } else
    if k == 23 {
        1440107825
    } else
    if k == 24 {
        1502255891
    } else
    if k == 25 {
        1564344650
    } else
    if k == 26 {
        1626371651
    } else
    if k == 27 {
        1688334447
    } else
    if k == 28 {
        1750230589
    } else
    if k == 29 {
        1812057636
    } else
    if k == 30 {
        1873813145
    } else
    if k == 31 {
        1935494680
    } else
    if k == 32 {
        1997099805
    } else
    if k == 33 {
        2058626087
    } else
    if k == 34 {
        2120071099
    } else
    if k == 35 {
        2181432413
    } else
    if k == 36 {
        2242707609
    } else
    if k == 37 {
        2303894266
    } else
    if k == 38 {
        2364989970
    } else
    if k == 39 {
        2425992307
    } else
    if k == 40 {
        2486898871
    } else
    if k == 41 {
        2547707256
    } else
    if k == 42 {
        2608415062
    } else
    if k == 43 {
        2669019893
    } else
    if k == 44 {
        2729519355
    } else
    if k == 45 {
        2789911060
    } else
    if k == 46 {
        2850192624
    } else
    if k == 47 {
        2910361668
    } else
    if k == 48 {
        2970415815
    } else
    if k == 49 {
        3030352696
    } else
    if k == 50 {
        3090169943
    } else
    if k == 51 {
        3149865196
    } else
    if k == 52 {
        3209436098
    } else
    if k == 53 {
        3268880296
    } else
    if k == 54 {
        3328195445
    } else
    if k == 55 {
        3387379202
    } else
    if k == 56 {
        3446429231
    } else
    if k == 57 {
        3505343201
    } else
    if k == 58 {
        3564118787
    } else
    if k == 59 {
        3622753667
    } else
    if k == 60 {
        3681245526
    } else
    if k == 61 {
        3739592057
    } else
    if k == 62 {
        3797790955
    } else
    if k == 63 {
        3855839922
    } else
    if k == 64 {
        3913736668
    } else
    if k == 65 {
        3971478906
    } else
    if k == 66 {
        4029064357
    } else
    if k == 67 {
        4086490747
    } else
    if k == 68 {
        4143755809
    } else
    if k == 69 {
        4200857284
    } else
    if k == 70 {
        4257792915
    } else
    if k == 71 {
        4314560456
    } else
    if k == 72 {
        4371157666
    } else
    if k == 73 {
        4427582310
    } else
    if k == 74 {
        4483832160
    } else
    if k == 75 {
        4539904997
    } else
    if k == 76 {
        4595798606
    } else
    if k == 77 {
        4651510780
    } else
    if k == 78 {
        4707039321
    } else
    if k == 79 {
        4762382036
    } else
    if k == 80 {
        4817536741
    } else
    if k == 81 {
        4872501257
    } else
    if k == 82 {
        4927273415
    } else
    if k == 83 {
        4981851053
    } else
    if k == 84 {
        5036232016
    } else
    if k == 85 {
        5090414157
    } else
    if k == 86 {
        5144395337
    } else
    if k == 87 {
        5198173426
    } else
    if k == 88 {
        5251746299
    } else
    if k == 89 {
        5305111843
    } else
    if k == 90 {
        5358267949
    } else
    if k == 91 {
        5411212521
    } else
    if k == 92 {
        5463943467
    } else
    if k == 93 {
        5516458706
    } else
    if k == 94 {
        5568756164
    } else
    if k == 95 {
        5620833778
    } else
    if k == 96 {
        5672689491
    } else
    if k == 97 {
        5724321255
    } else
    if k == 98 {
        5775727034
    } else
    if k == 99 {
        5826904796
    } else
    if k == 100 {
        5877852522
    } else
    if k == 101 {
        5928568201
    } else
    if k == 102 {
        5979049830
    } else
    if k == 103 {
        6029295416
    } else
    if k == 104 {
        6079302976
    } else
    if k == 105 {
        6129070536
    } else
    if k == 106 {
        6178596130
    } else
    if k == 107 {
        6227877804
    } else
    if k == 108 {
        6276913612
    } else
    if k == 109 {
        6325701619
    } else
    if k == 110 {
        6374239897
    } else
    if k == 111 {
        6422526531
    } else
    if k == 112 {
        6470559615
    } else
    if k == 113 {
        6518337253
    } else
    if k == 114 {
        6565857557
    } else
    if k == 115 {
        6613118653
    } else
    if k == 116 {
        6660118674
    } else
    if k == 117 {
        6706855765
    } else
    if k == 118 {
        6753328081
    } else
    if k == 119 {
        6799533787
    } else
    if k == 120 {
        6845471059
    } else
    if k == 121 {
        6891138083
    } else
    if k == 122 {
        6936533058
    } else
    if k == 123 {
        6981654189
    } else
    if k == 124 {
        7026499697
    } else
    if k == 125 {
        7071067811
    } else
    if k == 126 {
        7115356772
    } else
    if k == 127 {
        7159364830
    } else
    if k == 128 {
        7203090248
    } else
    if k == 129 {
        7246531301
    } else
    if k == 130 {
        7289686274
    } else
    if k == 131 {
        7332553462
    } else
    if k == 132 {
        7375131173
    } else
    if k == 133 {
        7417417727
    } else
    if k == 134 {
        7459411454
    } else
    if k == 135 {
        7501110696
    } else
    if k == 136 {
        7542513807
    } else
    if k == 137 {
        7583619152
    } else
    if k == 138 {
        7624425110
    } else
    if k == 139 {
        7664930068
    } else
    if k == 140 {
        7705132427
    } else
    if k == 141 {
        7745030601
    } else
    if k == 142 {
        7784623015
    } else
    if k == 143 {
        7823908105
    } else
    if k == 144 {
        7862884321
    } else
    if k == 145 {
        7901550123
    } else
    if k == 146 {
        7939903986
    } else
    if k == 147 {
        7977944395
    } else
    if k == 148 {
        8015669848
    } else
    if k == 149 {
        8053078857
    } else
    if k == 150 {
        8090169943
    } else
    if k == 151 {
        8126941644
    } else
    if k == 152 {
        8163392507
    } else
    if k == 153 {
        8199521093
    } else
    if k == 154 {
        8235325976
    } else
    if k == 155 {
        8270805742
    } else
    if k == 156 {
        8305958991
    } else
    if k == 157 {
        8340784336
    } else
    if k == 158 {
        8375280400
    } else
    if k == 159 {
        8409445822
    } else
    if k == 160 {
        8443279255
    } else
    if k == 161 {
        8476779360
    } else
    if k == 162 {
        8509944817
    } else
    if k == 163 {
        8542774316
    } else
    if k == 164 {
        8575266561
    } else
    if k == 165 {
        8607420270
    } else
    if k == 166 {
        8639234171
    } else
    if k == 167 {
        8670707011
    } else
    if k == 168 {
        8701837546
    } else
    if k == 169 {
        8732624548
    } else
    if k == 170 {
        8763066800
    } else
    if k == 171 {
        8793163101
    } else
    if k == 172 {
        8822912264
    } else
    if k == 173 {
        8852313113
    } else
    if k == 174 {
        8881364488
    } else
    if k == 175 {
        8910065241
    } else
    if k == 176 {
        8938414241
    } else
    if k == 177 {
        8966410367
    } else
    if k == 178 {
        8994052515
    } else
    if k == 179 {
        9021339593
    } else
    if k == 180 {
        9048270524
    } else
    if k == 181 {
        9074844245
    } else
    if k == 182 {
        9101059706
    } else
    if k == 183 {
        9126915874
    } else
    if k == 184 {
        9152411726
    } else
    if k == 185 {
        9177546256
    } else
    if k == 186 {
        9202318473
    } else
    if k == 187 {
        9226727398
    } else
    if k == 188 {
        9250772068
    } else
    if k == 189 {
        9274451533
    } else
    if k == 190 {
        9297764858
    } else
    if k == 191 {
        9320711124
    } else
    if k == 192 {
        9343289424
    } else
    if k == 193 {
        9365498867
    } else
    if k == 194 {
        9387338576
    } else
    if k == 195 {
        9408807689
    } else
    if k == 196 {
        9429905358
    } else
    if k == 197 {
        9450630751
    } else
    if k == 198 {
        9470983049
    } else
    if k == 199 {
        9490961449
    } else
    if k == 200 {
        9510565162
    } else
    if k == 201 {
        9529793415
    } else
    if k == 202 {
        9548645447
    } else
    if k == 203 {
        9567120515
    } else
    if k == 204 {
        9585217890
    } else
    if k == 205 {
        9602936856
    } else
    if k == 206 {
        9620276715
    } else
    if k == 207 {
        9637236782
    } else
    if k == 208 {
        9653816388
    } else
    if k == 209 {
        9670014877
    } else
    if k == 210 {
        9685831611
    } else
    if k == 211 {
        9701265964
    } else
    if k == 212 {
        9716317329
    } else
    if k == 213 {
        9730985109
    } else
    if k == 214 {
        9745268727
    } else
    if k == 215 {
        9759167619
    } else
    if k == 216 {
        9772681235
    } else
    if k == 217 {
        9785809043
    } else
    if k == 218 {
        9798550523
    } else
    if k == 219 {
        9810905174
    } else
    if k == 220 {
        9822872507
    } else
    if k == 221 {
        9834452049
    } else
    if k == 222 {
        9845643345
    } else
    if k == 223 {
        9856445951
    } else
    if k == 224 {
        9866859442
    } else
    if k == 225 {
        9876883405
    } else
    if k == 226 {
        9886517447
    } else
    if k == 227 {
        9895761186
    } else
    if k == 228 {
        9904614256
    } else
    if k == 229 {
        9913076310
    } else
    if k == 230 {
        9921147013
    } else
    if k == 231 {
        9928826045
    } else
    if k == 232 {
        9936113105
    } else
    if k == 233 {
        9943007903
    } else
    if k == 234 {
        9949510169
    } else
    if k == 235 {
        9955619646
    } else
    if k == 236 {
        9961336091
    } else
    if k == 237 {
        9966659280
    } else
    if k == 238 {
        9971589002
    } else
    if k == 239 {
        9976125063
    } else
    if k == 240 {
        9980267284
    } else
    if k == 241 {
        9984015501
    } else
    if k == 242 {
        9987369566
    } else
    if k == 243 {
        9990329346
    } else
    if k == 244 {
        9992894726
    } else
    if k == 245 {
        9995065603
    } else
    if k == 246 {
        9996841892
    } else
    if k == 247 {
        9998223523
    } else
    if k == 248 {
        9999210442
    } else
    if k == 249 {
        9999802608
    } else {
        10_000_000_000
    }
}

/// The sine of an angle given in milliturns, scaled by `UNIT` and rounded
/// toward zero, by the symmetries of the quarter turn.
pub open spec fn sine_spec(angle: int) -> int {
    let m = angle % 1000;
    if m <= 250 {
        quarter_sine_spec(m)
    } else if m < 500 {
        quarter_sine_spec(500 - m)
    } else if m <= 750 {
        -quarter_sine_spec(m - 500)
    } else {
        -quarter_sine_spec(1000 - m)
    }
}

pub open spec fn cosine_spec(angle: int) -> int {
    sine_spec(angle + 250)
}

/// `radius * c / UNIT`, rounded toward zero.
pub open spec fn scale_spec(radius: int, c: int) -> int {
    if c < 0 {
        -(radius * (-c) / 10_000_000_000)
    } else {
        radius * c / 10_000_000_000
    }
}

/// The Cartesian point at `radius` and `angle` (milliturns).
pub open spec fn cartesian_spec(radius: int, angle: int) -> Vec2 {
    Vec2 {
        x: scale_spec(radius, cosine_spec(angle)) as i64,
        y: scale_spec(radius, sine_spec(angle)) as i64,
    }
}

/// The point that `polar_point` makes of two draws.
pub open spec fn polar_point_spec(
    min_radius: int,
    max_radius: int,
    min_angle: int,
    max_angle: int,
    angle_draw: int,
    radius_draw: int,
) -> Vec2 {
    cartesian_spec(
        lerp_spec(min_radius, max_radius, radius_draw),
        lerp_spec(min_angle, max_angle, angle_draw),
    )
}

/// Linear interpolation from `lo` toward `hi` by `draw / 2^32`.
pub fn lerp(lo: u32, hi: u32, draw: u32) -> (r: u32)
    requires
        lo <= hi,
    ensures
        r == lerp_spec(lo as int, hi as int, draw as int),
        lo <= r <= hi,
        lo < hi ==> r < hi,
{
    let span: u64 = (hi - lo) as u64;
    proof {
        assert(span * draw <= span * 4294967295) by (nonlinear_arith)
            requires draw <= 4294967295u32;
        assert(span * 4294967295 <= 4294967295 * 4294967295) by (nonlinear_arith)
            requires span <= 4294967295u64;
    }
    let prod: u64 = span * (draw as u64);
    proof {
        assert(prod / 4294967296 <= span) by (nonlinear_arith)
            requires prod <= span * 4294967295, span >= 0;
        assert(span > 0 ==> prod / 4294967296 < span) by (nonlinear_arith)
            requires prod <= span * 4294967295, span >= 0;
    }
    lo + (prod / 4294967296) as u32
}

fn quarter_sine(k: u32) -> (r: u64)
    requires
        k <= 250,
    ensures
        r == quarter_sine_spec(k as int),
{
    proof {
        reveal(quarter_sine_spec);
    }
    match k {
        0 => 0,
        1 => 62831439,
        2 => 125660398,
        3 => 188484397,
        4 => 251300954,
        5 => 314107590,
        6 => 376901826,
        7 => 439681183,
        8 => 502443181,
        9 => 565185344,
        10 => 627905195,
        11 => 690600257,
        12 => 753268055,
        13 => 815906115,
        14 => 878511965,
        15 => 941083133,
        16 => 1003617148,
        17 => 1066111542,
        18 => 1128563848,
        19 => 1190971600,
        20 => 1253332335,
        21 => 1315643590,
        22 => 1377902906,
        23 => 1440107825,
        24 => 1502255891,
        25 => 1564344650,
        26 => 1626371651,
        27 => 1688334447,
        28 => 1750230589,
        29 => 1812057636,
        30 => 1873813145,
        31 => 1935494680,
        32 => 1997099805,
        33 => 2058626087,
        34 => 2120071099,
        35 => 2181432413,
        36 => 2242707609,
        37 => 2303894266,
        38 => 2364989970,
        39 => 2425992307,
        40 => 2486898871,
        41 => 2547707256,
        42 => 2608415062,
        43 => 2669019893,
        44 => 2729519355,
        45 => 2789911060,
        46 => 2850192624,
        47 => 2910361668,
        48 => 2970415815,
        49 => 3030352696,
        50 => 3090169943,
        51 => 3149865196,
        52 => 3209436098,
        53 => 3268880296,
        54 => 3328195445,
        55 => 3387379202,
        56 => 3446429231,
        57 => 3505343201,
        58 => 3564118787,
        59 => 3622753667,
        60 => 3681245526,
        61 => 3739592057,
        62 => 3797790955,
        63 => 3855839922,
        64 => 3913736668,
        65 => 3971478906,
        66 => 4029064357,
        67 => 4086490747,
        68 => 4143755809,
        69 => 4200857284,
        70 => 4257792915,
        71 => 4314560456,
        72 => 4371157666,
        73 => 4427582310,
        74 => 4483832160,
        75 => 4539904997,
        76 => 4595798606,
        77 => 4651510780,
        78 => 4707039321,
        79 => 4762382036,
        80 => 4817536741,
        81 => 4872501257,
        82 => 4927273415,
        83 => 4981851053,
        84 => 5036232016,
        85 => 5090414157,
        86 => 5144395337,
        87 => 5198173426,
        88 => 5251746299,
        89 => 5305111843,
        90 => 5358267949,
        91 => 5411212521,
        92 => 5463943467,
        93 => 5516458706,
        94 => 5568756164,
        95 => 5620833778,
        96 => 5672689491,
        97 => 5724321255,
        98 => 5775727034,
        99 => 5826904796,
        100 => 5877852522,
        101 => 5928568201,
        102 => 5979049830,
        103 => 6029295416,
        104 => 6079302976,
        105 => 6129070536,
        106 => 6178596130,
        107 => 6227877804,
        108 => 6276913612,
        109 => 6325701619,
        110 => 6374239897,
        111 => 6422526531,
        112 => 6470559615,
        113 => 6518337253,
        114 => 6565857557,
        115 => 6613118653,
        116 => 6660118674,
        117 => 6706855765,
        118 => 6753328081,
        119 => 6799533787,
        120 => 6845471059,
        121 => 6891138083,
        122 => 6936533058,
        123 => 6981654189,
        124 => 7026499697,
        125 => 7071067811,
        126 => 7115356772,
        127 => 7159364830,
        128 => 7203090248,
        129 => 7246531301,
        130 => 7289686274,
        131 => 7332553462,
        132 => 7375131173,
        133 => 7417417727,
        134 => 7459411454,
        135 => 7501110696,
        136 => 7542513807,
        137 => 7583619152,
        138 => 7624425110,
        139 => 7664930068,
        140 => 7705132427,
        141 => 7745030601,
        142 => 7784623015,
        143 => 7823908105,
        144 => 7862884321,
        145 => 7901550123,
        146 => 7939903986,
        147 => 7977944395,
        148 => 8015669848,
        149 => 8053078857,
        150 => 8090169943,
        151 => 8126941644,
        152 => 8163392507,
        153 => 8199521093,
        154 => 8235325976,
        155 => 8270805742,
        156 => 8305958991,
        157 => 8340784336,
        158 => 8375280400,
        159 => 8409445822,
        160 => 8443279255,
        161 => 8476779360,
        162 => 8509944817,
        163 => 8542774316,
        164 => 8575266561,
        165 => 8607420270,
        166 => 8639234171,
        167 => 8670707011,
        168 => 8701837546,
        169 => 8732624548,
        170 => 8763066800,
        171 => 8793163101,
        172 => 8822912264,
        173 => 8852313113,
        174 => 8881364488,
        175 => 8910065241,
        176 => 8938414241,
        177 => 8966410367,
        178 => 8994052515,
        179 => 9021339593,
        180 => 9048270524,
        181 => 9074844245,
        182 => 9101059706,
        183 => 9126915874,
        184 => 9152411726,
        185 => 9177546256,
        186 => 9202318473,
        187 => 9226727398,
        188 => 9250772068,
        189 => 9274451533,
        190 => 9297764858,
        191 => 9320711124,
        192 => 9343289424,
        193 => 9365498867,
        194 => 9387338576,
        195 => 9408807689,
        196 => 9429905358,
        197 => 9450630751,
        198 => 9470983049,
        199 => 9490961449,
        200 => 9510565162,
        201 => 9529793415,
        202 => 9548645447,
        203 => 9567120515,
        204 => 9585217890,
        205 => 9602936856,
        206 => 9620276715,
        207 => 9637236782,
        208 => 9653816388,
        209 => 9670014877,
        210 => 9685831611,
        211 => 9701265964,
        212 => 9716317329,
        213 => 9730985109,
        214 => 9745268727,
        215 => 9759167619,
        216 => 9772681235,
        217 => 9785809043,
        218 => 9798550523,
        219 => 9810905174,
        220 => 9822872507,
        221 => 9834452049,
        222 => 9845643345,
        223 => 9856445951,
        224 => 9866859442,
        225 => 9876883405,
        226 => 9886517447,
        227 => 9895761186,
        228 => 9904614256,
        229 => 9913076310,
        230 => 9921147013,
        231 => 9928826045,
        232 => 9936113105,
        233 => 9943007903,
        234 => 9949510169,
        235 => 9955619646,
        236 => 9961336091,
        237 => 9966659280,
        238 => 9971589002,
        239 => 9976125063,
        240 => 9980267284,
        241 => 9984015501,
        242 => 9987369566,
        243 => 9990329346,
        244 => 9992894726,
        245 => 9995065603,
        246 => 9996841892,
        247 => 9998223523,
        248 => 9999210442,
        249 => 9999802608,
        _ => 10_000_000_000,
    }
}

/// The sine of `angle` milliturns, scaled by `UNIT`, rounded toward zero.
pub fn sine(angle: u32) -> (r: i64)
    ensures
        r == sine_spec(angle as int),
        -10_000_000_000 <= r <= 10_000_000_000,
{
    let m: u32 = angle % 1000;
    proof {
        lemma_quarter_sine_range(m as int);
        lemma_quarter_sine_range(500 - m);
        lemma_quarter_sine_range(m - 500);
        lemma_quarter_sine_range(1000 - m);
    }
    if m <= 250 {
        quarter_sine(m) as i64
    } else if m < 500 {
        quarter_sine(500 - m) as i64
    } else if m <= 750 {
        -(quarter_sine(m - 500) as i64)
    } else {
        -(quarter_sine(1000 - m) as i64)
    }
}

/// The cosine of `angle` milliturns, scaled by `UNIT`, rounded toward zero.
pub fn cosine(angle: u32) -> (r: i64)
    ensures
        r == cosine_spec(angle as int),
        -10_000_000_000 <= r <= 10_000_000_000,
{
    let a: u32 = angle % 1000 + 250;
    proof {
        assert((angle as int + 250) % 1000 == (a as int) % 1000);
    }
    sine(a)
}

fn scale(radius: u32, c: i64) -> (r: i64)
    requires
        -10_000_000_000 <= c <= 10_000_000_000,
    ensures
        r == scale_spec(radius as int, c as int),
        -(radius as int) <= r <= radius,
{
    let m: u128 = if c < 0 { (-c) as u128 } else { c as u128 };
    proof {
        assert(radius * m <= radius * 10_000_000_000) by (nonlinear_arith)
            requires m <= 10_000_000_000;
        assert(radius * 10_000_000_000 <= 4294967295 * 10_000_000_000) by (nonlinear_arith)
            requires radius <= 4294967295u32;
    }
    let q: u128 = (radius as u128) * m / 10_000_000_000;
    proof {
        assert(q <= radius) by (nonlinear_arith)
            requires q == (radius as u128) * m / 10_000_000_000, m <= 10_000_000_000;
    }
    if c < 0 {
        -(q as i64)
    } else {
        q as i64
    }
}

/// The Cartesian point at `radius` and `angle` milliturns.
pub fn cartesian(radius: u32, angle: u32) -> (r: Vec2)
    ensures
        r == cartesian_spec(radius as int, angle as int),
        -(radius as int) <= r.x <= radius,
        -(radius as int) <= r.y <= radius,
{
    let c = cosine(angle);
    let s = sine(angle);
    Vec2 { x: scale(radius, c), y: scale(radius, s) }
}

/// The point at a radius interpolated in `min_radius..max_radius` by
/// `radius_draw` and an angle interpolated in `min_angle..max_angle`
/// milliturns by `angle_draw`.
pub fn polar_point(
    min_radius: u32,
    max_radius: u32,
    min_angle: u32,
    max_angle: u32,
    angle_draw: u32,
    radius_draw: u32,
) -> (r: Vec2)
    requires
        min_radius <= max_radius,
        min_angle <= max_angle,
    ensures
        r == polar_point_spec(
            min_radius as int,
            max_radius as int,
            min_angle as int,
            max_angle as int,
            angle_draw as int,
            radius_draw as int,
        ),
        -(max_radius as int) <= r.x <= max_radius,
        -(max_radius as int) <= r.y <= max_radius,
        r.x * r.x + r.y * r.y <= max_radius * max_radius,
        min_radius >= 3 ==> (min_radius - 3) * (min_radius - 3) <= r.x * r.x + r.y * r.y,
{
    proof {
        lemma_polar_sample_in_bounds(min_radius, max_radius, min_angle, max_angle, angle_draw, radius_draw);
    }
    let angle = lerp(min_angle, max_angle, angle_draw);
    let radius = lerp(min_radius, max_radius, radius_draw);
    cartesian(radius, angle)
}

/// Relies on rand::random: a value drawn uniformly over all `u32` values
/// from the thread-local generator. Nothing is promised of the value.
#[verifier::external_body]
pub(crate) fn draw_u32() -> (r: u32) {
    rand::random::<u32>()
}

/// A random point whose radius lies in `min_radius..max_radius` and whose
/// angle lies in `min_angle..max_angle` milliturns.
pub fn random_polar(min_radius: u32, max_radius: u32, min_angle: u32, max_angle: u32) -> (r: Vec2)
    requires
        min_radius <= max_radius,
        min_angle <= max_angle,
    ensures
        exists|angle_draw: u32, radius_draw: u32|
            r == #[trigger] polar_point_spec(
                min_radius as int,
                max_radius as int,
                min_angle as int,
                max_angle as int,
                angle_draw as int,
                radius_draw as int,
            ),
        -(max_radius as int) <= r.x <= max_radius,
        -(max_radius as int) <= r.y <= max_radius,
        r.x * r.x + r.y * r.y <= max_radius * max_radius,
        min_radius >= 3 ==> (min_radius - 3) * (min_radius - 3) <= r.x * r.x + r.y * r.y,
{
    let angle_draw = draw_u32();
    let radius_draw = draw_u32();
    polar_point(min_radius, max_radius, min_angle, max_angle, angle_draw, radius_draw)
}

/// Every sample has a radius within its bounds and an angle within its
/// bounds, and each coordinate of the point lies within the radius.
pub proof fn lemma_polar_sample_in_bounds(
    min_radius: u32,
    max_radius: u32,
    min_angle: u32,
    max_angle: u32,
    angle_draw: u32,
    radius_draw: u32,
)
    requires
        min_radius <= max_radius,
        min_angle <= max_angle,
    ensures
        min_radius <= lerp_spec(min_radius as int, max_radius as int, radius_draw as int) <= max_radius,
        min_angle <= lerp_spec(min_angle as int, max_angle as int, angle_draw as int) <= max_angle,
        polar_point_spec(min_radius as int, max_radius as int, min_angle as int, max_angle as int, angle_draw as int, radius_draw as int)
            == cartesian_spec(
                lerp_spec(min_radius as int, max_radius as int, radius_draw as int),
                lerp_spec(min_angle as int, max_angle as int, angle_draw as int),
            ),
        -(max_radius as int) <= polar_point_spec(min_radius as int, max_radius as int, min_angle as int, max_angle as int, angle_draw as int, radius_draw as int).x <= max_radius,
        -(max_radius as int) <= polar_point_spec(min_radius as int, max_radius as int, min_angle as int, max_angle as int, angle_draw as int, radius_draw as int).y <= max_radius,
        max_angle < 500 ==> polar_point_spec(min_radius as int, max_radius as int, min_angle as int, max_angle as int, angle_draw as int, radius_draw as int).y >= 0,
        500 <= min_angle && max_angle < 1000 ==> polar_point_spec(min_radius as int, max_radius as int, min_angle as int, max_angle as int, angle_draw as int, radius_draw as int).y <= 0,
        polar_point_spec(min_radius as int, max_radius as int, min_angle as int, max_angle as int, angle_draw as int, radius_draw as int).x * polar_point_spec(min_radius as int, max_radius as int, min_angle as int, max_angle as int, angle_draw as int, radius_draw as int).x + polar_point_spec(min_radius as int, max_radius as int, min_angle as int, max_angle as int, angle_draw as int, radius_draw as int).y * polar_point_spec(min_radius as int, max_radius as int, min_angle as int, max_angle as int, angle_draw as int, radius_draw as int).y <= max_radius * max_radius,
        min_radius >= 3 ==> (min_radius - 3) * (min_radius - 3) <= polar_point_spec(min_radius as int, max_radius as int, min_angle as int, max_angle as int, angle_draw as int, radius_draw as int).x * polar_point_spec(min_radius as int, max_radius as int, min_angle as int, max_angle as int, angle_draw as int, radius_draw as int).x + polar_point_spec(min_radius as int, max_radius as int, min_angle as int, max_angle as int, angle_draw as int, radius_draw as int).y * polar_point_spec(min_radius as int, max_radius as int, min_angle as int, max_angle as int, angle_draw as int, radius_draw as int).y,
{
    let span = max_radius - min_radius;
    assert(span * radius_draw <= span * 4294967295) by (nonlinear_arith)
        requires radius_draw <= 4294967295u32, span >= 0;
    assert((span * radius_draw) / 4294967296 <= span) by (nonlinear_arith)
        requires span * radius_draw <= span * 4294967295, span >= 0, radius_draw >= 0;
    let aspan = max_angle - min_angle;
    assert(aspan * angle_draw <= aspan * 4294967295) by (nonlinear_arith)
        requires angle_draw <= 4294967295u32, aspan >= 0;
    assert((aspan * angle_draw) / 4294967296 <= aspan) by (nonlinear_arith)
        requires aspan * angle_draw <= aspan * 4294967295, aspan >= 0, angle_draw >= 0;
    let radius = lerp_spec(min_radius as int, max_radius as int, radius_draw as int);
    let angle = lerp_spec(min_angle as int, max_angle as int, angle_draw as int);
    lemma_sine_bounded(angle);
    lemma_sine_bounded(angle + 250);
    lemma_scale_bounded(radius, sine_spec(angle));
    lemma_scale_bounded(radius, cosine_spec(angle));
    lemma_cartesian_in_disc(radius, angle);
    let p = cartesian_spec(radius, angle);
    let n = p.x * p.x + p.y * p.y;
    assert(radius * radius <= max_radius * max_radius) by (nonlinear_arith)
        requires 0 <= radius <= max_radius;
    if min_radius >= 3 {
        assert((min_radius - 3) * (min_radius - 3) <= (radius - 3) * (radius - 3)) by (nonlinear_arith)
            requires 3 <= min_radius <= radius;
    }
}

proof fn lemma_quarter_sine_range(k: int)
    ensures
        0 <= k <= 250 ==> 0 <= quarter_sine_spec(k) <= 10_000_000_000,
{
    reveal(quarter_sine_spec);
}

/// Each entry of the table and its complement lie on the unit circle up to
/// rounding.
proof fn lemma_quarter_pair(k: int)
    requires
        0 <= k <= 250,
    ensures
        9_999_999_998 * 9_999_999_998 <= quarter_sine_spec(k) * quarter_sine_spec(k) + quarter_sine_spec(250 - k)
            * quarter_sine_spec(250 - k) <= 10_000_000_000 * 10_000_000_000,
{
    if k < 25 {
        lemma_quarter_pair_0(k);
    } else if k < 50 {
        lemma_quarter_pair_25(k);
    } else if k < 75 {
        lemma_quarter_pair_50(k);
    } else if k < 100 {
        lemma_quarter_pair_75(k);
    } else if k < 125 {
        lemma_quarter_pair_100(k);
    } else if k < 150 {
        lemma_quarter_pair_125(k);
    } else if k < 175 {
        lemma_quarter_pair_150(k);
    } else if k < 200 {
        lemma_quarter_pair_175(k);
    } else if k < 225 {
        lemma_quarter_pair_200(k);
    } else if k < 250 {
        lemma_quarter_pair_225(k);
    } else if k < 251 {
        lemma_quarter_pair_250(k);
    }
}

#[verifier::spinoff_prover]
proof fn lemma_quarter_pair_0(k: int)
    requires
        0 <= k < 25,
    ensures
        9_999_999_998 * 9_999_999_998 <= quarter_sine_spec(k) * quarter_sine_spec(k) + quarter_sine_spec(250 - k)
            * quarter_sine_spec(250 - k) <= 10_000_000_000 * 10_000_000_000,
{
    reveal(quarter_sine_spec);
    if k == 0 {
        assert(quarter_sine_spec(0) == 0);
        assert(quarter_sine_spec(250) == 10000000000);
    }     else if k == 1 {
        assert(quarter_sine_spec(1) == 62831439);
        assert(quarter_sine_spec(249) == 9999802608);
    }     else if k == 2 {
        assert(quarter_sine_spec(2) == 125660398);
        assert(quarter_sine_spec(248) == 9999210442);
    }     else if k == 3 {
        assert(quarter_sine_spec(3) == 188484397);
        assert(quarter_sine_spec(247) == 9998223523);
    }     else if k == 4 {
        assert(quarter_sine_spec(4) == 251300954);
        assert(quarter_sine_spec(246) == 9996841892);
    }     else if k == 5 {
        assert(quarter_sine_spec(5) == 314107590);
        assert(quarter_sine_spec(245) == 9995065603);
    }     else if k == 6 {
        assert(quarter_sine_spec(6) == 376901826);
        assert(quarter_sine_spec(244) == 9992894726);
    }     else if k == 7 {
        assert(quarter_sine_spec(7) == 439681183);
        assert(quarter_sine_spec(243) == 9990329346);
    }     else if k == 8 {
        assert(quarter_sine_spec(8) == 502443181);
        assert(quarter_sine_spec(242) == 9987369566);
    }     else if k == 9 {
        assert(quarter_sine_spec(9) == 565185344);
        assert(quarter_sine_spec(241) == 9984015501);
    }     else if k == 10 {
        assert(quarter_sine_spec(10) == 627905195);
        assert(quarter_sine_spec(240) == 9980267284);
    }     else if k == 11 {
        assert(quarter_sine_spec(11) == 690600257);
        assert(quarter_sine_spec(239) == 9976125063);
    }     else if k == 12 {
        assert(quarter_sine_spec(12) == 753268055);
        assert(quarter_sine_spec(238) == 9971589002);
    }     else if k == 13 {
        assert(quarter_sine_spec(13) == 815906115);
        assert(quarter_sine_spec(237) == 9966659280);
    }     else if k == 14 {
        assert(quarter_sine_spec(14) == 878511965);
        assert(quarter_sine_spec(236) == 9961336091);
    }     else if k == 15 {
        assert(quarter_sine_spec(15) == 941083133);
        assert(quarter_sine_spec(235) == 9955619646);
    }     else if k == 16 {
        assert(quarter_sine_spec(16) == 1003617148);
        assert(quarter_sine_spec(234) == 9949510169);
    }     else if k == 17 {
        assert(quarter_sine_spec(17) == 1066111542);
        assert(quarter_sine_spec(233) == 9943007903);
    }     else if k == 18 {
        assert(quarter_sine_spec(18) == 1128563848);
        assert(quarter_sine_spec(232) == 9936113105);
    }     else if k == 19 {
        assert(quarter_sine_spec(19) == 1190971600);
        assert(quarter_sine_spec(231) == 9928826045);
    }     else if k == 20 {
        assert(quarter_sine_spec(20) == 1253332335);
        assert(quarter_sine_spec(230) == 9921147013);
    }     else if k == 21 {
        assert(quarter_sine_spec(21) == 1315643590);
        assert(quarter_sine_spec(229) == 9913076310);
    }     else if k == 22 {
        assert(quarter_sine_spec(22) == 1377902906);
        assert(quarter_sine_spec(228) == 9904614256);
    }     else if k == 23 {
        assert(quarter_sine_spec(23) == 1440107825);
        assert(quarter_sine_spec(227) == 9895761186);
    }     else if k == 24 {
        assert(quarter_sine_spec(24) == 1502255891);
        assert(quarter_sine_spec(226) == 9886517447);
    }
}

#[verifier::spinoff_prover]
proof fn lemma_quarter_pair_25(k: int)
    requires
        25 <= k < 50,
    ensures
        9_999_999_998 * 9_999_999_998 <= quarter_sine_spec(k) * quarter_sine_spec(k) + quarter_sine_spec(250 - k)
            * quarter_sine_spec(250 - k) <= 10_000_000_000 * 10_000_000_000,
{
    reveal(quarter_sine_spec);
    if k == 25 {
        assert(quarter_sine_spec(25) == 1564344650);
        assert(quarter_sine_spec(225) == 9876883405);
    }     else if k == 26 {
        assert(quarter_sine_spec(26) == 1626371651);
        assert(quarter_sine_spec(224) == 9866859442);
    }     else if k == 27 {
        assert(quarter_sine_spec(27) == 1688334447);
        assert(quarter_sine_spec(223) == 9856445951);
    }     else if k == 28 {
        assert(quarter_sine_spec(28) == 1750230589);
        assert(quarter_sine_spec(222) == 9845643345);
    }     else if k == 29 {
        assert(quarter_sine_spec(29) == 1812057636);
        assert(quarter_sine_spec(221) == 9834452049);
    }     else if k == 30 {
        assert(quarter_sine_spec(30) == 1873813145);
        assert(quarter_sine_spec(220) == 9822872507);
    }     else if k == 31 {
        assert(quarter_sine_spec(31) == 1935494680);
        assert(quarter_sine_spec(219) == 9810905174);
    }     else if k == 32 {
        assert(quarter_sine_spec(32) == 1997099805);
        assert(quarter_sine_spec(218) == 9798550523);
    }     else if k == 33 {
        assert(quarter_sine_spec(33) == 2058626087);
        assert(quarter_sine_spec(217) == 9785809043);
    }     else if k == 34 {
        assert(quarter_sine_spec(34) == 2120071099);
        assert(quarter_sine_spec(216) == 9772681235);
    }     else if k == 35 {
        assert(quarter_sine_spec(35) == 2181432413);
        assert(quarter_sine_spec(215) == 9759167619);
    }     else if k == 36 {
        assert(quarter_sine_spec(36) == 2242707609);
        assert(quarter_sine_spec(214) == 9745268727);
    }     else if k == 37 {
        assert(quarter_sine_spec(37) == 2303894266);
        assert(quarter_sine_spec(213) == 9730985109);
    }     else if k == 38 {
        assert(quarter_sine_spec(38) == 2364989970);
        assert(quarter_sine_spec(212) == 9716317329);
    }     else if k == 39 {
        assert(quarter_sine_spec(39) == 2425992307);
        assert(quarter_sine_spec(211) == 9701265964);
    }     else if k == 40 {
        assert(quarter_sine_spec(40) == 2486898871);
        assert(quarter_sine_spec(210) == 9685831611);
    }     else if k == 41 {
        assert(quarter_sine_spec(41) == 2547707256);
        assert(quarter_sine_spec(209) == 9670014877);
    }     else if k == 42 {
        assert(quarter_sine_spec(42) == 2608415062);
        assert(quarter_sine_spec(208) == 9653816388);
    }     else if k == 43 {
        assert(quarter_sine_spec(43) == 2669019893);
        assert(quarter_sine_spec(207) == 9637236782);
    }     else if k == 44 {
        assert(quarter_sine_spec(44) == 2729519355);
        assert(quarter_sine_spec(206) == 9620276715);
    }     else if k == 45 {
        assert(quarter_sine_spec(45) == 2789911060);
        assert(quarter_sine_spec(205) == 9602936856);
    }     else if k == 46 {
        assert(quarter_sine_spec(46) == 2850192624);
        assert(quarter_sine_spec(204) == 9585217890);
    }     else if k == 47 {
        assert(quarter_sine_spec(47) == 2910361668);
        assert(quarter_sine_spec(203) == 9567120515);
    }     else if k == 48 {
        assert(quarter_sine_spec(48) == 2970415815);
        assert(quarter_sine_spec(202) == 9548645447);
    }     else if k == 49 {
        assert(quarter_sine_spec(49) == 3030352696);
        assert(quarter_sine_spec(201) == 9529793415);
    }
}

#[verifier::spinoff_prover]
proof fn lemma_quarter_pair_50(k: int)
    requires
        50 <= k < 75,
    ensures
        9_999_999_998 * 9_999_999_998 <= quarter_sine_spec(k) * quarter_sine_spec(k) + quarter_sine_spec(250 - k)
            * quarter_sine_spec(250 - k) <= 10_000_000_000 * 10_000_000_000,
{
    reveal(quarter_sine_spec);
    if k == 50 {
        assert(quarter_sine_spec(50) == 3090169943);
        assert(quarter_sine_spec(200) == 9510565162);
    }     else if k == 51 {
        assert(quarter_sine_spec(51) == 3149865196);
        assert(quarter_sine_spec(199) == 9490961449);
    }     else if k == 52 {
        assert(quarter_sine_spec(52) == 3209436098);
        assert(quarter_sine_spec(198) == 9470983049);
    }     else if k == 53 {
        assert(quarter_sine_spec(53) == 3268880296);
        assert(quarter_sine_spec(197) == 9450630751);
    }     else if k == 54 {
        assert(quarter_sine_spec(54) == 3328195445);
        assert(quarter_sine_spec(196) == 9429905358);
    }     else if k == 55 {
        assert(quarter_sine_spec(55) == 3387379202);
        assert(quarter_sine_spec(195) == 9408807689);
    }     else if k == 56 {
        assert(quarter_sine_spec(56) == 3446429231);
        assert(quarter_sine_spec(194) == 9387338576);
    }     else if k == 57 {
        assert(quarter_sine_spec(57) == 3505343201);
        assert(quarter_sine_spec(193) == 9365498867);
    }     else if k == 58 {
        assert(quarter_sine_spec(58) == 3564118787);
        assert(quarter_sine_spec(192) == 9343289424);
    }     else if k == 59 {
        assert(quarter_sine_spec(59) == 3622753667);
        assert(quarter_sine_spec(191) == 9320711124);
    }     else if k == 60 {
        assert(quarter_sine_spec(60) == 3681245526);
        assert(quarter_sine_spec(190) == 9297764858);
    }     else if k == 61 {
        assert(quarter_sine_spec(61) == 3739592057);
        assert(quarter_sine_spec(189) == 9274451533);
    }     else if k == 62 {
        assert(quarter_sine_spec(62) == 3797790955);
        assert(quarter_sine_spec(188) == 9250772068);
    }     else if k == 63 {
        assert(quarter_sine_spec(63) == 3855839922);
        assert(quarter_sine_spec(187) == 9226727398);
    }     else if k == 64 {
        assert(quarter_sine_spec(64) == 3913736668);
        assert(quarter_sine_spec(186) == 9202318473);
    }     else if k == 65 {
        assert(quarter_sine_spec(65) == 3971478906);
        assert(quarter_sine_spec(185) == 9177546256);
    }     else if k == 66 {
        assert(quarter_sine_spec(66) == 4029064357);
        assert(quarter_sine_spec(184) == 9152411726);
    }     else if k == 67 {
        assert(quarter_sine_spec(67) == 4086490747);
        assert(quarter_sine_spec(183) == 9126915874);
    }     else if k == 68 {
        assert(quarter_sine_spec(68) == 4143755809);
        assert(quarter_sine_spec(182) == 9101059706);
    }     else if k == 69 {
        assert(quarter_sine_spec(69) == 4200857284);
        assert(quarter_sine_spec(181) == 9074844245);
    }     else if k == 70 {
        assert(quarter_sine_spec(70) == 4257792915);
        assert(quarter_sine_spec(180) == 9048270524);
    }     else if k == 71 {
        assert(quarter_sine_spec(71) == 4314560456);
        assert(quarter_sine_spec(179) == 9021339593);
    }     else if k == 72 {
        assert(quarter_sine_spec(72) == 4371157666);
        assert(quarter_sine_spec(178) == 8994052515);
    }     else if k == 73 {
        assert(quarter_sine_spec(73) == 4427582310);
        assert(quarter_sine_spec(177) == 8966410367);
    }     else if k == 74 {
        assert(quarter_sine_spec(74) == 4483832160);
        assert(quarter_sine_spec(176) == 8938414241);
    }
}

#[verifier::spinoff_prover]
proof fn lemma_quarter_pair_75(k: int)
    requires
        75 <= k < 100,
    ensures
        9_999_999_998 * 9_999_999_998 <= quarter_sine_spec(k) * quarter_sine_spec(k) + quarter_sine_spec(250 - k)
            * quarter_sine_spec(250 - k) <= 10_000_000_000 * 10_000_000_000,
{
    reveal(quarter_sine_spec);
    if k == 75 {
        assert(quarter_sine_spec(75) == 4539904997);
        assert(quarter_sine_spec(175) == 8910065241);
    }     else if k == 76 {
        assert(quarter_sine_spec(76) == 4595798606);
        assert(quarter_sine_spec(174) == 8881364488);
    }     else if k == 77 {
        assert(quarter_sine_spec(77) == 4651510780);
        assert(quarter_sine_spec(173) == 8852313113);
    }     else if k == 78 {
        assert(quarter_sine_spec(78) == 4707039321);
        assert(quarter_sine_spec(172) == 8822912264);
    }     else if k == 79 {
        assert(quarter_sine_spec(79) == 4762382036);
        assert(quarter_sine_spec(171) == 8793163101);
    }     else if k == 80 {
        assert(quarter_sine_spec(80) == 4817536741);
        assert(quarter_sine_spec(170) == 8763066800);
    }     else if k == 81 {
        assert(quarter_sine_spec(81) == 4872501257);
        assert(quarter_sine_spec(169) == 8732624548);
    }     else if k == 82 {
        assert(quarter_sine_spec(82) == 4927273415);
        assert(quarter_sine_spec(168) == 8701837546);
    }     else if k == 83 {
        assert(quarter_sine_spec(83) == 4981851053);
        assert(quarter_sine_spec(167) == 8670707011);
    }     else if k == 84 {
        assert(quarter_sine_spec(84) == 5036232016);
        assert(quarter_sine_spec(166) == 8639234171);
    }     else if k == 85 {
        assert(quarter_sine_spec(85) == 5090414157);
        assert(quarter_sine_spec(165) == 8607420270);
    }     else if k == 86 {
        assert(quarter_sine_spec(86) == 5144395337);
        assert(quarter_sine_spec(164) == 8575266561);
    }     else if k == 87 {
        assert(quarter_sine_spec(87) == 5198173426);
        assert(quarter_sine_spec(163) == 8542774316);
    }     else if k == 88 {
        assert(quarter_sine_spec(88) == 5251746299);
        assert(quarter_sine_spec(162) == 8509944817);
    }     else if k == 89 {
        assert(quarter_sine_spec(89) == 5305111843);
        assert(quarter_sine_spec(161) == 8476779360);
    }     else if k == 90 {
        assert(quarter_sine_spec(90) == 5358267949);
        assert(quarter_sine_spec(160) == 8443279255);
    }     else if k == 91 {
        assert(quarter_sine_spec(91) == 5411212521);
        assert(quarter_sine_spec(159) == 8409445822);
    }     else if k == 92 {
        assert(quarter_sine_spec(92) == 5463943467);
        assert(quarter_sine_spec(158) == 8375280400);
    }     else if k == 93 {
        assert(quarter_sine_spec(93) == 5516458706);
        assert(quarter_sine_spec(157) == 8340784336);
    }     else if k == 94 {
        assert(quarter_sine_spec(94) == 5568756164);
        assert(quarter_sine_spec(156) == 8305958991);
    }     else if k == 95 {
        assert(quarter_sine_spec(95) == 5620833778);
        assert(quarter_sine_spec(155) == 8270805742);
    }     else if k == 96 {
        assert(quarter_sine_spec(96) == 5672689491);
        assert(quarter_sine_spec(154) == 8235325976);
    }     else if k == 97 {
        assert(quarter_sine_spec(97) == 5724321255);
        assert(quarter_sine_spec(153) == 8199521093);
    }     else if k == 98 {
        assert(quarter_sine_spec(98) == 5775727034);
        assert(quarter_sine_spec(152) == 8163392507);
    }     else if k == 99 {
        assert(quarter_sine_spec(99) == 5826904796);
        assert(quarter_sine_spec(151) == 8126941644);
    }
}

#[verifier::spinoff_prover]
proof fn lemma_quarter_pair_100(k: int)
    requires
        100 <= k < 125,
    ensures
        9_999_999_998 * 9_999_999_998 <= quarter_sine_spec(k) * quarter_sine_spec(k) + quarter_sine_spec(250 - k)
            * quarter_sine_spec(250 - k) <= 10_000_000_000 * 10_000_000_000,
{
    reveal(quarter_sine_spec);
    if k == 100 {
        assert(quarter_sine_spec(100) == 5877852522);
        assert(quarter_sine_spec(150) == 8090169943);
    }     else if k == 101 {
        assert(quarter_sine_spec(101) == 5928568201);
        assert(quarter_sine_spec(149) == 8053078857);
    }     else if k == 102 {
        assert(quarter_sine_spec(102) == 5979049830);
        assert(quarter_sine_spec(148) == 8015669848);
    }     else if k == 103 {
        assert(quarter_sine_spec(103) == 6029295416);
        assert(quarter_sine_spec(147) == 7977944395);
    }     else if k == 104 {
        assert(quarter_sine_spec(104) == 6079302976);
        assert(quarter_sine_spec(146) == 7939903986);
    }     else if k == 105 {
        assert(quarter_sine_spec(105) == 6129070536);
        assert(quarter_sine_spec(145) == 7901550123);
    }     else if k == 106 {
        assert(quarter_sine_spec(106) == 6178596130);
        assert(quarter_sine_spec(144) == 7862884321);
    }     else if k == 107 {
        assert(quarter_sine_spec(107) == 6227877804);
        assert(quarter_sine_spec(143) == 7823908105);
    }     else if k == 108 {
        assert(quarter_sine_spec(108) == 6276913612);
        assert(quarter_sine_spec(142) == 7784623015);
    }     else if k == 109 {
        assert(quarter_sine_spec(109) == 6325701619);
        assert(quarter_sine_spec(141) == 7745030601);
    }     else if k == 110 {
        assert(quarter_sine_spec(110) == 6374239897);
        assert(quarter_sine_spec(140) == 7705132427);
    }     else if k == 111 {
        assert(quarter_sine_spec(111) == 6422526531);
        assert(quarter_sine_spec(139) == 7664930068);
    }     else if k == 112 {
        assert(quarter_sine_spec(112) == 6470559615);
        assert(quarter_sine_spec(138) == 7624425110);
    }     else if k == 113 {
        assert(quarter_sine_spec(113) == 6518337253);
        assert(quarter_sine_spec(137) == 7583619152);
    }     else if k == 114 {
        assert(quarter_sine_spec(114) == 6565857557);
        assert(quarter_sine_spec(136) == 7542513807);
    }     else if k == 115 {
        assert(quarter_sine_spec(115) == 6613118653);
        assert(quarter_sine_spec(135) == 7501110696);
    }     else if k == 116 {
        assert(quarter_sine_spec(116) == 6660118674);
        assert(quarter_sine_spec(134) == 7459411454);
    }     else if k == 117 {
        assert(quarter_sine_spec(117) == 6706855765);
        assert(quarter_sine_spec(133) == 7417417727);
    }     else if k == 118 {
        assert(quarter_sine_spec(118) == 6753328081);
        assert(quarter_sine_spec(132) == 7375131173);
    }     else if k == 119 {
        assert(quarter_sine_spec(119) == 6799533787);
        assert(quarter_sine_spec(131) == 7332553462);
    }     else if k == 120 {
        assert(quarter_sine_spec(120) == 6845471059);
        assert(quarter_sine_spec(130) == 7289686274);
    }     else if k == 121 {
        assert(quarter_sine_spec(121) == 6891138083);
        assert(quarter_sine_spec(129) == 7246531301);
    }     else if k == 122 {
        assert(quarter_sine_spec(122) == 6936533058);
        assert(quarter_sine_spec(128) == 7203090248);
    }     else if k == 123 {
        assert(quarter_sine_spec(123) == 6981654189);
        assert(quarter_sine_spec(127) == 7159364830);
    }     else if k == 124 {
        assert(quarter_sine_spec(124) == 7026499697);
        assert(quarter_sine_spec(126) == 7115356772);
    }
}

#[verifier::spinoff_prover]
proof fn lemma_quarter_pair_125(k: int)
    requires
        125 <= k < 150,
    ensures
        9_999_999_998 * 9_999_999_998 <= quarter_sine_spec(k) * quarter_sine_spec(k) + quarter_sine_spec(250 - k)
            * quarter_sine_spec(250 - k) <= 10_000_000_000 * 10_000_000_000,
{
    reveal(quarter_sine_spec);
    if k == 125 {
        assert(quarter_sine_spec(125) == 7071067811);
        assert(quarter_sine_spec(125) == 7071067811);
    }     else if k == 126 {
        assert(quarter_sine_spec(126) == 7115356772);
        assert(quarter_sine_spec(124) == 7026499697);
    }     else if k == 127 {
        assert(quarter_sine_spec(127) == 7159364830);
        assert(quarter_sine_spec(123) == 6981654189);
    }     else if k == 128 {
        assert(quarter_sine_spec(128) == 7203090248);
        assert(quarter_sine_spec(122) == 6936533058);
    }     else if k == 129 {
        assert(quarter_sine_spec(129) == 7246531301);
        assert(quarter_sine_spec(121) == 6891138083);
    }     else if k == 130 {
        assert(quarter_sine_spec(130) == 7289686274);
        assert(quarter_sine_spec(120) == 6845471059);
    }     else if k == 131 {
        assert(quarter_sine_spec(131) == 7332553462);
        assert(quarter_sine_spec(119) == 6799533787);
    }     else if k == 132 {
        assert(quarter_sine_spec(132) == 7375131173);
        assert(quarter_sine_spec(118) == 6753328081);
    }     else if k == 133 {
        assert(quarter_sine_spec(133) == 7417417727);
        assert(quarter_sine_spec(117) == 6706855765);
    }     else if k == 134 {
        assert(quarter_sine_spec(134) == 7459411454);
        assert(quarter_sine_spec(116) == 6660118674);
    }     else if k == 135 {
        assert(quarter_sine_spec(135) == 7501110696);
        assert(quarter_sine_spec(115) == 6613118653);
    }     else if k == 136 {
        assert(quarter_sine_spec(136) == 7542513807);
        assert(quarter_sine_spec(114) == 6565857557);
    }     else if k == 137 {
        assert(quarter_sine_spec(137) == 7583619152);
        assert(quarter_sine_spec(113) == 6518337253);
    }     else if k == 138 {
        assert(quarter_sine_spec(138) == 7624425110);
        assert(quarter_sine_spec(112) == 6470559615);
    }     else if k == 139 {
        assert(quarter_sine_spec(139) == 7664930068);
        assert(quarter_sine_spec(111) == 6422526531);
    }     else if k == 140 {
        assert(quarter_sine_spec(140) == 7705132427);
        assert(quarter_sine_spec(110) == 6374239897);
    }     else if k == 141 {
        assert(quarter_sine_spec(141) == 7745030601);
        assert(quarter_sine_spec(109) == 6325701619);
    }     else if k == 142 {
        assert(quarter_sine_spec(142) == 7784623015);
        assert(quarter_sine_spec(108) == 6276913612);
    }     else if k == 143 {
        assert(quarter_sine_spec(143) == 7823908105);
        assert(quarter_sine_spec(107) == 6227877804);
    }     else if k == 144 {
        assert(quarter_sine_spec(144) == 7862884321);
        assert(quarter_sine_spec(106) == 6178596130);
    }     else if k == 145 {
        assert(quarter_sine_spec(145) == 7901550123);
        assert(quarter_sine_spec(105) == 6129070536);
    }     else if k == 146 {
        assert(quarter_sine_spec(146) == 7939903986);
        assert(quarter_sine_spec(104) == 6079302976);
    }     else if k == 147 {
        assert(quarter_sine_spec(147) == 7977944395);
        assert(quarter_sine_spec(103) == 6029295416);
    }     else if k == 148 {
        assert(quarter_sine_spec(148) == 8015669848);
        assert(quarter_sine_spec(102) == 5979049830);
    }     else if k == 149 {
        assert(quarter_sine_spec(149) == 8053078857);
        assert(quarter_sine_spec(101) == 5928568201);
    }
}

#[verifier::spinoff_prover]
proof fn lemma_quarter_pair_150(k: int)
    requires
        150 <= k < 175,
    ensures
        9_999_999_998 * 9_999_999_998 <= quarter_sine_spec(k) * quarter_sine_spec(k) + quarter_sine_spec(250 - k)
            * quarter_sine_spec(250 - k) <= 10_000_000_000 * 10_000_000_000,
{
    reveal(quarter_sine_spec);
    if k == 150 {
        assert(quarter_sine_spec(150) == 8090169943);
        assert(quarter_sine_spec(100) == 5877852522);
    }     else if k == 151 {
        assert(quarter_sine_spec(151) == 8126941644);
        assert(quarter_sine_spec(99) == 5826904796);
    }     else if k == 152 {
        assert(quarter_sine_spec(152) == 8163392507);
        assert(quarter_sine_spec(98) == 5775727034);
    }     else if k == 153 {
        assert(quarter_sine_spec(153) == 8199521093);
        assert(quarter_sine_spec(97) == 5724321255);
    }     else if k == 154 {
        assert(quarter_sine_spec(154) == 8235325976);
        assert(quarter_sine_spec(96) == 5672689491);
    }     else if k == 155 {
        assert(quarter_sine_spec(155) == 8270805742);
        assert(quarter_sine_spec(95) == 5620833778);
    }     else if k == 156 {
        assert(quarter_sine_spec(156) == 8305958991);
        assert(quarter_sine_spec(94) == 5568756164);
    }     else if k == 157 {
        assert(quarter_sine_spec(157) == 8340784336);
        assert(quarter_sine_spec(93) == 5516458706);
    }     else if k == 158 {
        assert(quarter_sine_spec(158) == 8375280400);
        assert(quarter_sine_spec(92) == 5463943467);
    }     else if k == 159 {
        assert(quarter_sine_spec(159) == 8409445822);
        assert(quarter_sine_spec(91) == 5411212521);
    }     else if k == 160 {
        assert(quarter_sine_spec(160) == 8443279255);
        assert(quarter_sine_spec(90) == 5358267949);
    }     else if k == 161 {
        assert(quarter_sine_spec(161) == 8476779360);
        assert(quarter_sine_spec(89) == 5305111843);
    }     else if k == 162 {
        assert(quarter_sine_spec(162) == 8509944817);
        assert(quarter_sine_spec(88) == 5251746299);
    }     else if k == 163 {
        assert(quarter_sine_spec(163) == 8542774316);
        assert(quarter_sine_spec(87) == 5198173426);
    }     else if k == 164 {
        assert(quarter_sine_spec(164) == 8575266561);
        assert(quarter_sine_spec(86) == 5144395337);
    }     else if k == 165 {
        assert(quarter_sine_spec(165) == 8607420270);
        assert(quarter_sine_spec(85) == 5090414157);
    }     else if k == 166 {
        assert(quarter_sine_spec(166) == 8639234171);
        assert(quarter_sine_spec(84) == 5036232016);
    }     else if k == 167 {
        assert(quarter_sine_spec(167) == 8670707011);
        assert(quarter_sine_spec(83) == 4981851053);
    }     else if k == 168 {
        assert(quarter_sine_spec(168) == 8701837546);
        assert(quarter_sine_spec(82) == 4927273415);
    }     else if k == 169 {
        assert(quarter_sine_spec(169) == 8732624548);
        assert(quarter_sine_spec(81) == 4872501257);
    }     else if k == 170 {
        assert(quarter_sine_spec(170) == 8763066800);
        assert(quarter_sine_spec(80) == 4817536741);
    }     else if k == 171 {
        assert(quarter_sine_spec(171) == 8793163101);
        assert(quarter_sine_spec(79) == 4762382036);
    }     else if k == 172 {
        assert(quarter_sine_spec(172) == 8822912264);
        assert(quarter_sine_spec(78) == 4707039321);
    }     else if k == 173 {
        assert(quarter_sine_spec(173) == 8852313113);
        assert(quarter_sine_spec(77) == 4651510780);
    }     else if k == 174 {
        assert(quarter_sine_spec(174) == 8881364488);
        assert(quarter_sine_spec(76) == 4595798606);
    }
}

#[verifier::spinoff_prover]
proof fn lemma_quarter_pair_175(k: int)
    requires
        175 <= k < 200,
    ensures
        9_999_999_998 * 9_999_999_998 <= quarter_sine_spec(k) * quarter_sine_spec(k) + quarter_sine_spec(250 - k)
            * quarter_sine_spec(250 - k) <= 10_000_000_000 * 10_000_000_000,
{
    reveal(quarter_sine_spec);
    if k == 175 {
        assert(quarter_sine_spec(175) == 8910065241);
        assert(quarter_sine_spec(75) == 4539904997);
    }     else if k == 176 {
        assert(quarter_sine_spec(176) == 8938414241);
        assert(quarter_sine_spec(74) == 4483832160);
    }     else if k == 177 {
        assert(quarter_sine_spec(177) == 8966410367);
        assert(quarter_sine_spec(73) == 4427582310);
    }     else if k == 178 {
        assert(quarter_sine_spec(178) == 8994052515);
        assert(quarter_sine_spec(72) == 4371157666);
    }     else if k == 179 {
        assert(quarter_sine_spec(179) == 9021339593);
        assert(quarter_sine_spec(71) == 4314560456);
    }     else if k == 180 {
        assert(quarter_sine_spec(180) == 9048270524);
        assert(quarter_sine_spec(70) == 4257792915);
    }     else if k == 181 {
        assert(quarter_sine_spec(181) == 9074844245);
        assert(quarter_sine_spec(69) == 4200857284);
    }     else if k == 182 {
        assert(quarter_sine_spec(182) == 9101059706);
        assert(quarter_sine_spec(68) == 4143755809);
    }     else if k == 183 {
        assert(quarter_sine_spec(183) == 9126915874);
        assert(quarter_sine_spec(67) == 4086490747);
    }     else if k == 184 {
        assert(quarter_sine_spec(184) == 9152411726);
        assert(quarter_sine_spec(66) == 4029064357);
    }     else if k == 185 {
        assert(quarter_sine_spec(185) == 9177546256);
        assert(quarter_sine_spec(65) == 3971478906);
    }     else if k == 186 {
        assert(quarter_sine_spec(186) == 9202318473);
        assert(quarter_sine_spec(64) == 3913736668);
    }     else if k == 187 {
        assert(quarter_sine_spec(187) == 9226727398);
        assert(quarter_sine_spec(63) == 3855839922);
    }     else if k == 188 {
        assert(quarter_sine_spec(188) == 9250772068);
        assert(quarter_sine_spec(62) == 3797790955);
    }     else if k == 189 {
        assert(quarter_sine_spec(189) == 9274451533);
        assert(quarter_sine_spec(61) == 3739592057);
    }     else if k == 190 {
        assert(quarter_sine_spec(190) == 9297764858);
        assert(quarter_sine_spec(60) == 3681245526);
    }     else if k == 191 {
        assert(quarter_sine_spec(191) == 9320711124);
        assert(quarter_sine_spec(59) == 3622753667);
    }     else if k == 192 {
        assert(quarter_sine_spec(192) == 9343289424);
        assert(quarter_sine_spec(58) == 3564118787);
    }     else if k == 193 {
        assert(quarter_sine_spec(193) == 9365498867);
        assert(quarter_sine_spec(57) == 3505343201);
    }     else if k == 194 {
        assert(quarter_sine_spec(194) == 9387338576);
        assert(quarter_sine_spec(56) == 3446429231);
    }     else if k == 195 {
        assert(quarter_sine_spec(195) == 9408807689);
        assert(quarter_sine_spec(55) == 3387379202);
    }     else if k == 196 {
        assert(quarter_sine_spec(196) == 9429905358);
        assert(quarter_sine_spec(54) == 3328195445);
    }     else if k == 197 {
        assert(quarter_sine_spec(197) == 9450630751);
        assert(quarter_sine_spec(53) == 3268880296);
    }     else if k == 198 {
        assert(quarter_sine_spec(198) == 9470983049);
        assert(quarter_sine_spec(52) == 3209436098);
    }     else if k == 199 {
        assert(quarter_sine_spec(199) == 9490961449);
        assert(quarter_sine_spec(51) == 3149865196);
    }
}

#[verifier::spinoff_prover]
proof fn lemma_quarter_pair_200(k: int)
    requires
        200 <= k < 225,
    ensures
        9_999_999_998 * 9_999_999_998 <= quarter_sine_spec(k) * quarter_sine_spec(k) + quarter_sine_spec(250 - k)
            * quarter_sine_spec(250 - k) <= 10_000_000_000 * 10_000_000_000,
{
    reveal(quarter_sine_spec);
    if k == 200 {
        assert(quarter_sine_spec(200) == 9510565162);
        assert(quarter_sine_spec(50) == 3090169943);
    }     else if k == 201 {
        assert(quarter_sine_spec(201) == 9529793415);
        assert(quarter_sine_spec(49) == 3030352696);
    }     else if k == 202 {
        assert(quarter_sine_spec(202) == 9548645447);
        assert(quarter_sine_spec(48) == 2970415815);
    }     else if k == 203 {
        assert(quarter_sine_spec(203) == 9567120515);
        assert(quarter_sine_spec(47) == 2910361668);
    }     else if k == 204 {
        assert(quarter_sine_spec(204) == 9585217890);
        assert(quarter_sine_spec(46) == 2850192624);
    }     else if k == 205 {
        assert(quarter_sine_spec(205) == 9602936856);
        assert(quarter_sine_spec(45) == 2789911060);
    }     else if k == 206 {
        assert(quarter_sine_spec(206) == 9620276715);
        assert(quarter_sine_spec(44) == 2729519355);
    }     else if k == 207 {
        assert(quarter_sine_spec(207) == 9637236782);
        assert(quarter_sine_spec(43) == 2669019893);
    }     else if k == 208 {
        assert(quarter_sine_spec(208) == 9653816388);
        assert(quarter_sine_spec(42) == 2608415062);
    }     else if k == 209 {
        assert(quarter_sine_spec(209) == 9670014877);
        assert(quarter_sine_spec(41) == 2547707256);
    }     else if k == 210 {
        assert(quarter_sine_spec(210) == 9685831611);
        assert(quarter_sine_spec(40) == 2486898871);
    }     else if k == 211 {
        assert(quarter_sine_spec(211) == 9701265964);
        assert(quarter_sine_spec(39) == 2425992307);
    }     else if k == 212 {
        assert(quarter_sine_spec(212) == 9716317329);
        assert(quarter_sine_spec(38) == 2364989970);
    }     else if k == 213 {
        assert(quarter_sine_spec(213) == 9730985109);
        assert(quarter_sine_spec(37) == 2303894266);
    }     else if k == 214 {
        assert(quarter_sine_spec(214) == 9745268727);
        assert(quarter_sine_spec(36) == 2242707609);
    }     else if k == 215 {
        assert(quarter_sine_spec(215) == 9759167619);
        assert(quarter_sine_spec(35) == 2181432413);
    }     else if k == 216 {
        assert(quarter_sine_spec(216) == 9772681235);
        assert(quarter_sine_spec(34) == 2120071099);
    }     else if k == 217 {
        assert(quarter_sine_spec(217) == 9785809043);
        assert(quarter_sine_spec(33) == 2058626087);
    }     else if k == 218 {
        assert(quarter_sine_spec(218) == 9798550523);
        assert(quarter_sine_spec(32) == 1997099805);
    }     else if k == 219 {
        assert(quarter_sine_spec(219) == 9810905174);
        assert(quarter_sine_spec(31) == 1935494680);
    }     else if k == 220 {
        assert(quarter_sine_spec(220) == 9822872507);
        assert(quarter_sine_spec(30) == 1873813145);
    }     else if k == 221 {
        assert(quarter_sine_spec(221) == 9834452049);
        assert(quarter_sine_spec(29) == 1812057636);
    }     else if k == 222 {
        assert(quarter_sine_spec(222) == 9845643345);
        assert(quarter_sine_spec(28) == 1750230589);
    }     else if k == 223 {
        assert(quarter_sine_spec(223) == 9856445951);
        assert(quarter_sine_spec(27) == 1688334447);
    }     else if k == 224 {
        assert(quarter_sine_spec(224) == 9866859442);
        assert(quarter_sine_spec(26) == 1626371651);
    }
}

#[verifier::spinoff_prover]
proof fn lemma_quarter_pair_225(k: int)
    requires
        225 <= k < 250,
    ensures
        9_999_999_998 * 9_999_999_998 <= quarter_sine_spec(k) * quarter_sine_spec(k) + quarter_sine_spec(250 - k)
            * quarter_sine_spec(250 - k) <= 10_000_000_000 * 10_000_000_000,
{
    reveal(quarter_sine_spec);
    if k == 225 {
        assert(quarter_sine_spec(225) == 9876883405);
        assert(quarter_sine_spec(25) == 1564344650);
    }     else if k == 226 {
        assert(quarter_sine_spec(226) == 9886517447);
        assert(quarter_sine_spec(24) == 1502255891);
    }     else if k == 227 {
        assert(quarter_sine_spec(227) == 9895761186);
        assert(quarter_sine_spec(23) == 1440107825);
    }     else if k == 228 {
        assert(quarter_sine_spec(228) == 9904614256);
        assert(quarter_sine_spec(22) == 1377902906);
    }     else if k == 229 {
        assert(quarter_sine_spec(229) == 9913076310);
        assert(quarter_sine_spec(21) == 1315643590);
    }     else if k == 230 {
        assert(quarter_sine_spec(230) == 9921147013);
        assert(quarter_sine_spec(20) == 1253332335);
    }     else if k == 231 {
        assert(quarter_sine_spec(231) == 9928826045);
        assert(quarter_sine_spec(19) == 1190971600);
    }     else if k == 232 {
        assert(quarter_sine_spec(232) == 9936113105);
        assert(quarter_sine_spec(18) == 1128563848);
    }     else if k == 233 {
        assert(quarter_sine_spec(233) == 9943007903);
        assert(quarter_sine_spec(17) == 1066111542);
    }     else if k == 234 {
        assert(quarter_sine_spec(234) == 9949510169);
        assert(quarter_sine_spec(16) == 1003617148);
    }     else if k == 235 {
        assert(quarter_sine_spec(235) == 9955619646);
        assert(quarter_sine_spec(15) == 941083133);
    }     else if k == 236 {
        assert(quarter_sine_spec(236) == 9961336091);
        assert(quarter_sine_spec(14) == 878511965);
    }     else if k == 237 {
        assert(quarter_sine_spec(237) == 9966659280);
        assert(quarter_sine_spec(13) == 815906115);
    }     else if k == 238 {
        assert(quarter_sine_spec(238) == 9971589002);
        assert(quarter_sine_spec(12) == 753268055);
    }     else if k == 239 {
        assert(quarter_sine_spec(239) == 9976125063);
        assert(quarter_sine_spec(11) == 690600257);
    }     else if k == 240 {
        assert(quarter_sine_spec(240) == 9980267284);
        assert(quarter_sine_spec(10) == 627905195);
    }     else if k == 241 {
        assert(quarter_sine_spec(241) == 9984015501);
        assert(quarter_sine_spec(9) == 565185344);
    }     else if k == 242 {
        assert(quarter_sine_spec(242) == 9987369566);
        assert(quarter_sine_spec(8) == 502443181);
    }     else if k == 243 {
        assert(quarter_sine_spec(243) == 9990329346);
        assert(quarter_sine_spec(7) == 439681183);
    }     else if k == 244 {
        assert(quarter_sine_spec(244) == 9992894726);
        assert(quarter_sine_spec(6) == 376901826);
    }     else if k == 245 {
        assert(quarter_sine_spec(245) == 9995065603);
        assert(quarter_sine_spec(5) == 314107590);
    }     else if k == 246 {
        assert(quarter_sine_spec(246) == 9996841892);
        assert(quarter_sine_spec(4) == 251300954);
    }     else if k == 247 {
        assert(quarter_sine_spec(247) == 9998223523);
        assert(quarter_sine_spec(3) == 188484397);
    }     else if k == 248 {
        assert(quarter_sine_spec(248) == 9999210442);
        assert(quarter_sine_spec(2) == 125660398);
    }     else if k == 249 {
        assert(quarter_sine_spec(249) == 9999802608);
        assert(quarter_sine_spec(1) == 62831439);
    }
}

#[verifier::spinoff_prover]
proof fn lemma_quarter_pair_250(k: int)
    requires
        250 <= k < 251,
    ensures
        9_999_999_998 * 9_999_999_998 <= quarter_sine_spec(k) * quarter_sine_spec(k) + quarter_sine_spec(250 - k)
            * quarter_sine_spec(250 - k) <= 10_000_000_000 * 10_000_000_000,
{
    reveal(quarter_sine_spec);
    if k == 250 {
        assert(quarter_sine_spec(250) == 10000000000);
        assert(quarter_sine_spec(0) == 0);
    }
}

proof fn lemma_sine_bounded(angle: int)
    ensures
        -10_000_000_000 <= sine_spec(angle) <= 10_000_000_000,
        angle % 1000 < 500 ==> sine_spec(angle) >= 0,
        angle % 1000 >= 500 ==> sine_spec(angle) <= 0,
{
    let m = angle % 1000;
    lemma_quarter_sine_range(m);
    lemma_quarter_sine_range(500 - m);
    lemma_quarter_sine_range(m - 500);
    lemma_quarter_sine_range(1000 - m);
}

/// The sine and cosine of an angle lie on the unit circle up to rounding.
proof fn lemma_unit_circle(angle: int)
    ensures
        9_999_999_998 * 9_999_999_998 <= sine_spec(angle) * sine_spec(angle) + cosine_spec(angle) * cosine_spec(angle)
            <= 10_000_000_000 * 10_000_000_000,
{
    let m = angle % 1000;
    let m2 = (angle + 250) % 1000;
    let k = if m <= 250 {
        m
    } else if m < 500 {
        500 - m
    } else if m <= 750 {
        m - 500
    } else {
        1000 - m
    };
    assert(m2 == (m + 250) % 1000);
    lemma_quarter_pair(k);
    let q1 = quarter_sine_spec(k);
    let q2 = quarter_sine_spec(250 - k);
    let sn = sine_spec(angle);
    let cs = cosine_spec(angle);
    assert(sn == q1 || sn == -q1);
    if m < 250 {
        assert(m2 == m + 250 && 250 <= m2 < 500);
        if m == 0 {
            assert(cs == quarter_sine_spec(250));
        } else {
            assert(cs == quarter_sine_spec(500 - m2));
        }
    } else if m < 500 {
        assert(m2 == m + 250 && 500 <= m2 < 750);
        assert(cs == -quarter_sine_spec(m2 - 500));
    } else if m < 750 {
        assert(m2 == m + 250 && 750 <= m2 < 1000);
        if m == 500 {
            assert(cs == -quarter_sine_spec(250));
        } else {
            assert(cs == -quarter_sine_spec(1000 - m2));
        }
    } else {
        assert(m2 == m - 750 && 0 <= m2 < 250);
        assert(cs == quarter_sine_spec(m2));
    }
    assert(cs == q2 || cs == -q2);
    assert(sn * sn == q1 * q1) by (nonlinear_arith)
        requires sn == q1 || sn == -q1;
    assert(cs * cs == q2 * q2) by (nonlinear_arith)
        requires cs == q2 || cs == -q2;
}

proof fn lemma_scale_bounded(radius: int, c: int)
    requires
        0 <= radius,
        -10_000_000_000 <= c <= 10_000_000_000,
    ensures
        -radius <= scale_spec(radius, c) <= radius,
        c >= 0 ==> scale_spec(radius, c) >= 0,
        c <= 0 ==> scale_spec(radius, c) <= 0,
{
    let m = if c < 0 { -c } else { c };
    assert(radius * m / 10_000_000_000 <= radius) by (nonlinear_arith)
        requires 0 <= m <= 10_000_000_000, 0 <= radius;
    assert(radius * m / 10_000_000_000 >= 0) by (nonlinear_arith)
        requires 0 <= m, 0 <= radius;
    assert(radius * 0 == 0);
}

/// `floor(r * a / UNIT)` squared is at most `(r * a / UNIT)` squared, and
/// its successor squared exceeds it.
proof fn lemma_floor_square(r: int, a: int, q: int)
    requires
        0 <= r,
        0 <= a,
        q == r * a / 10_000_000_000,
    ensures
        0 <= q,
        q * q * (10_000_000_000 * 10_000_000_000) <= (r * a) * (r * a),
        (r * a) * (r * a) < (q + 1) * (q + 1) * (10_000_000_000 * 10_000_000_000),
{
    let u: int = 10_000_000_000;
    assert(0 <= r * a) by (nonlinear_arith)
        requires 0 <= r, 0 <= a;
    assert(q * u <= r * a && r * a < (q + 1) * u && 0 <= q);
    assert(q * q * (u * u) <= (r * a) * (r * a)) by (nonlinear_arith)
        requires 0 <= q * u, q * u <= r * a, u > 0;
    assert((r * a) * (r * a) < (q + 1) * (q + 1) * (u * u)) by (nonlinear_arith)
        requires 0 <= r * a, r * a < (q + 1) * u, u > 0, q >= 0;
}

/// The point at `radius` lies within the disc of that radius, and, for a
/// radius of at least 3, outside the disc of radius `radius - 3`.
pub proof fn lemma_cartesian_in_disc(radius: int, angle: int)
    requires
        0 <= radius <= 4294967295,
    ensures
        cartesian_spec(radius, angle).x * cartesian_spec(radius, angle).x + cartesian_spec(radius, angle).y
            * cartesian_spec(radius, angle).y <= radius * radius,
        radius >= 3 ==> (radius - 3) * (radius - 3) <= cartesian_spec(radius, angle).x * cartesian_spec(radius, angle).x
            + cartesian_spec(radius, angle).y * cartesian_spec(radius, angle).y,
{
    let u: int = 10_000_000_000;
    let c = cosine_spec(angle);
    let s = sine_spec(angle);
    lemma_unit_circle(angle);
    lemma_sine_bounded(angle);
    lemma_sine_bounded(angle + 250);
    lemma_scale_bounded(radius, c);
    lemma_scale_bounded(radius, s);
    let a = if c < 0 { -c } else { c };
    let b = if s < 0 { -s } else { s };
    assert(a * a == c * c) by (nonlinear_arith)
        requires a == c || a == -c;
    assert(b * b == s * s) by (nonlinear_arith)
        requires b == s || b == -s;
    let xq = radius * a / u;
    let yq = radius * b / u;
    lemma_floor_square(radius, a, xq);
    lemma_floor_square(radius, b, yq);
    let p = cartesian_spec(radius, angle);
    assert(p.x * p.x == xq * xq) by (nonlinear_arith)
        requires p.x == xq || p.x == -xq;
    assert(p.y * p.y == yq * yq) by (nonlinear_arith)
        requires p.y == yq || p.y == -yq;
    let n = a * a + b * b;
    assert((radius * a) * (radius * a) + (radius * b) * (radius * b) == radius * radius * n) by (nonlinear_arith)
        requires n == a * a + b * b;
    assert(radius * radius * n <= radius * radius * (u * u)) by (nonlinear_arith)
        requires n <= u * u, u > 0;
    assert(xq * xq + yq * yq <= radius * radius) by (nonlinear_arith)
        requires
            xq * xq * (u * u) + yq * yq * (u * u) <= radius * radius * (u * u),
            u > 0;
    if radius >= 3 {
        let m = radius - 3;
        assert(radius * radius * n >= (radius - 1) * (radius - 1) * (u * u)) by (nonlinear_arith)
            requires
                n >= (u - 2) * (u - 2),
                radius >= 3,
                2 * radius <= u,
                u > 0;
        assert((xq + 1) * (xq + 1) + (yq + 1) * (yq + 1) > (radius - 1) * (radius - 1)) by (nonlinear_arith)
            requires
                radius * radius * n < (xq + 1) * (xq + 1) * (u * u) + (yq + 1) * (yq + 1) * (u * u),
                radius * radius * n >= (radius - 1) * (radius - 1) * (u * u),
                u > 0;
        if xq * xq + yq * yq < m * m {
            assert((xq + yq) * (xq + yq) <= 2 * (xq * xq + yq * yq)) by (nonlinear_arith);
            assert(xq + yq < 2 * m) by (nonlinear_arith)
                requires
                    (xq + yq) * (xq + yq) < 4 * (m * m),
                    xq >= 0,
                    yq >= 0,
                    m >= 0;
            assert((xq + 1) * (xq + 1) + (yq + 1) * (yq + 1) <= (radius - 1) * (radius - 1)) by (nonlinear_arith)
                requires
                    xq * xq + yq * yq < m * m,
                    xq + yq < 2 * m,
                    m == radius - 3;
        }
    }
}

} // verus!
