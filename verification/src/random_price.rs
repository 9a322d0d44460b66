//! Monte-Carlo price-path generator.
//!
//! Each month one entry is drawn uniformly, with replacement, from a
//! fixed table of historical monthly percentage changes of the BTC/USD
//! price, and compounded onto a running price. Prices are held in USD
//! cents; changes are held in basis points, so an entry of `954` stands
//! for a rise of 9.54 percent. A price update rounds up, so a positive
//! price stays positive, and saturates at `u64::MAX` instead of leaving
//! the range.

use vstd::prelude::*;
use vstd::arithmetic::div_mod::lemma_div_is_ordered;
use vstd::arithmetic::mul::{lemma_mul_strictly_positive, lemma_mul_upper_bound};
use crate::BPS_PER_UNIT;

verus! {

/// Number of entries in the historical monthly-change table.
pub const HISTORICAL_CHANGE_COUNT: usize = 167;

/// The historical monthly percentage change, in basis points, at the
/// given position of the table; zero outside the table.
pub open spec fn spec_change_at(i: int) -> int {
    if i == 0 { 954int } else
    if i == 1 { -1750int } else
    if i == 2 { -307int } else
    if i == 3 { 87int } else
    if i == 4 { 4400int } else
    if i == 5 { 1630int } else
    if i == 6 { -1470int } else
    if i == 7 { 1110int } else
    if i == 8 { -702int } else
    if i == 9 { 309int } else
    if i == 10 { -873int } else
    if i == 11 { 711int } else
    if i == 12 { 1120int } else
    if i == 13 { 3740int } else
    if i == 14 { -319int } else
    if i == 15 { 3990int } else
    if i == 16 { -1int } else
    if i == 17 { 2310int } else
    if i == 18 { 305int } else
    if i == 19 { -710int } else
    if i == 20 { 1190int } else
    if i == 21 { -404int } else
    if i == 22 { -1120int } else
    if i == 23 { 399int } else
    if i == 24 { 2850int } else
    if i == 25 { 887int } else
    if i == 26 { 1190int } else
    if i == 27 { -1690int } else
    if i == 28 { 1220int } else
    if i == 29 { 551int } else
    if i == 30 { -1720int } else
    if i == 31 { -1590int } else
    if i == 32 { -3790int } else
    if i == 33 { 1770int } else
    if i == 34 { -1400int } else
    if i == 35 { -310int } else
    if i == 36 { 555int } else
    if i == 37 { -1610int } else
    if i == 38 { -370int } else
    if i == 39 { 1430int } else
    if i == 40 { 3600int } else
    if i == 41 { 3010int } else
    if i == 42 { -189int } else
    if i == 43 { -3540int } else
    if i == 44 { -638int } else
    if i == 45 { 1970int } else
    if i == 46 { 1400int } else
    if i == 47 { -730int } else
    if i == 48 { 4000int } else
    if i == 49 { -712int } else
    if i == 50 { -1890int } else
    if i == 51 { 2960int } else
    if i == 52 { 821int } else
    if i == 53 { -2490int } else
    if i == 54 { 3410int } else
    if i == 55 { 952int } else
    if i == 56 { -315int } else
    if i == 57 { 2420int } else
    if i == 58 { 254int } else
    if i == 59 { -796int } else
    if i == 60 { 2810int } else
    if i == 61 { 4290int } else
    if i == 62 { 4780int } else
    if i == 63 { -796int } else
    if i == 64 { 1090int } else
    if i == 65 { 613int } else
    if i == 66 { 3240int } else
    if i == 67 { 5850int } else
    if i == 68 { 2710int } else
    if i == 69 { -688int } else
    if i == 70 { -466int } else
    if i == 71 { -1400int } else
    if i == 72 { 1050int } else
    if i == 73 { -1740int } else
    if i == 74 { -474int } else
    if i == 75 { -2810int } else
    if i == 76 { 564int } else
    if i == 77 { -3510int } else
    if i == 78 { 3440int } else
    if i == 79 { -1870int } else
    if i == 80 { -1540int } else
    if i == 81 { 2110int } else
    if i == 82 { -928int } else
    if i == 83 { -577int } else
    if i == 84 { -467int } else
    if i == 85 { -3640int } else
    if i == 86 { -640int } else
    if i == 87 { 70int } else
    if i == 88 { 2150int } else
    if i == 89 { -917int } else
    if i == 90 { 2580int } else
    if i == 91 { 6960int } else
    if i == 92 { 841int } else
    if i == 93 { 1540int } else
    if i == 94 { 6380int } else
    if i == 95 { -772int } else
    if i == 96 { 4900int } else
    if i == 97 { 5890int } else
    if i == 98 { 3880int } else
    if i == 99 { -1440int } else
    if i == 100 { 1850int } else
    if i == 101 { -484int } else
    if i == 102 { 757int } else
    if i == 103 { 1850int } else
    if i == 104 { 2680int } else
    if i == 105 { -711int } else
    if i == 106 { -787int } else
    if i == 107 { 594int } else
    if i == 108 { 1490int } else
    if i == 109 { 632int } else
    if i == 110 { 2920int } else
    if i == 111 { -3210int } else
    if i == 112 { 1720int } else
    if i == 113 { -396int } else
    if i == 114 { -331int } else
    if i == 115 { -244int } else
    if i == 116 { 1430int } else
    if i == 117 { 809int } else
    if i == 118 { -1920int } else
    if i == 119 { 252int } else
    if i == 120 { 3310int } else
    if i == 121 { 1980int } else
    if i == 122 { 1410int } else
    if i == 123 { 993int } else
    if i == 124 { -3370int } else
    if i == 125 { -1690int } else
    if i == 126 { -205int } else
    if i == 127 { 3930int } else
    if i == 128 { 258int } else
    if i == 129 { -860int } else
    if i == 130 { -1850int } else
    if i == 131 { -1900int } else
    if i == 132 { -1270int } else
    if i == 133 { 1160int } else
    if i == 134 { -1530int } else
    if i == 135 { 4990int } else
    if i == 136 { 5490int } else
    if i == 137 { 5050int } else
    if i == 138 { -719int } else
    if i == 139 { -2500int } else
    if i == 140 { 880int } else
    if i == 141 { 2740int } else
    if i == 142 { -158int } else
    if i == 143 { 5380int } else
    if i == 144 { -3320int } else
    if i == 145 { 1750int } else
    if i == 146 { -1170int } else
    if i == 147 { -24int } else
    if i == 148 { 307int } else
    if i == 149 { 291int } else
    if i == 150 { 2920int } else
    if i == 151 { 4020int } else
    if i == 152 { 1480int } else
    if i == 153 { 1310int } else
    if i == 154 { -996int } else
    if i == 155 { 1520int } else
    if i == 156 { 656int } else
    if i == 157 { 7370int } else
    if i == 158 { 6520int } else
    if i == 159 { -861int } else
    if i == 160 { 33460int } else
    if i == 161 { 8530int } else
    if i == 162 { -1590int } else
    if i == 163 { -3230int } else
    if i == 164 { -4440int } else
    if i == 165 { -3510int } else
    if i == 166 { -1150int } else { 0int }
}

/// The table entry at position `i`.
///
/// Every entry lies strictly between minus one hundred percent and
/// plus `i32::MAX` basis points, so one compounding step keeps a
/// positive price positive.
pub fn historical_change_bps(i: usize) -> (r: i32)
    requires
        i < HISTORICAL_CHANGE_COUNT,
    ensures
        r as int == spec_change_at(i as int),
        -(BPS_PER_UNIT as int) < r as int,
{
    match i {
        0 => 954,
        1 => -1750,
        2 => -307,
        3 => 87,
        4 => 4400,
        5 => 1630,
        6 => -1470,
        7 => 1110,
        8 => -702,
        9 => 309,
        10 => -873,
        11 => 711,
        12 => 1120,
        13 => 3740,
        14 => -319,
        15 => 3990,
        16 => -1,
        17 => 2310,
        18 => 305,
        19 => -710,
        20 => 1190,
        21 => -404,
        22 => -1120,
        23 => 399,
        24 => 2850,
        25 => 887,
        26 => 1190,
        27 => -1690,
        28 => 1220,
        29 => 551,
        30 => -1720,
        31 => -1590,
        32 => -3790,
        33 => 1770,
        34 => -1400,
        35 => -310,
        36 => 555,
        37 => -1610,
        38 => -370,
        39 => 1430,
        40 => 3600,
        41 => 3010,
        42 => -189,
        43 => -3540,
        44 => -638,
        45 => 1970,
        46 => 1400,
        47 => -730,
        48 => 4000,
        49 => -712,
        50 => -1890,
        51 => 2960,
        52 => 821,
        53 => -2490,
        54 => 3410,
        55 => 952,
        56 => -315,
        57 => 2420,
        58 => 254,
        59 => -796,
        60 => 2810,
        61 => 4290,
        62 => 4780,
        63 => -796,
        64 => 1090,
        65 => 613,
        66 => 3240,
        67 => 5850,
        68 => 2710,
        69 => -688,
        70 => -466,
        71 => -1400,
        72 => 1050,
        73 => -1740,
        74 => -474,
        75 => -2810,
        76 => 564,
        77 => -3510,
        78 => 3440,
        79 => -1870,
        80 => -1540,
        81 => 2110,
        82 => -928,
        83 => -577,
        84 => -467,
        85 => -3640,
        86 => -640,
        87 => 70,
        88 => 2150,
        89 => -917,
        90 => 2580,
        91 => 6960,
        92 => 841,
        93 => 1540,
        94 => 6380,
        95 => -772,
        96 => 4900,
        97 => 5890,
        98 => 3880,
        99 => -1440,
        100 => 1850,
        101 => -484,
        102 => 757,
        103 => 1850,
        104 => 2680,
        105 => -711,
        106 => -787,
        107 => 594,
        108 => 1490,
        109 => 632,
        110 => 2920,
        111 => -3210,
        112 => 1720,
        113 => -396,
        114 => -331,
        115 => -244,
        116 => 1430,
        117 => 809,
        118 => -1920,
        119 => 252,
        120 => 3310,
        121 => 1980,
        122 => 1410,
        123 => 993,
        124 => -3370,
        125 => -1690,
        126 => -205,
        127 => 3930,
        128 => 258,
        129 => -860,
        130 => -1850,
        131 => -1900,
        132 => -1270,
        133 => 1160,
        134 => -1530,
        135 => 4990,
        136 => 5490,
        137 => 5050,
        138 => -719,
        139 => -2500,
        140 => 880,
        141 => 2740,
        142 => -158,
        143 => 5380,
        144 => -3320,
        145 => 1750,
        146 => -1170,
        147 => -24,
        148 => 307,
        149 => 291,
        150 => 2920,
        151 => 4020,
        152 => 1480,
        153 => 1310,
        154 => -996,
        155 => 1520,
        156 => 656,
        157 => 7370,
        158 => 6520,
        159 => -861,
        160 => 33460,
        161 => 8530,
        162 => -1590,
        163 => -3230,
        164 => -4440,
        165 => -3510,
        166 => -1150,
        _ => 0,
    }
}


/// One month's price update: apply a change of `change_bps` basis
/// points to `price`, rounding the new price up and saturating at
/// `u64::MAX`.
pub open spec fn spec_next_price(price: int, change_bps: int) -> int {
    let grown = (price * (BPS_PER_UNIT + change_bps) + (BPS_PER_UNIT - 1)) / (BPS_PER_UNIT as int);
    if grown > u64::MAX {
        u64::MAX as int
    } else {
        grown
    }
}

/// The price after the updates for `changes[0..=i]`, starting from
/// `base`.
pub open spec fn spec_price_at(base: int, changes: Seq<i32>, i: int) -> int
    recommends
        0 <= i < changes.len(),
    decreases i,
{
    if i <= 0 {
        spec_next_price(base, changes[0] as int)
    } else {
        spec_next_price(spec_price_at(base, changes, i - 1), changes[i] as int)
    }
}

/// Whether `next` results from applying some entry of the historical
/// table to the price `prev`.
pub open spec fn spec_is_table_step(prev: int, next: int) -> bool {
    exists|d: int|
        0 <= d < HISTORICAL_CHANGE_COUNT && next == spec_next_price(
            prev,
            #[trigger] spec_change_at(d),
        )
}

/// Whether every price of the path results from applying some entry of
/// the historical table to its predecessor, starting from `base`: the
/// paths the generator can sample.
pub open spec fn spec_is_table_path(base: int, prices: Seq<u64>) -> bool {
    forall|j: int|
        0 <= j < prices.len() ==> spec_is_table_step(
            if j == 0 {
                base
            } else {
                prices[j - 1] as int
            },
            #[trigger] prices[j] as int,
        )
}

fn next_price(price: u64, change_bps: i32) -> (r: u64)
    requires
        change_bps > -(BPS_PER_UNIT as int),
    ensures
        r as int == spec_next_price(price as int, change_bps as int),
        price > 0 ==> r > 0,
{
    let multiplier: u128 = ((BPS_PER_UNIT as i64) + (change_bps as i64)) as u128;
    proof {
        lemma_mul_upper_bound(
            price as int,
            u64::MAX as int,
            multiplier as int,
            (BPS_PER_UNIT as int) + (i32::MAX as int),
        );
        if price > 0 {
            lemma_mul_strictly_positive(price as int, multiplier as int);
            lemma_div_is_ordered(
                BPS_PER_UNIT as int,
                price * multiplier + (BPS_PER_UNIT - 1),
                BPS_PER_UNIT as int,
            );
        }
    }
    let grown: u128 = ((price as u128) * multiplier + ((BPS_PER_UNIT - 1) as u128)) / (
    BPS_PER_UNIT as u128);
    if grown > (u64::MAX as u128) {
        u64::MAX
    } else {
        grown as u64
    }
}

/// Relies on rand::random_range: a value drawn uniformly at random from
/// the given range; it panics only when the range is empty, which
/// `n > 0` rules out.
#[verifier::external_body]
fn random_index(n: usize) -> (r: usize)
    requires
        n > 0,
    ensures
        r < n,
{
    rand::random_range(0..n)
}

/// The price path obtained by applying the given monthly changes, in
/// order, to `base_price`: the deterministic core of the generator,
/// callable with an injected sequence of draws.
pub fn price_path_from_changes(base_price: u64, changes_bps: &Vec<i32>) -> (prices: Vec<u64>)
    requires
        base_price > 0,
        forall|j: int|
            0 <= j < changes_bps@.len() ==> changes_bps@[j] > -(BPS_PER_UNIT as int),
    ensures
        prices@.len() == changes_bps@.len(),
        forall|j: int|
            0 <= j < prices@.len() ==> prices@[j] as int == spec_price_at(
                base_price as int,
                changes_bps@,
                j,
            ),
        forall|j: int| 0 <= j < prices@.len() ==> prices@[j] > 0,
{
    let mut prices: Vec<u64> = Vec::new();
    let mut current_price: u64 = base_price;
    let mut month: usize = 0;
    while month < changes_bps.len()
        invariant
            base_price > 0,
            month <= changes_bps@.len(),
            prices@.len() == month,
            forall|j: int|
                0 <= j < changes_bps@.len() ==> changes_bps@[j] > -(BPS_PER_UNIT as int),
            forall|j: int|
                0 <= j < month ==> prices@[j] as int == spec_price_at(
                    base_price as int,
                    changes_bps@,
                    j,
                ),
            forall|j: int| 0 <= j < month ==> prices@[j] > 0,
            current_price == if month == 0 {
                base_price as int
            } else {
                prices@[month - 1] as int
            },
            current_price > 0,
        decreases changes_bps@.len() - month,
    {
        current_price = next_price(current_price, changes_bps[month]);
        prices.push(current_price);
        month = month + 1;
    }
    prices
}

/// Generates a simulated monthly price path of length `months` from
/// `base_price`: each month one table entry is drawn at random and
/// compounded onto the running price.
pub fn simulate_monthly_price(base_price: u64, months: u32) -> (prices: Vec<u64>)
    requires
        base_price > 0,
    ensures
        prices@.len() == months,
        forall|j: int| 0 <= j < prices@.len() ==> prices@[j] > 0,
        spec_is_table_path(base_price as int, prices@),
{
    let mut prices: Vec<u64> = Vec::new();
    let mut current_price: u64 = base_price;
    let mut month: u32 = 0;
    while month < months
        invariant
            base_price > 0,
            month <= months,
            prices@.len() == month,
            forall|j: int| 0 <= j < month ==> prices@[j] > 0,
            forall|j: int|
                0 <= j < month ==> spec_is_table_step(
                    if j == 0 {
                        base_price as int
                    } else {
                        prices@[j - 1] as int
                    },
                    #[trigger] prices@[j] as int,
                ),
            current_price == if month == 0 {
                base_price as int
            } else {
                prices@[month - 1] as int
            },
            current_price > 0,
        decreases months - month,
    {
        let draw = random_index(HISTORICAL_CHANGE_COUNT);
        let change = historical_change_bps(draw);
        current_price = next_price(current_price, change);
        prices.push(current_price);
        month = month + 1;
    }
    prices
}

} // verus!
