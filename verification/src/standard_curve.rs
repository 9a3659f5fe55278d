//! The standard level curve: the threshold of level `l` is
//! `100 * (l + 1)^1.3 * ln(l + 2) + 100`, rounded down, tabulated for the
//! first two hundred levels.

use vstd::prelude::*;
use crate::leveling::{strictly_increasing, LevelCurve};

verus! {

/// Levels that the standard curve describes.
pub const STANDARD_LEVELS: usize = 200;

/// The thresholds of the standard curve, from level zero.
pub open spec fn standard_thresholds() -> Seq<u64> {
    seq![
        169u64, 370u64, 678u64, 1075u64, 1551u64, 2098u64, 2709u64, 3380u64, 4106u64, 4884u64,
        5712u64, 6586u64, 7505u64, 8468u64, 9471u64, 10514u64, 11595u64, 12714u64, 13868u64,
        15057u64, 16280u64, 17536u64, 18824u64, 20143u64, 21493u64, 22873u64, 24282u64,
        25720u64, 27186u64, 28679u64, 30199u64, 31746u64, 33319u64, 34918u64, 36541u64,
        38189u64, 39862u64, 41559u64, 43279u64, 45023u64, 46789u64, 48578u64, 50390u64,
        52223u64, 54078u64, 55955u64, 57852u64, 59771u64, 61710u64, 63670u64, 65650u64,
        67650u64, 69669u64, 71708u64, 73767u64, 75844u64, 77941u64, 80056u64, 82190u64,
        84342u64, 86512u64, 88700u64, 90907u64, 93130u64, 95372u64, 97630u64, 99906u64,
        102199u64, 104509u64, 106835u64, 109179u64, 111538u64, 113914u64, 116307u64, 118715u64,
        121139u64, 123579u64, 126035u64, 128507u64, 130994u64, 133496u64, 136014u64, 138547u64,
        141095u64, 143658u64, 146236u64, 148828u64, 151435u64, 154057u64, 156693u64, 159344u64,
        162009u64, 164688u64, 167381u64, 170088u64, 172809u64, 175544u64, 178293u64, 181055u64,
        183831u64, 186620u64, 189423u64, 192239u64, 195069u64, 197911u64, 200767u64, 203636u64,
        206518u64, 209413u64, 212320u64, 215241u64, 218174u64, 221120u64, 224078u64, 227049u64,
        230032u64, 233028u64, 236036u64, 239056u64, 242089u64, 245133u64, 248190u64, 251259u64,
        254339u64, 257432u64, 260536u64, 263653u64, 266781u64, 269920u64, 273072u64, 276235u64,
        279409u64, 282595u64, 285792u64, 289001u64, 292221u64, 295453u64, 298695u64, 301949u64,
        305214u64, 308490u64, 311777u64, 315075u64, 318384u64, 321704u64, 325035u64, 328376u64,
        331729u64, 335092u64, 338466u64, 341850u64, 345245u64, 348651u64, 352067u64, 355494u64,
        358931u64, 362378u64, 365836u64, 369304u64, 372783u64, 376271u64, 379770u64, 383279u64,
        386799u64, 390328u64, 393867u64, 397417u64, 400976u64, 404546u64, 408125u64, 411714u64,
        415313u64, 418922u64, 422541u64, 426169u64, 429807u64, 433455u64, 437113u64, 440780u64,
        444457u64, 448143u64, 451839u64, 455544u64, 459259u64, 462983u64, 466717u64, 470460u64,
        474212u64, 477973u64, 481744u64, 485525u64, 489314u64, 493113u64, 496921u64, 500738u64,
        504564u64, 508399u64, 512243u64, 516096u64, 519959u64,
    ]
}

/// The thresholds of the standard curve as a list.
pub fn standard_threshold_list() -> (thresholds: Vec<u64>)
    ensures
        thresholds@ == standard_thresholds(),
{
    let thresholds: Vec<u64> = vec![
        169, 370, 678, 1075, 1551, 2098, 2709, 3380, 4106, 4884, 5712, 6586, 7505, 8468, 9471,
        10514, 11595, 12714, 13868, 15057, 16280, 17536, 18824, 20143, 21493, 22873, 24282,
        25720, 27186, 28679, 30199, 31746, 33319, 34918, 36541, 38189, 39862, 41559, 43279,
        45023, 46789, 48578, 50390, 52223, 54078, 55955, 57852, 59771, 61710, 63670, 65650,
        67650, 69669, 71708, 73767, 75844, 77941, 80056, 82190, 84342, 86512, 88700, 90907,
        93130, 95372, 97630, 99906, 102199, 104509, 106835, 109179, 111538, 113914, 116307,
        118715, 121139, 123579, 126035, 128507, 130994, 133496, 136014, 138547, 141095, 143658,
        146236, 148828, 151435, 154057, 156693, 159344, 162009, 164688, 167381, 170088, 172809,
        175544, 178293, 181055, 183831, 186620, 189423, 192239, 195069, 197911, 200767, 203636,
        206518, 209413, 212320, 215241, 218174, 221120, 224078, 227049, 230032, 233028, 236036,
        239056, 242089, 245133, 248190, 251259, 254339, 257432, 260536, 263653, 266781, 269920,
        273072, 276235, 279409, 282595, 285792, 289001, 292221, 295453, 298695, 301949, 305214,
        308490, 311777, 315075, 318384, 321704, 325035, 328376, 331729, 335092, 338466, 341850,
        345245, 348651, 352067, 355494, 358931, 362378, 365836, 369304, 372783, 376271, 379770,
        383279, 386799, 390328, 393867, 397417, 400976, 404546, 408125, 411714, 415313, 418922,
        422541, 426169, 429807, 433455, 437113, 440780, 444457, 448143, 451839, 455544, 459259,
        462983, 466717, 470460, 474212, 477973, 481744, 485525, 489314, 493113, 496921, 500738,
        504564, 508399, 512243, 516096, 519959,
    ];
    assert(thresholds@ =~= standard_thresholds());
    thresholds
}

/// A list in which every entry is smaller than the next grows strictly.
proof fn lemma_steps_add_up(list: Seq<u64>, i: int, j: int)
    requires
        forall|k: int| 0 <= k < list.len() - 1 ==> (#[trigger] list[k]) < list[k + 1],
        0 <= i < j < list.len(),
    ensures
        list[i] < list[j],
    decreases j - i,
{
    if i + 1 < j {
        lemma_steps_add_up(list, i, j - 1);
    }
}

/// On the standard curve every level asks for more experience than the one
/// before it.
pub proof fn lemma_standard_thresholds_grow()
    ensures
        standard_thresholds().len() == STANDARD_LEVELS,
        strictly_increasing(standard_thresholds()),
{
    let list = standard_thresholds();
    assert forall|k: int| 0 <= k < list.len() - 1 implies (#[trigger] list[k]) < list[k + 1] by {
    }
    assert forall|i: int, j: int| 0 <= i < j < list.len() implies list[i] < list[j] by {
        lemma_steps_add_up(list, i, j);
    }
}

/// The standard curve.
pub fn standard_curve() -> (curve: LevelCurve)
    ensures
        curve@ == standard_thresholds(),
{
    proof {
        lemma_standard_thresholds_grow();
    }
    LevelCurve::new(standard_threshold_list()).unwrap()
}

} // verus!
