//! The deflationary subsidy schedule's master table.

use vstd::prelude::*;

verus! {

/// Number of entries of the master table: months 0 to 268 of the
/// deflationary phase. Past the last entry the subsidy is zero.
pub const SUBSIDY_MONTHS: usize = 269;

/// Number of entries of the per-network scaled table. Entries of the master
/// schedule beyond the last table entry are zero, so the scaled table ends in
/// a run of zeros.
pub const SUBSIDY_BY_MONTH_TABLE_SIZE: usize = 366;

/// The subsidy paid per second during each month of the deflationary phase,
/// at 1 block per second, in smallest units. The schedule falls by a factor
/// of three every twelve months until it reaches zero.
pub open spec fn subsidy_by_month_table() -> Seq<u64> {
    seq![
        45625737738u64, 41634158882u64, 37991784282u64, 34668063717u64, 31635119661u64, 28867513459u64, 26342031965u64, 24037492838u64,
        21934566882u64, 20015615919u64, 18264544852u64, 16666666666u64, 15208579246u64, 13878052960u64, 12663928094u64, 11556021239u64,
        10545039887u64, 9622504486u64, 8780677321u64, 8012497612u64, 7311522294u64, 6671871973u64, 6088181617u64, 5555555555u64,
        5069526415u64, 4626017653u64, 4221309364u64, 3852007079u64, 3515013295u64, 3207501495u64, 2926892440u64, 2670832537u64,
        2437174098u64, 2223957324u64, 2029393872u64, 1851851851u64, 1689842138u64, 1542005884u64, 1407103121u64, 1284002359u64,
        1171671098u64, 1069167165u64, 975630813u64, 890277512u64, 812391366u64, 741319108u64, 676464624u64, 617283950u64,
        563280712u64, 514001961u64, 469034373u64, 428000786u64, 390557032u64, 356389055u64, 325210271u64, 296759170u64,
        270797122u64, 247106369u64, 225488208u64, 205761316u64, 187760237u64, 171333987u64, 156344791u64, 142666928u64,
        130185677u64, 118796351u64, 108403423u64, 98919723u64, 90265707u64, 82368789u64, 75162736u64, 68587105u64,
        62586745u64, 57111329u64, 52114930u64, 47555642u64, 43395225u64, 39598783u64, 36134474u64, 32973241u64,
        30088569u64, 27456263u64, 25054245u64, 22862368u64, 20862248u64, 19037109u64, 17371643u64, 15851880u64,
        14465075u64, 13199594u64, 12044824u64, 10991080u64, 10029523u64, 9152087u64, 8351415u64, 7620789u64,
        6954082u64, 6345703u64, 5790547u64, 5283960u64, 4821691u64, 4399864u64, 4014941u64, 3663693u64,
        3343174u64, 3050695u64, 2783805u64, 2540263u64, 2318027u64, 2115234u64, 1930182u64, 1761320u64,
        1607230u64, 1466621u64, 1338313u64, 1221231u64, 1114391u64, 1016898u64, 927935u64, 846754u64,
        772675u64, 705078u64, 643394u64, 587106u64, 535743u64, 488873u64, 446104u64, 407077u64,
        371463u64, 338966u64, 309311u64, 282251u64, 257558u64, 235026u64, 214464u64, 195702u64,
        178581u64, 162957u64, 148701u64, 135692u64, 123821u64, 112988u64, 103103u64, 94083u64,
        85852u64, 78342u64, 71488u64, 65234u64, 59527u64, 54319u64, 49567u64, 45230u64,
        41273u64, 37662u64, 34367u64, 31361u64, 28617u64, 26114u64, 23829u64, 21744u64,
        19842u64, 18106u64, 16522u64, 15076u64, 13757u64, 12554u64, 11455u64, 10453u64,
        9539u64, 8704u64, 7943u64, 7248u64, 6614u64, 6035u64, 5507u64, 5025u64,
        4585u64, 4184u64, 3818u64, 3484u64, 3179u64, 2901u64, 2647u64, 2416u64,
        2204u64, 2011u64, 1835u64, 1675u64, 1528u64, 1394u64, 1272u64, 1161u64,
        1059u64, 967u64, 882u64, 805u64, 734u64, 670u64, 611u64, 558u64,
        509u64, 464u64, 424u64, 387u64, 353u64, 322u64, 294u64, 268u64,
        244u64, 223u64, 203u64, 186u64, 169u64, 154u64, 141u64, 129u64,
        117u64, 107u64, 98u64, 89u64, 81u64, 74u64, 67u64, 62u64,
        56u64, 51u64, 47u64, 43u64, 39u64, 35u64, 32u64, 29u64,
        27u64, 24u64, 22u64, 20u64, 18u64, 17u64, 15u64, 14u64,
        13u64, 11u64, 10u64, 9u64, 9u64, 8u64, 7u64, 6u64,
        6u64, 5u64, 5u64, 4u64, 4u64, 3u64, 3u64, 3u64,
        3u64, 2u64, 2u64, 2u64, 2u64, 1u64, 1u64, 1u64,
        1u64, 1u64, 1u64, 1u64, 1u64,
    ]
}

/// The master schedule extended past the table: zero from month 269 on.
pub open spec fn master_month_subsidy(month: int) -> u64 {
    if 0 <= month < SUBSIDY_MONTHS {
        subsidy_by_month_table()[month]
    } else {
        0u64
    }
}

/// Builds the master table for executable code.
pub fn build_subsidy_by_month_table() -> (t: Vec<u64>)
    ensures
        t@ == subsidy_by_month_table(),
{
    let t: Vec<u64> = vec![
        45625737738u64, 41634158882u64, 37991784282u64, 34668063717u64, 31635119661u64, 28867513459u64, 26342031965u64, 24037492838u64,
        21934566882u64, 20015615919u64, 18264544852u64, 16666666666u64, 15208579246u64, 13878052960u64, 12663928094u64, 11556021239u64,
        10545039887u64, 9622504486u64, 8780677321u64, 8012497612u64, 7311522294u64, 6671871973u64, 6088181617u64, 5555555555u64,
        5069526415u64, 4626017653u64, 4221309364u64, 3852007079u64, 3515013295u64, 3207501495u64, 2926892440u64, 2670832537u64,
        2437174098u64, 2223957324u64, 2029393872u64, 1851851851u64, 1689842138u64, 1542005884u64, 1407103121u64, 1284002359u64,
        1171671098u64, 1069167165u64, 975630813u64, 890277512u64, 812391366u64, 741319108u64, 676464624u64, 617283950u64,
        563280712u64, 514001961u64, 469034373u64, 428000786u64, 390557032u64, 356389055u64, 325210271u64, 296759170u64,
        270797122u64, 247106369u64, 225488208u64, 205761316u64, 187760237u64, 171333987u64, 156344791u64, 142666928u64,
        130185677u64, 118796351u64, 108403423u64, 98919723u64, 90265707u64, 82368789u64, 75162736u64, 68587105u64,
        62586745u64, 57111329u64, 52114930u64, 47555642u64, 43395225u64, 39598783u64, 36134474u64, 32973241u64,
        30088569u64, 27456263u64, 25054245u64, 22862368u64, 20862248u64, 19037109u64, 17371643u64, 15851880u64,
        14465075u64, 13199594u64, 12044824u64, 10991080u64, 10029523u64, 9152087u64, 8351415u64, 7620789u64,
        6954082u64, 6345703u64, 5790547u64, 5283960u64, 4821691u64, 4399864u64, 4014941u64, 3663693u64,
        3343174u64, 3050695u64, 2783805u64, 2540263u64, 2318027u64, 2115234u64, 1930182u64, 1761320u64,
        1607230u64, 1466621u64, 1338313u64, 1221231u64, 1114391u64, 1016898u64, 927935u64, 846754u64,
        772675u64, 705078u64, 643394u64, 587106u64, 535743u64, 488873u64, 446104u64, 407077u64,
        371463u64, 338966u64, 309311u64, 282251u64, 257558u64, 235026u64, 214464u64, 195702u64,
        178581u64, 162957u64, 148701u64, 135692u64, 123821u64, 112988u64, 103103u64, 94083u64,
        85852u64, 78342u64, 71488u64, 65234u64, 59527u64, 54319u64, 49567u64, 45230u64,
        41273u64, 37662u64, 34367u64, 31361u64, 28617u64, 26114u64, 23829u64, 21744u64,
        19842u64, 18106u64, 16522u64, 15076u64, 13757u64, 12554u64, 11455u64, 10453u64,
        9539u64, 8704u64, 7943u64, 7248u64, 6614u64, 6035u64, 5507u64, 5025u64,
        4585u64, 4184u64, 3818u64, 3484u64, 3179u64, 2901u64, 2647u64, 2416u64,
        2204u64, 2011u64, 1835u64, 1675u64, 1528u64, 1394u64, 1272u64, 1161u64,
        1059u64, 967u64, 882u64, 805u64, 734u64, 670u64, 611u64, 558u64,
        509u64, 464u64, 424u64, 387u64, 353u64, 322u64, 294u64, 268u64,
        244u64, 223u64, 203u64, 186u64, 169u64, 154u64, 141u64, 129u64,
        117u64, 107u64, 98u64, 89u64, 81u64, 74u64, 67u64, 62u64,
        56u64, 51u64, 47u64, 43u64, 39u64, 35u64, 32u64, 29u64,
        27u64, 24u64, 22u64, 20u64, 18u64, 17u64, 15u64, 14u64,
        13u64, 11u64, 10u64, 9u64, 9u64, 8u64, 7u64, 6u64,
        6u64, 5u64, 5u64, 4u64, 4u64, 3u64, 3u64, 3u64,
        3u64, 2u64, 2u64, 2u64, 2u64, 1u64, 1u64, 1u64,
        1u64, 1u64, 1u64, 1u64, 1u64,
    ];
    proof {
        assert(t@ =~= subsidy_by_month_table());
    }
    t
}

} // verus!
