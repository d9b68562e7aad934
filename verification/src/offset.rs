//! The offsets from UTC that a member can choose for an entry.
//!
//! Calendar days begin at another instant in every offset, so the offset that a session is
//! logged with decides which day it counts for.

use vstd::prelude::*;

verus! {

/// The smallest offset on offer, in minutes: twelve hours behind UTC.
pub const MIN_OFFSET_MINUTES: i64 = -720;

/// The largest offset on offer, in minutes: fourteen hours ahead of UTC.
pub const MAX_OFFSET_MINUTES: i64 = 840;

/// An offset of local time from UTC. The variants are named after the hours, and where the
/// offset is not whole hours after the hours and minutes.
#[allow(non_camel_case_types)]
#[derive(Clone, Copy, Debug, PartialEq, Eq, Hash)]
pub enum OffsetChoices {
    /// UTC-12 (BIT)
    UTCMinus12,
    /// UTC-11 (NUT, SST)
    UTCMinus11,
    /// UTC-10 (CKT, HAST, HST, TAHT)
    UTCMinus10,
    /// UTC-09:30 (MART, MIT)
    UTCMinus9_30,
    /// UTC-09 (AKST, GAMT, GIT, HADT)
    UTCMinus9,
    /// UTC-08 (AKDT, CIST, PST)
    UTCMinus8,
    /// UTC-07 (MST, PDT)
    UTCMinus7,
    /// UTC-06 (CST, EAST, GALT, MDT)
    UTCMinus6,
    /// UTC-05 (ACT, CDT, COT, CST, EASST, ECT, EST, PET)
    UTCMinus5,
    /// UTC-04:30 (VET)
    UTCMinus4_30,
    /// UTC-04 (AMT, AST, BOT, CDT, CLT, COST, ECT, EDT, FKT, GYT, PYT)
    UTCMinus4,
    /// UTC-03:30 (NST, NT)
    UTCMinus3_30,
    /// UTC-03 (ADT, AMST, ART, BRT, CLST, FKST, GFT, PMST, PYST, ROTT, SRT, UYT)
    UTCMinus3,
    /// UTC-02:30 (NDT)
    UTCMinus2_30,
    /// UTC-02 (BRST, FNT, GST, PMDT, UYST)
    UTCMinus2,
    /// UTC-01 (AZOST, CVT, EGT)
    UTCMinus1,
    /// UTC (GMT, IBST, WET, Z)
    UTC,
    /// UTC+01 (BST, CET, IST, WAT, WEST)
    UTCPlus1,
    /// UTC+02 (CAT, CEST, EET, IST, SAST, WAST)
    UTCPlus2,
    /// UTC+03 (AST, EAT, EEST, FET, IDT, IOT, MSK, USZ1)
    UTCPlus3,
    /// UTC+03:30 (IRST)
    UTCPlus3_30,
    /// UTC+04 (AMT, AZT, GET, GST, MUT, RET, SAMT, SCT, VOLT)
    UTCPlus4,
    /// UTC+04:30 (AFT, IRDT)
    UTCPlus4_30,
    /// UTC+05 (HMT, MAWT, MVT, ORAT, PKT, TFT, TJT, TMT, UZT, YEKT)
    UTCPlus5,
    /// UTC+05:30 (IST, SLST)
    UTCPlus5_30,
    /// UTC+05:45 (NPT)
    UTCPlus5_45,
    /// UTC+06 (BDT, BIOT, BST, BTT, KGT, OMST, VOST)
    UTCPlus6,
    /// UTC+06:30 (CCT, MMT, MST)
    UTCPlus6_30,
    /// UTC+07 (CXT, DAVT, HOVT, ICT, KRAT, THA, WIT)
    UTCPlus7,
    /// UTC+08 (ACT, AWST, BDT, CHOT, CIT, CST, CT, HKT, IRKT, MST, MYT, PST, SGT, SST, ULAT, WST)
    UTCPlus8,
    /// UTC+08:45 (CWST)
    UTCPlus8_45,
    /// UTC+09 (AWDT, EIT, JST, KST, TLT, YAKT)
    UTCPlus9,
    /// UTC+09:30 (ACST, CST)
    UTCPlus9_30,
    /// UTC+10 (AEST, ChST, CHUT, DDUT, EST, PGT, VLAT)
    UTCPlus10,
    /// UTC+10:30 (ACDT, CST, LHST)
    UTCPlus10_30,
    /// UTC+11 (AEDT, BST, KOST, LHST, MIST, NCT, PONT, SAKT, SBT, SRET, VUT, NFT)
    UTCPlus11,
    /// UTC+12 (FJT, GILT, MAGT, MHT, NZST, PETT, TVT, WAKT)
    UTCPlus12,
    /// UTC+12:45 (CHAST)
    UTCPlus12_45,
    /// UTC+13 (NZDT, PHOT, TKT, TOT)
    UTCPlus13,
    /// UTC+13:45 (CHADT)
    UTCPlus13_45,
    /// UTC+14 (LINT)
    UTCPlus14,
}

impl OffsetChoices {
    /// The offset in minutes, positive east of Greenwich.
    pub open spec fn minutes(self) -> int {
        match self {
            OffsetChoices::UTCMinus12 => -720,
            OffsetChoices::UTCMinus11 => -660,
            OffsetChoices::UTCMinus10 => -600,
            OffsetChoices::UTCMinus9_30 => -570,
            OffsetChoices::UTCMinus9 => -540,
            OffsetChoices::UTCMinus8 => -480,
            OffsetChoices::UTCMinus7 => -420,
            OffsetChoices::UTCMinus6 => -360,
            OffsetChoices::UTCMinus5 => -300,
            OffsetChoices::UTCMinus4_30 => -270,
            OffsetChoices::UTCMinus4 => -240,
            OffsetChoices::UTCMinus3_30 => -210,
            OffsetChoices::UTCMinus3 => -180,
            OffsetChoices::UTCMinus2_30 => -150,
            OffsetChoices::UTCMinus2 => -120,
            OffsetChoices::UTCMinus1 => -60,
            OffsetChoices::UTC => 0,
            OffsetChoices::UTCPlus1 => 60,
            OffsetChoices::UTCPlus2 => 120,
            OffsetChoices::UTCPlus3 => 180,
            OffsetChoices::UTCPlus3_30 => 210,
            OffsetChoices::UTCPlus4 => 240,
            OffsetChoices::UTCPlus4_30 => 270,
            OffsetChoices::UTCPlus5 => 300,
            OffsetChoices::UTCPlus5_30 => 330,
            OffsetChoices::UTCPlus5_45 => 345,
            OffsetChoices::UTCPlus6 => 360,
            OffsetChoices::UTCPlus6_30 => 390,
            OffsetChoices::UTCPlus7 => 420,
            OffsetChoices::UTCPlus8 => 480,
            OffsetChoices::UTCPlus8_45 => 525,
            OffsetChoices::UTCPlus9 => 540,
            OffsetChoices::UTCPlus9_30 => 570,
            OffsetChoices::UTCPlus10 => 600,
            OffsetChoices::UTCPlus10_30 => 630,
            OffsetChoices::UTCPlus11 => 660,
            OffsetChoices::UTCPlus12 => 720,
            OffsetChoices::UTCPlus12_45 => 765,
            OffsetChoices::UTCPlus13 => 780,
            OffsetChoices::UTCPlus13_45 => 825,
            OffsetChoices::UTCPlus14 => 840,
        }
    }

    /// The offset in minutes, positive east of Greenwich.
    pub fn offset_minutes(&self) -> (minutes: i64)
        ensures
            minutes == self.minutes(),
            MIN_OFFSET_MINUTES <= minutes <= MAX_OFFSET_MINUTES,
            minutes % 15 == 0,
    {
        match self {
            OffsetChoices::UTCMinus12 => -720,
            OffsetChoices::UTCMinus11 => -660,
            OffsetChoices::UTCMinus10 => -600,
            OffsetChoices::UTCMinus9_30 => -570,
            OffsetChoices::UTCMinus9 => -540,
            OffsetChoices::UTCMinus8 => -480,
            OffsetChoices::UTCMinus7 => -420,
            OffsetChoices::UTCMinus6 => -360,
            OffsetChoices::UTCMinus5 => -300,
            OffsetChoices::UTCMinus4_30 => -270,
            OffsetChoices::UTCMinus4 => -240,
            OffsetChoices::UTCMinus3_30 => -210,
            OffsetChoices::UTCMinus3 => -180,
            OffsetChoices::UTCMinus2_30 => -150,
            OffsetChoices::UTCMinus2 => -120,
            OffsetChoices::UTCMinus1 => -60,
            OffsetChoices::UTC => 0,
            OffsetChoices::UTCPlus1 => 60,
            OffsetChoices::UTCPlus2 => 120,
            OffsetChoices::UTCPlus3 => 180,
            OffsetChoices::UTCPlus3_30 => 210,
            OffsetChoices::UTCPlus4 => 240,
            OffsetChoices::UTCPlus4_30 => 270,
            OffsetChoices::UTCPlus5 => 300,
            OffsetChoices::UTCPlus5_30 => 330,
            OffsetChoices::UTCPlus5_45 => 345,
            OffsetChoices::UTCPlus6 => 360,
            OffsetChoices::UTCPlus6_30 => 390,
            OffsetChoices::UTCPlus7 => 420,
            OffsetChoices::UTCPlus8 => 480,
            OffsetChoices::UTCPlus8_45 => 525,
            OffsetChoices::UTCPlus9 => 540,
            OffsetChoices::UTCPlus9_30 => 570,
            OffsetChoices::UTCPlus10 => 600,
            OffsetChoices::UTCPlus10_30 => 630,
            OffsetChoices::UTCPlus11 => 660,
            OffsetChoices::UTCPlus12 => 720,
            OffsetChoices::UTCPlus12_45 => 765,
            OffsetChoices::UTCPlus13 => 780,
            OffsetChoices::UTCPlus13_45 => 825,
            OffsetChoices::UTCPlus14 => 840,
        }
    }
}

/// The offset of an entry in minutes: that of the choice, and zero, which is UTC, where the
/// member made none.
pub fn minutes_difference(offset: Option<OffsetChoices>) -> (minutes: i64)
    ensures
        offset matches Some(choice) ==> minutes == choice.minutes(),
        offset is None ==> minutes == 0,
{
    match offset {
        Some(choice) => choice.offset_minutes(),
        None => 0,
    }
}

} // verus!
