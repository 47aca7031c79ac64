//! Event link setting registers (IELSRn) of the ICU: each channel links an event
//! to an interrupt and holds its pending flag (IR, bit 16) and its DTC
//! activation (DTCE, bit 24).
use vstd::prelude::*;

use crate::RegisterError;
use super::IcuEvent;

verus! {

/// IELSR.IR: an interrupt is pending.
pub open spec fn spec_ir(ielsr: u32) -> bool {
    (ielsr >> 16u32) & 1 == 1
}

/// IELSR.DTCE: the event activates the DTC.
pub open spec fn spec_dtce(ielsr: u32) -> bool {
    (ielsr >> 24u32) & 1 == 1
}

/// The refusal of clearing IR while the DTC works, for channel `id`.
pub open spec fn spec_msg_dtc_working(id: u8) -> &'static str {
    if id == 0 {
        "[IEL0] DTC is working."
    } else if id == 1 {
        "[IEL1] DTC is working."
    } else if id == 2 {
        "[IEL2] DTC is working."
    } else if id == 3 {
        "[IEL3] DTC is working."
    } else if id == 4 {
        "[IEL4] DTC is working."
    } else if id == 5 {
        "[IEL5] DTC is working."
    } else if id == 6 {
        "[IEL6] DTC is working."
    } else if id == 7 {
        "[IEL7] DTC is working."
    } else if id == 8 {
        "[IEL8] DTC is working."
    } else if id == 9 {
        "[IEL9] DTC is working."
    } else if id == 10 {
        "[IEL10] DTC is working."
    } else if id == 11 {
        "[IEL11] DTC is working."
    } else if id == 12 {
        "[IEL12] DTC is working."
    } else if id == 13 {
        "[IEL13] DTC is working."
    } else if id == 14 {
        "[IEL14] DTC is working."
    } else if id == 15 {
        "[IEL15] DTC is working."
    } else if id == 16 {
        "[IEL16] DTC is working."
    } else if id == 17 {
        "[IEL17] DTC is working."
    } else if id == 18 {
        "[IEL18] DTC is working."
    } else if id == 19 {
        "[IEL19] DTC is working."
    } else if id == 20 {
        "[IEL20] DTC is working."
    } else if id == 21 {
        "[IEL21] DTC is working."
    } else if id == 22 {
        "[IEL22] DTC is working."
    } else if id == 23 {
        "[IEL23] DTC is working."
    } else if id == 24 {
        "[IEL24] DTC is working."
    } else if id == 25 {
        "[IEL25] DTC is working."
    } else if id == 26 {
        "[IEL26] DTC is working."
    } else if id == 27 {
        "[IEL27] DTC is working."
    } else if id == 28 {
        "[IEL28] DTC is working."
    } else if id == 29 {
        "[IEL29] DTC is working."
    } else if id == 30 {
        "[IEL30] DTC is working."
    } else if id == 31 {
        "[IEL31] DTC is working."
    } else if id == 32 {
        "[IEL32] DTC is working."
    } else if id == 33 {
        "[IEL33] DTC is working."
    } else if id == 34 {
        "[IEL34] DTC is working."
    } else if id == 35 {
        "[IEL35] DTC is working."
    } else if id == 36 {
        "[IEL36] DTC is working."
    } else if id == 37 {
        "[IEL37] DTC is working."
    } else if id == 38 {
        "[IEL38] DTC is working."
    } else if id == 39 {
        "[IEL39] DTC is working."
    } else if id == 40 {
        "[IEL40] DTC is working."
    } else if id == 41 {
        "[IEL41] DTC is working."
    } else if id == 42 {
        "[IEL42] DTC is working."
    } else if id == 43 {
        "[IEL43] DTC is working."
    } else if id == 44 {
        "[IEL44] DTC is working."
    } else if id == 45 {
        "[IEL45] DTC is working."
    } else if id == 46 {
        "[IEL46] DTC is working."
    } else if id == 47 {
        "[IEL47] DTC is working."
    } else if id == 48 {
        "[IEL48] DTC is working."
    } else if id == 49 {
        "[IEL49] DTC is working."
    } else if id == 50 {
        "[IEL50] DTC is working."
    } else if id == 51 {
        "[IEL51] DTC is working."
    } else if id == 52 {
        "[IEL52] DTC is working."
    } else if id == 53 {
        "[IEL53] DTC is working."
    } else if id == 54 {
        "[IEL54] DTC is working."
    } else if id == 55 {
        "[IEL55] DTC is working."
    } else if id == 56 {
        "[IEL56] DTC is working."
    } else if id == 57 {
        "[IEL57] DTC is working."
    } else if id == 58 {
        "[IEL58] DTC is working."
    } else if id == 59 {
        "[IEL59] DTC is working."
    } else if id == 60 {
        "[IEL60] DTC is working."
    } else if id == 61 {
        "[IEL61] DTC is working."
    } else if id == 62 {
        "[IEL62] DTC is working."
    } else if id == 63 {
        "[IEL63] DTC is working."
    } else if id == 64 {
        "[IEL64] DTC is working."
    } else if id == 65 {
        "[IEL65] DTC is working."
    } else if id == 66 {
        "[IEL66] DTC is working."
    } else if id == 67 {
        "[IEL67] DTC is working."
    } else if id == 68 {
        "[IEL68] DTC is working."
    } else if id == 69 {
        "[IEL69] DTC is working."
    } else if id == 70 {
        "[IEL70] DTC is working."
    } else if id == 71 {
        "[IEL71] DTC is working."
    } else if id == 72 {
        "[IEL72] DTC is working."
    } else if id == 73 {
        "[IEL73] DTC is working."
    } else if id == 74 {
        "[IEL74] DTC is working."
    } else if id == 75 {
        "[IEL75] DTC is working."
    } else if id == 76 {
        "[IEL76] DTC is working."
    } else if id == 77 {
        "[IEL77] DTC is working."
    } else if id == 78 {
        "[IEL78] DTC is working."
    } else if id == 79 {
        "[IEL79] DTC is working."
    } else if id == 80 {
        "[IEL80] DTC is working."
    } else if id == 81 {
        "[IEL81] DTC is working."
    } else if id == 82 {
        "[IEL82] DTC is working."
    } else if id == 83 {
        "[IEL83] DTC is working."
    } else if id == 84 {
        "[IEL84] DTC is working."
    } else if id == 85 {
        "[IEL85] DTC is working."
    } else if id == 86 {
        "[IEL86] DTC is working."
    } else if id == 87 {
        "[IEL87] DTC is working."
    } else if id == 88 {
        "[IEL88] DTC is working."
    } else if id == 89 {
        "[IEL89] DTC is working."
    } else if id == 90 {
        "[IEL90] DTC is working."
    } else if id == 91 {
        "[IEL91] DTC is working."
    } else if id == 92 {
        "[IEL92] DTC is working."
    } else if id == 93 {
        "[IEL93] DTC is working."
    } else if id == 94 {
        "[IEL94] DTC is working."
    } else if id == 95 {
        "[IEL95] DTC is working."
    } else {
        "[IEL?] DTC is working."
    }
}

fn msg_dtc_working(id: u8) -> (m: &'static str)
    ensures
        m == spec_msg_dtc_working(id),
{
    match id {
        0 => "[IEL0] DTC is working.",
        1 => "[IEL1] DTC is working.",
        2 => "[IEL2] DTC is working.",
        3 => "[IEL3] DTC is working.",
        4 => "[IEL4] DTC is working.",
        5 => "[IEL5] DTC is working.",
        6 => "[IEL6] DTC is working.",
        7 => "[IEL7] DTC is working.",
        8 => "[IEL8] DTC is working.",
        9 => "[IEL9] DTC is working.",
        10 => "[IEL10] DTC is working.",
        11 => "[IEL11] DTC is working.",
        12 => "[IEL12] DTC is working.",
        13 => "[IEL13] DTC is working.",
        14 => "[IEL14] DTC is working.",
        15 => "[IEL15] DTC is working.",
        16 => "[IEL16] DTC is working.",
        17 => "[IEL17] DTC is working.",
        18 => "[IEL18] DTC is working.",
        19 => "[IEL19] DTC is working.",
        20 => "[IEL20] DTC is working.",
        21 => "[IEL21] DTC is working.",
        22 => "[IEL22] DTC is working.",
        23 => "[IEL23] DTC is working.",
        24 => "[IEL24] DTC is working.",
        25 => "[IEL25] DTC is working.",
        26 => "[IEL26] DTC is working.",
        27 => "[IEL27] DTC is working.",
        28 => "[IEL28] DTC is working.",
        29 => "[IEL29] DTC is working.",
        30 => "[IEL30] DTC is working.",
        31 => "[IEL31] DTC is working.",
        32 => "[IEL32] DTC is working.",
        33 => "[IEL33] DTC is working.",
        34 => "[IEL34] DTC is working.",
        35 => "[IEL35] DTC is working.",
        36 => "[IEL36] DTC is working.",
        37 => "[IEL37] DTC is working.",
        38 => "[IEL38] DTC is working.",
        39 => "[IEL39] DTC is working.",
        40 => "[IEL40] DTC is working.",
        41 => "[IEL41] DTC is working.",
        42 => "[IEL42] DTC is working.",
        43 => "[IEL43] DTC is working.",
        44 => "[IEL44] DTC is working.",
        45 => "[IEL45] DTC is working.",
        46 => "[IEL46] DTC is working.",
        47 => "[IEL47] DTC is working.",
        48 => "[IEL48] DTC is working.",
        49 => "[IEL49] DTC is working.",
        50 => "[IEL50] DTC is working.",
        51 => "[IEL51] DTC is working.",
        52 => "[IEL52] DTC is working.",
        53 => "[IEL53] DTC is working.",
        54 => "[IEL54] DTC is working.",
        55 => "[IEL55] DTC is working.",
        56 => "[IEL56] DTC is working.",
        57 => "[IEL57] DTC is working.",
        58 => "[IEL58] DTC is working.",
        59 => "[IEL59] DTC is working.",
        60 => "[IEL60] DTC is working.",
        61 => "[IEL61] DTC is working.",
        62 => "[IEL62] DTC is working.",
        63 => "[IEL63] DTC is working.",
        64 => "[IEL64] DTC is working.",
        65 => "[IEL65] DTC is working.",
        66 => "[IEL66] DTC is working.",
        67 => "[IEL67] DTC is working.",
        68 => "[IEL68] DTC is working.",
        69 => "[IEL69] DTC is working.",
        70 => "[IEL70] DTC is working.",
        71 => "[IEL71] DTC is working.",
        72 => "[IEL72] DTC is working.",
        73 => "[IEL73] DTC is working.",
        74 => "[IEL74] DTC is working.",
        75 => "[IEL75] DTC is working.",
        76 => "[IEL76] DTC is working.",
        77 => "[IEL77] DTC is working.",
        78 => "[IEL78] DTC is working.",
        79 => "[IEL79] DTC is working.",
        80 => "[IEL80] DTC is working.",
        81 => "[IEL81] DTC is working.",
        82 => "[IEL82] DTC is working.",
        83 => "[IEL83] DTC is working.",
        84 => "[IEL84] DTC is working.",
        85 => "[IEL85] DTC is working.",
        86 => "[IEL86] DTC is working.",
        87 => "[IEL87] DTC is working.",
        88 => "[IEL88] DTC is working.",
        89 => "[IEL89] DTC is working.",
        90 => "[IEL90] DTC is working.",
        91 => "[IEL91] DTC is working.",
        92 => "[IEL92] DTC is working.",
        93 => "[IEL93] DTC is working.",
        94 => "[IEL94] DTC is working.",
        95 => "[IEL95] DTC is working.",
        _ => "[IEL?] DTC is working.",
    }
}

/// The refusal of DTC activation for channel `id`.
pub open spec fn spec_msg_dtc_not_allowed(id: u8) -> &'static str {
    if id == 0 {
        "[IEL0] DTC is not allowed for this event."
    } else if id == 1 {
        "[IEL1] DTC is not allowed for this event."
    } else if id == 2 {
        "[IEL2] DTC is not allowed for this event."
    } else if id == 3 {
        "[IEL3] DTC is not allowed for this event."
    } else if id == 4 {
        "[IEL4] DTC is not allowed for this event."
    } else if id == 5 {
        "[IEL5] DTC is not allowed for this event."
    } else if id == 6 {
        "[IEL6] DTC is not allowed for this event."
    } else if id == 7 {
        "[IEL7] DTC is not allowed for this event."
    } else if id == 8 {
        "[IEL8] DTC is not allowed for this event."
    } else if id == 9 {
        "[IEL9] DTC is not allowed for this event."
    } else if id == 10 {
        "[IEL10] DTC is not allowed for this event."
    } else if id == 11 {
        "[IEL11] DTC is not allowed for this event."
    } else if id == 12 {
        "[IEL12] DTC is not allowed for this event."
    } else if id == 13 {
        "[IEL13] DTC is not allowed for this event."
    } else if id == 14 {
        "[IEL14] DTC is not allowed for this event."
    } else if id == 15 {
        "[IEL15] DTC is not allowed for this event."
    } else if id == 16 {
        "[IEL16] DTC is not allowed for this event."
    } else if id == 17 {
        "[IEL17] DTC is not allowed for this event."
    } else if id == 18 {
        "[IEL18] DTC is not allowed for this event."
    } else if id == 19 {
        "[IEL19] DTC is not allowed for this event."
    } else if id == 20 {
        "[IEL20] DTC is not allowed for this event."
    } else if id == 21 {
        "[IEL21] DTC is not allowed for this event."
    } else if id == 22 {
        "[IEL22] DTC is not allowed for this event."
    } else if id == 23 {
        "[IEL23] DTC is not allowed for this event."
    } else if id == 24 {
        "[IEL24] DTC is not allowed for this event."
    } else if id == 25 {
        "[IEL25] DTC is not allowed for this event."
    } else if id == 26 {
        "[IEL26] DTC is not allowed for this event."
    } else if id == 27 {
        "[IEL27] DTC is not allowed for this event."
    } else if id == 28 {
        "[IEL28] DTC is not allowed for this event."
    } else if id == 29 {
        "[IEL29] DTC is not allowed for this event."
    } else if id == 30 {
        "[IEL30] DTC is not allowed for this event."
    } else if id == 31 {
        "[IEL31] DTC is not allowed for this event."
    } else if id == 32 {
        "[IEL32] DTC is not allowed for this event."
    } else if id == 33 {
        "[IEL33] DTC is not allowed for this event."
    } else if id == 34 {
        "[IEL34] DTC is not allowed for this event."
    } else if id == 35 {
        "[IEL35] DTC is not allowed for this event."
    } else if id == 36 {
        "[IEL36] DTC is not allowed for this event."
    } else if id == 37 {
        "[IEL37] DTC is not allowed for this event."
    } else if id == 38 {
        "[IEL38] DTC is not allowed for this event."
    } else if id == 39 {
        "[IEL39] DTC is not allowed for this event."
    } else if id == 40 {
        "[IEL40] DTC is not allowed for this event."
    } else if id == 41 {
        "[IEL41] DTC is not allowed for this event."
    } else if id == 42 {
        "[IEL42] DTC is not allowed for this event."
    } else if id == 43 {
        "[IEL43] DTC is not allowed for this event."
    } else if id == 44 {
        "[IEL44] DTC is not allowed for this event."
    } else if id == 45 {
        "[IEL45] DTC is not allowed for this event."
    } else if id == 46 {
        "[IEL46] DTC is not allowed for this event."
    } else if id == 47 {
        "[IEL47] DTC is not allowed for this event."
    } else if id == 48 {
        "[IEL48] DTC is not allowed for this event."
    } else if id == 49 {
        "[IEL49] DTC is not allowed for this event."
    } else if id == 50 {
        "[IEL50] DTC is not allowed for this event."
    } else if id == 51 {
        "[IEL51] DTC is not allowed for this event."
    } else if id == 52 {
        "[IEL52] DTC is not allowed for this event."
    } else if id == 53 {
        "[IEL53] DTC is not allowed for this event."
    } else if id == 54 {
        "[IEL54] DTC is not allowed for this event."
    } else if id == 55 {
        "[IEL55] DTC is not allowed for this event."
    } else if id == 56 {
        "[IEL56] DTC is not allowed for this event."
    } else if id == 57 {
        "[IEL57] DTC is not allowed for this event."
    } else if id == 58 {
        "[IEL58] DTC is not allowed for this event."
    } else if id == 59 {
        "[IEL59] DTC is not allowed for this event."
    } else if id == 60 {
        "[IEL60] DTC is not allowed for this event."
    } else if id == 61 {
        "[IEL61] DTC is not allowed for this event."
    } else if id == 62 {
        "[IEL62] DTC is not allowed for this event."
    } else if id == 63 {
        "[IEL63] DTC is not allowed for this event."
    } else if id == 64 {
        "[IEL64] DTC is not allowed for this event."
    } else if id == 65 {
        "[IEL65] DTC is not allowed for this event."
    } else if id == 66 {
        "[IEL66] DTC is not allowed for this event."
    } else if id == 67 {
        "[IEL67] DTC is not allowed for this event."
    } else if id == 68 {
        "[IEL68] DTC is not allowed for this event."
    } else if id == 69 {
        "[IEL69] DTC is not allowed for this event."
    } else if id == 70 {
        "[IEL70] DTC is not allowed for this event."
    } else if id == 71 {
        "[IEL71] DTC is not allowed for this event."
    } else if id == 72 {
        "[IEL72] DTC is not allowed for this event."
    } else if id == 73 {
        "[IEL73] DTC is not allowed for this event."
    } else if id == 74 {
        "[IEL74] DTC is not allowed for this event."
    } else if id == 75 {
        "[IEL75] DTC is not allowed for this event."
    } else if id == 76 {
        "[IEL76] DTC is not allowed for this event."
    } else if id == 77 {
        "[IEL77] DTC is not allowed for this event."
    } else if id == 78 {
        "[IEL78] DTC is not allowed for this event."
    } else if id == 79 {
        "[IEL79] DTC is not allowed for this event."
    } else if id == 80 {
        "[IEL80] DTC is not allowed for this event."
    } else if id == 81 {
        "[IEL81] DTC is not allowed for this event."
    } else if id == 82 {
        "[IEL82] DTC is not allowed for this event."
    } else if id == 83 {
        "[IEL83] DTC is not allowed for this event."
    } else if id == 84 {
        "[IEL84] DTC is not allowed for this event."
    } else if id == 85 {
        "[IEL85] DTC is not allowed for this event."
    } else if id == 86 {
        "[IEL86] DTC is not allowed for this event."
    } else if id == 87 {
        "[IEL87] DTC is not allowed for this event."
    } else if id == 88 {
        "[IEL88] DTC is not allowed for this event."
    } else if id == 89 {
        "[IEL89] DTC is not allowed for this event."
    } else if id == 90 {
        "[IEL90] DTC is not allowed for this event."
    } else if id == 91 {
        "[IEL91] DTC is not allowed for this event."
    } else if id == 92 {
        "[IEL92] DTC is not allowed for this event."
    } else if id == 93 {
        "[IEL93] DTC is not allowed for this event."
    } else if id == 94 {
        "[IEL94] DTC is not allowed for this event."
    } else if id == 95 {
        "[IEL95] DTC is not allowed for this event."
    } else {
        "[IEL?] DTC is not allowed for this event."
    }
}

fn msg_dtc_not_allowed(id: u8) -> (m: &'static str)
    ensures
        m == spec_msg_dtc_not_allowed(id),
{
    match id {
        0 => "[IEL0] DTC is not allowed for this event.",
        1 => "[IEL1] DTC is not allowed for this event.",
        2 => "[IEL2] DTC is not allowed for this event.",
        3 => "[IEL3] DTC is not allowed for this event.",
        4 => "[IEL4] DTC is not allowed for this event.",
        5 => "[IEL5] DTC is not allowed for this event.",
        6 => "[IEL6] DTC is not allowed for this event.",
        7 => "[IEL7] DTC is not allowed for this event.",
        8 => "[IEL8] DTC is not allowed for this event.",
        9 => "[IEL9] DTC is not allowed for this event.",
        10 => "[IEL10] DTC is not allowed for this event.",
        11 => "[IEL11] DTC is not allowed for this event.",
        12 => "[IEL12] DTC is not allowed for this event.",
        13 => "[IEL13] DTC is not allowed for this event.",
        14 => "[IEL14] DTC is not allowed for this event.",
        15 => "[IEL15] DTC is not allowed for this event.",
        16 => "[IEL16] DTC is not allowed for this event.",
        17 => "[IEL17] DTC is not allowed for this event.",
        18 => "[IEL18] DTC is not allowed for this event.",
        19 => "[IEL19] DTC is not allowed for this event.",
        20 => "[IEL20] DTC is not allowed for this event.",
        21 => "[IEL21] DTC is not allowed for this event.",
        22 => "[IEL22] DTC is not allowed for this event.",
        23 => "[IEL23] DTC is not allowed for this event.",
        24 => "[IEL24] DTC is not allowed for this event.",
        25 => "[IEL25] DTC is not allowed for this event.",
        26 => "[IEL26] DTC is not allowed for this event.",
        27 => "[IEL27] DTC is not allowed for this event.",
        28 => "[IEL28] DTC is not allowed for this event.",
        29 => "[IEL29] DTC is not allowed for this event.",
        30 => "[IEL30] DTC is not allowed for this event.",
        31 => "[IEL31] DTC is not allowed for this event.",
        32 => "[IEL32] DTC is not allowed for this event.",
        33 => "[IEL33] DTC is not allowed for this event.",
        34 => "[IEL34] DTC is not allowed for this event.",
        35 => "[IEL35] DTC is not allowed for this event.",
        36 => "[IEL36] DTC is not allowed for this event.",
        37 => "[IEL37] DTC is not allowed for this event.",
        38 => "[IEL38] DTC is not allowed for this event.",
        39 => "[IEL39] DTC is not allowed for this event.",
        40 => "[IEL40] DTC is not allowed for this event.",
        41 => "[IEL41] DTC is not allowed for this event.",
        42 => "[IEL42] DTC is not allowed for this event.",
        43 => "[IEL43] DTC is not allowed for this event.",
        44 => "[IEL44] DTC is not allowed for this event.",
        45 => "[IEL45] DTC is not allowed for this event.",
        46 => "[IEL46] DTC is not allowed for this event.",
        47 => "[IEL47] DTC is not allowed for this event.",
        48 => "[IEL48] DTC is not allowed for this event.",
        49 => "[IEL49] DTC is not allowed for this event.",
        50 => "[IEL50] DTC is not allowed for this event.",
        51 => "[IEL51] DTC is not allowed for this event.",
        52 => "[IEL52] DTC is not allowed for this event.",
        53 => "[IEL53] DTC is not allowed for this event.",
        54 => "[IEL54] DTC is not allowed for this event.",
        55 => "[IEL55] DTC is not allowed for this event.",
        56 => "[IEL56] DTC is not allowed for this event.",
        57 => "[IEL57] DTC is not allowed for this event.",
        58 => "[IEL58] DTC is not allowed for this event.",
        59 => "[IEL59] DTC is not allowed for this event.",
        60 => "[IEL60] DTC is not allowed for this event.",
        61 => "[IEL61] DTC is not allowed for this event.",
        62 => "[IEL62] DTC is not allowed for this event.",
        63 => "[IEL63] DTC is not allowed for this event.",
        64 => "[IEL64] DTC is not allowed for this event.",
        65 => "[IEL65] DTC is not allowed for this event.",
        66 => "[IEL66] DTC is not allowed for this event.",
        67 => "[IEL67] DTC is not allowed for this event.",
        68 => "[IEL68] DTC is not allowed for this event.",
        69 => "[IEL69] DTC is not allowed for this event.",
        70 => "[IEL70] DTC is not allowed for this event.",
        71 => "[IEL71] DTC is not allowed for this event.",
        72 => "[IEL72] DTC is not allowed for this event.",
        73 => "[IEL73] DTC is not allowed for this event.",
        74 => "[IEL74] DTC is not allowed for this event.",
        75 => "[IEL75] DTC is not allowed for this event.",
        76 => "[IEL76] DTC is not allowed for this event.",
        77 => "[IEL77] DTC is not allowed for this event.",
        78 => "[IEL78] DTC is not allowed for this event.",
        79 => "[IEL79] DTC is not allowed for this event.",
        80 => "[IEL80] DTC is not allowed for this event.",
        81 => "[IEL81] DTC is not allowed for this event.",
        82 => "[IEL82] DTC is not allowed for this event.",
        83 => "[IEL83] DTC is not allowed for this event.",
        84 => "[IEL84] DTC is not allowed for this event.",
        85 => "[IEL85] DTC is not allowed for this event.",
        86 => "[IEL86] DTC is not allowed for this event.",
        87 => "[IEL87] DTC is not allowed for this event.",
        88 => "[IEL88] DTC is not allowed for this event.",
        89 => "[IEL89] DTC is not allowed for this event.",
        90 => "[IEL90] DTC is not allowed for this event.",
        91 => "[IEL91] DTC is not allowed for this event.",
        92 => "[IEL92] DTC is not allowed for this event.",
        93 => "[IEL93] DTC is not allowed for this event.",
        94 => "[IEL94] DTC is not allowed for this event.",
        95 => "[IEL95] DTC is not allowed for this event.",
        _ => "[IEL?] DTC is not allowed for this event.",
    }
}

/// The refusal of DTC activation for an unknown event, for channel `id`.
pub open spec fn spec_msg_invalid_event(id: u8) -> &'static str {
    if id == 0 {
        "[IEL0] An invalid event is given."
    } else if id == 1 {
        "[IEL1] An invalid event is given."
    } else if id == 2 {
        "[IEL2] An invalid event is given."
    } else if id == 3 {
        "[IEL3] An invalid event is given."
    } else if id == 4 {
        "[IEL4] An invalid event is given."
    } else if id == 5 {
        "[IEL5] An invalid event is given."
    } else if id == 6 {
        "[IEL6] An invalid event is given."
    } else if id == 7 {
        "[IEL7] An invalid event is given."
    } else if id == 8 {
        "[IEL8] An invalid event is given."
    } else if id == 9 {
        "[IEL9] An invalid event is given."
    } else if id == 10 {
        "[IEL10] An invalid event is given."
    } else if id == 11 {
        "[IEL11] An invalid event is given."
    } else if id == 12 {
        "[IEL12] An invalid event is given."
    } else if id == 13 {
        "[IEL13] An invalid event is given."
    } else if id == 14 {
        "[IEL14] An invalid event is given."
    } else if id == 15 {
        "[IEL15] An invalid event is given."
    } else if id == 16 {
        "[IEL16] An invalid event is given."
    } else if id == 17 {
        "[IEL17] An invalid event is given."
    } else if id == 18 {
        "[IEL18] An invalid event is given."
    } else if id == 19 {
        "[IEL19] An invalid event is given."
    } else if id == 20 {
        "[IEL20] An invalid event is given."
    } else if id == 21 {
        "[IEL21] An invalid event is given."
    } else if id == 22 {
        "[IEL22] An invalid event is given."
    } else if id == 23 {
        "[IEL23] An invalid event is given."
    } else if id == 24 {
        "[IEL24] An invalid event is given."
    } else if id == 25 {
        "[IEL25] An invalid event is given."
    } else if id == 26 {
        "[IEL26] An invalid event is given."
    } else if id == 27 {
        "[IEL27] An invalid event is given."
    } else if id == 28 {
        "[IEL28] An invalid event is given."
    } else if id == 29 {
        "[IEL29] An invalid event is given."
    } else if id == 30 {
        "[IEL30] An invalid event is given."
    } else if id == 31 {
        "[IEL31] An invalid event is given."
    } else if id == 32 {
        "[IEL32] An invalid event is given."
    } else if id == 33 {
        "[IEL33] An invalid event is given."
    } else if id == 34 {
        "[IEL34] An invalid event is given."
    } else if id == 35 {
        "[IEL35] An invalid event is given."
    } else if id == 36 {
        "[IEL36] An invalid event is given."
    } else if id == 37 {
        "[IEL37] An invalid event is given."
    } else if id == 38 {
        "[IEL38] An invalid event is given."
    } else if id == 39 {
        "[IEL39] An invalid event is given."
    } else if id == 40 {
        "[IEL40] An invalid event is given."
    } else if id == 41 {
        "[IEL41] An invalid event is given."
    } else if id == 42 {
        "[IEL42] An invalid event is given."
    } else if id == 43 {
        "[IEL43] An invalid event is given."
    } else if id == 44 {
        "[IEL44] An invalid event is given."
    } else if id == 45 {
        "[IEL45] An invalid event is given."
    } else if id == 46 {
        "[IEL46] An invalid event is given."
    } else if id == 47 {
        "[IEL47] An invalid event is given."
    } else if id == 48 {
        "[IEL48] An invalid event is given."
    } else if id == 49 {
        "[IEL49] An invalid event is given."
    } else if id == 50 {
        "[IEL50] An invalid event is given."
    } else if id == 51 {
        "[IEL51] An invalid event is given."
    } else if id == 52 {
        "[IEL52] An invalid event is given."
    } else if id == 53 {
        "[IEL53] An invalid event is given."
    } else if id == 54 {
        "[IEL54] An invalid event is given."
    } else if id == 55 {
        "[IEL55] An invalid event is given."
    } else if id == 56 {
        "[IEL56] An invalid event is given."
    } else if id == 57 {
        "[IEL57] An invalid event is given."
    } else if id == 58 {
        "[IEL58] An invalid event is given."
    } else if id == 59 {
        "[IEL59] An invalid event is given."
    } else if id == 60 {
        "[IEL60] An invalid event is given."
    } else if id == 61 {
        "[IEL61] An invalid event is given."
    } else if id == 62 {
        "[IEL62] An invalid event is given."
    } else if id == 63 {
        "[IEL63] An invalid event is given."
    } else if id == 64 {
        "[IEL64] An invalid event is given."
    } else if id == 65 {
        "[IEL65] An invalid event is given."
    } else if id == 66 {
        "[IEL66] An invalid event is given."
    } else if id == 67 {
        "[IEL67] An invalid event is given."
    } else if id == 68 {
        "[IEL68] An invalid event is given."
    } else if id == 69 {
        "[IEL69] An invalid event is given."
    } else if id == 70 {
        "[IEL70] An invalid event is given."
    } else if id == 71 {
        "[IEL71] An invalid event is given."
    } else if id == 72 {
        "[IEL72] An invalid event is given."
    } else if id == 73 {
        "[IEL73] An invalid event is given."
    } else if id == 74 {
        "[IEL74] An invalid event is given."
    } else if id == 75 {
        "[IEL75] An invalid event is given."
    } else if id == 76 {
        "[IEL76] An invalid event is given."
    } else if id == 77 {
        "[IEL77] An invalid event is given."
    } else if id == 78 {
        "[IEL78] An invalid event is given."
    } else if id == 79 {
        "[IEL79] An invalid event is given."
    } else if id == 80 {
        "[IEL80] An invalid event is given."
    } else if id == 81 {
        "[IEL81] An invalid event is given."
    } else if id == 82 {
        "[IEL82] An invalid event is given."
    } else if id == 83 {
        "[IEL83] An invalid event is given."
    } else if id == 84 {
        "[IEL84] An invalid event is given."
    } else if id == 85 {
        "[IEL85] An invalid event is given."
    } else if id == 86 {
        "[IEL86] An invalid event is given."
    } else if id == 87 {
        "[IEL87] An invalid event is given."
    } else if id == 88 {
        "[IEL88] An invalid event is given."
    } else if id == 89 {
        "[IEL89] An invalid event is given."
    } else if id == 90 {
        "[IEL90] An invalid event is given."
    } else if id == 91 {
        "[IEL91] An invalid event is given."
    } else if id == 92 {
        "[IEL92] An invalid event is given."
    } else if id == 93 {
        "[IEL93] An invalid event is given."
    } else if id == 94 {
        "[IEL94] An invalid event is given."
    } else if id == 95 {
        "[IEL95] An invalid event is given."
    } else {
        "[IEL?] An invalid event is given."
    }
}

fn msg_invalid_event(id: u8) -> (m: &'static str)
    ensures
        m == spec_msg_invalid_event(id),
{
    match id {
        0 => "[IEL0] An invalid event is given.",
        1 => "[IEL1] An invalid event is given.",
        2 => "[IEL2] An invalid event is given.",
        3 => "[IEL3] An invalid event is given.",
        4 => "[IEL4] An invalid event is given.",
        5 => "[IEL5] An invalid event is given.",
        6 => "[IEL6] An invalid event is given.",
        7 => "[IEL7] An invalid event is given.",
        8 => "[IEL8] An invalid event is given.",
        9 => "[IEL9] An invalid event is given.",
        10 => "[IEL10] An invalid event is given.",
        11 => "[IEL11] An invalid event is given.",
        12 => "[IEL12] An invalid event is given.",
        13 => "[IEL13] An invalid event is given.",
        14 => "[IEL14] An invalid event is given.",
        15 => "[IEL15] An invalid event is given.",
        16 => "[IEL16] An invalid event is given.",
        17 => "[IEL17] An invalid event is given.",
        18 => "[IEL18] An invalid event is given.",
        19 => "[IEL19] An invalid event is given.",
        20 => "[IEL20] An invalid event is given.",
        21 => "[IEL21] An invalid event is given.",
        22 => "[IEL22] An invalid event is given.",
        23 => "[IEL23] An invalid event is given.",
        24 => "[IEL24] An invalid event is given.",
        25 => "[IEL25] An invalid event is given.",
        26 => "[IEL26] An invalid event is given.",
        27 => "[IEL27] An invalid event is given.",
        28 => "[IEL28] An invalid event is given.",
        29 => "[IEL29] An invalid event is given.",
        30 => "[IEL30] An invalid event is given.",
        31 => "[IEL31] An invalid event is given.",
        32 => "[IEL32] An invalid event is given.",
        33 => "[IEL33] An invalid event is given.",
        34 => "[IEL34] An invalid event is given.",
        35 => "[IEL35] An invalid event is given.",
        36 => "[IEL36] An invalid event is given.",
        37 => "[IEL37] An invalid event is given.",
        38 => "[IEL38] An invalid event is given.",
        39 => "[IEL39] An invalid event is given.",
        40 => "[IEL40] An invalid event is given.",
        41 => "[IEL41] An invalid event is given.",
        42 => "[IEL42] An invalid event is given.",
        43 => "[IEL43] An invalid event is given.",
        44 => "[IEL44] An invalid event is given.",
        45 => "[IEL45] An invalid event is given.",
        46 => "[IEL46] An invalid event is given.",
        47 => "[IEL47] An invalid event is given.",
        48 => "[IEL48] An invalid event is given.",
        49 => "[IEL49] An invalid event is given.",
        50 => "[IEL50] An invalid event is given.",
        51 => "[IEL51] An invalid event is given.",
        52 => "[IEL52] An invalid event is given.",
        53 => "[IEL53] An invalid event is given.",
        54 => "[IEL54] An invalid event is given.",
        55 => "[IEL55] An invalid event is given.",
        56 => "[IEL56] An invalid event is given.",
        57 => "[IEL57] An invalid event is given.",
        58 => "[IEL58] An invalid event is given.",
        59 => "[IEL59] An invalid event is given.",
        60 => "[IEL60] An invalid event is given.",
        61 => "[IEL61] An invalid event is given.",
        62 => "[IEL62] An invalid event is given.",
        63 => "[IEL63] An invalid event is given.",
        64 => "[IEL64] An invalid event is given.",
        65 => "[IEL65] An invalid event is given.",
        66 => "[IEL66] An invalid event is given.",
        67 => "[IEL67] An invalid event is given.",
        68 => "[IEL68] An invalid event is given.",
        69 => "[IEL69] An invalid event is given.",
        70 => "[IEL70] An invalid event is given.",
        71 => "[IEL71] An invalid event is given.",
        72 => "[IEL72] An invalid event is given.",
        73 => "[IEL73] An invalid event is given.",
        74 => "[IEL74] An invalid event is given.",
        75 => "[IEL75] An invalid event is given.",
        76 => "[IEL76] An invalid event is given.",
        77 => "[IEL77] An invalid event is given.",
        78 => "[IEL78] An invalid event is given.",
        79 => "[IEL79] An invalid event is given.",
        80 => "[IEL80] An invalid event is given.",
        81 => "[IEL81] An invalid event is given.",
        82 => "[IEL82] An invalid event is given.",
        83 => "[IEL83] An invalid event is given.",
        84 => "[IEL84] An invalid event is given.",
        85 => "[IEL85] An invalid event is given.",
        86 => "[IEL86] An invalid event is given.",
        87 => "[IEL87] An invalid event is given.",
        88 => "[IEL88] An invalid event is given.",
        89 => "[IEL89] An invalid event is given.",
        90 => "[IEL90] An invalid event is given.",
        91 => "[IEL91] An invalid event is given.",
        92 => "[IEL92] An invalid event is given.",
        93 => "[IEL93] An invalid event is given.",
        94 => "[IEL94] An invalid event is given.",
        95 => "[IEL95] An invalid event is given.",
        _ => "[IEL?] An invalid event is given.",
    }
}

/// The refusal of relinking a channel with a pending interrupt, for channel `id`.
pub open spec fn spec_msg_event_fired(id: u8) -> &'static str {
    if id == 0 {
        "[IEL0] Event is fired."
    } else if id == 1 {
        "[IEL1] Event is fired."
    } else if id == 2 {
        "[IEL2] Event is fired."
    } else if id == 3 {
        "[IEL3] Event is fired."
    } else if id == 4 {
        "[IEL4] Event is fired."
    } else if id == 5 {
        "[IEL5] Event is fired."
    } else if id == 6 {
        "[IEL6] Event is fired."
    } else if id == 7 {
        "[IEL7] Event is fired."
    } else if id == 8 {
        "[IEL8] Event is fired."
    } else if id == 9 {
        "[IEL9] Event is fired."
    } else if id == 10 {
        "[IEL10] Event is fired."
    } else if id == 11 {
        "[IEL11] Event is fired."
    } else if id == 12 {
        "[IEL12] Event is fired."
    } else if id == 13 {
        "[IEL13] Event is fired."
    } else if id == 14 {
        "[IEL14] Event is fired."
    } else if id == 15 {
        "[IEL15] Event is fired."
    } else if id == 16 {
        "[IEL16] Event is fired."
    } else if id == 17 {
        "[IEL17] Event is fired."
    } else if id == 18 {
        "[IEL18] Event is fired."
    } else if id == 19 {
        "[IEL19] Event is fired."
    } else if id == 20 {
        "[IEL20] Event is fired."
    } else if id == 21 {
        "[IEL21] Event is fired."
    } else if id == 22 {
        "[IEL22] Event is fired."
    } else if id == 23 {
        "[IEL23] Event is fired."
    } else if id == 24 {
        "[IEL24] Event is fired."
    } else if id == 25 {
        "[IEL25] Event is fired."
    } else if id == 26 {
        "[IEL26] Event is fired."
    } else if id == 27 {
        "[IEL27] Event is fired."
    } else if id == 28 {
        "[IEL28] Event is fired."
    } else if id == 29 {
        "[IEL29] Event is fired."
    } else if id == 30 {
        "[IEL30] Event is fired."
    } else if id == 31 {
        "[IEL31] Event is fired."
    } else if id == 32 {
        "[IEL32] Event is fired."
    } else if id == 33 {
        "[IEL33] Event is fired."
    } else if id == 34 {
        "[IEL34] Event is fired."
    } else if id == 35 {
        "[IEL35] Event is fired."
    } else if id == 36 {
        "[IEL36] Event is fired."
    } else if id == 37 {
        "[IEL37] Event is fired."
    } else if id == 38 {
        "[IEL38] Event is fired."
    } else if id == 39 {
        "[IEL39] Event is fired."
    } else if id == 40 {
        "[IEL40] Event is fired."
    } else if id == 41 {
        "[IEL41] Event is fired."
    } else if id == 42 {
        "[IEL42] Event is fired."
    } else if id == 43 {
        "[IEL43] Event is fired."
    } else if id == 44 {
        "[IEL44] Event is fired."
    } else if id == 45 {
        "[IEL45] Event is fired."
    } else if id == 46 {
        "[IEL46] Event is fired."
    } else if id == 47 {
        "[IEL47] Event is fired."
    } else if id == 48 {
        "[IEL48] Event is fired."
    } else if id == 49 {
        "[IEL49] Event is fired."
    } else if id == 50 {
        "[IEL50] Event is fired."
    } else if id == 51 {
        "[IEL51] Event is fired."
    } else if id == 52 {
        "[IEL52] Event is fired."
    } else if id == 53 {
        "[IEL53] Event is fired."
    } else if id == 54 {
        "[IEL54] Event is fired."
    } else if id == 55 {
        "[IEL55] Event is fired."
    } else if id == 56 {
        "[IEL56] Event is fired."
    } else if id == 57 {
        "[IEL57] Event is fired."
    } else if id == 58 {
        "[IEL58] Event is fired."
    } else if id == 59 {
        "[IEL59] Event is fired."
    } else if id == 60 {
        "[IEL60] Event is fired."
    } else if id == 61 {
        "[IEL61] Event is fired."
    } else if id == 62 {
        "[IEL62] Event is fired."
    } else if id == 63 {
        "[IEL63] Event is fired."
    } else if id == 64 {
        "[IEL64] Event is fired."
    } else if id == 65 {
        "[IEL65] Event is fired."
    } else if id == 66 {
        "[IEL66] Event is fired."
    } else if id == 67 {
        "[IEL67] Event is fired."
    } else if id == 68 {
        "[IEL68] Event is fired."
    } else if id == 69 {
        "[IEL69] Event is fired."
    } else if id == 70 {
        "[IEL70] Event is fired."
    } else if id == 71 {
        "[IEL71] Event is fired."
    } else if id == 72 {
        "[IEL72] Event is fired."
    } else if id == 73 {
        "[IEL73] Event is fired."
    } else if id == 74 {
        "[IEL74] Event is fired."
    } else if id == 75 {
        "[IEL75] Event is fired."
    } else if id == 76 {
        "[IEL76] Event is fired."
    } else if id == 77 {
        "[IEL77] Event is fired."
    } else if id == 78 {
        "[IEL78] Event is fired."
    } else if id == 79 {
        "[IEL79] Event is fired."
    } else if id == 80 {
        "[IEL80] Event is fired."
    } else if id == 81 {
        "[IEL81] Event is fired."
    } else if id == 82 {
        "[IEL82] Event is fired."
    } else if id == 83 {
        "[IEL83] Event is fired."
    } else if id == 84 {
        "[IEL84] Event is fired."
    } else if id == 85 {
        "[IEL85] Event is fired."
    } else if id == 86 {
        "[IEL86] Event is fired."
    } else if id == 87 {
        "[IEL87] Event is fired."
    } else if id == 88 {
        "[IEL88] Event is fired."
    } else if id == 89 {
        "[IEL89] Event is fired."
    } else if id == 90 {
        "[IEL90] Event is fired."
    } else if id == 91 {
        "[IEL91] Event is fired."
    } else if id == 92 {
        "[IEL92] Event is fired."
    } else if id == 93 {
        "[IEL93] Event is fired."
    } else if id == 94 {
        "[IEL94] Event is fired."
    } else if id == 95 {
        "[IEL95] Event is fired."
    } else {
        "[IEL?] Event is fired."
    }
}

fn msg_event_fired(id: u8) -> (m: &'static str)
    ensures
        m == spec_msg_event_fired(id),
{
    match id {
        0 => "[IEL0] Event is fired.",
        1 => "[IEL1] Event is fired.",
        2 => "[IEL2] Event is fired.",
        3 => "[IEL3] Event is fired.",
        4 => "[IEL4] Event is fired.",
        5 => "[IEL5] Event is fired.",
        6 => "[IEL6] Event is fired.",
        7 => "[IEL7] Event is fired.",
        8 => "[IEL8] Event is fired.",
        9 => "[IEL9] Event is fired.",
        10 => "[IEL10] Event is fired.",
        11 => "[IEL11] Event is fired.",
        12 => "[IEL12] Event is fired.",
        13 => "[IEL13] Event is fired.",
        14 => "[IEL14] Event is fired.",
        15 => "[IEL15] Event is fired.",
        16 => "[IEL16] Event is fired.",
        17 => "[IEL17] Event is fired.",
        18 => "[IEL18] Event is fired.",
        19 => "[IEL19] Event is fired.",
        20 => "[IEL20] Event is fired.",
        21 => "[IEL21] Event is fired.",
        22 => "[IEL22] Event is fired.",
        23 => "[IEL23] Event is fired.",
        24 => "[IEL24] Event is fired.",
        25 => "[IEL25] Event is fired.",
        26 => "[IEL26] Event is fired.",
        27 => "[IEL27] Event is fired.",
        28 => "[IEL28] Event is fired.",
        29 => "[IEL29] Event is fired.",
        30 => "[IEL30] Event is fired.",
        31 => "[IEL31] Event is fired.",
        32 => "[IEL32] Event is fired.",
        33 => "[IEL33] Event is fired.",
        34 => "[IEL34] Event is fired.",
        35 => "[IEL35] Event is fired.",
        36 => "[IEL36] Event is fired.",
        37 => "[IEL37] Event is fired.",
        38 => "[IEL38] Event is fired.",
        39 => "[IEL39] Event is fired.",
        40 => "[IEL40] Event is fired.",
        41 => "[IEL41] Event is fired.",
        42 => "[IEL42] Event is fired.",
        43 => "[IEL43] Event is fired.",
        44 => "[IEL44] Event is fired.",
        45 => "[IEL45] Event is fired.",
        46 => "[IEL46] Event is fired.",
        47 => "[IEL47] Event is fired.",
        48 => "[IEL48] Event is fired.",
        49 => "[IEL49] Event is fired.",
        50 => "[IEL50] Event is fired.",
        51 => "[IEL51] Event is fired.",
        52 => "[IEL52] Event is fired.",
        53 => "[IEL53] Event is fired.",
        54 => "[IEL54] Event is fired.",
        55 => "[IEL55] Event is fired.",
        56 => "[IEL56] Event is fired.",
        57 => "[IEL57] Event is fired.",
        58 => "[IEL58] Event is fired.",
        59 => "[IEL59] Event is fired.",
        60 => "[IEL60] Event is fired.",
        61 => "[IEL61] Event is fired.",
        62 => "[IEL62] Event is fired.",
        63 => "[IEL63] Event is fired.",
        64 => "[IEL64] Event is fired.",
        65 => "[IEL65] Event is fired.",
        66 => "[IEL66] Event is fired.",
        67 => "[IEL67] Event is fired.",
        68 => "[IEL68] Event is fired.",
        69 => "[IEL69] Event is fired.",
        70 => "[IEL70] Event is fired.",
        71 => "[IEL71] Event is fired.",
        72 => "[IEL72] Event is fired.",
        73 => "[IEL73] Event is fired.",
        74 => "[IEL74] Event is fired.",
        75 => "[IEL75] Event is fired.",
        76 => "[IEL76] Event is fired.",
        77 => "[IEL77] Event is fired.",
        78 => "[IEL78] Event is fired.",
        79 => "[IEL79] Event is fired.",
        80 => "[IEL80] Event is fired.",
        81 => "[IEL81] Event is fired.",
        82 => "[IEL82] Event is fired.",
        83 => "[IEL83] Event is fired.",
        84 => "[IEL84] Event is fired.",
        85 => "[IEL85] Event is fired.",
        86 => "[IEL86] Event is fired.",
        87 => "[IEL87] Event is fired.",
        88 => "[IEL88] Event is fired.",
        89 => "[IEL89] Event is fired.",
        90 => "[IEL90] Event is fired.",
        91 => "[IEL91] Event is fired.",
        92 => "[IEL92] Event is fired.",
        93 => "[IEL93] Event is fired.",
        94 => "[IEL94] Event is fired.",
        95 => "[IEL95] Event is fired.",
        _ => "[IEL?] Event is fired.",
    }
}

/// The 96 event link channels.
pub struct Iel {
    pub _id: (),
    pub iel0: Iel0,
    pub iel1: IelN,
    pub iel2: IelN,
    pub iel3: IelN,
    pub iel4: IelN,
    pub iel5: IelN,
    pub iel6: IelN,
    pub iel7: IelN,
    pub iel8: IelN,
    pub iel9: IelN,
    pub iel10: IelN,
    pub iel11: IelN,
    pub iel12: IelN,
    pub iel13: IelN,
    pub iel14: IelN,
    pub iel15: IelN,
    pub iel16: IelN,
    pub iel17: IelN,
    pub iel18: IelN,
    pub iel19: IelN,
    pub iel20: IelN,
    pub iel21: IelN,
    pub iel22: IelN,
    pub iel23: IelN,
    pub iel24: IelN,
    pub iel25: IelN,
    pub iel26: IelN,
    pub iel27: IelN,
    pub iel28: IelN,
    pub iel29: IelN,
    pub iel30: IelN,
    pub iel31: IelN,
    pub iel32: IelN,
    pub iel33: IelN,
    pub iel34: IelN,
    pub iel35: IelN,
    pub iel36: IelN,
    pub iel37: IelN,
    pub iel38: IelN,
    pub iel39: IelN,
    pub iel40: IelN,
    pub iel41: IelN,
    pub iel42: IelN,
    pub iel43: IelN,
    pub iel44: IelN,
    pub iel45: IelN,
    pub iel46: IelN,
    pub iel47: IelN,
    pub iel48: IelN,
    pub iel49: IelN,
    pub iel50: IelN,
    pub iel51: IelN,
    pub iel52: IelN,
    pub iel53: IelN,
    pub iel54: IelN,
    pub iel55: IelN,
    pub iel56: IelN,
    pub iel57: IelN,
    pub iel58: IelN,
    pub iel59: IelN,
    pub iel60: IelN,
    pub iel61: IelN,
    pub iel62: IelN,
    pub iel63: IelN,
    pub iel64: IelN,
    pub iel65: IelN,
    pub iel66: IelN,
    pub iel67: IelN,
    pub iel68: IelN,
    pub iel69: IelN,
    pub iel70: IelN,
    pub iel71: IelN,
    pub iel72: IelN,
    pub iel73: IelN,
    pub iel74: IelN,
    pub iel75: IelN,
    pub iel76: IelN,
    pub iel77: IelN,
    pub iel78: IelN,
    pub iel79: IelN,
    pub iel80: IelN,
    pub iel81: IelN,
    pub iel82: IelN,
    pub iel83: IelN,
    pub iel84: IelN,
    pub iel85: IelN,
    pub iel86: IelN,
    pub iel87: IelN,
    pub iel88: IelN,
    pub iel89: IelN,
    pub iel90: IelN,
    pub iel91: IelN,
    pub iel92: IelN,
    pub iel93: IelN,
    pub iel94: IelN,
    pub iel95: IelN,
}

impl Iel {
    /// Channel `n` (1 to 95) is the handle of IELSR`n`.
    pub open spec fn spec_channel_ids(&self) -> bool {
        &&& self.iel1.spec_id() == 1
        &&& self.iel2.spec_id() == 2
        &&& self.iel3.spec_id() == 3
        &&& self.iel4.spec_id() == 4
        &&& self.iel5.spec_id() == 5
        &&& self.iel6.spec_id() == 6
        &&& self.iel7.spec_id() == 7
        &&& self.iel8.spec_id() == 8
        &&& self.iel9.spec_id() == 9
        &&& self.iel10.spec_id() == 10
        &&& self.iel11.spec_id() == 11
        &&& self.iel12.spec_id() == 12
        &&& self.iel13.spec_id() == 13
        &&& self.iel14.spec_id() == 14
        &&& self.iel15.spec_id() == 15
        &&& self.iel16.spec_id() == 16
        &&& self.iel17.spec_id() == 17
        &&& self.iel18.spec_id() == 18
        &&& self.iel19.spec_id() == 19
        &&& self.iel20.spec_id() == 20
        &&& self.iel21.spec_id() == 21
        &&& self.iel22.spec_id() == 22
        &&& self.iel23.spec_id() == 23
        &&& self.iel24.spec_id() == 24
        &&& self.iel25.spec_id() == 25
        &&& self.iel26.spec_id() == 26
        &&& self.iel27.spec_id() == 27
        &&& self.iel28.spec_id() == 28
        &&& self.iel29.spec_id() == 29
        &&& self.iel30.spec_id() == 30
        &&& self.iel31.spec_id() == 31
        &&& self.iel32.spec_id() == 32
        &&& self.iel33.spec_id() == 33
        &&& self.iel34.spec_id() == 34
        &&& self.iel35.spec_id() == 35
        &&& self.iel36.spec_id() == 36
        &&& self.iel37.spec_id() == 37
        &&& self.iel38.spec_id() == 38
        &&& self.iel39.spec_id() == 39
        &&& self.iel40.spec_id() == 40
        &&& self.iel41.spec_id() == 41
        &&& self.iel42.spec_id() == 42
        &&& self.iel43.spec_id() == 43
        &&& self.iel44.spec_id() == 44
        &&& self.iel45.spec_id() == 45
        &&& self.iel46.spec_id() == 46
        &&& self.iel47.spec_id() == 47
        &&& self.iel48.spec_id() == 48
        &&& self.iel49.spec_id() == 49
        &&& self.iel50.spec_id() == 50
        &&& self.iel51.spec_id() == 51
        &&& self.iel52.spec_id() == 52
        &&& self.iel53.spec_id() == 53
        &&& self.iel54.spec_id() == 54
        &&& self.iel55.spec_id() == 55
        &&& self.iel56.spec_id() == 56
        &&& self.iel57.spec_id() == 57
        &&& self.iel58.spec_id() == 58
        &&& self.iel59.spec_id() == 59
        &&& self.iel60.spec_id() == 60
        &&& self.iel61.spec_id() == 61
        &&& self.iel62.spec_id() == 62
        &&& self.iel63.spec_id() == 63
        &&& self.iel64.spec_id() == 64
        &&& self.iel65.spec_id() == 65
        &&& self.iel66.spec_id() == 66
        &&& self.iel67.spec_id() == 67
        &&& self.iel68.spec_id() == 68
        &&& self.iel69.spec_id() == 69
        &&& self.iel70.spec_id() == 70
        &&& self.iel71.spec_id() == 71
        &&& self.iel72.spec_id() == 72
        &&& self.iel73.spec_id() == 73
        &&& self.iel74.spec_id() == 74
        &&& self.iel75.spec_id() == 75
        &&& self.iel76.spec_id() == 76
        &&& self.iel77.spec_id() == 77
        &&& self.iel78.spec_id() == 78
        &&& self.iel79.spec_id() == 79
        &&& self.iel80.spec_id() == 80
        &&& self.iel81.spec_id() == 81
        &&& self.iel82.spec_id() == 82
        &&& self.iel83.spec_id() == 83
        &&& self.iel84.spec_id() == 84
        &&& self.iel85.spec_id() == 85
        &&& self.iel86.spec_id() == 86
        &&& self.iel87.spec_id() == 87
        &&& self.iel88.spec_id() == 88
        &&& self.iel89.spec_id() == 89
        &&& self.iel90.spec_id() == 90
        &&& self.iel91.spec_id() == 91
        &&& self.iel92.spec_id() == 92
        &&& self.iel93.spec_id() == 93
        &&& self.iel94.spec_id() == 94
        &&& self.iel95.spec_id() == 95
    }

    pub(crate) fn new() -> (r: Iel)
        ensures
            r.spec_channel_ids(),
    {
        Iel {
            _id: (),
            iel0: Iel0::new(),
            iel1: IelN::new(1),
            iel2: IelN::new(2),
            iel3: IelN::new(3),
            iel4: IelN::new(4),
            iel5: IelN::new(5),
            iel6: IelN::new(6),
            iel7: IelN::new(7),
            iel8: IelN::new(8),
            iel9: IelN::new(9),
            iel10: IelN::new(10),
            iel11: IelN::new(11),
            iel12: IelN::new(12),
            iel13: IelN::new(13),
            iel14: IelN::new(14),
            iel15: IelN::new(15),
            iel16: IelN::new(16),
            iel17: IelN::new(17),
            iel18: IelN::new(18),
            iel19: IelN::new(19),
            iel20: IelN::new(20),
            iel21: IelN::new(21),
            iel22: IelN::new(22),
            iel23: IelN::new(23),
            iel24: IelN::new(24),
            iel25: IelN::new(25),
            iel26: IelN::new(26),
            iel27: IelN::new(27),
            iel28: IelN::new(28),
            iel29: IelN::new(29),
            iel30: IelN::new(30),
            iel31: IelN::new(31),
            iel32: IelN::new(32),
            iel33: IelN::new(33),
            iel34: IelN::new(34),
            iel35: IelN::new(35),
            iel36: IelN::new(36),
            iel37: IelN::new(37),
            iel38: IelN::new(38),
            iel39: IelN::new(39),
            iel40: IelN::new(40),
            iel41: IelN::new(41),
            iel42: IelN::new(42),
            iel43: IelN::new(43),
            iel44: IelN::new(44),
            iel45: IelN::new(45),
            iel46: IelN::new(46),
            iel47: IelN::new(47),
            iel48: IelN::new(48),
            iel49: IelN::new(49),
            iel50: IelN::new(50),
            iel51: IelN::new(51),
            iel52: IelN::new(52),
            iel53: IelN::new(53),
            iel54: IelN::new(54),
            iel55: IelN::new(55),
            iel56: IelN::new(56),
            iel57: IelN::new(57),
            iel58: IelN::new(58),
            iel59: IelN::new(59),
            iel60: IelN::new(60),
            iel61: IelN::new(61),
            iel62: IelN::new(62),
            iel63: IelN::new(63),
            iel64: IelN::new(64),
            iel65: IelN::new(65),
            iel66: IelN::new(66),
            iel67: IelN::new(67),
            iel68: IelN::new(68),
            iel69: IelN::new(69),
            iel70: IelN::new(70),
            iel71: IelN::new(71),
            iel72: IelN::new(72),
            iel73: IelN::new(73),
            iel74: IelN::new(74),
            iel75: IelN::new(75),
            iel76: IelN::new(76),
            iel77: IelN::new(77),
            iel78: IelN::new(78),
            iel79: IelN::new(79),
            iel80: IelN::new(80),
            iel81: IelN::new(81),
            iel82: IelN::new(82),
            iel83: IelN::new(83),
            iel84: IelN::new(84),
            iel85: IelN::new(85),
            iel86: IelN::new(86),
            iel87: IelN::new(87),
            iel88: IelN::new(88),
            iel89: IelN::new(89),
            iel90: IelN::new(90),
            iel91: IelN::new(91),
            iel92: IelN::new(92),
            iel93: IelN::new(93),
            iel94: IelN::new(94),
            iel95: IelN::new(95),
        }
    }
}

/// Event link channel 0. Clearing its interrupt flag writes IR = 1, where the
/// other channels write IR = 0.
pub struct Iel0 {
    _id: u8,
}

impl Iel0 {
    pub(crate) fn new() -> Iel0 {
        Iel0 { _id: 0 }
    }

    pub open spec fn spec_id(&self) -> u8 {
        0
    }

    fn id(&self) -> (r: u8)
        ensures
            r == self.spec_id(),
    {
        0
    }

    pub fn is_fired(&self, ielsr: &u32) -> (r: bool)
        ensures
            r == spec_ir(*ielsr),
    {
        ((*ielsr >> 16u32) & 1) == 1
    }

    pub fn is_dtce_enabled(&self, ielsr: &u32) -> (r: bool)
        ensures
            r == spec_dtce(*ielsr),
    {
        ((*ielsr >> 24u32) & 1) == 1
    }

    /// Interrupt handler step: clears IR unless the DTC handles the event.
    pub fn on_interrupt(ielsr: &mut u32) -> (r: Result<(), RegisterError>)
        ensures
            r is Ok,
            *final(ielsr) == (if spec_dtce(*old(ielsr)) { *old(ielsr) } else { *old(ielsr) & !(1u32 << 16u32) }),
    {
        let v = *ielsr;
        assert((((v >> 24u32) & 1) == 0) == !(((v >> 24u32) & 1) == 1)) by (bit_vector);
        if ((v >> 24u32) & 1) == 0 {
            *ielsr = v & !(1u32 << 16u32);
        }
        Ok(())
    }

    /// Enables DTC activation by the event. The event must be one that this driver
    /// knows; the request is refused for the events that the DTC may serve.
    pub fn enable_dtce(&mut self, ielsr: &mut u32) -> (r: Result<(), RegisterError>)
        ensures
            IcuEvent::spec_from_u32(*old(ielsr) & 0x1ff) is None ==> r == Err::<(), RegisterError>(
                RegisterError::InvalidValue(spec_msg_invalid_event(old(self).spec_id()))) && *final(ielsr) == *old(ielsr),
            IcuEvent::spec_from_u32(*old(ielsr) & 0x1ff) matches Some(e) && e.spec_is_dtc_allowed() ==> r == Err::<(), RegisterError>(
                RegisterError::ProhibitedOperation(spec_msg_dtc_not_allowed(old(self).spec_id()))) && *final(ielsr) == *old(ielsr),
            IcuEvent::spec_from_u32(*old(ielsr) & 0x1ff) matches Some(e) && !e.spec_is_dtc_allowed() ==> r is Ok
                && *final(ielsr) == *old(ielsr) | (1u32 << 24u32),
    {
        match self.get_event(ielsr) {
            Some(e) => {
                if e.is_dtc_allowed() {
                    Err(RegisterError::ProhibitedOperation(msg_dtc_not_allowed(self.id())))
                } else {
                    *ielsr = *ielsr | (1u32 << 24u32);
                    Ok(())
                }
            },
            None => Err(RegisterError::InvalidValue(msg_invalid_event(self.id()))),
        }
    }

    /// Disables DTC activation by the event.
    pub fn disable_dtce(&mut self, ielsr: &mut u32) -> (r: Result<(), RegisterError>)
        ensures
            r is Ok,
            *final(ielsr) == *old(ielsr) & !(1u32 << 24u32),
    {
        *ielsr = *ielsr & !(1u32 << 24u32);
        Ok(())
    }

    /// The event that the channel is linked to, if this driver knows it.
    pub fn get_event(&self, ielsr: &u32) -> (r: Option<IcuEvent>)
        ensures
            r == IcuEvent::spec_from_u32(*ielsr & 0x1ff),
    {
        IcuEvent::from_u32(*ielsr & 0x1ff)
    }

    /// Links the channel to an event while no interrupt is pending: the low byte
    /// of IELSR becomes the event number.
    pub fn set_event(&mut self, ielsr: &mut u32, event: IcuEvent) -> (r: Result<(), RegisterError>)
        ensures
            spec_ir(*old(ielsr)) ==> r == Err::<(), RegisterError>(RegisterError::NotReadyToWrite(
                spec_msg_event_fired(old(self).spec_id()))) && *final(ielsr) == *old(ielsr),
            !spec_ir(*old(ielsr)) ==> r is Ok && *final(ielsr) == ((*old(ielsr) >> 8u32) << 8u32) | event.spec_bits(),
    {
        if self.is_fired(ielsr) {
            Err(RegisterError::NotReadyToWrite(msg_event_fired(self.id())))
        } else {
            let v = *ielsr;
            *ielsr = ((v >> 8u32) << 8u32) | event.bits();
            Ok(())
        }
    }

    /// Acknowledges the interrupt while the DTC does not handle the event; this
    /// channel sets IR (bit 16) in doing so.
    pub fn reset_fire(&mut self, ielsr: &mut u32) -> (r: Result<(), RegisterError>)
        ensures
            spec_dtce(*old(ielsr)) ==> r == Err::<(), RegisterError>(RegisterError::NotReadyToWrite(
                "[IEL0] DTC is working.")) && *final(ielsr) == *old(ielsr),
            !spec_dtce(*old(ielsr)) ==> r is Ok && *final(ielsr) == *old(ielsr) | (1u32 << 16u32),
    {
        if self.is_dtce_enabled(ielsr) {
            Err(RegisterError::NotReadyToWrite("[IEL0] DTC is working."))
        } else {
            *ielsr = *ielsr | (1u32 << 16u32);
            Ok(())
        }
    }
}

/// An event link channel from 1 to 95.
pub struct IelN {
    id: u8,
}

impl IelN {
    pub(crate) fn new(id: u8) -> (r: IelN)
        ensures
            r.spec_id() == id,
    {
        IelN { id }
    }

    /// The channel number.
    pub closed spec fn spec_id(&self) -> u8 {
        self.id
    }

    pub fn id(&self) -> (r: u8)
        ensures
            r == self.spec_id(),
    {
        self.id
    }

    pub fn is_fired(&self, ielsr: &u32) -> (r: bool)
        ensures
            r == spec_ir(*ielsr),
    {
        ((*ielsr >> 16u32) & 1) == 1
    }

    pub fn is_dtce_enabled(&self, ielsr: &u32) -> (r: bool)
        ensures
            r == spec_dtce(*ielsr),
    {
        ((*ielsr >> 24u32) & 1) == 1
    }

    /// Interrupt handler step: clears IR unless the DTC handles the event.
    pub fn on_interrupt(ielsr: &mut u32) -> (r: Result<(), RegisterError>)
        ensures
            r is Ok,
            *final(ielsr) == (if spec_dtce(*old(ielsr)) { *old(ielsr) } else { *old(ielsr) & !(1u32 << 16u32) }),
    {
        let v = *ielsr;
        assert((((v >> 24u32) & 1) == 0) == !(((v >> 24u32) & 1) == 1)) by (bit_vector);
        if ((v >> 24u32) & 1) == 0 {
            *ielsr = v & !(1u32 << 16u32);
        }
        Ok(())
    }

    /// Enables DTC activation by the event. The event must be one that this driver
    /// knows; the request is refused for the events that the DTC may serve.
    pub fn enable_dtce(&mut self, ielsr: &mut u32) -> (r: Result<(), RegisterError>)
        ensures
            IcuEvent::spec_from_u32(*old(ielsr) & 0x1ff) is None ==> r == Err::<(), RegisterError>(
                RegisterError::InvalidValue(spec_msg_invalid_event(old(self).spec_id()))) && *final(ielsr) == *old(ielsr),
            IcuEvent::spec_from_u32(*old(ielsr) & 0x1ff) matches Some(e) && e.spec_is_dtc_allowed() ==> r == Err::<(), RegisterError>(
                RegisterError::ProhibitedOperation(spec_msg_dtc_not_allowed(old(self).spec_id()))) && *final(ielsr) == *old(ielsr),
            IcuEvent::spec_from_u32(*old(ielsr) & 0x1ff) matches Some(e) && !e.spec_is_dtc_allowed() ==> r is Ok
                && *final(ielsr) == *old(ielsr) | (1u32 << 24u32),
    {
        match self.get_event(ielsr) {
            Some(e) => {
                if e.is_dtc_allowed() {
                    Err(RegisterError::ProhibitedOperation(msg_dtc_not_allowed(self.id())))
                } else {
                    *ielsr = *ielsr | (1u32 << 24u32);
                    Ok(())
                }
            },
            None => Err(RegisterError::InvalidValue(msg_invalid_event(self.id()))),
        }
    }

    /// Disables DTC activation by the event.
    pub fn disable_dtce(&mut self, ielsr: &mut u32) -> (r: Result<(), RegisterError>)
        ensures
            r is Ok,
            *final(ielsr) == *old(ielsr) & !(1u32 << 24u32),
    {
        *ielsr = *ielsr & !(1u32 << 24u32);
        Ok(())
    }

    /// The event that the channel is linked to, if this driver knows it.
    pub fn get_event(&self, ielsr: &u32) -> (r: Option<IcuEvent>)
        ensures
            r == IcuEvent::spec_from_u32(*ielsr & 0x1ff),
    {
        IcuEvent::from_u32(*ielsr & 0x1ff)
    }

    /// Links the channel to an event while no interrupt is pending: the low byte
    /// of IELSR becomes the event number.
    pub fn set_event(&mut self, ielsr: &mut u32, event: IcuEvent) -> (r: Result<(), RegisterError>)
        ensures
            spec_ir(*old(ielsr)) ==> r == Err::<(), RegisterError>(RegisterError::NotReadyToWrite(
                spec_msg_event_fired(old(self).spec_id()))) && *final(ielsr) == *old(ielsr),
            !spec_ir(*old(ielsr)) ==> r is Ok && *final(ielsr) == ((*old(ielsr) >> 8u32) << 8u32) | event.spec_bits(),
    {
        if self.is_fired(ielsr) {
            Err(RegisterError::NotReadyToWrite(msg_event_fired(self.id())))
        } else {
            let v = *ielsr;
            *ielsr = ((v >> 8u32) << 8u32) | event.bits();
            Ok(())
        }
    }

    /// Acknowledges the interrupt while the DTC does not handle the event: clears
    /// IR (bit 16).
    pub fn reset_fire(&mut self, ielsr: &mut u32) -> (r: Result<(), RegisterError>)
        ensures
            spec_dtce(*old(ielsr)) ==> r == Err::<(), RegisterError>(RegisterError::NotReadyToWrite(
                spec_msg_dtc_working(old(self).spec_id()))) && *final(ielsr) == *old(ielsr),
            !spec_dtce(*old(ielsr)) ==> r is Ok && *final(ielsr) == *old(ielsr) & !(1u32 << 16u32),
    {
        if self.is_dtce_enabled(ielsr) {
            Err(RegisterError::NotReadyToWrite(msg_dtc_working(self.id())))
        } else {
            *ielsr = *ielsr & !(1u32 << 16u32);
            Ok(())
        }
    }
}

} // verus!
