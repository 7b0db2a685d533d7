use vstd::prelude::*;

use crate::LENGTH_MASK;

verus! {

/// The final byte of an inline buffer, written as an enum so that no raw
/// reinterpretation is ever needed.
///
/// The variants stand, in order, for the 216 values the packed final byte of
/// the in-place layout can take: `Last0` .. `Last191` mean a full buffer of
/// `MAX_SIZE` content bytes whose final content byte is the variant's number
/// (a byte that ends a UTF-8 encoded text is always below 192), while
/// `Len0` .. `Len23` mean a buffer holding that many content bytes, mirroring
/// the packed byte `length | LENGTH_MASK`. The remaining byte values are free
/// for the compiler to tag the other variants of the string value with.
#[derive(Clone, Copy, Debug, PartialEq, Eq, PartialOrd, Ord, Hash)]
pub enum Meta {
    Last0,
    Last1,
    Last2,
    Last3,
    Last4,
    Last5,
    Last6,
    Last7,
    Last8,
    Last9,
    Last10,
    Last11,
    Last12,
    Last13,
    Last14,
    Last15,
    Last16,
    Last17,
    Last18,
    Last19,
    Last20,
    Last21,
    Last22,
    Last23,
    Last24,
    Last25,
    Last26,
    Last27,
    Last28,
    Last29,
    Last30,
    Last31,
    Last32,
    Last33,
    Last34,
    Last35,
    Last36,
    Last37,
    Last38,
    Last39,
    Last40,
    Last41,
    Last42,
    Last43,
    Last44,
    Last45,
    Last46,
    Last47,
    Last48,
    Last49,
    Last50,
    Last51,
    Last52,
    Last53,
    Last54,
    Last55,
    Last56,
    Last57,
    Last58,
    Last59,
    Last60,
    Last61,
    Last62,
    Last63,
    Last64,
    Last65,
    Last66,
    Last67,
    Last68,
    Last69,
    Last70,
    Last71,
    Last72,
    Last73,
    Last74,
    Last75,
    Last76,
    Last77,
    Last78,
    Last79,
    Last80,
    Last81,
    Last82,
    Last83,
    Last84,
    Last85,
    Last86,
    Last87,
    Last88,
    Last89,
    Last90,
    Last91,
    Last92,
    Last93,
    Last94,
    Last95,
    Last96,
    Last97,
    Last98,
    Last99,
    Last100,
    Last101,
    Last102,
    Last103,
    Last104,
    Last105,
    Last106,
    Last107,
    Last108,
    Last109,
    Last110,
    Last111,
    Last112,
    Last113,
    Last114,
    Last115,
    Last116,
    Last117,
    Last118,
    Last119,
    Last120,
    Last121,
    Last122,
    Last123,
    Last124,
    Last125,
    Last126,
    Last127,
    Last128,
    Last129,
    Last130,
    Last131,
    Last132,
    Last133,
    Last134,
    Last135,
    Last136,
    Last137,
    Last138,
    Last139,
    Last140,
    Last141,
    Last142,
    Last143,
    Last144,
    Last145,
    Last146,
    Last147,
    Last148,
    Last149,
    Last150,
    Last151,
    Last152,
    Last153,
    Last154,
    Last155,
    Last156,
    Last157,
    Last158,
    Last159,
    Last160,
    Last161,
    Last162,
    Last163,
    Last164,
    Last165,
    Last166,
    Last167,
    Last168,
    Last169,
    Last170,
    Last171,
    Last172,
    Last173,
    Last174,
    Last175,
    Last176,
    Last177,
    Last178,
    Last179,
    Last180,
    Last181,
    Last182,
    Last183,
    Last184,
    Last185,
    Last186,
    Last187,
    Last188,
    Last189,
    Last190,
    Last191,
    Len0,
    Len1,
    Len2,
    Len3,
    Len4,
    Len5,
    Len6,
    Len7,
    Len8,
    Len9,
    Len10,
    Len11,
    Len12,
    Len13,
    Len14,
    Len15,
    Len16,
    Len17,
    Len18,
    Len19,
    Len20,
    Len21,
    Len22,
    Len23,
}

/// Content length, in bytes, of an inline buffer with this final byte.
pub open spec fn spec_meta_len(m: Meta) -> nat {
    match m {
        Meta::Len0 => 0,
        Meta::Len1 => 1,
        Meta::Len2 => 2,
        Meta::Len3 => 3,
        Meta::Len4 => 4,
        Meta::Len5 => 5,
        Meta::Len6 => 6,
        Meta::Len7 => 7,
        Meta::Len8 => 8,
        Meta::Len9 => 9,
        Meta::Len10 => 10,
        Meta::Len11 => 11,
        Meta::Len12 => 12,
        Meta::Len13 => 13,
        Meta::Len14 => 14,
        Meta::Len15 => 15,
        Meta::Len16 => 16,
        Meta::Len17 => 17,
        Meta::Len18 => 18,
        Meta::Len19 => 19,
        Meta::Len20 => 20,
        Meta::Len21 => 21,
        Meta::Len22 => 22,
        Meta::Len23 => 23,
        _ => 24,
    }
}

/// Final content byte of a full inline buffer; zero for the shorter forms,
/// whose final byte carries a length instead of content.
pub open spec fn spec_meta_last(m: Meta) -> u8 {
    match m {
        Meta::Last0 => 0,
        Meta::Last1 => 1,
        Meta::Last2 => 2,
        Meta::Last3 => 3,
        Meta::Last4 => 4,
        Meta::Last5 => 5,
        Meta::Last6 => 6,
        Meta::Last7 => 7,
        Meta::Last8 => 8,
        Meta::Last9 => 9,
        Meta::Last10 => 10,
        Meta::Last11 => 11,
        Meta::Last12 => 12,
        Meta::Last13 => 13,
        Meta::Last14 => 14,
        Meta::Last15 => 15,
        Meta::Last16 => 16,
        Meta::Last17 => 17,
        Meta::Last18 => 18,
        Meta::Last19 => 19,
        Meta::Last20 => 20,
        Meta::Last21 => 21,
        Meta::Last22 => 22,
        Meta::Last23 => 23,
        Meta::Last24 => 24,
        Meta::Last25 => 25,
        Meta::Last26 => 26,
        Meta::Last27 => 27,
        Meta::Last28 => 28,
        Meta::Last29 => 29,
        Meta::Last30 => 30,
        Meta::Last31 => 31,
        Meta::Last32 => 32,
        Meta::Last33 => 33,
        Meta::Last34 => 34,
        Meta::Last35 => 35,
        Meta::Last36 => 36,
        Meta::Last37 => 37,
        Meta::Last38 => 38,
        Meta::Last39 => 39,
        Meta::Last40 => 40,
        Meta::Last41 => 41,
        Meta::Last42 => 42,
        Meta::Last43 => 43,
        Meta::Last44 => 44,
        Meta::Last45 => 45,
        Meta::Last46 => 46,
        Meta::Last47 => 47,
        Meta::Last48 => 48,
        Meta::Last49 => 49,
        Meta::Last50 => 50,
        Meta::Last51 => 51,
        Meta::Last52 => 52,
        Meta::Last53 => 53,
        Meta::Last54 => 54,
        Meta::Last55 => 55,
        Meta::Last56 => 56,
        Meta::Last57 => 57,
        Meta::Last58 => 58,
        Meta::Last59 => 59,
        Meta::Last60 => 60,
        Meta::Last61 => 61,
        Meta::Last62 => 62,
        Meta::Last63 => 63,
        Meta::Last64 => 64,
        Meta::Last65 => 65,
        Meta::Last66 => 66,
        Meta::Last67 => 67,
        Meta::Last68 => 68,
        Meta::Last69 => 69,
        Meta::Last70 => 70,
        Meta::Last71 => 71,
        Meta::Last72 => 72,
        Meta::Last73 => 73,
        Meta::Last74 => 74,
        Meta::Last75 => 75,
        Meta::Last76 => 76,
        Meta::Last77 => 77,
        Meta::Last78 => 78,
        Meta::Last79 => 79,
        Meta::Last80 => 80,
        Meta::Last81 => 81,
        Meta::Last82 => 82,
        Meta::Last83 => 83,
        Meta::Last84 => 84,
        Meta::Last85 => 85,
        Meta::Last86 => 86,
        Meta::Last87 => 87,
        Meta::Last88 => 88,
        Meta::Last89 => 89,
        Meta::Last90 => 90,
        Meta::Last91 => 91,
        Meta::Last92 => 92,
        Meta::Last93 => 93,
        Meta::Last94 => 94,
        Meta::Last95 => 95,
        Meta::Last96 => 96,
        Meta::Last97 => 97,
        Meta::Last98 => 98,
        Meta::Last99 => 99,
        Meta::Last100 => 100,
        Meta::Last101 => 101,
        Meta::Last102 => 102,
        Meta::Last103 => 103,
        Meta::Last104 => 104,
        Meta::Last105 => 105,
        Meta::Last106 => 106,
        Meta::Last107 => 107,
        Meta::Last108 => 108,
        Meta::Last109 => 109,
        Meta::Last110 => 110,
        Meta::Last111 => 111,
        Meta::Last112 => 112,
        Meta::Last113 => 113,
        Meta::Last114 => 114,
        Meta::Last115 => 115,
        Meta::Last116 => 116,
        Meta::Last117 => 117,
        Meta::Last118 => 118,
        Meta::Last119 => 119,
        Meta::Last120 => 120,
        Meta::Last121 => 121,
        Meta::Last122 => 122,
        Meta::Last123 => 123,
        Meta::Last124 => 124,
        Meta::Last125 => 125,
        Meta::Last126 => 126,
        Meta::Last127 => 127,
        Meta::Last128 => 128,
        Meta::Last129 => 129,
        Meta::Last130 => 130,
        Meta::Last131 => 131,
        Meta::Last132 => 132,
        Meta::Last133 => 133,
        Meta::Last134 => 134,
        Meta::Last135 => 135,
        Meta::Last136 => 136,
        Meta::Last137 => 137,
        Meta::Last138 => 138,
        Meta::Last139 => 139,
        Meta::Last140 => 140,
        Meta::Last141 => 141,
        Meta::Last142 => 142,
        Meta::Last143 => 143,
        Meta::Last144 => 144,
        Meta::Last145 => 145,
        Meta::Last146 => 146,
        Meta::Last147 => 147,
        Meta::Last148 => 148,
        Meta::Last149 => 149,
        Meta::Last150 => 150,
        Meta::Last151 => 151,
        Meta::Last152 => 152,
        Meta::Last153 => 153,
        Meta::Last154 => 154,
        Meta::Last155 => 155,
        Meta::Last156 => 156,
        Meta::Last157 => 157,
        Meta::Last158 => 158,
        Meta::Last159 => 159,
        Meta::Last160 => 160,
        Meta::Last161 => 161,
        Meta::Last162 => 162,
        Meta::Last163 => 163,
        Meta::Last164 => 164,
        Meta::Last165 => 165,
        Meta::Last166 => 166,
        Meta::Last167 => 167,
        Meta::Last168 => 168,
        Meta::Last169 => 169,
        Meta::Last170 => 170,
        Meta::Last171 => 171,
        Meta::Last172 => 172,
        Meta::Last173 => 173,
        Meta::Last174 => 174,
        Meta::Last175 => 175,
        Meta::Last176 => 176,
        Meta::Last177 => 177,
        Meta::Last178 => 178,
        Meta::Last179 => 179,
        Meta::Last180 => 180,
        Meta::Last181 => 181,
        Meta::Last182 => 182,
        Meta::Last183 => 183,
        Meta::Last184 => 184,
        Meta::Last185 => 185,
        Meta::Last186 => 186,
        Meta::Last187 => 187,
        Meta::Last188 => 188,
        Meta::Last189 => 189,
        Meta::Last190 => 190,
        Meta::Last191 => 191,
        _ => 0,
    }
}

/// The byte value the variant stands for in the flat layout: the content
/// length with both mask bits set, or — at full capacity — the final content
/// byte itself.
pub open spec fn spec_meta_byte(m: Meta) -> u8 {
    if spec_meta_len(m) < 24 {
        (spec_meta_len(m) as u8) | LENGTH_MASK
    } else {
        spec_meta_last(m)
    }
}

/// Reads the byte value the variant stands for back out.
pub fn meta_byte(m: Meta) -> (b: u8)
    ensures
        b == spec_meta_byte(m),
{
    let len: usize = meta_len(m);
    if len < 24 {
        (len as u8) | LENGTH_MASK
    } else {
        meta_last(m)
    }
}

/// The byte of a full buffer is below the mask: it ends a UTF-8 encoded
/// text, so its two high bits are never both set.
pub proof fn lemma_meta_last_bound(m: Meta)
    ensures
        spec_meta_last(m) < 192,
{
}

/// The packed byte decodes by masking, exactly as the flat layout reads it:
/// both mask bits set mean the low six bits carry the length, any other byte
/// means full capacity.
pub proof fn lemma_length_mask_decode(m: Meta)
    ensures
        spec_meta_len(m) == if spec_meta_byte(m) & LENGTH_MASK == LENGTH_MASK {
            (spec_meta_byte(m) & !LENGTH_MASK) as nat
        } else {
            24
        },
{
    if spec_meta_len(m) < 24 {
        let l = spec_meta_len(m) as u8;
        assert(l < 24 ==> ((l | 0xc0) & 0xc0 == 0xc0) && ((l | 0xc0) & !0xc0 == l)) by (bit_vector);
    } else {
        lemma_meta_last_bound(m);
        let b = spec_meta_last(m);
        assert(b < 192 ==> b & 0xc0 != 0xc0) by (bit_vector);
    }
}

/// Final byte for a buffer that holds `len` content bytes, `len` below the
/// full capacity.
pub fn meta_of_len(len: u8) -> (m: Meta)
    requires
        len < 24,
    ensures
        spec_meta_len(m) == len,
{
    match len {
        0 => Meta::Len0,
        1 => Meta::Len1,
        2 => Meta::Len2,
        3 => Meta::Len3,
        4 => Meta::Len4,
        5 => Meta::Len5,
        6 => Meta::Len6,
        7 => Meta::Len7,
        8 => Meta::Len8,
        9 => Meta::Len9,
        10 => Meta::Len10,
        11 => Meta::Len11,
        12 => Meta::Len12,
        13 => Meta::Len13,
        14 => Meta::Len14,
        15 => Meta::Len15,
        16 => Meta::Len16,
        17 => Meta::Len17,
        18 => Meta::Len18,
        19 => Meta::Len19,
        20 => Meta::Len20,
        21 => Meta::Len21,
        22 => Meta::Len22,
        23 => Meta::Len23,
        _ => Meta::Len0,
    }
}

/// Final byte for a full buffer whose last content byte is `b`; only bytes
/// that can end a UTF-8 encoded text fit.
pub fn meta_of_last(b: u8) -> (m: Meta)
    requires
        b < 192,
    ensures
        spec_meta_len(m) == 24,
        spec_meta_last(m) == b,
{
    match b {
        0 => Meta::Last0,
        1 => Meta::Last1,
        2 => Meta::Last2,
        3 => Meta::Last3,
        4 => Meta::Last4,
        5 => Meta::Last5,
        6 => Meta::Last6,
        7 => Meta::Last7,
        8 => Meta::Last8,
        9 => Meta::Last9,
        10 => Meta::Last10,
        11 => Meta::Last11,
        12 => Meta::Last12,
        13 => Meta::Last13,
        14 => Meta::Last14,
        15 => Meta::Last15,
        16 => Meta::Last16,
        17 => Meta::Last17,
        18 => Meta::Last18,
        19 => Meta::Last19,
        20 => Meta::Last20,
        21 => Meta::Last21,
        22 => Meta::Last22,
        23 => Meta::Last23,
        24 => Meta::Last24,
        25 => Meta::Last25,
        26 => Meta::Last26,
        27 => Meta::Last27,
        28 => Meta::Last28,
        29 => Meta::Last29,
        30 => Meta::Last30,
        31 => Meta::Last31,
        32 => Meta::Last32,
        33 => Meta::Last33,
        34 => Meta::Last34,
        35 => Meta::Last35,
        36 => Meta::Last36,
        37 => Meta::Last37,
        38 => Meta::Last38,
        39 => Meta::Last39,
        40 => Meta::Last40,
        41 => Meta::Last41,
        42 => Meta::Last42,
        43 => Meta::Last43,
        44 => Meta::Last44,
        45 => Meta::Last45,
        46 => Meta::Last46,
        47 => Meta::Last47,
        48 => Meta::Last48,
        49 => Meta::Last49,
        50 => Meta::Last50,
        51 => Meta::Last51,
        52 => Meta::Last52,
        53 => Meta::Last53,
        54 => Meta::Last54,
        55 => Meta::Last55,
        56 => Meta::Last56,
        57 => Meta::Last57,
        58 => Meta::Last58,
        59 => Meta::Last59,
        60 => Meta::Last60,
        61 => Meta::Last61,
        62 => Meta::Last62,
        63 => Meta::Last63,
        64 => Meta::Last64,
        65 => Meta::Last65,
        66 => Meta::Last66,
        67 => Meta::Last67,
        68 => Meta::Last68,
        69 => Meta::Last69,
        70 => Meta::Last70,
        71 => Meta::Last71,
        72 => Meta::Last72,
        73 => Meta::Last73,
        74 => Meta::Last74,
        75 => Meta::Last75,
        76 => Meta::Last76,
        77 => Meta::Last77,
        78 => Meta::Last78,
        79 => Meta::Last79,
        80 => Meta::Last80,
        81 => Meta::Last81,
        82 => Meta::Last82,
        83 => Meta::Last83,
        84 => Meta::Last84,
        85 => Meta::Last85,
        86 => Meta::Last86,
        87 => Meta::Last87,
        88 => Meta::Last88,
        89 => Meta::Last89,
        90 => Meta::Last90,
        91 => Meta::Last91,
        92 => Meta::Last92,
        93 => Meta::Last93,
        94 => Meta::Last94,
        95 => Meta::Last95,
        96 => Meta::Last96,
        97 => Meta::Last97,
        98 => Meta::Last98,
        99 => Meta::Last99,
        100 => Meta::Last100,
        101 => Meta::Last101,
        102 => Meta::Last102,
        103 => Meta::Last103,
        104 => Meta::Last104,
        105 => Meta::Last105,
        106 => Meta::Last106,
        107 => Meta::Last107,
        108 => Meta::Last108,
        109 => Meta::Last109,
        110 => Meta::Last110,
        111 => Meta::Last111,
        112 => Meta::Last112,
        113 => Meta::Last113,
        114 => Meta::Last114,
        115 => Meta::Last115,
        116 => Meta::Last116,
        117 => Meta::Last117,
        118 => Meta::Last118,
        119 => Meta::Last119,
        120 => Meta::Last120,
        121 => Meta::Last121,
        122 => Meta::Last122,
        123 => Meta::Last123,
        124 => Meta::Last124,
        125 => Meta::Last125,
        126 => Meta::Last126,
        127 => Meta::Last127,
        128 => Meta::Last128,
        129 => Meta::Last129,
        130 => Meta::Last130,
        131 => Meta::Last131,
        132 => Meta::Last132,
        133 => Meta::Last133,
        134 => Meta::Last134,
        135 => Meta::Last135,
        136 => Meta::Last136,
        137 => Meta::Last137,
        138 => Meta::Last138,
        139 => Meta::Last139,
        140 => Meta::Last140,
        141 => Meta::Last141,
        142 => Meta::Last142,
        143 => Meta::Last143,
        144 => Meta::Last144,
        145 => Meta::Last145,
        146 => Meta::Last146,
        147 => Meta::Last147,
        148 => Meta::Last148,
        149 => Meta::Last149,
        150 => Meta::Last150,
        151 => Meta::Last151,
        152 => Meta::Last152,
        153 => Meta::Last153,
        154 => Meta::Last154,
        155 => Meta::Last155,
        156 => Meta::Last156,
        157 => Meta::Last157,
        158 => Meta::Last158,
        159 => Meta::Last159,
        160 => Meta::Last160,
        161 => Meta::Last161,
        162 => Meta::Last162,
        163 => Meta::Last163,
        164 => Meta::Last164,
        165 => Meta::Last165,
        166 => Meta::Last166,
        167 => Meta::Last167,
        168 => Meta::Last168,
        169 => Meta::Last169,
        170 => Meta::Last170,
        171 => Meta::Last171,
        172 => Meta::Last172,
        173 => Meta::Last173,
        174 => Meta::Last174,
        175 => Meta::Last175,
        176 => Meta::Last176,
        177 => Meta::Last177,
        178 => Meta::Last178,
        179 => Meta::Last179,
        180 => Meta::Last180,
        181 => Meta::Last181,
        182 => Meta::Last182,
        183 => Meta::Last183,
        184 => Meta::Last184,
        185 => Meta::Last185,
        186 => Meta::Last186,
        187 => Meta::Last187,
        188 => Meta::Last188,
        189 => Meta::Last189,
        190 => Meta::Last190,
        191 => Meta::Last191,
        _ => Meta::Last0,
    }
}

/// Reads the content length back out of the final byte.
pub fn meta_len(m: Meta) -> (len: usize)
    ensures
        len == spec_meta_len(m),
{
    match m {
        Meta::Len0 => 0,
        Meta::Len1 => 1,
        Meta::Len2 => 2,
        Meta::Len3 => 3,
        Meta::Len4 => 4,
        Meta::Len5 => 5,
        Meta::Len6 => 6,
        Meta::Len7 => 7,
        Meta::Len8 => 8,
        Meta::Len9 => 9,
        Meta::Len10 => 10,
        Meta::Len11 => 11,
        Meta::Len12 => 12,
        Meta::Len13 => 13,
        Meta::Len14 => 14,
        Meta::Len15 => 15,
        Meta::Len16 => 16,
        Meta::Len17 => 17,
        Meta::Len18 => 18,
        Meta::Len19 => 19,
        Meta::Len20 => 20,
        Meta::Len21 => 21,
        Meta::Len22 => 22,
        Meta::Len23 => 23,
        _ => 24,
    }
}

/// Reads the final content byte of a full buffer back out.
pub fn meta_last(m: Meta) -> (b: u8)
    ensures
        b == spec_meta_last(m),
{
    match m {
        Meta::Last0 => 0,
        Meta::Last1 => 1,
        Meta::Last2 => 2,
        Meta::Last3 => 3,
        Meta::Last4 => 4,
        Meta::Last5 => 5,
        Meta::Last6 => 6,
        Meta::Last7 => 7,
        Meta::Last8 => 8,
        Meta::Last9 => 9,
        Meta::Last10 => 10,
        Meta::Last11 => 11,
        Meta::Last12 => 12,
        Meta::Last13 => 13,
        Meta::Last14 => 14,
        Meta::Last15 => 15,
        Meta::Last16 => 16,
        Meta::Last17 => 17,
        Meta::Last18 => 18,
        Meta::Last19 => 19,
        Meta::Last20 => 20,
        Meta::Last21 => 21,
        Meta::Last22 => 22,
        Meta::Last23 => 23,
        Meta::Last24 => 24,
        Meta::Last25 => 25,
        Meta::Last26 => 26,
        Meta::Last27 => 27,
        Meta::Last28 => 28,
        Meta::Last29 => 29,
        Meta::Last30 => 30,
        Meta::Last31 => 31,
        Meta::Last32 => 32,
        Meta::Last33 => 33,
        Meta::Last34 => 34,
        Meta::Last35 => 35,
        Meta::Last36 => 36,
        Meta::Last37 => 37,
        Meta::Last38 => 38,
        Meta::Last39 => 39,
        Meta::Last40 => 40,
        Meta::Last41 => 41,
        Meta::Last42 => 42,
        Meta::Last43 => 43,
        Meta::Last44 => 44,
        Meta::Last45 => 45,
        Meta::Last46 => 46,
        Meta::Last47 => 47,
        Meta::Last48 => 48,
        Meta::Last49 => 49,
        Meta::Last50 => 50,
        Meta::Last51 => 51,
        Meta::Last52 => 52,
        Meta::Last53 => 53,
        Meta::Last54 => 54,
        Meta::Last55 => 55,
        Meta::Last56 => 56,
        Meta::Last57 => 57,
        Meta::Last58 => 58,
        Meta::Last59 => 59,
        Meta::Last60 => 60,
        Meta::Last61 => 61,
        Meta::Last62 => 62,
        Meta::Last63 => 63,
        Meta::Last64 => 64,
        Meta::Last65 => 65,
        Meta::Last66 => 66,
        Meta::Last67 => 67,
        Meta::Last68 => 68,
        Meta::Last69 => 69,
        Meta::Last70 => 70,
        Meta::Last71 => 71,
        Meta::Last72 => 72,
        Meta::Last73 => 73,
        Meta::Last74 => 74,
        Meta::Last75 => 75,
        Meta::Last76 => 76,
        Meta::Last77 => 77,
        Meta::Last78 => 78,
        Meta::Last79 => 79,
        Meta::Last80 => 80,
        Meta::Last81 => 81,
        Meta::Last82 => 82,
        Meta::Last83 => 83,
        Meta::Last84 => 84,
        Meta::Last85 => 85,
        Meta::Last86 => 86,
        Meta::Last87 => 87,
        Meta::Last88 => 88,
        Meta::Last89 => 89,
        Meta::Last90 => 90,
        Meta::Last91 => 91,
        Meta::Last92 => 92,
        Meta::Last93 => 93,
        Meta::Last94 => 94,
        Meta::Last95 => 95,
        Meta::Last96 => 96,
        Meta::Last97 => 97,
        Meta::Last98 => 98,
        Meta::Last99 => 99,
        Meta::Last100 => 100,
        Meta::Last101 => 101,
        Meta::Last102 => 102,
        Meta::Last103 => 103,
        Meta::Last104 => 104,
        Meta::Last105 => 105,
        Meta::Last106 => 106,
        Meta::Last107 => 107,
        Meta::Last108 => 108,
        Meta::Last109 => 109,
        Meta::Last110 => 110,
        Meta::Last111 => 111,
        Meta::Last112 => 112,
        Meta::Last113 => 113,
        Meta::Last114 => 114,
        Meta::Last115 => 115,
        Meta::Last116 => 116,
        Meta::Last117 => 117,
        Meta::Last118 => 118,
        Meta::Last119 => 119,
        Meta::Last120 => 120,
        Meta::Last121 => 121,
        Meta::Last122 => 122,
        Meta::Last123 => 123,
        Meta::Last124 => 124,
        Meta::Last125 => 125,
        Meta::Last126 => 126,
        Meta::Last127 => 127,
        Meta::Last128 => 128,
        Meta::Last129 => 129,
        Meta::Last130 => 130,
        Meta::Last131 => 131,
        Meta::Last132 => 132,
        Meta::Last133 => 133,
        Meta::Last134 => 134,
        Meta::Last135 => 135,
        Meta::Last136 => 136,
        Meta::Last137 => 137,
        Meta::Last138 => 138,
        Meta::Last139 => 139,
        Meta::Last140 => 140,
        Meta::Last141 => 141,
        Meta::Last142 => 142,
        Meta::Last143 => 143,
        Meta::Last144 => 144,
        Meta::Last145 => 145,
        Meta::Last146 => 146,
        Meta::Last147 => 147,
        Meta::Last148 => 148,
        Meta::Last149 => 149,
        Meta::Last150 => 150,
        Meta::Last151 => 151,
        Meta::Last152 => 152,
        Meta::Last153 => 153,
        Meta::Last154 => 154,
        Meta::Last155 => 155,
        Meta::Last156 => 156,
        Meta::Last157 => 157,
        Meta::Last158 => 158,
        Meta::Last159 => 159,
        Meta::Last160 => 160,
        Meta::Last161 => 161,
        Meta::Last162 => 162,
        Meta::Last163 => 163,
        Meta::Last164 => 164,
        Meta::Last165 => 165,
        Meta::Last166 => 166,
        Meta::Last167 => 167,
        Meta::Last168 => 168,
        Meta::Last169 => 169,
        Meta::Last170 => 170,
        Meta::Last171 => 171,
        Meta::Last172 => 172,
        Meta::Last173 => 173,
        Meta::Last174 => 174,
        Meta::Last175 => 175,
        Meta::Last176 => 176,
        Meta::Last177 => 177,
        Meta::Last178 => 178,
        Meta::Last179 => 179,
        Meta::Last180 => 180,
        Meta::Last181 => 181,
        Meta::Last182 => 182,
        Meta::Last183 => 183,
        Meta::Last184 => 184,
        Meta::Last185 => 185,
        Meta::Last186 => 186,
        Meta::Last187 => 187,
        Meta::Last188 => 188,
        Meta::Last189 => 189,
        Meta::Last190 => 190,
        Meta::Last191 => 191,
        _ => 0,
    }
}

} // verus!
