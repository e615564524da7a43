use vstd::prelude::*;

verus! {

/// Entry `i` of the lookup table of CRC-16/IBM (polynomial 0x8005): the
/// remainder of `i << 8` on division by the polynomial.
pub open spec fn crc_table_entry(i: u8) -> u16 {
    match i {
        0 => 0x0000,
        1 => 0x8005,
        2 => 0x800F,
        3 => 0x000A,
        4 => 0x801B,
        5 => 0x001E,
        6 => 0x0014,
        7 => 0x8011,
        8 => 0x8033,
        9 => 0x0036,
        10 => 0x003C,
        11 => 0x8039,
        12 => 0x0028,
        13 => 0x802D,
        14 => 0x8027,
        15 => 0x0022,
        16 => 0x8063,
        17 => 0x0066,
        18 => 0x006C,
        19 => 0x8069,
        20 => 0x0078,
        21 => 0x807D,
        22 => 0x8077,
        23 => 0x0072,
        24 => 0x0050,
        25 => 0x8055,
        26 => 0x805F,
        27 => 0x005A,
        28 => 0x804B,
        29 => 0x004E,
        30 => 0x0044,
        31 => 0x8041,
        32 => 0x80C3,
        33 => 0x00C6,
        34 => 0x00CC,
        35 => 0x80C9,
        36 => 0x00D8,
        37 => 0x80DD,
        38 => 0x80D7,
        39 => 0x00D2,
        40 => 0x00F0,
        41 => 0x80F5,
        42 => 0x80FF,
        43 => 0x00FA,
        44 => 0x80EB,
        45 => 0x00EE,
        46 => 0x00E4,
        47 => 0x80E1,
        48 => 0x00A0,
        49 => 0x80A5,
        50 => 0x80AF,
        51 => 0x00AA,
        52 => 0x80BB,
        53 => 0x00BE,
        54 => 0x00B4,
        55 => 0x80B1,
        56 => 0x8093,
        57 => 0x0096,
        58 => 0x009C,
        59 => 0x8099,
        60 => 0x0088,
        61 => 0x808D,
        62 => 0x8087,
        63 => 0x0082,
        64 => 0x8183,
        65 => 0x0186,
        66 => 0x018C,
        67 => 0x8189,
        68 => 0x0198,
        69 => 0x819D,
        70 => 0x8197,
        71 => 0x0192,
        72 => 0x01B0,
        73 => 0x81B5,
        74 => 0x81BF,
        75 => 0x01BA,
        76 => 0x81AB,
        77 => 0x01AE,
        78 => 0x01A4,
        79 => 0x81A1,
        80 => 0x01E0,
        81 => 0x81E5,
        82 => 0x81EF,
        83 => 0x01EA,
        84 => 0x81FB,
        85 => 0x01FE,
        86 => 0x01F4,
        87 => 0x81F1,
        88 => 0x81D3,
        89 => 0x01D6,
        90 => 0x01DC,
        91 => 0x81D9,
        92 => 0x01C8,
        93 => 0x81CD,
        94 => 0x81C7,
        95 => 0x01C2,
        96 => 0x0140,
        97 => 0x8145,
        98 => 0x814F,
        99 => 0x014A,
        100 => 0x815B,
        101 => 0x015E,
        102 => 0x0154,
        103 => 0x8151,
        104 => 0x8173,
        105 => 0x0176,
        106 => 0x017C,
        107 => 0x8179,
        108 => 0x0168,
        109 => 0x816D,
        110 => 0x8167,
        111 => 0x0162,
        112 => 0x8123,
        113 => 0x0126,
        114 => 0x012C,
        115 => 0x8129,
        116 => 0x0138,
        117 => 0x813D,
        118 => 0x8137,
        119 => 0x0132,
        120 => 0x0110,
        121 => 0x8115,
        122 => 0x811F,
        123 => 0x011A,
        124 => 0x810B,
        125 => 0x010E,
        126 => 0x0104,
        127 => 0x8101,
        128 => 0x8303,
        129 => 0x0306,
        130 => 0x030C,
        131 => 0x8309,
        132 => 0x0318,
        133 => 0x831D,
        134 => 0x8317,
        135 => 0x0312,
        136 => 0x0330,
        137 => 0x8335,
        138 => 0x833F,
        139 => 0x033A,
        140 => 0x832B,
        141 => 0x032E,
        142 => 0x0324,
        143 => 0x8321,
        144 => 0x0360,
        145 => 0x8365,
        146 => 0x836F,
        147 => 0x036A,
        148 => 0x837B,
        149 => 0x037E,
        150 => 0x0374,
        151 => 0x8371,
        152 => 0x8353,
        153 => 0x0356,
        154 => 0x035C,
        155 => 0x8359,
        156 => 0x0348,
        157 => 0x834D,
        158 => 0x8347,
        159 => 0x0342,
        160 => 0x03C0,
        161 => 0x83C5,
        162 => 0x83CF,
        163 => 0x03CA,
        164 => 0x83DB,
        165 => 0x03DE,
        166 => 0x03D4,
        167 => 0x83D1,
        168 => 0x83F3,
        169 => 0x03F6,
        170 => 0x03FC,
        171 => 0x83F9,
        172 => 0x03E8,
        173 => 0x83ED,
        174 => 0x83E7,
        175 => 0x03E2,
        176 => 0x83A3,
        177 => 0x03A6,
        178 => 0x03AC,
        179 => 0x83A9,
        180 => 0x03B8,
        181 => 0x83BD,
        182 => 0x83B7,
        183 => 0x03B2,
        184 => 0x0390,
        185 => 0x8395,
        186 => 0x839F,
        187 => 0x039A,
        188 => 0x838B,
        189 => 0x038E,
        190 => 0x0384,
        191 => 0x8381,
        192 => 0x0280,
        193 => 0x8285,
        194 => 0x828F,
        195 => 0x028A,
        196 => 0x829B,
        197 => 0x029E,
        198 => 0x0294,
        199 => 0x8291,
        200 => 0x82B3,
        201 => 0x02B6,
        202 => 0x02BC,
        203 => 0x82B9,
        204 => 0x02A8,
        205 => 0x82AD,
        206 => 0x82A7,
        207 => 0x02A2,
        208 => 0x82E3,
        209 => 0x02E6,
        210 => 0x02EC,
        211 => 0x82E9,
        212 => 0x02F8,
        213 => 0x82FD,
        214 => 0x82F7,
        215 => 0x02F2,
        216 => 0x02D0,
        217 => 0x82D5,
        218 => 0x82DF,
        219 => 0x02DA,
        220 => 0x82CB,
        221 => 0x02CE,
        222 => 0x02C4,
        223 => 0x82C1,
        224 => 0x8243,
        225 => 0x0246,
        226 => 0x024C,
        227 => 0x8249,
        228 => 0x0258,
        229 => 0x825D,
        230 => 0x8257,
        231 => 0x0252,
        232 => 0x0270,
        233 => 0x8275,
        234 => 0x827F,
        235 => 0x027A,
        236 => 0x826B,
        237 => 0x026E,
        238 => 0x0264,
        239 => 0x8261,
        240 => 0x0220,
        241 => 0x8225,
        242 => 0x822F,
        243 => 0x022A,
        244 => 0x823B,
        245 => 0x023E,
        246 => 0x0234,
        247 => 0x8231,
        248 => 0x8213,
        249 => 0x0216,
        250 => 0x021C,
        251 => 0x8219,
        252 => 0x0208,
        253 => 0x820D,
        254 => 0x8207,
        255 => 0x0202,
    }
}

/// One step of the table-driven CRC: fold byte `b` into accumulator `acc`.
pub open spec fn crc_step(acc: u16, b: u8) -> u16 {
    ((acc << 8u16) ^ crc_table_entry(((acc >> 8u16) as u8) ^ b)) as u16
}

/// CRC-16/IBM of a byte sequence: zero initial value, no reflection and no
/// final XOR, folded over the bytes from first to last.
pub open spec fn crc16(s: Seq<u8>) -> u16
    decreases s.len(),
{
    if s.len() == 0 {
        0
    } else {
        crc_step(crc16(s.drop_last()), s.last())
    }
}

fn crc_table_value(i: u8) -> (r: u16)
    ensures
        r == crc_table_entry(i),
{
    match i {
        0 => 0x0000,
        1 => 0x8005,
        2 => 0x800F,
        3 => 0x000A,
        4 => 0x801B,
        5 => 0x001E,
        6 => 0x0014,
        7 => 0x8011,
        8 => 0x8033,
        9 => 0x0036,
        10 => 0x003C,
        11 => 0x8039,
        12 => 0x0028,
        13 => 0x802D,
        14 => 0x8027,
        15 => 0x0022,
        16 => 0x8063,
        17 => 0x0066,
        18 => 0x006C,
        19 => 0x8069,
        20 => 0x0078,
        21 => 0x807D,
        22 => 0x8077,
        23 => 0x0072,
        24 => 0x0050,
        25 => 0x8055,
        26 => 0x805F,
        27 => 0x005A,
        28 => 0x804B,
        29 => 0x004E,
        30 => 0x0044,
        31 => 0x8041,
        32 => 0x80C3,
        33 => 0x00C6,
        34 => 0x00CC,
        35 => 0x80C9,
        36 => 0x00D8,
        37 => 0x80DD,
        38 => 0x80D7,
        39 => 0x00D2,
        40 => 0x00F0,
        41 => 0x80F5,
        42 => 0x80FF,
        43 => 0x00FA,
        44 => 0x80EB,
        45 => 0x00EE,
        46 => 0x00E4,
        47 => 0x80E1,
        48 => 0x00A0,
        49 => 0x80A5,
        50 => 0x80AF,
        51 => 0x00AA,
        52 => 0x80BB,
        53 => 0x00BE,
        54 => 0x00B4,
        55 => 0x80B1,
        56 => 0x8093,
        57 => 0x0096,
        58 => 0x009C,
        59 => 0x8099,
        60 => 0x0088,
        61 => 0x808D,
        62 => 0x8087,
        63 => 0x0082,
        64 => 0x8183,
        65 => 0x0186,
        66 => 0x018C,
        67 => 0x8189,
        68 => 0x0198,
        69 => 0x819D,
        70 => 0x8197,
        71 => 0x0192,
        72 => 0x01B0,
        73 => 0x81B5,
        74 => 0x81BF,
        75 => 0x01BA,
        76 => 0x81AB,
        77 => 0x01AE,
        78 => 0x01A4,
        79 => 0x81A1,
        80 => 0x01E0,
        81 => 0x81E5,
        82 => 0x81EF,
        83 => 0x01EA,
        84 => 0x81FB,
        85 => 0x01FE,
        86 => 0x01F4,
        87 => 0x81F1,
        88 => 0x81D3,
        89 => 0x01D6,
        90 => 0x01DC,
        91 => 0x81D9,
        92 => 0x01C8,
        93 => 0x81CD,
        94 => 0x81C7,
        95 => 0x01C2,
        96 => 0x0140,
        97 => 0x8145,
        98 => 0x814F,
        99 => 0x014A,
        100 => 0x815B,
        101 => 0x015E,
        102 => 0x0154,
        103 => 0x8151,
        104 => 0x8173,
        105 => 0x0176,
        106 => 0x017C,
        107 => 0x8179,
        108 => 0x0168,
        109 => 0x816D,
        110 => 0x8167,
        111 => 0x0162,
        112 => 0x8123,
        113 => 0x0126,
        114 => 0x012C,
        115 => 0x8129,
        116 => 0x0138,
        117 => 0x813D,
        118 => 0x8137,
        119 => 0x0132,
        120 => 0x0110,
        121 => 0x8115,
        122 => 0x811F,
        123 => 0x011A,
        124 => 0x810B,
        125 => 0x010E,
        126 => 0x0104,
        127 => 0x8101,
        128 => 0x8303,
        129 => 0x0306,
        130 => 0x030C,
        131 => 0x8309,
        132 => 0x0318,
        133 => 0x831D,
        134 => 0x8317,
        135 => 0x0312,
        136 => 0x0330,
        137 => 0x8335,
        138 => 0x833F,
        139 => 0x033A,
        140 => 0x832B,
        141 => 0x032E,
        142 => 0x0324,
        143 => 0x8321,
        144 => 0x0360,
        145 => 0x8365,
        146 => 0x836F,
        147 => 0x036A,
        148 => 0x837B,
        149 => 0x037E,
        150 => 0x0374,
        151 => 0x8371,
        152 => 0x8353,
        153 => 0x0356,
        154 => 0x035C,
        155 => 0x8359,
        156 => 0x0348,
        157 => 0x834D,
        158 => 0x8347,
        159 => 0x0342,
        160 => 0x03C0,
        161 => 0x83C5,
        162 => 0x83CF,
        163 => 0x03CA,
        164 => 0x83DB,
        165 => 0x03DE,
        166 => 0x03D4,
        167 => 0x83D1,
        168 => 0x83F3,
        169 => 0x03F6,
        170 => 0x03FC,
        171 => 0x83F9,
        172 => 0x03E8,
        173 => 0x83ED,
        174 => 0x83E7,
        175 => 0x03E2,
        176 => 0x83A3,
        177 => 0x03A6,
        178 => 0x03AC,
        179 => 0x83A9,
        180 => 0x03B8,
        181 => 0x83BD,
        182 => 0x83B7,
        183 => 0x03B2,
        184 => 0x0390,
        185 => 0x8395,
        186 => 0x839F,
        187 => 0x039A,
        188 => 0x838B,
        189 => 0x038E,
        190 => 0x0384,
        191 => 0x8381,
        192 => 0x0280,
        193 => 0x8285,
        194 => 0x828F,
        195 => 0x028A,
        196 => 0x829B,
        197 => 0x029E,
        198 => 0x0294,
        199 => 0x8291,
        200 => 0x82B3,
        201 => 0x02B6,
        202 => 0x02BC,
        203 => 0x82B9,
        204 => 0x02A8,
        205 => 0x82AD,
        206 => 0x82A7,
        207 => 0x02A2,
        208 => 0x82E3,
        209 => 0x02E6,
        210 => 0x02EC,
        211 => 0x82E9,
        212 => 0x02F8,
        213 => 0x82FD,
        214 => 0x82F7,
        215 => 0x02F2,
        216 => 0x02D0,
        217 => 0x82D5,
        218 => 0x82DF,
        219 => 0x02DA,
        220 => 0x82CB,
        221 => 0x02CE,
        222 => 0x02C4,
        223 => 0x82C1,
        224 => 0x8243,
        225 => 0x0246,
        226 => 0x024C,
        227 => 0x8249,
        228 => 0x0258,
        229 => 0x825D,
        230 => 0x8257,
        231 => 0x0252,
        232 => 0x0270,
        233 => 0x8275,
        234 => 0x827F,
        235 => 0x027A,
        236 => 0x826B,
        237 => 0x026E,
        238 => 0x0264,
        239 => 0x8261,
        240 => 0x0220,
        241 => 0x8225,
        242 => 0x822F,
        243 => 0x022A,
        244 => 0x823B,
        245 => 0x023E,
        246 => 0x0234,
        247 => 0x8231,
        248 => 0x8213,
        249 => 0x0216,
        250 => 0x021C,
        251 => 0x8219,
        252 => 0x0208,
        253 => 0x820D,
        254 => 0x8207,
        255 => 0x0202,
    }
}

/// CRC-16/IBM of `msg`, as carried in the last two bytes of every frame.
pub fn calc_crc_value(msg: &[u8]) -> (r: u16)
    ensures
        r == crc16(msg@),
{
    let mut crc_accum: u16 = 0;
    let mut j: usize = 0;
    while j < msg.len()
        invariant
            j <= msg@.len(),
            crc_accum == crc16(msg@.subrange(0, j as int)),
        decreases msg@.len() - j,
    {
        proof {
            assert(msg@.subrange(0, j + 1).drop_last() =~= msg@.subrange(0, j as int));
        }
        let i: u8 = ((crc_accum >> 8u16) as u8) ^ msg[j];
        crc_accum = (crc_accum << 8u16) ^ crc_table_value(i);
        j = j + 1;
    }
    proof {
        assert(msg@.subrange(0, msg@.len() as int) =~= msg@);
    }
    crc_accum
}

/// The CRC depends on the bytes alone: equal inputs give equal checksums,
/// whatever was computed before.
pub proof fn lemma_crc_pure(a: Seq<u8>, b: Seq<u8>)
    requires
        a == b,
    ensures
        crc16(a) == crc16(b),
{
}

} // verus!
