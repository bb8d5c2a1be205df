//! The colour model: RGB with 8-bit channels, additive blending, and the
//! linear-to-display conversion that turns a traced colour into the four
//! bytes written to the frame buffer.

use vstd::prelude::*;

verus! {

/// An RGB colour with one 8-bit channel per primary. No alpha is stored;
/// the display conversion appends a fixed opaque alpha.
#[derive(Clone, Copy, Debug, PartialEq, Eq, Structural)]
pub struct Colour {
    pub r: u8,
    pub g: u8,
    pub b: u8,
}

impl Default for Colour {
    /// Black.
    fn default() -> (c: Self)
        ensures
            c == (Colour { r: 0, g: 0, b: 0 }),
    {
        Colour { r: 0, g: 0, b: 0 }
    }
}

impl Colour {
    /// Additive blend, used to mix a locally lit colour with a reflected one.
    /// Channel sums wrap modulo 256; the channels carry no saturation guard.
    pub fn add(self, rhs: Colour) -> (out: Colour)
        ensures
            out.r as int == (self.r as int + rhs.r as int) % 256,
            out.g as int == (self.g as int + rhs.g as int) % 256,
            out.b as int == (self.b as int + rhs.b as int) % 256,
    {
        Colour {
            r: ((self.r as u16 + rhs.r as u16) % 256) as u8,
            g: ((self.g as u16 + rhs.g as u16) % 256) as u8,
            b: ((self.b as u16 + rhs.b as u16) % 256) as u8,
        }
    }

    /// The four frame-buffer bytes of this colour: each channel converted
    /// from linear light to its display value, followed by an opaque alpha.
    pub fn convert(self) -> (out: (u8, u8, u8, u8))
        ensures
            out.0 == display_level(self.r),
            out.1 == display_level(self.g),
            out.2 == display_level(self.b),
            out.3 == 255,
    {
        (display_of(self.r), display_of(self.g), display_of(self.b), 255)
    }
}

/// The 8-bit display value of linear channel `c`: the canvas stores linear
/// light, and the frame buffer expects display (gamma-encoded) bytes. The
/// transfer is the standard piecewise linear-to-display curve (a linear
/// segment below the dark cutoff, else a 1/2.4 power segment), scaled back
/// to 0..=255 and truncated; this function tabulates it, one quarter of the
/// range per arm. Full intensity maps to full intensity: the exact transfer
/// gives one at the top of the range, so channel 255 shows as 255 rather
/// than losing a level to single-precision rounding of the power segment.
pub open spec fn display_level(c: u8) -> u8 {
    if c < 64 {
        display_level_lo(c)
    } else if c < 128 {
        display_level_mid_lo(c)
    } else if c < 192 {
        display_level_mid_hi(c)
    } else {
        display_level_hi(c)
    }
}

/// Computes `display_level` by table lookup.
pub fn display_of(c: u8) -> (v: u8)
    ensures
        v == display_level(c),
{
    if c < 64 {
        display_of_lo(c)
    } else if c < 128 {
        display_of_mid_lo(c)
    } else if c < 192 {
        display_of_mid_hi(c)
    } else {
        display_of_hi(c)
    }
}

pub open spec fn display_level_lo(c: u8) -> u8 {
    if c == 0 {
        0
    } else if c == 1 {
        12
    } else if c == 2 {
        21
    } else if c == 3 {
        28
    } else if c == 4 {
        33
    } else if c == 5 {
        38
    } else if c == 6 {
        42
    } else if c == 7 {
        46
    } else if c == 8 {
        49
    } else if c == 9 {
        52
    } else if c == 10 {
        55
    } else if c == 11 {
        58
    } else if c == 12 {
        61
    } else if c == 13 {
        63
    } else if c == 14 {
        66
    } else if c == 15 {
        68
    } else if c == 16 {
        70
    } else if c == 17 {
        73
    } else if c == 18 {
        75
    } else if c == 19 {
        77
    } else if c == 20 {
        79
    } else if c == 21 {
        81
    } else if c == 22 {
        82
    } else if c == 23 {
        84
    } else if c == 24 {
        86
    } else if c == 25 {
        88
    } else if c == 26 {
        89
    } else if c == 27 {
        91
    } else if c == 28 {
        93
    } else if c == 29 {
        94
    } else if c == 30 {
        96
    } else if c == 31 {
        97
    } else if c == 32 {
        99
    } else if c == 33 {
        100
    } else if c == 34 {
        102
    } else if c == 35 {
        103
    } else if c == 36 {
        104
    } else if c == 37 {
        106
    } else if c == 38 {
        107
    } else if c == 39 {
        109
    } else if c == 40 {
        110
    } else if c == 41 {
        111
    } else if c == 42 {
        112
    } else if c == 43 {
        114
    } else if c == 44 {
        115
    } else if c == 45 {
        116
    } else if c == 46 {
        117
    } else if c == 47 {
        118
    } else if c == 48 {
        120
    } else if c == 49 {
        121
    } else if c == 50 {
        122
    } else if c == 51 {
        123
    } else if c == 52 {
        124
    } else if c == 53 {
        125
    } else if c == 54 {
        126
    } else if c == 55 {
        127
    } else if c == 56 {
        129
    } else if c == 57 {
        130
    } else if c == 58 {
        131
    } else if c == 59 {
        132
    } else if c == 60 {
        133
    } else if c == 61 {
        134
    } else if c == 62 {
        135
    } else {
        136
    }
}

pub open spec fn display_level_mid_lo(c: u8) -> u8 {
    if c == 64 {
        137
    } else if c == 65 {
        138
    } else if c == 66 {
        139
    } else if c == 67 {
        140
    } else if c == 68 {
        141
    } else if c == 69 {
        142
    } else if c == 70 {
        142
    } else if c == 71 {
        143
    } else if c == 72 {
        144
    } else if c == 73 {
        145
    } else if c == 74 {
        146
    } else if c == 75 {
        147
    } else if c == 76 {
        148
    } else if c == 77 {
        149
    } else if c == 78 {
        150
    } else if c == 79 {
        151
    } else if c == 80 {
        151
    } else if c == 81 {
        152
    } else if c == 82 {
        153
    } else if c == 83 {
        154
    } else if c == 84 {
        155
    } else if c == 85 {
        156
    } else if c == 86 {
        157
    } else if c == 87 {
        157
    } else if c == 88 {
        158
    } else if c == 89 {
        159
    } else if c == 90 {
        160
    } else if c == 91 {
        161
    } else if c == 92 {
        161
    } else if c == 93 {
        162
    } else if c == 94 {
        163
    } else if c == 95 {
        164
    } else if c == 96 {
        165
    } else if c == 97 {
        165
    } else if c == 98 {
        166
    } else if c == 99 {
        167
    } else if c == 100 {
        168
    } else if c == 101 {
        168
    } else if c == 102 {
        169
    } else if c == 103 {
        170
    } else if c == 104 {
        171
    } else if c == 105 {
        171
    } else if c == 106 {
        172
    } else if c == 107 {
        173
    } else if c == 108 {
        174
    } else if c == 109 {
        174
    } else if c == 110 {
        175
    } else if c == 111 {
        176
    } else if c == 112 {
        176
    } else if c == 113 {
        177
    } else if c == 114 {
        178
    } else if c == 115 {
        179
    } else if c == 116 {
        179
    } else if c == 117 {
        180
    } else if c == 118 {
        181
    } else if c == 119 {
        181
    } else if c == 120 {
        182
    } else if c == 121 {
        183
    } else if c == 122 {
        183
    } else if c == 123 {
        184
    } else if c == 124 {
        185
    } else if c == 125 {
        185
    } else if c == 126 {
        186
    } else {
        187
    }
}

pub open spec fn display_level_mid_hi(c: u8) -> u8 {
    if c == 128 {
        187
    } else if c == 129 {
        188
    } else if c == 130 {
        189
    } else if c == 131 {
        189
    } else if c == 132 {
        190
    } else if c == 133 {
        191
    } else if c == 134 {
        191
    } else if c == 135 {
        192
    } else if c == 136 {
        193
    } else if c == 137 {
        193
    } else if c == 138 {
        194
    } else if c == 139 {
        194
    } else if c == 140 {
        195
    } else if c == 141 {
        196
    } else if c == 142 {
        196
    } else if c == 143 {
        197
    } else if c == 144 {
        197
    } else if c == 145 {
        198
    } else if c == 146 {
        199
    } else if c == 147 {
        199
    } else if c == 148 {
        200
    } else if c == 149 {
        201
    } else if c == 150 {
        201
    } else if c == 151 {
        202
    } else if c == 152 {
        202
    } else if c == 153 {
        203
    } else if c == 154 {
        204
    } else if c == 155 {
        204
    } else if c == 156 {
        205
    } else if c == 157 {
        205
    } else if c == 158 {
        206
    } else if c == 159 {
        206
    } else if c == 160 {
        207
    } else if c == 161 {
        208
    } else if c == 162 {
        208
    } else if c == 163 {
        209
    } else if c == 164 {
        209
    } else if c == 165 {
        210
    } else if c == 166 {
        210
    } else if c == 167 {
        211
    } else if c == 168 {
        212
    } else if c == 169 {
        212
    } else if c == 170 {
        213
    } else if c == 171 {
        213
    } else if c == 172 {
        214
    } else if c == 173 {
        214
    } else if c == 174 {
        215
    } else if c == 175 {
        215
    } else if c == 176 {
        216
    } else if c == 177 {
        217
    } else if c == 178 {
        217
    } else if c == 179 {
        218
    } else if c == 180 {
        218
    } else if c == 181 {
        219
    } else if c == 182 {
        219
    } else if c == 183 {
        220
    } else if c == 184 {
        220
    } else if c == 185 {
        221
    } else if c == 186 {
        221
    } else if c == 187 {
        222
    } else if c == 188 {
        222
    } else if c == 189 {
        223
    } else if c == 190 {
        223
    } else {
        224
    }
}

pub open spec fn display_level_hi(c: u8) -> u8 {
    if c == 192 {
        224
    } else if c == 193 {
        225
    } else if c == 194 {
        226
    } else if c == 195 {
        226
    } else if c == 196 {
        227
    } else if c == 197 {
        227
    } else if c == 198 {
        228
    } else if c == 199 {
        228
    } else if c == 200 {
        229
    } else if c == 201 {
        229
    } else if c == 202 {
        230
    } else if c == 203 {
        230
    } else if c == 204 {
        231
    } else if c == 205 {
        231
    } else if c == 206 {
        232
    } else if c == 207 {
        232
    } else if c == 208 {
        233
    } else if c == 209 {
        233
    } else if c == 210 {
        234
    } else if c == 211 {
        234
    } else if c == 212 {
        235
    } else if c == 213 {
        235
    } else if c == 214 {
        236
    } else if c == 215 {
        236
    } else if c == 216 {
        237
    } else if c == 217 {
        237
    } else if c == 218 {
        237
    } else if c == 219 {
        238
    } else if c == 220 {
        238
    } else if c == 221 {
        239
    } else if c == 222 {
        239
    } else if c == 223 {
        240
    } else if c == 224 {
        240
    } else if c == 225 {
        241
    } else if c == 226 {
        241
    } else if c == 227 {
        242
    } else if c == 228 {
        242
    } else if c == 229 {
        243
    } else if c == 230 {
        243
    } else if c == 231 {
        244
    } else if c == 232 {
        244
    } else if c == 233 {
        245
    } else if c == 234 {
        245
    } else if c == 235 {
        245
    } else if c == 236 {
        246
    } else if c == 237 {
        246
    } else if c == 238 {
        247
    } else if c == 239 {
        247
    } else if c == 240 {
        248
    } else if c == 241 {
        248
    } else if c == 242 {
        249
    } else if c == 243 {
        249
    } else if c == 244 {
        250
    } else if c == 245 {
        250
    } else if c == 246 {
        251
    } else if c == 247 {
        251
    } else if c == 248 {
        251
    } else if c == 249 {
        252
    } else if c == 250 {
        252
    } else if c == 251 {
        253
    } else if c == 252 {
        253
    } else if c == 253 {
        254
    } else if c == 254 {
        254
    } else {
        255
    }
}

fn display_of_lo(c: u8) -> (v: u8)
    requires
        0 <= c < 64,
    ensures
        v == display_level_lo(c),
{
    if c == 0 {
        0
    } else if c == 1 {
        12
    } else if c == 2 {
        21
    } else if c == 3 {
        28
    } else if c == 4 {
        33
    } else if c == 5 {
        38
    } else if c == 6 {
        42
    } else if c == 7 {
        46
    } else if c == 8 {
        49
    } else if c == 9 {
        52
    } else if c == 10 {
        55
    } else if c == 11 {
        58
    } else if c == 12 {
        61
    } else if c == 13 {
        63
    } else if c == 14 {
        66
    } else if c == 15 {
        68
    } else if c == 16 {
        70
    } else if c == 17 {
        73
    } else if c == 18 {
        75
    } else if c == 19 {
        77
    } else if c == 20 {
        79
    } else if c == 21 {
        81
    } else if c == 22 {
        82
    } else if c == 23 {
        84
    } else if c == 24 {
        86
    } else if c == 25 {
        88
    } else if c == 26 {
        89
    } else if c == 27 {
        91
    } else if c == 28 {
        93
    } else if c == 29 {
        94
    } else if c == 30 {
        96
    } else if c == 31 {
        97
    } else if c == 32 {
        99
    } else if c == 33 {
        100
    } else if c == 34 {
        102
    } else if c == 35 {
        103
    } else if c == 36 {
        104
    } else if c == 37 {
        106
    } else if c == 38 {
        107
    } else if c == 39 {
        109
    } else if c == 40 {
        110
    } else if c == 41 {
        111
    } else if c == 42 {
        112
    } else if c == 43 {
        114
    } else if c == 44 {
        115
    } else if c == 45 {
        116
    } else if c == 46 {
        117
    } else if c == 47 {
        118
    } else if c == 48 {
        120
    } else if c == 49 {
        121
    } else if c == 50 {
        122
    } else if c == 51 {
        123
    } else if c == 52 {
        124
    } else if c == 53 {
        125
    } else if c == 54 {
        126
    } else if c == 55 {
        127
    } else if c == 56 {
        129
    } else if c == 57 {
        130
    } else if c == 58 {
        131
    } else if c == 59 {
        132
    } else if c == 60 {
        133
    } else if c == 61 {
        134
    } else if c == 62 {
        135
    } else {
        136
    }
}

fn display_of_mid_lo(c: u8) -> (v: u8)
    requires
        64 <= c < 128,
    ensures
        v == display_level_mid_lo(c),
{
    if c == 64 {
        137
    } else if c == 65 {
        138
    } else if c == 66 {
        139
    } else if c == 67 {
        140
    } else if c == 68 {
        141
    } else if c == 69 {
        142
    } else if c == 70 {
        142
    } else if c == 71 {
        143
    } else if c == 72 {
        144
    } else if c == 73 {
        145
    } else if c == 74 {
        146
    } else if c == 75 {
        147
    } else if c == 76 {
        148
    } else if c == 77 {
        149
    } else if c == 78 {
        150
    } else if c == 79 {
        151
    } else if c == 80 {
        151
    } else if c == 81 {
        152
    } else if c == 82 {
        153
    } else if c == 83 {
        154
    } else if c == 84 {
        155
    } else if c == 85 {
        156
    } else if c == 86 {
        157
    } else if c == 87 {
        157
    } else if c == 88 {
        158
    } else if c == 89 {
        159
    } else if c == 90 {
        160
    } else if c == 91 {
        161
    } else if c == 92 {
        161
    } else if c == 93 {
        162
    } else if c == 94 {
        163
    } else if c == 95 {
        164
    } else if c == 96 {
        165
    } else if c == 97 {
        165
    } else if c == 98 {
        166
    } else if c == 99 {
        167
    } else if c == 100 {
        168
    } else if c == 101 {
        168
    } else if c == 102 {
        169
    } else if c == 103 {
        170
    } else if c == 104 {
        171
    } else if c == 105 {
        171
    } else if c == 106 {
        172
    } else if c == 107 {
        173
    } else if c == 108 {
        174
    } else if c == 109 {
        174
    } else if c == 110 {
        175
    } else if c == 111 {
        176
    } else if c == 112 {
        176
    } else if c == 113 {
        177
    } else if c == 114 {
        178
    } else if c == 115 {
        179
    } else if c == 116 {
        179
    } else if c == 117 {
        180
    } else if c == 118 {
        181
    } else if c == 119 {
        181
    } else if c == 120 {
        182
    } else if c == 121 {
        183
    } else if c == 122 {
        183
    } else if c == 123 {
        184
    } else if c == 124 {
        185
    } else if c == 125 {
        185
    } else if c == 126 {
        186
    } else {
        187
    }
}

fn display_of_mid_hi(c: u8) -> (v: u8)
    requires
        128 <= c < 192,
    ensures
        v == display_level_mid_hi(c),
{
    if c == 128 {
        187
    } else if c == 129 {
        188
    } else if c == 130 {
        189
    } else if c == 131 {
        189
    } else if c == 132 {
        190
    } else if c == 133 {
        191
    } else if c == 134 {
        191
    } else if c == 135 {
        192
    } else if c == 136 {
        193
    } else if c == 137 {
        193
    } else if c == 138 {
        194
    } else if c == 139 {
        194
    } else if c == 140 {
        195
    } else if c == 141 {
        196
    } else if c == 142 {
        196
    } else if c == 143 {
        197
    } else if c == 144 {
        197
    } else if c == 145 {
        198
    } else if c == 146 {
        199
    } else if c == 147 {
        199
    } else if c == 148 {
        200
    } else if c == 149 {
        201
    } else if c == 150 {
        201
    } else if c == 151 {
        202
    } else if c == 152 {
        202
    } else if c == 153 {
        203
    } else if c == 154 {
        204
    } else if c == 155 {
        204
    } else if c == 156 {
        205
    } else if c == 157 {
        205
    } else if c == 158 {
        206
    } else if c == 159 {
        206
    } else if c == 160 {
        207
    } else if c == 161 {
        208
    } else if c == 162 {
        208
    } else if c == 163 {
        209
    } else if c == 164 {
        209
    } else if c == 165 {
        210
    } else if c == 166 {
        210
    } else if c == 167 {
        211
    } else if c == 168 {
        212
    } else if c == 169 {
        212
    } else if c == 170 {
        213
    } else if c == 171 {
        213
    } else if c == 172 {
        214
    } else if c == 173 {
        214
    } else if c == 174 {
        215
    } else if c == 175 {
        215
    } else if c == 176 {
        216
    } else if c == 177 {
        217
    } else if c == 178 {
        217
    } else if c == 179 {
        218
    } else if c == 180 {
        218
    } else if c == 181 {
        219
    } else if c == 182 {
        219
    } else if c == 183 {
        220
    } else if c == 184 {
        220
    } else if c == 185 {
        221
    } else if c == 186 {
        221
    } else if c == 187 {
        222
    } else if c == 188 {
        222
    } else if c == 189 {
        223
    } else if c == 190 {
        223
    } else {
        224
    }
}

fn display_of_hi(c: u8) -> (v: u8)
    requires
        192 <= c < 256,
    ensures
        v == display_level_hi(c),
{
    if c == 192 {
        224
    } else if c == 193 {
        225
    } else if c == 194 {
        226
    } else if c == 195 {
        226
    } else if c == 196 {
        227
    } else if c == 197 {
        227
    } else if c == 198 {
        228
    } else if c == 199 {
        228
    } else if c == 200 {
        229
    } else if c == 201 {
        229
    } else if c == 202 {
        230
    } else if c == 203 {
        230
    } else if c == 204 {
        231
    } else if c == 205 {
        231
    } else if c == 206 {
        232
    } else if c == 207 {
        232
    } else if c == 208 {
        233
    } else if c == 209 {
        233
    } else if c == 210 {
        234
    } else if c == 211 {
        234
    } else if c == 212 {
        235
    } else if c == 213 {
        235
    } else if c == 214 {
        236
    } else if c == 215 {
        236
    } else if c == 216 {
        237
    } else if c == 217 {
        237
    } else if c == 218 {
        237
    } else if c == 219 {
        238
    } else if c == 220 {
        238
    } else if c == 221 {
        239
    } else if c == 222 {
        239
    } else if c == 223 {
        240
    } else if c == 224 {
        240
    } else if c == 225 {
        241
    } else if c == 226 {
        241
    } else if c == 227 {
        242
    } else if c == 228 {
        242
    } else if c == 229 {
        243
    } else if c == 230 {
        243
    } else if c == 231 {
        244
    } else if c == 232 {
        244
    } else if c == 233 {
        245
    } else if c == 234 {
        245
    } else if c == 235 {
        245
    } else if c == 236 {
        246
    } else if c == 237 {
        246
    } else if c == 238 {
        247
    } else if c == 239 {
        247
    } else if c == 240 {
        248
    } else if c == 241 {
        248
    } else if c == 242 {
        249
    } else if c == 243 {
        249
    } else if c == 244 {
        250
    } else if c == 245 {
        250
    } else if c == 246 {
        251
    } else if c == 247 {
        251
    } else if c == 248 {
        251
    } else if c == 249 {
        252
    } else if c == 250 {
        252
    } else if c == 251 {
        253
    } else if c == 252 {
        253
    } else if c == 253 {
        254
    } else if c == 254 {
        254
    } else {
        255
    }
}

} // verus!
