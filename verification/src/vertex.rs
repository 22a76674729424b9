use vstd::prelude::*;

pub mod consts;

verus! {

/// Bit pattern of the 32-bit float `1.0`.
pub const ONE_BITS: u32 = 0x3f80_0000;

/// The four bytes of a 32-bit word, least significant first.
pub open spec fn word_bytes(x: u32) -> Seq<u8> {
    seq![
        (x & 0xff) as u8,
        ((x >> 8) & 0xff) as u8,
        ((x >> 16) & 0xff) as u8,
        ((x >> 24) & 0xff) as u8,
    ]
}

/// The 32-bit word whose bytes, least significant first, are `b0..b3`.
pub open spec fn word_of(b0: u8, b1: u8, b2: u8, b3: u8) -> u32 {
    (b0 as u32) | ((b1 as u32) << 8) | ((b2 as u32) << 16) | ((b3 as u32) << 24)
}

/// The byte layout of a sequence of words: word `k` occupies bytes `4k..4k+4`.
pub open spec fn words_to_bytes(words: Seq<u32>) -> Seq<u8> {
    Seq::new(4 * words.len(), |i: int| word_bytes(words[i / 4])[i % 4])
}

/// The words laid out in a byte sequence, reading four bytes per word.
pub open spec fn bytes_to_words(bytes: Seq<u8>) -> Seq<u32> {
    Seq::new(
        bytes.len() / 4,
        |k: int| word_of(bytes[4 * k], bytes[4 * k + 1], bytes[4 * k + 2], bytes[4 * k + 3]),
    )
}

/// One vertex record. Every field holds the IEEE-754 bit pattern of a 32-bit
/// float, so that a record is exactly the data that reaches the vertex buffer.
#[derive(Clone, Copy, Debug)]
pub struct Vertex {
    pub position: [u32; 3],
    pub color: [u32; 4],
    pub tex_coord: [u32; 2],
    pub normal: [u32; 3],
}

impl Default for Vertex {
    /// Origin position, opaque white, texture origin, zero normal.
    fn default() -> (v: Vertex)
        ensures
            v.position@ == seq![0u32, 0u32, 0u32],
            v.color@ == seq![ONE_BITS, ONE_BITS, ONE_BITS, ONE_BITS],
            v.tex_coord@ == seq![0u32, 0u32],
            v.normal@ == seq![0u32, 0u32, 0u32],
    {
        let v = Vertex {
            position: [0, 0, 0],
            color: [ONE_BITS, ONE_BITS, ONE_BITS, ONE_BITS],
            tex_coord: [0, 0],
            normal: [0, 0, 0],
        };
        assert(v.position@ =~= seq![0u32, 0u32, 0u32]);
        assert(v.color@ =~= seq![ONE_BITS, ONE_BITS, ONE_BITS, ONE_BITS]);
        assert(v.tex_coord@ =~= seq![0u32, 0u32]);
        assert(v.normal@ =~= seq![0u32, 0u32, 0u32]);
        v
    }
}

/// Splitting a word into bytes and joining them again gives the word back.
pub proof fn word_round_trip(x: u32)
    ensures
        word_of(word_bytes(x)[0], word_bytes(x)[1], word_bytes(x)[2], word_bytes(x)[3]) == x,
{
    let b0 = (x & 0xff) as u8;
    let b1 = ((x >> 8) & 0xff) as u8;
    let b2 = ((x >> 16) & 0xff) as u8;
    let b3 = ((x >> 24) & 0xff) as u8;
    assert(((x & 0xff) as u8 as u32) | ((((x >> 8) & 0xff) as u8 as u32) << 8) | ((((x >> 16)
        & 0xff) as u8 as u32) << 16) | ((((x >> 24) & 0xff) as u8 as u32) << 24) == x)
        by (bit_vector);
}

/// Joining four bytes into a word and splitting it again gives the bytes back.
pub proof fn bytes_round_trip(b0: u8, b1: u8, b2: u8, b3: u8)
    ensures
        word_bytes(word_of(b0, b1, b2, b3)) == seq![b0, b1, b2, b3],
{
    let x = word_of(b0, b1, b2, b3);
    assert({
        let x = (b0 as u32) | ((b1 as u32) << 8) | ((b2 as u32) << 16) | ((b3 as u32) << 24);
        &&& (x & 0xff) as u8 == b0
        &&& ((x >> 8) & 0xff) as u8 == b1
        &&& ((x >> 16) & 0xff) as u8 == b2
        &&& ((x >> 24) & 0xff) as u8 == b3
    }) by (bit_vector);
    assert(word_bytes(x) =~= seq![b0, b1, b2, b3]);
}

impl Vertex {
    /// The twelve fields in layout order: position, color, texture
    /// coordinate, normal.
    pub open spec fn words(self) -> Seq<u32> {
        seq![
            self.position@[0],
            self.position@[1],
            self.position@[2],
            self.color@[0],
            self.color@[1],
            self.color@[2],
            self.color@[3],
            self.tex_coord@[0],
            self.tex_coord@[1],
            self.normal@[0],
            self.normal@[1],
            self.normal@[2],
        ]
    }

    /// The 48 bytes of the record.
    pub open spec fn encoding(self) -> Seq<u8> {
        words_to_bytes(self.words())
    }

    /// The fields as one array, in layout order.
    pub fn to_words(&self) -> (w: [u32; 12])
        ensures
            w@ == self.words(),
    {
        let w = [
            self.position[0],
            self.position[1],
            self.position[2],
            self.color[0],
            self.color[1],
            self.color[2],
            self.color[3],
            self.tex_coord[0],
            self.tex_coord[1],
            self.normal[0],
            self.normal[1],
            self.normal[2],
        ];
        assert(w@ =~= self.words());
        w
    }

    /// The record whose fields, in layout order, are `w`.
    pub fn from_words(w: &[u32; 12]) -> (v: Vertex)
        ensures
            v.words() == w@,
    {
        let v = Vertex {
            position: [w[0], w[1], w[2]],
            color: [w[3], w[4], w[5], w[6]],
            tex_coord: [w[7], w[8]],
            normal: [w[9], w[10], w[11]],
        };
        assert(v.words() =~= w@);
        v
    }

    /// Encodes the record: twelve words, four bytes each, least significant
    /// byte first, no padding.
    pub fn to_bytes(&self) -> (out: [u8; 48])
        ensures
            out@ == self.encoding(),
    {
        let w = self.to_words();
        let mut out = [0u8; 48];
        let mut k: usize = 0;
        while k < 12
            invariant
                k <= 12,
                w@ == self.words(),
                forall|i: int| 0 <= i < 4 * k ==> out@[i] == word_bytes(w@[i / 4])[i % 4],
            decreases 12 - k,
        {
            let x = w[k];
            assert(x & 0xff < 256 && (x >> 8) & 0xff < 256 && (x >> 16) & 0xff < 256 && (x >> 24)
                & 0xff < 256) by (bit_vector);
            out[4 * k] = (x & 0xff) as u8;
            out[4 * k + 1] = ((x >> 8) & 0xff) as u8;
            out[4 * k + 2] = ((x >> 16) & 0xff) as u8;
            out[4 * k + 3] = ((x >> 24) & 0xff) as u8;
            k += 1;
        }
        assert(out@ =~= self.encoding());
        out
    }

    /// Decodes a record from its 48 bytes.
    pub fn from_bytes(bytes: &[u8; 48]) -> (v: Vertex)
        ensures
            v.words() == bytes_to_words(bytes@),
    {
        let mut w = [0u32; 12];
        let mut k: usize = 0;
        while k < 12
            invariant
                k <= 12,
                forall|j: int|
                    0 <= j < k ==> w@[j] == word_of(
                        bytes@[4 * j],
                        bytes@[4 * j + 1],
                        bytes@[4 * j + 2],
                        bytes@[4 * j + 3],
                    ),
            decreases 12 - k,
        {
            let b0 = bytes[4 * k];
            let b1 = bytes[4 * k + 1];
            let b2 = bytes[4 * k + 2];
            let b3 = bytes[4 * k + 3];
            w[k] = (b0 as u32) | ((b1 as u32) << 8) | ((b2 as u32) << 16) | ((b3 as u32) << 24);
            k += 1;
        }
        assert(w@ =~= bytes_to_words(bytes@));
        Vertex::from_words(&w)
    }
}

/// The bytes of a run of records: record `n` occupies bytes `48n..48n+48`.
pub open spec fn encoding_of_all(vertices: Seq<Vertex>) -> Seq<u8> {
    Seq::new(48 * vertices.len(), |i: int| vertices[i / 48].encoding()[i % 48])
}

impl Vertex {
    /// Encodes a run of records back to back, in order, with no padding
    /// between them.
    pub fn into_bytes(vertices: &[Vertex]) -> (out: Vec<u8>)
        requires
            vertices@.len() * 48 <= usize::MAX,
        ensures
            out@ == encoding_of_all(vertices@),
    {
        let n = vertices.len();
        let mut out: Vec<u8> = Vec::with_capacity(consts::SIZE * n);
        let mut k: usize = 0;
        while k < n
            invariant
                k <= n,
                n == vertices@.len(),
                out@.len() == 48 * k,
                forall|i: int| 0 <= i < 48 * k ==> out@[i] == vertices@[i / 48].encoding()[i % 48],
            decreases n - k,
        {
            let t = vertices[k].to_bytes();
            let mut j: usize = 0;
            while j < 48
                invariant
                    j <= 48,
                    k < n,
                    n == vertices@.len(),
                    t@ == vertices@[k as int].encoding(),
                    out@.len() == 48 * k + j,
                    forall|i: int|
                        0 <= i < 48 * k + j ==> out@[i] == vertices@[i / 48].encoding()[i % 48],
                decreases 48 - j,
            {
                out.push(t[j]);
                j += 1;
            }
            k += 1;
        }
        assert(out@ =~= encoding_of_all(vertices@));
        out
    }
}

/// Decoding the encoding of a record yields its twelve fields exactly.
pub proof fn encode_decode_round_trip(v: Vertex)
    ensures
        v.encoding().len() == 48,
        bytes_to_words(v.encoding()) == v.words(),
{
    let w = v.words();
    let e = v.encoding();
    assert forall|k: int| 0 <= k < 12 implies #[trigger] bytes_to_words(e)[k] == w[k] by {
        word_round_trip(w[k]);
    }
    assert(bytes_to_words(e) =~= w);
}

/// Encoding the fields decoded from 48 bytes yields those bytes exactly.
pub proof fn decode_encode_round_trip(bytes: Seq<u8>)
    requires
        bytes.len() == 48,
    ensures
        words_to_bytes(bytes_to_words(bytes)) == bytes,
{
    let w = bytes_to_words(bytes);
    assert forall|i: int| 0 <= i < 48 implies #[trigger] words_to_bytes(w)[i] == bytes[i] by {
        let k = i / 4;
        bytes_round_trip(bytes[4 * k], bytes[4 * k + 1], bytes[4 * k + 2], bytes[4 * k + 3]);
    }
    assert(words_to_bytes(w) =~= bytes);
}

/// A record is determined by its twelve fields.
pub proof fn words_determine_vertex(a: Vertex, b: Vertex)
    requires
        a.words() == b.words(),
    ensures
        a == b,
{
    assert(a.position@.len() == 3 && a.color@.len() == 4 && a.tex_coord@.len() == 2);
    assert(b.position@.len() == 3 && b.color@.len() == 4 && b.tex_coord@.len() == 2);
    assert forall|i: int| 0 <= i < 3 implies a.position@[i] == b.position@[i] by {
        assert(a.words()[i] == b.words()[i]);
    }
    assert forall|i: int| 0 <= i < 4 implies a.color@[i] == b.color@[i] by {
        assert(a.words()[3 + i] == b.words()[3 + i]);
    }
    assert forall|i: int| 0 <= i < 2 implies a.tex_coord@[i] == b.tex_coord@[i] by {
        assert(a.words()[7 + i] == b.words()[7 + i]);
    }
    assert forall|i: int| 0 <= i < 3 implies a.normal@[i] == b.normal@[i] by {
        assert(a.words()[9 + i] == b.words()[9 + i]);
    }
    assert(a.position =~= b.position);
    assert(a.color =~= b.color);
    assert(a.tex_coord =~= b.tex_coord);
    assert(a.normal =~= b.normal);
}

/// Each attribute sits at its documented byte offset inside the encoding:
/// field `f` of the record starts at byte `4f`, so position starts at byte 0,
/// color at 12, texture coordinate at 28 and normal at 36.
pub proof fn attribute_offsets(v: Vertex, c: int)
    ensures
        0 <= c < 3 ==> v.encoding().subrange(
            consts::POSITION_START + 4 * c,
            consts::POSITION_START + 4 * c + 4,
        ) == word_bytes(v.position@[c]),
        0 <= c < 4 ==> v.encoding().subrange(
            consts::COLOR_START + 4 * c,
            consts::COLOR_START + 4 * c + 4,
        ) == word_bytes(v.color@[c]),
        0 <= c < 2 ==> v.encoding().subrange(
            consts::TEXCOORD_START + 4 * c,
            consts::TEXCOORD_START + 4 * c + 4,
        ) == word_bytes(v.tex_coord@[c]),
        0 <= c < 3 ==> v.encoding().subrange(
            consts::NORMAL_START + 4 * c,
            consts::NORMAL_START + 4 * c + 4,
        ) == word_bytes(v.normal@[c]),
{
    let e = v.encoding();
    if 0 <= c < 3 {
        assert(e.subrange(4 * c, 4 * c + 4) =~= word_bytes(v.position@[c]));
    }
    if 0 <= c < 4 {
        assert(e.subrange(12 + 4 * c, 12 + 4 * c + 4) =~= word_bytes(v.color@[c]));
    }
    if 0 <= c < 2 {
        assert(e.subrange(28 + 4 * c, 28 + 4 * c + 4) =~= word_bytes(v.tex_coord@[c]));
    }
    if 0 <= c < 3 {
        assert(e.subrange(36 + 4 * c, 36 + 4 * c + 4) =~= word_bytes(v.normal@[c]));
    }
}

} // verus!
