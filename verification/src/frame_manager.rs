//! Frames stored in a packed file: one bit per pixel, compressed.
//!
//! A file starts with eight bytes: the width and the height in cells, two
//! bytes each, and the number of frames, four bytes, all least significant
//! byte first. The rest is one LZ4 block that holds the frames one after the
//! other. A frame has two pixel rows per cell row and one bit per pixel, most
//! significant bit first, padded to whole bytes.
//!
//! A loaded frame is what the renderer takes: width and height as in the
//! file's header, then three equal bytes per pixel, 255 for a set bit and 0
//! for a clear one.

use vstd::prelude::*;

verus! {

/// Length of the header of a packed file.
pub const HEADER_LEN: usize = 8;

/// Why a packed file could not be loaded.
#[derive(Clone, Copy, PartialEq, Eq, Structural, Debug)]
pub enum LoadError {
    /// The header asks for more bytes than one block can hold.
    TooLarge,
    /// The compressed block is damaged.
    Corrupt,
    /// The block holds fewer bytes than the header asks for.
    Truncated,
}

/// The header of a packed file.
#[derive(Clone, Copy, PartialEq, Eq, Structural, Debug)]
pub struct PackedHeader {
    /// Width of a frame in cells, which is its width in pixels.
    pub width: u16,
    /// Height of a frame in cells, half its height in pixels.
    pub height: u16,
    /// Number of frames in the file.
    pub frame_count: u32,
}

/// What `lz4::block::decompress` makes of a block when told that no more
/// than `size` bytes come out: the bytes, or nothing where it fails.
pub uninterp spec fn lz4_block(src: Seq<u8>, size: i32) -> Option<Seq<u8>>;

/// Decompresses one block by `lz4::block::decompress`, with the given upper
/// bound on the size of what comes out. The outcome is a function of the
/// block and the bound, named `lz4_block`; what comes out is never longer than
/// the bound, because the buffer it is written to has that length.
#[verifier::external_body]
fn decompress_block(src: &[u8], size: i32) -> (out: Option<Vec<u8>>)
    ensures
        match out {
            Some(bytes) => lz4_block(src@, size) == Some(bytes@) && bytes@.len() <= size,
            None => lz4_block(src@, size) is None,
        },
{
    lz4::block::decompress(src, Some(size)).ok()
}

/// A number of two bytes, least significant first.
pub open spec fn le16(lo: u8, hi: u8) -> int {
    lo + 256 * hi
}

/// A number of four bytes, least significant first.
pub open spec fn le32(b0: u8, b1: u8, b2: u8, b3: u8) -> int {
    b0 + 256 * b1 + 65536 * b2 + 16777216 * b3
}

/// The header that a file of at least eight bytes starts with.
pub open spec fn header_of(data: Seq<u8>) -> PackedHeader {
    PackedHeader {
        width: le16(data[0], data[1]) as u16,
        height: le16(data[2], data[3]) as u16,
        frame_count: le32(data[4], data[5], data[6], data[7]) as u32,
    }
}

impl PackedHeader {
    /// Pixels in a frame: two rows of pixels for each row of cells.
    pub open spec fn pixels(self) -> int {
        self.width * (self.height * 2)
    }

    /// Bytes that a packed frame takes.
    pub open spec fn packed_len(self) -> int {
        (self.pixels() + 7) / 8
    }

    /// Bytes that all packed frames take together.
    pub open spec fn total_len(self) -> int {
        self.packed_len() * self.frame_count
    }

    /// Whether pixel `i` of a packed frame is set.
    pub open spec fn bit(packed: Seq<u8>, i: int) -> bool {
        (packed[i / 8] >> ((7 - i % 8) as u8)) & 1 == 1
    }

    /// A packed frame in the form that the renderer takes.
    pub open spec fn unpack(self, packed: Seq<u8>) -> Seq<u8> {
        seq![
            (self.width % 256) as u8,
            (self.width / 256) as u8,
            (self.height % 256) as u8,
            (self.height / 256) as u8,
        ] + Seq::new(
            (self.pixels() * 3) as nat,
            |k: int|
                if Self::bit(packed, k / 3) {
                    255u8
                } else {
                    0u8
                },
        )
    }

    /// Frame number `f` of the packed bytes, unpacked.
    pub open spec fn frame(self, packed: Seq<u8>, f: int) -> Seq<u8> {
        self.unpack(packed.subrange(f * self.packed_len(), (f + 1) * self.packed_len()))
    }

    /// Every frame of the packed bytes, unpacked.
    pub open spec fn frames(self, packed: Seq<u8>) -> Seq<Seq<u8>> {
        Seq::new(self.frame_count as nat, |f: int| self.frame(packed, f))
    }
}

/// What unpacking gives: the frames held afterwards, and the answer.
pub open spec fn unpack_outcome(held: Seq<Seq<u8>>, header: PackedHeader, packed: Seq<u8>) -> (
    Seq<Seq<u8>>,
    Result<usize, LoadError>,
) {
    if packed.len() < header.total_len() {
        (held, Err(LoadError::Truncated))
    } else {
        let all = held + header.frames(packed);
        (all, Ok(all.len() as usize))
    }
}

/// What loading a file gives, for what the decompressor makes of its block:
/// the frames held afterwards, and the answer. A file too short for a header
/// holds no frames and is no error.
pub open spec fn load_outcome(held: Seq<Seq<u8>>, data: Seq<u8>) -> (
    Seq<Seq<u8>>,
    Result<usize, LoadError>,
) {
    if data.len() < HEADER_LEN {
        (held, Ok(0usize))
    } else {
        let header = header_of(data);
        if header.total_len() > i32::MAX {
            (held, Err(LoadError::TooLarge))
        } else {
            match lz4_block(data.subrange(HEADER_LEN as int, data.len() as int), header.total_len() as i32) {
                None => (held, Err(LoadError::Corrupt)),
                Some(packed) => unpack_outcome(held, header, packed),
            }
        }
    }
}

/// Holds the frames loaded from packed files.
pub struct FrameManager {
    frames: Vec<Vec<u8>>,
}

impl FrameManager {
    /// The frames held, each as its bytes.
    pub closed spec fn view(&self) -> Seq<Seq<u8>> {
        Seq::new(self.frames@.len(), |i: int| self.frames@[i]@)
    }

    /// A manager that holds no frame.
    pub fn new() -> (manager: Self)
        ensures
            manager@ == Seq::<Seq<u8>>::empty(),
    {
        let manager = FrameManager { frames: Vec::new() };
        assert(manager@ =~= Seq::<Seq<u8>>::empty());
        manager
    }

    /// Frame number `index`, if there is one.
    pub fn get_frame(&self, index: usize) -> (frame: Option<&Vec<u8>>)
        ensures
            match frame {
                Some(bytes) => index < self@.len() && bytes@ == self@[index as int],
                None => index >= self@.len(),
            },
    {
        if index < self.frames.len() {
            Some(&self.frames[index])
        } else {
            None
        }
    }

    /// Number of frames held.
    pub fn frame_count(&self) -> (count: usize)
        ensures
            count == self@.len(),
    {
        self.frames.len()
    }

    /// Unpacks the frames that a header announces from the decompressed
    /// bytes of a file and holds them after the frames held before. Answers
    /// with the number of frames then held. Bytes beyond the last frame are
    /// ignored; where bytes are missing nothing is held and the answer is an
    /// error.
    pub fn unpack_frames(&mut self, header: PackedHeader, packed: &[u8]) -> (r: Result<
        usize,
        LoadError,
    >)
        ensures
            (final(self)@, r) == unpack_outcome(old(self)@, header, packed@),
    {
        proof {
            lemma_header_bounds(header);
        }
        let plen: u64 = header.packed_size();
        let total: u64 = plen * header.frame_count as u64;
        if (packed.len() as u64) < total {
            return Err(LoadError::Truncated);
        }
        let mut f: u32 = 0;
        while f < header.frame_count
            invariant
                f <= header.frame_count,
                plen == header.packed_len(),
                total == header.total_len(),
                total <= packed@.len() <= usize::MAX,
                self@ == old(self)@ + header.frames(packed@).subrange(0, f as int),
            decreases header.frame_count - f,
        {
            assert(plen * f + plen <= total && plen * f >= 0 && plen * f + plen == (f + 1) * plen
                && plen * f == f * plen) by (nonlinear_arith)
                requires
                    total == plen * header.frame_count,
                    0 <= f < header.frame_count,
                    plen >= 0,
            ;
            let start: u64 = plen * f as u64;
            let frame: Vec<u8> = header.unpack_at(packed, start as usize);
            assert(frame@ == header.frame(packed@, f as int));
            let ghost before = self@;
            self.frames.push(frame);
            assert(self@ =~= before.push(frame@));
            assert(header.frames(packed@).subrange(0, f + 1) =~= header.frames(packed@).subrange(
                0,
                f as int,
            ).push(header.frame(packed@, f as int)));
            f = f + 1;
        }
        assert(header.frames(packed@).subrange(0, f as int) =~= header.frames(packed@));
        Ok(self.frames.len())
    }

    /// Loads the frames of a packed file, given as its bytes, and holds them
    /// after the frames held before. Answers with the number of frames then
    /// held, or with zero for a file too short to have a header.
    pub fn load_frames(&mut self, data: &[u8]) -> (r: Result<usize, LoadError>)
        ensures
            (final(self)@, r) == load_outcome(old(self)@, data@),
    {
        if data.len() < HEADER_LEN {
            return Ok(0);
        }
        let header: PackedHeader = parse_header(data);
        proof {
            lemma_header_bounds(header);
        }
        let total: u64 = header.packed_size() * header.frame_count as u64;
        if total > i32::MAX as u64 {
            return Err(LoadError::TooLarge);
        }
        let body: &[u8] = vstd::slice::slice_subrange(data, HEADER_LEN, data.len());
        match decompress_block(body, total as i32) {
            None => Err(LoadError::Corrupt),
            Some(packed) => self.unpack_frames(header, packed.as_slice()),
        }
    }
}

/// The width and height that a loaded frame starts with; none where the
/// frame is too short to hold them.
pub open spec fn frame_size_of(frame: Seq<u8>) -> Option<(u16, u16)> {
    if frame.len() < 4 {
        None
    } else {
        Some((le16(frame[0], frame[1]) as u16, le16(frame[2], frame[3]) as u16))
    }
}

/// The width and height that a loaded frame starts with. The pixels follow
/// from the fifth byte on.
pub fn frame_size(frame: &[u8]) -> (size: Option<(u16, u16)>)
    ensures
        size == frame_size_of(frame@),
{
    if frame.len() < 4 {
        None
    } else {
        Some((frame[0] as u16 + 256 * frame[1] as u16, frame[2] as u16 + 256 * frame[3] as u16))
    }
}

/// An unpacked frame starts with the width and height of its file's header
/// and holds three bytes for each pixel after them.
pub proof fn lemma_unpacked_frame_carries_size(header: PackedHeader, packed: Seq<u8>)
    ensures
        frame_size_of(header.unpack(packed)) == Some((header.width, header.height)),
        header.unpack(packed).len() == 4 + header.pixels() * 3,
{
    lemma_header_bounds(header);
    let frame = header.unpack(packed);
    assert(frame.len() == 4 + header.pixels() * 3);
    assert(frame[0] == (header.width % 256) as u8);
    assert(frame[1] == (header.width / 256) as u8);
    assert(frame[2] == (header.height % 256) as u8);
    assert(frame[3] == (header.height / 256) as u8);
}

/// The sizes that a header can ask for fit 64 bits with room to spare.
proof fn lemma_header_bounds(header: PackedHeader)
    ensures
        0 <= header.pixels() <= 65535 * 131070,
        0 <= header.packed_len() <= 1073717126,
        0 <= header.total_len() <= 1073717126 * 4294967295,
        header.pixels() <= header.packed_len() * 8,
{
    let w = header.width as int;
    let h2 = header.height as int * 2;
    assert(0 <= w * h2 <= 65535 * 131070) by (nonlinear_arith)
        requires
            0 <= w <= 65535,
            0 <= h2 <= 131070,
    ;
    let plen = header.packed_len();
    let n = header.frame_count as int;
    assert(0 <= plen * n <= 1073717126 * 4294967295) by (nonlinear_arith)
        requires
            0 <= plen <= 1073717126,
            0 <= n <= 4294967295,
    ;
}

/// Reads the header that a file of at least eight bytes starts with.
pub fn parse_header(data: &[u8]) -> (header: PackedHeader)
    requires
        data@.len() >= HEADER_LEN,
    ensures
        header == header_of(data@),
{
    PackedHeader {
        width: data[0] as u16 + 256 * data[1] as u16,
        height: data[2] as u16 + 256 * data[3] as u16,
        frame_count: data[4] as u32 + 256 * data[5] as u32 + 65536 * data[6] as u32 + 16777216
            * data[7] as u32,
    }
}

impl PackedHeader {
    /// Bytes that a packed frame takes.
    pub fn packed_size(&self) -> (n: u64)
        ensures
            n == self.packed_len(),
    {
        proof {
            lemma_header_bounds(*self);
        }
        (self.width as u64 * (self.height as u64 * 2) + 7) / 8
    }

    /// Unpacks the frame whose packed bytes start at `start`.
    fn unpack_at(&self, packed: &[u8], start: usize) -> (frame: Vec<u8>)
        requires
            start + self.packed_len() <= packed@.len(),
        ensures
            frame@ == self.unpack(packed@.subrange(start as int, start + self.packed_len())),
    {
        proof {
            lemma_header_bounds(*self);
        }
        let ghost part = packed@.subrange(start as int, start + self.packed_len());
        let len: usize = packed.len();
        let pixels: u64 = self.width as u64 * (self.height as u64 * 2);
        let mut frame: Vec<u8> = Vec::new();
        frame.push((self.width % 256) as u8);
        frame.push((self.width / 256) as u8);
        frame.push((self.height % 256) as u8);
        frame.push((self.height / 256) as u8);
        let ghost head = frame@;
        let mut i: u64 = 0;
        while i < pixels
            invariant
                i <= pixels == self.pixels(),
                pixels <= self.packed_len() * 8,
                self.packed_len() <= 1073717126,
                packed@.len() <= usize::MAX,
                start + self.packed_len() <= packed@.len(),
                part == packed@.subrange(start as int, start + self.packed_len()),
                frame@ == head + Seq::new(
                    (i * 3) as nat,
                    |k: int|
                        if Self::bit(part, k / 3) {
                            255u8
                        } else {
                            0u8
                        },
                ),
            decreases pixels - i,
        {
            let at: usize = start + (i / 8) as usize;
            let shift: u8 = (7 - i % 8) as u8;
            let set: bool = (packed[at] >> shift) & 1 == 1;
            assert(set == Self::bit(part, i as int));
            let value: u8 = if set {
                255
            } else {
                0
            };
            let ghost before = frame@;
            frame.push(value);
            frame.push(value);
            frame.push(value);
            assert(frame@ =~= head + Seq::new(
                ((i + 1) * 3) as nat,
                |k: int|
                    if Self::bit(part, k / 3) {
                        255u8
                    } else {
                        0u8
                    },
            ));
            i = i + 1;
        }
        assert(frame@ =~= self.unpack(part));
        frame
    }
}

} // verus!
