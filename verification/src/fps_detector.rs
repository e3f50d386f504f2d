//! The frame rate that a decoder reports for a video.
//!
//! A decoder announces a video stream in a line such as
//! `Stream #0:0: Video: h264, yuv420p, 1920x1080, 23.98 fps, 24 tbr`. The
//! fields of such a line that name a rate are picked out here; turning their
//! text into a number is left to the caller. Rates are kept as whole
//! hundredths of a frame per second, so that a rate such as 23.98 is held
//! exactly.

use vstd::prelude::*;

verus! {

/// Remembers the frame rate reported last.
#[derive(Clone, Copy, PartialEq, Eq, Structural, Debug)]
pub struct FpsDetector {
    /// The rate in hundredths of a frame per second; zero while none is
    /// known.
    pub hundredths: u32,
}

impl FpsDetector {
    /// A detector that knows no rate yet.
    pub fn new() -> (detector: Self)
        ensures
            detector.hundredths == 0,
    {
        FpsDetector { hundredths: 0 }
    }

    /// Remembers a rate, given in hundredths of a frame per second.
    pub fn record(&mut self, hundredths: u32)
        ensures
            final(self).hundredths == hundredths,
    {
        self.hundredths = hundredths;
    }

    /// The rate in hundredths of a frame per second, if one is known.
    pub fn get_fps_hundredths(&self) -> (fps: Option<u32>)
        ensures
            fps == (if self.hundredths == 0 {
                None
            } else {
                Some(self.hundredths)
            }),
    {
        if self.hundredths == 0 {
            None
        } else {
            Some(self.hundredths)
        }
    }

    /// The rate in hundredths of a frame per second; where none is known,
    /// the given whole rate, saturating at the largest value that fits.
    pub fn get_fps_hundredths_or(&self, default_fps: u32) -> (fps: u32)
        ensures
            self.hundredths != 0 ==> fps == self.hundredths,
            self.hundredths == 0 && default_fps * 100 <= u32::MAX ==> fps == default_fps * 100,
            self.hundredths == 0 && default_fps * 100 > u32::MAX ==> fps == u32::MAX,
    {
        if self.hundredths != 0 {
            self.hundredths
        } else if default_fps <= u32::MAX / 100 {
            default_fps * 100
        } else {
            u32::MAX
        }
    }
}

/// The bytes of `Stream #`.
pub open spec fn stream_mark() -> Seq<u8> {
    seq![0x53u8, 0x74u8, 0x72u8, 0x65u8, 0x61u8, 0x6du8, 0x20u8, 0x23u8]
}

/// The bytes of `Video:`.
pub open spec fn video_mark() -> Seq<u8> {
    seq![0x56u8, 0x69u8, 0x64u8, 0x65u8, 0x6fu8, 0x3au8]
}

/// The bytes of `fps`.
pub open spec fn fps_mark() -> Seq<u8> {
    seq![0x66u8, 0x70u8, 0x73u8]
}

/// Whether `needle` stands in `hay` at place `i`.
pub open spec fn occurs_at(hay: Seq<u8>, needle: Seq<u8>, i: int) -> bool {
    0 <= i && i + needle.len() <= hay.len() && hay.subrange(i, i + needle.len()) == needle
}

/// Whether `needle` stands anywhere in `hay`.
pub open spec fn contains(hay: Seq<u8>, needle: Seq<u8>) -> bool {
    exists|i: int| occurs_at(hay, needle, i)
}

/// Whether a line announces a video stream with a rate.
pub open spec fn is_video_line(line: Seq<u8>) -> bool {
    contains(line, stream_mark()) && contains(line, video_mark()) && contains(line, fps_mark())
}

/// Place of the first comma, or the length where there is none.
pub open spec fn first_comma(s: Seq<u8>) -> int
    decreases s.len(),
{
    if s.len() == 0 || s[0] == 0x2c {
        0
    } else {
        1 + first_comma(s.skip(1))
    }
}

/// The fields of a line: what stands between its commas.
pub open spec fn fields(s: Seq<u8>) -> Seq<Seq<u8>>
    decreases s.len(),
{
    let k = first_comma(s);
    if k < 0 || k >= s.len() {
        seq![s]
    } else {
        seq![s.take(k)] + fields(s.skip(k + 1))
    }
}

/// A text with every `fps` taken out, found from the left.
pub open spec fn without_fps(s: Seq<u8>) -> Seq<u8>
    decreases s.len(),
{
    if s.len() == 0 {
        s
    } else if occurs_at(s, fps_mark(), 0) {
        without_fps(s.skip(3))
    } else {
        seq![s[0]] + without_fps(s.skip(1))
    }
}

/// Whether a byte is ASCII white space.
pub open spec fn is_space(b: u8) -> bool {
    b == 0x20 || (0x09 <= b <= 0x0d)
}

/// A text without the ASCII white space at its start.
pub open spec fn trim_start(s: Seq<u8>) -> Seq<u8>
    decreases s.len(),
{
    if s.len() > 0 && is_space(s[0]) {
        trim_start(s.skip(1))
    } else {
        s
    }
}

/// A text without the ASCII white space at its end.
pub open spec fn trim_end(s: Seq<u8>) -> Seq<u8>
    decreases s.len(),
{
    if s.len() > 0 && is_space(s.last()) {
        trim_end(s.drop_last())
    } else {
        s
    }
}

/// The text of a rate in a field: the field without `fps` and without the
/// white space round it.
pub open spec fn rate_text(field: Seq<u8>) -> Seq<u8> {
    trim_end(trim_start(without_fps(field)))
}

/// The rate texts of the first `n` of some fields: one for each field that
/// holds `fps`, in the fields' order.
pub open spec fn rate_texts_of(parts: Seq<Seq<u8>>, n: int) -> Seq<Seq<u8>>
    decreases n,
{
    if n <= 0 {
        Seq::empty()
    } else if contains(parts[n - 1], fps_mark()) {
        rate_texts_of(parts, n - 1).push(rate_text(parts[n - 1]))
    } else {
        rate_texts_of(parts, n - 1)
    }
}

/// The rate texts of a line: none unless the line announces a video stream
/// with a rate.
pub open spec fn rate_texts(line: Seq<u8>) -> Seq<Seq<u8>> {
    if is_video_line(line) {
        rate_texts_of(fields(line), fields(line).len() as int)
    } else {
        Seq::empty()
    }
}

/// Whether `needle` stands in `hay` at place `i`.
fn matches_at(hay: &[u8], needle: &[u8], i: usize) -> (found: bool)
    ensures
        found == occurs_at(hay@, needle@, i as int),
{
    let n: usize = hay.len();
    let m: usize = needle.len();
    if i > n || m > n - i {
        return false;
    }
    let mut k: usize = 0;
    while k < m
        invariant
            k <= m == needle@.len(),
            i + m <= n == hay@.len(),
            forall|j: int| 0 <= j < k ==> hay@[i + j] == needle@[j],
        decreases m - k,
    {
        if hay[i + k] != needle[k] {
            assert(hay@.subrange(i as int, i + m)[k as int] != needle@[k as int]);
            return false;
        }
        k = k + 1;
    }
    assert(hay@.subrange(i as int, i + m) =~= needle@);
    true
}

/// Whether `needle` stands anywhere in `hay`.
pub fn find(hay: &[u8], needle: &[u8]) -> (found: bool)
    ensures
        found == contains(hay@, needle@),
{
    let n: usize = hay.len();
    let mut i: usize = 0;
    while i < n
        invariant
            i <= n == hay@.len(),
            forall|j: int| 0 <= j < i ==> !occurs_at(hay@, needle@, j),
        decreases n - i,
    {
        if matches_at(hay, needle, i) {
            return true;
        }
        i = i + 1;
    }
    matches_at(hay, needle, n)
}

/// A copy of the bytes from `start` up to `end`.
fn copy_range(s: &[u8], start: usize, end: usize) -> (out: Vec<u8>)
    requires
        start <= end <= s@.len(),
    ensures
        out@ == s@.subrange(start as int, end as int),
{
    let mut out: Vec<u8> = Vec::new();
    let mut i: usize = start;
    while i < end
        invariant
            start <= i <= end <= s@.len(),
            out@ == s@.subrange(start as int, i as int),
        decreases end - i,
    {
        out.push(s[i]);
        assert(s@.subrange(start as int, i + 1) =~= s@.subrange(start as int, i as int).push(
            s@[i as int],
        ));
        i = i + 1;
    }
    out
}

/// The first comma of a text is where the first comma of it stands.
proof fn lemma_first_comma(s: Seq<u8>, k: int)
    requires
        0 <= k <= s.len(),
        forall|j: int| 0 <= j < k ==> s[j] != 0x2c,
        k == s.len() || s[k] == 0x2c,
    ensures
        first_comma(s) == k,
    decreases k,
{
    if k > 0 {
        let rest = s.skip(1);
        assert forall|j: int| 0 <= j < k - 1 implies rest[j] != 0x2c by {
            assert(rest[j] == s[j + 1]);
        }
        lemma_first_comma(rest, k - 1);
    }
}

/// The fields of a line.
pub fn split_fields(line: &[u8]) -> (parts: Vec<Vec<u8>>)
    ensures
        parts@.len() == fields(line@).len(),
        forall|i: int| 0 <= i < parts@.len() ==> (#[trigger] parts@[i])@ == fields(line@)[i],
{
    let n: usize = line.len();
    let mut parts: Vec<Vec<u8>> = Vec::new();
    let ghost mut done: Seq<Seq<u8>> = Seq::empty();
    let mut start: usize = 0;
    assert(line@.skip(0) =~= line@);
    assert(done + fields(line@) =~= fields(line@));
    loop
        invariant_except_break
            parts@.len() == done.len(),
            forall|i: int| 0 <= i < parts@.len() ==> (#[trigger] parts@[i])@ == done[i],
            fields(line@) == done + fields(line@.skip(start as int)),
        invariant
            start <= n == line@.len(),
        ensures
            parts@.len() == fields(line@).len(),
            forall|i: int| 0 <= i < parts@.len() ==> (#[trigger] parts@[i])@ == fields(line@)[i],
        decreases n - start,
    {
        let mut end: usize = start;
        while end < n && line[end] != 0x2c
            invariant
                start <= end <= n == line@.len(),
                forall|j: int| start <= j < end ==> line@[j] != 0x2c,
            decreases n - end,
        {
            end = end + 1;
        }
        let ghost rest = line@.skip(start as int);
        proof {
            assert forall|j: int| 0 <= j < end - start implies rest[j] != 0x2c by {
                assert(rest[j] == line@[start + j]);
            }
            lemma_first_comma(rest, end - start);
            assert(rest.take(end - start) =~= line@.subrange(start as int, end as int));
        }
        let part: Vec<u8> = copy_range(line, start, end);
        parts.push(part);
        if end >= n {
            proof {
                assert(rest.take(end - start) =~= rest);
                assert(fields(rest) == seq![rest]);
                let before = done;
                done = done.push(rest);
                assert(before + seq![rest] =~= done);
                assert(fields(line@) == done);
            }
            break ;
        }
        proof {
            assert(rest.skip(end - start + 1) =~= line@.skip(end + 1));
            assert(fields(rest) == seq![rest.take(end - start)] + fields(line@.skip(end + 1)));
            let before = done;
            done = done.push(rest.take(end - start));
            assert(before + (seq![rest.take(end - start)] + fields(line@.skip(end + 1))) =~= done
                + fields(line@.skip(end + 1)));
        }
        start = end + 1;
    }
    parts
}

/// A text with every `fps` taken out.
pub fn strip_fps(s: &[u8]) -> (out: Vec<u8>)
    ensures
        out@ == without_fps(s@),
{
    let n: usize = s.len();
    let mark: [u8; 3] = [0x66, 0x70, 0x73];
    assert(mark@ =~= fps_mark());
    let mut out: Vec<u8> = Vec::new();
    let mut i: usize = 0;
    assert(s@.skip(0) =~= s@);
    assert(out@ + without_fps(s@) =~= without_fps(s@));
    while i < n
        invariant
            i <= n == s@.len(),
            mark@ == fps_mark(),
            without_fps(s@) == out@ + without_fps(s@.skip(i as int)),
        decreases n - i,
    {
        let ghost rest = s@.skip(i as int);
        let here: bool = matches_at(s, mark.as_slice(), i);
        proof {
            assert(occurs_at(s@, fps_mark(), i as int) == occurs_at(rest, fps_mark(), 0)) by {
                if i + 3 <= n {
                    assert(rest.subrange(0, 3) =~= s@.subrange(i as int, i + 3));
                }
            }
        }
        if here {
            proof {
                assert(rest.skip(3) =~= s@.skip(i + 3));
            }
            i = i + 3;
        } else {
            let ghost before = out@;
            out.push(s[i]);
            proof {
                assert(rest.skip(1) =~= s@.skip(i + 1));
                assert(rest[0] == s@[i as int]);
                assert(before + (seq![rest[0]] + without_fps(rest.skip(1))) =~= out@ + without_fps(
                    rest.skip(1),
                ));
            }
            i = i + 1;
        }
    }
    assert(s@.skip(i as int) =~= Seq::<u8>::empty());
    assert(out@ + Seq::<u8>::empty() =~= out@);
    out
}

/// Whether a byte is ASCII white space.
fn space(b: u8) -> (yes: bool)
    ensures
        yes == is_space(b),
{
    b == 0x20 || (0x09 <= b && b <= 0x0d)
}

/// A text without the ASCII white space round it.
pub fn trim(s: &[u8]) -> (out: Vec<u8>)
    ensures
        out@ == trim_end(trim_start(s@)),
{
    let n: usize = s.len();
    let mut start: usize = 0;
    assert(s@.skip(0) =~= s@);
    while start < n && space(s[start])
        invariant
            start <= n == s@.len(),
            trim_start(s@) == trim_start(s@.skip(start as int)),
        decreases n - start,
    {
        proof {
            let rest = s@.skip(start as int);
            assert(rest[0] == s@[start as int]);
            assert(rest.skip(1) =~= s@.skip(start + 1));
        }
        start = start + 1;
    }
    let ghost middle = s@.skip(start as int);
    proof {
        if start < n {
            assert(middle[0] == s@[start as int]);
        }
        assert(trim_start(s@) == middle);
    }
    let mut end: usize = n;
    while end > start && space(s[end - 1])
        invariant
            start <= end <= n == s@.len(),
            trim_end(middle) == trim_end(s@.subrange(start as int, end as int)),
        decreases end - start,
    {
        proof {
            let part = s@.subrange(start as int, end as int);
            assert(part.last() == s@[end - 1]);
            assert(part.drop_last() =~= s@.subrange(start as int, end - 1));
        }
        end = end - 1;
    }
    proof {
        let part = s@.subrange(start as int, end as int);
        if end > start {
            assert(part.last() == s@[end - 1]);
        }
        assert(trim_end(part) == part);
    }
    copy_range(s, start, end)
}

impl FpsDetector {
    /// The rate texts of a line of a decoder's report: for a line that
    /// announces a video stream, the text of each field that names a rate,
    /// in the line's order; for any other line, none. Where a line names
    /// several rates the last one that is a number is the one to remember.
    pub fn parse_fps_from_line(line: &[u8]) -> (texts: Vec<Vec<u8>>)
        ensures
            texts@.len() == rate_texts(line@).len(),
            forall|i: int| 0 <= i < texts@.len() ==> (#[trigger] texts@[i])@ == rate_texts(line@)[i],
    {
        let mut texts: Vec<Vec<u8>> = Vec::new();
        let stream: [u8; 8] = [0x53, 0x74, 0x72, 0x65, 0x61, 0x6d, 0x20, 0x23];
        let video: [u8; 6] = [0x56, 0x69, 0x64, 0x65, 0x6f, 0x3a];
        let mark: [u8; 3] = [0x66, 0x70, 0x73];
        assert(stream@ =~= stream_mark());
        assert(video@ =~= video_mark());
        assert(mark@ =~= fps_mark());
        if !(find(line, stream.as_slice()) && find(line, video.as_slice()) && find(
            line,
            mark.as_slice(),
        )) {
            return texts;
        }
        let parts: Vec<Vec<u8>> = split_fields(line);
        let ghost all = fields(line@);
        let mut i: usize = 0;
        while i < parts.len()
            invariant
                i <= parts@.len() == all.len(),
                mark@ == fps_mark(),
                forall|k: int| 0 <= k < parts@.len() ==> (#[trigger] parts@[k])@ == all[k],
                texts@.len() == rate_texts_of(all, i as int).len(),
                forall|k: int|
                    0 <= k < texts@.len() ==> (#[trigger] texts@[k])@ == rate_texts_of(
                        all,
                        i as int,
                    )[k],
            decreases parts@.len() - i,
        {
            let part: &Vec<u8> = &parts[i];
            assert(part@ == all[i as int]);
            if find(part.as_slice(), mark.as_slice()) {
                let bare: Vec<u8> = strip_fps(part.as_slice());
                let text: Vec<u8> = trim(bare.as_slice());
                texts.push(text);
            }
            i = i + 1;
        }
        texts
    }
}

} // verus!
