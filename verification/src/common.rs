//! Planar formats, codec contexts and the marshaling of native output buffers
//! into owned frames.

use vstd::prelude::*;
use vstd::slice::*;
use vstd::string::*;
use crate::text::{append_bool, append_i64, append_u64, bool_text, int_text, nat_text};

verus! {

/// How many plane slots a native decode callback hands over.
pub const MAX_DATA_NUM: usize = 8;

/// The device family a codec session is opened on.
#[allow(non_camel_case_types)]
#[derive(Debug, Clone, Copy, PartialEq, Eq, Structural)]
pub enum HWDeviceType {
    HOST,
    DX9,
    DX10,
    DX11,
    DX12,
    OPENCL,
    OPENGL,
    CUDA,
    VULKAN,
}

/// Planar pixel layouts that the marshaling boundary understands.
#[derive(Debug, Clone, Copy, PartialEq, Eq, Structural)]
pub enum PixelFormat {
    /// Two planes: Y, then interleaved UV at half height.
    NV12,
    /// Three planes: Y, U, V, the last two at half height.
    YUV420P,
}

/// The compressed stream kind of a planar codec session.
#[derive(Debug, Clone, Copy, PartialEq, Eq, Structural)]
pub enum CodecID {
    H264,
    HEVC,
}

impl PixelFormat {
    /// The integer by which native code names this format.
    pub open spec fn spec_code(self) -> i32 {
        match self {
            PixelFormat::NV12 => 0,
            PixelFormat::YUV420P => 1,
        }
    }

    /// The format that a native integer names, if it names one.
    pub open spec fn spec_from_code(code: i32) -> Option<PixelFormat> {
        if code == 0 {
            Some(PixelFormat::NV12)
        } else if code == 1 {
            Some(PixelFormat::YUV420P)
        } else {
            None
        }
    }

    /// Number of planes a picture of this format is made of.
    pub open spec fn spec_planes(self) -> nat {
        match self {
            PixelFormat::NV12 => 2,
            PixelFormat::YUV420P => 3,
        }
    }

    /// The name of this format as it is written out.
    pub open spec fn spec_name(self) -> Seq<char> {
        match self {
            PixelFormat::NV12 => "NV12"@,
            PixelFormat::YUV420P => "YUV420P"@,
        }
    }

    pub fn name(self) -> (s: &'static str)
        ensures
            s@ == self.spec_name(),
    {
        match self {
            PixelFormat::NV12 => "NV12",
            PixelFormat::YUV420P => "YUV420P",
        }
    }

    pub fn code(self) -> (c: i32)
        ensures
            c == self.spec_code(),
            PixelFormat::spec_from_code(c) == Some(self),
    {
        match self {
            PixelFormat::NV12 => 0,
            PixelFormat::YUV420P => 1,
        }
    }

    pub fn from_code(code: i32) -> (r: Option<PixelFormat>)
        ensures
            r == PixelFormat::spec_from_code(code),
            r.is_some() <==> (code == 0 || code == 1),
            r.is_some() ==> r.unwrap().spec_code() == code,
    {
        if code == 0 {
            Some(PixelFormat::NV12)
        } else if code == 1 {
            Some(PixelFormat::YUV420P)
        } else {
            None
        }
    }

    pub fn planes(self) -> (n: usize)
        ensures
            n == self.spec_planes(),
            2 <= n <= 3,
            n <= MAX_DATA_NUM,
    {
        match self {
            PixelFormat::NV12 => 2,
            PixelFormat::YUV420P => 3,
        }
    }
}

/// What an encoder session is opened with.
#[derive(Debug, Clone, Copy, PartialEq, Eq, Structural)]
pub struct EncodeContext {
    pub device: HWDeviceType,
    pub format: PixelFormat,
    pub codec: CodecID,
    pub width: i32,
    pub height: i32,
}

/// What a decoder session is opened with.
#[derive(Debug, Clone, Copy, PartialEq, Eq, Structural)]
pub struct DecodeContext {
    pub device: HWDeviceType,
    pub format: PixelFormat,
    pub codec: CodecID,
}

/// One compressed access unit, fully copied out of the native buffer.
pub struct EncodeFrame {
    pub data: Vec<u8>,
    pub pts: i64,
    pub key: i32,
}

/// One decoded picture held as owned planar buffers.
pub struct DecodeFrame {
    pub format: PixelFormat,
    pub width: i32,
    pub height: i32,
    pub data: Vec<Vec<u8>>,
    pub linesize: Vec<i32>,
    pub key: bool,
}

/// What an encoded packet is: its payload, timestamp and key flag.
pub struct EncodeFrameView {
    pub data: Seq<u8>,
    pub pts: i64,
    pub key: i32,
}

/// What a planar picture is: its format, size and key flag, the bytes of each
/// plane and the stride of each plane.
pub struct DecodeFrameView {
    pub format: PixelFormat,
    pub width: i32,
    pub height: i32,
    pub data: Seq<Seq<u8>>,
    pub linesize: Seq<i32>,
    pub key: bool,
}

impl View for EncodeFrame {
    type V = EncodeFrameView;

    open spec fn view(&self) -> EncodeFrameView {
        EncodeFrameView { data: self.data@, pts: self.pts, key: self.key }
    }
}

impl View for DecodeFrame {
    type V = DecodeFrameView;

    open spec fn view(&self) -> DecodeFrameView {
        DecodeFrameView {
            format: self.format,
            width: self.width,
            height: self.height,
            data: Seq::new(self.data@.len(), |p: int| self.data@[p]@),
            linesize: self.linesize@,
            key: self.key,
        }
    }
}

/// Bytes in plane `plane` of a picture with the given stride and height: the
/// first plane is full height, every later plane half height.
pub open spec fn plane_len(linesize: i32, height: i32, plane: int) -> int {
    if plane == 0 {
        linesize * height
    } else {
        (linesize * height) / 2
    }
}

/// Number of planes that the native format code `format` stands for; zero
/// where the code names no supported format.
pub open spec fn plane_count(format: i32) -> nat {
    match PixelFormat::spec_from_code(format) {
        Some(f) => f.spec_planes(),
        None => 0,
    }
}

/// The geometry can be marshaled: each plane of the format has a stride that
/// is not negative and a byte count that fits the native integer. A format
/// code that names no supported layout asks for nothing.
pub open spec fn geometry_ok(linesizes: Seq<i32>, format: i32, height: i32) -> bool {
    plane_count(format) > 0 ==> {
        &&& height >= 0
        &&& plane_count(format) <= linesizes.len()
        &&& forall|p: int|
            0 <= p < plane_count(format) ==> {
                &&& 0 <= #[trigger] linesizes[p]
                &&& linesizes[p] * height <= i32::MAX
            }
    }
}

/// The native buffers are large enough for a picture of this geometry: the
/// geometry can be marshaled, and each plane of the format has a buffer of at
/// least its byte count.
pub open spec fn planes_fit(
    datas: Seq<Vec<u8>>,
    linesizes: Seq<i32>,
    format: i32,
    height: i32,
) -> bool {
    &&& geometry_ok(linesizes, format, height)
    &&& plane_count(format) <= datas.len()
    &&& forall|p: int|
        0 <= p < plane_count(format) ==> plane_len(#[trigger] linesizes[p], height, p)
            <= datas[p]@.len()
}

/// The picture that the native buffers describe, for a format code that names
/// a supported layout: one plane per plane of the format, each holding the
/// leading bytes of the native plane up to the plane's byte count, with the
/// strides kept.
pub open spec fn marshaled(
    datas: Seq<Vec<u8>>,
    linesizes: Seq<i32>,
    format: i32,
    width: i32,
    height: i32,
    key: i32,
) -> DecodeFrameView {
    DecodeFrameView {
        format: PixelFormat::spec_from_code(format).unwrap(),
        width,
        height,
        data: Seq::new(
            plane_count(format),
            |p: int| datas[p]@.take(plane_len(linesizes[p], height, p)),
        ),
        linesize: linesizes.take(plane_count(format) as int),
        key: key != 0,
    }
}

/// The byte counts of the planes, each followed by a space.
pub open spec fn lens_text(data: Seq<Vec<u8>>) -> Seq<char>
    decreases data.len(),
{
    if data.len() == 0 {
        Seq::empty()
    } else {
        lens_text(data.drop_last()) + nat_text(data.last()@.len()) + " "@
    }
}

/// The strides of the planes, each followed by a space.
pub open spec fn strides_text(linesize: Seq<i32>) -> Seq<char>
    decreases linesize.len(),
{
    if linesize.len() == 0 {
        Seq::empty()
    } else {
        strides_text(linesize.drop_last()) + int_text(linesize.last() as int) + " "@
    }
}

impl EncodeFrame {
    /// The one-line description of this packet: its length and timestamp.
    pub open spec fn text(&self) -> Seq<char> {
        "encode len:"@ + nat_text(self.data@.len()) + ", pts:"@ + int_text(self.pts as int)
    }

    /// Writes this packet out as one line.
    pub fn to_string(&self) -> (s: String)
        ensures
            s@ == self.text(),
    {
        let mut s = String::from_str("encode len:");
        append_u64(&mut s, self.data.len() as u64);
        s.append(", pts:");
        append_i64(&mut s, self.pts);
        s
    }
}

impl DecodeFrame {
    /// The one-line description of this picture: format, size, key flag,
    /// then the byte count and the stride of each plane.
    pub open spec fn text(&self) -> Seq<char> {
        "surface_format:"@ + self.format.spec_name() + ", width:"@ + int_text(self.width as int)
            + ", height:"@ + int_text(self.height as int) + ",key:"@ + bool_text(self.key)
            + ", data:"@ + lens_text(self.data@) + ", linesize:"@ + strides_text(self.linesize@)
    }

    /// Writes this picture out as one line.
    pub fn to_string(&self) -> (s: String)
        ensures
            s@ == self.text(),
    {
        let mut s = String::from_str("surface_format:");
        s.append(self.format.name());
        s.append(", width:");
        append_i64(&mut s, self.width as i64);
        s.append(", height:");
        append_i64(&mut s, self.height as i64);
        s.append(",key:");
        append_bool(&mut s, self.key);
        s.append(", data:");
        let ghost head = s@;
        let mut i: usize = 0;
        assert(s@ =~= head + lens_text(self.data@.take(0)));
        while i < self.data.len()
            invariant
                0 <= i <= self.data@.len(),
                s@ == head + lens_text(self.data@.take(i as int)),
            decreases self.data.len() - i,
        {
            append_u64(&mut s, self.data[i].len() as u64);
            s.append(" ");
            proof {
                let next = self.data@.take(i + 1);
                assert(next.drop_last() =~= self.data@.take(i as int));
                assert(next.last() == self.data@[i as int]);
                assert(s@ =~= head + lens_text(next));
            }
            i += 1;
        }
        assert(self.data@.take(i as int) =~= self.data@);
        s.append(", linesize:");
        let ghost head = s@;
        let mut j: usize = 0;
        assert(s@ =~= head + strides_text(self.linesize@.take(0)));
        while j < self.linesize.len()
            invariant
                0 <= j <= self.linesize@.len(),
                s@ == head + strides_text(self.linesize@.take(j as int)),
            decreases self.linesize.len() - j,
        {
            append_i64(&mut s, self.linesize[j] as i64);
            s.append(" ");
            proof {
                let next = self.linesize@.take(j + 1);
                assert(next.drop_last() =~= self.linesize@.take(j as int));
                assert(next.last() == self.linesize@[j as int]);
                assert(s@ =~= head + strides_text(next));
            }
            j += 1;
        }
        assert(self.linesize@.take(j as int) =~= self.linesize@);
        s
    }
}

/// Appends to `frames` an owned copy of the first `size` bytes of the native
/// encode output `data`, with its timestamp and key flag.
pub fn encode_callback(data: &[u8], size: i32, pts: i64, key: i32, frames: &mut Vec<EncodeFrame>)
    requires
        0 <= size <= data@.len(),
    ensures
        final(frames)@.len() == old(frames)@.len() + 1,
        final(frames)@.take(old(frames)@.len() as int) == old(frames)@,
        final(frames)@.last()@ == (EncodeFrameView { data: data@.take(size as int), pts, key }),
{
    let part = slice_subrange(data, 0, size as usize);
    let copy = slice_to_vec(part);
    frames.push(EncodeFrame { data: copy, pts, key });
    assert(final(frames)@.take(old(frames)@.len() as int) =~= old(frames)@);
}

/// The number of bytes to read from each native plane, in plane order; none
/// where the geometry cannot be marshaled. A format code that names no
/// supported layout has no planes to read.
pub fn plane_sizes(linesizes: &Vec<i32>, format: i32, height: i32) -> (r: Option<Vec<usize>>)
    ensures
        r.is_some() <==> geometry_ok(linesizes@, format, height),
        r.is_some() ==> {
            &&& r.unwrap()@.len() == plane_count(format)
            &&& forall|p: int|
                0 <= p < plane_count(format) ==> #[trigger] r.unwrap()@[p] == plane_len(
                    linesizes@[p],
                    height,
                    p,
                )
        },
{
    let mut sizes: Vec<usize> = Vec::new();
    match PixelFormat::from_code(format) {
        None => Some(sizes),
        Some(f) => {
            let n = f.planes();
            if height < 0 || linesizes.len() < n {
                return None;
            }
            let mut p: usize = 0;
            while p < n
                invariant
                    n == plane_count(format),
                    0 <= p <= n,
                    n <= linesizes.len(),
                    height >= 0,
                    sizes@.len() == p,
                    forall|q: int|
                        0 <= q < p ==> {
                            &&& 0 <= #[trigger] linesizes@[q]
                            &&& linesizes@[q] * height <= i32::MAX
                        },
                    forall|q: int|
                        0 <= q < p ==> #[trigger] sizes@[q] == plane_len(linesizes@[q], height, q),
                decreases n - p,
            {
                let stride = linesizes[p];
                if stride < 0 {
                    return None;
                }
                assert(0 <= stride * height <= 0x7fff_ffff * 0x7fff_ffff) by (nonlinear_arith)
                    requires
                        0 <= stride <= 0x7fff_ffff,
                        0 <= height <= 0x7fff_ffff,
                ;
                let area: i64 = (stride as i64) * (height as i64);
                if area > i32::MAX as i64 {
                    return None;
                }
                let need: i64 = if p == 0 {
                    area
                } else {
                    area / 2
                };
                sizes.push(need as usize);
                p += 1;
            }
            Some(sizes)
        },
    }
}

/// Whether the native buffers are large enough for a picture of the given
/// format and height.
pub fn check_planes(datas: &Vec<Vec<u8>>, linesizes: &Vec<i32>, format: i32, height: i32) -> (ok:
    bool)
    ensures
        ok == planes_fit(datas@, linesizes@, format, height),
{
    match plane_sizes(linesizes, format, height) {
        None => false,
        Some(sizes) => {
            if datas.len() < sizes.len() {
                return false;
            }
            let mut p: usize = 0;
            while p < sizes.len()
                invariant
                    sizes@.len() == plane_count(format),
                    sizes@.len() <= datas@.len(),
                    0 <= p <= sizes@.len(),
                    forall|q: int|
                        0 <= q < plane_count(format) ==> #[trigger] sizes@[q] == plane_len(
                            linesizes@[q],
                            height,
                            q,
                        ),
                    forall|q: int|
                        0 <= q < p ==> plane_len(#[trigger] linesizes@[q], height, q)
                            <= datas@[q]@.len(),
                decreases sizes.len() - p,
            {
                if sizes[p] > datas[p].len() {
                    assert(sizes@[p as int] == plane_len(linesizes@[p as int], height, p as int));
                    return false;
                }
                assert(sizes@[p as int] == plane_len(linesizes@[p as int], height, p as int));
                p += 1;
            }
            true
        },
    }
}

/// Turns one native decode output into an owned frame and appends it to
/// `frames`. A format code that names no supported planar layout leaves
/// `frames` as it was: the picture is dropped.
pub fn decode_callback(
    datas: &Vec<Vec<u8>>,
    linesizes: &Vec<i32>,
    format: i32,
    width: i32,
    height: i32,
    frames: &mut Vec<DecodeFrame>,
    key: i32,
)
    requires
        planes_fit(datas@, linesizes@, format, height),
    ensures
        plane_count(format) == 0 ==> final(frames)@ == old(frames)@,
        plane_count(format) > 0 ==> {
            &&& final(frames)@.len() == old(frames)@.len() + 1
            &&& final(frames)@.take(old(frames)@.len() as int) == old(frames)@
            &&& final(frames)@.last()@ == marshaled(datas@, linesizes@, format, width, height, key)
        },
{
    match PixelFormat::from_code(format) {
        None => {},
        Some(f) => {
            let n = f.planes();
            let mut data: Vec<Vec<u8>> = Vec::new();
            let mut linesize: Vec<i32> = Vec::new();
            let mut p: usize = 0;
            while p < n
                invariant
                    n == plane_count(format),
                    planes_fit(datas@, linesizes@, format, height),
                    0 <= p <= n,
                    data@.len() == p,
                    linesize@ == linesizes@.take(p as int),
                    forall|q: int|
                        0 <= q < p ==> (#[trigger] data@[q])@ == datas@[q]@.take(
                            plane_len(linesizes@[q], height, q),
                        ),
                decreases n - p,
            {
                let stride = linesizes[p];
                assert(0 <= linesizes@[p as int]);
                let area: i32 = stride * height;
                let need: i32 = if p == 0 {
                    area
                } else {
                    area / 2
                };
                let part = slice_subrange(datas[p].as_slice(), 0, need as usize);
                data.push(slice_to_vec(part));
                linesize.push(stride);
                assert(linesize@ =~= linesizes@.take(p + 1));
                p += 1;
            }
            let frame = DecodeFrame { format: f, width, height, data, linesize, key: key != 0 };
            assert(frame@.data =~= marshaled(datas@, linesizes@, format, width, height, key).data);
            frames.push(frame);
            assert(final(frames)@.take(old(frames)@.len() as int) =~= old(frames)@);
        },
    }
}

/// A marshaled picture has one plane per plane of its format, two or three,
/// and each plane is exactly stride times height bytes long for the first
/// plane and half of stride times height for every other, with the strides
/// kept as they were given.
pub proof fn lemma_plane_sizes(
    datas: Seq<Vec<u8>>,
    linesizes: Seq<i32>,
    format: i32,
    width: i32,
    height: i32,
    key: i32,
)
    requires
        plane_count(format) > 0,
        planes_fit(datas, linesizes, format, height),
    ensures
        ({
            let frame = marshaled(datas, linesizes, format, width, height, key);
            &&& frame.data.len() == frame.linesize.len() == plane_count(format)
            &&& plane_count(format) == 2 || plane_count(format) == 3
            &&& frame.data[0].len() == linesizes[0] * height
            &&& forall|p: int|
                1 <= p < plane_count(format) ==> (#[trigger] frame.data[p]).len() == (linesizes[p]
                    * height) / 2
            &&& forall|p: int|
                0 <= p < plane_count(format) ==> #[trigger] frame.linesize[p] == linesizes[p]
        }),
{
    let frame = marshaled(datas, linesizes, format, width, height, key);
    assert forall|p: int| 0 <= p < plane_count(format) implies (#[trigger] frame.data[p]).len()
        == plane_len(linesizes[p], height, p) by {
        assert(0 <= linesizes[p]);
        assert(0 <= linesizes[p] * height) by (nonlinear_arith)
            requires
                0 <= linesizes[p],
                0 <= height,
        ;
    }
}

} // verus!
