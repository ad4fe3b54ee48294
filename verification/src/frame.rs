use vstd::prelude::*;
use crate::errors::PipelineError;

verus! {

/// A frame in the fixed target pixel layout: interleaved red, green and
/// blue, one byte each, no alpha, rows tightly packed.
#[derive(Debug)]
pub struct VideoFrame {
    pub width: u32,
    pub height: u32,
    /// Presentation timestamp in stream time-base units, if the decoder
    /// reported one.
    pub pts: Option<i64>,
    /// The pixel bytes, three per pixel, row by row.
    pub data: Vec<u8>,
}

impl VideoFrame {
    /// Nonzero dimensions, and exactly three bytes per pixel.
    pub open spec fn wf(&self) -> bool {
        &&& self.width > 0
        &&& self.height > 0
        &&& self.data@.len() == self.width * self.height * 3
    }
}

/// The first `rows` rows of a pixel plane, tightly packed: from each row
/// of `stride` bytes, the leading `row_len` bytes, in row order.
pub open spec fn packed_rows(src: Seq<u8>, row_len: int, stride: int, rows: int) -> Seq<u8>
    recommends
        0 <= row_len <= stride,
        rows * stride <= src.len(),
    decreases rows,
{
    if rows <= 0 {
        Seq::empty()
    } else {
        packed_rows(src, row_len, stride, rows - 1) + src.subrange(
            (rows - 1) * stride,
            (rows - 1) * stride + row_len,
        )
    }
}

/// Packs a decoded plane whose rows may carry padding into a tight buffer
/// of exactly `width * height * 3` bytes: from each of the `height` rows
/// of `stride` bytes, the leading `width * 3` pixel bytes are kept. Fails
/// with `ConversionError` exactly when a row is shorter than one line of
/// pixels or the plane holds fewer than `height` rows.
pub fn pack_rows(src: &Vec<u8>, width: u32, height: u32, stride: usize) -> (r: Result<
    Vec<u8>,
    PipelineError,
>)
    ensures
        r is Err <==> (width * 3 > stride || height * stride > src@.len()),
        r is Err ==> r->Err_0 == PipelineError::ConversionError,
        r matches Ok(v) ==> v@ == packed_rows(src@, width * 3, stride as int, height as int)
            && v@.len() == width * height * 3,
{
    proof {
        assert((width as int) * 3 < 0x1_0000_0000_0000 && (height as int) * (stride as int)
            < 0x1_0000_0000_0000_0000_0000_0000) by (nonlinear_arith)
            requires
                0 <= width as int <= 0xffff_ffff,
                0 <= height as int <= 0xffff_ffff,
                0 <= stride as int <= 0xffff_ffff_ffff_ffff,
        ;
    }
    if (width as u128) * 3 > (stride as u128) || (height as u128) * (stride as u128)
        > (src.len() as u128) {
        return Err(PipelineError::ConversionError);
    }
    let n: usize = src.len();
    let row_len: usize = (width as usize) * 3;
    let mut out: Vec<u8> = Vec::new();
    let mut i: usize = 0;
    while i < height as usize
        invariant
            0 <= i <= height,
            row_len == width * 3,
            row_len <= stride,
            height * stride <= src@.len(),
            src@.len() == n,
            out@ == packed_rows(src@, row_len as int, stride as int, i as int),
            out@.len() == i * row_len,
        decreases height - i,
    {
        proof {
            assert((i + 1) * (stride as int) <= (height as int) * (stride as int) && (i as int)
                * (stride as int) + stride as int == (i + 1) * (stride as int) && (i + 1) * (
            row_len as int) == (i as int) * (row_len as int) + row_len as int)
                by (nonlinear_arith)
                requires
                    0 <= i < height as int,
                    0 <= stride,
                    0 <= row_len,
            ;
        }
        let start: usize = i * stride;
        let mut j: usize = 0;
        while j < row_len
            invariant
                0 <= j <= row_len,
                row_len <= stride,
                start == i * stride,
                start + stride <= src@.len(),
                src@.len() == n,
                out@ == packed_rows(src@, row_len as int, stride as int, i as int) + src@.subrange(
                    start as int,
                    start + j,
                ),
            decreases row_len - j,
        {
            out.push(src[start + j]);
            proof {
                assert(src@.subrange(start as int, start + j + 1) =~= src@.subrange(
                    start as int,
                    start + j,
                ).push(src@[start + j]));
            }
            j = j + 1;
        }
        i = i + 1;
        proof {
            assert(out@ == packed_rows(src@, row_len as int, stride as int, i as int));
        }
    }
    proof {
        assert((height as int) * (row_len as int) == (width as int) * (height as int) * 3)
            by (nonlinear_arith)
            requires
                row_len as int == (width as int) * 3,
        ;
    }
    Ok(out)
}

/// Guards the hand-off from the outside pixel converter. The source
/// dimensions are fixed once, at pipeline start, from what the decoder
/// reports; every converted frame must keep exactly that shape.
#[derive(Debug)]
pub struct Converter {
    pub width: u32,
    pub height: u32,
}

impl Converter {
    /// Nonzero dimensions.
    pub open spec fn wf(&self) -> bool {
        self.width > 0 && self.height > 0
    }

    /// Fixes the conversion shape. The target dimensions equal the source
    /// dimensions: conversion never resizes. Fails with `ConversionError`
    /// exactly when a dimension is zero.
    pub fn new(width: u32, height: u32) -> (r: Result<Converter, PipelineError>)
        ensures
            r is Err <==> (width == 0 || height == 0),
            r is Err ==> r->Err_0 == PipelineError::ConversionError,
            r matches Ok(c) ==> c.width == width && c.height == height && c.wf(),
    {
        if width == 0 || height == 0 {
            Err(PipelineError::ConversionError)
        } else {
            Ok(Converter { width, height })
        }
    }

    /// Takes one frame's worth of converted pixel bytes and builds the
    /// frame, keeping the decoded frame's width and height. Fails with
    /// `ConversionError` exactly when the decoded shape differs from the
    /// fixed one or the buffer does not hold three bytes per pixel.
    pub fn accept(&self, src_width: u32, src_height: u32, pts: Option<i64>, data: Vec<u8>) -> (r:
        Result<VideoFrame, PipelineError>)
        requires
            self.wf(),
        ensures
            r is Err <==> (src_width != self.width || src_height != self.height || data@.len()
                != self.width * self.height * 3),
            r is Err ==> r->Err_0 == PipelineError::ConversionError,
            r matches Ok(f) ==> f.width == src_width && f.height == src_height && f.pts == pts
                && f.data@ == data@ && f.wf(),
    {
        proof {
            assert((self.width as int) * (self.height as int) * 3 < 0x3_0000_0000_0000_0000)
                by (nonlinear_arith)
                requires
                    0 <= self.width as int <= 0xffff_ffff,
                    0 <= self.height as int <= 0xffff_ffff,
            ;
        }
        let expected: u128 = (self.width as u128) * (self.height as u128) * 3;
        if src_width != self.width || src_height != self.height || (data.len() as u128)
            != expected {
            Err(PipelineError::ConversionError)
        } else {
            Ok(VideoFrame { width: src_width, height: src_height, pts, data })
        }
    }
}

} // verus!
