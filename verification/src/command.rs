//! The commands a consumer gives to a running session, besides `initialize`:
//! what to type into the terminal, and what size to give it.
//!
//! A command does no input or output of its own. It looks into the place
//! where the session keeps a handle, under that place's lock, and answers
//! with the handle and what to hand to it. The caller makes the call and
//! drops any error: both commands are best effort.

use vstd::prelude::*;
use vstd::slice::slice_to_vec;
use vstd::string::StringSliceAdditionalSpecFns;

verus! {

/// The size of a terminal, in character cells and in pixels.
#[derive(Debug, Clone, Copy, PartialEq, Eq, Structural)]
pub struct Geometry {
    pub rows: u16,
    pub cols: u16,
    pub pixel_width: u16,
    pub pixel_height: u16,
}

impl Geometry {
    /// A size given in cells alone; the pixel dimensions are zero, which
    /// leaves them to the terminal.
    pub open spec fn of_cells(rows: u16, cols: u16) -> Geometry {
        Geometry { rows, cols, pixel_width: 0, pixel_height: 0 }
    }

    /// The size of every session's terminal when it is opened: 24 rows of
    /// 80 columns.
    pub fn initial() -> (size: Geometry)
        ensures
            size == Geometry::of_cells(24, 80),
    {
        Geometry { rows: 24, cols: 80, pixel_width: 0, pixel_height: 0 }
    }
}

/// Prepares the writing of `data` to the child's input.
///
/// With a writer in place, answers with the writer and the bytes of `data`,
/// all of them in one piece. With none (no child has been spawned) it answers
/// with nothing, and nothing is to be done.
pub fn write<'a, W>(writer: &'a mut Option<W>, data: &str) -> (request: Option<
    (&'a mut W, Vec<u8>),
>)
    ensures
        match request {
            Some((handle, bytes)) => {
                &&& *old(writer) == Some(*handle)
                &&& *final(writer) == Some(*final(handle))
                &&& bytes@ == data.spec_bytes()
            },
            None => *old(writer) is None && *final(writer) is None,
        },
{
    match writer.as_mut() {
        Some(handle) => Some((handle, slice_to_vec(data.as_bytes()))),
        None => None,
    }
}

/// Prepares the resizing of the terminal to `rows` by `cols` cells.
///
/// With a terminal handle in place, answers with the handle and the new
/// size, whose pixel dimensions are zero. With none it answers with nothing,
/// and nothing is to be done.
pub fn resize<'a, T>(terminal: &'a mut Option<T>, rows: u16, cols: u16) -> (request: Option<
    (&'a mut T, Geometry),
>)
    ensures
        match request {
            Some((handle, size)) => {
                &&& *old(terminal) == Some(*handle)
                &&& *final(terminal) == Some(*final(handle))
                &&& size == Geometry::of_cells(rows, cols)
            },
            None => *old(terminal) is None && *final(terminal) is None,
        },
{
    match terminal.as_mut() {
        Some(handle) => Some((handle, Geometry { rows, cols, pixel_width: 0, pixel_height: 0 })),
        None => None,
    }
}

} // verus!
