//! What is known of a trace before it is extended: its shape and length.
use crate::power::is_power_of_two;
use vstd::arithmetic::power2::is_pow2;
use vstd::prelude::*;

verus! {

/// The widths of the segments of a trace. A trace has a main segment and at
/// most one auxiliary segment.
#[derive(Clone, Copy, Debug, PartialEq, Eq)]
pub struct TraceLayout {
    main_segment_width: usize,
    aux_segment_width: usize,
}

impl TraceLayout {
    /// The number of columns of the main segment.
    pub closed spec fn spec_main_trace_width(&self) -> usize {
        self.main_segment_width
    }

    /// The number of columns of the auxiliary segment; zero if there is
    /// none.
    pub closed spec fn spec_aux_trace_width(&self) -> usize {
        self.aux_segment_width
    }

    /// The number of auxiliary segments that the layout declares.
    pub open spec fn spec_num_aux_segments(&self) -> int {
        if self.spec_aux_trace_width() > 0 {
            1
        } else {
            0
        }
    }

    /// Describes a trace whose main segment has `main_segment_width` columns
    /// and whose auxiliary segment, if the width is not zero, has
    /// `aux_segment_width` columns. The main segment must have a column.
    pub fn new(main_segment_width: usize, aux_segment_width: usize) -> (r: Option<TraceLayout>)
        ensures
            r.is_some() == (main_segment_width > 0),
            r matches Some(layout) ==> layout.spec_main_trace_width() == main_segment_width
                && layout.spec_aux_trace_width() == aux_segment_width,
    {
        if main_segment_width == 0 {
            None
        } else {
            Some(TraceLayout { main_segment_width, aux_segment_width })
        }
    }

    /// The number of columns of the main segment.
    pub fn main_trace_width(&self) -> (w: usize)
        ensures
            w == self.spec_main_trace_width(),
    {
        self.main_segment_width
    }

    /// The number of columns of the auxiliary segment; zero if there is
    /// none.
    pub fn aux_trace_width(&self) -> (w: usize)
        ensures
            w == self.spec_aux_trace_width(),
    {
        self.aux_segment_width
    }

    /// The number of auxiliary segments that the layout declares.
    pub fn num_aux_segments(&self) -> (n: usize)
        ensures
            n == self.spec_num_aux_segments(),
    {
        if self.aux_segment_width > 0 {
            1
        } else {
            0
        }
    }
}

/// The layout and length of a trace, with free-form metadata.
#[derive(Debug)]
pub struct TraceInfo {
    layout: TraceLayout,
    length: usize,
    meta: Vec<u8>,
}

impl TraceInfo {
    /// The layout of the trace.
    pub closed spec fn spec_layout(&self) -> TraceLayout {
        self.layout
    }

    /// The number of steps of the trace.
    pub closed spec fn spec_length(&self) -> usize {
        self.length
    }

    /// The metadata of the trace.
    pub closed spec fn spec_meta(&self) -> Seq<u8> {
        self.meta@
    }

    /// Two descriptions say the same of a trace.
    pub open spec fn same_as(&self, other: &TraceInfo) -> bool {
        &&& self.spec_layout() == other.spec_layout()
        &&& self.spec_length() == other.spec_length()
        &&& self.spec_meta() == other.spec_meta()
    }

    /// Describes a trace of `length` steps, which must be a power of two and
    /// at least two.
    pub fn new(layout: TraceLayout, length: usize, meta: Vec<u8>) -> (r: Option<TraceInfo>)
        ensures
            r.is_some() == (length >= 2 && is_pow2(length as int)),
            r matches Some(info) ==> {
                &&& info.spec_layout() == layout
                &&& info.spec_length() == length
                &&& info.spec_meta() == meta@
            },
    {
        if length < 2 || !is_power_of_two(length) {
            None
        } else {
            Some(TraceInfo { layout, length, meta })
        }
    }

    /// The layout of the trace.
    pub fn layout(&self) -> (layout: &TraceLayout)
        ensures
            *layout == self.spec_layout(),
    {
        &self.layout
    }

    /// The number of steps of the trace.
    pub fn length(&self) -> (n: usize)
        ensures
            n == self.spec_length(),
    {
        self.length
    }

    /// The metadata of the trace.
    pub fn meta(&self) -> (meta: &Vec<u8>)
        ensures
            meta@ == self.spec_meta(),
    {
        &self.meta
    }
}

impl Clone for TraceInfo {
    fn clone(&self) -> (r: TraceInfo)
        ensures
            r.same_as(self),
    {
        let meta = self.meta.clone();
        TraceInfo { layout: self.layout, length: self.length, meta }
    }
}

} // verus!
