use vstd::prelude::*;

verus! {

/// Policy that decides which sync point a seek resolves to.
pub enum SeekMode {
    /// The sync point nearest the target.
    SeekClosestSync,
    /// The first sync point at or after the target.
    SeekNextSync,
    /// The last sync point at or before the target.
    SeekPreviousSync,
}

impl SeekMode {
    /// The mode code handed to the native seek call, in the platform's own
    /// numbering: previous sync point 0, next sync point 1, closest 2.
    pub open spec fn spec_code(self) -> i32 {
        match self {
            SeekMode::SeekClosestSync => 2,
            SeekMode::SeekNextSync => 1,
            SeekMode::SeekPreviousSync => 0,
        }
    }

    /// Returns the mode code handed to the native seek call.
    pub fn code(&self) -> (r: i32)
        ensures
            r == self.spec_code(),
    {
        match self {
            SeekMode::SeekClosestSync => 2,
            SeekMode::SeekNextSync => 1,
            SeekMode::SeekPreviousSync => 0,
        }
    }
}

/// Failure to bind a handle to a data source, carrying the native status
/// code verbatim.
#[derive(Debug, Clone, Copy, PartialEq, Eq, Structural)]
pub struct SourceBindingError {
    pub status: isize,
}

/// The bookkeeping fields of a caller's sample buffer that a read fills in:
/// how many bytes were written, the presentation time of the packet in
/// microseconds, and its sample flags.
#[derive(Debug, Clone, Copy, PartialEq, Eq, Structural)]
pub struct SampleInfo {
    pub write_size: usize,
    pub time: u64,
    pub flags: u32,
}

/// What the native layer reported for one read step: the byte count of
/// the copy (negative for a failed copy), the time and flags of the sample
/// that was current, and whether advancing past it left more samples.
#[derive(Debug, Clone, Copy, PartialEq, Eq, Structural)]
pub struct SampleRead {
    pub count: isize,
    pub time: i64,
    pub flags: u32,
    pub advanced: bool,
}

/// The cursor flag after one read step from a handle whose flag was
/// `cursor`: an exhausted handle stays exhausted, any other takes what
/// the native advance reported.
pub open spec fn cursor_after_read(cursor: bool, step: SampleRead) -> bool {
    cursor && step.advanced
}

/// The buffer bookkeeping after one read step. An exhausted handle leaves
/// the buffer alone. Otherwise the flags are always recorded, and the byte
/// count and time only when the copy wrote something.
pub open spec fn info_after_read(cursor: bool, info: SampleInfo, step: SampleRead) -> SampleInfo {
    if !cursor {
        info
    } else if step.count > 0 {
        SampleInfo { write_size: step.count as usize, time: step.time as u64, flags: step.flags }
    } else {
        SampleInfo { flags: step.flags, ..info }
    }
}

/// The cursor flag after a run of read steps, taken in order.
pub open spec fn cursor_after_reads(cursor: bool, steps: Seq<SampleRead>) -> bool
    decreases steps.len(),
{
    if steps.len() == 0 {
        cursor
    } else {
        cursor_after_reads(cursor_after_read(cursor, steps[0]), steps.drop_first())
    }
}

/// The buffer bookkeeping after a run of read steps, taken in order.
pub open spec fn info_after_reads(cursor: bool, info: SampleInfo, steps: Seq<SampleRead>) -> SampleInfo
    decreases steps.len(),
{
    if steps.len() == 0 {
        info
    } else {
        info_after_reads(
            cursor_after_read(cursor, steps[0]),
            info_after_read(cursor, info, steps[0]),
            steps.drop_first(),
        )
    }
}

/// The track whose format may be asked of the native layer: `index` when
/// it names one of `track_count` tracks, none otherwise.
pub open spec fn track_lookup(index: usize, track_count: usize) -> Option<usize> {
    if index < track_count {
        Some(index)
    } else {
        None
    }
}

/// The state of one demultiplexer handle that the handle itself decides:
/// its cursor flag, true while samples may remain to be read.
#[derive(Debug)]
pub struct MediaExtractor {
    has_next: bool,
}

impl MediaExtractor {
    /// The cursor flag.
    pub closed spec fn cursor(&self) -> bool {
        self.has_next
    }

    /// A handle that is bound to no data source yet.
    fn new() -> (r: Self)
        ensures
            !r.cursor(),
    {
        MediaExtractor { has_next: false }
    }

    /// Turns the native status of binding a fresh handle to a data source
    /// into a handle: status zero binds it, with its cursor flag set; any
    /// other status is reported verbatim.
    pub fn from_url(bind_status: isize) -> (r: Result<MediaExtractor, SourceBindingError>)
        ensures
            r is Ok <==> bind_status == 0,
            r matches Ok(m) ==> m.cursor(),
            r matches Err(e) ==> e.status == bind_status,
    {
        let mut me = MediaExtractor::new();
        if bind_status != 0 {
            return Err(SourceBindingError { status: bind_status });
        }
        me.has_next = true;
        Ok(me)
    }

    /// Decides whether the format of track `index` may be asked of the
    /// native layer, given the number of tracks it reports: the index
    /// itself when it is in range, none otherwise.
    pub fn track_format(index: usize, track_count: usize) -> (r: Option<usize>)
        ensures
            r == track_lookup(index, track_count),
    {
        if track_count <= index {
            return None;
        }
        Some(index)
    }

    /// Applies one read step. A handle whose cursor flag is false returns
    /// false at once and touches nothing; `step` is then not used, and the
    /// native layer is not to be read for it. Otherwise `step` is what the
    /// native copy and advance reported: the buffer gets the sample's flags,
    /// and its byte count and time when the copy wrote something; the
    /// cursor flag becomes what the advance reported, and is returned.
    pub fn read_next(&mut self, buffer: &mut SampleInfo, step: SampleRead) -> (r: bool)
        ensures
            final(self).cursor() == cursor_after_read(old(self).cursor(), step),
            *final(buffer) == info_after_read(old(self).cursor(), *old(buffer), step),
            r == final(self).cursor(),
    {
        if !self.has_next {
            return false;
        }
        if step.count > 0 {
            buffer.write_size = step.count as usize;
            buffer.time = step.time as u64;
        }
        buffer.flags = step.flags;
        self.has_next = step.advanced;
        self.has_next
    }

    /// Whether samples may remain to be read.
    pub fn has_next(&self) -> (r: bool)
        ensures
            r == self.cursor(),
    {
        self.has_next
    }
}

} // verus!
