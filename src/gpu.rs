//! Bookkeeping for GPU zones: context ids, the pool of query ids that spans draw their
//! timestamps from, and the records handed to the backend.
use vstd::prelude::*;

verus! {

/// The API of a GPU context.
#[derive(Clone, Copy, Debug, PartialEq, Eq, Structural)]
pub enum GpuContextType {
    /// Stand in for other types of contexts.
    Invalid,
    OpenGL,
    Vulkan,
    OpenCL,
    Direct3D12,
    Direct3D11,
}

impl GpuContextType {
    /// The backend's stable code for this API.
    pub fn code(&self) -> (r: u8)
        ensures
            r == match *self {
                GpuContextType::Invalid => 0u8,
                GpuContextType::OpenGL => 1u8,
                GpuContextType::Vulkan => 2u8,
                GpuContextType::OpenCL => 3u8,
                GpuContextType::Direct3D12 => 4u8,
                GpuContextType::Direct3D11 => 5u8,
            },
    {
        match self {
            GpuContextType::Invalid => 0,
            GpuContextType::OpenGL => 1,
            GpuContextType::Vulkan => 2,
            GpuContextType::OpenCL => 3,
            GpuContextType::Direct3D12 => 4,
            GpuContextType::Direct3D11 => 5,
        }
    }
}

/// Errors that can occur when creating a GPU context.
#[derive(Clone, Copy, Debug, PartialEq, Eq, Structural)]
pub enum GpuContextCreationError {
    /// Every context id has been handed out already.
    TooManyContextsCreated,
}

impl GpuContextCreationError {
    /// A description of the error.
    pub fn message(&self) -> (r: &'static str)
        ensures
            r@ == (
            "More than 255 contexts have been created at any point in the execution of this program.")@,
    {
        "More than 255 contexts have been created at any point in the execution of this program."
    }
}

/// Errors that can occur when creating a GPU span.
#[derive(Clone, Copy, Debug, PartialEq, Eq, Structural)]
pub enum GpuSpanCreationError {
    /// Too many spans are still waiting for GPU data.
    TooManyPendingSpans,
}

impl GpuSpanCreationError {
    /// A description of the error.
    pub fn message(&self) -> (r: &'static str)
        ensures
            r@ == (
            "Too many spans still waiting for gpu data. There may not be more than 32767 spans that are pending gpu data at once.")@,
    {
        "Too many spans still waiting for gpu data. There may not be more than 32767 spans that are pending gpu data at once."
    }
}

/// The largest context id plus one: ids run from 0 to 254.
pub const CONTEXT_LIMIT: u8 = 255;

/// Hands out the next context id from a process-wide counter, which moves on by one.
pub fn allocate_context(next_index: &mut u8) -> (r: Result<u8, GpuContextCreationError>)
    ensures
        *old(next_index) == CONTEXT_LIMIT ==> r == Err::<u8, GpuContextCreationError>(
            GpuContextCreationError::TooManyContextsCreated,
        ) && *final(next_index) == *old(next_index),
        *old(next_index) < CONTEXT_LIMIT ==> r == Ok::<u8, GpuContextCreationError>(*old(next_index))
            && *final(next_index) == *old(next_index) + 1,
{
    if *next_index == CONTEXT_LIMIT {
        return Err(GpuContextCreationError::TooManyContextsCreated);
    }
    let context = *next_index;
    *next_index = context + 1;
    Ok(context)
}

/// The length of a context's name as the backend records it: its byte length, capped at
/// `u16::MAX`.
pub fn context_name_len(name: &str) -> (r: u16)
    ensures
        name.len() <= u16::MAX ==> r == name.len(),
        name.len() > u16::MAX ==> r == u16::MAX,
{
    let n = name.len();
    if n <= 65535 {
        n as u16
    } else {
        u16::MAX
    }
}

/// A GPU timestamp for one query.
#[derive(Clone, Copy, Debug, PartialEq, Eq, Structural)]
pub struct GpuTimeData {
    pub gpu_time: i64,
    pub query_id: u16,
    pub context: u8,
}

/// The beginning of a GPU zone at a source location.
#[derive(Clone, Copy, Debug, PartialEq, Eq, Structural)]
pub struct GpuZoneBeginData {
    pub srcloc: u64,
    pub query_id: u16,
    pub context: u8,
}

/// The end of a GPU zone.
#[derive(Clone, Copy, Debug, PartialEq, Eq, Structural)]
pub struct GpuZoneEndData {
    pub query_id: u16,
    pub context: u8,
}

/// A GPU context: its id and the query ids that its spans may still draw.
pub struct GpuContext {
    value: u8,
    span_freelist: Vec<u16>,
}

/// Every query id, in ascending order.
pub open spec fn all_query_ids() -> Seq<u16> {
    Seq::new(65536, |i: int| i as u16)
}

impl GpuContext {
    /// The context id.
    pub closed spec fn id(&self) -> u8 {
        self.value
    }

    /// The free query ids; the next ones handed out are at the end.
    pub closed spec fn free_ids(&self) -> Seq<u16> {
        self.span_freelist@
    }

    /// A context with the given id and every query id free.
    pub fn new(value: u8) -> (r: Self)
        ensures
            r.id() == value,
            r.free_ids() == all_query_ids(),
    {
        let mut ids: Vec<u16> = Vec::new();
        let mut i: u32 = 0;
        while i < 65536
            invariant
                i <= 65536,
                ids@ == Seq::new(i as nat, |j: int| j as u16),
            decreases 65536 - i,
        {
            ids.push(i as u16);
            i = i + 1;
            assert(ids@ =~= Seq::new(i as nat, |j: int| j as u16));
        }
        GpuContext { value, span_freelist: ids }
    }

    /// The context id.
    pub fn value(&self) -> (r: u8)
        ensures
            r == self.id(),
    {
        self.value
    }

    /// Takes two query ids from the free list, for a span's start and end timestamps.
    pub fn alloc_span_ids(&mut self) -> (r: Result<(u16, u16), GpuSpanCreationError>)
        ensures
            final(self).id() == old(self).id(),
            old(self).free_ids().len() < 2 ==> r == Err::<(u16, u16), GpuSpanCreationError>(
                GpuSpanCreationError::TooManyPendingSpans,
            ) && final(self).free_ids() == old(self).free_ids(),
            old(self).free_ids().len() >= 2 ==> {
                let n = old(self).free_ids().len();
                &&& r == Ok::<(u16, u16), GpuSpanCreationError>(
                    (old(self).free_ids()[n - 1], old(self).free_ids()[n - 2]),
                )
                &&& final(self).free_ids() == old(self).free_ids().subrange(0, n - 2)
            },
    {
        if self.span_freelist.len() < 2 {
            return Err(GpuSpanCreationError::TooManyPendingSpans);
        }
        let ghost before = self.free_ids();
        let start = self.span_freelist.pop().unwrap();
        let end = self.span_freelist.pop().unwrap();
        assert(self.free_ids() =~= before.subrange(0, before.len() - 2));
        Ok((start, end))
    }

    /// Puts a finished span's query ids back into the free list.
    pub fn free_span_ids(&mut self, start: u16, end: u16)
        ensures
            final(self).id() == old(self).id(),
            final(self).free_ids() == old(self).free_ids().push(start).push(end),
    {
        self.span_freelist.push(start);
        self.span_freelist.push(end);
    }

    /// Starts a span at a source location: draws its query ids and gives the record that begins
    /// its zone.
    pub fn span(&mut self, srcloc: u64) -> (r: Result<(GpuSpan, GpuZoneBeginData), GpuSpanCreationError>)
        ensures
            final(self).id() == old(self).id(),
            old(self).free_ids().len() < 2 ==> r is Err && final(self).free_ids() == old(self).free_ids(),
            old(self).free_ids().len() >= 2 ==> {
                let n = old(self).free_ids().len();
                &&& r is Ok
                &&& r->Ok_0.0.context_id() == old(self).id()
                &&& r->Ok_0.0.start_id() == old(self).free_ids()[n - 1]
                &&& r->Ok_0.0.end_id() == old(self).free_ids()[n - 2]
                &&& !r->Ok_0.0.is_ended()
                &&& r->Ok_0.1 == (GpuZoneBeginData {
                    srcloc,
                    query_id: old(self).free_ids()[n - 1],
                    context: old(self).id(),
                })
                &&& final(self).free_ids() == old(self).free_ids().subrange(0, n - 2)
            },
    {
        match self.alloc_span_ids() {
            Ok(ids) => {
                let (start_query_id, end_query_id) = ids;
                let span = GpuSpan { context: self.value, start_query_id, end_query_id, ended: false };
                let begin = GpuZoneBeginData { srcloc, query_id: start_query_id, context: self.value };
                Ok((span, begin))
            },
            Err(e) => Err(e),
        }
    }
}

/// A span timing GPU work.
pub struct GpuSpan {
    context: u8,
    start_query_id: u16,
    end_query_id: u16,
    ended: bool,
}

impl GpuSpan {
    /// The id of the span's context.
    pub closed spec fn context_id(&self) -> u8 {
        self.context
    }

    /// The query id of the start timestamp.
    pub closed spec fn start_id(&self) -> u16 {
        self.start_query_id
    }

    /// The query id of the end timestamp.
    pub closed spec fn end_id(&self) -> u16 {
        self.end_query_id
    }

    /// Whether the span's zone has ended.
    pub closed spec fn is_ended(&self) -> bool {
        self.ended
    }

    /// Ends the span's zone: the record to emit the first time, nothing after that.
    pub fn end_zone(&mut self) -> (r: Option<GpuZoneEndData>)
        ensures
            final(self).is_ended(),
            final(self).context_id() == old(self).context_id(),
            final(self).start_id() == old(self).start_id(),
            final(self).end_id() == old(self).end_id(),
            old(self).is_ended() ==> r is None,
            !old(self).is_ended() ==> r == Some(
                GpuZoneEndData { query_id: old(self).end_id(), context: old(self).context_id() },
            ),
    {
        if self.ended {
            return None;
        }
        self.ended = true;
        Some(GpuZoneEndData { query_id: self.end_query_id, context: self.context })
    }

    /// The record that supplies the span's start timestamp.
    pub fn upload_timestamp_start(&self, start_timestamp: i64) -> (r: GpuTimeData)
        ensures
            r == (GpuTimeData {
                gpu_time: start_timestamp,
                query_id: self.start_id(),
                context: self.context_id(),
            }),
    {
        GpuTimeData { gpu_time: start_timestamp, query_id: self.start_query_id, context: self.context }
    }

    /// The record that supplies the span's end timestamp.
    pub fn upload_timestamp_end(&self, end_timestamp: i64) -> (r: GpuTimeData)
        ensures
            r == (GpuTimeData {
                gpu_time: end_timestamp,
                query_id: self.end_id(),
                context: self.context_id(),
            }),
    {
        GpuTimeData { gpu_time: end_timestamp, query_id: self.end_query_id, context: self.context }
    }

    /// Finishes the span: ends its zone if that has not happened, and returns its query ids to
    /// its context.
    pub fn finish(self, context: &mut GpuContext) -> (r: Option<GpuZoneEndData>)
        requires
            old(context).id() == self.context_id(),
        ensures
            final(context).id() == old(context).id(),
            final(context).free_ids() == old(context).free_ids().push(self.start_id()).push(
                self.end_id(),
            ),
            self.is_ended() ==> r is None,
            !self.is_ended() ==> r == Some(
                GpuZoneEndData { query_id: self.end_id(), context: self.context_id() },
            ),
    {
        let mut span = self;
        let end = span.end_zone();
        context.free_span_ids(span.start_query_id, span.end_query_id);
        end
    }
}

} // verus!
