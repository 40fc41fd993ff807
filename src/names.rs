//! Names of frames and plots, stored NUL-terminated as the backend reads them, and the
//! configuration of the profiling allocator.
use vstd::prelude::*;
use vstd::string::StringExecFns;

verus! {

/// A name with the NUL that terminates it for the backend.
pub open spec fn nul_terminated(name: Seq<char>) -> Seq<char> {
    name.push('\0')
}

/// Appends the terminating NUL to a name.
fn terminate_name(name: String) -> (r: String)
    ensures
        r@ == nul_terminated(name@),
{
    let ghost given = name@;
    let mut name = name;
    proof {
        reveal_strlit("\0");
    }
    name.append("\0");
    assert(name@ =~= nul_terminated(given));
    name
}

/// A name for secondary and non-continuous frames.
#[derive(Clone, Debug, PartialEq, Eq)]
pub struct FrameName {
    name: String,
}

impl View for FrameName {
    type V = Seq<char>;

    closed spec fn view(&self) -> Seq<char> {
        self.name@
    }
}

impl FrameName {
    /// A frame name made from a string, terminated with NUL for the backend.
    pub fn new_leak(name: String) -> (r: Self)
        ensures
            r@ == nul_terminated(name@),
    {
        FrameName { name: terminate_name(name) }
    }

    /// The name as the backend reads it, NUL included.
    pub fn as_str(&self) -> (r: &str)
        ensures
            r@ == self@,
    {
        self.name.as_str()
    }
}

/// The name of a plot.
#[derive(Clone, Debug, PartialEq, Eq)]
pub struct PlotName {
    name: String,
}

impl View for PlotName {
    type V = Seq<char>;

    closed spec fn view(&self) -> Seq<char> {
        self.name@
    }
}

impl PlotName {
    /// A plot name made from a string, terminated with NUL for the backend.
    pub fn new_leak(name: String) -> (r: Self)
        ensures
            r@ == nul_terminated(name@),
    {
        PlotName { name: terminate_name(name) }
    }

    /// The name as the backend reads it, NUL included.
    pub fn as_str(&self) -> (r: &str)
        ensures
            r@ == self@,
    {
        self.name.as_str()
    }
}

/// A profiling wrapper around another allocator: each allocation and deallocation is reported
/// to the backend, with a call stack of at most `callstack_depth` frames (none when zero).
pub struct ProfiledAllocator<T> {
    inner: T,
    callstack_depth: u16,
}

impl<T> ProfiledAllocator<T> {
    /// The inner allocator.
    pub closed spec fn inner_spec(&self) -> T {
        self.inner
    }

    /// The call stack depth collected with each report.
    pub closed spec fn depth_spec(&self) -> u16 {
        self.callstack_depth
    }

    /// Wraps an allocator.
    pub fn new(inner_allocator: T, callstack_depth: u16) -> (r: Self)
        ensures
            r.inner_spec() == inner_allocator,
            r.depth_spec() == callstack_depth,
    {
        ProfiledAllocator { inner: inner_allocator, callstack_depth }
    }

    /// The call stack depth collected with each report.
    pub fn callstack_depth(&self) -> (r: u16)
        ensures
            r == self.depth_spec(),
    {
        self.callstack_depth
    }

    /// The inner allocator.
    pub fn inner(&self) -> (r: &T)
        ensures
            *r == self.inner_spec(),
    {
        &self.inner
    }
}

} // verus!
