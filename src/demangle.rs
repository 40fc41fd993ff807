//! Symbol demangling: the buffer a demangler writes into, and its hand-over as a NUL-terminated
//! string.
use std::fmt::Write;
use vstd::prelude::*;
use vstd::string::StrSliceExecFns;
use vstd::string::StringExecFns;

verus! {

/// A demangler failed, or its output cannot be handed over.
#[derive(Clone, Copy, Debug, PartialEq, Eq, Structural)]
pub struct DemangleError;

/// What `rustc_demangle` makes of a symbol, shown without its hash: `None` when the symbol is not
/// a Rust symbol or its demangled form does not fit the crate's output limit.
pub uninterp spec fn demangled(symbol: Seq<char>) -> Option<Seq<char>>;

/// Relies on `rustc_demangle::try_demangle` and the alternate form of its `Display`.
#[verifier::external_body]
fn demangle_alternate(symbol: &str) -> (r: Option<String>)
    ensures
        r is Some ==> demangled(symbol@) == Some(r->Some_0@),
        r is None ==> demangled(symbol@) is None,
{
    let d = rustc_demangle::try_demangle(symbol).ok()?;
    let mut out = String::new();
    write!(out, "{d:#}").ok()?;
    Some(out)
}

/// The buffer as handed over: `None` when it is empty, holds only a NUL, or holds a NUL before
/// its last character; itself when it already ends in NUL; else itself with a NUL appended.
pub open spec fn terminated(text: Seq<char>) -> Option<Seq<char>> {
    if text.len() == 0 || text =~= seq!['\0'] {
        None
    } else if text.drop_last().contains('\0') {
        None
    } else if text.last() == '\0' {
        Some(text)
    } else {
        Some(text.push('\0'))
    }
}

/// The buffer into which a demangler writes a symbol.
pub struct Buffer {
    text: String,
}

impl View for Buffer {
    type V = Seq<char>;

    closed spec fn view(&self) -> Seq<char> {
        self.text@
    }
}

impl Buffer {
    /// An empty buffer.
    pub fn new() -> (r: Self)
        ensures
            r@ == Seq::<char>::empty(),
    {
        Buffer { text: String::new() }
    }

    /// Appends text.
    pub fn write_str(&mut self, s: &str) -> (r: Result<(), DemangleError>)
        ensures
            r is Ok,
            final(self)@ == old(self)@ + s@,
    {
        self.text.append(s);
        Ok(())
    }

    /// The text written so far.
    pub fn as_str(&self) -> (r: &str)
        ensures
            r@ == self@,
    {
        self.text.as_str()
    }

    /// Empties the buffer when `r` is an error, and passes `r` on.
    pub fn clear_on_err<T, E>(&mut self, r: Result<T, E>) -> (out: Result<T, E>)
        ensures
            out == r,
            r is Err ==> final(self)@ == Seq::<char>::empty(),
            r is Ok ==> final(self)@ == old(self)@,
    {
        if r.is_err() {
            self.text = String::new();
        }
        r
    }

    /// Writes a demangler's result: the text on success, nothing on failure.
    pub fn take_demangled(&mut self, result: Option<String>) -> (r: Result<(), DemangleError>)
        ensures
            result is Some ==> r is Ok && final(self)@ == old(self)@ + result->Some_0@,
            result is None ==> r is Err && final(self)@ == old(self)@,
    {
        match result {
            Some(text) => self.write_str(text.as_str()),
            None => Err(DemangleError),
        }
    }

    /// Makes the buffer a NUL-terminated string, or fails (see `terminated`).
    pub fn terminate(&mut self) -> (r: Result<(), DemangleError>)
        ensures
            terminated(old(self)@) is Some ==> r is Ok && final(self)@ == terminated(
                old(self)@,
            )->Some_0,
            terminated(old(self)@) is None ==> r is Err && final(self)@ == old(self)@,
    {
        let n = self.text.as_str().unicode_len();
        if n == 0 {
            return Err(DemangleError);
        }
        let mut i: usize = 0;
        while i < n - 1
            invariant
                n == self@.len(),
                n > 0,
                i <= n - 1,
                self@ == old(self)@,
                forall|j: int| 0 <= j < i ==> self@[j] != '\0',
            decreases n - 1 - i,
        {
            if self.text.as_str().get_char(i) == '\0' {
                assert(self@.drop_last()[i as int] == '\0');
                return Err(DemangleError);
            }
            i = i + 1;
        }
        assert forall|j: int| 0 <= j < self@.drop_last().len() implies self@.drop_last()[j]
            != '\0' by {
            assert(self@.drop_last()[j] == self@[j]);
        }
        assert(!self@.drop_last().contains('\0'));
        if self.text.as_str().get_char(n - 1) == '\0' {
            if n == 1 {
                assert(self@ =~= seq!['\0']);
                return Err(DemangleError);
            }
            assert(!(self@ =~= seq!['\0']));
            Ok(())
        } else {
            proof {
                reveal_strlit("\0");
            }
            assert(!(self@ =~= seq!['\0']));
            self.text.append("\0");
            assert(self@ =~= old(self)@.push('\0'));
            Ok(())
        }
    }
}

/// Demangles a Rust symbol with `rustc_demangle`, writing it without its hash.
pub fn default(s: &str, buffer: &mut Buffer) -> (r: Result<(), DemangleError>)
    ensures
        demangled(s@) is Some ==> r is Ok && final(buffer)@ == old(buffer)@ + demangled(s@)->Some_0,
        demangled(s@) is None ==> r is Err && final(buffer)@ == old(buffer)@,
{
    buffer.take_demangled(demangle_alternate(s))
}

/// A demangler that never demangles: symbols are shown as they are.
pub fn noop(s: &str, buffer: &mut Buffer) -> (r: Result<(), DemangleError>)
    ensures
        r is Err,
        final(buffer)@ == old(buffer)@,
{
    Err(DemangleError)
}

/// Hands a demangler's buffer over: an empty or failed result becomes an error with the buffer
/// emptied, anything else a NUL-terminated string.
pub fn finish_demangled(buffer: &mut Buffer, run: Result<(), DemangleError>) -> (r: Result<
    (),
    DemangleError,
>)
    ensures
        run is Err ==> r is Err && final(buffer)@ == Seq::<char>::empty(),
        run is Ok && terminated(old(buffer)@) is Some ==> r is Ok && final(buffer)@ == terminated(
            old(buffer)@,
        )->Some_0,
        run is Ok && terminated(old(buffer)@) is None ==> r is Err && final(buffer)@
            == Seq::<char>::empty(),
{
    let outcome = match run {
        Ok(()) => buffer.terminate(),
        Err(e) => Err(e),
    };
    buffer.clear_on_err(outcome)
}

} // verus!
