//! Color settings and output targets of formatters.

use vstd::prelude::*;

verus! {

/// Controls whether colored output is used.
#[derive(Debug, PartialEq, Eq, Clone, Copy, Structural)]
pub enum ColorSetting {
    /// Color only when the output target supports it.
    Automatic,
    /// Always emit ANSI color codes.
    Always,
    /// Never emit ANSI color codes.
    Never,
}

impl Default for ColorSetting {
    fn default() -> (r: Self)
        ensures
            r == ColorSetting::Automatic,
    {
        ColorSetting::Automatic
    }
}

} // verus!

verus! {

/// Reset all attributes.
pub const RESET: &'static str = "\x1b(B\x1b[m";

/// Red foreground.
pub const RED: &'static str = "\x1b[31m";

/// Green foreground.
pub const GREEN: &'static str = "\x1b[32m";

/// Yellow foreground.
pub const YELLOW: &'static str = "\x1b[33m";

/// Cyan foreground.
pub const CYAN: &'static str = "\x1b[36m";

/// Whether a writer supports colored output; used with [`ColorSetting::Automatic`].
pub trait SupportsColor {
    /// Whether the answer depends on the target's value alone, as it does for an in memory
    /// buffer; for a terminal it depends on the environment, and this is false.
    open spec fn color_known() -> bool {
        false
    }

    /// The answer, where [`SupportsColor::color_known`] holds.
    open spec fn color_supported(&self) -> bool {
        false
    }

    /// Return `true` if this target supports colored output.
    fn supports_color(&self) -> (r: bool)
        ensures
            Self::color_known() ==> r == self.color_supported(),
    ;
}

/// A target that formatters write their output to.
pub trait TextTarget {
    /// Whether this target is an in memory record: every write succeeds and is recorded in
    /// [`TextTarget::written`].
    spec fn tracks_writes() -> bool;

    /// Everything written so far, for targets that track writes.
    spec fn written(&self) -> Seq<u8>;

    /// Write all of `bytes`.
    fn write_bytes(&mut self, bytes: &[u8]) -> (r: Result<(), std::io::Error>)
        ensures
            Self::tracks_writes() ==> r is Ok && final(self).written() == old(self).written() + bytes@;
}

impl<'a, T: SupportsColor> SupportsColor for &'a mut T {
    open spec fn color_known() -> bool {
        T::color_known()
    }

    open spec fn color_supported(&self) -> bool {
        (**self).color_supported()
    }

    /// As the target it refers to.
    fn supports_color(&self) -> (r: bool) {
        (**self).supports_color()
    }
}

impl<'a, T: TextTarget> TextTarget for &'a mut T {
    open spec fn tracks_writes() -> bool {
        T::tracks_writes()
    }

    open spec fn written(&self) -> Seq<u8> {
        (**self).written()
    }

    /// Writes to the target it refers to.
    fn write_bytes(&mut self, bytes: &[u8]) -> (r: Result<(), std::io::Error>) {
        (**self).write_bytes(bytes)
    }
}

impl SupportsColor for Vec<u8> {
    open spec fn color_known() -> bool {
        true
    }

    open spec fn color_supported(&self) -> bool {
        false
    }

    /// An in memory buffer is not a terminal.
    fn supports_color(&self) -> (r: bool)
        ensures
            !r,
    {
        false
    }
}

impl TextTarget for Vec<u8> {
    open spec fn tracks_writes() -> bool {
        true
    }

    open spec fn written(&self) -> Seq<u8> {
        self@
    }

    /// Appends the bytes; never fails.
    fn write_bytes(&mut self, bytes: &[u8]) -> (r: Result<(), std::io::Error>)
        ensures
            final(self)@ == old(self)@ + bytes@,
            r is Ok,
    {
        let ghost start = self@;
        let mut i: usize = 0;
        while i < bytes.len()
            invariant
                i <= bytes@.len(),
                self@ == start + bytes@.subrange(0, i as int),
            decreases bytes.len() - i,
        {
            self.push(bytes[i]);
            i += 1;
            assert(self@ =~= start + bytes@.subrange(0, i as int));
        }
        assert(bytes@.subrange(0, i as int) =~= bytes@);
        Ok(())
    }
}

/// `IsTerminal::is_terminal` on stdout; the answer depends on the environment.
#[verifier::external_body]
fn stdout_is_terminal(out: &std::io::Stdout) -> bool {
    std::io::IsTerminal::is_terminal(out)
}

/// `IsTerminal::is_terminal` on stderr; the answer depends on the environment.
#[verifier::external_body]
fn stderr_is_terminal(out: &std::io::Stderr) -> bool {
    std::io::IsTerminal::is_terminal(out)
}

/// `Write::write_all` on stdout; whether it succeeds depends on the stream.
#[verifier::external_body]
fn stdout_write_all(out: &mut std::io::Stdout, bytes: &[u8]) -> Result<(), std::io::Error> {
    std::io::Write::write_all(out, bytes)
}

/// `Write::write_all` on stderr; whether it succeeds depends on the stream.
#[verifier::external_body]
fn stderr_write_all(out: &mut std::io::Stderr, bytes: &[u8]) -> Result<(), std::io::Error> {
    std::io::Write::write_all(out, bytes)
}

impl SupportsColor for std::io::Stdout {
    fn supports_color(&self) -> bool {
        stdout_is_terminal(self)
    }
}

impl SupportsColor for std::io::Stderr {
    fn supports_color(&self) -> bool {
        stderr_is_terminal(self)
    }
}

impl TextTarget for std::io::Stdout {
    open spec fn tracks_writes() -> bool {
        false
    }

    open spec fn written(&self) -> Seq<u8> {
        Seq::empty()
    }

    fn write_bytes(&mut self, bytes: &[u8]) -> Result<(), std::io::Error> {
        stdout_write_all(self, bytes)
    }
}

impl TextTarget for std::io::Stderr {
    open spec fn tracks_writes() -> bool {
        false
    }

    open spec fn written(&self) -> Seq<u8> {
        Seq::empty()
    }

    fn write_bytes(&mut self, bytes: &[u8]) -> Result<(), std::io::Error> {
        stderr_write_all(self, bytes)
    }
}

} // verus!
