//! Output capture.
//!
//! An [`OutputCapture`] stores output events, each a run of bytes tagged with its target
//! (stdout or stderr). Writers returned by [`OutputCapture::stdout`] and
//! [`OutputCapture::stderr`] append events; readers return the bytes of one target in order.

use vstd::prelude::*;
use vstd::std_specs::convert::FromSpecImpl;
use vstd::std_specs::convert::IntoSpec;
use vstd::slice::slice_subrange;
use vstd::string::StringSliceAdditionalSpecFns;

verus! {

/// Where a captured write was directed.
#[derive(Debug, PartialEq, Eq, Clone, Copy, Structural)]
pub enum OutputTarget {
    Stdout,
    Stderr,
}

/// Marker for writes directed at stdout.
#[derive(Debug, Default, PartialEq, Eq, Clone, Copy)]
pub struct StdoutTarget;

impl From<StdoutTarget> for OutputTarget {
    fn from(value: StdoutTarget) -> (r: Self) {
        OutputTarget::Stdout
    }
}

impl FromSpecImpl<StdoutTarget> for OutputTarget {
    open spec fn obeys_from_spec() -> bool {
        true
    }

    open spec fn from_spec(v: StdoutTarget) -> Self {
        OutputTarget::Stdout
    }
}

/// Marker for writes directed at stderr.
#[derive(Debug, Default, PartialEq, Eq, Clone, Copy)]
pub struct StderrTarget;

impl From<StderrTarget> for OutputTarget {
    fn from(value: StderrTarget) -> (r: Self) {
        OutputTarget::Stderr
    }
}

impl FromSpecImpl<StderrTarget> for OutputTarget {
    open spec fn obeys_from_spec() -> bool {
        true
    }

    open spec fn from_spec(v: StderrTarget) -> Self {
        OutputTarget::Stderr
    }
}

/// One captured write: its target and the range of the capture buffer it occupies.
#[derive(Debug)]
pub struct OutputEvent {
    pub target: OutputTarget,
    start: usize,
    end: usize,
}

/// The ranges of `events`, in order, cover `0..len` one after the other: the first starts
/// at the beginning, each ends where the next starts, and the last ends at `len`; without
/// events, `len` is zero.
pub closed spec fn tiles(events: Seq<OutputEvent>, len: nat) -> bool {
    &&& events.len() == 0 ==> len == 0
    &&& events.len() > 0 ==> events[0].start == 0 && events[events.len() - 1].end == len
    &&& forall|i: int, j: int| 0 <= i < events.len() && j == i + 1 && j < events.len() ==> #[trigger] events[i].end == #[trigger] events[j].start
}

/// The concatenation of the bytes of a sequence of chunks.
pub open spec fn flatten(chunks: Seq<(OutputTarget, Seq<u8>)>) -> Seq<u8>
    decreases chunks.len(),
{
    if chunks.len() == 0 {
        Seq::empty()
    } else {
        flatten(chunks.drop_last()) + chunks.last().1
    }
}

/// Appending a chunk appends its bytes.
pub proof fn lemma_flatten_push(chunks: Seq<(OutputTarget, Seq<u8>)>, c: (OutputTarget, Seq<u8>))
    ensures
        flatten(chunks.push(c)) == flatten(chunks) + c.1,
{
    assert(chunks.push(c).drop_last() =~= chunks);
}

/// The byte runs of the chunks directed at `target`, in order.
pub open spec fn select(chunks: Seq<(OutputTarget, Seq<u8>)>, target: OutputTarget) -> Seq<Seq<u8>>
    decreases chunks.len(),
{
    if chunks.len() == 0 {
        Seq::empty()
    } else {
        let rest = select(chunks.drop_last(), target);
        if chunks.last().0 == target {
            rest.push(chunks.last().1)
        } else {
            rest
        }
    }
}

/// A write to one target adds its bytes as the last run of that target and leaves the runs
/// of the other target as they were.
pub proof fn law_write_selects(chunks: Seq<(OutputTarget, Seq<u8>)>, target: OutputTarget, bytes: Seq<u8>, other: OutputTarget)
    requires
        other != target,
    ensures
        select(chunks.push((target, bytes)), target) == select(chunks, target).push(bytes),
        select(chunks.push((target, bytes)), other) == select(chunks, other),
{
    assert(chunks.push((target, bytes)).drop_last() =~= chunks);
}

/// Every write goes to exactly one of stdout and stderr: the runs read back from the two
/// together are as many as the writes.
pub proof fn law_streams_partition(chunks: Seq<(OutputTarget, Seq<u8>)>)
    ensures
        select(chunks, OutputTarget::Stdout).len() + select(chunks, OutputTarget::Stderr).len() == chunks.len(),
    decreases chunks.len(),
{
    if chunks.len() > 0 {
        law_streams_partition(chunks.drop_last());
    }
}

/// A log of output events, each a run of bytes tagged with its target.
#[derive(Debug, Default)]
pub struct OutputCapture {
    buf: Vec<u8>,
    events: Vec<OutputEvent>,
}

impl OutputCapture {
    /// The captured writes, in order, each with its target and its bytes.
    pub closed spec fn chunks(&self) -> Seq<(OutputTarget, Seq<u8>)> {
        Seq::new(
            self.events@.len(),
            |i: int|
                (
                    self.events@[i].target,
                    self.buf@.subrange(self.events@[i].start as int, self.events@[i].end as int),
                ),
        )
    }

    #[verifier::type_invariant]
    closed spec fn wf(&self) -> bool {
        &&& forall|i: int|
            0 <= i < self.events@.len() ==> #[trigger] self.events@[i].start
                <= self.events@[i].end <= self.buf@.len()
        &&& self.buf@ == flatten(self.chunks())
        &&& tiles(self.events@, self.buf@.len())
    }

    /// Create an empty capture.
    pub fn new() -> (r: Self)
        ensures
            r.chunks() == Seq::<(OutputTarget, Seq<u8>)>::empty(),
    {
        let r = OutputCapture { buf: Vec::new(), events: Vec::new() };
        assert(r.chunks() =~= Seq::<(OutputTarget, Seq<u8>)>::empty());
        r
    }

    /// Remove everything captured so far.
    pub fn clear(&mut self)
        ensures
            final(self).chunks() == Seq::<(OutputTarget, Seq<u8>)>::empty(),
    {
        *self = OutputCapture::new();
    }

    /// Move everything captured so far into a new capture, leaving this one empty.
    pub fn take(&mut self) -> (r: Self)
        ensures
            r.chunks() == old(self).chunks(),
            final(self).chunks() == Seq::<(OutputTarget, Seq<u8>)>::empty(),
    {
        proof {
            use_type_invariant(&*self);
        }
        let mut r = OutputCapture::new();
        std::mem::swap(&mut r, self);
        r
    }

    fn push_event(&mut self, buf: &[u8], target: OutputTarget)
        requires
            old(self).bytes().len() + buf@.len() <= usize::MAX,
        ensures
            final(self).chunks() == old(self).chunks().push((target, buf@)),
            final(self).buf@ == old(self).buf@ + buf@,
            final(self).events@ == old(self).events@.push(
                OutputEvent { target, start: old(self).buf@.len() as usize, end: (old(self).buf@.len() + buf@.len()) as usize },
            ),
    {
        proof {
            use_type_invariant(&*self);
        }
        let ghost old_chunks = self.chunks();
        let mut taken = OutputCapture::new();
        std::mem::swap(&mut taken, self);
        let OutputCapture { buf: mut bytes, mut events } = taken;
        let ghost old_buf = bytes@;
        let ghost old_events = events@;
        let start = bytes.len();
        let mut i: usize = 0;
        while i < buf.len()
            invariant
                bytes@.len() == start + i,
                i <= buf@.len(),
                bytes@ == old_buf + buf@.subrange(0, i as int),
                start == old_buf.len(),
                start + buf@.len() <= usize::MAX,
            decreases buf.len() - i,
        {
            bytes.push(buf[i]);
            i += 1;
            assert(bytes@ =~= old_buf + buf@.subrange(0, i as int));
        }
        let end = bytes.len();
        assert(buf@.subrange(0, i as int) =~= buf@);
        events.push(OutputEvent { target, start, end });
        let ghost new_chunks = Seq::new(
            events@.len(),
            |k: int|
                (events@[k].target, bytes@.subrange(events@[k].start as int, events@[k].end as int)),
        );
        assert(new_chunks.drop_last() =~= old_chunks) by {
            assert forall|k: int| 0 <= k < old_chunks.len() implies new_chunks.drop_last()[k]
                == old_chunks[k] by {
                assert(events@[k] == old_events[k]);
                assert(bytes@.subrange(events@[k].start as int, events@[k].end as int)
                    =~= old_buf.subrange(events@[k].start as int, events@[k].end as int));
            }
        }
        assert(new_chunks.last().1 =~= buf@);
        assert(new_chunks =~= old_chunks.push((target, buf@)));
        assert(bytes@ =~= flatten(new_chunks));
        assert(tiles(events@, bytes@.len())) by {
            if old_events.len() > 0 {
                assert(events@[old_events.len() - 1] == old_events[old_events.len() - 1]);
            }
            assert forall|i: int, j: int| 0 <= i < events@.len() && j == i + 1 && j < events@.len() implies
                #[trigger] events@[i].end == #[trigger] events@[j].start by {
                if j < old_events.len() {
                    assert(events@[i] == old_events[i] && events@[j] == old_events[j]);
                }
            }
        }
        assert(forall|i: int| 0 <= i < events@.len() ==> #[trigger] events@[i].start <= events@[i].end <= bytes@.len()) by {
            assert forall|i: int| 0 <= i < events@.len() implies #[trigger] events@[i].start <= events@[i].end <= bytes@.len() by {
                if i < old_events.len() {
                    assert(events@[i] == old_events[i]);
                }
            }
        }
        *self = OutputCapture { buf: bytes, events };
        assert(self.chunks() =~= new_chunks);
    }

    /// All captured bytes, in the order they were written.
    pub open spec fn bytes(&self) -> Seq<u8> {
        flatten(self.chunks())
    }

    /// Append one write of `buf` to `target`.
    pub fn write_to(&mut self, target: OutputTarget, buf: &[u8])
        requires
            old(self).bytes().len() + buf@.len() <= usize::MAX,
        ensures
            final(self).chunks() == old(self).chunks().push((target, buf@)),
    {
        proof {
            use_type_invariant(&*self);
        }
        self.push_event(buf, target);
    }

    /// A writer whose writes go to this capture, tagged as stdout.
    pub fn stdout(&mut self) -> (w: OutputWrite<'_, StdoutTarget>)
        ensures
            *w.capture == *old(self),
            *final(self) == *final(w.capture),
            w.marker == StdoutTarget,
    {
        OutputWrite { capture: self, marker: StdoutTarget }
    }

    /// A writer whose writes go to this capture, tagged as stderr.
    pub fn stderr(&mut self) -> (w: OutputWrite<'_, StderrTarget>)
        ensures
            *w.capture == *old(self),
            *final(self) == *final(w.capture),
            w.marker == StderrTarget,
    {
        OutputWrite { capture: self, marker: StderrTarget }
    }

    /// All captured bytes, stdout and stderr interleaved in write order.
    pub fn raw(&self) -> (r: &[u8])
        ensures
            r@ == self.bytes(),
    {
        proof {
            use_type_invariant(self);
        }
        self.buf.as_slice()
    }

    fn read_target(&self, target: OutputTarget) -> (r: Vec<&[u8]>)
        ensures
            r@.map_values(|s: &[u8]| s@) == select(self.chunks(), target),
    {
        proof {
            use_type_invariant(self);
        }
        let mut r: Vec<&[u8]> = Vec::new();
        let mut i: usize = 0;
        while i < self.events.len()
            invariant
                i <= self.events@.len(),
                r@.map_values(|s: &[u8]| s@) == select(self.chunks().take(i as int), target),
                forall|k: int|
                    0 <= k < self.events@.len() ==> #[trigger] self.events@[k].start
                        <= self.events@[k].end <= self.buf@.len(),
            decreases self.events.len() - i,
        {
            let ghost before = r@;
            let event = &self.events[i];
            let ghost prefix = self.chunks().take(i + 1);
            assert(prefix.drop_last() =~= self.chunks().take(i as int));
            if event.target == target {
                let chunk = slice_subrange(self.buf.as_slice(), event.start, event.end);
                r.push(chunk);
                assert(r@.map_values(|s: &[u8]| s@) =~= before.map_values(|s: &[u8]| s@).push(chunk@));
            }
            i += 1;
        }
        assert(self.chunks().take(i as int) =~= self.chunks());
        r
    }

    /// The stdout writes, each as its own byte run, in order.
    pub fn read_stdout(&self) -> (r: Vec<&[u8]>)
        ensures
            r@.map_values(|s: &[u8]| s@) == select(self.chunks(), OutputTarget::Stdout),
    {
        self.read_target(OutputTarget::Stdout)
    }

    /// The stderr writes, each as its own byte run, in order.
    pub fn read_stderr(&self) -> (r: Vec<&[u8]>)
        ensures
            r@.map_values(|s: &[u8]| s@) == select(self.chunks(), OutputTarget::Stderr),
    {
        self.read_target(OutputTarget::Stderr)
    }
}

/// A writer that appends to an [`OutputCapture`], tagging each write with `Target`.
#[derive(Debug)]
pub struct OutputWrite<'c, Target> {
    /// The capture the writes go to.
    pub capture: &'c mut OutputCapture,
    /// The marker that tags the writes.
    pub marker: Target,
}

} // verus!

verus! {

impl Clone for OutputCapture {
    /// A capture holding the same writes.
    fn clone(&self) -> (r: Self)
        ensures
            r.chunks() == self.chunks(),
    {
        proof {
            use_type_invariant(self);
        }
        let mut buf: Vec<u8> = Vec::new();
        let mut i: usize = 0;
        while i < self.buf.len()
            invariant
                i <= self.buf@.len(),
                buf@ == self.buf@.subrange(0, i as int),
            decreases self.buf.len() - i,
        {
            buf.push(self.buf[i]);
            i += 1;
            assert(buf@ =~= self.buf@.subrange(0, i as int));
        }
        assert(buf@ =~= self.buf@);
        let mut events: Vec<OutputEvent> = Vec::new();
        let mut j: usize = 0;
        while j < self.events.len()
            invariant
                j <= self.events@.len(),
                events@.len() == j,
                forall|k: int| 0 <= k < j ==> #[trigger] events@[k] == self.events@[k],
            decreases self.events.len() - j,
        {
            let event = &self.events[j];
            events.push(OutputEvent { target: event.target, start: event.start, end: event.end });
            j += 1;
        }
        assert(events@ =~= self.events@);
        let r = OutputCapture { buf, events };
        assert(r.chunks() =~= self.chunks());
        r
    }
}

impl<'c, Target: Into<OutputTarget> + Copy> OutputWrite<'c, Target> {
    /// Append `buf` to the capture as one write tagged with this writer's target.
    ///
    /// Always succeeds and reports the whole buffer as written.
    pub fn write(&mut self, buf: &[u8]) -> (r: Result<usize, std::io::Error>)
        requires
            old(self).capture.bytes().len() + buf@.len() <= usize::MAX,
        ensures
            r matches Ok(n) && n == buf@.len(),
            final(self).marker == old(self).marker,
            *final(final(self).capture) == *final(old(self).capture),
            Target::obeys_into_spec() ==> (*final(self).capture).chunks() == (*old(self).capture).chunks().push(
                (old(self).marker.into_spec(), buf@),
            ),
    {
        let target: OutputTarget = self.marker.into();
        self.capture.push_event(buf, target);
        Ok(buf.len())
    }

    /// Nothing is buffered, so flushing always succeeds and changes nothing.
    pub fn flush(&mut self) -> (r: Result<(), std::io::Error>)
        ensures
            r is Ok,
            *final(self) == *old(self),
            *final(final(self).capture) == *final(old(self).capture),
    {
        Ok(())
    }
}

/// What a panic carried, as far as its message is concerned.
#[derive(Debug, Clone, PartialEq, Eq)]
pub enum PanicPayload {
    /// A `&'static str` payload, as `panic!("literal")` produces.
    Str(String),
    /// A `String` payload, as a formatted `panic!` produces.
    String(String),
    /// Any other payload.
    Other,
}

/// The text that a panic report shows for a payload.
pub open spec fn payload_text(payload: PanicPayload) -> Seq<char> {
    match payload {
        PanicPayload::Str(s) => s@,
        PanicPayload::String(s) => s@,
        PanicPayload::Other => "Box<dyn Any>"@,
    }
}

/// The payload as text; a payload that is neither `&str` nor `String` reads `Box<dyn Any>`.
pub fn payload_as_str(payload: &PanicPayload) -> (r: &str)
    ensures
        r@ == payload_text(*payload),
{
    match payload {
        PanicPayload::Str(s) => s.as_str(),
        PanicPayload::String(s) => s.as_str(),
        PanicPayload::Other => "Box<dyn Any>",
    }
}

/// The number inside a thread id's debug form `ThreadId(N)`.
pub fn thread_id_number(debug: &str) -> (r: String)
    requires
        debug.is_ascii(),
        debug@.len() >= 10,
    ensures
        r@ == debug@.subrange(9, debug@.len() - 1),
{
    let n = debug.unicode_len();
    let slice = debug.substring_ascii(9, n - 1);
    slice.to_owned()
}

/// The note printed after the first panic when backtraces are disabled.
pub open spec fn backtrace_note() -> Seq<char> {
    "note: run with `RUST_BACKTRACE=1` environment variable to display a backtrace\n"@
}

/// The report that the default panic hook writes to the captured stderr.
pub open spec fn panic_report_text(
    name: Option<Seq<char>>,
    tid: Seq<char>,
    location: Option<Seq<char>>,
    payload: Seq<char>,
    backtrace: Seq<char>,
    backtrace_disabled: bool,
    first_panic: bool,
) -> Seq<char> {
    let name = match name {
        Some(n) => n,
        None => "<unnamed>"@,
    };
    let at = match location {
        Some(l) => " at "@ + l,
        None => Seq::empty(),
    };
    let tail = if !backtrace_disabled {
        backtrace
    } else if first_panic {
        backtrace_note()
    } else {
        Seq::empty()
    };
    "\nthread '"@ + name + "' ("@ + tid + ") panicked"@ + at + ":\n"@ + payload + "\n"@ + tail
}

/// Compose the report of a panic, as the default panic hook writes it.
///
/// `backtrace` is the rendered backtrace and `disabled_backtrace` the rendering of a disabled
/// one; when they are equal the backtrace is left out, and the first such panic gets a note
/// on how to enable backtraces. Returns the report and whether the next panic is still the
/// first one.
pub fn panic_report(
    name: Option<&str>,
    tid: &str,
    location: Option<&str>,
    payload: &PanicPayload,
    backtrace: &str,
    disabled_backtrace: &str,
    first_panic: bool,
) -> (r: (String, bool))
    ensures
        r.0@ == panic_report_text(
            match name {
                Some(n) => Some(n@),
                None => None,
            },
            tid@,
            match location {
                Some(l) => Some(l@),
                None => None,
            },
            payload_text(*payload),
            backtrace@,
            backtrace@ == disabled_backtrace@,
            first_panic,
        ),
        r.1 == (first_panic && backtrace@ != disabled_backtrace@),
{
    let mut out = String::new();
    out.append("\nthread '");
    match name {
        Some(n) => out.append(n),
        None => out.append("<unnamed>"),
    }
    out.append("' (");
    out.append(tid);
    out.append(") panicked");
    match location {
        Some(l) => {
            out.append(" at ");
            out.append(l);
        },
        None => {},
    }
    out.append(":\n");
    out.append(payload_as_str(payload));
    out.append("\n");
    let disabled = crate::text::str_equal(backtrace, disabled_backtrace);
    let mut next_first = first_panic;
    if !disabled {
        out.append(backtrace);
    } else if first_panic {
        out.append("note: run with `RUST_BACKTRACE=1` environment variable to display a backtrace\n");
        next_first = false;
    } else {
        next_first = false;
    }
    let ghost name_view = match name {
        Some(n) => Some(n@),
        None => None::<Seq<char>>,
    };
    let ghost location_view = match location {
        Some(l) => Some(l@),
        None => None::<Seq<char>>,
    };
    assert(out@ =~= panic_report_text(
        name_view,
        tid@,
        location_view,
        payload_text(*payload),
        backtrace@,
        disabled,
        first_panic,
    ));
    (out, next_first)
}

/// Route one print of `text` to `target`.
///
/// When capturing is enabled the text is appended to `capture` as one write and `true` is
/// returned; otherwise the capture is left alone and `false` tells the caller to print the
/// text to the real stream.
pub fn capture_print(
    capture: &mut OutputCapture,
    capture_enabled: bool,
    target: OutputTarget,
    text: &str,
) -> (captured: bool)
    requires
        old(capture).bytes().len() + text.spec_bytes().len() <= usize::MAX,
    ensures
        captured == capture_enabled,
        capture_enabled ==> final(capture).chunks() == old(capture).chunks().push(
            (target, text.spec_bytes()),
        ),
        !capture_enabled ==> final(capture).chunks() == old(capture).chunks(),
{
    if capture_enabled {
        capture.write_to(target, text.as_bytes());
        true
    } else {
        false
    }
}

/// Route one line print: `text` followed by a newline, as two writes to `target`.
pub fn capture_println(
    capture: &mut OutputCapture,
    capture_enabled: bool,
    target: OutputTarget,
    text: &str,
) -> (captured: bool)
    requires
        old(capture).bytes().len() + text.spec_bytes().len() + 1 <= usize::MAX,
    ensures
        captured == capture_enabled,
        capture_enabled ==> final(capture).chunks() == old(capture).chunks().push(
            (target, text.spec_bytes()),
        ).push((target, seq![10u8])),
        !capture_enabled ==> final(capture).chunks() == old(capture).chunks(),
{
    if capture_enabled {
        capture.write_to(target, text.as_bytes());
        proof {
            lemma_flatten_push(old(capture).chunks(), (target, text.spec_bytes()));
        }
        let newline: [u8; 1] = [10u8];
        let newline_bytes = newline.as_slice();
        assert(newline_bytes@ =~= seq![10u8]);
        capture.write_to(target, newline_bytes);
        true
    } else {
        false
    }
}

/// Provides the default panic hook, which writes panic reports into the captured stderr.
#[derive(Debug, Default, Clone, PartialEq, Eq)]
pub struct DefaultPanicHookProvider;

} // verus!
