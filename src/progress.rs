//! The progress display: the status-message buffer written by the operation
//! thread, the decisions of the render loop and of the disabled-policy print
//! loop, and the teardown protocol of the controller.
//!
//! Threads, channels, sleeping and drawing stand outside this module: the
//! loops here take what was observed (a sample, the pending messages, whether
//! the shutdown signal came) and say what to do next.
use vstd::prelude::*;
use vstd::string::{StringExecFns, StringSliceAdditionalSpecFns};
use vstd::utf8::{decode_utf8, valid_utf8};

use crate::cli::ProgressBarPolicy;

verus! {

/// Error of a flush of the display handle.
#[derive(Debug, Clone, Copy, PartialEq, Eq, Structural)]
pub enum DisplayError {
    /// The buffered bytes are not valid UTF-8 text.
    EncodingError,
}

/// Relies on `String::from_utf8`: it succeeds exactly on valid UTF-8 and
/// then holds the decoded characters.
#[verifier::external_body]
fn decode_text(bytes: Vec<u8>) -> (r: Option<String>)
    ensures
        r is Some <==> valid_utf8(bytes@),
        r matches Some(s) ==> s@ == decode_utf8(bytes@),
{
    String::from_utf8(bytes).ok()
}

/// The buffer after a write.
pub open spec fn spec_write(buf: Seq<u8>, data: Seq<u8>) -> Seq<u8> {
    buf + data
}

/// The message a flush of `buf` hands on: its text, when it is text.
pub open spec fn spec_flush(buf: Seq<u8>) -> Option<Seq<char>> {
    if valid_utf8(buf) {
        Some(decode_utf8(buf))
    } else {
        None
    }
}

/// The buffer after each of `writes` in turn, starting from `buf`.
pub open spec fn buffer_after(buf: Seq<u8>, writes: Seq<Seq<u8>>) -> Seq<u8>
    decreases writes.len(),
{
    if writes.len() == 0 {
        buf
    } else {
        buffer_after(spec_write(buf, writes[0]), writes.drop_first())
    }
}

/// All of `writes`, one after the other.
pub open spec fn concat_all(writes: Seq<Seq<u8>>) -> Seq<u8>
    decreases writes.len(),
{
    if writes.len() == 0 {
        seq![]
    } else {
        writes[0] + concat_all(writes.drop_first())
    }
}

/// Writes to this struct are buffered; a flush turns what was written
/// into one status message.
pub struct DisplayHandle {
    buf: Vec<u8>,
}

impl View for DisplayHandle {
    type V = Seq<u8>;

    closed spec fn view(&self) -> Seq<u8> {
        self.buf@
    }
}

impl DisplayHandle {
    /// An empty handle.
    pub fn new() -> (r: DisplayHandle)
        ensures
            r@ == Seq::<u8>::empty(),
    {
        DisplayHandle { buf: Vec::new() }
    }

    /// Appends `data` to the buffer; all of it is taken.
    pub fn write(&mut self, data: &[u8]) -> (r: usize)
        ensures
            final(self)@ == spec_write(old(self)@, data@),
            r == data@.len(),
    {
        let mut i: usize = 0;
        while i < data.len()
            invariant
                i <= data@.len(),
                self@ == old(self)@ + data@.subrange(0, i as int),
            decreases data@.len() - i,
        {
            self.buf.push(data[i]);
            proof {
                assert(data@.subrange(0, i + 1) =~= data@.subrange(0, i as int).push(data@[i as int]));
            }
            i = i + 1;
        }
        assert(data@.subrange(0, i as int) =~= data@);
        data.len()
    }

    /// Appends the UTF-8 bytes of `s`.
    pub fn write_str(&mut self, s: &str)
        ensures
            final(self)@ == old(self)@ + s.spec_bytes(),
    {
        self.write(s.as_bytes());
    }

    /// Takes the buffered bytes as one message and empties the buffer, also
    /// when they are not text.
    pub fn flush(&mut self) -> (r: Result<String, DisplayError>)
        ensures
            final(self)@ == Seq::<u8>::empty(),
            r is Ok <==> spec_flush(old(self)@) is Some,
            r matches Ok(s) ==> Some(s@) == spec_flush(old(self)@),
            r matches Err(e) ==> e == DisplayError::EncodingError,
    {
        let bytes = self.buf.split_off(0);
        assert(bytes@ =~= old(self)@);
        match decode_text(bytes) {
            Some(s) => Ok(s),
            None => Err(DisplayError::EncodingError),
        }
    }
}

/// Writes in turn, then one flush, hand on one message: the text of all that
/// was written, in order, or an encoding error when that is not text.
pub proof fn lemma_writes_then_flush(writes: Seq<Seq<u8>>)
    ensures
        buffer_after(Seq::<u8>::empty(), writes) == concat_all(writes),
        spec_flush(buffer_after(Seq::<u8>::empty(), writes)) == (if valid_utf8(concat_all(writes)) {
            Some(decode_utf8(concat_all(writes)))
        } else {
            None
        }),
{
    lemma_buffer_after(Seq::<u8>::empty(), writes);
    assert(Seq::<u8>::empty() + concat_all(writes) =~= concat_all(writes));
}

proof fn lemma_buffer_after(buf: Seq<u8>, writes: Seq<Seq<u8>>)
    ensures
        buffer_after(buf, writes) == buf + concat_all(writes),
    decreases writes.len(),
{
    if writes.len() == 0 {
        assert(buf + seq![] =~= buf);
    } else {
        lemma_buffer_after(spec_write(buf, writes[0]), writes.drop_first());
        assert((buf + writes[0]) + concat_all(writes.drop_first()) =~= buf + (writes[0]
            + concat_all(writes.drop_first())));
    }
}

/// The position a sample gives the bar: a source that could not be read
/// (a file not written yet) keeps the last known position, and no
/// position passes the total.
pub open spec fn spec_position(sample: Option<u64>, total: u64, last: u64) -> u64 {
    match sample {
        Some(v) => if v <= total {
            v
        } else {
            total
        },
        None => last,
    }
}

/// The bar position for a sample taken from any progress source, given
/// the position shown before.
pub fn bar_position(sample: Option<u64>, total: u64, last: u64) -> (r: u64)
    requires
        last <= total,
    ensures
        r == spec_position(sample, total, last),
        r <= total,
{
    match sample {
        Some(v) => if v <= total {
            v
        } else {
            total
        },
        None => last,
    }
}

/// Whole percent done: a bar with no total counts as complete.
pub open spec fn spec_percent(position: u64, total: u64) -> int {
    if total == 0 {
        100
    } else {
        (position as int * 100) / total as int
    }
}

/// Whole percent done, rounded down.
pub fn percent(position: u64, total: u64) -> (r: u64)
    requires
        position <= total,
    ensures
        r == spec_percent(position, total),
        r <= 100,
{
    if total == 0 {
        100
    } else {
        let p: u128 = position as u128 * 100;
        proof {
            assert(p <= total as int * 100) by (nonlinear_arith)
                requires
                    p == position as int * 100,
                    position <= total,
            ;
            assert(p as int / total as int <= 100) by (nonlinear_arith)
                requires
                    p <= total as int * 100,
                    total > 0,
            ;
        }
        (p / total as u128) as u64
    }
}

/// The bar's template: a bar where the total and the position are both
/// known, a spinner otherwise.
pub open spec fn template_spec(precise: bool, has_position: bool) -> Seq<char> {
    "{prefix} [{elapsed_precise}] "@ + (if precise && has_position {
        "[{wide_bar:.cyan/blue}] "@
    } else {
        "{spinner:.green} "@
    }) + (if has_position {
        "{bytes}/ "@
    } else {
        Seq::<char>::empty()
    }) + (if precise {
        "{total_bytes} "@
    } else {
        Seq::<char>::empty()
    }) + "({bytes_per_sec}, {eta}) {path}"@
}

/// Builds the bar's template.
pub fn bar_template(precise: bool, has_position: bool) -> (r: String)
    ensures
        r@ == template_spec(precise, has_position),
{
    let mut t = String::from_str("{prefix} [{elapsed_precise}] ");
    if precise && has_position {
        t.append("[{wide_bar:.cyan/blue}] ");
    } else {
        t.append("{spinner:.green} ");
    }
    let ghost head = t@;
    if has_position {
        t.append("{bytes}/ ");
    } else {
        assert(t@ =~= head + Seq::<char>::empty());
    }
    let ghost mid = t@;
    if precise {
        t.append("{total_bytes} ");
    } else {
        assert(t@ =~= mid + Seq::<char>::empty());
    }
    t.append("({bytes_per_sec}, {eta}) {path}");
    t
}

/// The latest of the pending messages, the one the bar shows.
pub open spec fn latest(pending: Seq<String>) -> Option<String> {
    if pending.len() == 0 {
        None
    } else {
        Some(pending.last())
    }
}

/// What the render thread does after one look at its inputs.
#[derive(Debug)]
pub enum RenderAction {
    /// Redraw: set the position (advance the spinner where there is none)
    /// and, where a message came, the prefix.
    Draw { position: Option<u64>, prefix: Option<String> },
    /// Set the prefix where a message came, finish the bar, acknowledge
    /// the teardown and end.
    Finish { prefix: Option<String> },
    /// The loop has already ended.
    Idle,
}

/// Whether the render loop runs after one tick.
pub open spec fn next_running(running: bool, shutdown: bool) -> bool {
    running && !shutdown
}

/// Whether a tick finishes the bar and acknowledges teardown.
pub open spec fn finishes(running: bool, shutdown: bool) -> bool {
    running && shutdown
}

/// The decisions of the render thread of an enabled progress bar.
pub struct RenderLoop {
    total: u64,
    precise: bool,
    has_position: bool,
    position: u64,
    running: bool,
}

impl RenderLoop {
    /// The configured total.
    pub closed spec fn spec_total(&self) -> u64 {
        self.total
    }

    /// Whether a position source was given.
    pub closed spec fn spec_has_position(&self) -> bool {
        self.has_position
    }

    /// Whether the total is meaningful.
    pub closed spec fn spec_precise(&self) -> bool {
        self.precise
    }

    /// The position the bar shows.
    pub closed spec fn spec_position(&self) -> u64 {
        self.position
    }

    /// Whether the loop still runs.
    pub closed spec fn spec_running(&self) -> bool {
        self.running
    }

    /// The position never passes the total.
    pub closed spec fn wf(&self) -> bool {
        self.position <= self.total
    }

    /// A running loop at position 0.
    pub fn new(total: u64, precise: bool, has_position: bool) -> (r: RenderLoop)
        ensures
            r.wf(),
            r.spec_total() == total,
            r.spec_precise() == precise,
            r.spec_has_position() == has_position,
            r.spec_position() == 0,
            r.spec_running(),
    {
        RenderLoop { total, precise, has_position, position: 0, running: true }
    }

    /// The template of this loop's bar.
    pub fn template(&self) -> (r: String)
        ensures
            r@ == template_spec(self.spec_precise(), self.spec_has_position()),
    {
        bar_template(self.precise, self.has_position)
    }

    /// The position the bar shows.
    pub fn position(&self) -> (r: u64)
        ensures
            r == self.spec_position(),
    {
        self.position
    }

    /// Whole percent that the bar shows.
    pub fn percent(&self) -> (r: u64)
        requires
            self.wf(),
        ensures
            r == spec_percent(self.spec_position(), self.spec_total()),
    {
        percent(self.position, self.total)
    }

    /// Whether the loop still runs.
    pub fn is_running(&self) -> (r: bool)
        ensures
            r == self.spec_running(),
    {
        self.running
    }

    /// One tick: `shutdown` tells whether the shutdown signal (or a closed
    /// channel) was seen, `sample` is what the progress source read, and
    /// `pending` the messages that came since the last tick, oldest first.
    /// Only the latest message is shown. On shutdown the latest message is
    /// still shown before the bar finishes.
    pub fn tick(&mut self, shutdown: bool, sample: Option<u64>, pending: Vec<String>) -> (r:
        RenderAction)
        requires
            old(self).wf(),
        ensures
            final(self).wf(),
            final(self).spec_total() == old(self).spec_total(),
            final(self).spec_precise() == old(self).spec_precise(),
            final(self).spec_has_position() == old(self).spec_has_position(),
            final(self).spec_running() == next_running(old(self).spec_running(), shutdown),
            r is Finish <==> finishes(old(self).spec_running(), shutdown),
            r is Idle <==> !old(self).spec_running(),
            final(self).spec_position() == if old(self).spec_running() && !shutdown
                && old(self).spec_has_position() {
                spec_position(sample, old(self).spec_total(), old(self).spec_position())
            } else {
                old(self).spec_position()
            },
            r matches RenderAction::Finish { prefix } ==> prefix == latest(pending@),
            r matches RenderAction::Draw { position, prefix } ==> prefix == latest(pending@) && (
            position == if old(self).spec_has_position() {
                Some(final(self).spec_position())
            } else {
                None
            }),
    {
        if !self.running {
            return RenderAction::Idle;
        }
        let mut pending = pending;
        let prefix = pending.pop();
        if shutdown {
            self.running = false;
            RenderAction::Finish { prefix }
        } else if self.has_position {
            self.position = bar_position(sample, self.total, self.position);
            RenderAction::Draw { position: Some(self.position), prefix }
        } else {
            RenderAction::Draw { position: None, prefix }
        }
    }
}

/// The number of ticks, of a loop that starts `running`, that finish the
/// bar, given whether each saw the shutdown signal.
pub open spec fn finish_count(running: bool, shutdowns: Seq<bool>) -> nat
    decreases shutdowns.len(),
{
    if shutdowns.len() == 0 {
        0
    } else {
        (if finishes(running, shutdowns[0]) {
            1nat
        } else {
            0nat
        }) + finish_count(next_running(running, shutdowns[0]), shutdowns.drop_first())
    }
}

/// The bar finishes, and the teardown is acknowledged, at most once
/// whatever the ticks see, and exactly once when a running loop sees the
/// shutdown signal at some tick.
pub proof fn lemma_finish_at_most_once(running: bool, shutdowns: Seq<bool>)
    ensures
        finish_count(running, shutdowns) <= 1,
        finish_count(running, shutdowns) == 1 <==> running && exists|i: int|
            0 <= i < shutdowns.len() && #[trigger] shutdowns[i],
        !running ==> finish_count(running, shutdowns) == 0,
    decreases shutdowns.len(),
{
    if shutdowns.len() > 0 {
        let rest = shutdowns.drop_first();
        lemma_finish_at_most_once(next_running(running, shutdowns[0]), rest);
        if running && !shutdowns[0] {
            if exists|i: int| 0 <= i < shutdowns.len() && #[trigger] shutdowns[i] {
                let i = choose|i: int| 0 <= i < shutdowns.len() && #[trigger] shutdowns[i];
                assert(rest[i - 1]);
            }
            assert forall|i: int| 0 <= i < rest.len() && #[trigger] rest[i] implies exists|j: int|
                0 <= j < shutdowns.len() && #[trigger] shutdowns[j] by {
                assert(shutdowns[i + 1]);
            }
        }
        if running && shutdowns[0] {
            assert(shutdowns[0]);
        }
    }
}

/// One step of the print loop of a disabled bar: an open loop prints each
/// message it receives; a closed channel ends it.
pub open spec fn print_step(open: bool, received: Option<Seq<char>>) -> (bool, Option<Seq<char>>) {
    if !open {
        (false, None)
    } else {
        match received {
            Some(m) => (true, Some(m)),
            None => (false, None),
        }
    }
}

/// What the print loop prints for the received values, in order.
pub open spec fn printed(open: bool, received: Seq<Option<Seq<char>>>) -> Seq<Seq<char>>
    decreases received.len(),
{
    if received.len() == 0 {
        seq![]
    } else {
        let step = print_step(open, received[0]);
        let rest = printed(step.0, received.drop_first());
        match step.1 {
            Some(m) => seq![m] + rest,
            None => rest,
        }
    }
}

/// Under the disabled policy every message sent is printed exactly once, in
/// the order sent, and nothing is printed once the channel has closed.
pub proof fn lemma_print_loop_in_order(messages: Seq<Seq<char>>, after: Seq<Option<Seq<char>>>)
    ensures
        printed(
            true,
            messages.map_values(|m: Seq<char>| Some(m)) + seq![None::<Seq<char>>] + after,
        ) == messages,
    decreases messages.len(),
{
    let sent = messages.map_values(|m: Seq<char>| Some(m));
    let all = sent + seq![None::<Seq<char>>] + after;
    if messages.len() == 0 {
        assert(all.drop_first() =~= after);
        lemma_closed_prints_nothing(after);
    } else {
        let tail = messages.drop_first();
        lemma_print_loop_in_order(tail, after);
        assert(all.drop_first() =~= tail.map_values(|m: Seq<char>| Some(m)) + seq![
            None::<Seq<char>>,
        ] + after);
        assert(seq![messages[0]] + tail =~= messages);
    }
}

proof fn lemma_closed_prints_nothing(received: Seq<Option<Seq<char>>>)
    ensures
        printed(false, received) == Seq::<Seq<char>>::empty(),
    decreases received.len(),
{
    if received.len() > 0 {
        lemma_closed_prints_nothing(received.drop_first());
    }
}

/// The print loop of a disabled bar.
pub struct PrintLoop {
    open: bool,
}

impl PrintLoop {
    /// Whether the loop still receives.
    pub closed spec fn spec_open(&self) -> bool {
        self.open
    }

    /// An open loop.
    pub fn new() -> (r: PrintLoop)
        ensures
            r.spec_open(),
    {
        PrintLoop { open: true }
    }

    /// Whether the loop still receives.
    pub fn is_open(&self) -> (r: bool)
        ensures
            r == self.spec_open(),
    {
        self.open
    }

    /// Takes what one receive gave (`None`: the channel closed) and returns
    /// the line to print, if any.
    pub fn receive(&mut self, received: Option<String>) -> (r: Option<String>)
        ensures
            final(self).spec_open() == print_step(
                old(self).spec_open(),
                match received {
                    Some(m) => Some(m@),
                    None => None,
                },
            ).0,
            (match r {
                Some(m) => Some(m@),
                None => None,
            }) == print_step(
                old(self).spec_open(),
                match received {
                    Some(m) => Some(m@),
                    None => None,
                },
            ).1,
            r is Some ==> r == received,
    {
        if !self.open {
            return None;
        }
        match received {
            Some(m) => Some(m),
            None => {
                self.open = false;
                None
            },
        }
    }
}

/// What closing the controller asks of its caller.
#[derive(Debug, Clone, Copy, PartialEq, Eq, Structural)]
pub enum CloseAction {
    /// Send the shutdown signal, then wait for the teardown acknowledgment.
    SignalAndWait,
    /// Send the shutdown signal; no acknowledgment comes.
    Signal,
    /// The signal was sent before: nothing to do.
    Nothing,
}

/// The teardown state after a close, and what that close asks for.
pub open spec fn close_step(signal_sent: bool, wait_for_ack: bool) -> (bool, CloseAction) {
    if signal_sent {
        (true, CloseAction::Nothing)
    } else if wait_for_ack {
        (true, CloseAction::SignalAndWait)
    } else {
        (true, CloseAction::Signal)
    }
}

/// Closing is idempotent: a second close asks for nothing and leaves the
/// state as the first left it.
pub proof fn lemma_close_idempotent(signal_sent: bool, wait_for_ack: bool)
    ensures
        close_step(close_step(signal_sent, wait_for_ack).0, wait_for_ack) == (
            close_step(signal_sent, wait_for_ack).0,
            CloseAction::Nothing,
        ),
        close_step(signal_sent, wait_for_ack).0,
{
}

/// The controller of one progress display: the display handle the
/// operation thread writes to, and the state of the teardown.
pub struct Progress {
    display_handle: DisplayHandle,
    signal_sent: bool,
    wait_for_ack: bool,
}

impl Progress {
    /// Whether the shutdown signal was sent.
    pub closed spec fn spec_signal_sent(&self) -> bool {
        self.signal_sent
    }

    /// Whether teardown waits for the render thread's acknowledgment.
    pub closed spec fn spec_wait_for_ack(&self) -> bool {
        self.wait_for_ack
    }

    /// What the display handle holds.
    pub closed spec fn spec_buffer(&self) -> Seq<u8> {
        self.display_handle@
    }

    /// A controller for the given policy. Only an enabled bar has a render
    /// thread that acknowledges the teardown.
    pub fn new(policy: ProgressBarPolicy) -> (r: Progress)
        ensures
            !r.spec_signal_sent(),
            r.spec_wait_for_ack() == (policy == ProgressBarPolicy::Enable),
            r.spec_buffer() == Seq::<u8>::empty(),
    {
        Progress {
            display_handle: DisplayHandle::new(),
            signal_sent: false,
            wait_for_ack: policy.is_enabled(),
        }
    }

    /// The handle the operation thread writes its status lines to.
    pub fn display_handle(&mut self) -> (r: &mut DisplayHandle)
        ensures
            r@ == old(self).spec_buffer(),
            final(self).spec_buffer() == final(r)@,
            final(self).spec_signal_sent() == old(self).spec_signal_sent(),
            final(self).spec_wait_for_ack() == old(self).spec_wait_for_ack(),
    {
        &mut self.display_handle
    }

    /// Closes the controller: the first close sends the shutdown signal,
    /// and waits for the acknowledgment where one comes; a later one does
    /// nothing.
    pub fn close(&mut self) -> (r: CloseAction)
        ensures
            (final(self).spec_signal_sent(), r) == close_step(
                old(self).spec_signal_sent(),
                old(self).spec_wait_for_ack(),
            ),
            final(self).spec_wait_for_ack() == old(self).spec_wait_for_ack(),
            final(self).spec_buffer() == old(self).spec_buffer(),
    {
        if self.signal_sent {
            CloseAction::Nothing
        } else {
            self.signal_sent = true;
            if self.wait_for_ack {
                CloseAction::SignalAndWait
            } else {
                CloseAction::Signal
            }
        }
    }
}

} // verus!
