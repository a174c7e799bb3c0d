//! The relay between the user's terminal, the shell and the transcript.
//!
//! The program around the relay waits until the real standard input or the
//! pseudo-terminal master can be read, reads one chunk from each ready side,
//! and hands each outcome to [`Relay::step`]. The step says which writes to
//! perform, in order, and whether the session is over.
//!
//! A read that fails or reaches the end of its stream ends the session. A
//! write that fails ends it as well: the relay does not go on with a
//! terminal, a shell or a transcript that no longer takes what it is sent.
use vstd::prelude::*;

verus! {

/// The largest number of bytes taken from one side in one read.
pub const CHUNK_SIZE: usize = 256;

/// A side that the relay reads from.
#[derive(PartialEq, Eq, Structural, Clone, Copy, Debug)]
pub enum Source {
    /// The user's real standard input.
    Stdin,
    /// The pseudo-terminal master, where the shell's output appears.
    Master,
}

/// A destination of the relay's writes.
#[derive(PartialEq, Eq, Structural, Clone, Copy, Debug)]
pub enum Sink {
    /// The pseudo-terminal master: the shell's input.
    Shell,
    /// The user's real standard output.
    Terminal,
    /// The transcript file.
    Transcript,
}

/// What one read or write of the relay came to.
#[derive(Debug)]
pub enum Event {
    /// A read from the source returned these bytes; none means end of stream.
    Data(Source, Vec<u8>),
    /// A read from the source failed.
    ReadFailed(Source),
    /// A write of the relay failed.
    WriteFailed,
}

/// One write to perform.
#[derive(Debug)]
pub struct Write {
    pub sink: Sink,
    pub bytes: Vec<u8>,
}

/// What the relay asks for after one event: the writes, in order, and
/// whether the session has ended.
#[derive(Debug)]
pub struct Step {
    pub writes: Vec<Write>,
    pub stop: bool,
}

/// The relay's state: whether the session is still running.
#[derive(Debug)]
pub struct Relay {
    running: bool,
}

/// A write as a sink and the bytes sent to it.
pub open spec fn write_view(w: Write) -> (Sink, Seq<u8>) {
    (w.sink, w.bytes@)
}

/// The writes of a step, as sinks and bytes.
pub open spec fn writes_view(ws: Seq<Write>) -> Seq<(Sink, Seq<u8>)> {
    ws.map_values(|w: Write| write_view(w))
}

/// Whether the event ends a running session.
pub open spec fn ends_session(e: Event) -> bool {
    match e {
        Event::Data(_, b) => b@.len() == 0,
        Event::ReadFailed(_) => true,
        Event::WriteFailed => true,
    }
}

/// Whether the relay is running after the event.
pub open spec fn running_after(running: bool, e: Event) -> bool {
    running && !ends_session(e)
}

/// The writes that the event calls for: bytes from standard input go to the
/// shell; bytes from the shell go to the terminal and then to the
/// transcript. A stopped relay, and an event that ends the session, call for
/// none.
pub open spec fn writes_for(running: bool, e: Event) -> Seq<(Sink, Seq<u8>)> {
    if !running || ends_session(e) {
        Seq::empty()
    } else {
        match e {
            Event::Data(Source::Stdin, b) => seq![(Sink::Shell, b@)],
            Event::Data(Source::Master, b) => seq![(Sink::Terminal, b@), (Sink::Transcript, b@)],
            _ => Seq::empty(),
        }
    }
}

/// The bytes sent to one sink by a sequence of writes, in order.
pub open spec fn sent_to(ws: Seq<(Sink, Seq<u8>)>, s: Sink) -> Seq<u8>
    decreases ws.len(),
{
    if ws.len() == 0 {
        Seq::empty()
    } else {
        let head = if ws[0].0 == s {
            ws[0].1
        } else {
            Seq::<u8>::empty()
        };
        head + sent_to(ws.drop_first(), s)
    }
}

/// All writes of a relay that starts in the given state and meets the
/// events in order.
pub open spec fn trace(running: bool, events: Seq<Event>) -> Seq<(Sink, Seq<u8>)>
    decreases events.len(),
{
    if events.len() == 0 {
        Seq::empty()
    } else {
        writes_for(running, events[0]) + trace(
            running_after(running, events[0]),
            events.drop_first(),
        )
    }
}

/// The bytes read from one source while the session was running, in order.
pub open spec fn accepted_from(running: bool, events: Seq<Event>, src: Source) -> Seq<u8>
    decreases events.len(),
{
    if events.len() == 0 {
        Seq::empty()
    } else {
        let head = match events[0] {
            Event::Data(s, b) => if running && s == src {
                b@
            } else {
                Seq::<u8>::empty()
            },
            _ => Seq::<u8>::empty(),
        };
        head + accepted_from(running_after(running, events[0]), events.drop_first(), src)
    }
}

/// The bytes that a sequence of writes sends to a sink are those that its
/// two parts send, one after the other.
pub proof fn lemma_sent_to_append(a: Seq<(Sink, Seq<u8>)>, b: Seq<(Sink, Seq<u8>)>, s: Sink)
    ensures
        sent_to(a + b, s) == sent_to(a, s) + sent_to(b, s),
    decreases a.len(),
{
    if a.len() == 0 {
        assert(a + b =~= b);
    } else {
        lemma_sent_to_append(a.drop_first(), b, s);
        assert((a + b).drop_first() =~= a.drop_first() + b);
        let head = if a[0].0 == s {
            a[0].1
        } else {
            Seq::<u8>::empty()
        };
        assert(head + (sent_to(a.drop_first(), s) + sent_to(b, s)) =~= (head + sent_to(
            a.drop_first(),
            s,
        )) + sent_to(b, s));
    }
}

/// Every byte read from standard input while the session runs is sent to
/// the shell, once, in the order read, and nothing else is sent there.
pub proof fn lemma_input_reaches_shell(running: bool, events: Seq<Event>)
    ensures
        sent_to(trace(running, events), Sink::Shell) == accepted_from(
            running,
            events,
            Source::Stdin,
        ),
    decreases events.len(),
{
    if events.len() > 0 {
        let e = events[0];
        let rest = events.drop_first();
        lemma_input_reaches_shell(running_after(running, e), rest);
        lemma_sent_to_append(writes_for(running, e), trace(running_after(running, e), rest), Sink::Shell);
        reveal_with_fuel(sent_to, 3);
        let w = writes_for(running, e);
        assert(sent_to(w, Sink::Shell) =~= match e {
            Event::Data(s, b) => if running && s == Source::Stdin {
                b@
            } else {
                Seq::<u8>::empty()
            },
            _ => Seq::<u8>::empty(),
        }) by {
            if running && !ends_session(e) {
                match e {
                    Event::Data(Source::Master, b) => {
                        assert(w.drop_first().drop_first() =~= Seq::<(Sink, Seq<u8>)>::empty());
                    },
                    _ => {},
                }
            }
        }
    }
}

/// The transcript receives exactly the bytes that the terminal is shown,
/// in the same order, and those are the bytes that the shell produced while
/// the session ran.
pub proof fn lemma_transcript_matches_terminal(running: bool, events: Seq<Event>)
    ensures
        sent_to(trace(running, events), Sink::Transcript) == sent_to(
            trace(running, events),
            Sink::Terminal,
        ),
        sent_to(trace(running, events), Sink::Terminal) == accepted_from(
            running,
            events,
            Source::Master,
        ),
    decreases events.len(),
{
    if events.len() > 0 {
        let e = events[0];
        let rest = events.drop_first();
        let w = writes_for(running, e);
        let t = trace(running_after(running, e), rest);
        lemma_transcript_matches_terminal(running_after(running, e), rest);
        lemma_sent_to_append(w, t, Sink::Transcript);
        lemma_sent_to_append(w, t, Sink::Terminal);
        reveal_with_fuel(sent_to, 3);
        let from_master = match e {
            Event::Data(s, b) => if running && s == Source::Master {
                b@
            } else {
                Seq::<u8>::empty()
            },
            _ => Seq::<u8>::empty(),
        };
        assert(sent_to(w, Sink::Terminal) =~= from_master && sent_to(w, Sink::Transcript)
            =~= from_master) by {
            if running && !ends_session(e) {
                match e {
                    Event::Data(Source::Master, b) => {
                        assert(w.drop_first().drop_first() =~= Seq::<(Sink, Seq<u8>)>::empty());
                    },
                    _ => {},
                }
            }
        }
    }
}

/// The bytes that one read placed in its buffer: the first `n` of it.
pub fn chunk(buf: &[u8], n: usize) -> (r: Vec<u8>)
    requires
        n <= buf@.len(),
    ensures
        r@ == buf@.subrange(0, n as int),
{
    let mut r: Vec<u8> = Vec::with_capacity(n);
    let mut i: usize = 0;
    while i < n
        invariant
            i <= n,
            n <= buf@.len(),
            r@ == buf@.subrange(0, i as int),
        decreases n - i,
    {
        r.push(buf[i]);
        i = i + 1;
    }
    r
}

/// The event for one read from `src` into `buf`: `None` where the read
/// failed, else the number of bytes it returned.
pub fn read_event(src: Source, outcome: Option<usize>, buf: &[u8]) -> (e: Event)
    requires
        outcome is Some ==> outcome->Some_0 <= buf@.len(),
    ensures
        outcome is None ==> e == Event::ReadFailed(src),
        outcome is Some ==> (e matches Event::Data(s, b) && s == src && b@ == buf@.subrange(
            0,
            outcome->Some_0 as int,
        )),
{
    match outcome {
        None => Event::ReadFailed(src),
        Some(n) => Event::Data(src, chunk(buf, n)),
    }
}

impl Relay {
    /// Whether the session is still running.
    pub closed spec fn is_running(&self) -> bool {
        self.running
    }

    /// A relay at the start of a session.
    pub fn new() -> (r: Relay)
        ensures
            r.is_running(),
    {
        Relay { running: true }
    }

    /// Whether the session is still running.
    pub fn running(&self) -> (r: bool)
        ensures
            r == self.is_running(),
    {
        self.running
    }

    /// The sources to read, in order, when `stdin_ready` and `master_ready`
    /// say which are ready: each ready one once, standard input first.
    pub fn reads_for(&self, stdin_ready: bool, master_ready: bool) -> (r: Vec<Source>)
        ensures
            !self.is_running() ==> r@ == Seq::<Source>::empty(),
            self.is_running() ==> r@ == (if stdin_ready {
                seq![Source::Stdin]
            } else {
                Seq::empty()
            }) + (if master_ready {
                seq![Source::Master]
            } else {
                Seq::empty()
            }),
    {
        let mut r: Vec<Source> = Vec::new();
        if self.running {
            if stdin_ready {
                r.push(Source::Stdin);
            }
            if master_ready {
                r.push(Source::Master);
            }
        }
        proof {
            if self.running && !stdin_ready {
                assert(Seq::<Source>::empty() + r@ =~= r@);
            }
            if self.running && stdin_ready && !master_ready {
                assert(r@ + Seq::<Source>::empty() =~= r@);
            }
            if self.running && !stdin_ready && !master_ready {
                assert(Seq::<Source>::empty() + Seq::<Source>::empty() =~= r@);
            }
        }
        r
    }

    /// Takes one event and says what to write and whether to stop.
    pub fn step(&mut self, e: Event) -> (r: Step)
        ensures
            final(self).is_running() == running_after(old(self).is_running(), e),
            writes_view(r.writes@) == writes_for(old(self).is_running(), e),
            r.stop == !final(self).is_running(),
    {
        let mut writes: Vec<Write> = Vec::new();
        if self.running {
            match e {
                Event::Data(src, bytes) => {
                    if bytes.len() == 0 {
                        self.running = false;
                    } else {
                        match src {
                            Source::Stdin => {
                                writes.push(Write { sink: Sink::Shell, bytes });
                            },
                            Source::Master => {
                                let copy = chunk(bytes.as_slice(), bytes.len());
                                assert(copy@ =~= bytes@);
                                writes.push(Write { sink: Sink::Terminal, bytes: copy });
                                writes.push(Write { sink: Sink::Transcript, bytes });
                            },
                        }
                    }
                },
                Event::ReadFailed(_) => {
                    self.running = false;
                },
                Event::WriteFailed => {
                    self.running = false;
                },
            }
        }
        proof {
            let w = writes_view(writes@);
            assert(w.len() == writes_for(old(self).running, e).len());
            assert(w =~= writes_for(old(self).running, e));
        }
        Step { writes, stop: !self.running }
    }
}

} // verus!
