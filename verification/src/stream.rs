//! The event stream: a single forward pass that sniffs the format
//! from line 1 and parses every later line under it.
//!
//! The stream is fed one line at a time, is not restartable, and
//! surfaces the first failure of any kind — detection, parsing, or a
//! failed read — as its final item.

use vstd::prelude::*;
use crate::error::{ErrKind, Error};
use crate::event::InputEvent;
use crate::parse::{get_options, opt_view, parse_event, spec_options, spec_parse_event, Options};

verus! {

/// A parse outcome as the stream yields it.
pub type Outcome = Result<(Option<Vec<u8>>, InputEvent), Error>;

/// The incremental state of the stream: the descriptor once line 1
/// has been seen, and whether a failure has ended the stream.
pub struct EventStream {
    pub options: Option<Options>,
    pub done: bool,
}

impl EventStream {
    /// A fresh stream that has seen no line.
    pub fn new() -> (r: EventStream)
        ensures
            r.options is None,
            !r.done,
    {
        EventStream { options: None, done: false }
    }

    /// Feeds the next line of input.  The first line only fixes the
    /// format descriptor and yields no item; every later line yields
    /// the line parser's outcome.  A detection or parse failure is
    /// yielded once and ends the stream; after that, fed lines are
    /// ignored.
    pub fn feed_line(&mut self, line: &[u8]) -> (r: Option<Outcome>)
        ensures
            old(self).done ==> *final(self) == *old(self) && r is None,
            !old(self).done && old(self).options is None ==> match spec_options(line@) {
                Ok(o) => {
                    &&& final(self).options == Some(o)
                    &&& !final(self).done
                    &&& r is None
                },
                Err(k) => {
                    &&& final(self).done
                    &&& match r {
                        Some(Err(e)) => e.kind == k && e.line@ == line@,
                        _ => false,
                    }
                },
            },
            !old(self).done && old(self).options is Some ==> {
                &&& final(self).options == old(self).options
                &&& match spec_parse_event(line@, old(self).options->0) {
                    Ok((d, ev)) => {
                        &&& !final(self).done
                        &&& match r {
                            Some(Ok((dev, e))) => opt_view(dev) == d && e == ev,
                            _ => false,
                        }
                    },
                    Err(k) => {
                        &&& final(self).done
                        &&& match r {
                            Some(Err(e)) => e.kind == k && e.line@ == line@,
                            _ => false,
                        }
                    },
                }
            },
    {
        if self.done {
            return None;
        }
        match self.options {
            None => match get_options(line) {
                Ok(o) => {
                    self.options = Some(o);
                    None
                },
                Err(e) => {
                    self.done = true;
                    Some(Err(e))
                },
            },
            Some(o) => match parse_event(line, &o) {
                Ok(item) => Some(Ok(item)),
                Err(e) => {
                    self.done = true;
                    Some(Err(e))
                },
            },
        }
    }

    /// Ends the stream on a failed read of the underlying source,
    /// yielding the failure as the final item.
    pub fn fail_read(&mut self) -> (r: Option<Outcome>)
        ensures
            old(self).done ==> *final(self) == *old(self) && r is None,
            !old(self).done ==> final(self).done && match r {
                Some(Err(e)) => e.kind == ErrKind::Io && e.line@.len() == 0,
                _ => false,
            },
    {
        if self.done {
            return None;
        }
        self.done = true;
        let empty: [u8; 0] = [];
        Some(Err(Error::new(ErrKind::Io, empty.as_slice())))
    }
}

/// The position of the first line after the format line whose parse
/// fails under descriptor `o`, or the number of lines if none fails.
pub open spec fn first_fail(lines: Seq<Seq<u8>>, o: Options, j: int) -> int
    decreases lines.len() - j when 1 <= j <= lines.len()
{
    if j >= lines.len() {
        lines.len() as int
    } else if spec_parse_event(lines[j], o) is Err {
        j
    } else {
        first_fail(lines, o, j + 1)
    }
}

/// `first_fail` does not move while parses keep succeeding.
proof fn lemma_first_fail_from(lines: Seq<Seq<u8>>, o: Options, a: int, j: int)
    requires
        1 <= a <= j <= lines.len(),
        forall|i: int| a <= i < j ==> spec_parse_event(#[trigger] lines[i], o) is Ok,
    ensures
        first_fail(lines, o, a) == first_fail(lines, o, j),
    decreases j - a,
{
    if a < j {
        lemma_first_fail_from(lines, o, a + 1, j);
    }
}

/// Parses a whole log at once: the stream's entire output, given all
/// its lines.  An empty input yields nothing; a detection failure on
/// line 1 yields that single failure; otherwise every later line
/// yields its parse outcome up to and including the first failing
/// line, past which nothing is yielded.
pub fn parse_all(lines: &Vec<Vec<u8>>) -> (r: Vec<Outcome>)
    ensures
        lines@.len() == 0 ==> r@.len() == 0,
        lines@.len() > 0 ==> match spec_options(lines@[0]@) {
            Err(k) => r@.len() == 1 && match r@[0] {
                Err(e) => e.kind == k && e.line@ == lines@[0]@,
                _ => false,
            },
            Ok(o) => {
                let ff = first_fail(lines.deep_view(), o, 1);
                &&& r@.len() == (if ff < lines@.len() { ff } else { ff - 1 })
                &&& forall|i: int| 0 <= i < ff - 1 ==> match #[trigger] r@[i] {
                    Ok((dev, ev)) => spec_parse_event(lines@[i + 1]@, o) == Ok::<
                        (Option<Seq<u8>>, InputEvent),
                        ErrKind,
                    >((opt_view(dev), ev)),
                    _ => false,
                }
                &&& ff < lines@.len() ==> match r@[ff - 1] {
                    Err(e) => spec_parse_event(lines@[ff]@, o) == Err::<
                        (Option<Seq<u8>>, InputEvent),
                        ErrKind,
                    >(e.kind) && e.line@ == lines@[ff]@,
                    _ => false,
                }
            },
        },
{
    let mut out: Vec<Outcome> = Vec::new();
    let n: usize = lines.len();
    if n == 0 {
        return out;
    }
    let o = match get_options(lines[0].as_slice()) {
        Err(e) => {
            out.push(Err(e));
            return out;
        },
        Ok(o) => o,
    };
    let mut j: usize = 1;
    while j < n
        invariant
            1 <= j <= n,
            n == lines@.len(),
            spec_options(lines@[0]@) == Ok::<Options, ErrKind>(o),
            out@.len() == j - 1,
            forall|i: int| 1 <= i < j ==> spec_parse_event(#[trigger] lines.deep_view()[i], o) is Ok,
            forall|i: int| 0 <= i < j - 1 ==> match #[trigger] out@[i] {
                Ok((dev, ev)) => spec_parse_event(lines@[i + 1]@, o) == Ok::<
                    (Option<Seq<u8>>, InputEvent),
                    ErrKind,
                >((opt_view(dev), ev)),
                _ => false,
            },
        decreases n - j,
    {
        proof {
            assert(lines.deep_view()[j as int] == lines@[j as int]@);
        }
        match parse_event(lines[j].as_slice(), &o) {
            Ok(item) => {
                out.push(Ok(item));
            },
            Err(e) => {
                out.push(Err(e));
                proof {
                    lemma_first_fail_from(lines.deep_view(), o, 1, j as int);
                    assert(first_fail(lines.deep_view(), o, j as int) == j);
                }
                return out;
            },
        }
        j = j + 1;
    }
    proof {
        lemma_first_fail_from(lines.deep_view(), o, 1, n as int);
        assert(first_fail(lines.deep_view(), o, n as int) == n);
    }
    out
}

} // verus!
