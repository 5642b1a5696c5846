//! Assembly of UART bytes into telemetry lines.
use vstd::prelude::*;
use crate::telemetry::{
    ParseError, ParseErrorView, TelemetryFrame, TelemetryFrameView, parse_line, parse_uart_line,
};
use crate::text::string_from_chars;

verus! {

/// A line longer than this many characters is discarded.
pub const LINE_BUF_MAX: usize = 256;

/// What one received byte completed.
pub enum LineEvent {
    /// Nothing complete yet (or an empty line ended).
    Pending,
    /// A line ended and parsed into a frame.
    Frame(TelemetryFrame),
    /// A line ended but is not a telemetry frame.
    Rejected { line: String, error: ParseError },
    /// The line grew beyond [`LINE_BUF_MAX`] characters and was discarded.
    Overflow,
    /// A byte that belongs to no line (control or non-ASCII) was skipped.
    Skipped(u8),
}

/// Mathematical view of a [`LineEvent`].
pub enum LineOutcome {
    Pending,
    Frame(TelemetryFrameView),
    Rejected { line: Seq<char>, error: ParseErrorView },
    Overflow,
    Skipped(u8),
}

impl View for LineEvent {
    type V = LineOutcome;

    open spec fn view(&self) -> LineOutcome {
        match self {
            LineEvent::Pending => LineOutcome::Pending,
            LineEvent::Frame(f) => LineOutcome::Frame(f@),
            LineEvent::Rejected { line, error } => LineOutcome::Rejected { line: line@, error: error@ },
            LineEvent::Overflow => LineOutcome::Overflow,
            LineEvent::Skipped(b) => LineOutcome::Skipped(*b),
        }
    }
}

/// Bytes kept in a line: printable ASCII, space and tab.
pub open spec fn is_line_byte(b: u8) -> bool {
    (0x21 <= b && b <= 0x7e) || b == 0x20 || b == 0x09
}

/// Bytes ending a line.
pub open spec fn is_line_end(b: u8) -> bool {
    b == 0x0a || b == 0x0d
}

/// One received byte: the pending characters afterwards and what the byte completed. A line
/// end completes a non-empty pending line and parses it; a printable byte, space or tab is
/// appended, discarding the line once it would exceed [`LINE_BUF_MAX`] characters; any
/// other byte is skipped.
pub open spec fn line_step(p: Seq<char>, byte: u8) -> (Seq<char>, LineOutcome) {
    if is_line_end(byte) {
        if p.len() > 0 {
            (
                Seq::empty(),
                match parse_line(p) {
                    Ok(f) => LineOutcome::Frame(f),
                    Err(e) => LineOutcome::Rejected { line: p, error: e },
                },
            )
        } else {
            (p, LineOutcome::Pending)
        }
    } else if is_line_byte(byte) {
        let q = p.push(byte as char);
        if q.len() > LINE_BUF_MAX {
            (Seq::empty(), LineOutcome::Overflow)
        } else {
            (q, LineOutcome::Pending)
        }
    } else {
        (p, LineOutcome::Skipped(byte))
    }
}

/// The pending characters after receiving `bytes`, starting from `p`.
pub open spec fn pending_after(p: Seq<char>, bytes: Seq<u8>) -> Seq<char>
    decreases bytes.len(),
{
    if bytes.len() == 0 {
        p
    } else {
        line_step(pending_after(p, bytes.drop_last()), bytes.last()).0
    }
}

/// What each of `bytes` completed, starting from `p`, in order.
pub open spec fn outcomes(p: Seq<char>, bytes: Seq<u8>) -> Seq<LineOutcome>
    decreases bytes.len(),
{
    if bytes.len() == 0 {
        Seq::empty()
    } else {
        outcomes(p, bytes.drop_last()).push(
            line_step(pending_after(p, bytes.drop_last()), bytes.last()).1,
        )
    }
}

/// Collects UART bytes into lines and parses each completed line.
pub struct LineAssembler {
    line_buf: Vec<char>,
}

impl LineAssembler {
    #[verifier::type_invariant]
    spec fn bounded(&self) -> bool {
        self.line_buf@.len() <= LINE_BUF_MAX
    }

    /// The characters of the line received so far.
    pub closed spec fn pending(&self) -> Seq<char> {
        self.line_buf@
    }

    /// An assembler with no pending characters.
    pub fn new() -> (a: Self)
        ensures
            a.pending() == Seq::<char>::empty(),
    {
        LineAssembler { line_buf: Vec::new() }
    }

    /// Feeds one received byte: a line end completes a non-empty pending line and parses it;
    /// a printable byte, space or tab is appended (discarding the line if it grows too long);
    /// any other byte is skipped.
    pub fn push_byte(&mut self, byte: u8) -> (r: LineEvent)
        ensures
            (final(self).pending(), r@) == line_step(old(self).pending(), byte),
            final(self).pending().len() <= LINE_BUF_MAX,
    {
        proof {
            use_type_invariant(&*self);
        }
        if byte == 0x0a || byte == 0x0d {
            if self.line_buf.len() == 0 {
                return LineEvent::Pending;
            }
            let line = string_from_chars(&self.line_buf);
            let r = parse_uart_line(line.as_str());
            self.line_buf = Vec::new();
            match r {
                Ok(frame) => LineEvent::Frame(frame),
                Err(error) => LineEvent::Rejected { line, error },
            }
        } else if (0x21 <= byte && byte <= 0x7e) || byte == 0x20 || byte == 0x09 {
            if self.line_buf.len() >= LINE_BUF_MAX {
                self.line_buf = Vec::new();
                return LineEvent::Overflow;
            }
            let mut buf = Vec::new();
            std::mem::swap(&mut buf, &mut self.line_buf);
            buf.push(byte as char);
            self.line_buf = buf;
            LineEvent::Pending
        } else {
            LineEvent::Skipped(byte)
        }
    }
}

} // verus!
