use vstd::prelude::*;
use vstd::string::StringExecFns;
use crate::error::{location_of, AnyError, ErrorRecord};
use crate::location::{decimal, push_decimal, ErrorLocation};

verus! {

/// The links of a cause chain, from the error itself to the deepest cause.
pub open spec fn chain(r: ErrorRecord) -> Seq<ErrorRecord>
    decreases r,
{
    match r.cause {
        Some(c) => seq![r] + chain(*c),
        None => seq![r],
    }
}

/// The first line of the trace.
pub open spec fn trace_header() -> Seq<char> {
    "Error causes (most recent error last):\n"@
}

/// The lines that say where an error arose, with its source line if known.
pub open spec fn location_lines(r: ErrorRecord, source: Option<Seq<char>>) -> Seq<char> {
    match r.location {
        Some(l) => "  File \""@ + l.0 + "\", line "@ + decimal(l.1 as nat) + "\n"@ + match source {
            Some(s) => "    "@ + s + "\n"@,
            None => Seq::empty(),
        },
        None => "  File <unknown>, line ?\n"@,
    }
}

/// The line that gives the name, the description and the detail of an error.
pub open spec fn summary_line(r: ErrorRecord) -> Seq<char> {
    "  "@ + r.name + ": "@ + r.description + match r.detail {
        Some(d) => " ("@ + d + ")"@,
        None => Seq::empty(),
    } + "\n"@
}

/// The block that renders one link of a chain.
pub open spec fn link_block(r: ErrorRecord, source: Option<Seq<char>>) -> Seq<char> {
    location_lines(r, source) + summary_line(r)
}

/// The source line given for the link at position `i` (the error itself is
/// at position 0), if any.
pub open spec fn source_at(sources: Seq<Option<String>>, i: int) -> Option<Seq<char>> {
    if 0 <= i < sources.len() {
        match sources[i] {
            Some(s) => Some(s@),
            None => None,
        }
    } else {
        None
    }
}

/// The `j` deepest links of `links`, deepest first, separated by blank lines.
pub open spec fn trace_blocks(links: Seq<ErrorRecord>, sources: Seq<Option<String>>, j: nat) -> Seq<
    char,
>
    decreases j,
{
    if j == 0 {
        Seq::empty()
    } else {
        let i = links.len() - j;
        trace_blocks(links, sources, (j - 1) as nat) + (if j > 1 {
            "\n"@
        } else {
            Seq::empty()
        }) + link_block(links[i], source_at(sources, i))
    }
}

/// The whole trace of an error.
pub open spec fn trace_text(r: ErrorRecord, sources: Seq<Option<String>>) -> Seq<char> {
    trace_header() + trace_blocks(chain(r), sources, chain(r).len())
}

/// The locations of the links of an error's chain, from the error itself to
/// the deepest cause: where source lines are to be looked up for a trace.
pub fn chain_locations(err: &AnyError) -> (r: Vec<Option<ErrorLocation>>)
    ensures
        r.len() == chain(err.record()).len(),
        forall|i: int|
            0 <= i < r.len() ==> location_of(#[trigger] r[i]) == chain(err.record())[i].location,
{
    let ghost links = chain(err.record());
    let mut out: Vec<Option<ErrorLocation>> = Vec::new();
    let mut cur: Option<&AnyError> = Some(err);
    while cur.is_some()
        invariant
            out.len() <= links.len(),
            forall|k: int|
                0 <= k < out.len() ==> location_of(#[trigger] out[k]) == links[k].location,
            cur matches Some(x) ==> chain(x.record()) == links.subrange(
                out.len() as int,
                links.len() as int,
            ),
            cur is None ==> out.len() == links.len(),
        decreases links.len() - out.len(),
    {
        let x = cur.unwrap();
        proof {
            let rest = chain(x.record());
            assert(rest[0] == x.record());
            assert(links[out.len() as int] == rest[0]);
            match x.record().cause {
                Some(c) => {
                    assert(chain(*c) =~= rest.subrange(1, rest.len() as int));
                },
                None => {
                    assert(rest.len() == 1);
                },
            }
        }
        out.push(x.location());
        cur = x.cause();
        proof {
            if let Some(y) = cur {
                assert(chain(y.record()) =~= links.subrange(out.len() as int, links.len() as int));
            }
        }
    }
    out
}

/// Renders errors and their causes into a text buffer.
pub struct ErrorFormatter {
    writer: String,
}

impl ErrorFormatter {
    /// The text written so far.
    pub closed spec fn written(&self) -> Seq<char> {
        self.writer@
    }

    /// Creates a formatter that appends to `writer`.
    pub fn new(writer: String) -> (r: ErrorFormatter)
        ensures
            r.written() == writer@,
    {
        ErrorFormatter { writer }
    }

    /// The text written so far.
    pub fn output(&self) -> (r: &str)
        ensures
            r@ == self.written(),
    {
        self.writer.as_str()
    }

    /// Gives back the buffer with everything written to it.
    pub fn into_output(self) -> (r: String)
        ensures
            r@ == self.written(),
    {
        self.writer
    }

    /// Formats the trace of an error: a header, then the error and all its
    /// causes, deepest cause first, separated by blank lines. `sources[i]`
    /// is the source line of the link at position `i` of the chain (the
    /// error itself at 0), where it could be read.
    pub fn format_trace(&mut self, err: &AnyError, sources: &Vec<Option<String>>)
        ensures
            final(self).written() == old(self).written() + trace_text(err.record(), sources@),
    {
        let ghost start = self.writer@;
        let ghost links = chain(err.record());
        self.writer.append("Error causes (most recent error last):\n");
        let mut causes: Vec<&AnyError> = Vec::new();
        let mut cur: Option<&AnyError> = Some(err);
        while cur.is_some()
            invariant
                causes.len() <= links.len(),
                forall|k: int| 0 <= k < causes.len() ==> #[trigger] causes[k].record() == links[k],
                cur matches Some(x) ==> chain(x.record()) == links.subrange(
                    causes.len() as int,
                    links.len() as int,
                ),
                cur is None ==> causes.len() == links.len(),
            decreases links.len() - causes.len(),
        {
            let x = cur.unwrap();
            proof {
                let rest = chain(x.record());
                assert(rest[0] == x.record());
                assert(links[causes.len() as int] == rest[0]);
                match x.record().cause {
                    Some(c) => {
                        assert(chain(*c) =~= rest.subrange(1, rest.len() as int));
                    },
                    None => {
                        assert(rest.len() == 1);
                    },
                }
            }
            causes.push(x);
            cur = x.cause();
            proof {
                if let Some(y) = cur {
                    assert(chain(y.record()) =~= links.subrange(
                        causes.len() as int,
                        links.len() as int,
                    ));
                }
            }
        }
        let n = causes.len();
        let mut j: usize = 0;
        while j < n
            invariant
                n == causes.len() == links.len(),
                j <= n,
                forall|k: int| 0 <= k < causes.len() ==> #[trigger] causes[k].record() == links[k],
                self.writer@ == start + trace_header() + trace_blocks(links, sources@, j as nat),
            decreases n - j,
        {
            let i = n - 1 - j;
            let ghost before = self.writer@;
            if j > 0 {
                self.writer.append("\n");
            }
            let source_line: Option<&str> = if i < sources.len() {
                match &sources[i] {
                    Some(s) => Some(s.as_str()),
                    None => None,
                }
            } else {
                None
            };
            self.format_cause(causes[i], source_line);
            j = j + 1;
            proof {
                assert(source_at(sources@, i as int) == match source_line {
                    Some(s) => Some(s@),
                    None => None,
                });
                assert(self.writer@ =~= start + trace_header() + trace_blocks(
                    links,
                    sources@,
                    j as nat,
                ));
            }
        }
        proof {
            assert(self.writer@ =~= start + trace_text(err.record(), sources@));
        }
    }

    /// Formats a single error: where it arose (with `source_line` under it
    /// when given), then its name, description and detail.
    pub fn format_cause(&mut self, err: &AnyError, source_line: Option<&str>)
        ensures
            final(self).written() == old(self).written() + link_block(
                err.record(),
                match source_line {
                    Some(s) => Some(s@),
                    None => None,
                },
            ),
    {
        let ghost start = self.writer@;
        match &err.location {
            Some(loc) => {
                self.writer.append("  File \"");
                self.writer.append(loc.file.as_str());
                self.writer.append("\", line ");
                push_decimal(&mut self.writer, loc.line);
                self.writer.append("\n");
                match source_line {
                    Some(s) => {
                        self.writer.append("    ");
                        self.writer.append(s);
                        self.writer.append("\n");
                    },
                    None => {},
                }
            },
            None => {
                self.writer.append("  File <unknown>, line ?\n");
            },
        }
        let ghost mid = self.writer@;
        self.writer.append("  ");
        self.writer.append(err.name.as_str());
        self.writer.append(": ");
        self.writer.append(err.description.as_str());
        match &err.detail {
            Some(d) => {
                self.writer.append(" (");
                self.writer.append(d.as_str());
                self.writer.append(")");
            },
            None => {},
        }
        self.writer.append("\n");
        proof {
            let src = match source_line {
                Some(s) => Some(s@),
                None => None,
            };
            assert(mid =~= start + location_lines(err.record(), src));
            assert(self.writer@ =~= mid + summary_line(err.record()));
        }
    }
}

} // verus!
