//! Startup handshake of out-of-process plugins, and how errors travel.
//!
//! A remote plugin process prints one line on standard output once it is
//! ready: `PORT:<number>` with the port it listens on, or `ERROR:<causes>`
//! when it could not start. Errors cross the boundary as a chain of causes,
//! outermost first, flattened into one text with a line per cause.
use vstd::prelude::*;
use vstd::string::StrSliceExecFns;
use vstd::string::StringExecFns;
use crate::route::{is_prefix, strip_prefix};

verus! {

/// The causes joined by newlines, outermost first.
pub open spec fn joined(parts: Seq<Seq<char>>) -> Seq<char>
    decreases parts.len(),
{
    if parts.len() == 0 {
        Seq::empty()
    } else if parts.len() == 1 {
        parts[0]
    } else {
        joined(parts.drop_last()) + seq!['\n'] + parts.last()
    }
}

pub open spec fn is_digit(c: char) -> bool {
    '0' <= c && c <= '9'
}

pub open spec fn all_digits(s: Seq<char>) -> bool {
    forall|k: int| 0 <= k < s.len() ==> is_digit(#[trigger] s[k])
}

/// The number that a string of decimal digits denotes.
pub open spec fn digits_value(s: Seq<char>) -> nat
    decreases s.len(),
{
    if s.len() == 0 {
        0
    } else {
        digits_value(s.drop_last()) * 10 + ((s.last() as u32) - ('0' as u32)) as nat
    }
}

/// A port number written in decimal: at least one digit, value at most 65535.
pub open spec fn is_port_text(s: Seq<char>) -> bool {
    s.len() > 0 && all_digits(s) && digits_value(s) <= 65535
}

/// The line a remote plugin printed when it started.
#[derive(Debug, Clone, PartialEq, Eq)]
pub enum StartupLine {
    /// It listens on this port.
    Port(u16),
    /// It failed to start, with this flattened cause chain.
    Error(String),
    /// Anything else.
    Unrecognized,
}

/// An error as a chain of causes, outermost first.
#[derive(Debug, Clone)]
pub struct ErrorChain {
    pub causes: Vec<String>,
}

impl ErrorChain {
    /// An error with a single cause.
    pub fn msg(cause: String) -> (r: ErrorChain)
        ensures
            r.causes@.len() == 1,
            r.causes@[0] == cause,
    {
        let mut causes: Vec<String> = Vec::new();
        causes.push(cause);
        ErrorChain { causes }
    }

    /// The same error with `outer` added as its outermost cause.
    pub fn context(self, outer: String) -> (r: ErrorChain)
        ensures
            r.causes@ == seq![outer] + self.causes@,
    {
        let mut causes = self.causes;
        causes.insert(0, outer);
        assert(causes@ =~= seq![outer] + self.causes@);
        ErrorChain { causes }
    }

    /// The causes joined by newlines.
    pub fn flatten(&self) -> (r: String)
        ensures
            r@ == joined(self.causes@.map_values(|c: String| c@)),
    {
        join_causes(&self.causes)
    }
}

/// Flattens a cause chain: the causes joined by newlines.
pub fn join_causes(causes: &Vec<String>) -> (r: String)
    ensures
        r@ == joined(causes@.map_values(|c: String| c@)),
{
    let ghost parts = causes@.map_values(|c: String| c@);
    let mut out = String::new();
    if causes.len() == 0 {
        return out;
    }
    out.append(causes[0].as_str());
    assert(parts.subrange(0, 1) =~= seq![parts[0]]);
    let mut i: usize = 1;
    let nl = "\n";
    proof {
        reveal_strlit("\n");
    }
    while i < causes.len()
        invariant
            1 <= i <= causes@.len(),
            parts == causes@.map_values(|c: String| c@),
            out@ == joined(parts.subrange(0, i as int)),
            nl@ == seq!['\n'],
        decreases causes@.len() - i,
    {
        out.append(nl);
        out.append(causes[i].as_str());
        assert(parts.subrange(0, i as int + 1).drop_last() =~= parts.subrange(0, i as int));
        i = i + 1;
    }
    assert(parts.subrange(0, causes@.len() as int) =~= parts);
    out
}

/// The line a remote plugin prints when it fails to start: `ERROR:` and the
/// flattened cause chain.
pub fn error_line(causes: &Vec<String>) -> (r: String)
    ensures
        r@ == "ERROR:"@ + joined(causes@.map_values(|c: String| c@)),
{
    let body = join_causes(causes);
    let out = String::from_str("ERROR:");
    out.concat(body.as_str())
}

/// Reads the startup line of a remote plugin (without its line break).
pub fn parse_startup_line(line: &String) -> (r: StartupLine)
    ensures
        match r {
            StartupLine::Port(p) => is_prefix("PORT:"@, line@) && is_port_text(line@.skip(5))
                && p as nat == digits_value(line@.skip(5)),
            StartupLine::Error(m) => !is_prefix("PORT:"@, line@) && is_prefix("ERROR:"@, line@)
                && m@ == line@.skip(6),
            StartupLine::Unrecognized => !(is_prefix("PORT:"@, line@) && is_port_text(line@.skip(5)))
                && !is_prefix("ERROR:"@, line@),
        },
{
    proof {
        reveal_strlit("PORT:");
        reveal_strlit("ERROR:");
    }
    let port_tag = String::from_str("PORT:");
    let error_tag = String::from_str("ERROR:");
    match strip_prefix(&port_tag, line) {
        Some(rest) => {
            assert(!is_prefix("ERROR:"@, line@)) by {
                assert(is_prefix("PORT:"@, line@));
                assert(line@.subrange(0, 5)[0] == 'P');
                assert(line@[0] == 'P');
                if is_prefix("ERROR:"@, line@) {
                    assert(line@.subrange(0, 6)[0] == 'E');
                }
            }
            match parse_port(&rest) {
                Some(p) => StartupLine::Port(p),
                None => StartupLine::Unrecognized,
            }
        },
        None => match strip_prefix(&error_tag, line) {
            Some(rest) => StartupLine::Error(rest),
            None => StartupLine::Unrecognized,
        },
    }
}

/// The port that `text` writes in decimal, if it is one.
fn parse_port(text: &String) -> (r: Option<u16>)
    ensures
        r.is_some() == is_port_text(text@),
        r.is_some() ==> r.unwrap() as nat == digits_value(text@),
{
    let s = text.as_str();
    let n = s.unicode_len();
    if n == 0 {
        return None;
    }
    let mut value: u32 = 0;
    let mut too_big = false;
    let mut i: usize = 0;
    while i < n
        invariant
            i <= n,
            n == text@.len(),
            s@ == text@,
            all_digits(text@.subrange(0, i as int)),
            !too_big ==> value as nat == digits_value(text@.subrange(0, i as int)) && value <= 65535,
            too_big ==> digits_value(text@.subrange(0, i as int)) > 65535,
        decreases n - i,
    {
        let c = s.get_char(i);
        if c < '0' || c > '9' {
            assert(!is_digit(text@[i as int]));
            return None;
        }
        let d: u32 = (c as u32) - ('0' as u32);
        let ghost prev = text@.subrange(0, i as int);
        let ghost next = text@.subrange(0, i as int + 1);
        assert(next.drop_last() =~= prev);
        assert(next.last() == c);
        assert(digits_value(next) == digits_value(prev) * 10 + d as nat);
        if !too_big {
            let v = value * 10 + d;
            if v > 65535 {
                too_big = true;
            } else {
                value = v;
            }
        } else {
            assert(digits_value(prev) * 10 + d as nat > 65535) by (nonlinear_arith)
                requires
                    digits_value(prev) > 65535,
            ;
        }
        assert(all_digits(next)) by {
            assert forall|k: int| 0 <= k < next.len() implies is_digit(#[trigger] next[k]) by {
                if k < i {
                    assert(next[k] == prev[k]);
                }
            }
        }
        i = i + 1;
    }
    assert(text@.subrange(0, n as int) =~= text@);
    if too_big {
        None
    } else {
        Some(value as u16)
    }
}

} // verus!
