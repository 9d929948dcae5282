//! The resilient configuration loader.
//!
//! The input is newline-separated `key=value` text. A line that does not
//! hold exactly one separator is silently skipped; whitespace (in the sense
//! of [`crate::scan::is_space`]) around key and value is trimmed; unknown
//! keys are ignored. Recognized keys are treated asymmetrically, by
//! deliberate policy:
//!
//! - `debug`: a value outside the boolean grammar silently falls back to
//!   `false` — never aborts the load;
//! - `port`: a value outside the unsigned 16-bit grammar aborts the whole
//!   load with a [`ErrorKind::Parse`] failure;
//! - `host`: any text is accepted verbatim.
//!
//! The loader starts from static defaults, so the result is always a fully
//! populated [`Config`]. The whole algorithm is specified by [`spec_load`]
//! and the executable loader is proved to return exactly its result.

use vstd::prelude::*;

use crate::errors::ErrorKind;
use crate::errors::ErrorKindView;
use crate::numbers::parse_u16_range;
use crate::numbers::spec_parse_u16;
use crate::scan::find_char;
use crate::scan::spec_find;
use crate::scan::str_range_eq;
use crate::scan::trim_range;
use crate::scan::trim_spec;

verus! {

/// A fully populated configuration value. Every field is either parsed from
/// the input or filled from the static defaults; no partially constructed
/// value is ever observable.
#[derive(Clone, Debug, PartialEq)]
pub struct Config {
    pub debug: bool,
    pub port: u16,
    pub host: String,
}

/// The mathematical model of a [`Config`].
pub struct ConfigView {
    pub debug: bool,
    pub port: u16,
    pub host: Seq<char>,
}

impl View for Config {
    type V = ConfigView;

    open spec fn view(&self) -> ConfigView {
        ConfigView { debug: self.debug, port: self.port, host: self.host@ }
    }
}

/// The static defaults: `debug=false`, `port=8080`, `host="localhost"`.
pub open spec fn default_config_view() -> ConfigView {
    ConfigView { debug: false, port: 8080, host: "localhost"@ }
}

/// The boolean grammar: exactly `true` or `false`.
pub open spec fn spec_parse_bool(s: Seq<char>) -> Option<bool> {
    if s == "true"@ {
        Some(true)
    } else if s == "false"@ {
        Some(false)
    } else {
        None
    }
}

/// Whether `line` holds exactly one `=` separator.
pub open spec fn line_has_one_separator(line: Seq<char>) -> bool {
    let k = spec_find(line, '=');
    0 <= k < line.len() && spec_find(line.subrange(k + 1, line.len() as int), '=') < 0
}

/// The effect of one line on the configuration under construction: skipped,
/// a field update, or — for a malformed `port` value alone — a failure that
/// aborts the load.
pub open spec fn apply_line(cfg: ConfigView, line: Seq<char>) -> Result<
    ConfigView,
    ErrorKindView,
> {
    if !line_has_one_separator(line) {
        Ok(cfg)
    } else {
        let k = spec_find(line, '=');
        let key = trim_spec(line.subrange(0, k));
        let value = trim_spec(line.subrange(k + 1, line.len() as int));
        if key == "debug"@ {
            Ok(ConfigView { debug: spec_parse_bool(value) == Some(true), ..cfg })
        } else if key == "port"@ {
            match spec_parse_u16(value) {
                Some(p) => Ok(ConfigView { port: p, ..cfg }),
                None => Err(ErrorKindView::Parse(value)),
            }
        } else if key == "host"@ {
            Ok(ConfigView { host: value, ..cfg })
        } else {
            Ok(cfg)
        }
    }
}

/// Fold [`apply_line`] over a sequence of lines, left to right, stopping at
/// the first failure.
pub open spec fn load_lines(cfg: ConfigView, lines: Seq<Seq<char>>) -> Result<
    ConfigView,
    ErrorKindView,
>
    decreases lines.len(),
{
    if lines.len() == 0 {
        Ok(cfg)
    } else {
        match apply_line(cfg, lines[0]) {
            Ok(c2) => load_lines(c2, lines.drop_first()),
            Err(e) => Err(e),
        }
    }
}

/// Split a text into its newline-separated segments. A text without a
/// newline is a single segment; each newline ends a segment.
pub open spec fn split_lines(s: Seq<char>) -> Seq<Seq<char>>
    decreases s.len(),
{
    let k = spec_find(s, '\n');
    if 0 <= k < s.len() {
        seq![s.subrange(0, k)] + split_lines(s.subrange(k + 1, s.len() as int))
    } else {
        seq![s]
    }
}

/// The whole loader, as a function of the input text alone: fold the lines
/// over the static defaults.
pub open spec fn spec_load(text: Seq<char>) -> Result<ConfigView, ErrorKindView> {
    load_lines(default_config_view(), split_lines(text))
}

/// Loading is a function of the text alone: two loads of equal text yield
/// equal outcomes.
pub proof fn lemma_load_deterministic(
    text: Seq<char>,
    r1: Result<ConfigView, ErrorKindView>,
    r2: Result<ConfigView, ErrorKindView>,
)
    requires
        r1 == spec_load(text),
        r2 == spec_load(text),
    ensures
        r1 == r2,
{
}

/// Parse the range `[from, to)` of `s` as a boolean.
fn parse_bool_range(s: &str, from: usize, to: usize) -> (r: Option<bool>)
    requires
        from <= to <= s@.len(),
    ensures
        r == spec_parse_bool(s@.subrange(from as int, to as int)),
{
    if str_range_eq(s, from, to, "true") {
        Some(true)
    } else if str_range_eq(s, from, to, "false") {
        Some(false)
    } else {
        None
    }
}

/// Apply one line — the range `[from, to)` of `s` — to the configuration
/// under construction, exactly as [`apply_line`] describes.
fn apply_segment(s: &str, from: usize, to: usize, cfg: &mut Config) -> (r: Result<(), ErrorKind>)
    requires
        from <= to <= s@.len(),
    ensures
        match apply_line(old(cfg)@, s@.subrange(from as int, to as int)) {
            Ok(c2) => r is Ok && final(cfg)@ == c2,
            Err(e) => r matches Err(k) && k@ == e,
        },
{
    let ghost line = s@.subrange(from as int, to as int);
    match find_char(s, from, to, '=') {
        None => {
            proof {
                assert(!line_has_one_separator(line));
            }
            Ok(())
        },
        Some(k) => {
            let second = find_char(s, k + 1, to, '=');
            proof {
                assert(line.subrange(k - from + 1, line.len() as int) =~= s@.subrange(
                    k as int + 1,
                    to as int,
                ));
            }
            match second {
                Some(_) => {
                    proof {
                        assert(!line_has_one_separator(line));
                    }
                    Ok(())
                },
                None => {
                    proof {
                        assert(line_has_one_separator(line));
                        assert(line.subrange(0, k - from) =~= s@.subrange(from as int, k as int));
                    }
                    let kr = trim_range(s, from, k);
                    let vr = trim_range(s, k + 1, to);
                    let ghost key = trim_spec(line.subrange(0, k - from));
                    let ghost value = trim_spec(line.subrange(k - from + 1, line.len() as int));
                    proof {
                        assert(key == s@.subrange(kr.0 as int, kr.1 as int));
                        assert(value == s@.subrange(vr.0 as int, vr.1 as int));
                    }
                    if str_range_eq(s, kr.0, kr.1, "debug") {
                        let b = parse_bool_range(s, vr.0, vr.1);
                        cfg.debug = match b {
                            Some(true) => true,
                            _ => false,
                        };
                        Ok(())
                    } else if str_range_eq(s, kr.0, kr.1, "port") {
                        match parse_u16_range(s, vr.0, vr.1) {
                            Some(p) => {
                                cfg.port = p;
                                Ok(())
                            },
                            None => {
                                let detail = s.substring_char(vr.0, vr.1).to_owned();
                                Err(ErrorKind::from_parse(detail))
                            },
                        }
                    } else if str_range_eq(s, kr.0, kr.1, "host") {
                        cfg.host = s.substring_char(vr.0, vr.1).to_owned();
                        Ok(())
                    } else {
                        Ok(())
                    }
                },
            }
        },
    }
}

impl Config {
    /// The configuration holding the static defaults alone.
    pub fn with_defaults() -> (r: Config)
        ensures
            r@ == default_config_view(),
    {
        Config { debug: false, port: 8080, host: String::from_str("localhost") }
    }

    /// Load a configuration from newline-separated `key=value` text.
    ///
    /// Returns exactly what [`spec_load`] says: the defaults overridden line
    /// by line, or the first hard failure — a malformed `port` value — as
    /// [`ErrorKind::Parse`].
    pub fn from_text(text: &str) -> (r: Result<Config, ErrorKind>)
        ensures
            spec_load(text@) matches Ok(c) ==> (r matches Ok(cfg) && cfg@ == c),
            spec_load(text@) matches Err(e) ==> (r matches Err(k) && k@ == e),
    {
        let n = text.unicode_len();
        let mut cfg = Config::with_defaults();
        let mut pos: usize = 0;
        proof {
            assert(text@.subrange(0, n as int) =~= text@);
        }
        loop
            invariant
                pos <= n == text@.len(),
                spec_load(text@) == load_lines(
                    cfg@,
                    split_lines(text@.subrange(pos as int, n as int)),
                ),
            decreases n - pos,
        {
            let ghost rem = text@.subrange(pos as int, n as int);
            match find_char(text, pos, n, '\n') {
                Some(j) => {
                    proof {
                        assert(rem.subrange(0, j - pos) =~= text@.subrange(pos as int, j as int));
                        assert(rem.subrange(j - pos + 1, rem.len() as int) =~= text@.subrange(
                            j as int + 1,
                            n as int,
                        ));
                        let lines = split_lines(rem);
                        assert(lines == seq![text@.subrange(pos as int, j as int)] + split_lines(
                            text@.subrange(j as int + 1, n as int),
                        ));
                        assert(lines[0] == text@.subrange(pos as int, j as int));
                        assert(lines.drop_first() =~= split_lines(
                            text@.subrange(j as int + 1, n as int),
                        ));
                    }
                    match apply_segment(text, pos, j, &mut cfg) {
                        Ok(_) => {},
                        Err(e) => {
                            return Err(e);
                        },
                    }
                    pos = j + 1;
                },
                None => {
                    proof {
                        assert(split_lines(rem) == seq![rem]);
                        assert(seq![rem].drop_first() =~= Seq::<Seq<char>>::empty());
                        assert(seq![rem][0] == rem);
                    }
                    let ghost before = cfg@;
                    match apply_segment(text, pos, n, &mut cfg) {
                        Ok(_) => {
                            proof {
                                let step = apply_line(before, rem);
                                assert(load_lines(before, seq![rem]) == load_lines(
                                    step->Ok_0,
                                    seq![rem].drop_first(),
                                ));
                                assert(load_lines(step->Ok_0, Seq::<Seq<char>>::empty())
                                    == Ok::<ConfigView, ErrorKindView>(step->Ok_0));
                            }
                            return Ok(cfg);
                        },
                        Err(e) => {
                            return Err(e);
                        },
                    }
                },
            }
        }
    }
}

} // verus!
