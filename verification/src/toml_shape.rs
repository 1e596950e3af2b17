//! A scanner for TOML-shaped documents, and the tool's metadata block.
//!
//! The spec file of a lockspec is a TOML document. Before the metadata
//! block is injected, the content is validated against the line
//! structure of TOML, and the presence of a top-level `araki` key or
//! table is decided the way a TOML reader would: a header may carry
//! leading whitespace, a trailing comment, quoted or dotted segments;
//! a top-level key before the first header counts; text inside a
//! string — single-line, multi-line, basic or literal — never counts.
//!
//! The scanner is a character-level state machine folded over the
//! content. It checks shape, not every scalar: numbers, dates, the
//! items of arrays and even an empty value pass as free value text,
//! runs of more than three quotes around a multi-line string are not
//! interpreted as TOML does, and escape sequences inside quoted keys
//! are not decoded. A document the scanner accepts has well-formed
//! lines, balanced brackets and terminated strings; one it refuses is
//! left untouched by injection.

use vstd::prelude::*;
use vstd::string::{StrSliceExecFns, StringExecFns};

use crate::text::{hex_char, hex_digit, is_word_char, push_char, word_char};

verus! {

/// The scanner's position in the document grammar.
#[derive(Clone, Copy, Debug, PartialEq, Eq)]
pub enum TomlMode {
    /// At the start of a line, or skipping its leading whitespace.
    LineStart,
    /// Inside a whole-line or end-of-line comment.
    Comment,
    /// Just after the `[` that opens a table header.
    HeaderOpen,
    /// Expecting the next header segment, after `[`, `[[` or `.`.
    HeaderSegStart,
    /// Inside a bare header segment.
    HeaderBare,
    /// Inside a `"`-quoted header segment.
    HeaderBasicSeg,
    /// After a backslash inside a `"`-quoted header segment.
    HeaderBasicSegEsc,
    /// Inside a `'`-quoted header segment.
    HeaderLiteralSeg,
    /// After a header segment, expecting `.` or `]`.
    HeaderSegDone,
    /// After the first `]` of an array-of-tables header.
    HeaderCloseSecond,
    /// After a closed header, expecting whitespace, a comment or the
    /// end of the line.
    HeaderDone,
    /// Inside a bare key segment.
    KeyBare,
    /// Inside a `"`-quoted key segment.
    KeyBasicSeg,
    /// After a backslash inside a `"`-quoted key segment.
    KeyBasicSegEsc,
    /// Inside a `'`-quoted key segment.
    KeyLiteralSeg,
    /// After a key segment, expecting `.` or `=`.
    KeySegDone,
    /// Expecting the next key segment, after `.`.
    KeySegStart,
    /// Inside a value, outside any string.
    Value,
    /// Inside a comment that ends a value line.
    ValueComment,
    /// One `"` seen where a value may start a string.
    QuoteB1,
    /// Two `"` seen: an empty string, or the start of `"""`.
    QuoteB2,
    /// Inside a single-line basic string.
    ValueBasic,
    /// After a backslash inside a single-line basic string.
    ValueBasicEsc,
    /// One `'` seen where a value may start a string.
    QuoteL1,
    /// Two `'` seen: an empty string, or the start of `'''`.
    QuoteL2,
    /// Inside a single-line literal string.
    ValueLiteral,
    /// Inside a multi-line basic string.
    MlBasic,
    /// After a backslash inside a multi-line basic string.
    MlBasicEsc,
    /// One closing `"` candidate inside a multi-line basic string.
    MlBasicQ1,
    /// Two closing `"` candidates inside a multi-line basic string.
    MlBasicQ2,
    /// Inside a multi-line literal string.
    MlLiteral,
    /// One closing `'` candidate inside a multi-line literal string.
    MlLiteralQ1,
    /// Two closing `'` candidates inside a multi-line literal string.
    MlLiteralQ2,
}

/// The scanner state: the grammar position, the nesting depth of open
/// `[`/`{` value brackets, the progress of matching the current first
/// key segment against the tool's table name (six once diverged),
/// whether the current header is an array-of-tables header, whether a
/// table header was seen yet (keys after one are not top-level),
/// whether a top-level `araki` key or table was found, and whether the
/// document broke the shape.
#[derive(Clone, Copy, Debug, PartialEq, Eq)]
pub struct TomlScan {
    pub mode: TomlMode,
    pub depth: usize,
    pub table_match: u8,
    pub double_bracket: bool,
    pub seen_header: bool,
    pub found_araki: bool,
    pub failed: bool,
}

/// Whitespace inside a line.
pub open spec fn is_toml_ws(c: char) -> bool {
    c == ' ' || c == '\t' || c == '\r'
}

/// A character allowed in a bare key.
pub open spec fn is_bare_key_char(c: char) -> bool {
    is_word_char(c) || c == '-'
}

/// The characters of the tool's table name, in order.
pub open spec fn araki_char(i: u8) -> char {
    if i == 0 {
        'a'
    } else if i == 1 {
        'r'
    } else if i == 2 {
        'a'
    } else if i == 3 {
        'k'
    } else {
        'i'
    }
}

/// Advance the name matcher by one segment character.
pub open spec fn match_advance(m: u8, c: char) -> u8 {
    if m < 5 && c == araki_char(m) {
        (m + 1) as u8
    } else {
        6
    }
}

pub open spec fn scan_init() -> TomlScan {
    TomlScan {
        mode: TomlMode::LineStart,
        depth: 0,
        table_match: 6,
        double_bracket: false,
        seen_header: false,
        found_araki: false,
        failed: false,
    }
}

pub open spec fn scan_fail(s: TomlScan) -> TomlScan {
    TomlScan { failed: true, ..s }
}

/// One character of value text outside strings: a newline ends the
/// line when no bracket is open, `#` starts a comment, quotes start
/// strings, brackets nest, and everything else is free value text.
pub open spec fn value_char(s: TomlScan, c: char) -> TomlScan {
    if c == '\n' {
        if s.depth == 0 {
            TomlScan { mode: TomlMode::LineStart, ..s }
        } else {
            TomlScan { mode: TomlMode::Value, ..s }
        }
    } else if c == '#' {
        TomlScan { mode: TomlMode::ValueComment, ..s }
    } else if c == '"' {
        TomlScan { mode: TomlMode::QuoteB1, ..s }
    } else if c == '\'' {
        TomlScan { mode: TomlMode::QuoteL1, ..s }
    } else if c == '[' || c == '{' {
        if s.depth == usize::MAX {
            scan_fail(s)
        } else {
            TomlScan { mode: TomlMode::Value, depth: (s.depth + 1) as usize, ..s }
        }
    } else if c == ']' || c == '}' {
        if s.depth == 0 {
            scan_fail(s)
        } else {
            TomlScan { mode: TomlMode::Value, depth: (s.depth - 1) as usize, ..s }
        }
    } else {
        TomlScan { mode: TomlMode::Value, ..s }
    }
}

/// The first character of a header or key segment.
pub open spec fn seg_start(
    s: TomlScan,
    c: char,
    bare: TomlMode,
    basic: TomlMode,
    literal: TomlMode,
) -> TomlScan {
    if is_toml_ws(c) {
        s
    } else if c == '"' {
        TomlScan { mode: basic, ..s }
    } else if c == '\'' {
        TomlScan { mode: literal, ..s }
    } else if is_bare_key_char(c) {
        TomlScan { mode: bare, table_match: match_advance(s.table_match, c), ..s }
    } else {
        scan_fail(s)
    }
}

/// A header segment ended: a first segment that spelt the tool's table
/// name marks the document as carrying it.
pub open spec fn header_seg_end(s: TomlScan) -> TomlScan {
    if s.table_match == 5 {
        TomlScan { found_araki: true, table_match: 6, ..s }
    } else {
        TomlScan { table_match: 6, ..s }
    }
}

/// A key segment ended: a first segment that spelt the tool's table
/// name counts only while no table header was seen, since only those
/// keys are top-level.
pub open spec fn key_seg_end(s: TomlScan) -> TomlScan {
    if s.table_match == 5 && !s.seen_header {
        TomlScan { found_araki: true, table_match: 6, ..s }
    } else {
        TomlScan { table_match: 6, ..s }
    }
}

pub open spec fn header_after_close(s: TomlScan) -> TomlScan {
    if s.double_bracket {
        TomlScan { mode: TomlMode::HeaderCloseSecond, ..s }
    } else {
        TomlScan { mode: TomlMode::HeaderDone, ..s }
    }
}

/// One step of the scanner. A failure is sticky.
pub open spec fn toml_step(s: TomlScan, c: char) -> TomlScan {
    if s.failed {
        s
    } else {
        match s.mode {
            TomlMode::LineStart => {
                if c == '\n' || is_toml_ws(c) {
                    s
                } else if c == '#' {
                    TomlScan { mode: TomlMode::Comment, ..s }
                } else if c == '[' {
                    TomlScan {
                        mode: TomlMode::HeaderOpen,
                        double_bracket: false,
                        seen_header: true,
                        table_match: 0,
                        ..s
                    }
                } else if c == '"' {
                    TomlScan { mode: TomlMode::KeyBasicSeg, table_match: 0, ..s }
                } else if c == '\'' {
                    TomlScan { mode: TomlMode::KeyLiteralSeg, table_match: 0, ..s }
                } else if is_bare_key_char(c) {
                    TomlScan { mode: TomlMode::KeyBare, table_match: match_advance(0, c), ..s }
                } else {
                    scan_fail(s)
                }
            },
            TomlMode::Comment => {
                if c == '\n' {
                    TomlScan { mode: TomlMode::LineStart, ..s }
                } else {
                    s
                }
            },
            TomlMode::HeaderOpen => {
                if c == '[' {
                    TomlScan { mode: TomlMode::HeaderSegStart, double_bracket: true, ..s }
                } else {
                    seg_start(
                        TomlScan { mode: TomlMode::HeaderSegStart, ..s },
                        c,
                        TomlMode::HeaderBare,
                        TomlMode::HeaderBasicSeg,
                        TomlMode::HeaderLiteralSeg,
                    )
                }
            },
            TomlMode::HeaderSegStart => seg_start(
                s,
                c,
                TomlMode::HeaderBare,
                TomlMode::HeaderBasicSeg,
                TomlMode::HeaderLiteralSeg,
            ),
            TomlMode::HeaderBare => {
                if is_bare_key_char(c) {
                    TomlScan { table_match: match_advance(s.table_match, c), ..s }
                } else if is_toml_ws(c) {
                    TomlScan { mode: TomlMode::HeaderSegDone, ..header_seg_end(s) }
                } else if c == '.' {
                    TomlScan { mode: TomlMode::HeaderSegStart, ..header_seg_end(s) }
                } else if c == ']' {
                    header_after_close(header_seg_end(s))
                } else {
                    scan_fail(s)
                }
            },
            TomlMode::HeaderBasicSeg => {
                if c == '"' {
                    TomlScan { mode: TomlMode::HeaderSegDone, ..header_seg_end(s) }
                } else if c == '\\' {
                    TomlScan { mode: TomlMode::HeaderBasicSegEsc, ..s }
                } else if c == '\n' {
                    scan_fail(s)
                } else {
                    TomlScan { table_match: match_advance(s.table_match, c), ..s }
                }
            },
            TomlMode::HeaderBasicSegEsc => {
                if c == '\n' {
                    scan_fail(s)
                } else {
                    TomlScan { mode: TomlMode::HeaderBasicSeg, table_match: 6, ..s }
                }
            },
            TomlMode::HeaderLiteralSeg => {
                if c == '\'' {
                    TomlScan { mode: TomlMode::HeaderSegDone, ..header_seg_end(s) }
                } else if c == '\n' {
                    scan_fail(s)
                } else {
                    TomlScan { table_match: match_advance(s.table_match, c), ..s }
                }
            },
            TomlMode::HeaderSegDone => {
                if is_toml_ws(c) {
                    s
                } else if c == '.' {
                    TomlScan { mode: TomlMode::HeaderSegStart, ..s }
                } else if c == ']' {
                    header_after_close(s)
                } else {
                    scan_fail(s)
                }
            },
            TomlMode::HeaderCloseSecond => {
                if c == ']' {
                    TomlScan { mode: TomlMode::HeaderDone, ..s }
                } else {
                    scan_fail(s)
                }
            },
            TomlMode::HeaderDone => {
                if c == '\n' {
                    TomlScan { mode: TomlMode::LineStart, ..s }
                } else if is_toml_ws(c) {
                    s
                } else if c == '#' {
                    TomlScan { mode: TomlMode::Comment, ..s }
                } else {
                    scan_fail(s)
                }
            },
            TomlMode::KeyBare => {
                if is_bare_key_char(c) {
                    TomlScan { table_match: match_advance(s.table_match, c), ..s }
                } else if is_toml_ws(c) {
                    TomlScan { mode: TomlMode::KeySegDone, ..key_seg_end(s) }
                } else if c == '.' {
                    TomlScan { mode: TomlMode::KeySegStart, ..key_seg_end(s) }
                } else if c == '=' {
                    TomlScan { mode: TomlMode::Value, ..key_seg_end(s) }
                } else {
                    scan_fail(s)
                }
            },
            TomlMode::KeyBasicSeg => {
                if c == '"' {
                    TomlScan { mode: TomlMode::KeySegDone, ..key_seg_end(s) }
                } else if c == '\\' {
                    TomlScan { mode: TomlMode::KeyBasicSegEsc, ..s }
                } else if c == '\n' {
                    scan_fail(s)
                } else {
                    TomlScan { table_match: match_advance(s.table_match, c), ..s }
                }
            },
            TomlMode::KeyBasicSegEsc => {
                if c == '\n' {
                    scan_fail(s)
                } else {
                    TomlScan { mode: TomlMode::KeyBasicSeg, table_match: 6, ..s }
                }
            },
            TomlMode::KeyLiteralSeg => {
                if c == '\'' {
                    TomlScan { mode: TomlMode::KeySegDone, ..key_seg_end(s) }
                } else if c == '\n' {
                    scan_fail(s)
                } else {
                    TomlScan { table_match: match_advance(s.table_match, c), ..s }
                }
            },
            TomlMode::KeySegDone => {
                if is_toml_ws(c) {
                    s
                } else if c == '.' {
                    TomlScan { mode: TomlMode::KeySegStart, ..s }
                } else if c == '=' {
                    TomlScan { mode: TomlMode::Value, ..s }
                } else {
                    scan_fail(s)
                }
            },
            TomlMode::KeySegStart => seg_start(
                s,
                c,
                TomlMode::KeyBare,
                TomlMode::KeyBasicSeg,
                TomlMode::KeyLiteralSeg,
            ),
            TomlMode::Value => value_char(s, c),
            TomlMode::ValueComment => {
                if c == '\n' {
                    if s.depth == 0 {
                        TomlScan { mode: TomlMode::LineStart, ..s }
                    } else {
                        TomlScan { mode: TomlMode::Value, ..s }
                    }
                } else {
                    s
                }
            },
            TomlMode::QuoteB1 => {
                if c == '"' {
                    TomlScan { mode: TomlMode::QuoteB2, ..s }
                } else if c == '\\' {
                    TomlScan { mode: TomlMode::ValueBasicEsc, ..s }
                } else if c == '\n' {
                    scan_fail(s)
                } else {
                    TomlScan { mode: TomlMode::ValueBasic, ..s }
                }
            },
            TomlMode::QuoteB2 => {
                if c == '"' {
                    TomlScan { mode: TomlMode::MlBasic, ..s }
                } else {
                    value_char(TomlScan { mode: TomlMode::Value, ..s }, c)
                }
            },
            TomlMode::ValueBasic => {
                if c == '"' {
                    TomlScan { mode: TomlMode::Value, ..s }
                } else if c == '\\' {
                    TomlScan { mode: TomlMode::ValueBasicEsc, ..s }
                } else if c == '\n' {
                    scan_fail(s)
                } else {
                    s
                }
            },
            TomlMode::ValueBasicEsc => {
                if c == '\n' {
                    scan_fail(s)
                } else {
                    TomlScan { mode: TomlMode::ValueBasic, ..s }
                }
            },
            TomlMode::QuoteL1 => {
                if c == '\'' {
                    TomlScan { mode: TomlMode::QuoteL2, ..s }
                } else if c == '\n' {
                    scan_fail(s)
                } else {
                    TomlScan { mode: TomlMode::ValueLiteral, ..s }
                }
            },
            TomlMode::QuoteL2 => {
                if c == '\'' {
                    TomlScan { mode: TomlMode::MlLiteral, ..s }
                } else {
                    value_char(TomlScan { mode: TomlMode::Value, ..s }, c)
                }
            },
            TomlMode::ValueLiteral => {
                if c == '\'' {
                    TomlScan { mode: TomlMode::Value, ..s }
                } else if c == '\n' {
                    scan_fail(s)
                } else {
                    s
                }
            },
            TomlMode::MlBasic => {
                if c == '"' {
                    TomlScan { mode: TomlMode::MlBasicQ1, ..s }
                } else if c == '\\' {
                    TomlScan { mode: TomlMode::MlBasicEsc, ..s }
                } else {
                    s
                }
            },
            TomlMode::MlBasicEsc => TomlScan { mode: TomlMode::MlBasic, ..s },
            TomlMode::MlBasicQ1 => {
                if c == '"' {
                    TomlScan { mode: TomlMode::MlBasicQ2, ..s }
                } else if c == '\\' {
                    TomlScan { mode: TomlMode::MlBasicEsc, ..s }
                } else {
                    TomlScan { mode: TomlMode::MlBasic, ..s }
                }
            },
            TomlMode::MlBasicQ2 => {
                if c == '"' {
                    TomlScan { mode: TomlMode::Value, ..s }
                } else if c == '\\' {
                    TomlScan { mode: TomlMode::MlBasicEsc, ..s }
                } else {
                    TomlScan { mode: TomlMode::MlBasic, ..s }
                }
            },
            TomlMode::MlLiteral => {
                if c == '\'' {
                    TomlScan { mode: TomlMode::MlLiteralQ1, ..s }
                } else {
                    s
                }
            },
            TomlMode::MlLiteralQ1 => {
                if c == '\'' {
                    TomlScan { mode: TomlMode::MlLiteralQ2, ..s }
                } else {
                    TomlScan { mode: TomlMode::MlLiteral, ..s }
                }
            },
            TomlMode::MlLiteralQ2 => {
                if c == '\'' {
                    TomlScan { mode: TomlMode::Value, ..s }
                } else {
                    TomlScan { mode: TomlMode::MlLiteral, ..s }
                }
            },
        }
    }
}

fn toml_ws(c: char) -> (b: bool)
    ensures
        b == is_toml_ws(c),
{
    c == ' ' || c == '\t' || c == '\r'
}

fn bare_key_char(c: char) -> (b: bool)
    ensures
        b == is_bare_key_char(c),
{
    word_char(c) || c == '-'
}

fn advance_match(m: u8, c: char) -> (r: u8)
    ensures
        r == match_advance(m, c),
{
    if m < 5 {
        let expected = if m == 0 {
            'a'
        } else if m == 1 {
            'r'
        } else if m == 2 {
            'a'
        } else if m == 3 {
            'k'
        } else {
            'i'
        };
        if c == expected {
            m + 1
        } else {
            6
        }
    } else {
        6
    }
}

fn advance_value(s: TomlScan, c: char) -> (r: TomlScan)
    ensures
        r == value_char(s, c),
{
    if c == '\n' {
        if s.depth == 0 {
            TomlScan { mode: TomlMode::LineStart, ..s }
        } else {
            TomlScan { mode: TomlMode::Value, ..s }
        }
    } else if c == '#' {
        TomlScan { mode: TomlMode::ValueComment, ..s }
    } else if c == '"' {
        TomlScan { mode: TomlMode::QuoteB1, ..s }
    } else if c == '\'' {
        TomlScan { mode: TomlMode::QuoteL1, ..s }
    } else if c == '[' || c == '{' {
        if s.depth == usize::MAX {
            TomlScan { failed: true, ..s }
        } else {
            TomlScan { mode: TomlMode::Value, depth: s.depth + 1, ..s }
        }
    } else if c == ']' || c == '}' {
        if s.depth == 0 {
            TomlScan { failed: true, ..s }
        } else {
            TomlScan { mode: TomlMode::Value, depth: s.depth - 1, ..s }
        }
    } else {
        TomlScan { mode: TomlMode::Value, ..s }
    }
}

fn advance_seg_start(
    s: TomlScan,
    c: char,
    bare: TomlMode,
    basic: TomlMode,
    literal: TomlMode,
) -> (r: TomlScan)
    ensures
        r == seg_start(s, c, bare, basic, literal),
{
    if toml_ws(c) {
        s
    } else if c == '"' {
        TomlScan { mode: basic, ..s }
    } else if c == '\'' {
        TomlScan { mode: literal, ..s }
    } else if bare_key_char(c) {
        TomlScan { mode: bare, table_match: advance_match(s.table_match, c), ..s }
    } else {
        TomlScan { failed: true, ..s }
    }
}

fn end_header_seg(s: TomlScan) -> (r: TomlScan)
    ensures
        r == header_seg_end(s),
{
    if s.table_match == 5 {
        TomlScan { found_araki: true, table_match: 6, ..s }
    } else {
        TomlScan { table_match: 6, ..s }
    }
}

fn end_key_seg(s: TomlScan) -> (r: TomlScan)
    ensures
        r == key_seg_end(s),
{
    if s.table_match == 5 && !s.seen_header {
        TomlScan { found_araki: true, table_match: 6, ..s }
    } else {
        TomlScan { table_match: 6, ..s }
    }
}

fn close_header(s: TomlScan) -> (r: TomlScan)
    ensures
        r == header_after_close(s),
{
    if s.double_bracket {
        TomlScan { mode: TomlMode::HeaderCloseSecond, ..s }
    } else {
        TomlScan { mode: TomlMode::HeaderDone, ..s }
    }
}

/// One executable step of the scanner.
pub fn toml_advance(s: TomlScan, c: char) -> (r: TomlScan)
    ensures
        r == toml_step(s, c),
{
    if s.failed {
        return s;
    }
    match s.mode {
        TomlMode::LineStart => {
            if c == '\n' || toml_ws(c) {
                s
            } else if c == '#' {
                TomlScan { mode: TomlMode::Comment, ..s }
            } else if c == '[' {
                TomlScan {
                    mode: TomlMode::HeaderOpen,
                    double_bracket: false,
                    seen_header: true,
                    table_match: 0,
                    ..s
                }
            } else if c == '"' {
                TomlScan { mode: TomlMode::KeyBasicSeg, table_match: 0, ..s }
            } else if c == '\'' {
                TomlScan { mode: TomlMode::KeyLiteralSeg, table_match: 0, ..s }
            } else if bare_key_char(c) {
                TomlScan { mode: TomlMode::KeyBare, table_match: advance_match(0, c), ..s }
            } else {
                TomlScan { failed: true, ..s }
            }
        },
        TomlMode::Comment => {
            if c == '\n' {
                TomlScan { mode: TomlMode::LineStart, ..s }
            } else {
                s
            }
        },
        TomlMode::HeaderOpen => {
            if c == '[' {
                TomlScan { mode: TomlMode::HeaderSegStart, double_bracket: true, ..s }
            } else {
                advance_seg_start(
                    TomlScan { mode: TomlMode::HeaderSegStart, ..s },
                    c,
                    TomlMode::HeaderBare,
                    TomlMode::HeaderBasicSeg,
                    TomlMode::HeaderLiteralSeg,
                )
            }
        },
        TomlMode::HeaderSegStart => advance_seg_start(
            s,
            c,
            TomlMode::HeaderBare,
            TomlMode::HeaderBasicSeg,
            TomlMode::HeaderLiteralSeg,
        ),
        TomlMode::HeaderBare => {
            if bare_key_char(c) {
                TomlScan { table_match: advance_match(s.table_match, c), ..s }
            } else if toml_ws(c) {
                TomlScan { mode: TomlMode::HeaderSegDone, ..end_header_seg(s) }
            } else if c == '.' {
                TomlScan { mode: TomlMode::HeaderSegStart, ..end_header_seg(s) }
            } else if c == ']' {
                close_header(end_header_seg(s))
            } else {
                TomlScan { failed: true, ..s }
            }
        },
        TomlMode::HeaderBasicSeg => {
            if c == '"' {
                TomlScan { mode: TomlMode::HeaderSegDone, ..end_header_seg(s) }
            } else if c == '\\' {
                TomlScan { mode: TomlMode::HeaderBasicSegEsc, ..s }
            } else if c == '\n' {
                TomlScan { failed: true, ..s }
            } else {
                TomlScan { table_match: advance_match(s.table_match, c), ..s }
            }
        },
        TomlMode::HeaderBasicSegEsc => {
            if c == '\n' {
                TomlScan { failed: true, ..s }
            } else {
                TomlScan { mode: TomlMode::HeaderBasicSeg, table_match: 6, ..s }
            }
        },
        TomlMode::HeaderLiteralSeg => {
            if c == '\'' {
                TomlScan { mode: TomlMode::HeaderSegDone, ..end_header_seg(s) }
            } else if c == '\n' {
                TomlScan { failed: true, ..s }
            } else {
                TomlScan { table_match: advance_match(s.table_match, c), ..s }
            }
        },
        TomlMode::HeaderSegDone => {
            if toml_ws(c) {
                s
            } else if c == '.' {
                TomlScan { mode: TomlMode::HeaderSegStart, ..s }
            } else if c == ']' {
                close_header(s)
            } else {
                TomlScan { failed: true, ..s }
            }
        },
        TomlMode::HeaderCloseSecond => {
            if c == ']' {
                TomlScan { mode: TomlMode::HeaderDone, ..s }
            } else {
                TomlScan { failed: true, ..s }
            }
        },
        TomlMode::HeaderDone => {
            if c == '\n' {
                TomlScan { mode: TomlMode::LineStart, ..s }
            } else if toml_ws(c) {
                s
            } else if c == '#' {
                TomlScan { mode: TomlMode::Comment, ..s }
            } else {
                TomlScan { failed: true, ..s }
            }
        },
        TomlMode::KeyBare => {
            if bare_key_char(c) {
                TomlScan { table_match: advance_match(s.table_match, c), ..s }
            } else if toml_ws(c) {
                TomlScan { mode: TomlMode::KeySegDone, ..end_key_seg(s) }
            } else if c == '.' {
                TomlScan { mode: TomlMode::KeySegStart, ..end_key_seg(s) }
            } else if c == '=' {
                TomlScan { mode: TomlMode::Value, ..end_key_seg(s) }
            } else {
                TomlScan { failed: true, ..s }
            }
        },
        TomlMode::KeyBasicSeg => {
            if c == '"' {
                TomlScan { mode: TomlMode::KeySegDone, ..end_key_seg(s) }
            } else if c == '\\' {
                TomlScan { mode: TomlMode::KeyBasicSegEsc, ..s }
            } else if c == '\n' {
                TomlScan { failed: true, ..s }
            } else {
                TomlScan { table_match: advance_match(s.table_match, c), ..s }
            }
        },
        TomlMode::KeyBasicSegEsc => {
            if c == '\n' {
                TomlScan { failed: true, ..s }
            } else {
                TomlScan { mode: TomlMode::KeyBasicSeg, table_match: 6, ..s }
            }
        },
        TomlMode::KeyLiteralSeg => {
            if c == '\'' {
                TomlScan { mode: TomlMode::KeySegDone, ..end_key_seg(s) }
            } else if c == '\n' {
                TomlScan { failed: true, ..s }
            } else {
                TomlScan { table_match: advance_match(s.table_match, c), ..s }
            }
        },
        TomlMode::KeySegDone => {
            if toml_ws(c) {
                s
            } else if c == '.' {
                TomlScan { mode: TomlMode::KeySegStart, ..s }
            } else if c == '=' {
                TomlScan { mode: TomlMode::Value, ..s }
            } else {
                TomlScan { failed: true, ..s }
            }
        },
        TomlMode::KeySegStart => advance_seg_start(
            s,
            c,
            TomlMode::KeyBare,
            TomlMode::KeyBasicSeg,
            TomlMode::KeyLiteralSeg,
        ),
        TomlMode::Value => advance_value(s, c),
        TomlMode::ValueComment => {
            if c == '\n' {
                if s.depth == 0 {
                    TomlScan { mode: TomlMode::LineStart, ..s }
                } else {
                    TomlScan { mode: TomlMode::Value, ..s }
                }
            } else {
                s
            }
        },
        TomlMode::QuoteB1 => {
            if c == '"' {
                TomlScan { mode: TomlMode::QuoteB2, ..s }
            } else if c == '\\' {
                TomlScan { mode: TomlMode::ValueBasicEsc, ..s }
            } else if c == '\n' {
                TomlScan { failed: true, ..s }
            } else {
                TomlScan { mode: TomlMode::ValueBasic, ..s }
            }
        },
        TomlMode::QuoteB2 => {
            if c == '"' {
                TomlScan { mode: TomlMode::MlBasic, ..s }
            } else {
                advance_value(TomlScan { mode: TomlMode::Value, ..s }, c)
            }
        },
        TomlMode::ValueBasic => {
            if c == '"' {
                TomlScan { mode: TomlMode::Value, ..s }
            } else if c == '\\' {
                TomlScan { mode: TomlMode::ValueBasicEsc, ..s }
            } else if c == '\n' {
                TomlScan { failed: true, ..s }
            } else {
                s
            }
        },
        TomlMode::ValueBasicEsc => {
            if c == '\n' {
                TomlScan { failed: true, ..s }
            } else {
                TomlScan { mode: TomlMode::ValueBasic, ..s }
            }
        },
        TomlMode::QuoteL1 => {
            if c == '\'' {
                TomlScan { mode: TomlMode::QuoteL2, ..s }
            } else if c == '\n' {
                TomlScan { failed: true, ..s }
            } else {
                TomlScan { mode: TomlMode::ValueLiteral, ..s }
            }
        },
        TomlMode::QuoteL2 => {
            if c == '\'' {
                TomlScan { mode: TomlMode::MlLiteral, ..s }
            } else {
                advance_value(TomlScan { mode: TomlMode::Value, ..s }, c)
            }
        },
        TomlMode::ValueLiteral => {
            if c == '\'' {
                TomlScan { mode: TomlMode::Value, ..s }
            } else if c == '\n' {
                TomlScan { failed: true, ..s }
            } else {
                s
            }
        },
        TomlMode::MlBasic => {
            if c == '"' {
                TomlScan { mode: TomlMode::MlBasicQ1, ..s }
            } else if c == '\\' {
                TomlScan { mode: TomlMode::MlBasicEsc, ..s }
            } else {
                s
            }
        },
        TomlMode::MlBasicEsc => TomlScan { mode: TomlMode::MlBasic, ..s },
        TomlMode::MlBasicQ1 => {
            if c == '"' {
                TomlScan { mode: TomlMode::MlBasicQ2, ..s }
            } else if c == '\\' {
                TomlScan { mode: TomlMode::MlBasicEsc, ..s }
            } else {
                TomlScan { mode: TomlMode::MlBasic, ..s }
            }
        },
        TomlMode::MlBasicQ2 => {
            if c == '"' {
                TomlScan { mode: TomlMode::Value, ..s }
            } else if c == '\\' {
                TomlScan { mode: TomlMode::MlBasicEsc, ..s }
            } else {
                TomlScan { mode: TomlMode::MlBasic, ..s }
            }
        },
        TomlMode::MlLiteral => {
            if c == '\'' {
                TomlScan { mode: TomlMode::MlLiteralQ1, ..s }
            } else {
                s
            }
        },
        TomlMode::MlLiteralQ1 => {
            if c == '\'' {
                TomlScan { mode: TomlMode::MlLiteralQ2, ..s }
            } else {
                TomlScan { mode: TomlMode::MlLiteral, ..s }
            }
        },
        TomlMode::MlLiteralQ2 => {
            if c == '\'' {
                TomlScan { mode: TomlMode::Value, ..s }
            } else {
                TomlScan { mode: TomlMode::MlLiteral, ..s }
            }
        },
    }
}

/// The scanner folded over a document, from the given state.
pub open spec fn toml_scan_from(s: TomlScan, content: Seq<char>) -> TomlScan
    decreases content.len(),
{
    if content.len() == 0 {
        s
    } else {
        toml_scan_from(toml_step(s, content[0]), content.drop_first())
    }
}

/// The scanner's final state: the whole document, then one newline to
/// flush an unterminated last line.
pub open spec fn toml_final(content: Seq<char>) -> TomlScan {
    toml_step(toml_scan_from(scan_init(), content), '\n')
}

/// Whether the document has the shape of TOML: every line well formed,
/// every string terminated, every value bracket closed.
pub open spec fn toml_doc_ok(content: Seq<char>) -> bool {
    let f = toml_final(content);
    !f.failed && f.mode == TomlMode::LineStart && f.depth == 0
}

/// Whether the document carries a top-level `araki` key or table, as a
/// TOML reader would see it.
pub open spec fn toml_has_araki(content: Seq<char>) -> bool {
    toml_final(content).found_araki
}

/// Peeling the last character off a fold.
proof fn lemma_scan_snoc(s: TomlScan, x: Seq<char>)
    requires
        x.len() > 0,
    ensures
        toml_scan_from(s, x) == toml_step(toml_scan_from(s, x.drop_last()), x.last()),
    decreases x.len(),
{
    if x.len() == 1 {
        assert(x.drop_last() =~= Seq::<char>::empty());
        assert(x.drop_first() =~= Seq::<char>::empty());
        assert(toml_scan_from(s, x) == toml_scan_from(toml_step(s, x[0]), x.drop_first()));
        assert(toml_scan_from(toml_step(s, x[0]), Seq::<char>::empty()) == toml_step(s, x[0]));
        assert(toml_scan_from(s, Seq::<char>::empty()) == s);
        assert(x.last() == x[0]);
    } else {
        let s1 = toml_step(s, x[0]);
        lemma_scan_snoc(s1, x.drop_first());
        assert(x.drop_first().drop_last() =~= x.drop_last().drop_first());
        assert(x.drop_last().len() > 0);
        assert(x.drop_last()[0] == x[0]);
        assert(x.drop_first().last() == x.last());
        assert(toml_scan_from(s, x) == toml_scan_from(s1, x.drop_first()));
        assert(toml_scan_from(s, x.drop_last()) == toml_scan_from(
            s1,
            x.drop_last().drop_first(),
        ));
    }
}

/// Splitting a fold at a concatenation.
proof fn lemma_scan_append(s: TomlScan, x: Seq<char>, y: Seq<char>)
    ensures
        toml_scan_from(s, x + y) == toml_scan_from(toml_scan_from(s, x), y),
    decreases x.len(),
{
    if x.len() == 0 {
        assert(x + y =~= y);
    } else {
        assert((x + y)[0] == x[0]);
        assert((x + y).drop_first() =~= x.drop_first() + y);
        lemma_scan_append(toml_step(s, x[0]), x.drop_first(), y);
    }
}

/// One step of a fold over a suffix.
proof fn lemma_scan_cons_at(s: TomlScan, x: Seq<char>, i: int)
    requires
        0 <= i < x.len(),
    ensures
        toml_scan_from(s, x.skip(i)) == toml_scan_from(toml_step(s, x[i]), x.skip(i + 1)),
{
    assert(x.skip(i).len() > 0);
    assert(x.skip(i)[0] == x[i]);
    assert(x.skip(i).drop_first() =~= x.skip(i + 1));
}

/// The escape of one character inside a TOML basic string: quote and
/// backslash get a backslash escape, control characters and delete a
/// `\u00XX` escape, everything else stands for itself.
pub open spec fn toml_esc_char(c: char) -> Seq<char> {
    if c == '"' {
        seq!['\\', '"']
    } else if c == '\\' {
        seq!['\\', '\\']
    } else if (c as u32) < 32 || (c as u32) == 127 {
        seq!['\\', 'u', '0', '0', hex_digit((c as u8) / 16), hex_digit((c as u8) % 16)]
    } else {
        seq![c]
    }
}

/// The body of a TOML basic string literal holding `s`.
pub open spec fn toml_escaped(s: Seq<char>) -> Seq<char>
    decreases s.len(),
{
    if s.len() == 0 {
        Seq::empty()
    } else {
        toml_esc_char(s[0]) + toml_escaped(s.drop_first())
    }
}

proof fn lemma_toml_escaped_snoc(s: Seq<char>)
    requires
        s.len() > 0,
    ensures
        toml_escaped(s) == toml_escaped(s.drop_last()) + toml_esc_char(s.last()),
    decreases s.len(),
{
    if s.len() == 1 {
        assert(s.drop_first() =~= Seq::<char>::empty());
        assert(s.drop_last() =~= Seq::<char>::empty());
        assert(toml_escaped(Seq::<char>::empty()) == Seq::<char>::empty());
        assert(toml_esc_char(s[0]) + Seq::<char>::empty() =~= Seq::<char>::empty() + toml_esc_char(
            s.last(),
        ));
    } else {
        let df = s.drop_first();
        lemma_toml_escaped_snoc(df);
        assert(df.drop_last() =~= s.drop_last().drop_first());
        assert(s.drop_last().len() > 0);
        assert(s.drop_last()[0] == s[0]);
        assert(toml_esc_char(s[0]) + (toml_escaped(df.drop_last()) + toml_esc_char(s.last()))
            =~= (toml_esc_char(s[0]) + toml_escaped(s.drop_last().drop_first())) + toml_esc_char(
            s.last(),
        ));
    }
}

/// Escape a string for embedding in a TOML basic string literal.
pub fn toml_escape(s: &str) -> (r: String)
    ensures
        r@ == toml_escaped(s@),
{
    let n = s.unicode_len();
    let mut out = String::new();
    let mut i: usize = 0;
    while i < n
        invariant
            n == s@.len(),
            i <= n,
            out@ == toml_escaped(s@.take(i as int)),
        decreases n - i,
    {
        let c = s.get_char(i);
        proof {
            assert(s@.take(i + 1).drop_last() =~= s@.take(i as int));
            lemma_toml_escaped_snoc(s@.take(i + 1));
        }
        if c == '"' {
            push_char(&mut out, '\\');
            push_char(&mut out, '"');
            proof {
                assert(out@ =~= toml_escaped(s@.take(i as int)) + toml_esc_char(s@[i as int]));
            }
        } else if c == '\\' {
            push_char(&mut out, '\\');
            push_char(&mut out, '\\');
            proof {
                assert(out@ =~= toml_escaped(s@.take(i as int)) + toml_esc_char(s@[i as int]));
            }
        } else if (c as u32) < 32 || (c as u32) == 127 {
            let code = c as u8;
            push_char(&mut out, '\\');
            push_char(&mut out, 'u');
            push_char(&mut out, '0');
            push_char(&mut out, '0');
            push_char(&mut out, hex_char(code / 16));
            push_char(&mut out, hex_char(code % 16));
            proof {
                assert(out@ =~= toml_escaped(s@.take(i as int)) + toml_esc_char(s@[i as int]));
            }
        } else {
            push_char(&mut out, c);
        }
        i += 1;
    }
    proof {
        assert(s@.take(n as int) =~= s@);
    }
    out
}

/// The metadata block injected into a spec file: a fresh line, the
/// tool's table header, and the lockspec name as an escaped TOML
/// string.
pub open spec fn metadata_block(name: Seq<char>) -> Seq<char> {
    "\n[araki]\nlockspec_name = \""@ + toml_escaped(name) + "\"\n"@
}

/// Build the metadata block for a lockspec name.
pub fn metadata_block_string(name: &str) -> (r: String)
    ensures
        r@ == metadata_block(name@),
{
    let mut out = String::from_str("\n[araki]\nlockspec_name = \"");
    let esc = toml_escape(name);
    out.append(esc.as_str());
    out.append("\"\n");
    out
}

/// Spec-file content after metadata injection: the block is added once
/// when the top-level table is absent; content that already carries it
/// is left untouched, never clobbered. Meaningful for content that is
/// TOML-shaped; other content is refused before this applies.
pub open spec fn with_metadata(content: Seq<char>, name: Seq<char>) -> Seq<char> {
    if toml_has_araki(content) {
        content
    } else {
        content + metadata_block(name)
    }
}

/// Scan a document and return the scanner's final state.
pub fn toml_check(content: &str) -> (r: TomlScan)
    ensures
        r == toml_final(content@),
{
    let n = content.unicode_len();
    let mut st = TomlScan {
        mode: TomlMode::LineStart,
        depth: 0,
        table_match: 6,
        double_bracket: false,
        seen_header: false,
        found_araki: false,
        failed: false,
    };
    let mut i: usize = 0;
    while i < n
        invariant
            n == content@.len(),
            i <= n,
            st == toml_scan_from(scan_init(), content@.take(i as int)),
        decreases n - i,
    {
        proof {
            assert(content@.take(i + 1).drop_last() =~= content@.take(i as int));
            lemma_scan_snoc(scan_init(), content@.take(i + 1));
        }
        st = toml_advance(st, content.get_char(i));
        i += 1;
    }
    proof {
        assert(content@.take(n as int) =~= content@);
    }
    toml_advance(st, '\n')
}

proof fn lemma_scan_one(s: TomlScan, a: char)
    ensures
        toml_scan_from(s, seq![a]) == toml_step(s, a),
{
    assert(seq![a].drop_first() =~= Seq::<char>::empty());
    assert(toml_scan_from(toml_step(s, a), Seq::<char>::empty()) == toml_step(s, a));
}

proof fn lemma_scan_two(s: TomlScan, a: char, b: char)
    ensures
        toml_scan_from(s, seq![a, b]) == toml_step(toml_step(s, a), b),
{
    assert(seq![a, b].drop_first() =~= seq![b]);
    lemma_scan_one(toml_step(s, a), b);
}

proof fn lemma_scan_six(s: TomlScan, a: char, b: char, c: char, d: char, e: char, f: char)
    ensures
        toml_scan_from(s, seq![a, b, c, d, e, f]) == toml_step(
            toml_step(
                toml_step(toml_step(toml_step(toml_step(s, a), b), c), d),
                e,
            ),
            f,
        ),
{
    assert(seq![a, b, c, d, e, f] =~= seq![a, b] + (seq![c, d] + seq![e, f]));
    lemma_scan_append(s, seq![a, b], seq![c, d] + seq![e, f]);
    lemma_scan_two(s, a, b);
    let s2 = toml_step(toml_step(s, a), b);
    lemma_scan_append(s2, seq![c, d], seq![e, f]);
    lemma_scan_two(s2, c, d);
    let s4 = toml_step(toml_step(s2, c), d);
    lemma_scan_two(s4, e, f);
}

proof fn lemma_hex_digit_safe(d: u8)
    requires
        d < 16,
    ensures
        hex_digit(d) != '"',
        hex_digit(d) != '\\',
        hex_digit(d) != '\n',
{
    if d < 10 {
        assert((((48 + d) as u8) as char) as u32 == 48 + d);
    } else {
        assert((((55 + d) as u8) as char) as u32 == 55 + d);
    }
    assert('"' as u32 == 34);
    assert('\\' as u32 == 92);
    assert('\n' as u32 == 10);
}

/// Scanning the escape of any character from inside a basic string
/// leaves the scanner inside that string, untouched.
proof fn lemma_esc_char_keeps_basic(s: TomlScan, c: char)
    requires
        s.mode == TomlMode::ValueBasic,
        !s.failed,
    ensures
        toml_scan_from(s, toml_esc_char(c)) == s,
{
    if c == '"' {
        lemma_scan_two(s, '\\', '"');
    } else if c == '\\' {
        lemma_scan_two(s, '\\', '\\');
    } else if (c as u32) < 32 || (c as u32) == 127 {
        let h1 = hex_digit((c as u8) / 16);
        let h2 = hex_digit((c as u8) % 16);
        lemma_hex_digit_safe((c as u8) / 16);
        lemma_hex_digit_safe((c as u8) % 16);
        lemma_scan_six(s, '\\', 'u', '0', '0', h1, h2);
    } else {
        assert('\n' as u32 == 10);
        assert(c != '\n');
        lemma_scan_one(s, c);
    }
}

/// Scanning the whole escaped name from inside a basic string leaves
/// the scanner inside that string, untouched.
proof fn lemma_escaped_keeps_basic(s: TomlScan, name: Seq<char>)
    requires
        s.mode == TomlMode::ValueBasic,
        !s.failed,
    ensures
        toml_scan_from(s, toml_escaped(name)) == s,
    decreases name.len(),
{
    if name.len() == 0 {
        assert(toml_scan_from(s, Seq::<char>::empty()) == s);
    } else {
        lemma_scan_append(s, toml_esc_char(name[0]), toml_escaped(name.drop_first()));
        lemma_esc_char_keeps_basic(s, name[0]);
        lemma_escaped_keeps_basic(s, name.drop_first());
    }
}

/// Scanning the escaped name right after the opening quote of the
/// block's string lands inside the basic string (or stays at the
/// opening quote for the empty name).
proof fn lemma_escaped_from_quote(s: TomlScan, name: Seq<char>)
    requires
        s.mode == TomlMode::QuoteB1,
        !s.failed,
        name.len() > 0,
    ensures
        toml_scan_from(s, toml_escaped(name)) == (TomlScan { mode: TomlMode::ValueBasic, ..s }),
{
    let c = name[0];
    let v = TomlScan { mode: TomlMode::ValueBasic, ..s };
    lemma_scan_append(s, toml_esc_char(c), toml_escaped(name.drop_first()));
    if c == '"' {
        lemma_scan_two(s, '\\', '"');
    } else if c == '\\' {
        lemma_scan_two(s, '\\', '\\');
    } else if (c as u32) < 32 || (c as u32) == 127 {
        let h1 = hex_digit((c as u8) / 16);
        let h2 = hex_digit((c as u8) % 16);
        lemma_hex_digit_safe((c as u8) / 16);
        lemma_hex_digit_safe((c as u8) % 16);
        lemma_scan_six(s, '\\', 'u', '0', '0', h1, h2);
    } else {
        assert('\n' as u32 == 10);
        assert(c != '\n');
        lemma_scan_one(s, c);
    }
    assert(toml_scan_from(s, toml_esc_char(c)) == v);
    lemma_escaped_keeps_basic(v, name.drop_first());
}

/// The state every injection leaves the scanner in: at a fresh line,
/// nothing open, the tool's table found.
spec fn block_end_state() -> TomlScan {
    TomlScan {
        mode: TomlMode::LineStart,
        depth: 0,
        table_match: 6,
        double_bracket: false,
        seen_header: true,
        found_araki: true,
        failed: false,
    }
}

/// Scanning the metadata block from the end of any document whose scan
/// flushes clean and without the tool's table lands in
/// `block_end_state`: the appended block is itself TOML-shaped and
/// carries exactly the table header and the one escaped key.
#[verifier::rlimit(100)]
proof fn lemma_scan_block(s: TomlScan, name: Seq<char>)
    requires
        ({
            let g = toml_step(s, '\n');
            g.mode == TomlMode::LineStart && g.depth == 0 && !g.failed && !g.found_araki
        }),
    ensures
        toml_scan_from(s, metadata_block(name)) == block_end_state(),
{
    let g = toml_step(s, '\n');
    reveal_strlit("\n[araki]\nlockspec_name = \"");
    reveal_strlit("\"\n");
    let x = "\n[araki]\nlockspec_name = \""@;
    let p2 = "\"\n"@;
    assert(x.len() == 26);
    lemma_scan_append(s, x, toml_escaped(name) + p2);
    assert(metadata_block(name) =~= x + (toml_escaped(name) + p2));

    // The fixed prefix, character by character.
    assert(x.skip(0) =~= x);
    lemma_scan_cons_at(s, x, 0);
    let s1 = toml_step(s, x[0]);
    assert(s1 == g);
    lemma_scan_cons_at(s1, x, 1);
    let s2 = toml_step(s1, x[1]);
    assert(s2 == TomlScan {
        mode: TomlMode::HeaderOpen,
        depth: 0,
        table_match: 0,
        double_bracket: false,
        seen_header: true,
        found_araki: false,
        failed: false,
    });
    lemma_scan_cons_at(s2, x, 2);
    let s3 = toml_step(s2, x[2]);
    assert(s3 == TomlScan { mode: TomlMode::HeaderBare, table_match: 1, ..s2 });
    lemma_scan_cons_at(s3, x, 3);
    let s4 = toml_step(s3, x[3]);
    assert(s4 == TomlScan { table_match: 2, ..s3 });
    lemma_scan_cons_at(s4, x, 4);
    let s5 = toml_step(s4, x[4]);
    assert(s5 == TomlScan { table_match: 3, ..s4 });
    lemma_scan_cons_at(s5, x, 5);
    let s6 = toml_step(s5, x[5]);
    assert(s6 == TomlScan { table_match: 4, ..s5 });
    lemma_scan_cons_at(s6, x, 6);
    let s7 = toml_step(s6, x[6]);
    assert(s7 == TomlScan { table_match: 5, ..s6 });
    lemma_scan_cons_at(s7, x, 7);
    let s8 = toml_step(s7, x[7]);
    assert(s8 == TomlScan {
        mode: TomlMode::HeaderDone,
        table_match: 6,
        found_araki: true,
        ..s7
    });
    lemma_scan_cons_at(s8, x, 8);
    let s9 = toml_step(s8, x[8]);
    assert(s9 == TomlScan { mode: TomlMode::LineStart, ..s8 });
    lemma_scan_cons_at(s9, x, 9);
    let s10 = toml_step(s9, x[9]);
    assert(s10 == TomlScan { mode: TomlMode::KeyBare, table_match: 6, ..s9 });
    lemma_scan_cons_at(s10, x, 10);
    let s11 = toml_step(s10, x[10]);
    assert(s11 == s10);
    lemma_scan_cons_at(s11, x, 11);
    let s12 = toml_step(s11, x[11]);
    assert(s12 == s10);
    lemma_scan_cons_at(s12, x, 12);
    let s13 = toml_step(s12, x[12]);
    assert(s13 == s10);
    lemma_scan_cons_at(s13, x, 13);
    let s14 = toml_step(s13, x[13]);
    assert(s14 == s10);
    lemma_scan_cons_at(s14, x, 14);
    let s15 = toml_step(s14, x[14]);
    assert(s15 == s10);
    lemma_scan_cons_at(s15, x, 15);
    let s16 = toml_step(s15, x[15]);
    assert(s16 == s10);
    lemma_scan_cons_at(s16, x, 16);
    let s17 = toml_step(s16, x[16]);
    assert(s17 == s10);
    lemma_scan_cons_at(s17, x, 17);
    let s18 = toml_step(s17, x[17]);
    assert(s18 == s10);
    lemma_scan_cons_at(s18, x, 18);
    let s19 = toml_step(s18, x[18]);
    assert(s19 == s10);
    lemma_scan_cons_at(s19, x, 19);
    let s20 = toml_step(s19, x[19]);
    assert(s20 == s10);
    lemma_scan_cons_at(s20, x, 20);
    let s21 = toml_step(s20, x[20]);
    assert(s21 == s10);
    lemma_scan_cons_at(s21, x, 21);
    let s22 = toml_step(s21, x[21]);
    assert(s22 == s10);
    lemma_scan_cons_at(s22, x, 22);
    let s23 = toml_step(s22, x[22]);
    assert(s23 == TomlScan { mode: TomlMode::KeySegDone, ..s10 });
    lemma_scan_cons_at(s23, x, 23);
    let s24 = toml_step(s23, x[23]);
    assert(s24 == TomlScan { mode: TomlMode::Value, ..s23 });
    lemma_scan_cons_at(s24, x, 24);
    let s25 = toml_step(s24, x[24]);
    assert(s25 == s24);
    lemma_scan_cons_at(s25, x, 25);
    let s26 = toml_step(s25, x[25]);
    assert(s26 == TomlScan { mode: TomlMode::QuoteB1, ..s25 });
    assert(x.skip(26) =~= Seq::<char>::empty());
    assert(toml_scan_from(s26, Seq::<char>::empty()) == s26);
    assert(toml_scan_from(s, x) == s26);

    // The escaped name, then the closing quote and newline.
    lemma_scan_append(s26, toml_escaped(name), p2);
    assert(p2.len() == 2);
    assert(p2 =~= seq![p2[0], p2[1]]);
    if name.len() == 0 {
        assert(toml_scan_from(s26, toml_escaped(name)) == s26);
        lemma_scan_two(s26, '"', '\n');
        assert(toml_scan_from(s26, p2) == block_end_state());
    } else {
        lemma_escaped_from_quote(s26, name);
        let v = TomlScan { mode: TomlMode::ValueBasic, ..s26 };
        lemma_scan_two(v, '"', '\n');
        assert(toml_scan_from(v, p2) == block_end_state());
    }
}

/// Injecting into a TOML-shaped document yields a TOML-shaped document
/// that carries the tool's table, and injecting a second time changes
/// nothing: metadata injection is idempotent. Content that is not
/// TOML-shaped is refused before injection, so nothing holds of it
/// here.
pub proof fn lemma_metadata_injection_idempotent(content: Seq<char>, name: Seq<char>)
    requires
        toml_doc_ok(content),
    ensures
        toml_doc_ok(with_metadata(content, name)),
        toml_has_araki(with_metadata(content, name)),
        with_metadata(with_metadata(content, name), name) == with_metadata(content, name),
{
    if toml_has_araki(content) {
    } else {
        let s = toml_scan_from(scan_init(), content);
        lemma_scan_append(scan_init(), content, metadata_block(name));
        lemma_scan_block(s, name);
        let c2 = content + metadata_block(name);
        assert(toml_scan_from(scan_init(), c2) == block_end_state());
        assert(toml_final(c2) == toml_step(block_end_state(), '\n'));
        assert(toml_final(c2) == block_end_state());
    }
}

} // verus!
