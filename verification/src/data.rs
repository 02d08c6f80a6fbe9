//! Parses a `Station` from a simple text format: `key=value` header
//! lines, then one `NAME AMPLITUDE PHASE_DEGREES` line per constituent.
//!
//! ```text
//! id=7795
//! name=Point Atkinson
//! latitude=49.337
//! longitude=-123.253
//! datum_offset=2.97363474623764
//! M2 0.9194506933296124 32.02906512929405
//! S2 0.21505422511119143 71.15042979444038
//! ```
//!
//! `#`-prefixed and blank lines are ignored anywhere. A line holding `=`
//! is a header line; unknown keys are ignored and a repeated key keeps
//! its last value. Numbers must be numerals that `f64::from_str`
//! accepts (see `crate::numeral`); the first offending line is reported.

use vstd::prelude::*;
use crate::constituent::{Constituent, ConstituentModel, constituent_numerals_ok};
use crate::numeral::{is_float_literal, is_float_literal_range};
use crate::station::{Station, StationModel, constituent_models, station_numerals_ok};
use crate::text::{
    chars_of, ends_line, find_char, first_index, has_char, lemma_lines_concat, lemma_lines_single,
    lemma_lines_terminate, lemma_trim_strip_cr, line_ranges, lines, pieces, range_is, strip_cr,
    token_ranges, tokens, trim, trim_range,
};

verus! {

#[derive(Debug, Clone, PartialEq, Eq)]
pub enum ParseStationError {
    MissingField(&'static str),
    InvalidNumber { field: &'static str, line: usize },
    InvalidConstituentLine { line: usize },
}

/// The decimal digit `d` as a character.
pub open spec fn digit_char(d: nat) -> char {
    (48 + d) as char
}

/// The decimal numeral of `n`, without leading zeros.
pub open spec fn decimal(n: nat) -> Seq<char>
    decreases n,
{
    if n < 10 {
        seq![digit_char(n)]
    } else {
        decimal(n / 10).push(digit_char(n % 10))
    }
}

/// The text describing an error.
pub open spec fn message_spec(e: ParseStationError) -> Seq<char> {
    match e {
        ParseStationError::MissingField(field) => "missing required field: "@ + field@,
        ParseStationError::InvalidNumber { field, line } => "invalid number for "@ + field@
            + " on line "@ + decimal(line as nat),
        ParseStationError::InvalidConstituentLine { line } => "invalid constituent line "@
            + decimal(line as nat) + " (expected \"NAME AMPLITUDE PHASE\")"@,
    }
}

/// The one-character text of the digit `d`.
fn digit_str(d: usize) -> (r: &'static str)
    requires
        d < 10,
    ensures
        r@ == seq![digit_char(d as nat)],
{
    proof {
        reveal_strlit("0");
        reveal_strlit("1");
        reveal_strlit("2");
        reveal_strlit("3");
        reveal_strlit("4");
        reveal_strlit("5");
        reveal_strlit("6");
        reveal_strlit("7");
        reveal_strlit("8");
        reveal_strlit("9");
    }
    let r = match d {
        0 => "0",
        1 => "1",
        2 => "2",
        3 => "3",
        4 => "4",
        5 => "5",
        6 => "6",
        7 => "7",
        8 => "8",
        _ => "9",
    };
    assert(r@ =~= seq![digit_char(d as nat)]);
    r
}

/// Appends the decimal numeral of `n` to `s`.
fn append_decimal(s: &mut String, n: usize)
    ensures
        final(s)@ == old(s)@ + decimal(n as nat),
    decreases n,
{
    if n >= 10 {
        append_decimal(s, n / 10);
    }
    s.append(digit_str(n % 10));
    assert(old(s)@ + decimal(n as nat) =~= if n >= 10 {
        old(s)@ + decimal((n / 10) as nat) + seq![digit_char((n % 10) as nat)]
    } else {
        old(s)@ + seq![digit_char((n % 10) as nat)]
    });
}

impl ParseStationError {
    /// What went wrong, in words.
    pub fn message(&self) -> (r: String)
        ensures
            r@ == message_spec(*self),
    {
        match self {
            ParseStationError::MissingField(field) => {
                let r = String::from_str("missing required field: ");
                r.concat(field)
            },
            ParseStationError::InvalidNumber { field, line } => {
                let mut r = String::from_str("invalid number for ");
                r.append(field);
                r.append(" on line ");
                append_decimal(&mut r, *line);
                r
            },
            ParseStationError::InvalidConstituentLine { line } => {
                let mut r = String::from_str("invalid constituent line ");
                append_decimal(&mut r, *line);
                r.append(" (expected \"NAME AMPLITUDE PHASE\")");
                r
            },
        }
    }
}

/// What the header lines and constituent lines read so far have given.
pub struct Header {
    pub id: Option<Seq<char>>,
    pub name: Option<Seq<char>>,
    pub latitude: Option<Seq<char>>,
    pub longitude: Option<Seq<char>>,
    pub datum_offset: Option<Seq<char>>,
    pub constituents: Seq<ConstituentModel>,
}

pub open spec fn empty_header() -> Header {
    Header {
        id: None,
        name: None,
        latitude: None,
        longitude: None,
        datum_offset: None,
        constituents: Seq::empty(),
    }
}

/// The effect of the header line `key=value` (both trimmed), numbered
/// `line_no`.
pub open spec fn header_line(h: Header, key: Seq<char>, value: Seq<char>, line_no: usize) -> Result<
    Header,
    ParseStationError,
> {
    if key == "id"@ {
        Ok(Header { id: Some(value), ..h })
    } else if key == "name"@ {
        Ok(Header { name: Some(value), ..h })
    } else if key == "latitude"@ {
        if is_float_literal(value) {
            Ok(Header { latitude: Some(value), ..h })
        } else {
            Err(ParseStationError::InvalidNumber { field: "latitude", line: line_no })
        }
    } else if key == "longitude"@ {
        if is_float_literal(value) {
            Ok(Header { longitude: Some(value), ..h })
        } else {
            Err(ParseStationError::InvalidNumber { field: "longitude", line: line_no })
        }
    } else if key == "datum_offset"@ {
        if is_float_literal(value) {
            Ok(Header { datum_offset: Some(value), ..h })
        } else {
            Err(ParseStationError::InvalidNumber { field: "datum_offset", line: line_no })
        }
    } else {
        Ok(h)
    }
}

/// The effect of the line `raw`, numbered `line_no` (from 1): that of
/// the line trimmed.
pub open spec fn parse_line(h: Header, raw: Seq<char>, line_no: usize) -> Result<
    Header,
    ParseStationError,
> {
    parse_trimmed(h, trim(raw), line_no)
}

/// The effect of the trimmed line `line`, numbered `line_no`.
pub open spec fn parse_trimmed(h: Header, line: Seq<char>, line_no: usize) -> Result<
    Header,
    ParseStationError,
> {
    if line.len() == 0 || line[0] == '#' {
        Ok(h)
    } else if has_char(line, '=') {
        let k = first_index(line, '=');
        header_line(
            h,
            trim(line.subrange(0, k)),
            trim(line.subrange(k + 1, line.len() as int)),
            line_no,
        )
    } else {
        let t = tokens(line);
        if t.len() < 3 || !is_float_literal(t[1]) || !is_float_literal(t[2]) {
            Err(ParseStationError::InvalidConstituentLine { line: line_no })
        } else {
            Ok(
                Header {
                    constituents: h.constituents.push(
                        ConstituentModel { name: t[0], amplitude: t[1], phase_degrees: t[2] },
                    ),
                    ..h
                },
            )
        }
    }
}

/// The lines `ls`, read in order; the first error ends the reading.
pub open spec fn parse_lines(ls: Seq<Seq<char>>) -> Result<Header, ParseStationError>
    decreases ls.len(),
{
    if ls.len() == 0 {
        Ok(empty_header())
    } else {
        match parse_lines(ls.drop_last()) {
            Ok(h) => parse_line(h, ls.last(), ls.len() as usize),
            Err(e) => Err(e),
        }
    }
}

/// The station a complete header describes, or the first required field
/// (in the order id, name, latitude, longitude, datum_offset) it lacks.
pub open spec fn station_of(h: Header) -> Result<StationModel, ParseStationError> {
    if h.id is None {
        Err(ParseStationError::MissingField("id"))
    } else if h.name is None {
        Err(ParseStationError::MissingField("name"))
    } else if h.latitude is None {
        Err(ParseStationError::MissingField("latitude"))
    } else if h.longitude is None {
        Err(ParseStationError::MissingField("longitude"))
    } else if h.datum_offset is None {
        Err(ParseStationError::MissingField("datum_offset"))
    } else {
        Ok(
            StationModel {
                id: h.id->0,
                name: h.name->0,
                latitude: h.latitude->0,
                longitude: h.longitude->0,
                datum_offset: h.datum_offset->0,
                constituents: h.constituents,
            },
        )
    }
}

/// What `parse_station` gives for the text `s`.
pub open spec fn parse_station_spec(s: Seq<char>) -> Result<StationModel, ParseStationError> {
    match parse_lines(lines(s)) {
        Ok(h) => station_of(h),
        Err(e) => Err(e),
    }
}

/// Once a prefix of the lines fails, the whole reading fails the same way.
pub proof fn lemma_parse_error_persists(ls: Seq<Seq<char>>, i: int)
    requires
        0 <= i <= ls.len(),
        parse_lines(ls.take(i)) is Err,
    ensures
        parse_lines(ls) == parse_lines(ls.take(i)),
    decreases ls.len() - i,
{
    if i < ls.len() {
        assert(ls.take(i + 1).drop_last() =~= ls.take(i));
        lemma_parse_error_persists(ls, i + 1);
    } else {
        assert(ls.take(i) =~= ls);
    }
}

/// A line that, once trimmed, is blank or starts with `#`.
pub open spec fn is_ignored(l: Seq<char>) -> bool {
    let t = trim(l);
    t.len() == 0 || t[0] == '#'
}

/// A line's number shows only in the error it causes.
proof fn lemma_line_number_only_in_errors(h: Header, line: Seq<char>, n1: usize, n2: usize)
    ensures
        parse_trimmed(h, line, n1) is Ok <==> parse_trimmed(h, line, n2) is Ok,
        parse_trimmed(h, line, n1) is Ok ==> parse_trimmed(h, line, n1) == parse_trimmed(
            h,
            line,
            n2,
        ),
{
}

/// The lines that count, trimmed: blank and comment lines dropped.
pub open spec fn meaningful(ls: Seq<Seq<char>>) -> Seq<Seq<char>>
    decreases ls.len(),
{
    if ls.len() == 0 {
        Seq::empty()
    } else if is_ignored(ls.last()) {
        meaningful(ls.drop_last())
    } else {
        meaningful(ls.drop_last()).push(trim(ls.last()))
    }
}

/// The header that the trimmed lines `ms` give, or `None` where one of
/// them is in error.
pub open spec fn read_meaningful(ms: Seq<Seq<char>>) -> Option<Header>
    decreases ms.len(),
{
    if ms.len() == 0 {
        Some(empty_header())
    } else {
        match read_meaningful(ms.drop_last()) {
            Some(h) => match parse_trimmed(h, ms.last(), 0) {
                Ok(h2) => Some(h2),
                Err(_) => None,
            },
            None => None,
        }
    }
}

/// Whether reading lines succeeds, and the header it gives, depend only on
/// their meaningful lines.
proof fn lemma_parse_lines_meaningful(ls: Seq<Seq<char>>)
    ensures
        parse_lines(ls) is Ok <==> read_meaningful(meaningful(ls)) is Some,
        parse_lines(ls) matches Ok(h) ==> read_meaningful(meaningful(ls)) == Some(h),
    decreases ls.len(),
{
    if ls.len() > 0 {
        let dl = ls.drop_last();
        lemma_parse_lines_meaningful(dl);
        if !is_ignored(ls.last()) {
            let m = meaningful(ls);
            assert(m.drop_last() =~= meaningful(dl));
            match parse_lines(dl) {
                Ok(h) => {
                    lemma_line_number_only_in_errors(h, trim(ls.last()), ls.len() as usize, 0);
                },
                Err(_) => {},
            }
        }
    }
}

/// The meaningful lines of two lists of lines, one after the other.
pub proof fn lemma_meaningful_concat(l1: Seq<Seq<char>>, l2: Seq<Seq<char>>)
    ensures
        meaningful(l1 + l2) == meaningful(l1) + meaningful(l2),
    decreases l2.len(),
{
    if l2.len() == 0 {
        assert(l1 + l2 =~= l1);
        assert(meaningful(l1) + meaningful(l2) =~= meaningful(l1));
    } else {
        assert((l1 + l2).drop_last() =~= l1 + l2.drop_last());
        lemma_meaningful_concat(l1, l2.drop_last());
        if !is_ignored(l2.last()) {
            assert(meaningful(l1) + meaningful(l2.drop_last()).push(trim(l2.last())) =~= (
            meaningful(l1) + meaningful(l2.drop_last())).push(trim(l2.last())));
        }
    }
}

/// Only the meaningful lines of a text count: two texts whose lines,
/// blank and comment lines dropped and the rest trimmed, agree either both
/// fail to parse or both give the same station.
pub proof fn lemma_same_meaningful_lines(t1: Seq<char>, t2: Seq<char>)
    requires
        meaningful(lines(t1)) == meaningful(lines(t2)),
    ensures
        parse_station_spec(t1) is Ok <==> parse_station_spec(t2) is Ok,
        parse_station_spec(t1) is Ok ==> parse_station_spec(t1) == parse_station_spec(t2),
{
    lemma_parse_lines_meaningful(lines(t1));
    lemma_parse_lines_meaningful(lines(t2));
}

/// Lines, each followed by its line ending.
pub open spec fn joined(cs: Seq<Seq<char>>) -> Seq<char>
    decreases cs.len(),
{
    if cs.len() == 0 {
        Seq::empty()
    } else {
        joined(cs.drop_last()) + cs.last().push('\n')
    }
}

/// Lines that are all blank or comments, none holding a line ending.
pub open spec fn ignored_lines(cs: Seq<Seq<char>>) -> bool {
    forall|k: int|
        0 <= k < cs.len() ==> is_ignored(#[trigger] cs[k]) && forall|i: int|
            0 <= i < cs[k].len() ==> cs[k][i] != '\n'
}

/// A carriage return before a line ending changes nothing once trimmed.
proof fn lemma_strip_cr_meaningful(ls: Seq<Seq<char>>, x: Seq<char>)
    ensures
        meaningful(ls.push(strip_cr(x))) == meaningful(ls.push(x)),
{
    lemma_trim_strip_cr(x);
    assert(ls.push(x).drop_last() =~= ls);
    assert(ls.push(strip_cr(x)).drop_last() =~= ls);
}

/// A single blank or comment line has no meaningful line.
proof fn lemma_meaningful_one_ignored(x: Seq<char>)
    requires
        is_ignored(x),
    ensures
        meaningful(seq![x]) == Seq::<Seq<char>>::empty(),
{
    assert(seq![x].drop_last() =~= Seq::<Seq<char>>::empty());
    assert(seq![x].last() == x);
    assert(meaningful(Seq::<Seq<char>>::empty()) == Seq::<Seq<char>>::empty());
}

/// A block of blank and comment lines ends a line and has no meaningful
/// line.
proof fn lemma_joined_ignored(cs: Seq<Seq<char>>)
    requires
        ignored_lines(cs),
    ensures
        ends_line(joined(cs)),
        meaningful(lines(joined(cs))) == Seq::<Seq<char>>::empty(),
    decreases cs.len(),
{
    if cs.len() > 0 {
        let dl = cs.drop_last();
        assert(ignored_lines(dl)) by {
            assert forall|k: int| 0 <= k < dl.len() implies is_ignored(#[trigger] dl[k])
                && forall|i: int| 0 <= i < dl[k].len() ==> dl[k][i] != '\n' by {
                assert(dl[k] == cs[k]);
            }
        }
        lemma_joined_ignored(dl);
        let c = cs.last();
        assert(is_ignored(cs[cs.len() - 1]));
        let cn = c.push('\n');
        assert(!ends_line(c) || c.len() == 0);
        lemma_lines_concat(joined(dl), cn);
        lemma_meaningful_concat(lines(joined(dl)), lines(cn));
        // The lines of `c` and its ending.
        assert(cn.drop_last() =~= c);
        lemma_lines_single(c);
        lemma_trim_strip_cr(c);
        assert(is_ignored(strip_cr(c)));
        if c.len() > 0 {
            lemma_lines_terminate(c);
            assert(lines(c) == seq![c]);
            assert(lines(c).last() == c);
            assert(lines(c).drop_last() =~= Seq::<Seq<char>>::empty());
            assert(lines(cn) =~= seq![strip_cr(c)]);
        } else {
            assert(cn =~= seq!['\n']);
            assert(pieces(cn) == pieces(Seq::<char>::empty()).push(Seq::empty()));
            assert(lines(cn) =~= seq![Seq::<char>::empty()]);
            assert(c =~= Seq::<char>::empty());
            assert(strip_cr(c) == c);
        }
        assert(lines(cn) == seq![strip_cr(c)]);
        lemma_meaningful_one_ignored(strip_cr(c));
        assert(meaningful(lines(cn)) == Seq::<Seq<char>>::empty());
        assert(meaningful(lines(joined(dl))) == Seq::<Seq<char>>::empty());
        assert(meaningful(lines(joined(dl))) + meaningful(lines(cn)) =~= Seq::<
            Seq<char>,
        >::empty());
    }
}

/// The parts of a text, one after the other.
pub open spec fn concat_all(parts: Seq<Seq<char>>) -> Seq<char>
    decreases parts.len(),
{
    if parts.len() == 0 {
        Seq::empty()
    } else {
        concat_all(parts.drop_last()) + parts.last()
    }
}

/// The parts of a text with the block of lines `blocks[i]` inserted
/// before part `i`.
pub open spec fn woven(parts: Seq<Seq<char>>, blocks: Seq<Seq<Seq<char>>>) -> Seq<char>
    decreases parts.len(),
{
    if parts.len() == 0 || blocks.len() == 0 {
        Seq::empty()
    } else {
        woven(parts.drop_last(), blocks.drop_last()) + (joined(blocks.last()) + parts.last())
    }
}

/// Parts that each end a line, or are empty.
proof fn lemma_concat_ends_line(parts: Seq<Seq<char>>)
    requires
        forall|i: int| 0 <= i < parts.len() ==> ends_line(#[trigger] parts[i]),
    ensures
        ends_line(concat_all(parts)),
    decreases parts.len(),
{
    if parts.len() > 0 {
        lemma_concat_ends_line(parts.drop_last());
        if parts.last().len() == 0 {
            assert(concat_all(parts.drop_last()) + parts.last() =~= concat_all(parts.drop_last()));
        }
    }
}

/// Inserting blocks of blank and comment lines leaves the meaningful lines
/// as they were.
proof fn lemma_woven_meaningful(parts: Seq<Seq<char>>, blocks: Seq<Seq<Seq<char>>>)
    requires
        blocks.len() == parts.len(),
        forall|i: int| 0 <= i < parts.len() - 1 ==> ends_line(#[trigger] parts[i]),
        forall|k: int| 0 <= k < blocks.len() ==> ignored_lines(#[trigger] blocks[k]),
    ensures
        meaningful(lines(woven(parts, blocks))) == meaningful(lines(concat_all(parts))),
        parts.len() > 0 && ends_line(parts.last()) ==> ends_line(woven(parts, blocks)),
        parts.len() == 0 ==> woven(parts, blocks) == Seq::<char>::empty(),
    decreases parts.len(),
{
    if parts.len() > 0 {
        let pd = parts.drop_last();
        let bd = blocks.drop_last();
        assert(forall|i: int| 0 <= i < pd.len() - 1 ==> ends_line(#[trigger] pd[i])) by {
            assert forall|i: int| 0 <= i < pd.len() - 1 implies ends_line(#[trigger] pd[i]) by {
                assert(pd[i] == parts[i]);
            }
        }
        assert(forall|k: int| 0 <= k < bd.len() ==> ignored_lines(#[trigger] bd[k])) by {
            assert forall|k: int| 0 <= k < bd.len() implies ignored_lines(#[trigger] bd[k]) by {
                assert(bd[k] == blocks[k]);
            }
        }
        lemma_woven_meaningful(pd, bd);
        let w = woven(pd, bd);
        let c = concat_all(pd);
        let j = joined(blocks.last());
        let p = parts.last();
        assert(ignored_lines(blocks[blocks.len() - 1]));
        lemma_joined_ignored(blocks.last());
        // The earlier parts end a line.
        assert(ends_line(c) && ends_line(w)) by {
            if pd.len() > 0 {
                assert(ends_line(pd.last()));
                assert(forall|i: int| 0 <= i < pd.len() ==> ends_line(#[trigger] pd[i])) by {
                    assert forall|i: int| 0 <= i < pd.len() implies ends_line(#[trigger] pd[i]) by {
                        assert(pd[i] == parts[i]);
                    }
                }
                lemma_concat_ends_line(pd);
            }
        }
        lemma_lines_concat(w, j + p);
        lemma_lines_concat(j, p);
        lemma_lines_concat(c, p);
        lemma_meaningful_concat(lines(w), lines(j) + lines(p));
        lemma_meaningful_concat(lines(j), lines(p));
        lemma_meaningful_concat(lines(c), lines(p));
        assert(Seq::<Seq<char>>::empty() + meaningful(lines(p)) =~= meaningful(lines(p)));
        if ends_line(p) {
            if p.len() == 0 {
                assert(j + p =~= j);
                assert(w + (j + p) =~= w + j);
                if w.len() == 0 {
                    assert(w + j =~= j);
                } else if j.len() > 0 {
                    assert((w + j).last() == j.last());
                }
            } else {
                assert((w + (j + p)).last() == p.last());
            }
        }
    }
}

/// Blank and comment lines are ignored anywhere in a text: inserting any
/// number of them, each with its line ending, where lines start (before
/// each part of a text cut at line starts) changes neither whether the
/// text parses nor, where it does, the station it gives.
pub proof fn lemma_ignored_lines_inserted(parts: Seq<Seq<char>>, blocks: Seq<Seq<Seq<char>>>)
    requires
        blocks.len() == parts.len(),
        forall|i: int| 0 <= i < parts.len() - 1 ==> ends_line(#[trigger] parts[i]),
        forall|k: int| 0 <= k < blocks.len() ==> ignored_lines(#[trigger] blocks[k]),
    ensures
        parse_station_spec(woven(parts, blocks)) is Ok <==> parse_station_spec(concat_all(parts))
            is Ok,
        parse_station_spec(concat_all(parts)) is Ok ==> parse_station_spec(woven(parts, blocks))
            == parse_station_spec(concat_all(parts)),
{
    lemma_woven_meaningful(parts, blocks);
    lemma_same_meaningful_lines(woven(parts, blocks), concat_all(parts));
}

/// After a last line that has no line ending, adding a line ending and
/// then blank and comment lines (the last one with or without its line
/// ending) leaves the meaningful lines as they were.
proof fn lemma_appended_meaningful(t: Seq<char>, cs: Seq<Seq<char>>, c: Seq<char>)
    requires
        !ends_line(t),
        ignored_lines(cs),
        is_ignored(c),
        forall|i: int| 0 <= i < c.len() ==> c[i] != '\n',
    ensures
        meaningful(lines(t.push('\n') + (joined(cs) + c))) == meaningful(lines(t)),
{
    let j = joined(cs);
    lemma_joined_ignored(cs);
    lemma_lines_terminate(t);
    lemma_lines_concat(t.push('\n'), j + c);
    lemma_lines_concat(j, c);
    lemma_lines_single(c);
    let ls = lines(t);
    assert(ls.drop_last().push(ls.last()) =~= ls);
    lemma_strip_cr_meaningful(ls.drop_last(), ls.last());
    lemma_meaningful_concat(lines(t.push('\n')), lines(j) + lines(c));
    lemma_meaningful_concat(lines(j), lines(c));
    if c.len() > 0 {
        lemma_meaningful_one_ignored(c);
    }
    assert(meaningful(lines(c)) =~= Seq::<Seq<char>>::empty());
    assert(lines(t.push('\n')) == ls.drop_last().push(strip_cr(ls.last())));
    assert(meaningful(lines(t.push('\n'))) == meaningful(ls));
    assert(Seq::<Seq<char>>::empty() + Seq::<Seq<char>>::empty() =~= Seq::<Seq<char>>::empty());
    assert(meaningful(ls) + Seq::<Seq<char>>::empty() =~= meaningful(ls));
}

/// Blank and comment lines added after a last line that has no line
/// ending (a line ending first, then the lines, the last one with or
/// without its own ending) change neither whether the text parses nor,
/// where it does, the station it gives.
pub proof fn lemma_ignored_lines_appended(t: Seq<char>, cs: Seq<Seq<char>>, c: Seq<char>)
    requires
        !ends_line(t),
        ignored_lines(cs),
        is_ignored(c),
        forall|i: int| 0 <= i < c.len() ==> c[i] != '\n',
    ensures
        parse_station_spec(t.push('\n') + (joined(cs) + c)) is Ok <==> parse_station_spec(t) is Ok,
        parse_station_spec(t) is Ok ==> parse_station_spec(t.push('\n') + (joined(cs) + c))
            == parse_station_spec(t),
{
    lemma_appended_meaningful(t, cs, c);
    lemma_same_meaningful_lines(t.push('\n') + (joined(cs) + c), t);
}

/// Blank and comment lines inserted anywhere: blocks before each part of
/// a text cut at line starts, and, where its last line has no line ending,
/// more after it (a line ending first). Neither whether the text parses
/// nor, where it does, the station it gives changes.
pub proof fn lemma_ignored_lines_anywhere(
    parts: Seq<Seq<char>>,
    blocks: Seq<Seq<Seq<char>>>,
    cs: Seq<Seq<char>>,
    c: Seq<char>,
)
    requires
        blocks.len() == parts.len(),
        forall|i: int| 0 <= i < parts.len() - 1 ==> ends_line(#[trigger] parts[i]),
        forall|k: int| 0 <= k < blocks.len() ==> ignored_lines(#[trigger] blocks[k]),
        !ends_line(concat_all(parts)),
        ignored_lines(cs),
        is_ignored(c),
        forall|i: int| 0 <= i < c.len() ==> c[i] != '\n',
    ensures
        ({
            let text2 = woven(parts, blocks).push('\n') + (joined(cs) + c);
            &&& parse_station_spec(text2) is Ok <==> parse_station_spec(concat_all(parts)) is Ok
            &&& parse_station_spec(concat_all(parts)) is Ok ==> parse_station_spec(text2)
                == parse_station_spec(concat_all(parts))
        }),
{
    lemma_woven_meaningful(parts, blocks);
    let p = parts.last();
    // The last part is what leaves the text without a final line ending.
    assert(parts.len() > 0);
    let pd = parts.drop_last();
    assert(forall|i: int| 0 <= i < pd.len() ==> ends_line(#[trigger] pd[i])) by {
        assert forall|i: int| 0 <= i < pd.len() implies ends_line(#[trigger] pd[i]) by {
            assert(pd[i] == parts[i]);
        }
    }
    lemma_concat_ends_line(pd);
    if p.len() == 0 {
        assert(concat_all(pd) + p =~= concat_all(pd));
    }
    assert(!ends_line(p));
    let w = woven(parts, blocks);
    assert(w == woven(pd, blocks.drop_last()) + (joined(blocks.last()) + p));
    assert(w.last() == p.last());
    lemma_appended_meaningful(w, cs, c);
    lemma_same_meaningful_lines(w.push('\n') + (joined(cs) + c), concat_all(parts));
}

/// The key of a header line: the trimmed text before its first `=`.
pub open spec fn line_key(l: Seq<char>) -> Seq<char> {
    let t = trim(l);
    trim(t.subrange(0, first_index(t, '=')))
}

/// The value of a header line: the trimmed text after its first `=`.
pub open spec fn line_value(l: Seq<char>) -> Seq<char> {
    let t = trim(l);
    trim(t.subrange(first_index(t, '=') + 1, t.len() as int))
}

/// A header line: not blank or a comment, and holding `=`.
pub open spec fn is_header(l: Seq<char>) -> bool {
    !is_ignored(l) && has_char(trim(l), '=')
}

/// The keys whose values are numbers.
pub open spec fn is_numeric_key(k: Seq<char>) -> bool {
    k == "latitude"@ || k == "longitude"@ || k == "datum_offset"@
}

/// A constituent line: not blank, a comment or a header, with at least
/// three whitespace-separated tokens, the second and third of them
/// numerals.
pub open spec fn is_constituent(l: Seq<char>) -> bool {
    let t = tokens(trim(l));
    &&& !is_ignored(l)
    &&& !has_char(trim(l), '=')
    &&& t.len() >= 3
    &&& is_float_literal(t[1])
    &&& is_float_literal(t[2])
}

/// The constituent a constituent line describes: its first three tokens,
/// whatever characters they hold.
pub open spec fn constituent_in(l: Seq<char>) -> ConstituentModel {
    let t = tokens(trim(l));
    ConstituentModel { name: t[0], amplitude: t[1], phase_degrees: t[2] }
}

/// A line the format accepts: blank or a comment, a header line (whose
/// value is a numeral where its key names a number), or a constituent
/// line.
pub open spec fn well_formed_line(l: Seq<char>) -> bool {
    ||| is_ignored(l)
    ||| is_header(l) && (is_numeric_key(line_key(l)) ==> is_float_literal(line_value(l)))
    ||| is_constituent(l)
}

/// The value of the last header line with key `key`, if any.
pub open spec fn last_value(ls: Seq<Seq<char>>, key: Seq<char>) -> Option<Seq<char>>
    decreases ls.len(),
{
    if ls.len() == 0 {
        None
    } else if is_header(ls.last()) && line_key(ls.last()) == key {
        Some(line_value(ls.last()))
    } else {
        last_value(ls.drop_last(), key)
    }
}

/// The constituents of the constituent lines, in order.
pub open spec fn constituent_lines(ls: Seq<Seq<char>>) -> Seq<ConstituentModel>
    decreases ls.len(),
{
    if ls.len() == 0 {
        Seq::empty()
    } else if is_constituent(ls.last()) {
        constituent_lines(ls.drop_last()).push(constituent_in(ls.last()))
    } else {
        constituent_lines(ls.drop_last())
    }
}

/// Reading lines succeeds exactly when every line is well formed; it then
/// gives the last value of each key and the constituent of every
/// constituent line, in order.
proof fn lemma_parse_lines_characterized(ls: Seq<Seq<char>>)
    ensures
        parse_lines(ls) is Ok <==> forall|i: int|
            0 <= i < ls.len() ==> well_formed_line(#[trigger] ls[i]),
        parse_lines(ls) matches Ok(h) ==> h == (Header {
            id: last_value(ls, "id"@),
            name: last_value(ls, "name"@),
            latitude: last_value(ls, "latitude"@),
            longitude: last_value(ls, "longitude"@),
            datum_offset: last_value(ls, "datum_offset"@),
            constituents: constituent_lines(ls),
        }),
    decreases ls.len(),
{
    reveal_strlit("id");
    reveal_strlit("name");
    reveal_strlit("latitude");
    reveal_strlit("longitude");
    reveal_strlit("datum_offset");
    if ls.len() > 0 {
        let dl = ls.drop_last();
        let l = ls.last();
        lemma_parse_lines_characterized(dl);
        assert((forall|i: int| 0 <= i < ls.len() ==> well_formed_line(#[trigger] ls[i])) <==> ((
        forall|i: int| 0 <= i < dl.len() ==> well_formed_line(#[trigger] dl[i])) && well_formed_line(
            l,
        ))) by {
            if forall|i: int| 0 <= i < dl.len() ==> well_formed_line(#[trigger] dl[i]) {
                if well_formed_line(l) {
                    assert forall|i: int| 0 <= i < ls.len() implies well_formed_line(
                        #[trigger] ls[i],
                    ) by {
                        if i < dl.len() {
                            assert(ls[i] == dl[i]);
                        }
                    }
                }
            }
            if forall|i: int| 0 <= i < ls.len() ==> well_formed_line(#[trigger] ls[i]) {
                assert(well_formed_line(ls[ls.len() - 1]));
                assert forall|i: int| 0 <= i < dl.len() implies well_formed_line(#[trigger] dl[i]) by {
                    assert(ls[i] == dl[i]);
                }
            }
        }
        assert("id"@.len() == 2 && "name"@.len() == 4);
        assert("id"@ != "name"@);
        assert("latitude"@.len() == 8 && "longitude"@.len() == 9);
        assert("latitude"@ != "longitude"@);
        assert("latitude"@ != "datum_offset"@);
        assert("longitude"@ != "datum_offset"@);
    }
}

/// What a station text gives, said line by line: it parses exactly when
/// every line is blank, a comment, a header line (a numeral where the key
/// names a number) or a constituent line (at least three tokens, the
/// second and third numerals), and each of id, name, latitude, longitude
/// and datum_offset has a header line. The station then holds the last
/// value given for each key and, in order, one constituent (its first
/// three tokens, whatever its name) for every constituent line.
pub proof fn lemma_station_text(text: Seq<char>)
    ensures
        ({
            let ls = lines(text);
            &&& parse_station_spec(text) is Ok <==> {
                &&& forall|i: int| 0 <= i < ls.len() ==> well_formed_line(#[trigger] ls[i])
                &&& last_value(ls, "id"@) is Some
                &&& last_value(ls, "name"@) is Some
                &&& last_value(ls, "latitude"@) is Some
                &&& last_value(ls, "longitude"@) is Some
                &&& last_value(ls, "datum_offset"@) is Some
            }
            &&& parse_station_spec(text) matches Ok(m) ==> m == (StationModel {
                id: last_value(ls, "id"@)->0,
                name: last_value(ls, "name"@)->0,
                latitude: last_value(ls, "latitude"@)->0,
                longitude: last_value(ls, "longitude"@)->0,
                datum_offset: last_value(ls, "datum_offset"@)->0,
                constituents: constituent_lines(ls),
            })
        }),
{
    lemma_parse_lines_characterized(lines(text));
}

/// Every number a header holds is a numeral that `f64::from_str` accepts.
pub open spec fn header_numerals_ok(h: Header) -> bool {
    &&& (h.latitude matches Some(v) ==> is_float_literal(v))
    &&& (h.longitude matches Some(v) ==> is_float_literal(v))
    &&& (h.datum_offset matches Some(v) ==> is_float_literal(v))
    &&& forall|i: int|
        0 <= i < h.constituents.len() ==> constituent_numerals_ok(#[trigger] h.constituents[i])
}

/// Reading lines keeps only numerals as numbers.
proof fn lemma_parse_lines_numerals(ls: Seq<Seq<char>>)
    ensures
        parse_lines(ls) matches Ok(h) ==> header_numerals_ok(h),
    decreases ls.len(),
{
    if ls.len() > 0 {
        lemma_parse_lines_numerals(ls.drop_last());
        match parse_lines(ls.drop_last()) {
            Ok(h) => {
                let line = trim(ls.last());
                if !(line.len() == 0 || line[0] == '#') && !has_char(line, '=') {
                    let t = tokens(line);
                    if !(t.len() < 3 || !is_float_literal(t[1]) || !is_float_literal(t[2])) {
                        let c = ConstituentModel {
                            name: t[0],
                            amplitude: t[1],
                            phase_degrees: t[2],
                        };
                        let cs = h.constituents.push(c);
                        assert forall|i: int| 0 <= i < cs.len() implies constituent_numerals_ok(
                            #[trigger] cs[i],
                        ) by {
                            if i < h.constituents.len() {
                                assert(cs[i] == h.constituents[i]);
                            }
                        }
                    }
                }
            },
            Err(_) => {},
        }
    }
}

/// A station read from a text holds only numerals as numbers.
proof fn lemma_parse_station_numerals(s: Seq<char>)
    ensures
        parse_station_spec(s) matches Ok(m) ==> station_numerals_ok(m),
{
    lemma_parse_lines_numerals(lines(s));
}

pub open spec fn opt_view(o: Option<String>) -> Option<Seq<char>> {
    match o {
        Some(s) => Some(s@),
        None => None,
    }
}

/// Parses a `Station` from the text format documented on this module.
pub fn parse_station(text: &str) -> (r: Result<Station, ParseStationError>)
    ensures
        match parse_station_spec(text@) {
            Ok(m) => r matches Ok(st) && st@ == m,
            Err(e) => r == Err::<Station, ParseStationError>(e),
        },
        r matches Ok(st) ==> station_numerals_ok(st@),
{
    proof {
        lemma_parse_station_numerals(text@);
    }
    let v = chars_of(text);
    let ranges = line_ranges(&v);
    let ghost ls = lines(v@);
    let mut id: Option<String> = None;
    let mut name: Option<String> = None;
    let mut latitude: Option<String> = None;
    let mut longitude: Option<String> = None;
    let mut datum_offset: Option<String> = None;
    let mut constituents: Vec<Constituent> = Vec::new();
    let n = ranges.len();
    assert(ls.take(0) =~= Seq::<Seq<char>>::empty());
    assert(constituent_models(constituents@) =~= Seq::<ConstituentModel>::empty());
    for i in 0..n
        invariant
            n == ranges.len() == ls.len(),
            ls == lines(v@),
            v@ == text@,
            forall|j: int|
                #![trigger ranges[j]]
                0 <= j < ranges.len() ==> ranges[j].0 <= ranges[j].1 && ranges[j].1 <= v.len(),
            forall|j: int|
                0 <= j < ranges.len() ==> v@.subrange(#[trigger] ranges[j].0 as int, ranges[j].1 as int)
                    == ls[j],
            parse_lines(ls.take(i as int)) == Ok::<Header, ParseStationError>(
                Header {
                    id: opt_view(id),
                    name: opt_view(name),
                    latitude: opt_view(latitude),
                    longitude: opt_view(longitude),
                    datum_offset: opt_view(datum_offset),
                    constituents: constituent_models(constituents@),
                },
            ),
    {
        let ghost h = Header {
            id: opt_view(id),
            name: opt_view(name),
            latitude: opt_view(latitude),
            longitude: opt_view(longitude),
            datum_offset: opt_view(datum_offset),
            constituents: constituent_models(constituents@),
        };
        let line_no = i + 1;
        assert(ls.take(i + 1).drop_last() =~= ls.take(i as int));
        assert(parse_lines(ls.take(i + 1)) == parse_line(h, ls[i as int], line_no));
        let (a, b) = trim_range(&v, ranges[i].0, ranges[i].1);
        let ghost line = v@.subrange(a as int, b as int);
        assert(line == trim(ls[i as int]));
        let skip = a == b || v[a] == '#';
        if !skip {
        match find_char(&v, a, b, '=') {
            Some(k) => {
                let (ka, kb) = trim_range(&v, a, a + k);
                let (va, vb) = trim_range(&v, a + k + 1, b);
                assert(line.subrange(0, k as int) =~= v@.subrange(a as int, a + k));
                assert(line.subrange(k + 1, line.len() as int) =~= v@.subrange(
                    a + k + 1,
                    b as int,
                ));
                let ghost key = v@.subrange(ka as int, kb as int);
                let ghost value = v@.subrange(va as int, vb as int);
                if range_is(&v, ka, kb, "id") {
                    id = Some(String::from_str(text.substring_char(va, vb)));
                } else if range_is(&v, ka, kb, "name") {
                    name = Some(String::from_str(text.substring_char(va, vb)));
                } else if range_is(&v, ka, kb, "latitude") {
                    if !is_float_literal_range(&v, va, vb) {
                        proof {
                            lemma_parse_error_persists(ls, i + 1);
                        }
                        return Err(ParseStationError::InvalidNumber { field: "latitude", line: line_no });
                    }
                    latitude = Some(String::from_str(text.substring_char(va, vb)));
                } else if range_is(&v, ka, kb, "longitude") {
                    if !is_float_literal_range(&v, va, vb) {
                        proof {
                            lemma_parse_error_persists(ls, i + 1);
                        }
                        return Err(ParseStationError::InvalidNumber { field: "longitude", line: line_no });
                    }
                    longitude = Some(String::from_str(text.substring_char(va, vb)));
                } else if range_is(&v, ka, kb, "datum_offset") {
                    if !is_float_literal_range(&v, va, vb) {
                        proof {
                            lemma_parse_error_persists(ls, i + 1);
                        }
                        return Err(ParseStationError::InvalidNumber { field: "datum_offset", line: line_no });
                    }
                    datum_offset = Some(String::from_str(text.substring_char(va, vb)));
                }
            },
            None => {
                let t = token_ranges(&v, a, b);
                if t.len() < 3 || !is_float_literal_range(&v, t[1].0, t[1].1)
                    || !is_float_literal_range(&v, t[2].0, t[2].1) {
                    proof {
                        lemma_parse_error_persists(ls, i + 1);
                    }
                    return Err(ParseStationError::InvalidConstituentLine { line: line_no });
                }
                let c = Constituent {
                    name: String::from_str(text.substring_char(t[0].0, t[0].1)),
                    amplitude: String::from_str(text.substring_char(t[1].0, t[1].1)),
                    phase_degrees: String::from_str(text.substring_char(t[2].0, t[2].1)),
                };
                let ghost old_cs = constituents@;
                constituents.push(c);
                assert(constituent_models(constituents@) =~= constituent_models(old_cs).push(c@));
            },
        }
        }
    }
    assert(ls.take(n as int) =~= ls);
    let id = match id {
        Some(s) => s,
        None => return Err(ParseStationError::MissingField("id")),
    };
    let name = match name {
        Some(s) => s,
        None => return Err(ParseStationError::MissingField("name")),
    };
    let latitude = match latitude {
        Some(s) => s,
        None => return Err(ParseStationError::MissingField("latitude")),
    };
    let longitude = match longitude {
        Some(s) => s,
        None => return Err(ParseStationError::MissingField("longitude")),
    };
    let datum_offset = match datum_offset {
        Some(s) => s,
        None => return Err(ParseStationError::MissingField("datum_offset")),
    };
    Ok(Station { id, name, latitude, longitude, datum_offset, constituents })
}

} // verus!
