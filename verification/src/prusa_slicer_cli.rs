//! The slicer's command-line file layout and the parser for its report.
//!
//! A sliced model leaves a report whose lines of interest are an
//! estimated-time line, `; estimated printing time (normal mode) = ` followed
//! by optional hour and minute components and a seconds component, and a
//! material line, `; filament used [mm] = ` followed by an integer.  The
//! grammar of both lines is defined here as spec functions and the parser is
//! proved against them.  Where a line matches but its value does not fit
//! `u32`, the parser reports the match without a value rather than failing
//! the process.

use crate::global_types::{EvaluatedPrintingParameters, PrintMaterialType};
use crate::text::{digit_value, has_prefix, is_digit_char, str_has_prefix};
use vstd::prelude::*;

verus! {

/// The marker that opens an estimated-time line.
pub open spec fn time_line_prefix() -> Seq<char> {
    "; estimated printing time (normal mode) = "@
}

/// The marker that opens a material-consumption line.
pub open spec fn material_line_prefix() -> Seq<char> {
    "; filament used [mm] = "@
}

/// The length of the run of digits that opens `s`.
pub open spec fn digit_run_len(s: Seq<char>) -> int
    decreases s.len(),
{
    if s.len() == 0 || !is_digit_char(s[0]) {
        0
    } else {
        1 + digit_run_len(s.drop_first())
    }
}

/// The value of a digit string, most significant digit first.
pub open spec fn digits_value(s: Seq<char>) -> int
    decreases s.len(),
{
    if s.len() == 0 {
        0
    } else {
        10 * digits_value(s.drop_last()) + digit_value(s.last())
    }
}

/// The digit run of `s` is exactly `k` long when its first `k` characters
/// are digits and the next one, if any, is not.
pub proof fn lemma_digit_run_len_of(t: Seq<char>, k: int)
    requires
        0 <= k <= t.len(),
        forall|j: int| 0 <= j < k ==> is_digit_char(#[trigger] t[j]),
        k == t.len() || !is_digit_char(t[k]),
    ensures
        digit_run_len(t) == k,
    decreases t.len(),
{
    if k == 0 {
    } else {
        assert(is_digit_char(t[0]));
        assert forall|j: int| 0 <= j < k - 1 implies is_digit_char(#[trigger] t.drop_first()[j]) by {
            assert(t[j + 1] == t.drop_first()[j]);
            assert(is_digit_char(t[j + 1]));
        }
        assert(k - 1 == t.drop_first().len() || !is_digit_char(t.drop_first()[k - 1]));
        lemma_digit_run_len_of(t.drop_first(), k - 1);
    }
}

/// A digit string's value is non-negative.
pub proof fn lemma_digits_value_nonneg(t: Seq<char>)
    requires
        forall|j: int| 0 <= j < t.len() ==> is_digit_char(#[trigger] t[j]),
    ensures
        digits_value(t) >= 0,
    decreases t.len(),
{
    if t.len() > 0 {
        assert forall|j: int| 0 <= j < t.drop_last().len() implies is_digit_char(
            #[trigger] t.drop_last()[j]) by {
            assert(t.drop_last()[j] == t[j]);
        }
        lemma_digits_value_nonneg(t.drop_last());
        assert(is_digit_char(t.last()));
    }
}

/// Whether `c` is a decimal digit.
pub fn is_digit(c: char) -> (r: bool)
    ensures
        r == is_digit_char(c),
{
    let code = c as u32;
    48 <= code && code <= 57
}

/// Scans the run of digits starting at `start`: returns the index one past
/// the run, and the run's value when it fits `u32`.  A run longer than the
/// largest `u32` yields no value; an empty run yields zero.
fn scan_digit_run(s: &str, start: usize) -> (res: (usize, Option<u32>))
    requires
        start <= s@.len(),
    ensures
        ({
            let t = s@.skip(start as int);
            let run = digit_run_len(t);
            let val = digits_value(t.take(run));
            &&& res.0 - start == run
            &&& start <= res.0 <= s@.len()
            &&& match res.1 {
                Some(v) => val <= u32::MAX as int && v as int == val,
                None => val > u32::MAX as int,
            }
        }),
{
    let len = s.unicode_len();
    let mut i: usize = start;
    let mut acc: u32 = 0;
    let mut overflow = false;
    proof {
        assert(s@.subrange(start as int, start as int) =~= Seq::<char>::empty());
    }
    while i < len && is_digit(s.get_char(i))
        invariant
            start <= i <= len,
            len == s@.len(),
            forall|j: int| start <= j < i ==> is_digit_char(#[trigger] s@[j]),
            !overflow ==> acc as int == digits_value(s@.subrange(start as int, i as int)),
            overflow ==> digits_value(s@.subrange(start as int, i as int)) > u32::MAX as int,
        decreases len - i,
    {
        let c = s.get_char(i);
        let d: u32 = c as u32 - 48;
        let ghost prev = s@.subrange(start as int, i as int);
        proof {
            assert(s@.subrange(start as int, i + 1).drop_last() =~= prev);
            assert(s@.subrange(start as int, i + 1).last() == s@[i as int]);
            lemma_digits_value_nonneg(prev);
        }
        if !overflow {
            let next: u64 = acc as u64 * 10 + d as u64;
            if next > u32::MAX as u64 {
                overflow = true;
            } else {
                acc = next as u32;
            }
        }
        i += 1;
    }
    proof {
        let t = s@.skip(start as int);
        assert forall|j: int| 0 <= j < i - start implies is_digit_char(#[trigger] t[j]) by {
            assert(t[j] == s@[j + start]);
            assert(is_digit_char(s@[j + start]));
        }
        if i < len {
            assert(t[i - start] == s@[i as int]);
        }
        lemma_digit_run_len_of(t, i - start);
        assert(t.take(i - start) =~= s@.subrange(start as int, i as int));
    }
    if overflow {
        (i, None)
    } else {
        (i, Some(acc))
    }
}

/// The seconds component closing a time line: one digit run followed by
/// exactly `s`.
pub open spec fn spec_sec_part(t: Seq<char>) -> Option<int> {
    let n = digit_run_len(t);
    if n == 0 {
        None
    } else if t.skip(n) == seq!['s'] {
        Some(digits_value(t.take(n)))
    } else {
        None
    }
}

/// The optional minutes component with the seconds component: a digit run
/// followed by `m `, then the seconds component; or the seconds component
/// alone, with zero minutes.
pub open spec fn spec_min_sec_part(t: Seq<char>) -> Option<(int, int)> {
    let n = digit_run_len(t);
    if n == 0 {
        None
    } else if t.skip(n).len() >= 2 && t.skip(n)[0] == 'm' && t.skip(n)[1] == ' ' {
        match spec_sec_part(t.skip(n + 2)) {
            Some(sec) => Some((digits_value(t.take(n)), sec)),
            None => None,
        }
    } else {
        match spec_sec_part(t) {
            Some(sec) => Some((0, sec)),
            None => None,
        }
    }
}

/// The body of a time line: an optional hours component (a digit run
/// followed by `h `), then minutes and seconds.  The value is the total in
/// seconds.
pub open spec fn spec_time_body(t: Seq<char>) -> Option<int> {
    let n = digit_run_len(t);
    if n == 0 {
        None
    } else if t.skip(n).len() >= 2 && t.skip(n)[0] == 'h' && t.skip(n)[1] == ' ' {
        match spec_min_sec_part(t.skip(n + 2)) {
            Some(ms) => Some(3600 * digits_value(t.take(n)) + 60 * ms.0 + ms.1),
            None => None,
        }
    } else {
        match spec_min_sec_part(t) {
            Some(ms) => Some(60 * ms.0 + ms.1),
            None => None,
        }
    }
}

/// The estimated time of a report line in seconds: the line must carry the
/// time marker and a well-formed time body.
pub open spec fn spec_time_line_value(line: Seq<char>) -> Option<int> {
    if has_prefix(line, time_line_prefix()) {
        spec_time_body(line.skip(time_line_prefix().len() as int))
    } else {
        None
    }
}

/// The material consumption of a report line in millimetres: the line must
/// carry the material marker immediately followed by at least one digit;
/// what follows the digit run is ignored.
pub open spec fn spec_material_line_value(line: Seq<char>) -> Option<int> {
    if has_prefix(line, material_line_prefix()) {
        let body = line.skip(material_line_prefix().len() as int);
        let n = digit_run_len(body);
        if n >= 1 {
            Some(digits_value(body.take(n)))
        } else {
            None
        }
    } else {
        None
    }
}

/// The value of the digit run opening `t` is non-negative.
pub proof fn lemma_run_value_nonneg(t: Seq<char>)
    ensures
        digits_value(t.take(digit_run_len(t))) >= 0,
{
    lemma_digit_run_len_bound(t);
    lemma_digit_run_is_digits(t, digit_run_len(t));
    lemma_digits_value_nonneg(t.take(digit_run_len(t)));
}

/// A digit run is no longer than its sequence.
pub proof fn lemma_digit_run_len_bound(t: Seq<char>)
    ensures
        0 <= digit_run_len(t) <= t.len(),
    decreases t.len(),
{
    if t.len() > 0 && is_digit_char(t[0]) {
        lemma_digit_run_len_bound(t.drop_first());
    }
}

/// A matched seconds component has a non-negative value.
pub proof fn lemma_sec_part_nonneg(t: Seq<char>)
    ensures
        spec_sec_part(t) matches Some(v) ==> v >= 0,
{
    lemma_run_value_nonneg(t);
}

/// A matched minutes-and-seconds component has non-negative values.
pub proof fn lemma_min_sec_part_nonneg(t: Seq<char>)
    ensures
        spec_min_sec_part(t) matches Some(ms) ==> ms.0 >= 0 && ms.1 >= 0,
{
    lemma_run_value_nonneg(t);
    let n = digit_run_len(t);
    lemma_sec_part_nonneg(t.skip(n + 2));
    lemma_sec_part_nonneg(t);
}

/// A matched time body totals a non-negative number of seconds.
pub proof fn lemma_time_body_nonneg(t: Seq<char>)
    ensures
        spec_time_body(t) matches Some(v) ==> v >= 0,
{
    lemma_run_value_nonneg(t);
    let n = digit_run_len(t);
    lemma_min_sec_part_nonneg(t.skip(n + 2));
    lemma_min_sec_part_nonneg(t);
}

/// Parses the seconds component at `start`.  `None`: no match; `Some(None)`:
/// a match whose value exceeds `u32`; `Some(Some(v))`: the value.
fn parse_sec_part(s: &str, start: usize) -> (r: Option<Option<u32>>)
    requires
        start <= s@.len(),
    ensures
        match spec_sec_part(s@.skip(start as int)) {
            None => r is None,
            Some(v) => r matches Some(inner) && (if v <= u32::MAX as int {
                inner == Some(v as u32)
            } else {
                inner is None
            }),
        },
{
    let ghost t = s@.skip(start as int);
    let len = s.unicode_len();
    let (end, val) = scan_digit_run(s, start);
    proof {
        assert(t.take(end - start) =~= s@.subrange(start as int, end as int));
    }
    if end == start {
        return None;
    }
    if len - end == 1 && s.get_char(end) == 's' {
        proof {
            assert(t.skip(end - start) =~= seq!['s']) by {
                assert(t.skip(end - start).len() == 1);
                assert(t.skip(end - start)[0] == s@[end as int]);
            }
        }
        Some(val)
    } else {
        proof {
            let rest = t.skip(end - start);
            if end == len {
                assert(rest.len() == 0);
            } else if len - end != 1 {
                assert(rest.len() >= 2);
            } else {
                assert(rest[0] == s@[end as int]);
                assert(rest[0] != 's');
            }
            assert(rest != seq!['s']);
        }
        None
    }
}

/// Parses the minutes-and-seconds components at `start`, in the same
/// convention as `parse_sec_part`.
fn parse_min_sec_part(s: &str, start: usize) -> (r: Option<(Option<u32>, Option<u32>)>)
    requires
        start <= s@.len(),
    ensures
        match spec_min_sec_part(s@.skip(start as int)) {
            None => r is None,
            Some(ms) => r matches Some(p) && (if ms.0 <= u32::MAX as int {
                p.0 == Some(ms.0 as u32)
            } else {
                p.0 is None
            }) && (if ms.1 <= u32::MAX as int {
                p.1 == Some(ms.1 as u32)
            } else {
                p.1 is None
            }),
        },
{
    let ghost t = s@.skip(start as int);
    let len = s.unicode_len();
    let (end, val) = scan_digit_run(s, start);
    proof {
        assert(t.take(end - start) =~= s@.subrange(start as int, end as int));
        assert(t.skip(end - start).len() == len - end);
        if len - end >= 2 {
            assert(t.skip(end - start)[0] == s@[end as int]);
            assert(t.skip(end - start)[1] == s@[end + 1]);
        } else if end < len {
            assert(t.skip(end - start)[0] == s@[end as int]);
        }
    }
    if end == start {
        return None;
    }
    if len - end >= 2 && s.get_char(end) == 'm' && s.get_char(end + 1) == ' ' {
        proof {
            assert(t.skip(end - start + 2) =~= s@.skip(end + 2));
        }
        match parse_sec_part(s, end + 2) {
            Some(sec) => Some((val, sec)),
            None => None,
        }
    } else {
        match parse_sec_part(s, start) {
            Some(sec) => Some((Some(0), sec)),
            None => None,
        }
    }
}

/// Parses a whole time body at `start`: the total seconds when every
/// component fits, `Some(None)` on a match whose total exceeds `u32`.
fn parse_time_body(s: &str, start: usize) -> (r: Option<Option<u32>>)
    requires
        start <= s@.len(),
    ensures
        match spec_time_body(s@.skip(start as int)) {
            None => r is None,
            Some(v) => r matches Some(inner) && (if v <= u32::MAX as int {
                inner == Some(v as u32)
            } else {
                inner is None
            }),
        },
{
    let ghost t = s@.skip(start as int);
    let len = s.unicode_len();
    let (end, val) = scan_digit_run(s, start);
    proof {
        assert(t.take(end - start) =~= s@.subrange(start as int, end as int));
        assert(t.skip(end - start).len() == len - end);
        if len - end >= 2 {
            assert(t.skip(end - start)[0] == s@[end as int]);
            assert(t.skip(end - start)[1] == s@[end + 1]);
        } else if end < len {
            assert(t.skip(end - start)[0] == s@[end as int]);
        }
    }
    if end == start {
        return None;
    }
    let ghost hours_val = digits_value(t.take(end - start));
    proof {
        lemma_digits_value_nonneg_of_run(s, start, end);
    }
    if len - end >= 2 && s.get_char(end) == 'h' && s.get_char(end + 1) == ' ' {
        proof {
            assert(t.skip(end - start + 2) =~= s@.skip(end + 2));
        }
        match parse_min_sec_part(s, end + 2) {
            Some(p) => {
                let ghost ms = spec_min_sec_part(s@.skip(end + 2))->0;
                proof {
                    lemma_min_sec_part_nonneg(s@.skip(end + 2));
                }
                let inner = combine_time(val, p.0, p.1, Ghost(hours_val), Ghost(ms.0), Ghost(ms.1));
                Some(inner)
            },
            None => None,
        }
    } else {
        match parse_min_sec_part(s, start) {
            Some(p) => {
                let ghost ms = spec_min_sec_part(t)->0;
                proof {
                    lemma_min_sec_part_nonneg(t);
                }
                let inner = combine_time(
                    Some(0),
                    p.0,
                    p.1,
                    Ghost(0int),
                    Ghost(ms.0),
                    Ghost(ms.1),
                );
                Some(inner)
            },
            None => None,
        }
    }
}

/// The value of the digit run at `start` is non-negative.
proof fn lemma_digits_value_nonneg_of_run(s: &str, start: usize, end: usize)
    requires
        start <= end <= s@.len(),
        end - start == digit_run_len(s@.skip(start as int)),
    ensures
        digits_value(s@.skip(start as int).take(end - start)) >= 0,
{
    let t = s@.skip(start as int);
    let run = t.take(end - start);
    lemma_digit_run_is_digits(t, end - start);
    lemma_digits_value_nonneg(run);
}

/// The characters of a digit run are digits.
proof fn lemma_digit_run_is_digits(t: Seq<char>, k: int)
    requires
        0 <= k <= t.len(),
        k == digit_run_len(t),
    ensures
        forall|j: int| 0 <= j < k ==> is_digit_char(#[trigger] t.take(k)[j]),
    decreases t.len(),
{
    if k > 0 {
        assert(is_digit_char(t[0]));
        lemma_digit_run_is_digits(t.drop_first(), k - 1);
        assert forall|j: int| 0 <= j < k implies is_digit_char(#[trigger] t.take(k)[j]) by {
            if j == 0 {
                assert(t.take(k)[0] == t[0]);
            } else {
                assert(t.take(k)[j] == t.drop_first().take(k - 1)[j - 1]);
                assert(is_digit_char(t.drop_first().take(k - 1)[j - 1]));
            }
        }
    }
}

/// Combines hour, minute and second components into total seconds, `None`
/// when any component or the total exceeds `u32`.
fn combine_time(
    h: Option<u32>,
    m: Option<u32>,
    sec: Option<u32>,
    Ghost(hv): Ghost<int>,
    Ghost(mv): Ghost<int>,
    Ghost(sv): Ghost<int>,
) -> (r: Option<u32>)
    requires
        hv >= 0 && mv >= 0 && sv >= 0,
        match h {
            Some(x) => x as int == hv,
            None => hv > u32::MAX as int,
        },
        match m {
            Some(x) => x as int == mv,
            None => mv > u32::MAX as int,
        },
        match sec {
            Some(x) => x as int == sv,
            None => sv > u32::MAX as int,
        },
    ensures
        ({
            let total = 3600 * hv + 60 * mv + sv;
            if total <= u32::MAX as int {
                r == Some(total as u32)
            } else {
                r is None
            }
        }),
{
    match (h, m, sec) {
        (Some(hv), Some(mv), Some(sv)) => {
            let total: u64 = 3600 * hv as u64 + 60 * mv as u64 + sv as u64;
            if total <= u32::MAX as u64 {
                Some(total as u32)
            } else {
                None
            }
        },
        _ => None,
    }
}

/// Reads the estimated time from one report line.  `None`: the line is no
/// time line; `Some(None)`: a time line whose total exceeds `u32`;
/// `Some(Some(v))`: the total in seconds.
pub fn extract_time_from_line(line: &str) -> (r: Option<Option<u32>>)
    ensures
        match spec_time_line_value(line@) {
            None => r is None,
            Some(v) => r matches Some(inner) && (if v <= u32::MAX as int {
                inner == Some(v as u32)
            } else {
                inner is None
            }),
        },
{
    let prefix = "; estimated printing time (normal mode) = ";
    if !str_has_prefix(line, prefix) {
        return None;
    }
    let plen = prefix.unicode_len();
    parse_time_body(line, plen)
}

/// Reads the material consumption from one report line.  `None`: the line
/// is no material line; `Some(None)`: a material line whose value exceeds
/// `u32`; `Some(Some(v))`: the value in millimetres.
pub fn extract_material_from_line(line: &str) -> (r: Option<Option<u32>>)
    ensures
        match spec_material_line_value(line@) {
            None => r is None,
            Some(v) => r matches Some(inner) && (if v <= u32::MAX as int {
                inner == Some(v as u32)
            } else {
                inner is None
            }),
        },
{
    let prefix = "; filament used [mm] = ";
    if !str_has_prefix(line, prefix) {
        return None;
    }
    let plen = prefix.unicode_len();
    let ghost body = line@.skip(plen as int);
    let (end, val) = scan_digit_run(line, plen);
    proof {
        assert(body.take(end - plen) =~= line@.subrange(plen as int, end as int));
    }
    if end == plen {
        None
    } else {
        Some(val)
    }
}

/// An extraction failure: the report lacked a required line, or carried one
/// whose value could not be represented.  The two fields fail distinctly.
#[derive(Clone, Copy, PartialEq, Eq, Structural, Debug)]
pub enum ExtractionError {
    /// The slicer subprocess could not be run or did not produce a report.
    SlicerFailure,
    /// No usable estimated-time line was found.
    MissingTime,
    /// No usable material-consumption line was found.
    MissingMaterial,
}

impl ExtractionError {
    /// A human-readable description of the error.
    pub open spec fn spec_message(self) -> Seq<char> {
        match self {
            ExtractionError::SlicerFailure => "Error running the slicer"@,
            ExtractionError::MissingTime => "No estimated printing time found in G-code report"@,
            ExtractionError::MissingMaterial => {
                "No filament consumption found in G-code report"@
            },
        }
    }

    /// A human-readable description of the error.
    pub fn message(&self) -> (r: &'static str)
        ensures
            r@ == self.spec_message(),
    {
        match self {
            ExtractionError::SlicerFailure => "Error running the slicer",
            ExtractionError::MissingTime => "No estimated printing time found in G-code report",
            ExtractionError::MissingMaterial => "No filament consumption found in G-code report",
        }
    }
}

/// The estimated time according to a whole report: the value of the last
/// line that matches the time grammar, if any line does.
pub open spec fn scan_last_time(lines: Seq<Seq<char>>) -> Option<int>
    decreases lines.len(),
{
    if lines.len() == 0 {
        None
    } else if spec_time_line_value(lines.last()) is Some {
        spec_time_line_value(lines.last())
    } else {
        scan_last_time(lines.drop_last())
    }
}

/// The material consumption according to a whole report: the value of the
/// last line that matches the material grammar, if any does.  A line that
/// matches the time grammar is never read as a material line.
pub open spec fn scan_last_material(lines: Seq<Seq<char>>) -> Option<int>
    decreases lines.len(),
{
    if lines.len() == 0 {
        None
    } else if spec_time_line_value(lines.last()) is Some {
        scan_last_material(lines.drop_last())
    } else if spec_material_line_value(lines.last()) is Some {
        spec_material_line_value(lines.last())
    } else {
        scan_last_material(lines.drop_last())
    }
}

/// Whether an optional value is present and representable as `u32`.
pub open spec fn fits_u32(v: Option<int>) -> bool {
    match v {
        Some(x) => 0 <= x <= u32::MAX as int,
        None => false,
    }
}

/// A matched time line's value is non-negative.
pub proof fn lemma_time_line_value_nonneg(line: Seq<char>)
    ensures
        spec_time_line_value(line) matches Some(v) ==> v >= 0,
{
    lemma_time_body_nonneg(line.skip(time_line_prefix().len() as int));
}

/// A matched material line's value is non-negative.
pub proof fn lemma_material_line_value_nonneg(line: Seq<char>)
    ensures
        spec_material_line_value(line) matches Some(v) ==> v >= 0,
{
    lemma_run_value_nonneg(line.skip(material_line_prefix().len() as int));
}

/// The report's last time value is non-negative.
pub proof fn lemma_scan_last_time_nonneg(lines: Seq<Seq<char>>)
    ensures
        scan_last_time(lines) matches Some(v) ==> v >= 0,
    decreases lines.len(),
{
    if lines.len() > 0 {
        lemma_time_line_value_nonneg(lines.last());
        lemma_scan_last_time_nonneg(lines.drop_last());
    }
}

/// The report's last material value is non-negative.
pub proof fn lemma_scan_last_material_nonneg(lines: Seq<Seq<char>>)
    ensures
        scan_last_material(lines) matches Some(v) ==> v >= 0,
    decreases lines.len(),
{
    if lines.len() > 0 {
        lemma_material_line_value_nonneg(lines.last());
        lemma_scan_last_material_nonneg(lines.drop_last());
    }
}

/// Reads the printing parameters out of a sliced report, given as its
/// lines.  Both the estimated-time line and the material line must be
/// present with representable values, each taken from the last matching
/// line; a missing or unrepresentable time fails distinctly from missing
/// material, and a missing time is reported first.
pub fn parse_gcode_report(lines: &Vec<String>, material_type: PrintMaterialType) -> (r: Result<
    EvaluatedPrintingParameters,
    ExtractionError,
>)
    ensures
        ({
            let lv = lines.deep_view();
            let t = scan_last_time(lv);
            let m = scan_last_material(lv);
            match r {
                Ok(p) => fits_u32(t) && p.time as int == t->0 && fits_u32(m) && p.material_mm as int
                    == m->0 && p.material_type == material_type,
                Err(ExtractionError::MissingTime) => !fits_u32(t),
                Err(ExtractionError::MissingMaterial) => fits_u32(t) && !fits_u32(m),
                Err(ExtractionError::SlicerFailure) => false,
            }
        }),
{
    let ghost lv = lines.deep_view();
    let n = lines.len();
    let mut i: usize = 0;
    let mut time_state: Option<Option<u32>> = None;
    let mut mat_state: Option<Option<u32>> = None;
    proof {
        assert(lv.take(0) =~= Seq::<Seq<char>>::empty());
    }
    while i < n
        invariant
            i <= n,
            n == lines@.len(),
            lv == lines.deep_view(),
            match scan_last_time(lv.take(i as int)) {
                None => time_state is None,
                Some(v) => time_state matches Some(inner) && (if v <= u32::MAX as int {
                    inner == Some(v as u32)
                } else {
                    inner is None
                }),
            },
            match scan_last_material(lv.take(i as int)) {
                None => mat_state is None,
                Some(v) => mat_state matches Some(inner) && (if v <= u32::MAX as int {
                    inner == Some(v as u32)
                } else {
                    inner is None
                }),
            },
        decreases n - i,
    {
        let line = lines[i].as_str();
        proof {
            assert(lv[i as int] == lines@[i as int]@);
            assert(lv.take(i + 1).drop_last() =~= lv.take(i as int));
            assert(lv.take(i + 1).last() == lv[i as int]);
            lemma_scan_last_time_nonneg(lv.take(i + 1));
            lemma_scan_last_material_nonneg(lv.take(i + 1));
        }
        match extract_time_from_line(line) {
            Some(inner) => {
                time_state = Some(inner);
            },
            None => {
                match extract_material_from_line(line) {
                    Some(inner) => {
                        mat_state = Some(inner);
                    },
                    None => {},
                }
            },
        }
        i += 1;
    }
    proof {
        assert(lv.take(n as int) =~= lv);
        lemma_scan_last_time_nonneg(lv);
        lemma_scan_last_material_nonneg(lv);
    }
    let time_val: Option<u32> = match time_state {
        Some(Some(v)) => Some(v),
        _ => None,
    };
    let mat_val: Option<u32> = match mat_state {
        Some(Some(v)) => Some(v),
        _ => None,
    };
    match (time_val, mat_val) {
        (Some(t), Some(m)) => Ok(
            EvaluatedPrintingParameters { time: t, material_mm: m, material_type },
        ),
        (None, _) => Err(ExtractionError::MissingTime),
        (Some(_), None) => Err(ExtractionError::MissingMaterial),
    }
}

/// The slicer's command-line file layout over a workspace directory.
pub struct PrusaSlicerCli;

impl PrusaSlicerCli {
    /// Where the fixed slicing profile lives under the workspace.
    pub fn config_file_path(ws_path: &str) -> (r: String)
        ensures
            r@ == ws_path@ + "/data_files/prusa_config.ini"@,
    {
        let mut s = String::from_str(ws_path);
        s.append("/data_files/prusa_config.ini");
        s
    }

    /// Where an uploaded model file lives, keyed by its declared name.
    pub fn received_order_path(ws_path: &str, file_name: &str) -> (r: String)
        ensures
            r@ == ws_path@ + "/data_files/received_orders/"@ + file_name@,
    {
        let mut s = String::from_str(ws_path);
        s.append("/data_files/received_orders/");
        s.append(file_name);
        s
    }

    /// Where the sliced report for a model file is written.
    pub fn processed_order_path(ws_path: &str, file_name: &str) -> (r: String)
        ensures
            r@ == ws_path@ + "/data_files/processed_orders/"@ + file_name@ + ".gcode"@,
    {
        let mut s = String::from_str(ws_path);
        s.append("/data_files/processed_orders/");
        s.append(file_name);
        s.append(".gcode");
        s
    }
}

} // verus!
