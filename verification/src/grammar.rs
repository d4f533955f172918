//! The grammar of a todo.txt line, written as specification functions over
//! `Seq<char>`. These functions are the single authoritative description of
//! what the parser returns; the executable engine is proved against them.
//!
//! A line is read in a fixed positional order: completion flag, priority,
//! completion date, creation date, then the tail. The tail becomes the
//! entry's `text` verbatim and is re-walked token by token to extract
//! context tags, project tags and `key:value` pairs.

use vstd::prelude::*;

use crate::Date;
use crate::DateKind;
use crate::ParseWarning;
use crate::ParseWarningKind;

verus! {

/// Specification-level image of a `PairTag`.
#[verifier::ext_equal]
pub ghost struct PairView {
    pub key: Seq<char>,
    pub value: Seq<char>,
}

/// Specification-level image of a `Todo`.
#[verifier::ext_equal]
pub ghost struct TodoView {
    pub is_completed: bool,
    pub priority: Option<u8>,
    pub date_completed: Option<Date>,
    pub date_creation: Option<Date>,
    pub text: Seq<char>,
    pub context_tags: Seq<Seq<char>>,
    pub project_tags: Seq<Seq<char>>,
    pub pair_tags: Seq<PairView>,
    pub warnings: Seq<ParseWarning>,
}

/// Everything the tail scanner yields: the three tag sequences and the
/// warnings, each in left-to-right order of the tokens that produced them.
#[verifier::ext_equal]
pub ghost struct ScanYield {
    pub contexts: Seq<Seq<char>>,
    pub projects: Seq<Seq<char>>,
    pub pairs: Seq<PairView>,
    pub warnings: Seq<ParseWarning>,
}

impl ScanYield {
    pub open spec fn empty() -> ScanYield {
        ScanYield {
            contexts: Seq::empty(),
            projects: Seq::empty(),
            pairs: Seq::empty(),
            warnings: Seq::empty(),
        }
    }

    pub open spec fn join(self, other: ScanYield) -> ScanYield {
        ScanYield {
            contexts: self.contexts + other.contexts,
            projects: self.projects + other.projects,
            pairs: self.pairs + other.pairs,
            warnings: self.warnings + other.warnings,
        }
    }
}

/// Whitespace as the grammar sees it: a space or a tab. Line breaks never
/// occur inside a line, since the driver splits on them first.
pub open spec fn is_ws(c: char) -> bool {
    c == ' ' || c == '\t'
}

/// An ASCII decimal digit, `'0'` through `'9'`.
pub open spec fn is_digit(c: char) -> bool {
    48 <= c as u32 <= 57
}

/// An uppercase ASCII letter, `'A'` through `'Z'`.
pub open spec fn is_upper(c: char) -> bool {
    65 <= c as u32 <= 90
}

/// The first position at or after `from` holding character `c`, or the length
/// of `s` if there is none.
pub open spec fn find_char_from(s: Seq<char>, from: int, c: char) -> int
    decreases s.len() - from,
{
    if from < 0 || from >= s.len() {
        s.len() as int
    } else if s[from] == c {
        from
    } else {
        find_char_from(s, from + 1, c)
    }
}

/// The first whitespace position at or after `from`, or the length of `s`:
/// the end of the token that starts at `from`.
pub open spec fn token_end(s: Seq<char>, from: int) -> int
    decreases s.len() - from,
{
    if from < 0 || from >= s.len() {
        s.len() as int
    } else if is_ws(s[from]) {
        from
    } else {
        token_end(s, from + 1)
    }
}

pub proof fn lemma_find_char_from(s: Seq<char>, from: int, c: char)
    requires
        0 <= from <= s.len(),
    ensures
        from <= find_char_from(s, from, c) <= s.len(),
        find_char_from(s, from, c) < s.len() ==> s[find_char_from(s, from, c)] == c,
        forall|k: int| from <= k < find_char_from(s, from, c) ==> s[k] != c,
    decreases s.len() - from,
{
    if from < s.len() && s[from] != c {
        lemma_find_char_from(s, from + 1, c);
    }
}

pub proof fn lemma_token_end(s: Seq<char>, from: int)
    requires
        0 <= from <= s.len(),
    ensures
        from <= token_end(s, from) <= s.len(),
        token_end(s, from) < s.len() ==> is_ws(s[token_end(s, from)]),
        forall|k: int| from <= k < token_end(s, from) ==> !is_ws(s[k]),
        from < s.len() && !is_ws(s[from]) ==> token_end(s, from) > from,
    decreases s.len() - from,
{
    if from < s.len() && !is_ws(s[from]) {
        lemma_token_end(s, from + 1);
    }
}

/// The completion flag: a lowercase `x` at the start of the line, followed by
/// one whitespace character. An `x` followed by anything else is an ordinary
/// word, and an uppercase `X` is never a flag.
pub open spec fn flag_at(line: Seq<char>) -> bool {
    line.len() >= 2 && line[0] == 'x' && is_ws(line[1])
}

/// How many characters the completion flag consumed: the `x` and its
/// following whitespace character, or nothing.
pub open spec fn after_flag(line: Seq<char>) -> int {
    if flag_at(line) {
        2int
    } else {
        0int
    }
}

/// The priority token at position `i`: `(`, one uppercase ASCII letter, `)`,
/// then one whitespace character. Anything else — a lowercase letter, a
/// digit, a symbol, or no trailing whitespace — is not a priority and is left
/// unconsumed for the tail.
pub open spec fn prio_at(line: Seq<char>, i: int) -> bool {
    &&& i + 4 <= line.len()
    &&& line[i] == '('
    &&& is_upper(line[i + 1])
    &&& line[i + 2] == ')'
    &&& is_ws(line[i + 3])
}

/// The priority value of the letter inside the parentheses: `A` is 0, `Z` is
/// 25.
pub open spec fn prio_val(line: Seq<char>, i: int) -> u8 {
    ((line[i + 1] as u32) - 65) as u8
}

/// Where the date fields begin: after the completion flag and the priority,
/// whichever of the two matched.
pub open spec fn dates_start(line: Seq<char>) -> int {
    after_flag(line) + if prio_at(line, after_flag(line)) {
        4int
    } else {
        0int
    }
}

/// The numeric value of the digit at position `j`.
pub open spec fn digit_val(line: Seq<char>, j: int) -> int {
    (line[j] as u32) - 48
}

/// All eight digit positions of a `DDDD-DD-DD` candidate at `i` hold digits.
pub open spec fn date_digits_at(line: Seq<char>, i: int) -> bool {
    &&& is_digit(line[i])
    &&& is_digit(line[i + 1])
    &&& is_digit(line[i + 2])
    &&& is_digit(line[i + 3])
    &&& is_digit(line[i + 5])
    &&& is_digit(line[i + 6])
    &&& is_digit(line[i + 8])
    &&& is_digit(line[i + 9])
}

/// A date token at position `i`: exactly `DDDD-DD-DD` followed by one
/// whitespace character, which is consumed with it. A date at the very end
/// of the line is not consumed as a date; it stays in the tail.
pub open spec fn date_at(line: Seq<char>, i: int) -> bool {
    &&& i + 11 <= line.len()
    &&& line[i + 4] == '-'
    &&& line[i + 7] == '-'
    &&& date_digits_at(line, i)
    &&& is_ws(line[i + 10])
}

/// A ten-character token at `i` with the dashes of a date in the right
/// places, bounded by whitespace or the line end. When such a candidate is
/// not all digits it is reported as malformed and falls through to the tail.
pub open spec fn date_shape_at(line: Seq<char>, i: int) -> bool {
    &&& i + 10 <= line.len()
    &&& !is_ws(line[i])
    &&& !is_ws(line[i + 1])
    &&& !is_ws(line[i + 2])
    &&& !is_ws(line[i + 3])
    &&& line[i + 4] == '-'
    &&& !is_ws(line[i + 5])
    &&& !is_ws(line[i + 6])
    &&& line[i + 7] == '-'
    &&& !is_ws(line[i + 8])
    &&& !is_ws(line[i + 9])
    &&& (i + 10 == line.len() || is_ws(line[i + 10]))
}

/// A date-shaped candidate whose digit positions are not all digits.
pub open spec fn malformed_date_at(line: Seq<char>, i: int) -> bool {
    date_shape_at(line, i) && !date_digits_at(line, i)
}

/// The date value of a well-formed date token at `i`, each group read as an
/// unsigned decimal number. No range check is applied to the groups.
pub open spec fn date_value(line: Seq<char>, i: int) -> Date {
    Date {
        year: (digit_val(line, i) * 1000 + digit_val(line, i + 1) * 100 + digit_val(line, i + 2)
            * 10 + digit_val(line, i + 3)) as u16,
        month: (digit_val(line, i + 5) * 10 + digit_val(line, i + 6)) as u8,
        day: (digit_val(line, i + 8) * 10 + digit_val(line, i + 9)) as u8,
    }
}

/// Whether the first date field is present. The first date of a line is its
/// completion date, whether or not the line is marked completed; a lone date
/// therefore lands in `date_completed`.
pub open spec fn has_date_completed(line: Seq<char>) -> bool {
    date_at(line, dates_start(line))
}

/// Whether the second date field is present; it is only looked for when the
/// first one matched, and it is the creation date.
pub open spec fn has_date_creation(line: Seq<char>) -> bool {
    has_date_completed(line) && date_at(line, dates_start(line) + 11)
}

/// Where the tail text begins: after the flag, the priority and the dates.
pub open spec fn text_start(line: Seq<char>) -> int {
    dates_start(line) + (if has_date_completed(line) {
        11int
    } else {
        0int
    }) + (if has_date_creation(line) {
        11int
    } else {
        0int
    })
}

/// The tail of the line: everything from `text_start` to the end, verbatim.
/// This exact substring becomes the entry's `text`.
pub open spec fn line_text(line: Seq<char>) -> Seq<char> {
    line.subrange(text_start(line), line.len() as int)
}

/// Offsets are stored as 32-bit values in `ParseWarning`; a warning is only
/// recorded when its end offset can be represented.
pub open spec fn span_fits(end: int) -> bool {
    end <= u32::MAX
}

/// A warning over the half-open character range `[lo, hi)` of the line.
pub open spec fn warn_over(lo: int, hi: int, kind: ParseWarningKind) -> ParseWarning {
    ParseWarning { text_span: (lo as u32, hi as u32), char: None, kind }
}

/// The diagnostics of the date fields: a malformed candidate in the slot
/// where the next date was looked for is reported, once, with the slot's
/// kind. A malformed candidate is never consumed.
pub open spec fn date_warnings(line: Seq<char>) -> Seq<ParseWarning> {
    let ds = dates_start(line);
    if !has_date_completed(line) {
        if malformed_date_at(line, ds) && span_fits(ds + 10) {
            seq![warn_over(ds, ds + 10, ParseWarningKind::MalformedDate(DateKind::Completed))]
        } else {
            Seq::empty()
        }
    } else if !has_date_creation(line) {
        if malformed_date_at(line, ds + 11) && span_fits(ds + 21) {
            seq![
                warn_over(ds + 11, ds + 21, ParseWarningKind::MalformedDate(DateKind::Creation)),
            ]
        } else {
            Seq::empty()
        }
    } else {
        Seq::empty()
    }
}

/// What one tail token contributes. The token occupies `[j, e)` of the tail
/// `t`; `base` is the position of the tail within the original line, used
/// only for warning spans.
///
/// - a token starting with `@` is a context tag whose value is the rest of
///   the token; with an empty rest it is an orphan prefix and only warns;
/// - a token starting with `+` is the same for project tags;
/// - a token that is preceded by whitespace (not the very start of the tail)
///   and contains exactly one `:`, with text on both sides, is a
///   `key:value` pair; with an empty value it is an orphan key and warns.
pub open spec fn token_yield(t: Seq<char>, base: int, j: int, e: int) -> ScanYield {
    if t[j] == '@' {
        if e > j + 1 {
            ScanYield { contexts: seq![t.subrange(j + 1, e)], ..ScanYield::empty() }
        } else if span_fits(base + e) {
            ScanYield {
                warnings: seq![
                    warn_over(base + j, base + e, ParseWarningKind::OrphanContextTag),
                ],
                ..ScanYield::empty()
            }
        } else {
            ScanYield::empty()
        }
    } else if t[j] == '+' {
        if e > j + 1 {
            ScanYield { projects: seq![t.subrange(j + 1, e)], ..ScanYield::empty() }
        } else if span_fits(base + e) {
            ScanYield {
                warnings: seq![
                    warn_over(base + j, base + e, ParseWarningKind::OrphanProjectTag),
                ],
                ..ScanYield::empty()
            }
        } else {
            ScanYield::empty()
        }
    } else {
        let f = find_char_from(t, j, ':');
        if j > 0 && j < f && f < e && find_char_from(t, f + 1, ':') >= e {
            if f + 1 < e {
                ScanYield {
                    pairs: seq![
                        PairView { key: t.subrange(j, f), value: t.subrange(f + 1, e) },
                    ],
                    ..ScanYield::empty()
                }
            } else if span_fits(base + e) {
                ScanYield {
                    warnings: seq![
                        warn_over(base + j, base + e, ParseWarningKind::OrphanPairTagKey),
                    ],
                    ..ScanYield::empty()
                }
            } else {
                ScanYield::empty()
            }
        } else {
            ScanYield::empty()
        }
    }
}

/// The tail scan from position `j`: skip whitespace, classify each token,
/// and concatenate the contributions in left-to-right order.
pub open spec fn scan_from(t: Seq<char>, base: int, j: int) -> ScanYield
    decreases t.len() - j,
    via scan_from_decreases
{
    if j < 0 || j >= t.len() {
        ScanYield::empty()
    } else if is_ws(t[j]) {
        scan_from(t, base, j + 1)
    } else {
        token_yield(t, base, j, token_end(t, j)).join(scan_from(t, base, token_end(t, j)))
    }
}

#[via_fn]
proof fn scan_from_decreases(t: Seq<char>, base: int, j: int) {
    if 0 <= j < t.len() && !is_ws(t[j]) {
        lemma_token_end(t, j);
    }
}

/// The complete reading of one line, every field at once.
pub open spec fn line_view(line: Seq<char>) -> TodoView {
    let scan = scan_from(line_text(line), text_start(line), 0);
    TodoView {
        is_completed: flag_at(line),
        priority: if prio_at(line, after_flag(line)) {
            Some(prio_val(line, after_flag(line)))
        } else {
            None
        },
        date_completed: if has_date_completed(line) {
            Some(date_value(line, dates_start(line)))
        } else {
            None
        },
        date_creation: if has_date_creation(line) {
            Some(date_value(line, dates_start(line) + 11))
        } else {
            None
        },
        text: line_text(line),
        context_tags: scan.contexts,
        project_tags: scan.projects,
        pair_tags: scan.pairs,
        warnings: date_warnings(line) + scan.warnings,
    }
}

/// The lines of `s` from position `i` on, split exactly as `str::lines`
/// does: lines end at `\n`, a `\r` directly before the `\n` is stripped, and
/// a final terminator produces no extra empty line.
pub open spec fn split_lines_from(s: Seq<char>, i: int) -> Seq<Seq<char>>
    decreases s.len() - i,
    via split_lines_from_decreases
{
    if i < 0 || i >= s.len() {
        Seq::empty()
    } else {
        let e = find_char_from(s, i, '\n');
        let one = if e < s.len() && e - 1 >= i && s[e - 1] == '\r' {
            s.subrange(i, e - 1)
        } else {
            s.subrange(i, e)
        };
        let nxt = if e < s.len() {
            e + 1
        } else {
            s.len() as int
        };
        seq![one] + split_lines_from(s, nxt)
    }
}

#[via_fn]
proof fn split_lines_from_decreases(s: Seq<char>, i: int) {
    if 0 <= i < s.len() {
        lemma_find_char_from(s, i, '\n');
    }
}

/// The lines of the whole buffer. The empty buffer has no lines.
pub open spec fn split_lines(s: Seq<char>) -> Seq<Seq<char>> {
    split_lines_from(s, 0)
}

} // verus!
