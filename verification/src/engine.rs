//! The executable parsing engine, proved against the grammar: character
//! classification, token scanning, the field matchers, and the per-line and
//! whole-buffer drivers.

use vstd::prelude::*;
use vstd::string::StrSliceExecFns;

use crate::grammar;
use crate::grammar::find_char_from;
use crate::grammar::is_digit;
use crate::grammar::is_upper;
use crate::grammar::is_ws;
use crate::grammar::lemma_find_char_from;
use crate::grammar::lemma_token_end;
use crate::grammar::scan_from;
use crate::grammar::token_end;
use crate::grammar::token_yield;
use crate::grammar::ScanYield;
use crate::Date;
use crate::DateKind;
use crate::Todo;
use crate::PairTag;
use crate::ParseWarning;
use crate::ParseWarningKind;

verus! {

/// Whether `c` is grammar whitespace: a space or a tab.
fn ws_char(c: char) -> (r: bool)
    ensures
        r == is_ws(c),
{
    c == ' ' || c == '\t'
}

/// Whether `c` is an ASCII decimal digit.
fn digit_char(c: char) -> (r: bool)
    ensures
        r == is_digit(c),
{
    let u = c as u32;
    48 <= u && u <= 57
}

/// Whether `c` is an uppercase ASCII letter.
fn upper_char(c: char) -> (r: bool)
    ensures
        r == is_upper(c),
{
    let u = c as u32;
    65 <= u && u <= 90
}

/// The first position at or after `from` holding `c`, or the length of `s`.
fn find_char_from_exec(s: &str, from: usize, c: char) -> (r: usize)
    requires
        from <= s@.len(),
    ensures
        r == find_char_from(s@, from as int, c),
{
    let n = s.unicode_len();
    let mut j = from;
    while j < n
        invariant
            from <= j <= n,
            n == s@.len(),
            find_char_from(s@, from as int, c) == find_char_from(s@, j as int, c),
        decreases n - j,
    {
        if s.get_char(j) == c {
            return j;
        }
        j = j + 1;
    }
    n
}

/// The end of the token starting at `from`: the first whitespace position at
/// or after it, or the length of `s`.
fn token_end_exec(s: &str, from: usize) -> (r: usize)
    requires
        from <= s@.len(),
    ensures
        r == token_end(s@, from as int),
{
    let n = s.unicode_len();
    let mut j = from;
    while j < n
        invariant
            from <= j <= n,
            n == s@.len(),
            token_end(s@, from as int) == token_end(s@, j as int),
        decreases n - j,
    {
        if ws_char(s.get_char(j)) {
            return j;
        }
        j = j + 1;
    }
    n
}

/// Tries to read a `DDDD-DD-DD` date token (with its trailing whitespace) at
/// position `i`, returning its value when it is there.
fn try_date(s: &str, i: usize) -> (r: Option<Date>)
    requires
        i <= s@.len(),
    ensures
        r is Some <==> grammar::date_at(s@, i as int),
        r is Some ==> r->0 == grammar::date_value(s@, i as int),
{
    let n = s.unicode_len();
    if n - i < 11 {
        return None;
    }
    let c0 = s.get_char(i);
    let c1 = s.get_char(i + 1);
    let c2 = s.get_char(i + 2);
    let c3 = s.get_char(i + 3);
    let c5 = s.get_char(i + 5);
    let c6 = s.get_char(i + 6);
    let c8 = s.get_char(i + 8);
    let c9 = s.get_char(i + 9);
    let digits = digit_char(c0) && digit_char(c1) && digit_char(c2) && digit_char(c3)
        && digit_char(c5) && digit_char(c6) && digit_char(c8) && digit_char(c9);
    if !(digits && s.get_char(i + 4) == '-' && s.get_char(i + 7) == '-' && ws_char(
        s.get_char(i + 10),
    )) {
        return None;
    }
    let year = (c0 as u32 - 48) * 1000 + (c1 as u32 - 48) * 100 + (c2 as u32 - 48) * 10 + (
    c3 as u32 - 48);
    let month = (c5 as u32 - 48) * 10 + (c6 as u32 - 48);
    let day = (c8 as u32 - 48) * 10 + (c9 as u32 - 48);
    Some(Date { year: year as u16, month: month as u8, day: day as u8 })
}

/// Whether a date-shaped but not all-digit candidate stands at position `i`.
fn malformed_at(s: &str, i: usize) -> (r: bool)
    requires
        i <= s@.len(),
    ensures
        r == grammar::malformed_date_at(s@, i as int),
{
    let n = s.unicode_len();
    if n - i < 10 {
        return false;
    }
    let shape = !ws_char(s.get_char(i)) && !ws_char(s.get_char(i + 1)) && !ws_char(
        s.get_char(i + 2),
    ) && !ws_char(s.get_char(i + 3)) && s.get_char(i + 4) == '-' && !ws_char(s.get_char(i + 5))
        && !ws_char(s.get_char(i + 6)) && s.get_char(i + 7) == '-' && !ws_char(s.get_char(i + 8))
        && !ws_char(s.get_char(i + 9)) && (i + 10 == n || ws_char(s.get_char(i + 10)));
    if !shape {
        return false;
    }
    let digits = digit_char(s.get_char(i)) && digit_char(s.get_char(i + 1)) && digit_char(
        s.get_char(i + 2),
    ) && digit_char(s.get_char(i + 3)) && digit_char(s.get_char(i + 5)) && digit_char(
        s.get_char(i + 6),
    ) && digit_char(s.get_char(i + 8)) && digit_char(s.get_char(i + 9));
    !digits
}

/// Walks the tail `t` (which starts at character `base` of its line) token
/// by token and collects context tags, project tags, `key:value` pairs and
/// the scanner's warnings, in the order encountered.
fn scan_tail(t: &str, base: usize) -> (r: (Vec<String>, Vec<String>, Vec<PairTag>, Vec<
    ParseWarning,
>))
    requires
        base + t@.len() <= usize::MAX,
    ensures
        r.0.deep_view() == scan_from(t@, base as int, 0).contexts,
        r.1.deep_view() == scan_from(t@, base as int, 0).projects,
        r.2.deep_view() == scan_from(t@, base as int, 0).pairs,
        r.3@ == scan_from(t@, base as int, 0).warnings,
{
    let n = t.unicode_len();
    let mut contexts: Vec<String> = Vec::new();
    let mut projects: Vec<String> = Vec::new();
    let mut pairs: Vec<PairTag> = Vec::new();
    let mut warns: Vec<ParseWarning> = Vec::new();
    let mut j: usize = 0;
    while j < n
        invariant
            j <= n,
            n == t@.len(),
            base + n <= usize::MAX,
            scan_from(t@, base as int, 0) == (ScanYield {
                contexts: contexts.deep_view(),
                projects: projects.deep_view(),
                pairs: pairs.deep_view(),
                warnings: warns@,
            }).join(scan_from(t@, base as int, j as int)),
        decreases n - j,
    {
        let c = t.get_char(j);
        if ws_char(c) {
            j = j + 1;
        } else {
            proof {
                lemma_token_end(t@, j as int);
            }
            let e = token_end_exec(t, j);
            let ghost pre = ScanYield {
                contexts: contexts.deep_view(),
                projects: projects.deep_view(),
                pairs: pairs.deep_view(),
                warnings: warns@,
            };
            let ghost yld = token_yield(t@, base as int, j as int, e as int);
            let ghost rest = scan_from(t@, base as int, e as int);
            if c == '@' {
                if e - j >= 2 {
                    let tag = t.substring_char(j + 1, e).to_owned();
                    contexts.push(tag);
                } else if base + e <= u32::MAX as usize {
                    warns.push(
                        ParseWarning {
                            text_span: ((base + j) as u32, (base + e) as u32),
                            char: None,
                            kind: ParseWarningKind::OrphanContextTag,
                        },
                    );
                }
            } else if c == '+' {
                if e - j >= 2 {
                    let tag = t.substring_char(j + 1, e).to_owned();
                    projects.push(tag);
                } else if base + e <= u32::MAX as usize {
                    warns.push(
                        ParseWarning {
                            text_span: ((base + j) as u32, (base + e) as u32),
                            char: None,
                            kind: ParseWarningKind::OrphanProjectTag,
                        },
                    );
                }
            } else {
                let f = find_char_from_exec(t, j, ':');
                proof {
                    lemma_find_char_from(t@, j as int, ':');
                }
                if j > 0 && j < f && f < e {
                    let f2 = find_char_from_exec(t, f + 1, ':');
                    if f2 >= e {
                        if f + 1 < e {
                            let key = t.substring_char(j, f).to_owned();
                            let value = t.substring_char(f + 1, e).to_owned();
                            pairs.push(PairTag { key, value });
                        } else if base + e <= u32::MAX as usize {
                            warns.push(
                                ParseWarning {
                                    text_span: ((base + j) as u32, (base + e) as u32),
                                    char: None,
                                    kind: ParseWarningKind::OrphanPairTagKey,
                                },
                            );
                        }
                    }
                }
            }
            proof {
                let post = ScanYield {
                    contexts: contexts.deep_view(),
                    projects: projects.deep_view(),
                    pairs: pairs.deep_view(),
                    warnings: warns@,
                };
                assert(post =~= pre.join(yld));
                assert(pre.join(yld.join(rest)) =~= post.join(rest));
            }
            j = e;
        }
    }
    proof {
        let acc = ScanYield {
            contexts: contexts.deep_view(),
            projects: projects.deep_view(),
            pairs: pairs.deep_view(),
            warnings: warns@,
        };
        assert(acc.join(scan_from(t@, base as int, n as int)) =~= acc);
    }
    (contexts, projects, pairs, warns)
}

/// Parses one line: reads the prefix fields in their fixed order, keeps the
/// rest verbatim as the entry's text, and scans that tail for tags.
fn parse_line(line: &str) -> (t: Todo)
    ensures
        t@ == grammar::line_view(line@),
{
    let n = line.unicode_len();
    let is_completed = n >= 2 && line.get_char(0) == 'x' && ws_char(line.get_char(1));
    let mut i: usize = if is_completed {
        2
    } else {
        0
    };
    assert(i as int == grammar::after_flag(line@));
    let mut priority: Option<u8> = None;
    if n - i >= 4 {
        let p1 = line.get_char(i + 1);
        if line.get_char(i) == '(' && upper_char(p1) && line.get_char(i + 2) == ')' && ws_char(
            line.get_char(i + 3),
        ) {
            priority = Some((p1 as u32 - 65) as u8);
            i = i + 4;
        }
    }
    assert(i as int == grammar::dates_start(line@));
    let mut warnings: Vec<ParseWarning> = Vec::new();
    let mut date_completed: Option<Date> = None;
    let mut date_creation: Option<Date> = None;
    match try_date(line, i) {
        Some(d) => {
            date_completed = Some(d);
            i = i + 11;
            match try_date(line, i) {
                Some(d2) => {
                    date_creation = Some(d2);
                    i = i + 11;
                },
                None => {
                    if malformed_at(line, i) {
                        if i + 10 <= u32::MAX as usize {
                            warnings.push(
                                ParseWarning {
                                    text_span: (i as u32, (i + 10) as u32),
                                    char: None,
                                    kind: ParseWarningKind::MalformedDate(DateKind::Creation),
                                },
                            );
                        }
                    }
                },
            }
        },
        None => {
            if malformed_at(line, i) {
                if i + 10 <= u32::MAX as usize {
                    warnings.push(
                        ParseWarning {
                            text_span: (i as u32, (i + 10) as u32),
                            char: None,
                            kind: ParseWarningKind::MalformedDate(DateKind::Completed),
                        },
                    );
                }
            }
        },
    }
    assert(i as int == grammar::text_start(line@));
    assert(warnings@ =~= grammar::date_warnings(line@));
    let text_str = line.substring_char(i, n);
    let text = text_str.to_owned();
    let (context_tags, project_tags, pair_tags, mut tail_warns) = scan_tail(text_str, i);
    warnings.append(&mut tail_warns);
    let t = Todo {
        is_completed,
        priority,
        date_completed,
        date_creation,
        text,
        context_tags,
        project_tags,
        pair_tags,
        warnings,
    };
    assert(t@ =~= grammar::line_view(line@));
    t
}

/// Splits the buffer into lines as `str::lines` does and parses each one,
/// keeping the output aligned one slot per line.
pub(crate) fn parse_text(text: &str) -> (todos: Vec<Option<Todo>>)
    ensures
        todos@.len() == grammar::split_lines(text@).len(),
        forall|i: int|
            0 <= i < todos@.len() ==> (#[trigger] todos@[i]) is Some && todos@[i]->0@
                == grammar::line_view(grammar::split_lines(text@)[i]),
{
    let n = text.unicode_len();
    let mut todos: Vec<Option<Todo>> = Vec::new();
    let ghost mut done: Seq<Seq<char>> = Seq::empty();
    let mut i: usize = 0;
    while i < n
        invariant
            i <= n,
            n == text@.len(),
            todos@.len() == done.len(),
            grammar::split_lines(text@) == done + grammar::split_lines_from(text@, i as int),
            forall|k: int|
                0 <= k < todos@.len() ==> (#[trigger] todos@[k]) is Some && todos@[k]->0@
                    == grammar::line_view(done[k]),
        decreases n - i,
    {
        proof {
            lemma_find_char_from(text@, i as int, '\n');
        }
        let e = find_char_from_exec(text, i, '\n');
        let le = if e < n && e > i && text.get_char(e - 1) == '\r' {
            e - 1
        } else {
            e
        };
        let line_str = text.substring_char(i, le);
        let td = parse_line(line_str);
        todos.push(Some(td));
        let nxt = if e < n {
            e + 1
        } else {
            n
        };
        proof {
            let one = line_str@;
            assert(grammar::split_lines_from(text@, i as int) == seq![one]
                + grammar::split_lines_from(text@, nxt as int));
            done = done.push(one);
            assert(done + grammar::split_lines_from(text@, nxt as int) =~= grammar::split_lines(
                text@,
            ));
        }
        i = nxt;
    }
    proof {
        assert(grammar::split_lines(text@) =~= done);
    }
    todos
}

} // verus!
