//! The recognizer that turns one line of input into a [`Command`].

use vstd::prelude::*;
use vstd::string::*;
use crate::command::{Command, CommandView};
use crate::text::{chars_of, has_prefix, trim, trim_bounds, window_is, window_starts_with};

verus! {

/// Every character of `s` is an ASCII decimal digit.
pub open spec fn all_digits(s: Seq<char>) -> bool {
    forall|i: int| 0 <= i < s.len() ==> 48 <= (#[trigger] s[i] as u32) <= 57
}

/// The number that the decimal digits `s` denote.
pub open spec fn digits_value(s: Seq<char>) -> int
    decreases s.len(),
{
    if s.len() == 0 {
        0
    } else {
        digits_value(s.drop_last()) * 10 + ((s.last() as u32) as int - 48)
    }
}

/// `s` holds no line feed.
pub open spec fn no_line_feed(s: Seq<char>) -> bool {
    forall|i: int| 0 <= i < s.len() ==> #[trigger] s[i] != '\n'
}

/// The appointment number of a trimmed line `attend appointment <digits>`,
/// where the digits denote a value that fits in `usize`.
pub open spec fn attend_number(t: Seq<char>) -> Option<usize> {
    let p = "attend appointment "@;
    let rest = t.skip(p.len() as int);
    if has_prefix(t, p) && rest.len() > 0 && all_digits(rest) && digits_value(rest)
        <= usize::MAX {
        Some(digits_value(rest) as usize)
    } else {
        None
    }
}

/// The text of a trimmed line made of the opening `p` (which ends in a double
/// quote), a non-empty text without line feeds, and a closing double quote.
pub open spec fn quoted_payload(t: Seq<char>, p: Seq<char>) -> Option<Seq<char>> {
    if has_prefix(t, p) && t.len() >= p.len() + 2 && t.last() == '"' && no_line_feed(
        t.subrange(p.len() as int, t.len() - 1),
    ) {
        Some(t.subrange(p.len() as int, t.len() - 1))
    } else {
        None
    }
}

/// The command that a line denotes; the first rule that matches wins.
pub open spec fn parse_spec(line: Seq<char>) -> CommandView {
    let t = trim(line);
    if t == "fetch appointments"@ {
        CommandView::FetchAppointments
    } else if t == "commit encounter"@ {
        CommandView::CommitEncounter
    } else if attend_number(t) is Some {
        CommandView::AttendAppointment(attend_number(t)->0)
    } else if quoted_payload(t, "register complaint \""@) is Some {
        CommandView::RegisterSection {
            section: "complaint"@,
            details: quoted_payload(t, "register complaint \""@)->0,
        }
    } else if quoted_payload(t, "register physical exam \""@) is Some {
        CommandView::RegisterSection {
            section: "physical exam"@,
            details: quoted_payload(t, "register physical exam \""@)->0,
        }
    } else if quoted_payload(t, "register diagnostic hypothesis \""@) is Some {
        CommandView::RegisterSection {
            section: "diagnostic hypothesis"@,
            details: quoted_payload(t, "register diagnostic hypothesis \""@)->0,
        }
    } else if quoted_payload(t, "prescribe \""@) is Some {
        CommandView::Prescribe(quoted_payload(t, "prescribe \""@)->0)
    } else if quoted_payload(t, "request \""@) is Some {
        CommandView::Request(quoted_payload(t, "request \""@)->0)
    } else if quoted_payload(t, "referral \""@) is Some {
        CommandView::Referral(quoted_payload(t, "referral \""@)->0)
    } else {
        CommandView::Unknown(t)
    }
}

proof fn lemma_digits_grow(s: Seq<char>, k: int)
    requires
        all_digits(s),
        0 <= k <= s.len(),
    ensures
        0 <= digits_value(s.take(k)) <= digits_value(s),
    decreases s.len(),
{
    if k == s.len() {
        assert(s.take(k) =~= s);
        if s.len() > 0 {
            lemma_digits_grow(s.drop_last(), k - 1);
            assert(s.drop_last().take(k - 1) =~= s.drop_last());
            assert(48 <= (s[s.len() - 1] as u32));
        }
    } else {
        lemma_digits_grow(s.drop_last(), k);
        assert(s.drop_last().take(k) =~= s.take(k));
        assert(48 <= (s[s.len() - 1] as u32));
    }
}

/// The value of the digits `c[from..to]`, if they are one or more ASCII digits
/// whose value fits in `usize`.
fn parse_digits(c: &Vec<char>, from: usize, to: usize) -> (r: Option<usize>)
    requires
        from <= to <= c@.len(),
    ensures
        ({
            let w = c@.subrange(from as int, to as int);
            r == if w.len() > 0 && all_digits(w) && digits_value(w) <= usize::MAX {
                Some(digits_value(w) as usize)
            } else {
                None
            }
        }),
{
    let ghost w = c@.subrange(from as int, to as int);
    if from == to {
        return None;
    }
    let mut value: usize = 0;
    let mut i: usize = from;
    assert(w.take(0) =~= Seq::<char>::empty());
    while i < to
        invariant
            from <= i <= to <= c@.len(),
            w == c@.subrange(from as int, to as int),
            all_digits(w.take(i - from)),
            value as int == digits_value(w.take(i - from)),
        decreases to - i,
    {
        let d = c[i] as u32;
        if d < 48 || d > 57 {
            assert(w[i - from] == c@[i as int]);
            return None;
        }
        let d = (d - 48) as usize;
        assert(w.take(i + 1 - from).drop_last() =~= w.take(i - from));
        if value > (usize::MAX - d) / 10 {
            proof {
                if all_digits(w) {
                    lemma_digits_grow(w, i + 1 - from);
                }
            }
            return None;
        }
        value = value * 10 + d;
        i = i + 1;
    }
    assert(w.take(to - from) =~= w);
    Some(value)
}

/// The bounds of the quoted text of the window `c[a..b]` under
/// [`quoted_payload`] with the opening `p`.
fn quoted_in(c: &Vec<char>, a: usize, b: usize, p: &str) -> (r: Option<(usize, usize)>)
    requires
        a <= b <= c@.len(),
    ensures
        ({
            let q = quoted_payload(c@.subrange(a as int, b as int), p@);
            match r {
                Some((x, y)) => q is Some && x <= y <= c@.len() && c@.subrange(x as int, y as int)
                    == q->0,
                None => q is None,
            }
        }),
{
    let ghost t = c@.subrange(a as int, b as int);
    if !window_starts_with(c, a, b, p) {
        return None;
    }
    let n = p.unicode_len();
    if b - a - n < 2 || c[b - 1] != '"' {
        return None;
    }
    let x = a + n;
    let y = b - 1;
    let mut i: usize = x;
    while i < y
        invariant
            a + n == x <= i <= y < b <= c@.len(),
            n == p@.len(),
            t == c@.subrange(a as int, b as int),
            y == b - 1,
            forall|j: int| x <= j < i ==> c@[j] != '\n',
        decreases y - i,
    {
        if c[i] == '\n' {
            assert(t.subrange(n as int, t.len() - 1)[i - x] == '\n');
            return None;
        }
        i = i + 1;
    }
    assert(t.subrange(n as int, t.len() - 1) =~= c@.subrange(x as int, y as int));
    Some((x, y))
}

/// Recognises one line of input. Never fails: a line that no rule matches
/// comes back, trimmed, as `Command::Unknown`.
pub fn parse(input: &str) -> (r: Command)
    ensures
        r@ == parse_spec(input@),
{
    let c = chars_of(input);
    let (a, b) = trim_bounds(&c);
    let ghost t = c@.subrange(a as int, b as int);
    if window_is(&c, a, b, "fetch appointments") {
        return Command::FetchAppointments;
    }
    if window_is(&c, a, b, "commit encounter") {
        return Command::CommitEncounter;
    }
    if window_starts_with(&c, a, b, "attend appointment ") {
        let n = "attend appointment ".unicode_len();
        assert(c@.subrange((a + n) as int, b as int) =~= t.skip(n as int));
        if let Some(v) = parse_digits(&c, a + n, b) {
            return Command::AttendAppointment(v);
        }
    }
    if let Some((x, y)) = quoted_in(&c, a, b, "register complaint \"") {
        return Command::RegisterSection {
            section: String::from_str("complaint"),
            details: String::from_str(input.substring_char(x, y)),
        };
    }
    if let Some((x, y)) = quoted_in(&c, a, b, "register physical exam \"") {
        return Command::RegisterSection {
            section: String::from_str("physical exam"),
            details: String::from_str(input.substring_char(x, y)),
        };
    }
    if let Some((x, y)) = quoted_in(&c, a, b, "register diagnostic hypothesis \"") {
        return Command::RegisterSection {
            section: String::from_str("diagnostic hypothesis"),
            details: String::from_str(input.substring_char(x, y)),
        };
    }
    if let Some((x, y)) = quoted_in(&c, a, b, "prescribe \"") {
        return Command::Prescribe(String::from_str(input.substring_char(x, y)));
    }
    if let Some((x, y)) = quoted_in(&c, a, b, "request \"") {
        return Command::Request(String::from_str(input.substring_char(x, y)));
    }
    if let Some((x, y)) = quoted_in(&c, a, b, "referral \"") {
        return Command::Referral(String::from_str(input.substring_char(x, y)));
    }
    Command::Unknown(String::from_str(input.substring_char(a, b)))
}

} // verus!
