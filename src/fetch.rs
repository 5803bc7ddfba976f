//! The narrow `fetch` grammar of the HTTP endpoint, and the decisions taken
//! around reading its data source.

use vstd::prelude::*;
use vstd::string::*;
use crate::text::{chars_of, is_space, is_space_char};

verus! {

/// The whitespace-separated words of `s`, in order.
pub open spec fn words(s: Seq<char>) -> Seq<Seq<char>>
    decreases s.len(),
{
    if s.len() == 0 {
        Seq::empty()
    } else {
        let w = words(s.drop_last());
        let c = s.last();
        if is_space(c) {
            w
        } else if s.len() >= 2 && !is_space(s[s.len() - 2]) {
            w.update(w.len() - 1, w.last().push(c))
        } else {
            w.push(seq![c])
        }
    }
}

/// The view of an optional text.
pub open spec fn opt_view(o: Option<String>) -> Option<Seq<char>> {
    match o {
        Some(s) => Some(s@),
        None => None,
    }
}

/// The timeframe and source named by the words of `ws` from position `i` on,
/// given those named before: `from <source>` names the source, any other word
/// the timeframe, and a later one replaces an earlier one.
pub open spec fn scan_options(
    ws: Seq<Seq<char>>,
    i: int,
    tf: Option<Seq<char>>,
    src: Option<Seq<char>>,
) -> Result<(Option<Seq<char>>, Option<Seq<char>>), Seq<char>>
    decreases ws.len() - i,
{
    if i >= ws.len() || i < 0 {
        Ok((tf, src))
    } else if ws[i] == "from"@ {
        if i + 1 < ws.len() {
            scan_options(ws, i + 2, tf, Some(ws[i + 1]))
        } else {
            Err("Invalid 'from' clause"@)
        }
    } else {
        scan_options(ws, i + 1, Some(ws[i]), src)
    }
}

/// A parsed `fetch <entity> [timeframe] [from <source>]` request.
pub struct FetchRequest {
    pub entity: String,
    pub timeframe: Option<String>,
    pub source: Option<String>,
}

/// What the command `c` asks for, or why it is refused.
pub open spec fn fetch_spec(c: Seq<char>) -> Result<
    (Seq<char>, Option<Seq<char>>, Option<Seq<char>>),
    Seq<char>,
> {
    let ws = words(c);
    if ws.len() < 2 || ws[0] != "fetch"@ {
        Err("Invalid command"@)
    } else {
        match scan_options(ws, 2, None, None) {
            Ok((tf, src)) => Ok((ws[1], tf, src)),
            Err(e) => Err(e),
        }
    }
}

/// `spans` bounds, within `c[..end]`, the words `ws` one by one.
pub open spec fn spans_are(spans: Seq<(usize, usize)>, c: Seq<char>, ws: Seq<Seq<char>>, end: int) -> bool {
    &&& spans.len() == ws.len()
    &&& end <= c.len()
    &&& forall|j: int|
        0 <= j < spans.len() ==> (#[trigger] spans[j]).0 <= spans[j].1 <= end && c.subrange(
            spans[j].0 as int,
            spans[j].1 as int,
        ) == ws[j]
}

/// The bounds of the words of `c`, in order.
fn word_spans(c: &Vec<char>) -> (r: Vec<(usize, usize)>)
    ensures
        spans_are(r@, c@, words(c@), c@.len() as int),
{
    let mut spans: Vec<(usize, usize)> = Vec::new();
    let n = c.len();
    let mut i: usize = 0;
    while i < n
        invariant
            n == c@.len(),
            i <= n,
            spans_are(spans@, c@, words(c@.take(i as int)), i as int),
            i > 0 && !is_space(c@[i - 1]) ==> spans@.len() > 0 && spans@.last().1 == i,
        decreases n - i,
    {
        let ch = c[i];
        let ghost t = c@.take(i + 1);
        assert(t.drop_last() =~= c@.take(i as int));
        assert(t.last() == ch);
        if is_space_char(ch) {
        } else if i > 0 && !is_space_char(c[i - 1]) {
            assert(t[t.len() - 2] == c@[i - 1]);
            let last = spans.len() - 1;
            let start = spans[last].0;
            assert(spans@[last as int] == (start, i));
            let ghost before = spans@;
            spans.set(last, (start, i + 1));
            assert(forall|j: int| 0 <= j < last ==> #[trigger] spans@[j] == before[j]);
            assert(c@.subrange(start as int, i + 1) =~= c@.subrange(start as int, i as int).push(
                ch,
            ));
        } else {
            if i > 0 {
                assert(t[t.len() - 2] == c@[i - 1]);
            }
            let ghost before = spans@;
            spans.push((i, i + 1));
            assert(forall|j: int| 0 <= j < before.len() ==> #[trigger] spans@[j] == before[j]);
            assert(c@.subrange(i as int, i + 1) =~= seq![ch]);
        }
        i = i + 1;
    }
    assert(c@.take(n as int) =~= c@);
    spans
}

/// The whitespace-separated words of `s`.
pub fn split_words(s: &str) -> (r: Vec<String>)
    ensures
        r@.map_values(|w: String| w@) == words(s@),
{
    let c = chars_of(s);
    let spans = word_spans(&c);
    let mut out: Vec<String> = Vec::new();
    let mut j: usize = 0;
    while j < spans.len()
        invariant
            c@ == s@,
            j <= spans@.len(),
            spans_are(spans@, c@, words(c@), c@.len() as int),
            out@.map_values(|w: String| w@) == words(c@).take(j as int),
        decreases spans@.len() - j,
    {
        let (a, b) = spans[j];
        assert(spans@[j as int] == (a, b));
        let w = String::from_str(s.substring_char(a, b));
        let ghost before = out@;
        out.push(w);
        assert(out@.map_values(|w: String| w@) =~= before.map_values(|w: String| w@).push(w@));
        assert(words(c@).take(j + 1) =~= words(c@).take(j as int).push(words(c@)[j as int]));
        j = j + 1;
    }
    assert(words(c@).take(spans@.len() as int) =~= words(c@));
    out
}

/// Parses a `fetch` request of the HTTP endpoint.
pub fn parse_fetch_command(command: &str) -> (r: Result<FetchRequest, String>)
    ensures
        match fetch_spec(command@) {
            Ok((entity, tf, src)) => r is Ok && r->Ok_0.entity@ == entity && opt_view(
                r->Ok_0.timeframe,
            ) == tf && opt_view(r->Ok_0.source) == src,
            Err(e) => r is Err && r->Err_0@ == e,
        },
{
    let parts = split_words(command);
    let ghost ws = words(command@);
    assert(parts@.len() == ws.len());
    assert(forall|k: int| 0 <= k < parts@.len() ==> #[trigger] parts@[k]@ == ws[k]) by {
        assert(forall|k: int| 0 <= k < parts@.len() ==> parts@.map_values(|w: String| w@)[k]
            == #[trigger] parts@[k]@);
    }
    let fetch = String::from_str("fetch");
    if parts.len() < 2 || parts[0] != fetch {
        return Err(String::from_str("Invalid command"));
    }
    let from = String::from_str("from");
    let mut timeframe: Option<String> = None;
    let mut source: Option<String> = None;
    let mut i: usize = 2;
    while i < parts.len()
        invariant
            2 <= i,
            parts@.len() == ws.len(),
            forall|k: int| 0 <= k < parts@.len() ==> #[trigger] parts@[k]@ == ws[k],
            from@ == "from"@,
            ws.len() >= 2 && ws[0] == "fetch"@,
            ws == words(command@),
            scan_options(ws, i as int, opt_view(timeframe), opt_view(source)) == scan_options(
                ws,
                2,
                None,
                None,
            ),
        decreases parts@.len() - i,
    {
        if parts[i] == from {
            if i + 1 < parts.len() {
                source = Some(parts[i + 1].clone());
                i = i + 2;
            } else {
                assert(ws[i as int] == "from"@);
                return Err(String::from_str("Invalid 'from' clause"));
            }
        } else {
            timeframe = Some(parts[i].clone());
            i = i + 1;
        }
    }
    Ok(FetchRequest { entity: parts[1].clone(), timeframe, source })
}

/// Where the data of `entity` is read from, when no source is named; the
/// refusal otherwise, or for an entity that has no data.
pub fn fetch_data_path(entity: &str, source: Option<&str>) -> (r: Result<String, String>)
    ensures
        match source {
            Some(_) => r is Err && r->Err_0@ == "Specific source not yet implemented"@,
            None => if entity@ == "appointments"@ {
                r is Ok && r->Ok_0@ == "sources/appointments.json"@
            } else {
                r is Err && r->Err_0@ == "Data not found for entity: "@ + entity@
            },
        },
{
    match source {
        Some(_) => Err(String::from_str("Specific source not yet implemented")),
        None => {
            if String::from_str(entity) == String::from_str("appointments") {
                Ok(String::from_str("sources/appointments.json"))
            } else {
                let mut e = String::from_str("Data not found for entity: ");
                e.append(entity);
                Err(e)
            }
        },
    }
}

/// Only the timeframe `day`, or none, can be served.
pub fn check_timeframe(timeframe: Option<&str>) -> (r: Result<(), String>)
    ensures
        match timeframe {
            Some(tf) => if tf@ == "day"@ {
                r is Ok
            } else {
                r is Err && r->Err_0@ == "Timeframe filtering not implemented"@
            },
            None => r is Ok,
        },
{
    match timeframe {
        Some(tf) => {
            if String::from_str(tf) == String::from_str("day") {
                Ok(())
            } else {
                Err(String::from_str("Timeframe filtering not implemented"))
            }
        },
        None => Ok(()),
    }
}

} // verus!
