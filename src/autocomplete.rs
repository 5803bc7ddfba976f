//! What the line editor offers while a command is typed: completions of the
//! command words and section names, and a hint for a few partial commands.

use vstd::prelude::*;
use vstd::string::*;
use vstd::utf8::*;
use crate::text::{chars_of, has_prefix, window_is, window_starts_with};

verus! {

/// The command words, in the order they are offered.
pub open spec fn command_words() -> Seq<Seq<char>> {
    seq![
        "fetch appointments"@,
        "attend appointment"@,
        "register complaint"@,
        "register physical exam"@,
        "register diagnostic hypothesis"@,
        "prescribe"@,
        "request"@,
        "referral"@,
        "commit encounter"@,
        "exit"@,
    ]
}

/// The section names, in the order they are offered.
pub open spec fn section_words() -> Seq<Seq<char>> {
    seq!["complaint"@, "physical exam"@, "diagnostic hypothesis"@]
}

/// The words of `ws` that begin with `l`, in order.
pub open spec fn words_with_prefix(ws: Seq<Seq<char>>, l: Seq<char>) -> Seq<Seq<char>>
    decreases ws.len(),
{
    if ws.len() == 0 {
        Seq::empty()
    } else if has_prefix(ws.last(), l) {
        words_with_prefix(ws.drop_last(), l).push(ws.last())
    } else {
        words_with_prefix(ws.drop_last(), l)
    }
}

/// Each word of `ws` behind `register `.
pub open spec fn register_commands(ws: Seq<Seq<char>>) -> Seq<Seq<char>> {
    ws.map_values(|w: Seq<char>| "register "@ + w)
}

/// `s` without every leading copy of `p`.
pub open spec fn strip_all(s: Seq<char>, p: Seq<char>) -> Seq<char>
    decreases s.len(),
{
    if p.len() > 0 && has_prefix(s, p) {
        strip_all(s.skip(p.len() as int), p)
    } else {
        s
    }
}

/// Where the completion starts in the typed line, and its candidates, for the
/// lower-cased text `l` before the cursor.
pub open spec fn completion(l: Seq<char>) -> (int, Seq<Seq<char>>) {
    let reg = "register "@;
    if l.len() == 0 {
        (0, command_words())
    } else if has_prefix(l, reg) {
        if l.len() <= reg.len() {
            (reg.len() as int, register_commands(section_words()))
        } else {
            let c = words_with_prefix(section_words(), strip_all(l, reg));
            if c.len() > 0 {
                (reg.len() as int, register_commands(c))
            } else {
                (0, Seq::empty())
            }
        }
    } else if has_prefix(l, "attend appointment "@) {
        (0, Seq::empty())
    } else {
        (0, words_with_prefix(command_words(), l))
    }
}

/// `r` is the start and the candidates that [`completion`] gives for `l`.
pub open spec fn completion_is(r: (usize, Vec<String>), l: Seq<char>) -> bool {
    r.0 == completion(l).0 && r.1@.map_values(|s: String| s@) == completion(l).1
}

/// The hint shown after the text `line`, if there is one.
pub open spec fn hint_spec(line: Seq<char>) -> Option<Seq<char>> {
    if line == "fetch"@ {
        Some(" appointments"@)
    } else if line == "commit"@ {
        Some(" encounter"@)
    } else if line == "register "@ {
        Some("complaint|physical exam|diagnostic hypothesis"@)
    } else if line == "attend "@ {
        Some("appointment <number>"@)
    } else {
        None
    }
}

pub uninterp spec fn lower_of(s: Seq<char>) -> Seq<char>;

/// Relies on `str::to_lowercase`: the result depends on the characters alone.
#[verifier::external_body]
fn lowercase(s: &str) -> (r: String)
    ensures
        r@ == lower_of(s@),
{
    s.to_lowercase()
}

fn command_list() -> (r: Vec<&'static str>)
    ensures
        r@.map_values(|s: &str| s@) == command_words(),
{
    let r = vec![
        "fetch appointments",
        "attend appointment",
        "register complaint",
        "register physical exam",
        "register diagnostic hypothesis",
        "prescribe",
        "request",
        "referral",
        "commit encounter",
        "exit",
    ];
    assert(r@.map_values(|s: &str| s@) =~= command_words());
    r
}

fn section_list() -> (r: Vec<&'static str>)
    ensures
        r@.map_values(|s: &str| s@) == section_words(),
{
    let r = vec!["complaint", "physical exam", "diagnostic hypothesis"];
    assert(r@.map_values(|s: &str| s@) =~= section_words());
    r
}

/// The words of `ws` that begin with `l`, each behind `register ` when
/// `register` is set.
fn select(ws: &Vec<&'static str>, l: &str, register: bool) -> (r: Vec<String>)
    ensures
        ({
            let chosen = words_with_prefix(ws@.map_values(|s: &str| s@), l@);
            r@.map_values(|s: String| s@) == if register {
                register_commands(chosen)
            } else {
                chosen
            }
        }),
{
    let lc = chars_of(l);
    let mut out: Vec<String> = Vec::new();
    let mut i: usize = 0;
    while i < ws.len()
        invariant
            i <= ws@.len(),
            lc@ == l@,
            ({
                let chosen = words_with_prefix(ws@.map_values(|s: &str| s@).take(i as int), l@);
                out@.map_values(|s: String| s@) == if register {
                    register_commands(chosen)
                } else {
                    chosen
                }
            }),
        decreases ws@.len() - i,
    {
        let w = ws[i];
        let wc = chars_of(w);
        let ghost all = ws@.map_values(|s: &str| s@);
        assert(all.take(i + 1).drop_last() =~= all.take(i as int));
        assert(all.take(i + 1).last() == w@);
        let keep = lc.len() <= wc.len() && window_is(&wc, 0, lc.len(), l);
        assert(wc@.subrange(0, lc@.len() as int) == wc@.take(lc@.len() as int));
        if keep {
            let text = if register {
                let mut t = String::from_str("register ");
                t.append(w);
                t
            } else {
                String::from_str(w)
            };
            let ghost before = out@;
            out.push(text);
            assert(out@.map_values(|s: String| s@) =~= before.map_values(|s: String| s@).push(
                text@,
            ));
        }
        i = i + 1;
    }
    assert(ws@.map_values(|s: &str| s@).take(ws@.len() as int) =~= ws@.map_values(|s: &str| s@));
    out
}

fn strip_prefixes(c: &Vec<char>, p: &str) -> (r: usize)
    ensures
        r <= c@.len(),
        c@.skip(r as int) == strip_all(c@, p@),
{
    let n = p.unicode_len();
    let mut k: usize = 0;
    assert(c@.skip(0) =~= c@);
    while n > 0 && window_starts_with(c, k, c.len(), p)
        invariant
            n == p@.len(),
            k <= c@.len(),
            strip_all(c@.skip(k as int), p@) == strip_all(c@, p@),
        decreases c@.len() - k,
    {
        assert(c@.subrange(k as int, c@.len() as int) == c@.skip(k as int));
        assert(c@.skip(k as int).skip(n as int) =~= c@.skip(k + n));
        k = k + n;
    }
    assert(c@.subrange(k as int, c@.len() as int) == c@.skip(k as int));
    k
}

fn no_candidates() -> (r: Vec<String>)
    ensures
        r@.map_values(|s: String| s@) == Seq::<Seq<char>>::empty(),
{
    let r: Vec<String> = Vec::new();
    assert(r@.map_values(|s: String| s@) =~= Seq::<Seq<char>>::empty());
    r
}

/// The completion for the lower-cased text `l` before the cursor.
pub fn completions_for(l: &str) -> (r: (usize, Vec<String>))
    ensures
        completion_is(r, l@),
{
    let lc = chars_of(l);
    let n = lc.len();
    let reg = "register ";
    let reg_len = reg.unicode_len();
    if n == 0 {
        let all = command_list();
        let mut out: Vec<String> = Vec::new();
        let mut i: usize = 0;
        while i < all.len()
            invariant
                i <= all@.len(),
                out@.map_values(|s: String| s@) == all@.map_values(|s: &str| s@).take(i as int),
            decreases all@.len() - i,
        {
            let ghost before = out@;
            let text = String::from_str(all[i]);
            out.push(text);
            assert(out@.map_values(|s: String| s@) =~= before.map_values(|s: String| s@).push(
                text@,
            ));
            assert(out@.map_values(|s: String| s@) =~= all@.map_values(|s: &str| s@).take(
                i + 1,
            ));
            i = i + 1;
        }
        assert(all@.map_values(|s: &str| s@).take(all@.len() as int) =~= all@.map_values(
            |s: &str| s@,
        ));
        return (0, out);
    }
    assert(lc@.subrange(0, n as int) =~= l@);
    if window_starts_with(&lc, 0, n, reg) {
        let sections = section_list();
        if n <= reg_len {
            let all = select(&sections, "", true);
            proof {
                let ws = sections@.map_values(|s: &str| s@);
                assert forall|j: int| 0 <= j <= ws.len() implies words_with_prefix(
                    #[trigger] ws.take(j),
                    ""@,
                ) == ws.take(j) by {
                    lemma_all_have_empty_prefix(ws, j);
                }
                assert(ws.take(ws.len() as int) =~= ws);
            }
            return (reg_len, all);
        }
        let k = strip_prefixes(&lc, reg);
        let rest = l.substring_char(k, n);
        assert(l@.subrange(k as int, n as int) =~= lc@.skip(k as int));
        assert(rest@ == strip_all(l@, reg@));
        let chosen = select(&sections, rest, true);
        let ghost c = words_with_prefix(section_words(), strip_all(l@, reg@));
        assert(chosen@.map_values(|s: String| s@).len() == chosen@.len());
        assert(register_commands(c).len() == c.len());
        if chosen.len() > 0 {
            return (reg_len, chosen);
        }
        return (0, no_candidates());
    }
    if window_starts_with(&lc, 0, n, "attend appointment ") {
        return (0, no_candidates());
    }
    let commands = command_list();
    let chosen = select(&commands, l, false);
    (0, chosen)
}

proof fn lemma_all_have_empty_prefix(ws: Seq<Seq<char>>, j: int)
    requires
        0 <= j <= ws.len(),
    ensures
        words_with_prefix(ws.take(j), ""@) == ws.take(j),
    decreases j,
{
    reveal_strlit("");
    if j > 0 {
        lemma_all_have_empty_prefix(ws, j - 1);
        assert(ws.take(j).drop_last() =~= ws.take(j - 1));
        assert(ws.take(j).last().take(0) =~= ""@);
        assert(has_prefix(ws.take(j).last(), ""@));
        assert(ws.take(j - 1).push(ws.take(j).last()) =~= ws.take(j));
    }
}

/// The editor's completion helper: completions and hints for the command
/// language.
pub struct MedicalDSLHelper {}

impl MedicalDSLHelper {
    pub fn new() -> Self {
        MedicalDSLHelper {  }
    }

    /// The completion for the first `pos` bytes of `line`, compared without
    /// regard to case.
    pub fn complete(&self, line: &str, pos: usize) -> (r: (usize, Vec<String>))
        requires
            is_char_boundary(line.spec_bytes(), pos as int),
        ensures
            completion_is(r, lower_of(decode_utf8(line.spec_bytes().subrange(0, pos as int)))),
    {
        let (head, _) = line.split_at(pos);
        proof {
            encode_utf8_decode_utf8(head@);
        }
        let lowered = lowercase(head);
        completions_for(lowered.as_str())
    }

    /// The hint for the text `line`.
    pub fn hint(&self, line: &str) -> (r: Option<String>)
        ensures
            match hint_spec(line@) {
                Some(h) => r is Some && r->0@ == h,
                None => r is None,
            },
    {
        let c = chars_of(line);
        let n = c.len();
        assert(c@.subrange(0, n as int) =~= line@);
        if window_is(&c, 0, n, "fetch") {
            Some(String::from_str(" appointments"))
        } else if window_is(&c, 0, n, "commit") {
            Some(String::from_str(" encounter"))
        } else if window_is(&c, 0, n, "register ") {
            Some(String::from_str("complaint|physical exam|diagnostic hypothesis"))
        } else if window_is(&c, 0, n, "attend ") {
            Some(String::from_str("appointment <number>"))
        } else {
            None
        }
    }

    /// `hint` as the editor shows it: in bold blue.
    pub fn highlight_hint(&self, hint: &str) -> (r: String)
        ensures
            r@ == "\x1b[1;34m"@ + hint@ + "\x1b[m"@,
    {
        let mut r = String::from_str("\x1b[1;34m");
        r.append(hint);
        r.append("\x1b[m");
        r
    }
}

} // verus!
