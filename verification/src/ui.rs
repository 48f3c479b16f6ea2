//! What the screens display, computed from the state.
use vstd::prelude::*;
use vstd::string::StringExecFns;
use crate::ai::{COPILOT_BASE_URL, COPILOT_DEFAULT_MODEL, DEFAULT_BASE_URL, DEFAULT_MODEL};
use crate::config::{Config, ConfigView};
use crate::text::{int_decimal, nat_decimal, push_char, push_decimal, push_int_decimal};

verus! {

// ── Star counts ──────────────────────────────────────────────────────────────

/// How a star count is shown below a million: thousands as `{n / 1000}k`,
/// smaller counts in full. Counts of a million or more are shown with one
/// decimal of millions, which is a floating-point rendering and not given here.
pub open spec fn fmt_stars_spec(n: i64) -> Option<Seq<char>> {
    if n >= 1_000_000 {
        None
    } else if n >= 1_000 {
        Some(int_decimal(n / 1000) + seq!['k'])
    } else {
        Some(int_decimal(n as int))
    }
}

pub fn fmt_stars(n: i64) -> (s: Option<String>)
    ensures
        match s {
            Some(t) => fmt_stars_spec(n) == Some(t@),
            None => fmt_stars_spec(n) is None,
        },
{
    if n >= 1_000_000 {
        None
    } else if n >= 1_000 {
        let mut s = String::new();
        push_int_decimal(&mut s, n / 1000);
        push_char(&mut s, 'k');
        assert(s@ =~= int_decimal(n / 1000) + seq!['k']);
        Some(s)
    } else {
        let mut s = String::new();
        push_int_decimal(&mut s, n);
        assert(s@ =~= int_decimal(n as int));
        Some(s)
    }
}

// ── Layout ───────────────────────────────────────────────────────────────────

/// A rectangle of terminal cells.
#[derive(Clone, Copy, Debug, PartialEq, Eq, Structural)]
pub struct Rect {
    pub x: u16,
    pub y: u16,
    pub width: u16,
    pub height: u16,
}

pub open spec fn centered_rect_spec(width: u16, height: u16, area: Rect) -> Rect {
    let free_w: int = if area.width >= width { area.width - width } else { 0 };
    let free_h: int = if area.height >= height { area.height - height } else { 0 };
    Rect {
        x: (area.x + free_w / 2) as u16,
        y: (area.y + free_h / 2) as u16,
        width: if width <= area.width { width } else { area.width },
        height: if height <= area.height { height } else { area.height },
    }
}

/// A `width` x `height` rectangle centred in `area`, clipped to it.
pub fn centered_rect(width: u16, height: u16, area: Rect) -> (r: Rect)
    requires
        area.x + area.width <= u16::MAX,
        area.y + area.height <= u16::MAX,
    ensures
        r == centered_rect_spec(width, height, area),
        r.width <= area.width,
        r.height <= area.height,
        area.x <= r.x,
        r.x + r.width <= area.x + area.width,
        area.y <= r.y,
        r.y + r.height <= area.y + area.height,
{
    let free_w = if area.width >= width { area.width - width } else { 0 };
    let free_h = if area.height >= height { area.height - height } else { 0 };
    Rect {
        x: area.x + free_w / 2,
        y: area.y + free_h / 2,
        width: if width <= area.width { width } else { area.width },
        height: if height <= area.height { height } else { area.height },
    }
}

// ── Shortened secrets ────────────────────────────────────────────────────────

/// Number of bytes of `c` in UTF-8.
pub open spec fn utf8_width(c: char) -> nat {
    let u = c as u32;
    if u < 0x80 { 1 } else if u < 0x800 { 2 } else if u < 0x10000 { 3 } else { 4 }
}

/// Number of bytes of `s` in UTF-8.
pub open spec fn utf8_len(s: Seq<char>) -> nat
    decreases s.len(),
{
    if s.len() == 0 { 0 } else { utf8_len(s.drop_last()) + utf8_width(s.last()) }
}

/// `byte` is the end of a character of `s` (or its start).
pub open spec fn is_char_end(s: Seq<char>, byte: nat) -> bool {
    exists|k: int| 0 <= k <= s.len() && #[trigger] utf8_len(s.take(k)) == byte
}

/// The characters of `s` that fill its first `byte` bytes.
pub open spec fn chars_in_bytes(s: Seq<char>, byte: nat) -> Seq<char> {
    s.take(choose|k: int| 0 <= k <= s.len() && #[trigger] utf8_len(s.take(k)) == byte)
}

/// How a secret or id is shown: its first eight bytes and an ellipsis when it is longer.
pub open spec fn shorten_spec(s: Seq<char>) -> Seq<char> {
    if utf8_len(s) > 8 { chars_in_bytes(s, 8) + seq!['…'] } else { s }
}

proof fn lemma_utf8_len_push(s: Seq<char>, c: char)
    ensures
        utf8_len(s.push(c)) == utf8_len(s) + utf8_width(c),
{
    assert(s.push(c).drop_last() =~= s);
}

proof fn lemma_utf8_len_monotone(s: Seq<char>, i: int, j: int)
    requires
        0 <= i <= j <= s.len(),
    ensures
        utf8_len(s.take(i)) <= utf8_len(s.take(j)),
        i < j ==> utf8_len(s.take(i)) < utf8_len(s.take(j)),
    decreases j - i,
{
    if i < j {
        lemma_utf8_len_monotone(s, i, j - 1);
        assert(s.take(j).drop_last() =~= s.take(j - 1));
    }
}

fn char_width(c: char) -> (w: usize)
    ensures
        w == utf8_width(c),
{
    let u = c as u32;
    if u < 0x80 { 1 } else if u < 0x800 { 2 } else if u < 0x10000 { 3 } else { 4 }
}

/// `s` cut to its first eight bytes, with an ellipsis, when it is longer than that.
/// The cut must fall between characters.
pub fn shorten(s: &str) -> (r: String)
    requires
        utf8_len(s@) > 8 ==> is_char_end(s@, 8),
    ensures
        r@ == shorten_spec(s@),
{
    let v = crate::text::chars_of(s);
    let mut bytes: usize = 0;
    let mut k: usize = 0;
    while k < v.len() && bytes < 8
        invariant
            k <= v.len(),
            bytes == utf8_len(v@.take(k as int)),
            bytes <= 11,
            v@ == s@,
            k == 0 || utf8_len(v@.take(k - 1)) < 8,
        decreases v.len() - k,
    {
        proof {
            lemma_utf8_len_push(v@.take(k as int), v@[k as int]);
            assert(v@.take(k as int).push(v@[k as int]) =~= v@.take(k + 1));
        }
        bytes = bytes + char_width(v[k]);
        k = k + 1;
    }
    if k == v.len() && bytes <= 8 {
        assert(v@.take(k as int) =~= v@);
        return crate::text::string_from_chars(&v);
    }
    proof {
        // The text is longer than eight bytes: either the loop stopped early or it ended past eight.
        lemma_utf8_len_monotone(v@, k as int, v@.len() as int);
        assert(v@.take(v@.len() as int) =~= v@);
        let kk = choose|kk: int| 0 <= kk <= v@.len() && #[trigger] utf8_len(v@.take(kk)) == 8;
        if kk < k {
            lemma_utf8_len_monotone(v@, kk, k - 1);
        } else if kk > k {
            lemma_utf8_len_monotone(v@, k as int, kk);
        }
        assert(kk == k);
    }
    let mut r = crate::text::string_from_range(&v, 0, k);
    push_char(&mut r, '…');
    assert(v@.subrange(0, k as int) =~= v@.take(k as int));
    r
}


// ── Settings ─────────────────────────────────────────────────────────────────

/// The base URL and model that the settings screen shows for AI search: with
/// Copilot on, Copilot's endpoint and its default model (unless one is set);
/// otherwise the configured base URL and model, or the OpenAI defaults.
pub open spec fn settings_endpoint_spec(c: ConfigView) -> (Seq<char>, Seq<char>) {
    if c.use_copilot {
        (
            COPILOT_BASE_URL@,
            match c.openai_model {
                Some(m) => m,
                None => COPILOT_DEFAULT_MODEL@,
            },
        )
    } else {
        (
            match c.openai_base_url {
                Some(u) => u,
                None => DEFAULT_BASE_URL@,
            },
            match c.openai_model {
                Some(m) => m,
                None => DEFAULT_MODEL@,
            },
        )
    }
}

pub fn settings_endpoint(config: &Config) -> (r: (String, String))
    ensures
        (r.0@, r.1@) == settings_endpoint_spec(config@),
{
    let model = match &config.openai_model {
        Some(m) => m.clone(),
        None => if config.use_copilot {
            String::from_str(COPILOT_DEFAULT_MODEL)
        } else {
            String::from_str(DEFAULT_MODEL)
        },
    };
    let base_url = if config.use_copilot {
        String::from_str(COPILOT_BASE_URL)
    } else {
        match &config.openai_base_url {
            Some(u) => u.clone(),
            None => String::from_str(DEFAULT_BASE_URL),
        }
    };
    (base_url, model)
}


// ── AI search screen ─────────────────────────────────────────────────────────

/// What the AI search screen shows under the query.
pub enum AiPanel {
    /// The search is running: a spinner.
    Loading,
    /// The last search failed: its error.
    Failed,
    /// The results list and the selected result's details.
    Results,
}

/// The panel for a screen that is `loading` and that holds an error or not:
/// a running search wins over an old error, which wins over the results.
pub fn ai_panel(loading: bool, has_error: bool) -> (p: AiPanel)
    ensures
        loading ==> p is Loading,
        !loading && has_error ==> p is Failed,
        !loading && !has_error ==> p is Results,
{
    if loading {
        AiPanel::Loading
    } else if has_error {
        AiPanel::Failed
    } else {
        AiPanel::Results
    }
}

pub open spec fn ai_results_title_spec(count: nat, query_empty: bool) -> Seq<char> {
    if count == 0 && !query_empty {
        "Results (0 — try a different query)"@
    } else {
        "Results ("@ + nat_decimal(count) + ")"@
    }
}

/// The title of the results list: the count, with a hint when a query found nothing.
pub fn ai_results_title(count: usize, query_empty: bool) -> (t: String)
    ensures
        t@ == ai_results_title_spec(count as nat, query_empty),
{
    if count == 0 && !query_empty {
        String::from_str("Results (0 — try a different query)")
    } else {
        let mut t = String::from_str("Results (");
        push_decimal(&mut t, count as u64);
        t.append(")");
        t
    }
}

/// What the details pane says while no result is selected.
pub fn ai_detail_placeholder(query_empty: bool) -> (t: &'static str)
    ensures
        t@ == if query_empty {
            "Type a natural-language query and press Enter…"@
        } else {
            "Select a result to see details."@
        },
{
    if query_empty {
        "Type a natural-language query and press Enter…"
    } else {
        "Select a result to see details."
    }
}

} // verus!
