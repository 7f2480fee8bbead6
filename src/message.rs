use vstd::prelude::*;

verus! {

/// `s` begins with `p`.
pub open spec fn has_prefix(s: Seq<char>, p: Seq<char>) -> bool {
    p.len() <= s.len() && s.subrange(0, p.len() as int) == p
}

/// `s` with every leading repetition of `p` removed (none when `p` is empty).
pub open spec fn strip_prefixes(s: Seq<char>, p: Seq<char>) -> Seq<char>
    decreases s.len(),
{
    if p.len() > 0 && has_prefix(s, p) {
        strip_prefixes(s.subrange(p.len() as int, s.len() as int), p)
    } else {
        s
    }
}

/// `s` without the leading characters equal to `c`.
pub open spec fn trim_start(s: Seq<char>, c: char) -> Seq<char>
    decreases s.len(),
{
    if s.len() > 0 && s[0] == c {
        trim_start(s.drop_first(), c)
    } else {
        s
    }
}

/// `s` without the trailing characters equal to `c`.
pub open spec fn trim_end(s: Seq<char>, c: char) -> Seq<char>
    decreases s.len(),
{
    if s.len() > 0 && s.last() == c {
        trim_end(s.drop_last(), c)
    } else {
        s
    }
}

/// `s` without the characters equal to `c` at either end.
pub open spec fn trim(s: Seq<char>, c: char) -> Seq<char> {
    trim_end(trim_start(s, c), c)
}

/// Prefix that marks an agent-state key as a preference.
pub open spec fn pref_marker() -> Seq<char> {
    "pref_"@
}

/// `name=value` for a preference key and the text of its value: the key
/// loses its markers, the value its surrounding quotes.
pub open spec fn preference_text(key: Seq<char>, value: Seq<char>) -> Seq<char> {
    strip_prefixes(key, pref_marker()) + "="@ + trim(value, '"')
}

/// The preferences among `entries`, in order.
pub open spec fn preferences_of(entries: Seq<(Seq<char>, Seq<char>)>) -> Seq<Seq<char>>
    decreases entries.len(),
{
    if entries.len() == 0 {
        seq![]
    } else {
        let rest = preferences_of(entries.drop_last());
        let (k, v) = entries.last();
        if has_prefix(k, pref_marker()) {
            rest.push(preference_text(k, v))
        } else {
            rest
        }
    }
}

/// The items joined with `, ` between them.
pub open spec fn joined(items: Seq<Seq<char>>) -> Seq<char>
    decreases items.len(),
{
    if items.len() == 0 {
        seq![]
    } else if items.len() == 1 {
        items[0]
    } else {
        joined(items.drop_last()) + ", "@ + items.last()
    }
}

/// Whether `s` begins with `p`.
pub fn starts_with(s: &str, p: &str) -> (r: bool)
    ensures
        r == has_prefix(s@, p@),
{
    let n = s.unicode_len();
    let m = p.unicode_len();
    if m > n {
        return false;
    }
    let mut i: usize = 0;
    while i < m
        invariant
            m <= n,
            n == s@.len(),
            m == p@.len(),
            i <= m,
            forall|j: int| 0 <= j < i ==> s@[j] == p@[j],
        decreases m - i,
    {
        if s.get_char(i) != p.get_char(i) {
            assert(s@.subrange(0, m as int)[i as int] != p@[i as int]);
            return false;
        }
        i = i + 1;
    }
    assert(s@.subrange(0, m as int) =~= p@);
    true
}

/// `s` with every leading repetition of `p` removed; `s` itself when `p` is
/// empty.
pub fn strip_all_prefixes(s: &str, p: &str) -> (r: String)
    ensures
        r@ == strip_prefixes(s@, p@),
{
    let m = p.unicode_len();
    if m == 0 {
        return String::from_str(s);
    }
    let mut rest: &str = s;
    while starts_with(rest, p)
        invariant
            m == p@.len(),
            m > 0,
            strip_prefixes(rest@, p@) == strip_prefixes(s@, p@),
        decreases rest@.len(),
    {
        let n = rest.unicode_len();
        rest = rest.substring_char(m, n);
    }
    String::from_str(rest)
}

/// `s` without the characters equal to `c` at either end.
pub fn trim_char(s: &str, c: char) -> (r: String)
    ensures
        r@ == trim(s@, c),
{
    let n = s.unicode_len();
    let mut lo: usize = 0;
    assert(s@.subrange(0, n as int) =~= s@);
    while lo < n && s.get_char(lo) == c
        invariant
            n == s@.len(),
            lo <= n,
            trim_start(s@.subrange(lo as int, n as int), c) == trim_start(s@, c),
        decreases n - lo,
    {
        assert(s@.subrange(lo as int, n as int).drop_first() =~= s@.subrange(lo + 1, n as int));
        lo = lo + 1;
    }
    assert(trim_start(s@, c) == s@.subrange(lo as int, n as int));
    let mut hi: usize = n;
    while hi > lo && s.get_char(hi - 1) == c
        invariant
            n == s@.len(),
            lo <= hi <= n,
            trim_end(s@.subrange(lo as int, hi as int), c) == trim(s@, c),
        decreases hi - lo,
    {
        assert(s@.subrange(lo as int, hi as int).drop_last() =~= s@.subrange(lo as int, hi - 1));
        hi = hi - 1;
    }
    let r = String::from_str(s.substring_char(lo, hi));
    r
}

/// `name=value` for a preference key and the text of its value, or `None`
/// when the key does not mark a preference.
pub fn preference_entry(key: &str, value: &str) -> (r: Option<String>)
    ensures
        r is Some <==> has_prefix(key@, pref_marker()),
        r is Some ==> r->Some_0@ == preference_text(key@, value@),
{
    if !starts_with(key, "pref_") {
        return None;
    }
    proof {
        reveal_strlit("pref_");
    }
    let mut out = strip_all_prefixes(key, "pref_");
    out.append("=");
    let v = trim_char(value, '"');
    out.append(v.as_str());
    Some(out)
}

/// The preferences among the agent-state entries `(key, value text)`, in
/// order.
pub fn preference_list(entries: &Vec<(String, String)>) -> (r: Vec<String>)
    ensures
        r@.map_values(|s: String| s@) == preferences_of(
            entries@.map_values(|e: (String, String)| (e.0@, e.1@)),
        ),
{
    let ghost view = entries@.map_values(|e: (String, String)| (e.0@, e.1@));
    let mut out: Vec<String> = Vec::new();
    let mut i: usize = 0;
    while i < entries.len()
        invariant
            i <= entries@.len(),
            view == entries@.map_values(|e: (String, String)| (e.0@, e.1@)),
            out@.map_values(|s: String| s@) == preferences_of(view.subrange(0, i as int)),
        decreases entries@.len() - i,
    {
        let (k, v) = &entries[i];
        let item = preference_entry(k.as_str(), v.as_str());
        assert(view.subrange(0, i + 1).drop_last() =~= view.subrange(0, i as int));
        let ghost before = out@;
        match item {
            Some(text) => {
                out.push(text);
                assert(out@.map_values(|s: String| s@) =~= before.map_values(|s: String| s@).push(
                    text@,
                ));
            },
            None => {},
        }
        i = i + 1;
    }
    assert(view.subrange(0, entries@.len() as int) =~= view);
    out
}

/// The items joined with `, ` between them.
pub fn join_items(items: &Vec<String>) -> (r: String)
    ensures
        r@ == joined(items@.map_values(|s: String| s@)),
{
    let ghost view = items@.map_values(|s: String| s@);
    let mut out = String::new();
    let mut i: usize = 0;
    while i < items.len()
        invariant
            i <= items@.len(),
            view == items@.map_values(|s: String| s@),
            out@ == joined(view.subrange(0, i as int)),
        decreases items@.len() - i,
    {
        if i > 0 {
            out.append(", ");
        }
        out.append(items[i].as_str());
        assert(view.subrange(0, i + 1).drop_last() =~= view.subrange(0, i as int));
        proof {
            if i == 0 {
                assert(view.subrange(0, 1)[0] == view[0]);
            }
        }
        i = i + 1;
    }
    assert(view.subrange(0, items@.len() as int) =~= view);
    out
}

/// The fields of the message an agent sends downstream once rules have
/// shaped its state.
#[derive(Debug)]
pub struct MessageFields {
    pub agent: String,
    pub task: String,
    pub message: String,
    /// The preferences, joined; `None` when the state holds none.
    pub preferences: Option<String>,
}

/// `value` when present, else `fallback`.
pub open spec fn or_default(value: Option<String>, fallback: Seq<char>) -> Seq<char> {
    match value {
        Some(v) => v@,
        None => fallback,
    }
}

fn text_or(value: Option<String>, fallback: &str) -> (r: String)
    ensures
        r@ == or_default(value, fallback@),
{
    match value {
        Some(v) => v,
        None => String::from_str(fallback),
    }
}

/// The message fields for an agent state: its `agent_name`, `current_task`
/// and `message` text values when present (else fixed defaults), and its
/// preferences among `entries`, the state's `(key, value text)` pairs in the
/// order they are given.
pub fn build_message_fields(
    agent_name: Option<String>,
    current_task: Option<String>,
    message: Option<String>,
    entries: &Vec<(String, String)>,
) -> (r: MessageFields)
    ensures
        r.agent@ == or_default(agent_name, "rust_agent"@),
        r.task@ == or_default(current_task, "teste_conexao"@),
        r.message@ == or_default(message, "Rust conectado ao EON-Framework!"@),
        ({
            let prefs = preferences_of(entries@.map_values(|e: (String, String)| (e.0@, e.1@)));
            &&& r.preferences is None <==> prefs.len() == 0
            &&& r.preferences is Some ==> r.preferences->Some_0@ == joined(prefs)
        }),
{
    let prefs = preference_list(entries);
    let preferences = if prefs.len() == 0 {
        None
    } else {
        Some(join_items(&prefs))
    };
    MessageFields {
        agent: text_or(agent_name, "rust_agent"),
        task: text_or(current_task, "teste_conexao"),
        message: text_or(message, "Rust conectado ao EON-Framework!"),
        preferences,
    }
}

} // verus!
