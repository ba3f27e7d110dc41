//! The compact JSON text of a value, in the form `serde_json` writes its own
//! `Value`: no whitespace, object members ordered by name, strings with the
//! short escapes and `\u00XX` for the other control characters.

use vstd::prelude::*;
use crate::codec::hex_digit;
use crate::json::{Json, JsonValue, items_deep, lemma_deep_array, lemma_deep_object, members_deep};
use crate::text::{chars_of, decimal, i64_to_decimal, owned, push_char, push_str, signed_decimal, u64_to_decimal};

verus! {

/// One character of a string as it is written inside the quotes.
pub open spec fn escaped_char(c: char) -> Seq<char> {
    if c == '"' {
        seq!['\\', '"']
    } else if c == '\\' {
        seq!['\\', '\\']
    } else if c == '\u{8}' {
        seq!['\\', 'b']
    } else if c == '\t' {
        seq!['\\', 't']
    } else if c == '\n' {
        seq!['\\', 'n']
    } else if c == '\u{c}' {
        seq!['\\', 'f']
    } else if c == '\r' {
        seq!['\\', 'r']
    } else if (c as u32) < 32 {
        seq!['\\', 'u', '0', '0', hex_digit(((c as u32) / 16) as u8), hex_digit(((c as u32) % 16) as u8)]
    } else {
        seq![c]
    }
}

/// The characters of a string as they are written inside the quotes.
pub open spec fn escaped_text(s: Seq<char>) -> Seq<char>
    decreases s.len(),
{
    if s.len() == 0 {
        Seq::empty()
    } else {
        escaped_text(s.drop_last()) + escaped_char(s.last())
    }
}

/// A string literal.
pub open spec fn quoted(s: Seq<char>) -> Seq<char> {
    seq!['"'] + escaped_text(s) + seq!['"']
}

/// Parts separated by commas.
pub open spec fn comma_joined(parts: Seq<Seq<char>>) -> Seq<char>
    decreases parts.len(),
{
    if parts.len() == 0 {
        Seq::empty()
    } else if parts.len() == 1 {
        parts[0]
    } else {
        comma_joined(parts.drop_last()) + seq![','] + parts.last()
    }
}

/// Whether `a` comes before `b` in the order of Rust strings: by code
/// point, a proper prefix first.
pub open spec fn text_less(a: Seq<char>, b: Seq<char>) -> bool
    decreases a.len(),
{
    if a.len() == 0 {
        b.len() > 0
    } else if b.len() == 0 {
        false
    } else if a[0] != b[0] {
        (a[0] as u32) < (b[0] as u32)
    } else {
        text_less(a.drop_first(), b.drop_first())
    }
}

/// A named entry placed after every entry whose name does not come after
/// its own.
pub open spec fn insert_by_name(e: (Seq<char>, Seq<char>), s: Seq<(Seq<char>, Seq<char>)>) -> Seq<(Seq<char>, Seq<char>)>
    decreases s.len(),
{
    if s.len() == 0 {
        seq![e]
    } else if text_less(e.0, s[0].0) {
        seq![e] + s
    } else {
        seq![s[0]] + insert_by_name(e, s.drop_first())
    }
}

/// Named entries ordered by name; entries with one name keep their order.
pub open spec fn sorted_by_name(s: Seq<(Seq<char>, Seq<char>)>) -> Seq<(Seq<char>, Seq<char>)>
    decreases s.len(),
{
    if s.len() == 0 {
        s
    } else {
        insert_by_name(s.last(), sorted_by_name(s.drop_last()))
    }
}

/// One object member: its quoted name, a colon and its value's text.
pub open spec fn member_text(e: (Seq<char>, Seq<char>)) -> Seq<char> {
    quoted(e.0) + seq![':'] + e.1
}

/// The texts of named entries as object members.
pub open spec fn member_texts(s: Seq<(Seq<char>, Seq<char>)>) -> Seq<Seq<char>> {
    s.map_values(|e: (Seq<char>, Seq<char>)| member_text(e))
}

/// How many parts a value's text is built from.
pub open spec fn json_width(v: Json) -> nat {
    match v {
        Json::Array(items) => items.len() + 1,
        Json::Object(ms) => ms.len() + 1,
        _ => 0,
    }
}

/// The compact JSON text of a value. Numbers kept as text are written as
/// they are held.
pub open spec fn json_text(v: Json) -> Seq<char>
    decreases v, json_width(v),
{
    match v {
        Json::Null => "null"@,
        Json::Bool(b) => if b {
            "true"@
        } else {
            "false"@
        },
        Json::UInt(n) => decimal(n as nat),
        Json::Int(n) => signed_decimal(n as int),
        Json::Float(s) => s,
        Json::Str(s) => quoted(s),
        Json::Array(items) => seq!['['] + joined_items(v, items.len()) + seq![']'],
        Json::Object(ms) => seq!['{'] + comma_joined(member_texts(sorted_by_name(named_members(v, ms.len())))) + seq!['}'],
    }
}

/// The texts of the first `n` items of an array, separated by commas.
pub open spec fn joined_items(v: Json, n: nat) -> Seq<char>
    decreases v, n,
{
    match v {
        Json::Array(items) => if n == 0 || n > items.len() {
            Seq::empty()
        } else if n == 1 {
            json_text(items[0])
        } else {
            joined_items(v, (n - 1) as nat) + seq![','] + json_text(items[n - 1])
        },
        _ => Seq::empty(),
    }
}

/// The first `n` members of an object, each as its name and its value's
/// text.
pub open spec fn named_members(v: Json, n: nat) -> Seq<(Seq<char>, Seq<char>)>
    decreases v, n,
{
    match v {
        Json::Object(ms) => if n == 0 || n > ms.len() {
            Seq::empty()
        } else {
            named_members(v, (n - 1) as nat).push((ms[n - 1].0, json_text(ms[n - 1].1)))
        },
        _ => Seq::empty(),
    }
}

/// Appends one character as it is written inside a string literal.
fn push_escaped_char(out: &mut String, c: char)
    ensures
        final(out)@ == old(out)@ + escaped_char(c),
{
    let ghost start = out@;
    if c == '"' {
        push_char(out, '\\');
        push_char(out, '"');
    } else if c == '\\' {
        push_char(out, '\\');
        push_char(out, '\\');
    } else if c == '\u{8}' {
        push_char(out, '\\');
        push_char(out, 'b');
    } else if c == '\t' {
        push_char(out, '\\');
        push_char(out, 't');
    } else if c == '\n' {
        push_char(out, '\\');
        push_char(out, 'n');
    } else if c == '\u{c}' {
        push_char(out, '\\');
        push_char(out, 'f');
    } else if c == '\r' {
        push_char(out, '\\');
        push_char(out, 'r');
    } else if (c as u32) < 32 {
        let hi: u8 = ((c as u32) / 16) as u8;
        let lo: u8 = ((c as u32) % 16) as u8;
        let hi_c: char = if hi < 10 { (48 + hi) as char } else { (87 + hi) as char };
        let lo_c: char = if lo < 10 { (48 + lo) as char } else { (87 + lo) as char };
        push_char(out, '\\');
        push_char(out, 'u');
        push_char(out, '0');
        push_char(out, '0');
        push_char(out, hi_c);
        push_char(out, lo_c);
        assert(hi_c == hex_digit(((c as u32) / 16) as u8));
        assert(lo_c == hex_digit(((c as u32) % 16) as u8));
    } else {
        push_char(out, c);
    }
    assert(out@ =~= start + escaped_char(c));
}

/// Appends a string literal.
fn push_quoted(out: &mut String, s: &str)
    ensures
        final(out)@ == old(out)@ + quoted(s@),
{
    let ghost start = out@;
    push_char(out, '"');
    let cs = chars_of(s);
    let mut i: usize = 0;
    while i < cs.len()
        invariant
            i <= cs@.len(),
            cs@ == s@,
            out@ == start + seq!['"'] + escaped_text(s@.take(i as int)),
        decreases cs@.len() - i,
    {
        let c = cs[i];
        push_escaped_char(out, c);
        proof {
            let t = s@.take(i + 1);
            assert(t.drop_last() =~= s@.take(i as int));
            assert(t.last() == c);
            assert(escaped_text(t) == escaped_text(s@.take(i as int)) + escaped_char(c));
        }
        i = i + 1;
    }
    assert(s@.take(cs@.len() as int) =~= s@);
    push_char(out, '"');
    assert(out@ =~= start + quoted(s@));
}

/// The views of a list of strings.
pub open spec fn texts_view(parts: Seq<String>) -> Seq<Seq<char>> {
    parts.map_values(|p: String| p@)
}

/// Parts separated by commas.
fn join_parts(parts: &Vec<String>) -> (r: String)
    ensures
        r@ == comma_joined(texts_view(parts@)),
{
    let ghost all = texts_view(parts@);
    let mut out = String::new();
    let mut i: usize = 0;
    while i < parts.len()
        invariant
            i <= parts@.len(),
            all == texts_view(parts@),
            out@ == comma_joined(all.take(i as int)),
        decreases parts@.len() - i,
    {
        proof {
            let t = all.take(i + 1);
            assert(t.drop_last() =~= all.take(i as int));
            assert(t.last() == parts@[i as int]@);
        }
        if i == 0 {
            out = parts[i].clone();
            assert(all.take(1) =~= seq![parts@[0]@]);
        } else {
            push_char(&mut out, ',');
            push_str(&mut out, parts[i].as_str());
        }
        i = i + 1;
    }
    assert(all.take(parts@.len() as int) =~= all);
    out
}

/// Whether `a` comes before `b` in the order of Rust strings.
pub fn name_less(a: &str, b: &str) -> (r: bool)
    ensures
        r == text_less(a@, b@),
{
    let x = chars_of(a);
    let y = chars_of(b);
    let mut i: usize = 0;
    assert(a@.skip(0) =~= a@);
    assert(b@.skip(0) =~= b@);
    loop
        invariant
            x@ == a@,
            y@ == b@,
            i <= x@.len(),
            i <= y@.len(),
            text_less(a@, b@) == text_less(a@.skip(i as int), b@.skip(i as int)),
        decreases x@.len() - i,
    {
        if i == x.len() {
            return i < y.len();
        }
        if i == y.len() {
            return false;
        }
        if x[i] != y[i] {
            return (x[i] as u32) < (y[i] as u32);
        }
        proof {
            assert(a@.skip(i as int).drop_first() =~= a@.skip(i + 1));
            assert(b@.skip(i as int).drop_first() =~= b@.skip(i + 1));
        }
        i = i + 1;
    }
}

/// The views of named entries.
pub open spec fn entries_view(s: Seq<(String, String)>) -> Seq<(Seq<char>, Seq<char>)> {
    s.map_values(|e: (String, String)| (e.0@, e.1@))
}

/// Where the first entry after `p` stands, inserting at `p` is the ordered
/// insertion.
proof fn lemma_insert_at(e: (Seq<char>, Seq<char>), s: Seq<(Seq<char>, Seq<char>)>, p: int)
    requires
        0 <= p <= s.len(),
        forall|j: int| 0 <= j < p ==> !text_less(e.0, #[trigger] s[j].0),
        p < s.len() ==> text_less(e.0, s[p].0),
    ensures
        insert_by_name(e, s) == s.take(p) + seq![e] + s.skip(p),
    decreases p,
{
    if p == 0 {
        assert(s.take(0) + seq![e] + s.skip(0) =~= seq![e] + s);
    } else {
        let rest = s.drop_first();
        assert(!text_less(e.0, s[0].0));
        assert forall|j: int| 0 <= j < p - 1 implies !text_less(e.0, #[trigger] rest[j].0) by {
            assert(rest[j] == s[j + 1]);
        }
        lemma_insert_at(e, rest, p - 1);
        assert(seq![s[0]] + (rest.take(p - 1) + seq![e] + rest.skip(p - 1)) =~= s.take(p) + seq![e] + s.skip(p));
    }
}

/// Inserts an entry after every entry whose name does not come after its
/// own.
fn insert_entry(out: &mut Vec<(String, String)>, e: (String, String))
    ensures
        entries_view(final(out)@) == insert_by_name((e.0@, e.1@), entries_view(old(out)@)),
{
    let ghost s = entries_view(out@);
    let ghost ev = (e.0@, e.1@);
    let mut p: usize = 0;
    let mut found = false;
    while !found && p < out.len()
        invariant
            p <= out@.len(),
            s == entries_view(out@),
            ev == (e.0@, e.1@),
            forall|j: int| 0 <= j < p ==> !text_less(ev.0, #[trigger] s[j].0),
            found ==> p < out@.len() && text_less(ev.0, s[p as int].0),
        decreases out@.len() - p + (if found { 0int } else { 1int }),
    {
        if name_less(e.0.as_str(), out[p].0.as_str()) {
            found = true;
        } else {
            p = p + 1;
        }
    }
    proof {
        lemma_insert_at(ev, s, p as int);
    }
    out.insert(p, e);
    assert(entries_view(out@) =~= s.take(p as int) + seq![ev] + s.skip(p as int));
}

/// Named entries ordered by name; entries with one name keep their order.
fn sort_entries(entries: &Vec<(String, String)>) -> (r: Vec<(String, String)>)
    ensures
        entries_view(r@) == sorted_by_name(entries_view(entries@)),
{
    let ghost all = entries_view(entries@);
    let mut out: Vec<(String, String)> = Vec::new();
    let mut i: usize = 0;
    assert(all.take(0) =~= Seq::<(Seq<char>, Seq<char>)>::empty());
    assert(entries_view(out@) =~= Seq::<(Seq<char>, Seq<char>)>::empty());
    while i < entries.len()
        invariant
            i <= entries@.len(),
            all == entries_view(entries@),
            entries_view(out@) == sorted_by_name(all.take(i as int)),
        decreases entries@.len() - i,
    {
        let e = (entries[i].0.clone(), entries[i].1.clone());
        proof {
            let t = all.take(i + 1);
            assert(t.drop_last() =~= all.take(i as int));
            assert(t.last() == (e.0@, e.1@));
        }
        insert_entry(&mut out, e);
        i = i + 1;
    }
    assert(all.take(entries@.len() as int) =~= all);
    out
}

/// The compact JSON text of a value, in the form `serde_json` writes it.
#[verifier::loop_isolation(false)]
pub fn encode_json(v: &JsonValue) -> (r: String)
    ensures
        r@ == json_text(v.deep()),
    decreases v,
{
    match v {
        JsonValue::Null => owned("null"),
        JsonValue::Bool(b) => if *b {
            owned("true")
        } else {
            owned("false")
        },
        JsonValue::UInt(n) => u64_to_decimal(*n),
        JsonValue::Int(n) => i64_to_decimal(*n),
        JsonValue::Float(s) => s.clone(),
        JsonValue::Str(s) => {
            let mut out = String::new();
            push_quoted(&mut out, s.as_str());
            assert(out@ =~= quoted(s@));
            out
        },
        JsonValue::Array(items) => {
            let ghost d = v.deep();
            proof {
                lemma_deep_array(*items);
            }
            let mut out = String::new();
            push_char(&mut out, '[');
            let mut i: usize = 0;
            while i < items.len()
                invariant
                    i <= items@.len(),
                    d == v.deep(),
                    d == Json::Array(items_deep(items@)),
                    out@ == seq!['['] + joined_items(d, i as nat),
                decreases items@.len() - i,
            {
                proof {
                    assert(decreases_to!(*v => items@[i as int]));
                }
                let t = encode_json(&items[i]);
                if i > 0 {
                    push_char(&mut out, ',');
                }
                push_str(&mut out, t.as_str());
                assert(items_deep(items@)[i as int] == items@[i as int].deep());
                assert(out@ =~= seq!['['] + joined_items(d, (i + 1) as nat));
                i = i + 1;
            }
            push_char(&mut out, ']');
            assert(out@ =~= json_text(d));
            out
        },
        JsonValue::Object(ms) => {
            let ghost d = v.deep();
            proof {
                lemma_deep_object(*ms);
            }
            let mut entries: Vec<(String, String)> = Vec::new();
            let mut i: usize = 0;
            assert(entries_view(entries@) =~= named_members(d, 0));
            while i < ms.len()
                invariant
                    i <= ms@.len(),
                    d == v.deep(),
                    d == Json::Object(members_deep(ms@)),
                    entries_view(entries@) == named_members(d, i as nat),
                decreases ms@.len() - i,
            {
                proof {
                    assert(decreases_to!(*v => ms@[i as int]));
                    assert(decreases_to!(ms@[i as int] => ms@[i as int].1));
                }
                let t = encode_json(&ms[i].1);
                entries.push((ms[i].0.clone(), t));
                assert(members_deep(ms@)[i as int] == (ms@[i as int].0@, ms@[i as int].1.deep()));
                assert(entries_view(entries@) =~= named_members(d, (i + 1) as nat));
                i = i + 1;
            }
            let sorted = sort_entries(&entries);
            let mut parts: Vec<String> = Vec::new();
            let mut k: usize = 0;
            while k < sorted.len()
                invariant
                    k <= sorted@.len(),
                    parts@.len() == k,
                    forall|j: int| 0 <= j < k ==> (#[trigger] parts@[j])@ == member_text(entries_view(sorted@)[j]),
                decreases sorted@.len() - k,
            {
                let mut m = String::new();
                push_quoted(&mut m, sorted[k].0.as_str());
                push_char(&mut m, ':');
                push_str(&mut m, sorted[k].1.as_str());
                assert(m@ =~= member_text(entries_view(sorted@)[k as int]));
                parts.push(m);
                k = k + 1;
            }
            let body = join_parts(&parts);
            assert(texts_view(parts@) =~= member_texts(entries_view(sorted@)));
            let mut out = String::new();
            push_char(&mut out, '{');
            push_str(&mut out, body.as_str());
            push_char(&mut out, '}');
            assert(out@ =~= json_text(d));
            out
        },
    }
}

} // verus!
