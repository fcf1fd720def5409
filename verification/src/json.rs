//! JSON texts: what is read out of EventSub frames through serde_json, and the
//! compact objects this service writes. Their keys strictly ascend, as the keys
//! of serde_json's own maps do (a `BTreeMap<String, Value>`, ordered as
//! strings, which is the order of their characters' code points).

use vstd::prelude::*;

verus! {

/// The views of an optional string.
pub open spec fn opt_string_view(o: Option<String>) -> Option<Seq<char>> {
    match o {
        Some(s) => Some(s@),
        None => None,
    }
}

/// Whether `serde_json` accepts `text` as one JSON document.
pub uninterp spec fn json_document_parses(text: Seq<char>) -> bool;

/// The string that the JSON pointer `pointer` designates in the document
/// `text`, as `serde_json` reads it; `None` where the document does not parse,
/// nothing is there, or what is there is not a string.
pub uninterp spec fn json_string_at(text: Seq<char>, pointer: Seq<char>) -> Option<Seq<char>>;

/// The compact JSON text, as `serde_json` writes it, of the value that the
/// JSON pointer `pointer` designates in the document `text`; `None` where the
/// document does not parse or nothing is there.
pub uninterp spec fn json_value_text_at(text: Seq<char>, pointer: Seq<char>) -> Option<Seq<char>>;

/// A hexadecimal digit in lower case.
pub open spec fn hex_digit(n: int) -> char {
    if n < 10 {
        (48 + n) as char
    } else {
        (87 + n) as char
    }
}

/// How one character is written inside a JSON string literal.
pub open spec fn json_escape_char(c: char) -> Seq<char> {
    if c == '"' {
        seq!['\\', '"']
    } else if c == '\\' {
        seq!['\\', '\\']
    } else if c == '\x08' {
        seq!['\\', 'b']
    } else if c == '\t' {
        seq!['\\', 't']
    } else if c == '\n' {
        seq!['\\', 'n']
    } else if c == '\x0C' {
        seq!['\\', 'f']
    } else if c == '\r' {
        seq!['\\', 'r']
    } else if (c as int) < 0x20 {
        seq!['\\', 'u', '0', '0', hex_digit((c as int) / 16), hex_digit((c as int) % 16)]
    } else {
        seq![c]
    }
}

/// The body of a JSON string literal holding `s`.
pub open spec fn json_escape(s: Seq<char>) -> Seq<char>
    decreases s.len(),
{
    if s.len() == 0 {
        Seq::empty()
    } else {
        json_escape(s.drop_last()) + json_escape_char(s.last())
    }
}

/// The JSON string literal holding `s`.
pub open spec fn json_quoted(s: Seq<char>) -> Seq<char> {
    seq!['"'] + json_escape(s) + seq!['"']
}

/// One member `"key":value` of a JSON object, the value given as JSON text.
pub open spec fn json_member_text(member: (Seq<char>, Seq<char>)) -> Seq<char> {
    json_quoted(member.0) + seq![':'] + member.1
}

/// The members of a JSON object, separated by commas.
pub open spec fn json_members_text(members: Seq<(Seq<char>, Seq<char>)>) -> Seq<char>
    decreases members.len(),
{
    if members.len() == 0 {
        Seq::empty()
    } else if members.len() == 1 {
        json_member_text(members[0])
    } else {
        json_members_text(members.drop_last()) + seq![','] + json_member_text(members.last())
    }
}

/// The compact JSON object with the given members, in the given order.
pub open spec fn json_object_text(members: Seq<(Seq<char>, Seq<char>)>) -> Seq<char> {
    seq!['{'] + json_members_text(members) + seq!['}']
}

/// The JSON text of a value, or `null` where there is none.
pub open spec fn text_or_null(v: Option<Seq<char>>) -> Seq<char> {
    match v {
        Some(t) => t,
        None => "null"@,
    }
}

/// Whether text `a` comes strictly before text `b`: at the first place where
/// they differ, `a` has the smaller character, or `a` is a proper prefix of `b`.
pub open spec fn text_less(a: Seq<char>, b: Seq<char>) -> bool {
    exists|k: int|
        0 <= k <= a.len() && k <= b.len() && #[trigger] a.take(k) == b.take(k) && (
        (k == a.len() && k < b.len()) || (k < a.len() && k < b.len() && (a[k] as int) < (
        b[k] as int)))
}

/// Whether the keys of the members strictly ascend.
pub open spec fn keys_ascending(members: Seq<(Seq<char>, Seq<char>)>) -> bool {
    forall|i: int| 0 <= i < members.len() - 1 ==> text_less(#[trigger] members[i].0, members[i + 1].0)
}

/// Whether the members hold `key` with the JSON text `value`.
pub open spec fn has_member(members: Seq<(Seq<char>, Seq<char>)>, key: Seq<char>, value: Seq<char>) -> bool {
    exists|i: int| 0 <= i < members.len() && #[trigger] members[i] == (key, value)
}

/// Two texts that agree before place `k` and differ there by a smaller
/// character in `a` are in order.
pub proof fn lemma_text_less_at(a: Seq<char>, b: Seq<char>, k: int)
    requires
        0 <= k < a.len(),
        k < b.len(),
        forall|j: int| 0 <= j < k ==> a[j] == b[j],
        (a[k] as int) < (b[k] as int),
    ensures
        text_less(a, b),
{
    assert(a.take(k) =~= b.take(k));
}

/// The views of an object's members.
pub open spec fn members_view(members: Seq<(String, String)>) -> Seq<(Seq<char>, Seq<char>)> {
    members.map_values(|m: (String, String)| (m.0@, m.1@))
}

/// Calls `serde_json::from_str::<serde_json::Value>` and reports whether it
/// succeeded; the result is named `json_document_parses`.
#[verifier::external_body]
pub(crate) fn parses_as_json(text: &str) -> (res: bool)
    ensures
        res == json_document_parses(text@),
{
    serde_json::from_str::<serde_json::Value>(text).is_ok()
}

/// Parses `text` with `serde_json::from_str::<serde_json::Value>`, follows
/// `serde_json::Value::pointer` and keeps the string found there. The result is
/// named `json_string_at`; where the text does not parse it is `None`.
#[verifier::external_body]
pub(crate) fn string_at(text: &str, pointer: &str) -> (res: Option<String>)
    ensures
        opt_string_view(res) == json_string_at(text@, pointer@),
        !json_document_parses(text@) ==> res is None,
{
    match serde_json::from_str::<serde_json::Value>(text) {
        Ok(doc) => match doc.pointer(pointer) {
            Some(serde_json::Value::String(s)) => Some(s.clone()),
            _ => None,
        },
        Err(_) => None,
    }
}

/// Parses `text` with `serde_json::from_str::<serde_json::Value>`, follows
/// `serde_json::Value::pointer` and writes what is found there with
/// `serde_json::Value`'s compact `Display`. The result is named
/// `json_value_text_at`; where the text does not parse it is `None`.
#[verifier::external_body]
pub(crate) fn value_text_at(text: &str, pointer: &str) -> (res: Option<String>)
    ensures
        opt_string_view(res) == json_value_text_at(text@, pointer@),
        !json_document_parses(text@) ==> res is None,
{
    match serde_json::from_str::<serde_json::Value>(text) {
        Ok(doc) => match doc.pointer(pointer) {
            Some(found) => Some(found.to_string()),
            None => None,
        },
        Err(_) => None,
    }
}

/// Writes `s` as a JSON string literal with `serde_json::to_string`: a quote,
/// each character escaped as `json_escape_char` says (the escapes of
/// serde_json's `ESCAPE` table), and a closing quote. Writing a `str` into
/// memory cannot fail.
#[verifier::external_body]
pub(crate) fn quote(s: &str) -> (res: String)
    ensures
        res@ == json_quoted(s@),
{
    match serde_json::to_string(s) {
        Ok(t) => t,
        Err(_) => String::new(),
    }
}

/// The JSON text of the value that `pointer` designates in `text`, `null`
/// where nothing is there.
pub fn value_text_or_null(text: &str, pointer: &str) -> (res: String)
    ensures
        res@ == text_or_null(json_value_text_at(text@, pointer@)),
{
    match value_text_at(text, pointer) {
        Some(t) => t,
        None => String::from_str("null"),
    }
}

/// Writes the compact JSON object with the given members, whose keys strictly
/// ascend; each member is a key and the JSON text of its value.
pub fn object_text(members: &Vec<(String, String)>) -> (res: String)
    requires
        keys_ascending(members_view(members@)),
    ensures
        res@ == json_object_text(members_view(members@)),
{
    let ghost mv = members_view(members@);
    let mut out = String::from_str("{");
    let n = members.len();
    let mut i: usize = 0;
    proof {
        reveal_strlit("{");
        assert(mv.take(0) =~= Seq::<(Seq<char>, Seq<char>)>::empty());
        assert(out@ =~= seq!['{'] + json_members_text(mv.take(0)));
    }
    while i < n
        invariant
            n == members@.len(),
            mv == members_view(members@),
            mv.len() == n,
            i <= n,
            out@ == seq!['{'] + json_members_text(mv.take(i as int)),
        decreases n - i,
    {
        let key = quote(members[i].0.as_str());
        if i > 0 {
            out.append(",");
        }
        out.append(key.as_str());
        out.append(":");
        out.append(members[i].1.as_str());
        proof {
            reveal_strlit(",");
            reveal_strlit(":");
            let t = mv.take(i + 1);
            assert(t.drop_last() =~= mv.take(i as int));
            assert(t.last() == mv[i as int]);
            assert(mv[i as int] == (members@[i as int].0@, members@[i as int].1@));
            if i == 0 {
                assert(mv.take(0) =~= Seq::<(Seq<char>, Seq<char>)>::empty());
            }
            assert(out@ =~= seq!['{'] + json_members_text(t));
        }
        i = i + 1;
    }
    out.append("}");
    proof {
        reveal_strlit("}");
        assert(mv.take(n as int) =~= mv);
        assert(out@ =~= json_object_text(mv));
    }
    out
}

} // verus!
