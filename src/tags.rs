use vstd::prelude::*;

verus! {

/// A lowercase hexadecimal digit.
pub open spec fn hex_digit(n: u32) -> char {
    if n < 10 {
        ((48 + n) as u32) as char
    } else {
        ((87 + n) as u32) as char
    }
}

/// How one character stands inside a JSON string: quote and backslash are
/// escaped, the five common control characters take their short escapes,
/// other control characters `\u00xx`, and every other character stands as
/// itself.
pub open spec fn escaped_char(c: char) -> Seq<char> {
    if c == '"' {
        seq!['\\', '"']
    } else if c == '\\' {
        seq!['\\', '\\']
    } else if c == '\u{8}' {
        seq!['\\', 'b']
    } else if c == '\t' {
        seq!['\\', 't']
    } else if c == '\n' {
        seq!['\\', 'n']
    } else if c == '\u{c}' {
        seq!['\\', 'f']
    } else if c == '\r' {
        seq!['\\', 'r']
    } else if (c as u32) < 0x20 {
        seq!['\\', 'u', '0', '0', hex_digit((c as u32) / 16), hex_digit((c as u32) % 16)]
    } else {
        seq![c]
    }
}

pub open spec fn escaped(s: Seq<char>) -> Seq<char>
    decreases s.len(),
{
    if s.len() == 0 {
        Seq::empty()
    } else {
        escaped(s.drop_last()) + escaped_char(s.last())
    }
}

/// A JSON string literal.
pub open spec fn json_string(s: Seq<char>) -> Seq<char> {
    seq!['"'] + escaped(s) + seq!['"']
}

/// The string literals of a list, separated by commas.
pub open spec fn json_items(labels: Seq<Seq<char>>) -> Seq<char>
    decreases labels.len(),
{
    if labels.len() == 0 {
        Seq::empty()
    } else if labels.len() == 1 {
        json_string(labels[0])
    } else {
        json_items(labels.drop_last()) + seq![','] + json_string(labels.last())
    }
}

/// The compact JSON array that serde_json writes for a list of labels.
pub open spec fn labels_json(labels: Seq<Seq<char>>) -> Seq<char> {
    seq!['['] + json_items(labels) + seq![']']
}

/// What serde_json reads from a text as a list of labels: `None` when the
/// text is not a JSON array of strings.
pub uninterp spec fn labels_parsed(text: Seq<char>) -> Option<Seq<Seq<char>>>;

/// The character sequences of a list of strings.
pub open spec fn label_views(labels: Seq<String>) -> Seq<Seq<char>> {
    labels.map_values(|l: String| l@)
}

/// The text stored for a list of labels: its JSON array, which is the
/// explicit empty-list marker `[]` for no labels.
pub open spec fn stored_labels(labels: Seq<Seq<char>>) -> Seq<char> {
    labels_json(labels)
}

proof fn lemma_items_nonempty(labels: Seq<Seq<char>>)
    requires
        labels.len() > 0,
    ensures
        json_items(labels).len() >= 2,
    decreases labels.len(),
{
    if labels.len() > 1 {
        lemma_items_nonempty(labels.drop_last());
    }
}

/// The text stored for no labels is `[]`; for some labels it is longer.
proof fn lemma_stored_labels_shape(labels: Seq<Seq<char>>)
    ensures
        labels.len() == 0 ==> stored_labels(labels) == "[]"@,
        labels.len() > 0 ==> stored_labels(labels).len() >= 4,
{
    reveal_strlit("[]");
    if labels.len() == 0 {
        assert(stored_labels(labels) =~= "[]"@);
    } else {
        lemma_items_nonempty(labels);
    }
}

/// The labels read back from stored text. Empty text and text that is not a
/// list of strings both read as no labels; reading never fails.
pub open spec fn read_labels(text: Seq<char>) -> Seq<Seq<char>> {
    if text.len() == 0 || text == "[]"@ {
        Seq::empty()
    } else {
        match labels_parsed(text) {
            Some(labels) => labels,
            None => Seq::empty(),
        }
    }
}

/// Relies on serde_json::to_string on a `Vec<String>`: it cannot fail there
/// (strings always serialize, and there is no map key); it writes the compact
/// array with the escapes of its `ESCAPE` table, and serde_json::from_str
/// reads that text back as the same strings.
#[verifier::external_body]
fn labels_to_json(labels: &Vec<String>) -> (r: String)
    ensures
        r@ == labels_json(label_views(labels@)),
        labels_parsed(r@) == Some(label_views(labels@)),
{
    serde_json::to_string(labels).unwrap_or_default()
}

/// Relies on serde_json::from_str into a `Vec<String>`: `Some` with the
/// strings when the text is a JSON array of strings, `None` otherwise; `[]`
/// reads as the empty list.
#[verifier::external_body]
fn labels_from_json(text: &str) -> (r: Option<Vec<String>>)
    ensures
        r is Some <==> labels_parsed(text@) is Some,
        r is Some ==> labels_parsed(text@) == Some(label_views(r->0@)),
        text@ == "[]"@ ==> r is Some && r->0@.len() == 0,
{
    serde_json::from_str::<Vec<String>>(text).ok()
}

/// Serializes a list of labels for storage; reading the text back gives the
/// same labels.
pub fn write_tags(tags: &Vec<String>) -> (r: String)
    ensures
        r@ == stored_labels(label_views(tags@)),
        read_labels(r@) == label_views(tags@),
{
    let r = labels_to_json(tags);
    proof {
        lemma_stored_labels_shape(label_views(tags@));
        reveal_strlit("[]");
        if tags@.len() == 0 {
            assert(label_views(tags@) =~= Seq::<Seq<char>>::empty());
        }
    }
    r
}

/// The labels held by stored text, given what the JSON reader made of that
/// text: empty text, and text that did not parse, hold no labels.
pub fn tags_from_parsed(text: &str, parsed: Option<Vec<String>>) -> (r: Vec<String>)
    ensures
        r@ == (if text@.len() == 0 {
            Seq::empty()
        } else {
            match parsed {
                Some(v) => v@,
                None => Seq::empty(),
            }
        }),
{
    if text.is_empty() {
        Vec::new()
    } else {
        match parsed {
            Some(v) => v,
            None => Vec::new(),
        }
    }
}

/// Reads the labels out of stored text; malformed text degrades to no labels.
pub fn read_tags(text: &str) -> (r: Vec<String>)
    ensures
        label_views(r@) == read_labels(text@),
{
    if text.is_empty() {
        return Vec::new();
    }
    let parsed = labels_from_json(text);
    let r = tags_from_parsed(text, parsed);
    proof {
        if text@ == "[]"@ {
            assert(r@.len() == 0);
        }
    }
    assert(label_views(r@) =~= read_labels(text@));
    r
}

/// Writing no labels and reading the stored text back gives no labels, and
/// the stored text is not empty.
pub proof fn lemma_empty_tags_round_trip()
    ensures
        stored_labels(Seq::empty()).len() > 0,
        read_labels(stored_labels(Seq::empty())) == Seq::<Seq<char>>::empty(),
{
    lemma_stored_labels_shape(Seq::empty());
    reveal_strlit("[]");
}

} // verus!
