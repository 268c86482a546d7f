//! The wire text of one record in each encoding, and the framing of a
//! whole listing.
use vstd::prelude::*;
use crate::entry::{EntryInfo, EntryType};
use crate::status::{FileGitStatus, status_letter};

verus! {

/// The output encodings of a listing.
#[derive(Clone, Copy, Debug, PartialEq, Eq, Structural)]
pub enum OutputEncoding {
    /// A JSON array of objects.
    Json,
    /// One JSON object per line.
    Jsonl,
    /// A table literal: a header row of field names, then one row per record.
    Nuon,
}

#[verifier::external_type_specification]
#[verifier::external_body]
pub struct ExJsonError(serde_json::Error);

/// A hexadecimal digit, lower case.
pub open spec fn hex_digit(d: int) -> char {
    seq!['0', '1', '2', '3', '4', '5', '6', '7', '8', '9', 'a', 'b', 'c', 'd', 'e', 'f'][d]
}

/// How one character stands inside a JSON string literal: quote and
/// backslash escaped, the short escapes for backspace, tab, line feed, form
/// feed and carriage return, other control characters as `\u00XX`, every
/// other character as is.
pub open spec fn json_escape(c: char) -> Seq<char> {
    if c == '"' {
        seq!['\\', '"']
    } else if c == '\\' {
        seq!['\\', '\\']
    } else if c == '\u{8}' {
        seq!['\\', 'b']
    } else if c == '\t' {
        seq!['\\', 't']
    } else if c == '\n' {
        seq!['\\', 'n']
    } else if c == '\u{c}' {
        seq!['\\', 'f']
    } else if c == '\r' {
        seq!['\\', 'r']
    } else if (c as u32) < 0x20 {
        seq!['\\', 'u', '0', '0', hex_digit((c as u32) as int / 16), hex_digit((c as u32) as int % 16)]
    } else {
        seq![c]
    }
}

/// The characters of some text, each escaped for a JSON string literal.
pub open spec fn json_escaped(s: Seq<char>) -> Seq<char>
    decreases s.len(),
{
    if s.len() == 0 {
        Seq::empty()
    } else {
        json_escaped(s.drop_last()) + json_escape(s.last())
    }
}

/// The JSON string literal of some text: quotes round its escaped characters.
pub open spec fn json_string_text(s: Seq<char>) -> Seq<char> {
    seq!['"'] + json_escaped(s) + seq!['"']
}

/// Relies on `serde_json::to_string` on a string slice: it writes into a
/// vector, which cannot fail, the quoted text escaped character by character
/// as `json_escape` states.
#[verifier::external_body]
fn json_string(s: &str) -> (r: Result<String, serde_json::Error>)
    ensures
        r is Ok,
        r matches Ok(t) ==> t@ == json_string_text(s@),
{
    serde_json::to_string(s)
}

/// The decimal text of one digit.
pub open spec fn digit_text(d: nat) -> Seq<char> {
    if d == 0 { "0"@ }
    else if d == 1 { "1"@ }
    else if d == 2 { "2"@ }
    else if d == 3 { "3"@ }
    else if d == 4 { "4"@ }
    else if d == 5 { "5"@ }
    else if d == 6 { "6"@ }
    else if d == 7 { "7"@ }
    else if d == 8 { "8"@ }
    else { "9"@ }
}

/// The decimal text of a number, without leading zeros.
pub open spec fn decimal(n: nat) -> Seq<char>
    decreases n,
{
    if n < 10 {
        digit_text(n)
    } else {
        decimal(n / 10) + digit_text(n % 10)
    }
}

fn digit_str(d: u64) -> (r: &'static str)
    requires
        d < 10,
    ensures
        r@ == digit_text(d as nat),
{
    if d == 0 { "0" }
    else if d == 1 { "1" }
    else if d == 2 { "2" }
    else if d == 3 { "3" }
    else if d == 4 { "4" }
    else if d == 5 { "5" }
    else if d == 6 { "6" }
    else if d == 7 { "7" }
    else if d == 8 { "8" }
    else { "9" }
}

/// The decimal text of a number.
pub fn decimal_string(n: u64) -> (r: String)
    ensures
        r@ == decimal(n as nat),
    decreases n,
{
    if n < 10 {
        String::from_str(digit_str(n))
    } else {
        let mut s = decimal_string(n / 10);
        s.append(digit_str(n % 10));
        s
    }
}

/// The JSON value of an entry kind.
pub open spec fn json_type(t: EntryType) -> Seq<char> {
    match t {
        EntryType::File => "\"file\""@,
        EntryType::Dir => "\"dir\""@,
        EntryType::Symlink => "\"symlink\""@,
    }
}

/// The table label of an entry kind.
pub open spec fn type_label(t: EntryType) -> Seq<char> {
    match t {
        EntryType::File => "File"@,
        EntryType::Dir => "Dir"@,
        EntryType::Symlink => "Symlink"@,
    }
}

/// The JSON value of a status: its letter as a string, or null.
pub open spec fn json_git(g: Option<FileGitStatus>) -> Seq<char> {
    match g {
        Some(s) => "\""@ + status_letter(s) + "\""@,
        None => "null"@,
    }
}

/// The table cell of a status: its letter, or an empty string literal.
pub open spec fn nuon_git(g: Option<FileGitStatus>) -> Seq<char> {
    match g {
        Some(s) => status_letter(s),
        None => "\"\""@,
    }
}

/// A record as one compact JSON object, fields in their fixed order.
pub open spec fn json_record(rec: EntryInfo) -> Seq<char> {
    "{\"name\":"@ + json_string_text(rec.name@)
        + ",\"type\":"@ + json_type(rec.file_type)
        + ",\"size\":"@ + decimal(rec.size as nat)
        + ",\"modified\":"@ + json_string_text(rec.modified@)
        + ",\"git\":"@ + json_git(rec.file_git_status)
        + ",\"accessed\":"@ + json_string_text(rec.accessed@)
        + "}"@
}

/// A character that cannot stand in a bare table value: blank, separator,
/// bracket, quote, backslash or control character.
pub open spec fn nuon_special(c: char) -> bool {
    c == ' ' || c == ',' || c == '[' || c == ']' || c == '"' || c == '\\' || (c as u32) < 0x20
        || c == '\u{7f}'
}

/// Text that must be quoted to stand as one table value: it is empty or
/// holds a special character.
pub open spec fn nuon_needs_quotes(s: Seq<char>) -> bool {
    s.len() == 0 || exists|i: int| 0 <= i < s.len() && nuon_special(#[trigger] s[i])
}

/// A name as one table value: a JSON string literal where it needs quotes,
/// else the name itself.
pub open spec fn nuon_name(s: Seq<char>) -> Seq<char> {
    if nuon_needs_quotes(s) {
        json_string_text(s)
    } else {
        s
    }
}

/// A name stands as one table value: bare, it holds no special character;
/// otherwise it is a string literal between double quotes.
pub proof fn lemma_nuon_name_one_value(s: Seq<char>)
    ensures
        nuon_name(s).len() > 0,
        !nuon_needs_quotes(s) ==> forall|i: int|
            0 <= i < nuon_name(s).len() ==> !nuon_special(#[trigger] nuon_name(s)[i]),
        nuon_needs_quotes(s) ==> nuon_name(s)[0] == '"' && nuon_name(s).last() == '"',
{
}

/// A record as one table row, values in the fixed field order.
pub open spec fn nuon_row(rec: EntryInfo) -> Seq<char> {
    "["@ + nuon_name(rec.name@)
        + ", "@ + type_label(rec.file_type)
        + ", "@ + decimal(rec.size as nat)
        + ", "@ + rec.modified@
        + ", "@ + nuon_git(rec.file_git_status)
        + ", "@ + rec.accessed@
        + "]"@
}

/// The text of one record in an encoding.
pub open spec fn record_text(enc: OutputEncoding, rec: EntryInfo) -> Seq<char> {
    match enc {
        OutputEncoding::Nuon => nuon_row(rec),
        _ => json_record(rec),
    }
}

/// What a listing starts with.
pub open spec fn opening(enc: OutputEncoding) -> Seq<char> {
    match enc {
        OutputEncoding::Json => "["@,
        OutputEncoding::Jsonl => Seq::empty(),
        OutputEncoding::Nuon => "[[name, type, size, modified, git, accessed]; "@,
    }
}

/// What stands before a record that is not the first.
pub open spec fn separator(enc: OutputEncoding) -> Seq<char> {
    match enc {
        OutputEncoding::Json => ","@,
        OutputEncoding::Jsonl => Seq::empty(),
        OutputEncoding::Nuon => ", "@,
    }
}

/// What follows every record.
pub open spec fn terminator(enc: OutputEncoding) -> Seq<char> {
    match enc {
        OutputEncoding::Jsonl => "\n"@,
        _ => Seq::empty(),
    }
}

/// What a listing ends with.
pub open spec fn closing(enc: OutputEncoding) -> Seq<char> {
    match enc {
        OutputEncoding::Jsonl => Seq::empty(),
        _ => "]"@,
    }
}

/// The text written for a record: a separator unless it is the first, the
/// record, and the terminator.
pub open spec fn unit_text(enc: OutputEncoding, first: bool, rec: EntryInfo) -> Seq<char> {
    (if first { Seq::empty() } else { separator(enc) }) + record_text(enc, rec) + terminator(enc)
}

/// The records of a listing, framed one after the other in order.
pub open spec fn body(enc: OutputEncoding, recs: Seq<EntryInfo>) -> Seq<char>
    decreases recs.len(),
{
    if recs.len() == 0 {
        Seq::empty()
    } else {
        body(enc, recs.drop_last()) + unit_text(enc, recs.len() == 1, recs.last())
    }
}

/// A whole listing of the given records.
pub open spec fn document(enc: OutputEncoding, recs: Seq<EntryInfo>) -> Seq<char> {
    opening(enc) + body(enc, recs) + closing(enc)
}

/// Text without a line feed.
pub open spec fn single_line(s: Seq<char>) -> bool {
    forall|i: int| 0 <= i < s.len() ==> s[i] != '\n'
}

proof fn lemma_single_line_concat(a: Seq<char>, b: Seq<char>)
    requires
        single_line(a),
        single_line(b),
    ensures
        single_line(a + b),
{
    assert forall|i: int| 0 <= i < (a + b).len() implies (a + b)[i] != '\n' by {
        if i >= a.len() {
            assert((a + b)[i] == b[i - a.len()]);
        }
    }
}

proof fn lemma_escape_single_line(c: char)
    ensures
        single_line(json_escape(c)),
{
    let e = json_escape(c);
    if c != '"' && c != '\\' && c != '\u{8}' && c != '\t' && c != '\n' && c != '\u{c}' && c
        != '\r' && (c as u32) < 0x20 {
        let hi = (c as u32) as int / 16;
        let lo = (c as u32) as int % 16;
        let digits = seq!['0', '1', '2', '3', '4', '5', '6', '7', '8', '9', 'a', 'b', 'c', 'd', 'e', 'f'];
        assert(0 <= hi < 16 && 0 <= lo < 16);
        assert(forall|k: int| 0 <= k < 16 ==> #[trigger] digits[k] != '\n');
        assert(e[4] == digits[hi]);
        assert(e[5] == digits[lo]);
    }
}

proof fn lemma_escaped_single_line(s: Seq<char>)
    ensures
        single_line(json_escaped(s)),
    decreases s.len(),
{
    if s.len() > 0 {
        lemma_escaped_single_line(s.drop_last());
        lemma_escape_single_line(s.last());
        lemma_single_line_concat(json_escaped(s.drop_last()), json_escape(s.last()));
    }
}

proof fn lemma_string_single_line(s: Seq<char>)
    ensures
        single_line(json_string_text(s)),
{
    lemma_escaped_single_line(s);
    lemma_single_line_concat(seq!['"'], json_escaped(s));
    lemma_single_line_concat(seq!['"'] + json_escaped(s), seq!['"']);
}

proof fn lemma_decimal_single_line(n: nat)
    ensures
        single_line(decimal(n)),
    decreases n,
{
    reveal_strlit("0");
    reveal_strlit("1");
    reveal_strlit("2");
    reveal_strlit("3");
    reveal_strlit("4");
    reveal_strlit("5");
    reveal_strlit("6");
    reveal_strlit("7");
    reveal_strlit("8");
    reveal_strlit("9");
    if n >= 10 {
        lemma_decimal_single_line(n / 10);
        lemma_single_line_concat(decimal(n / 10), digit_text(n % 10));
    }
}

proof fn lemma_fixed_parts_single_line(rec: EntryInfo)
    ensures
        single_line(json_type(rec.file_type)),
        single_line(json_git(rec.file_git_status)),
{
    reveal_strlit("\"file\"");
    reveal_strlit("\"dir\"");
    reveal_strlit("\"symlink\"");
    reveal_strlit("\"");
    reveal_strlit("null");
    reveal_strlit("M");
    reveal_strlit("C");
    reveal_strlit("N");
    reveal_strlit("I");
    reveal_strlit("!");
    reveal_strlit("D");
    reveal_strlit("R");
    if let Some(g) = rec.file_git_status {
        lemma_single_line_concat("\""@, status_letter(g));
        lemma_single_line_concat("\""@ + status_letter(g), "\""@);
    }
}

/// A record in the line-delimited encoding is one line: its JSON object
/// holds no line feed, and the single line feed after it ends it.
pub proof fn lemma_json_line_single(rec: EntryInfo, first: bool)
    ensures
        single_line(json_record(rec)),
        unit_text(OutputEncoding::Jsonl, first, rec) == json_record(rec) + seq!['\n'],
{
    reveal_strlit("{\"name\":");
    reveal_strlit(",\"type\":");
    reveal_strlit(",\"size\":");
    reveal_strlit(",\"modified\":");
    reveal_strlit(",\"git\":");
    reveal_strlit(",\"accessed\":");
    reveal_strlit("}");
    reveal_strlit("\n");
    lemma_string_single_line(rec.name@);
    lemma_string_single_line(rec.modified@);
    lemma_string_single_line(rec.accessed@);
    lemma_decimal_single_line(rec.size as nat);
    lemma_fixed_parts_single_line(rec);
    let p1 = "{\"name\":"@ + json_string_text(rec.name@);
    lemma_single_line_concat("{\"name\":"@, json_string_text(rec.name@));
    let p2 = p1 + ",\"type\":"@;
    lemma_single_line_concat(p1, ",\"type\":"@);
    let p3 = p2 + json_type(rec.file_type);
    lemma_single_line_concat(p2, json_type(rec.file_type));
    let p4 = p3 + ",\"size\":"@;
    lemma_single_line_concat(p3, ",\"size\":"@);
    let p5 = p4 + decimal(rec.size as nat);
    lemma_single_line_concat(p4, decimal(rec.size as nat));
    let p6 = p5 + ",\"modified\":"@;
    lemma_single_line_concat(p5, ",\"modified\":"@);
    let p7 = p6 + json_string_text(rec.modified@);
    lemma_single_line_concat(p6, json_string_text(rec.modified@));
    let p8 = p7 + ",\"git\":"@;
    lemma_single_line_concat(p7, ",\"git\":"@);
    let p9 = p8 + json_git(rec.file_git_status);
    lemma_single_line_concat(p8, json_git(rec.file_git_status));
    let p10 = p9 + ",\"accessed\":"@;
    lemma_single_line_concat(p9, ",\"accessed\":"@);
    let p11 = p10 + json_string_text(rec.accessed@);
    lemma_single_line_concat(p10, json_string_text(rec.accessed@));
    lemma_single_line_concat(p11, "}"@);
    assert(Seq::<char>::empty() + json_record(rec) + "\n"@ =~= json_record(rec) + seq!['\n']);
}

/// The JSON string literal of some text.
fn json_quoted(s: &String) -> (r: String)
    ensures
        r@ == json_string_text(s@),
{
    match json_string(s.as_str()) {
        Ok(t) => t,
        Err(_) => String::new(),
    }
}

fn is_nuon_special(c: char) -> (r: bool)
    ensures
        r == nuon_special(c),
{
    c == ' ' || c == ',' || c == '[' || c == ']' || c == '"' || c == '\\' || (c as u32) < 0x20
        || c == '\u{7f}'
}

/// Whether some text must be quoted to stand as one table value.
pub fn needs_quotes(s: &str) -> (r: bool)
    ensures
        r == nuon_needs_quotes(s@),
{
    let n = s.unicode_len();
    if n == 0 {
        return true;
    }
    let mut i: usize = 0;
    while i < n
        invariant
            n == s@.len(),
            0 <= i <= n,
            forall|j: int| 0 <= j < i ==> !nuon_special(#[trigger] s@[j]),
        decreases n - i,
    {
        if is_nuon_special(s.get_char(i)) {
            return true;
        }
        i = i + 1;
    }
    false
}

fn json_type_str(t: EntryType) -> (r: &'static str)
    ensures
        r@ == json_type(t),
{
    match t {
        EntryType::File => "\"file\"",
        EntryType::Dir => "\"dir\"",
        EntryType::Symlink => "\"symlink\"",
    }
}

fn type_label_str(t: EntryType) -> (r: &'static str)
    ensures
        r@ == type_label(t),
{
    match t {
        EntryType::File => "File",
        EntryType::Dir => "Dir",
        EntryType::Symlink => "Symlink",
    }
}

/// A record as one compact JSON object.
pub fn json_record_string(rec: &EntryInfo) -> (r: String)
    ensures
        r@ == json_record(*rec),
{
    let name = json_quoted(&rec.name);
    let modified = json_quoted(&rec.modified);
    let accessed = json_quoted(&rec.accessed);
    let mut s = String::from_str("{\"name\":");
    s.append(name.as_str());
    s.append(",\"type\":");
    s.append(json_type_str(rec.file_type));
    s.append(",\"size\":");
    let size = decimal_string(rec.size);
    s.append(size.as_str());
    s.append(",\"modified\":");
    s.append(modified.as_str());
    s.append(",\"git\":");
    match rec.file_git_status {
        Some(g) => {
            s.append("\"");
            s.append(g.code());
            s.append("\"");
        },
        None => {
            s.append("null");
        },
    }
    s.append(",\"accessed\":");
    s.append(accessed.as_str());
    s.append("}");
    s
}

/// A record as one table row.
pub fn nuon_row_string(rec: &EntryInfo) -> (r: String)
    ensures
        r@ == nuon_row(*rec),
{
    let mut s = String::from_str("[");
    if needs_quotes(rec.name.as_str()) {
        let quoted = json_quoted(&rec.name);
        s.append(quoted.as_str());
    } else {
        s.append(rec.name.as_str());
    }
    s.append(", ");
    s.append(type_label_str(rec.file_type));
    s.append(", ");
    let size = decimal_string(rec.size);
    s.append(size.as_str());
    s.append(", ");
    s.append(rec.modified.as_str());
    s.append(", ");
    match rec.file_git_status {
        Some(g) => {
            s.append(g.code());
        },
        None => {
            s.append("\"\"");
        },
    }
    s.append(", ");
    s.append(rec.accessed.as_str());
    s.append("]");
    s
}

/// The text of one record in an encoding.
pub fn serialize_entry_info(rec: &EntryInfo, enc: OutputEncoding) -> (r: String)
    ensures
        r@ == record_text(enc, *rec),
{
    match enc {
        OutputEncoding::Nuon => nuon_row_string(rec),
        _ => json_record_string(rec),
    }
}

} // verus!
