use vstd::prelude::*;
use vstd::utf8::encode_utf8;

verus! {

/// One `name=value` or `name[sub]=value` fragment of a form-encoded body or query string.
#[derive(Clone, Debug)]
pub struct FormField {
    pub name: String,
    pub sub: Option<String>,
    pub value: String,
}

/// What a form field says: its name, its sub-key if any, and its value.
pub struct FieldView {
    pub name: Seq<char>,
    pub sub: Option<Seq<char>>,
    pub value: Seq<char>,
}

impl View for FormField {
    type V = FieldView;

    open spec fn view(&self) -> FieldView {
        FieldView {
            name: self.name@,
            sub: match self.sub {
                Some(s) => Some(s@),
                None => None,
            },
            value: self.value@,
        }
    }
}

pub open spec fn fields_view(fs: Seq<FormField>) -> Seq<FieldView> {
    fs.map_values(|f: FormField| f@)
}

impl FormField {
    /// A field `name=value`.
    pub fn plain(name: &str, value: String) -> (r: FormField)
        ensures
            r@ == (FieldView { name: name@, sub: None, value: value@ }),
    {
        FormField { name: String::from_str(name), sub: None, value }
    }

    /// A field `name[sub]=value`.
    pub fn nested(name: &str, sub: String, value: String) -> (r: FormField)
        ensures
            r@ == (FieldView { name: name@, sub: Some(sub@), value: value@ }),
    {
        FormField { name: String::from_str(name), sub: Some(sub), value }
    }
}

/// The decimal text of `n`.
pub fn decimal_string(n: i64) -> (r: String)
    ensures
        r@ == decimal(n as int),
{
    let mut out: Vec<char> = Vec::new();
    push_decimal(n, &mut out);
    assert(out@ =~= decimal(n as int));
    string_of_chars(&out)
}

pub open spec fn digit_char(d: int) -> char {
    if d == 0 {
        '0'
    } else if d == 1 {
        '1'
    } else if d == 2 {
        '2'
    } else if d == 3 {
        '3'
    } else if d == 4 {
        '4'
    } else if d == 5 {
        '5'
    } else if d == 6 {
        '6'
    } else if d == 7 {
        '7'
    } else if d == 8 {
        '8'
    } else {
        '9'
    }
}

pub open spec fn hex_char(d: int) -> char {
    if d < 10 {
        digit_char(d)
    } else if d == 10 {
        'A'
    } else if d == 11 {
        'B'
    } else if d == 12 {
        'C'
    } else if d == 13 {
        'D'
    } else if d == 14 {
        'E'
    } else {
        'F'
    }
}

/// The value of a decimal digit character, or `None` for any other character.
pub open spec fn digit_value(c: char) -> Option<int> {
    if '0' <= c && c <= '9' {
        Some(c as int - '0' as int)
    } else {
        None
    }
}

/// The decimal representation of a natural number, without leading zeros.
pub open spec fn decimal_nat(n: nat) -> Seq<char>
    decreases n,
{
    if n < 10 {
        seq![digit_char(n as int)]
    } else {
        decimal_nat(n / 10).push(digit_char((n % 10) as int))
    }
}

/// The decimal representation of an integer: a `-` before the digits of a negative one.
pub open spec fn decimal(n: int) -> Seq<char> {
    if n < 0 {
        seq!['-'] + decimal_nat((-n) as nat)
    } else {
        decimal_nat(n as nat)
    }
}

/// The natural number written by a nonempty run of decimal digits.
pub open spec fn parse_digits(s: Seq<char>) -> Option<int>
    decreases s.len(),
{
    if s.len() == 0 {
        None
    } else if s.len() == 1 {
        digit_value(s[0])
    } else {
        match (parse_digits(s.drop_last()), digit_value(s.last())) {
            (Some(hi), Some(lo)) => Some(hi * 10 + lo),
            _ => None,
        }
    }
}

/// The integer written in decimal, with an optional leading `-`.
pub open spec fn parse_decimal(s: Seq<char>) -> Option<int> {
    if s.len() > 0 && s[0] == '-' {
        match parse_digits(s.drop_first()) {
            Some(n) => Some(-n),
            None => None,
        }
    } else {
        parse_digits(s)
    }
}

pub proof fn lemma_digit_value(d: int)
    requires
        0 <= d < 10,
    ensures
        digit_value(digit_char(d)) == Some(d),
{
}

pub proof fn lemma_parse_decimal_nat(n: nat)
    ensures
        parse_digits(decimal_nat(n)) == Some(n as int),
        decimal_nat(n).len() > 0,
        decimal_nat(n)[0] != '-',
    decreases n,
{
    if n < 10 {
        lemma_digit_value(n as int);
    } else {
        lemma_parse_decimal_nat(n / 10);
        lemma_digit_value((n % 10) as int);
        let s = decimal_nat(n);
        assert(s.drop_last() =~= decimal_nat(n / 10));
        assert(s[0] == decimal_nat(n / 10)[0]);
    }
}

/// Reading back the decimal representation of an integer gives that integer.
pub proof fn lemma_parse_decimal(n: int)
    ensures
        parse_decimal(decimal(n)) == Some(n),
{
    if n < 0 {
        lemma_parse_decimal_nat((-n) as nat);
        assert(decimal(n).drop_first() =~= decimal_nat((-n) as nat));
    } else {
        lemma_parse_decimal_nat(n as nat);
    }
}

/// Whether percent-encoding leaves a byte as it is.
pub open spec fn is_unreserved(b: u8) -> bool {
    b == 42 || b == 45 || b == 46 || (48 <= b <= 57) || (65 <= b <= 90) || b == 95 || (97 <= b
        <= 122)
}

/// The form encoding of one byte: a space becomes `+`, an unreserved byte stays, any other
/// becomes `%` and two upper-case hex digits.
pub open spec fn escape_byte(b: u8) -> Seq<char> {
    if b == 32 {
        seq!['+']
    } else if is_unreserved(b) {
        seq![b as char]
    } else {
        seq!['%', hex_char(b as int / 16), hex_char(b as int % 16)]
    }
}

pub open spec fn escape_bytes(bs: Seq<u8>) -> Seq<char>
    decreases bs.len(),
{
    if bs.len() == 0 {
        Seq::empty()
    } else {
        escape_bytes(bs.drop_last()) + escape_byte(bs.last())
    }
}

/// The form encoding of a string: each byte of its UTF-8 form, escaped.
pub open spec fn escape(s: Seq<char>) -> Seq<char> {
    escape_bytes(encode_utf8(s))
}

/// The text of one field: the escaped name, the escaped sub-key in brackets, `=`, the
/// escaped value.
pub open spec fn field_text(f: FieldView) -> Seq<char> {
    let key = match f.sub {
        Some(sub) => escape(f.name) + seq!['['] + escape(sub) + seq![']'],
        None => escape(f.name),
    };
    key + seq!['='] + escape(f.value)
}

/// The fields' texts in order, joined by `&`.
pub open spec fn form_text(fs: Seq<FieldView>) -> Seq<char>
    decreases fs.len(),
{
    if fs.len() == 0 {
        Seq::empty()
    } else if fs.len() == 1 {
        field_text(fs[0])
    } else {
        form_text(fs.drop_last()) + seq!['&'] + field_text(fs.last())
    }
}

fn digit_char_exec(d: u64) -> (c: char)
    requires
        d < 16,
    ensures
        c == hex_char(d as int),
{
    if d == 0 {
        '0'
    } else if d == 1 {
        '1'
    } else if d == 2 {
        '2'
    } else if d == 3 {
        '3'
    } else if d == 4 {
        '4'
    } else if d == 5 {
        '5'
    } else if d == 6 {
        '6'
    } else if d == 7 {
        '7'
    } else if d == 8 {
        '8'
    } else if d == 9 {
        '9'
    } else if d == 10 {
        'A'
    } else if d == 11 {
        'B'
    } else if d == 12 {
        'C'
    } else if d == 13 {
        'D'
    } else if d == 14 {
        'E'
    } else {
        'F'
    }
}

pub(crate) fn push_decimal_nat(n: u64, out: &mut Vec<char>)
    ensures
        final(out)@ == old(out)@ + decimal_nat(n as nat),
    decreases n,
{
    if n >= 10 {
        push_decimal_nat(n / 10, out);
    }
    out.push(digit_char_exec(n % 10));
    proof {
        if n >= 10 {
            assert(decimal_nat(n as nat) == decimal_nat((n / 10) as nat).push(digit_char(
                (n % 10) as int,
            )));
        }
    }
}

/// Appends the decimal representation of `n` to `out`.
pub fn push_decimal(n: i64, out: &mut Vec<char>)
    ensures
        final(out)@ == old(out)@ + decimal(n as int),
{
    let ghost start = out@;
    if n < 0 {
        out.push('-');
        let m: u64 = if n == i64::MIN {
            9223372036854775808u64
        } else {
            (-n) as u64
        };
        push_decimal_nat(m, out);
        assert(out@ =~= start + decimal(n as int));
    } else {
        push_decimal_nat(n as u64, out);
    }
}

/// Appends the form encoding of `s` to `out`.
pub fn push_escaped(s: &str, out: &mut Vec<char>)
    ensures
        final(out)@ == old(out)@ + escape(s@),
{
    let bytes = s.as_bytes();
    let ghost start = out@;
    let mut i: usize = 0;
    while i < bytes.len()
        invariant
            i <= bytes@.len(),
            bytes@ == encode_utf8(s@),
            out@ == start + escape_bytes(bytes@.subrange(0, i as int)),
        decreases bytes@.len() - i,
    {
        let b = bytes[i];
        if b == 32 {
            out.push('+');
        } else if b == 42 || b == 45 || b == 46 || (48 <= b && b <= 57) || (65 <= b && b <= 90)
            || b == 95 || (97 <= b && b <= 122) {
            out.push(b as char);
        } else {
            out.push('%');
            out.push(digit_char_exec((b / 16) as u64));
            out.push(digit_char_exec((b % 16) as u64));
        }
        proof {
            let pre = bytes@.subrange(0, i as int + 1);
            assert(pre.drop_last() =~= bytes@.subrange(0, i as int));
            assert(pre.last() == b);
        }
        i = i + 1;
    }
    assert(bytes@.subrange(0, bytes@.len() as int) =~= bytes@);
}

/// Appends the text of one field to `out`.
pub fn push_field(f: &FormField, out: &mut Vec<char>)
    ensures
        final(out)@ == old(out)@ + field_text(f@),
{
    let ghost start = out@;
    push_escaped(f.name.as_str(), out);
    match &f.sub {
        Some(sub) => {
            out.push('[');
            push_escaped(sub.as_str(), out);
            out.push(']');
        },
        None => {},
    }
    out.push('=');
    push_escaped(f.value.as_str(), out);
    assert(out@ =~= start + field_text(f@));
}

/// Relies on `FromIterator<char>` for `String`: the string holds the characters in order.
#[verifier::external_body]
pub(crate) fn string_of_chars(cs: &Vec<char>) -> (r: String)
    ensures
        r@ == cs@,
{
    cs.iter().collect()
}

/// The form encoding of `fields`: each field's text, joined by `&`.
pub fn encode_form(fields: &Vec<FormField>) -> (r: String)
    ensures
        r@ == form_text(fields_view(fields@)),
{
    let mut out: Vec<char> = Vec::new();
    let mut i: usize = 0;
    while i < fields.len()
        invariant
            i <= fields@.len(),
            out@ == form_text(fields_view(fields@.subrange(0, i as int))),
        decreases fields@.len() - i,
    {
        let ghost before = out@;
        if i > 0 {
            out.push('&');
        }
        push_field(&fields[i], &mut out);
        proof {
            let pre = fields_view(fields@.subrange(0, i as int + 1));
            assert(pre.drop_last() =~= fields_view(fields@.subrange(0, i as int)));
            assert(pre.last() == fields@[i as int]@);
            if i == 0 {
                assert(out@ =~= form_text(pre));
            } else {
                assert(out@ =~= form_text(pre));
            }
        }
        i = i + 1;
    }
    assert(fields@.subrange(0, fields@.len() as int) =~= fields@);
    string_of_chars(&out)
}

/// Whether two strings hold the same characters.
pub fn str_eq(a: &str, b: &str) -> (r: bool)
    ensures
        r == (a@ == b@),
{
    let n = a.unicode_len();
    if n != b.unicode_len() {
        return false;
    }
    let mut i: usize = 0;
    while i < n
        invariant
            n == a@.len(),
            n == b@.len(),
            i <= n,
            forall|j: int| 0 <= j < i ==> a@[j] == b@[j],
        decreases n - i,
    {
        if a.get_char(i) != b.get_char(i) {
            return false;
        }
        i = i + 1;
    }
    assert(a@ =~= b@);
    true
}

/// One field `name=value`.
pub open spec fn plain_view(name: Seq<char>, value: Seq<char>) -> Seq<FieldView> {
    seq![FieldView { name, sub: None, value }]
}

/// One field `name=value` where a value is given, none otherwise.
pub open spec fn opt_view_field(name: Seq<char>, value: Option<Seq<char>>) -> Seq<FieldView> {
    match value {
        Some(v) => plain_view(name, v),
        None => Seq::empty(),
    }
}

/// The text of an optional unsigned number.
pub open spec fn opt_decimal_u64(v: Option<u64>) -> Option<Seq<char>> {
    match v {
        Some(n) => Some(decimal(n as int)),
        None => None,
    }
}

/// The text of an optional signed number.
pub open spec fn opt_decimal_i64(v: Option<i64>) -> Option<Seq<char>> {
    match v {
        Some(n) => Some(decimal(n as int)),
        None => None,
    }
}

/// The text of a boolean.
pub open spec fn bool_text(b: bool) -> Seq<char> {
    if b {
        "true"@
    } else {
        "false"@
    }
}

pub open spec fn opt_bool_text(v: Option<bool>) -> Option<Seq<char>> {
    match v {
        Some(b) => Some(bool_text(b)),
        None => None,
    }
}

pub open spec fn opt_text(v: Option<String>) -> Option<Seq<char>> {
    match v {
        Some(s) => Some(s@),
        None => None,
    }
}

/// A list of strings under `name`: `name[0]=..`, `name[1]=..`, in order.
pub open spec fn list_view(name: Seq<char>, items: Seq<String>) -> Seq<FieldView> {
    Seq::new(items.len(), |i: int| FieldView { name, sub: Some(decimal(i)), value: items[i]@ })
}

/// Appends `name=value`.
pub fn push_plain(out: &mut Vec<FormField>, name: &str, value: String)
    ensures
        fields_view(final(out)@) == fields_view(old(out)@) + plain_view(name@, value@),
{
    let f = FormField::plain(name, value);
    out.push(f);
    assert(fields_view(final(out)@) =~= fields_view(old(out)@) + plain_view(name@, f.value@));
}

/// Appends `name=value` where `value` is given.
pub fn push_opt_text(out: &mut Vec<FormField>, name: &str, value: &Option<String>)
    ensures
        fields_view(final(out)@) == fields_view(old(out)@) + opt_view_field(name@, opt_text(*value)),
{
    match value {
        Some(v) => push_plain(out, name, v.clone()),
        None => {
            assert(fields_view(out@) =~= fields_view(out@) + opt_view_field(name@, opt_text(*value)));
        },
    }
}

/// Appends `name=` and the decimal text of `value`.
pub fn push_u64(out: &mut Vec<FormField>, name: &str, value: u64)
    ensures
        fields_view(final(out)@) == fields_view(old(out)@) + plain_view(name@, decimal(value as int)),
{
    let mut cs: Vec<char> = Vec::new();
    push_decimal_nat(value, &mut cs);
    assert(cs@ =~= decimal(value as int));
    push_plain(out, name, string_of_chars(&cs));
}

/// Appends `name=` and the decimal text of `value`, where it is given.
pub fn push_opt_u64(out: &mut Vec<FormField>, name: &str, value: Option<u64>)
    ensures
        fields_view(final(out)@) == fields_view(old(out)@) + opt_view_field(name@, opt_decimal_u64(value)),
{
    match value {
        Some(v) => push_u64(out, name, v),
        None => {
            assert(fields_view(out@) =~= fields_view(out@) + opt_view_field(name@, opt_decimal_u64(value)));
        },
    }
}

/// Appends `name=` and the decimal text of `value`, where it is given.
pub fn push_opt_i64(out: &mut Vec<FormField>, name: &str, value: Option<i64>)
    ensures
        fields_view(final(out)@) == fields_view(old(out)@) + opt_view_field(name@, opt_decimal_i64(value)),
{
    match value {
        Some(v) => push_plain(out, name, decimal_string(v)),
        None => {
            assert(fields_view(out@) =~= fields_view(out@) + opt_view_field(name@, opt_decimal_i64(value)));
        },
    }
}

/// Appends `name=true` or `name=false`, where a value is given.
pub fn push_opt_bool(out: &mut Vec<FormField>, name: &str, value: Option<bool>)
    ensures
        fields_view(final(out)@) == fields_view(old(out)@) + opt_view_field(name@, opt_bool_text(value)),
{
    match value {
        Some(b) => {
            let t = if b {
                "true"
            } else {
                "false"
            };
            push_plain(out, name, String::from_str(t));
        },
        None => {
            assert(fields_view(out@) =~= fields_view(out@) + opt_view_field(name@, opt_bool_text(value)));
        },
    }
}

/// Appends `name[i]=item` for each item in order.
pub fn push_list(out: &mut Vec<FormField>, name: &str, items: &Vec<String>)
    ensures
        fields_view(final(out)@) == fields_view(old(out)@) + list_view(name@, items@),
{
    let ghost start = fields_view(out@);
    let mut i: usize = 0;
    while i < items.len()
        invariant
            i <= items@.len(),
            fields_view(out@) == start + list_view(name@, items@).subrange(0, i as int),
        decreases items@.len() - i,
    {
        let mut cs: Vec<char> = Vec::new();
        push_decimal_nat(i as u64, &mut cs);
        assert(cs@ =~= decimal(i as int));
        let ghost before = out@;
        let f = FormField::nested(name, string_of_chars(&cs), items[i].clone());
        out.push(f);
        assert(fields_view(out@) =~= fields_view(before).push(f@));
        assert(list_view(name@, items@).subrange(0, i as int + 1) =~= list_view(name@, items@).subrange(0, i as int).push(f@));
        i = i + 1;
    }
    assert(list_view(name@, items@).subrange(0, items@.len() as int) =~= list_view(name@, items@));
}

} // verus!
