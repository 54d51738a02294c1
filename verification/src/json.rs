//! The gateway's JSON wire format, over UTF-8 bytes.
//!
//! Serialization: [`todo_json`] and [`todo_list_json`] give the exact bytes of
//! the two response bodies, and the `render_*` functions produce them.
//!
//! Parsing: [`parse_create_body`] is the grammar of the create request body —
//! a JSON object with the single member `"text"` holding a string — and
//! returns the unescaped UTF-8 bytes of that string. The executable parser
//! mirrors it one branch for one branch.

use vstd::prelude::*;
use vstd::string::StrSliceExecFns;
use vstd::utf8::encode_utf8;

use crate::todo::{Todo, TodoList, TodoView};

verus! {

// ---------------------------------------------------------------------------
// Serialization
// ---------------------------------------------------------------------------
/// One hexadecimal digit, lower case.
pub open spec fn hex_digit(n: u8) -> u8 {
    if n < 10 {
        (0x30 + n) as u8  // '0'..'9'
    } else {
        (0x57 + n) as u8  // 'a'..'f'
    }
}

/// The JSON escape of one byte of UTF-8 text. Only ASCII bytes ever need
/// escaping, so escaping byte by byte is escaping character by character.
pub open spec fn escape_byte(b: u8) -> Seq<u8> {
    if b == 0x22 {  // '"'
        seq![0x5Cu8, 0x22u8]
    } else if b == 0x5C {  // '\'
        seq![0x5Cu8, 0x5Cu8]
    } else if b == 0x08 {
        seq![0x5Cu8, 0x62u8]  // \b
    } else if b == 0x09 {
        seq![0x5Cu8, 0x74u8]  // \t
    } else if b == 0x0A {
        seq![0x5Cu8, 0x6Eu8]  // \n
    } else if b == 0x0C {
        seq![0x5Cu8, 0x66u8]  // \f
    } else if b == 0x0D {
        seq![0x5Cu8, 0x72u8]  // \r
    } else if b < 0x20 {
        seq![0x5Cu8, 0x75u8, 0x30u8, 0x30u8, hex_digit((b / 16) as u8), hex_digit((b % 16) as u8)]
    } else {
        seq![b]
    }
}

/// The escaped form of a text, byte by byte.
pub open spec fn json_escaped(s: Seq<u8>) -> Seq<u8>
    decreases s.len(),
{
    if s.len() == 0 {
        Seq::empty()
    } else {
        json_escaped(s.drop_last()) + escape_byte(s.last())
    }
}

/// A JSON string literal: the escaped text between double quotes.
pub open spec fn json_string(s: Seq<u8>) -> Seq<u8> {
    seq![0x22u8] + json_escaped(s) + seq![0x22u8]
}

/// The bytes of `"id":`.
pub open spec fn id_key_bytes() -> Seq<u8> {
    seq![0x22u8, 0x69u8, 0x64u8, 0x22u8, 0x3Au8]
}

/// The bytes of `"text":`.
pub open spec fn text_key_bytes() -> Seq<u8> {
    seq![0x22u8, 0x74u8, 0x65u8, 0x78u8, 0x74u8, 0x22u8, 0x3Au8]
}

/// The bytes of `"items":`.
pub open spec fn items_key_bytes() -> Seq<u8> {
    seq![0x22u8, 0x69u8, 0x74u8, 0x65u8, 0x6Du8, 0x73u8, 0x22u8, 0x3Au8]
}

/// The body of a created-todo response: `{"id":<id>,"text":<text>}`.
pub open spec fn todo_json(id: Seq<u8>, text: Seq<u8>) -> Seq<u8> {
    seq![0x7Bu8] + id_key_bytes() + json_string(id) + seq![0x2Cu8] + text_key_bytes()
        + json_string(text) + seq![0x7Du8]
}

/// The response body of one todo record.
pub open spec fn todo_json_of(t: TodoView) -> Seq<u8> {
    todo_json(encode_utf8(t.id), encode_utf8(t.text))
}

/// The comma-separated array elements of a list of todos.
pub open spec fn todos_array_json(ts: Seq<TodoView>) -> Seq<u8>
    decreases ts.len(),
{
    if ts.len() == 0 {
        Seq::empty()
    } else if ts.len() == 1 {
        todo_json_of(ts[0])
    } else {
        todos_array_json(ts.drop_last()) + seq![0x2Cu8] + todo_json_of(ts.last())
    }
}

/// The body of a list response: `{"items":[<todo>,...]}`.
pub open spec fn todo_list_json(ts: Seq<TodoView>) -> Seq<u8> {
    seq![0x7Bu8] + items_key_bytes() + seq![0x5Bu8] + todos_array_json(ts) + seq![0x5Du8, 0x7Du8]
}

/// One lower-case hexadecimal digit.
fn hex_digit_exec(n: u8) -> (r: u8)
    requires
        n < 16,
    ensures
        r == hex_digit(n),
{
    if n < 10 {
        0x30 + n
    } else {
        0x57 + n
    }
}

/// Appends the JSON escape of one text byte.
fn write_escaped_byte(out: &mut Vec<u8>, b: u8)
    ensures
        final(out)@ == old(out)@ + escape_byte(b),
{
    if b == 0x22 {
        out.push(0x5C);
        out.push(0x22);
    } else if b == 0x5C {
        out.push(0x5C);
        out.push(0x5C);
    } else if b == 0x08 {
        out.push(0x5C);
        out.push(0x62);
    } else if b == 0x09 {
        out.push(0x5C);
        out.push(0x74);
    } else if b == 0x0A {
        out.push(0x5C);
        out.push(0x6E);
    } else if b == 0x0C {
        out.push(0x5C);
        out.push(0x66);
    } else if b == 0x0D {
        out.push(0x5C);
        out.push(0x72);
    } else if b < 0x20 {
        out.push(0x5C);
        out.push(0x75);
        out.push(0x30);
        out.push(0x30);
        out.push(hex_digit_exec(b / 16));
        out.push(hex_digit_exec(b % 16));
    } else {
        out.push(b);
    }
    proof {
        assert(out@ =~= old(out)@ + escape_byte(b));
    }
}

/// Appends the JSON string literal of a text.
fn write_json_string(out: &mut Vec<u8>, s: &str)
    ensures
        final(out)@ == old(out)@ + json_string(encode_utf8(s@)),
{
    let bytes = s.as_bytes_vec();
    out.push(0x22);
    let n = bytes.len();
    let mut i: usize = 0;
    while i < n
        invariant
            i <= n,
            n == bytes@.len(),
            bytes@ == encode_utf8(s@),
            out@ == old(out)@ + seq![0x22u8] + json_escaped(bytes@.take(i as int)),
        decreases n - i,
    {
        write_escaped_byte(out, bytes[i]);
        proof {
            assert(bytes@.take(i + 1 as int).drop_last() =~= bytes@.take(i as int));
            assert(bytes@.take(i + 1 as int).last() == bytes@[i as int]);
        }
        i += 1;
    }
    out.push(0x22);
    proof {
        assert(bytes@.take(n as int) =~= bytes@);
        assert(out@ =~= old(out)@ + json_string(encode_utf8(s@)));
    }
}

/// Appends the response body of one todo record.
fn write_todo(out: &mut Vec<u8>, t: &Todo)
    ensures
        final(out)@ == old(out)@ + todo_json_of(t@),
{
    out.push(0x7B);
    out.push(0x22);
    out.push(0x69);
    out.push(0x64);
    out.push(0x22);
    out.push(0x3A);
    write_json_string(out, t.id.as_str());
    out.push(0x2C);
    out.push(0x22);
    out.push(0x74);
    out.push(0x65);
    out.push(0x78);
    out.push(0x74);
    out.push(0x22);
    out.push(0x3A);
    write_json_string(out, t.text.as_str());
    out.push(0x7D);
    proof {
        assert(out@ =~= old(out)@ + todo_json_of(t@));
    }
}

/// Renders the HTTP body of a created-todo response.
pub fn render_todo(t: &Todo) -> (r: Vec<u8>)
    ensures
        r@ == todo_json_of(t@),
{
    let mut out: Vec<u8> = Vec::new();
    write_todo(&mut out, t);
    proof {
        assert(out@ =~= todo_json_of(t@));
    }
    out
}

/// Renders the HTTP body of a list response, item for item, field for field,
/// in the order the backend handed the snapshot over.
pub fn render_todo_list(list: &TodoList) -> (r: Vec<u8>)
    ensures
        r@ == todo_list_json(list@),
{
    let mut out: Vec<u8> = Vec::new();
    out.push(0x7B);
    out.push(0x22);
    out.push(0x69);
    out.push(0x74);
    out.push(0x65);
    out.push(0x6D);
    out.push(0x73);
    out.push(0x22);
    out.push(0x3A);
    out.push(0x5B);
    proof {
        assert(out@ =~= seq![0x7Bu8] + items_key_bytes() + seq![0x5Bu8]);
        assert(list@.take(0) =~= Seq::<TodoView>::empty());
    }
    let ghost head: Seq<u8> = out@;
    let n = list.items.len();
    let mut i: usize = 0;
    while i < n
        invariant
            i <= n,
            n == list.items@.len(),
            list@.len() == n,
            out@ == head + todos_array_json(list@.take(i as int)),
        decreases n - i,
    {
        if i > 0 {
            out.push(0x2C);
        }
        write_todo(&mut out, &list.items[i]);
        proof {
            assert(list@[i as int] == list.items@[i as int]@);
            assert(list@.take(i + 1 as int).drop_last() =~= list@.take(i as int));
            assert(list@.take(i + 1 as int).last() == list@[i as int]);
            if i == 0 {
                assert(todos_array_json(list@.take(1)) == todo_json_of(list@[0]));
                assert(out@ =~= head + todos_array_json(list@.take(i + 1 as int)));
            } else {
                assert(out@ =~= head + todos_array_json(list@.take(i + 1 as int)));
            }
        }
        i += 1;
    }
    out.push(0x5D);
    out.push(0x7D);
    proof {
        assert(list@.take(n as int) =~= list@);
        assert(out@ =~= todo_list_json(list@));
    }
    out
}

// ---------------------------------------------------------------------------
// Parsing
// ---------------------------------------------------------------------------
/// JSON whitespace.
pub open spec fn is_ws(b: u8) -> bool {
    b == 0x20 || b == 0x09 || b == 0x0A || b == 0x0D
}

/// The first position at or after `i` holding no whitespace.
pub open spec fn skip_ws(s: Seq<u8>, i: int) -> int
    decreases s.len() - i,
{
    if 0 <= i < s.len() && is_ws(s[i]) {
        skip_ws(s, i + 1)
    } else {
        i
    }
}

/// What a simple escape `\c` stands for, if `c` is one.
pub open spec fn simple_escape(c: u8) -> Option<u8> {
    if c == 0x22 {  // \"
        Some(0x22u8)
    } else if c == 0x5C {  // \\
        Some(0x5Cu8)
    } else if c == 0x2F {  // \/
        Some(0x2Fu8)
    } else if c == 0x62 {  // \b
        Some(0x08u8)
    } else if c == 0x66 {  // \f
        Some(0x0Cu8)
    } else if c == 0x6E {  // \n
        Some(0x0Au8)
    } else if c == 0x72 {  // \r
        Some(0x0Du8)
    } else if c == 0x74 {  // \t
        Some(0x09u8)
    } else {
        None
    }
}

/// The value of one hexadecimal digit.
pub open spec fn hex_val(c: u8) -> Option<u32> {
    if 0x30 <= c <= 0x39 {
        Some((c - 0x30) as u32)
    } else if 0x41 <= c <= 0x46 {
        Some((c - 0x41 + 10) as u32)
    } else if 0x61 <= c <= 0x66 {
        Some((c - 0x61 + 10) as u32)
    } else {
        None
    }
}

/// The value of the four hexadecimal digits at `i`.
pub open spec fn hex4(s: Seq<u8>, i: int) -> Option<u32> {
    if 0 <= i && i + 4 <= s.len() {
        match (hex_val(s[i]), hex_val(s[i + 1]), hex_val(s[i + 2]), hex_val(s[i + 3])) {
            (Some(a), Some(b), Some(c), Some(d)) => Some(
                (a * 4096 + b * 256 + c * 16 + d) as u32,
            ),
            _ => None,
        }
    } else {
        None
    }
}

/// The UTF-8 encoding of one Unicode scalar value.
pub open spec fn utf8_bytes(cp: u32) -> Seq<u8> {
    if cp < 0x80 {
        seq![cp as u8]
    } else if cp < 0x800 {
        seq![(0xC0 + cp / 64) as u8, (0x80 + cp % 64) as u8]
    } else if cp < 0x10000 {
        seq![(0xE0 + cp / 4096) as u8, (0x80 + (cp / 64) % 64) as u8, (0x80 + cp % 64) as u8]
    } else {
        seq![
            (0xF0 + cp / 262144) as u8,
            (0x80 + (cp / 4096) % 64) as u8,
            (0x80 + (cp / 64) % 64) as u8,
            (0x80 + cp % 64) as u8,
        ]
    }
}

/// Parses the inside of a JSON string starting just after its opening quote:
/// on success, the unescaped UTF-8 bytes of its content and the position just
/// after the closing quote. Escapes are the simple ones and `\uXXXX`, where a
/// high surrogate must be completed by a low one and a lone surrogate is
/// malformed; unescaped control bytes are malformed.
pub open spec fn parse_string_body(s: Seq<u8>, i: int) -> Option<(Seq<u8>, int)>
    decreases s.len() - i,
{
    if i < 0 || i >= s.len() {
        None
    } else if s[i] == 0x22 {
        Some((Seq::empty(), i + 1))
    } else if s[i] == 0x5C {
        if i + 2 <= s.len() {
            let c = s[i + 1];
            match simple_escape(c) {
                Some(e) => match parse_string_body(s, i + 2) {
                    Some((rest, j)) => Some((seq![e] + rest, j)),
                    None => None,
                },
                None => if c == 0x75 {  // \uXXXX
                    match hex4(s, i + 2) {
                        Some(n) => if 0xD800 <= n <= 0xDBFF {
                            // a high surrogate: a low one must follow
                            if i + 8 <= s.len() && s[i + 6] == 0x5C && s[i + 7] == 0x75 {
                                match hex4(s, i + 8) {
                                    Some(m) => if 0xDC00 <= m <= 0xDFFF {
                                        match parse_string_body(s, i + 12) {
                                            Some((rest, j)) => Some(
                                                (
                                                    utf8_bytes(
                                                        (0x10000 + (n - 0xD800) * 0x400 + (m
                                                            - 0xDC00)) as u32,
                                                    ) + rest,
                                                    j,
                                                ),
                                            ),
                                            None => None,
                                        }
                                    } else {
                                        None
                                    },
                                    None => None,
                                }
                            } else {
                                None
                            }
                        } else if 0xDC00 <= n <= 0xDFFF {
                            None
                        } else {
                            match parse_string_body(s, i + 6) {
                                Some((rest, j)) => Some((utf8_bytes(n) + rest, j)),
                                None => None,
                            }
                        },
                        None => None,
                    }
                } else {
                    None
                },
            }
        } else {
            None
        }
    } else if s[i] < 0x20 {
        None
    } else {
        match parse_string_body(s, i + 1) {
            Some((rest, j)) => Some((seq![s[i]] + rest, j)),
            None => None,
        }
    }
}

/// The unescaped member name `text`.
pub open spec fn text_key() -> Seq<u8> {
    seq![0x74u8, 0x65u8, 0x78u8, 0x74u8]
}

/// The grammar of a create request body: one JSON object whose single member
/// is `"text"` holding a string, with whitespace wherever JSON allows it and
/// nothing after the object. On success, the unescaped UTF-8 bytes of the
/// text.
pub open spec fn parse_create_body(s: Seq<u8>) -> Option<Seq<u8>> {
    let i = skip_ws(s, 0);
    if i < s.len() && s[i] == 0x7B {  // '{'
        let j = skip_ws(s, i + 1);
        if j < s.len() && s[j] == 0x22 {  // the member name
            match parse_string_body(s, j + 1) {
                Some((key, a)) => if key == text_key() {
                    let b = skip_ws(s, a);
                    if b < s.len() && s[b] == 0x3A {  // ':'
                        let c = skip_ws(s, b + 1);
                        if c < s.len() && s[c] == 0x22 {  // the member value
                            match parse_string_body(s, c + 1) {
                                Some((v, d)) => {
                                    let e = skip_ws(s, d);
                                    if e < s.len() && s[e] == 0x7D {  // '}'
                                        if skip_ws(s, e + 1) == s.len() {
                                            Some(v)
                                        } else {
                                            None
                                        }
                                    } else {
                                        None
                                    }
                                },
                                None => None,
                            }
                        } else {
                            None
                        }
                    } else {
                        None
                    }
                } else {
                    None
                },
                None => None,
            }
        } else {
            None
        }
    } else {
        None
    }
}

/// Advances past whitespace.
fn skip_ws_exec(s: &Vec<u8>, i: usize) -> (r: usize)
    requires
        i <= s@.len(),
    ensures
        r == skip_ws(s@, i as int),
        i <= r <= s@.len(),
{
    let n = s.len();
    let mut j = i;
    while j < n && (s[j] == 0x20 || s[j] == 0x09 || s[j] == 0x0A || s[j] == 0x0D)
        invariant
            i <= j <= n,
            n == s@.len(),
            skip_ws(s@, i as int) == skip_ws(s@, j as int),
        decreases n - j,
    {
        j += 1;
    }
    j
}

/// The value of one hexadecimal digit.
fn hex_val_exec(c: u8) -> (r: Option<u32>)
    ensures
        r == hex_val(c),
{
    if 0x30 <= c && c <= 0x39 {
        Some((c - 0x30) as u32)
    } else if 0x41 <= c && c <= 0x46 {
        Some((c - 0x41 + 10) as u32)
    } else if 0x61 <= c && c <= 0x66 {
        Some((c - 0x61 + 10) as u32)
    } else {
        None
    }
}

/// The value of the four hexadecimal digits at `i`.
fn hex4_exec(s: &Vec<u8>, i: usize) -> (r: Option<u32>)
    requires
        i <= s@.len(),
    ensures
        r == hex4(s@, i as int),
        r matches Some(n) ==> n < 0x10000,
{
    if s.len() - i >= 4 {
        let a = hex_val_exec(s[i]);
        let b = hex_val_exec(s[i + 1]);
        let c = hex_val_exec(s[i + 2]);
        let d = hex_val_exec(s[i + 3]);
        match (a, b, c, d) {
            (Some(a), Some(b), Some(c), Some(d)) => Some(a * 4096 + b * 256 + c * 16 + d),
            _ => None,
        }
    } else {
        None
    }
}

/// The UTF-8 encoding of one Unicode scalar value.
fn utf8_bytes_exec(cp: u32) -> (v: Vec<u8>)
    requires
        cp < 0x110000,
    ensures
        v@ == utf8_bytes(cp),
{
    let mut v: Vec<u8> = Vec::new();
    if cp < 0x80 {
        v.push(cp as u8);
        proof {
            assert(v@ =~= utf8_bytes(cp));
        }
    } else if cp < 0x800 {
        v.push((0xC0 + cp / 64) as u8);
        v.push((0x80 + cp % 64) as u8);
        proof {
            assert(v@ =~= utf8_bytes(cp));
        }
    } else if cp < 0x10000 {
        v.push((0xE0 + cp / 4096) as u8);
        v.push((0x80 + (cp / 64) % 64) as u8);
        v.push((0x80 + cp % 64) as u8);
        proof {
            assert(v@ =~= utf8_bytes(cp));
        }
    } else {
        v.push((0xF0 + cp / 262144) as u8);
        v.push((0x80 + (cp / 4096) % 64) as u8);
        v.push((0x80 + (cp / 64) % 64) as u8);
        v.push((0x80 + cp % 64) as u8);
        proof {
            assert(v@ =~= utf8_bytes(cp));
        }
    }
    v
}

/// Parses the inside of a JSON string, one branch for one branch of
/// [`parse_string_body`].
fn parse_string_body_exec(s: &Vec<u8>, i: usize) -> (r: Option<(Vec<u8>, usize)>)
    requires
        i <= s@.len(),
    ensures
        match r {
            Some((v, j)) => parse_string_body(s@, i as int) == Some((v@, j as int)) && i < j
                <= s@.len(),
            None => parse_string_body(s@, i as int) is None,
        },
    decreases s@.len() - i,
{
    if i >= s.len() {
        None
    } else if s[i] == 0x22 {
        Some((Vec::new(), i + 1))
    } else if s[i] == 0x5C {
        if s.len() - i >= 2 {
            let c = s[i + 1];
            let simple = if c == 0x22 {
                Some(0x22u8)
            } else if c == 0x5C {
                Some(0x5Cu8)
            } else if c == 0x2F {
                Some(0x2Fu8)
            } else if c == 0x62 {
                Some(0x08u8)
            } else if c == 0x66 {
                Some(0x0Cu8)
            } else if c == 0x6E {
                Some(0x0Au8)
            } else if c == 0x72 {
                Some(0x0Du8)
            } else if c == 0x74 {
                Some(0x09u8)
            } else {
                None
            };
            proof {
                assert(simple == simple_escape(c));
            }
            match simple {
                Some(e) => match parse_string_body_exec(s, i + 2) {
                    Some((rest, j)) => {
                        let mut v: Vec<u8> = Vec::new();
                        v.push(e);
                        let mut rest = rest;
                        v.append(&mut rest);
                        proof {
                            assert(v@ =~= seq![e] + parse_string_body(s@, i + 2 as int).unwrap().0);
                        }
                        Some((v, j))
                    },
                    None => None,
                },
                None => if c == 0x75 {
                    match hex4_exec(s, i + 2) {
                        Some(n) => if 0xD800 <= n && n <= 0xDBFF {
                            if s.len() - i >= 8 && s[i + 6] == 0x5C && s[i + 7] == 0x75 {
                                match hex4_exec(s, i + 8) {
                                    Some(m) => if 0xDC00 <= m && m <= 0xDFFF {
                                        match parse_string_body_exec(s, i + 12) {
                                            Some((rest, j)) => {
                                                let cp: u32 = 0x10000 + (n - 0xD800) * 0x400 + (m
                                                    - 0xDC00);
                                                let mut v = utf8_bytes_exec(cp);
                                                let mut rest = rest;
                                                v.append(&mut rest);
                                                proof {
                                                    assert(v@ =~= utf8_bytes(cp)
                                                        + parse_string_body(
                                                        s@,
                                                        i + 12 as int,
                                                    ).unwrap().0);
                                                }
                                                Some((v, j))
                                            },
                                            None => None,
                                        }
                                    } else {
                                        None
                                    },
                                    None => None,
                                }
                            } else {
                                None
                            }
                        } else if 0xDC00 <= n && n <= 0xDFFF {
                            None
                        } else {
                            match parse_string_body_exec(s, i + 6) {
                                Some((rest, j)) => {
                                    let mut v = utf8_bytes_exec(n);
                                    let mut rest = rest;
                                    v.append(&mut rest);
                                    proof {
                                        assert(v@ =~= utf8_bytes(n) + parse_string_body(
                                            s@,
                                            i + 6 as int,
                                        ).unwrap().0);
                                    }
                                    Some((v, j))
                                },
                                None => None,
                            }
                        },
                        None => None,
                    }
                } else {
                    None
                },
            }
        } else {
            None
        }
    } else if s[i] < 0x20 {
        None
    } else {
        match parse_string_body_exec(s, i + 1) {
            Some((rest, j)) => {
                let mut v: Vec<u8> = Vec::new();
                v.push(s[i]);
                let mut rest = rest;
                v.append(&mut rest);
                proof {
                    assert(v@ =~= seq![s@[i as int]] + parse_string_body(
                        s@,
                        i + 1 as int,
                    ).unwrap().0);
                }
                Some((v, j))
            },
            None => None,
        }
    }
}

/// Parses a create request body against [`parse_create_body`], returning the
/// unescaped UTF-8 bytes of the text.
pub fn parse_create_body_exec(s: &Vec<u8>) -> (r: Option<Vec<u8>>)
    ensures
        match r {
            Some(v) => parse_create_body(s@) == Some(v@),
            None => parse_create_body(s@) is None,
        },
{
    let i = skip_ws_exec(s, 0);
    if i < s.len() && s[i] == 0x7B {
        let j = skip_ws_exec(s, i + 1);
        if j < s.len() && s[j] == 0x22 {
            match parse_string_body_exec(s, j + 1) {
                Some((key, a)) => {
                    let key_ok = key.len() == 4 && key[0] == 0x74 && key[1] == 0x65 && key[2]
                        == 0x78 && key[3] == 0x74;
                    proof {
                        assert(key_ok == (key@ =~= text_key()));
                    }
                    if key_ok {
                        let b = skip_ws_exec(s, a);
                        if b < s.len() && s[b] == 0x3A {
                            let c = skip_ws_exec(s, b + 1);
                            if c < s.len() && s[c] == 0x22 {
                                match parse_string_body_exec(s, c + 1) {
                                    Some((v, d)) => {
                                        let e = skip_ws_exec(s, d);
                                        if e < s.len() && s[e] == 0x7D {
                                            if skip_ws_exec(s, e + 1) == s.len() {
                                                Some(v)
                                            } else {
                                                None
                                            }
                                        } else {
                                            None
                                        }
                                    },
                                    None => None,
                                }
                            } else {
                                None
                            }
                        } else {
                            None
                        }
                    } else {
                        None
                    }
                },
                None => None,
            }
        } else {
            None
        }
    } else {
        None
    }
}

} // verus!
