//! The progress log: a text file to which entries are appended, each followed
//! by a line feed, and which is read back line by line.
use std::string::FromUtf8Error;
use vstd::prelude::*;
use vstd::utf8::{decode_utf8, encode_scalar, encode_utf8, valid_utf8};

verus! {

/// What `String::from_utf8` tells of bytes that are no text.
#[verifier::external_type_specification]
#[verifier::external_body]
pub struct ExFromUtf8Error(FromUtf8Error);

/// Why a log cannot be read.
#[derive(Clone, Copy, Debug, PartialEq, Eq, Structural)]
pub enum ProgressError {
    /// The log is not text.
    InvalidUtf8,
}

/// The position of the first `lf`; the length if there is none.
pub open spec fn line_end<T>(s: Seq<T>, lf: T) -> int
    decreases s.len(),
{
    if s.len() == 0 || s[0] == lf {
        0
    } else {
        1 + line_end(s.drop_first(), lf)
    }
}

/// A line without the `cr` that it ends in, if it does.
pub open spec fn strip_cr<T>(line: Seq<T>, cr: T) -> Seq<T> {
    if line.len() > 0 && line.last() == cr {
        line.drop_last()
    } else {
        line
    }
}

/// The lines of a sequence: each goes up to an `lf`, which is dropped together
/// with one `cr` before it. What follows the last `lf` is a line as it stands,
/// unless nothing does.
pub open spec fn split_lines<T>(s: Seq<T>, lf: T, cr: T) -> Seq<Seq<T>>
    decreases s.len(),
{
    if s.len() == 0 {
        seq![]
    } else {
        let end = line_end(s, lf);
        if end == s.len() {
            seq![s]
        } else {
            proof {
                lemma_line_end(s, lf);
            }
            seq![strip_cr(s.take(end), cr)] + split_lines(s.skip(end + 1), lf, cr)
        }
    }
}

/// The lines of a text.
pub open spec fn text_lines(text: Seq<char>) -> Seq<Seq<char>> {
    split_lines(text, '\n', '\r')
}

/// The lines of a file, as bytes.
spec fn byte_lines(content: Seq<u8>) -> Seq<Seq<u8>> {
    split_lines(content, 10u8, 13u8)
}

/// The bytes that an entry adds to the log.
pub open spec fn entry_bytes(data: Seq<char>) -> Seq<u8> {
    encode_utf8(data) + seq![10u8]
}

/// The bytes that entries add to the log, one after the other.
pub open spec fn log_bytes(entries: Seq<Seq<char>>) -> Seq<u8>
    decreases entries.len(),
{
    if entries.len() == 0 {
        seq![]
    } else {
        log_bytes(entries.drop_last()) + entry_bytes(entries.last())
    }
}

/// Whether a log is empty or its last line is ended.
pub open spec fn is_ended(content: Seq<u8>) -> bool {
    content.len() > 0 ==> content.last() == 10u8
}

/// The lines that entries are read back as.
pub open spec fn entry_lines(entries: Seq<Seq<char>>) -> Seq<Seq<char>>
    decreases entries.len(),
{
    if entries.len() == 0 {
        seq![]
    } else {
        entry_lines(entries.drop_last()) + text_lines(entries.last().push('\n'))
    }
}

/// Whether reading a log gives the lines `lines`.
pub open spec fn reads_as(content: Seq<u8>, lines: Seq<Seq<char>>) -> bool {
    valid_utf8(content) && lines == text_lines(decode_utf8(content))
}

/// Whether an entry is read back as the one line that it is.
pub open spec fn is_one_line(data: Seq<char>) -> bool {
    !data.contains('\n') && (data.len() > 0 ==> data.last() != '\r')
}

/// The first `lf` is one, and none is before it.
pub proof fn lemma_line_end<T>(s: Seq<T>, lf: T)
    ensures
        0 <= line_end(s, lf) <= s.len(),
        line_end(s, lf) < s.len() ==> s[line_end(s, lf)] == lf,
        forall|i: int| 0 <= i < line_end(s, lf) ==> s[i] != lf,
    decreases s.len(),
{
    if s.len() > 0 && s[0] != lf {
        lemma_line_end(s.drop_first(), lf);
        assert forall|i: int| 0 <= i < line_end(s, lf) implies s[i] != lf by {
            if i > 0 {
                assert(s.drop_first()[i - 1] == s[i]);
            }
        }
    }
}

/// There is only one position that can be the first.
proof fn lemma_line_end_unique<T>(s: Seq<T>, lf: T, end: int)
    requires
        0 <= end <= s.len(),
        end < s.len() ==> s[end] == lf,
        forall|i: int| 0 <= i < end ==> s[i] != lf,
    ensures
        line_end(s, lf) == end,
{
    lemma_line_end(s, lf);
    let e = line_end(s, lf);
    if e < end {
        assert(s[e] != lf);
    } else if end < e {
        assert(s[end] != lf);
    }
}

/// `String::from_utf8`. It gives the text that the bytes encode, if they encode
/// one.
#[verifier::external_body]
fn string_from_utf8(bytes: Vec<u8>) -> (r: Result<String, FromUtf8Error>)
    ensures
        r is Ok <==> valid_utf8(bytes@),
        r is Ok ==> r->Ok_0@ == decode_utf8(bytes@),
{
    String::from_utf8(bytes)
}

/// Whether no byte is below 0x80.
spec fn beyond_ascii(bytes: Seq<u8>) -> bool {
    forall|i: int| 0 <= i < bytes.len() ==> bytes[i] >= 0x80
}

/// A character below 0x80 is encoded as itself, and no byte of another is below
/// 0x80.
proof fn lemma_encode_scalar(c: char)
    ensures
        encode_scalar(c as u32).len() > 0,
        c as u32 == c as int,
        (c as u32) < 0x80 ==> c as u8 == c as int,
        (c as u32) < 0x80 ==> encode_scalar(c as u32) == seq![c as u8],
        (c as u32) >= 0x80 ==> beyond_ascii(encode_scalar(c as u32)),
{
    let v = c as u32;
    vstd::utf8::char_is_scalar(c);
    assert(v < 0x80 ==> (v & 0x7F) as u8 == v as u8) by (bit_vector);
    assert(0xC0 | ((v >> 6) & 0x1F) as u8 >= 0x80) by (bit_vector);
    assert(0xE0 | ((v >> 12) & 0x0F) as u8 >= 0x80) by (bit_vector);
    assert(0xF0 | ((v >> 18) & 0x7) as u8 >= 0x80) by (bit_vector);
    assert(0x80 | (v & 0x3F) as u8 >= 0x80) by (bit_vector);
    assert(0x80 | ((v >> 6) & 0x3F) as u8 >= 0x80) by (bit_vector);
    assert(0x80 | ((v >> 12) & 0x3F) as u8 >= 0x80) by (bit_vector);
}

proof fn lemma_encode_concat(a: Seq<char>, b: Seq<char>)
    ensures
        encode_utf8(a + b) == encode_utf8(a) + encode_utf8(b),
    decreases a.len(),
{
    if a.len() == 0 {
        assert(a + b =~= b);
    } else {
        assert((a + b).drop_first() =~= a.drop_first() + b);
        lemma_encode_concat(a.drop_first(), b);
    }
}

proof fn lemma_encode_one(c: char)
    ensures
        encode_utf8(seq![c]) == encode_scalar(c as u32),
{
    assert(seq![c].drop_first() =~= Seq::<char>::empty());
    assert(encode_utf8(Seq::<char>::empty()) =~= Seq::<u8>::empty());
}

/// Text without a line feed has no byte of one.
proof fn lemma_encode_without_lf(s: Seq<char>)
    requires
        forall|i: int| 0 <= i < s.len() ==> s[i] != '\n',
    ensures
        forall|i: int| 0 <= i < encode_utf8(s).len() ==> encode_utf8(s)[i] != 10u8,
    decreases s.len(),
{
    if s.len() > 0 {
        let rest = s.drop_first();
        let first = encode_scalar(s[0] as u32);
        assert forall|i: int| 0 <= i < rest.len() implies rest[i] != '\n' by {
            assert(rest[i] == s[i + 1]);
        }
        lemma_encode_without_lf(rest);
        lemma_encode_scalar(s[0]);
        assert forall|i: int| 0 <= i < encode_utf8(s).len() implies encode_utf8(s)[i] != 10u8 by {
            if i < first.len() {
                assert(encode_utf8(s)[i] == first[i]);
                if (s[0] as u32) < 0x80 {
                    assert(first[i] == s[0] as u8);
                } else {
                    assert(first[i] >= 0x80);
                }
            } else {
                assert(encode_utf8(s)[i] == encode_utf8(rest)[i - first.len()]);
            }
        }
    }
}

/// The carriage return that a line ends in is its last byte.
proof fn lemma_encode_strip(line: Seq<char>)
    ensures
        strip_cr(encode_utf8(line), 13u8) == encode_utf8(strip_cr(line, '\r')),
{
    if line.len() > 0 {
        let c = line.last();
        let rest = line.drop_last();
        assert(line =~= rest + seq![c]);
        lemma_encode_concat(rest, seq![c]);
        lemma_encode_one(c);
        lemma_encode_scalar(c);
        if c == '\r' {
            assert(encode_utf8(line).drop_last() =~= encode_utf8(rest));
        } else {
            let last = encode_scalar(c as u32);
            assert(encode_utf8(line).last() == last[last.len() - 1]);
            if (c as u32) < 0x80 {
                assert(last[0] == c as u8);
            } else {
                assert(last[last.len() - 1] >= 0x80);
            }
        }
    }
}

/// The lines of encoded text are the encoded lines of the text.
proof fn lemma_encode_lines(s: Seq<char>)
    ensures
        byte_lines(encode_utf8(s)).len() == text_lines(s).len(),
        forall|i: int|
            0 <= i < text_lines(s).len() ==> #[trigger] byte_lines(encode_utf8(s))[i]
                == encode_utf8(text_lines(s)[i]),
    decreases s.len(),
{
    if s.len() > 0 {
        let end = line_end(s, '\n');
        let bytes = encode_utf8(s);
        lemma_line_end(s, '\n');
        let head = s.take(end);
        lemma_encode_without_lf(head);
        if end == s.len() {
            assert(head =~= s);
            lemma_encode_scalar(s[0]);
            lemma_line_end_unique(bytes, 10u8, bytes.len() as int);
            assert(byte_lines(bytes) =~= seq![bytes]);
        } else {
            let tail = s.skip(end + 1);
            assert(s =~= head + (seq!['\n'] + tail));
            lemma_encode_concat(head, seq!['\n'] + tail);
            lemma_encode_concat(seq!['\n'], tail);
            lemma_encode_one('\n');
            lemma_encode_scalar('\n');
            let at = encode_utf8(head).len() as int;
            assert(bytes =~= encode_utf8(head) + (seq![10u8] + encode_utf8(tail)));
            assert forall|i: int| 0 <= i < at implies bytes[i] != 10u8 by {
                assert(bytes[i] == encode_utf8(head)[i]);
            }
            assert(bytes[at] == 10u8);
            lemma_line_end_unique(bytes, 10u8, at);
            assert(bytes.take(at) =~= encode_utf8(head));
            assert(bytes.skip(at + 1) =~= encode_utf8(tail));
            lemma_encode_strip(head);
            lemma_encode_lines(tail);
            assert(byte_lines(bytes) =~= seq![strip_cr(encode_utf8(head), 13u8)] + byte_lines(
                encode_utf8(tail),
            ));
            assert(text_lines(s) =~= seq![strip_cr(head, '\r')] + text_lines(tail));
            assert forall|i: int| 0 <= i < text_lines(s).len() implies #[trigger] byte_lines(
                bytes,
            )[i] == encode_utf8(text_lines(s)[i]) by {
                if i > 0 {
                    assert(byte_lines(encode_utf8(tail))[i - 1] == encode_utf8(
                        text_lines(tail)[i - 1],
                    ));
                }
            }
        }
    }
}

proof fn lemma_ascii_is_valid(b: u8)
    requires
        b < 0x80,
    ensures
        valid_utf8(seq![b]),
{
    let c = b as char;
    lemma_encode_one(c);
    lemma_encode_scalar(c);
    vstd::utf8::encode_utf8_valid_utf8(seq![c]);
}

/// A file is text if and only if each of its lines is.
proof fn lemma_valid_lines(content: Seq<u8>)
    ensures
        valid_utf8(content) <==> forall|i: int|
            0 <= i < byte_lines(content).len() ==> valid_utf8(#[trigger] byte_lines(content)[i]),
    decreases content.len(),
{
    let lines = byte_lines(content);
    if valid_utf8(content) {
        let text = decode_utf8(content);
        vstd::utf8::decode_utf8_encode_utf8(content);
        lemma_encode_lines(text);
        assert forall|i: int| 0 <= i < lines.len() implies valid_utf8(#[trigger] lines[i]) by {
            vstd::utf8::encode_utf8_valid_utf8(text_lines(text)[i]);
        }
    }
    if forall|i: int| 0 <= i < lines.len() ==> valid_utf8(#[trigger] lines[i]) {
        if content.len() > 0 {
            let end = line_end(content, 10u8);
            lemma_line_end(content, 10u8);
            if end == content.len() {
                assert(lines =~= seq![content]);
                assert(valid_utf8(lines[0]));
            } else {
                let head = content.take(end);
                let line = strip_cr(head, 13u8);
                let tail = content.skip(end + 1);
                assert(lines =~= seq![line] + byte_lines(tail));
                assert(valid_utf8(lines[0]));
                lemma_ascii_is_valid(13u8);
                lemma_ascii_is_valid(10u8);
                vstd::utf8::valid_utf8_concat(line, seq![13u8]);
                if line != head {
                    assert(head =~= line + seq![13u8]);
                }
                assert(valid_utf8(head));
                assert forall|i: int| 0 <= i < byte_lines(tail).len() implies valid_utf8(
                    #[trigger] byte_lines(tail)[i],
                ) by {
                    assert(lines[i + 1] == byte_lines(tail)[i]);
                }
                lemma_valid_lines(tail);
                vstd::utf8::valid_utf8_concat(seq![10u8], tail);
                vstd::utf8::valid_utf8_concat(head, seq![10u8] + tail);
                assert(content =~= head + (seq![10u8] + tail));
            }
        }
    }
}

/// The bytes that an entry adds to the log: those of its text and a line feed.
pub fn format_entry(data: &str) -> (r: Vec<u8>)
    ensures
        r@ == entry_bytes(data@),
{
    let mut bytes: Vec<u8> = vstd::slice::slice_to_vec(data.as_bytes());
    bytes.push(10);
    bytes
}

/// The lines of a log.
pub fn parse_lines(content: &[u8]) -> (r: Result<Vec<String>, ProgressError>)
    ensures
        match r {
            Ok(lines) => reads_as(content@, lines@.map_values(|line: String| line@)),
            Err(error) => !valid_utf8(content@) && error == ProgressError::InvalidUtf8,
        },
{
    let mut lines: Vec<String> = Vec::new();
    let ghost mut done: Seq<Seq<u8>> = seq![];
    let mut start: usize = 0;
    assert(content@.skip(0) =~= content@);
    assert(byte_lines(content@) =~= done + byte_lines(content@));
    while start < content.len()
        invariant
            start <= content.len(),
            byte_lines(content@) == done + byte_lines(content@.skip(start as int)),
            lines.len() == done.len(),
            forall|i: int|
                0 <= i < done.len() ==> valid_utf8(#[trigger] done[i]) && lines@[i]@ == decode_utf8(
                    done[i],
                ),
        decreases content.len() - start,
    {
        let ghost left = content@.skip(start as int);
        let mut end: usize = start;
        while end < content.len() && content[end] != 10
            invariant
                start <= end <= content.len(),
                forall|i: int| start <= i < end ==> content@[i] != 10u8,
            decreases content.len() - end,
        {
            end = end + 1;
        }
        let ended: bool = end < content.len();
        let stop: usize = if ended && start < end && content[end - 1] == 13 {
            end - 1
        } else {
            end
        };
        let line: Vec<u8> = vstd::slice::slice_to_vec(
            vstd::slice::slice_subrange(content, start, stop),
        );
        let ghost raw = line@;
        let next: usize = if ended {
            end + 1
        } else {
            end
        };
        proof {
            lemma_line_end_unique(left, 10u8, end - start);
            if ended {
                assert(left.take(end - start) =~= content@.subrange(start as int, end as int));
                assert(raw =~= strip_cr(left.take(end - start), 13u8));
                assert(left.skip(end - start + 1) =~= content@.skip(next as int));
            } else {
                assert(raw =~= left);
                assert(content@.skip(next as int) =~= Seq::<u8>::empty());
            }
            assert(byte_lines(left) =~= seq![raw] + byte_lines(content@.skip(next as int)));
            assert(byte_lines(content@) =~= done.push(raw) + byte_lines(
                content@.skip(next as int),
            ));
            assert(byte_lines(content@)[done.len() as int] == raw);
            lemma_valid_lines(content@);
        }
        match string_from_utf8(line) {
            Ok(text) => {
                lines.push(text);
            },
            Err(_) => {
                return Err(ProgressError::InvalidUtf8);
            },
        }
        proof {
            done = done.push(raw);
        }
        start = next;
    }
    proof {
        assert(content@.skip(start as int) =~= Seq::<u8>::empty());
        assert(byte_lines(content@) =~= done);
        lemma_valid_lines(content@);
        let text = decode_utf8(content@);
        vstd::utf8::decode_utf8_encode_utf8(content@);
        lemma_encode_lines(text);
        let read = lines@.map_values(|line: String| line@);
        assert forall|i: int| 0 <= i < read.len() implies read[i] == text_lines(text)[i] by {
            assert(byte_lines(encode_utf8(text))[i] == encode_utf8(text_lines(text)[i]));
            vstd::utf8::encode_utf8_decode_utf8(text_lines(text)[i]);
        }
        assert(read =~= text_lines(text));
    }
    Ok(lines)
}

/// An entry is the encoding of its text and a line feed.
proof fn lemma_entry_bytes(data: Seq<char>)
    ensures
        entry_bytes(data) == encode_utf8(data.push('\n')),
{
    lemma_encode_concat(data, seq!['\n']);
    lemma_encode_one('\n');
    lemma_encode_scalar('\n');
    assert(data.push('\n') =~= data + seq!['\n']);
}

/// Text that follows a line feed starts a line of its own.
proof fn lemma_text_lines_concat(a: Seq<char>, b: Seq<char>)
    requires
        a.len() > 0 ==> a.last() == '\n',
    ensures
        text_lines(a + b) == text_lines(a) + text_lines(b),
    decreases a.len(),
{
    if a.len() == 0 {
        assert(a + b =~= b);
        assert(text_lines(a) + text_lines(b) =~= text_lines(b));
    } else {
        let end = line_end(a, '\n');
        lemma_line_end(a, '\n');
        if end == a.len() {
            assert(a[a.len() - 1] != '\n');
        }
        let tail = a.skip(end + 1);
        assert forall|i: int| 0 <= i < end implies (a + b)[i] != '\n' by {
            assert((a + b)[i] == a[i]);
        }
        lemma_line_end_unique(a + b, '\n', end);
        assert((a + b).take(end) =~= a.take(end));
        assert((a + b).skip(end + 1) =~= tail + b);
        if tail.len() > 0 {
            assert(tail.last() == a.last());
        }
        lemma_text_lines_concat(tail, b);
        assert(text_lines(a + b) =~= text_lines(a) + text_lines(b));
    }
}

/// Text whose encoding ends in the byte of a line feed ends in a line feed.
proof fn lemma_last_is_lf(text: Seq<char>)
    requires
        is_ended(encode_utf8(text)),
    ensures
        text.len() > 0 ==> text.last() == '\n',
{
    if text.len() > 0 {
        let c = text.last();
        let rest = text.drop_last();
        assert(text =~= rest + seq![c]);
        lemma_encode_concat(rest, seq![c]);
        lemma_encode_one(c);
        lemma_encode_scalar(c);
        let last = encode_scalar(c as u32);
        assert(encode_utf8(text).last() == last[last.len() - 1]);
        if (c as u32) >= 0x80 {
            assert(last[last.len() - 1] >= 0x80);
        }
    }
}

/// What a log reads as after an entry was appended: the lines of its old text
/// followed by the entry and a line feed. A log that could be read can still be
/// read.
pub proof fn law_append_to_any_log(content: Seq<u8>, data: Seq<char>)
    requires
        valid_utf8(content),
    ensures
        reads_as(
            content + entry_bytes(data),
            text_lines(decode_utf8(content) + data.push('\n')),
        ),
{
    let text = decode_utf8(content);
    vstd::utf8::decode_utf8_encode_utf8(content);
    lemma_entry_bytes(data);
    lemma_encode_concat(text, data.push('\n'));
    vstd::utf8::encode_utf8_valid_utf8(text + data.push('\n'));
    vstd::utf8::encode_utf8_decode_utf8(text + data.push('\n'));
}

/// Reading a log after entries were appended gives the lines that it gave
/// before, and then those of the entries, in the order in which they were
/// written.
pub proof fn law_writes_are_read_back(
    content: Seq<u8>,
    lines: Seq<Seq<char>>,
    entries: Seq<Seq<char>>,
)
    requires
        reads_as(content, lines),
        is_ended(content),
    ensures
        reads_as(content + log_bytes(entries), lines + entry_lines(entries)),
        is_ended(content + log_bytes(entries)),
    decreases entries.len(),
{
    if entries.len() == 0 {
        assert(content + log_bytes(entries) =~= content);
        assert(lines + entry_lines(entries) =~= lines);
    } else {
        let rest = entries.drop_last();
        let data = entries.last();
        law_writes_are_read_back(content, lines, rest);
        let before = content + log_bytes(rest);
        let text = decode_utf8(before);
        vstd::utf8::decode_utf8_encode_utf8(before);
        lemma_last_is_lf(text);
        lemma_text_lines_concat(text, data.push('\n'));
        law_append_to_any_log(before, data);
        assert(content + log_bytes(entries) =~= before + entry_bytes(data));
        assert(lines + entry_lines(entries) =~= (lines + entry_lines(rest)) + text_lines(
            data.push('\n'),
        ));
        assert((content + log_bytes(entries)).last() == 10u8);
    }
}

/// An entry without a line feed that does not end in a carriage return is read
/// back as it is.
pub proof fn law_one_line_entry(data: Seq<char>)
    requires
        is_one_line(data),
    ensures
        text_lines(data.push('\n')) == seq![data],
{
    let s = data.push('\n');
    assert forall|i: int| 0 <= i < data.len() implies s[i] != '\n' by {
        assert(data.contains(data[i]));
    }
    lemma_line_end_unique(s, '\n', data.len() as int);
    assert(s.take(data.len() as int) =~= data);
    assert(s.skip(data.len() as int + 1) =~= Seq::<char>::empty());
    assert(text_lines(Seq::<char>::empty()) =~= seq![]);
    assert(text_lines(s) =~= seq![strip_cr(data, '\r')] + seq![]);
    assert(text_lines(s) =~= seq![data]);
}

/// A log to which only entries of one line were written reads as those entries.
pub proof fn law_one_line_entries_are_read_back(entries: Seq<Seq<char>>)
    requires
        forall|i: int| 0 <= i < entries.len() ==> is_one_line(#[trigger] entries[i]),
    ensures
        reads_as(log_bytes(entries), entries),
{
    lemma_one_line_entries(entries);
    let empty = Seq::<u8>::empty();
    vstd::utf8::encode_utf8_valid_utf8(Seq::<char>::empty());
    assert(encode_utf8(Seq::<char>::empty()) =~= empty);
    vstd::utf8::encode_utf8_decode_utf8(Seq::<char>::empty());
    law_writes_are_read_back(empty, seq![], entries);
    assert(empty + log_bytes(entries) =~= log_bytes(entries));
    assert(Seq::<Seq<char>>::empty() + entry_lines(entries) =~= entry_lines(entries));
}

proof fn lemma_one_line_entries(entries: Seq<Seq<char>>)
    requires
        forall|i: int| 0 <= i < entries.len() ==> is_one_line(#[trigger] entries[i]),
    ensures
        entry_lines(entries) == entries,
    decreases entries.len(),
{
    if entries.len() > 0 {
        let rest = entries.drop_last();
        assert forall|i: int| 0 <= i < rest.len() implies is_one_line(#[trigger] rest[i]) by {
            assert(entries[i] == rest[i]);
        }
        lemma_one_line_entries(rest);
        assert(is_one_line(entries[entries.len() - 1]));
        law_one_line_entry(entries.last());
        assert(entry_lines(entries) =~= entries);
    }
}

/// No line that is read holds a line feed.
pub proof fn law_lines_hold_no_line_feed(text: Seq<char>, i: int)
    requires
        0 <= i < text_lines(text).len(),
    ensures
        !text_lines(text)[i].contains('\n'),
    decreases text.len(),
{
    let end = line_end(text, '\n');
    lemma_line_end(text, '\n');
    if end < text.len() {
        let tail = text.skip(end + 1);
        assert(text_lines(text) =~= seq![strip_cr(text.take(end), '\r')] + text_lines(tail));
        if i > 0 {
            law_lines_hold_no_line_feed(tail, i - 1);
        }
    }
}

/// An entry is written as the bytes of its text and one line feed.
pub proof fn law_entry_is_its_text_and_a_line_feed(data: &str, r: Vec<u8>)
    requires
        call_ensures(format_entry, (data,), r),
    ensures
        r@ == encode_utf8(data@).push(10u8),
{
    assert(encode_utf8(data@) + seq![10u8] =~= encode_utf8(data@).push(10u8));
}

/// Text is read line by line. What stands before a line feed is a line, without
/// the one carriage return that it may end in, and the lines of what follows come
/// after it; what no line feed ends is a line as it is, and no text has no line.
pub proof fn law_text_is_read_line_by_line(line: Seq<char>, rest: Seq<char>)
    requires
        !line.contains('\n'),
    ensures
        text_lines(Seq::<char>::empty()).len() == 0,
        line.len() > 0 ==> text_lines(line) == seq![line],
        text_lines(line.push('\n') + rest) == seq![
            if line.len() > 0 && line[line.len() - 1] == '\r' {
                line.take(line.len() - 1)
            } else {
                line
            },
        ] + text_lines(rest),
{
    let n = line.len() as int;
    let s = line.push('\n') + rest;
    assert forall|i: int| 0 <= i < n implies line[i] != '\n' by {
        assert(line.contains(line[i]));
    }
    lemma_line_end_unique(line, '\n', n);
    assert forall|i: int| 0 <= i < n implies s[i] != '\n' by {
        assert(s[i] == line[i]);
    }
    lemma_line_end_unique(s, '\n', n);
    assert(s.take(n) =~= line);
    assert(s.skip(n + 1) =~= rest);
    assert(line.len() > 0 ==> line.drop_last() =~= line.take(n - 1));
}

/// A log is read exactly where it is text, and as the lines of that text; another
/// one is refused as such.
pub proof fn law_log_is_read_as_its_text(
    content: &[u8],
    r: Result<Vec<String>, ProgressError>,
)
    requires
        call_ensures(parse_lines, (content,), r),
    ensures
        r is Ok <==> valid_utf8(content@),
        r is Err ==> r == Err::<Vec<String>, _>(ProgressError::InvalidUtf8),
        forall|text: Seq<char>|
            content@ == #[trigger] encode_utf8(text) ==> (r matches Ok(lines) && lines@.map_values(
                |line: String| line@,
            ) == text_lines(text)),
{
    assert forall|text: Seq<char>| content@ == #[trigger] encode_utf8(text) implies (
    r matches Ok(lines) && lines@.map_values(|line: String| line@) == text_lines(text)) by {
        vstd::utf8::encode_utf8_valid_utf8(text);
        vstd::utf8::encode_utf8_decode_utf8(text);
    }
}

/// A log to which an entry of one line was appended is read as before, with the
/// entry as one more line.
pub proof fn law_appended_entry_is_the_last_line(
    before: &[u8],
    data: &str,
    entry: Vec<u8>,
    after: &[u8],
    old_lines: Vec<String>,
    r: Result<Vec<String>, ProgressError>,
)
    requires
        before@.len() > 0 ==> before@[before@.len() - 1] == 10,
        !data@.contains('\n'),
        data@.len() > 0 ==> data@[data@.len() - 1] != '\r',
        call_ensures(parse_lines, (before,), Ok(old_lines)),
        call_ensures(format_entry, (data,), entry),
        after@ == before@ + entry@,
        call_ensures(parse_lines, (after,), r),
    ensures
        ({
            let n = old_lines@.len() as int;
            &&& r matches Ok(lines)
            &&& lines@.len() == n + 1
            &&& lines@[n]@ == data@
            &&& forall|i: int| 0 <= i < n ==> (#[trigger] lines@[i])@ == old_lines@[i]@
        }),
{
    let old_text = old_lines@.map_values(|line: String| line@);
    let entries = seq![data@];
    assert(entries.drop_last() =~= Seq::<Seq<char>>::empty());
    assert(log_bytes(Seq::<Seq<char>>::empty()) =~= Seq::<u8>::empty());
    assert(log_bytes(entries) =~= entry@);
    law_one_line_entry(data@);
    assert(entry_lines(Seq::<Seq<char>>::empty()) =~= Seq::<Seq<char>>::empty());
    assert(entry_lines(entries) =~= seq![data@]);
    law_writes_are_read_back(before@, old_text, entries);
    assert(valid_utf8(after@));
    let lines = r->Ok_0;
    let text = lines@.map_values(|line: String| line@);
    assert(text =~= old_text + seq![data@]);
    assert forall|i: int| 0 <= i < lines@.len() implies (#[trigger] lines@[i])@ == text[i] by {}
    assert forall|i: int| 0 <= i < old_lines@.len() implies (#[trigger] lines@[i])@
        == old_lines@[i]@ by {
        assert(text[i] == old_text[i]);
    }
    assert(text[old_lines@.len() as int] == data@);
}

} // verus!
