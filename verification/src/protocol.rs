//! The line protocol that the pedal speaks over its serial port.
//!
//! Every command and every reply is one line of text ended by a line feed;
//! the pedal may put a carriage return before the line feed.
//!
//! | command        | reply            |
//! |----------------|------------------|
//! | `HEL`          | `LO`             |
//! | `VER`          | `VER<version>`   |
//! | `KEY`          | `KEY<key>`       |
//! | `KEY<key>`     | `ACK`            |

use vstd::prelude::*;
use vstd::slice::slice_subrange;
use vstd::slice::slice_to_vec;
use vstd::utf8::*;

verus! {

/// Line feed: ends every command and every reply.
pub const LINE_FEED: u8 = 0x0A;

/// Carriage return: the pedal may send it just before the line feed.
pub const CARRIAGE_RETURN: u8 = 0x0D;

/// The baud rate at which the pedal listens.
pub const BAUD_RATE: u32 = 115200;

/// How long a single read or write on the port may block, in seconds.
pub const PORT_TIMEOUT_SECS: u64 = 1;

// ---------------------------------------------------------------------------
// The texts of the protocol, as bytes.
// ---------------------------------------------------------------------------

/// `HEL`: asks the pedal to answer, opening the handshake.
pub open spec fn hello_text() -> Seq<u8> {
    seq![0x48u8, 0x45u8, 0x4Cu8]
}

/// `LO`: the pedal's answer to `HEL`.
pub open spec fn hello_reply() -> Seq<u8> {
    seq![0x4Cu8, 0x4Fu8]
}

/// `VER`: asks for the firmware version, and starts the reply that carries it.
pub open spec fn version_tag() -> Seq<u8> {
    seq![0x56u8, 0x45u8, 0x52u8]
}

/// `KEY`: asks for the emulated key, starts the reply that carries it, and
/// starts the command that sets it.
pub open spec fn key_tag() -> Seq<u8> {
    seq![0x4Bu8, 0x45u8, 0x59u8]
}

/// `ACK`: the pedal's answer to a command that sets the key.
pub open spec fn ack_reply() -> Seq<u8> {
    seq![0x41u8, 0x43u8, 0x4Bu8]
}

/// A command: its text followed by a line feed.
pub open spec fn command_line(text: Seq<u8>) -> Seq<u8> {
    text.push(LINE_FEED)
}

/// The command that sets the emulated key: `KEY`, the key in UTF-8, a line feed.
pub open spec fn set_key_command(key: char) -> Seq<u8> {
    command_line(key_tag() + encode_utf8(seq![key]))
}

/// `HEL` followed by a line feed.
pub fn hello_command() -> (bytes: Vec<u8>)
    ensures
        bytes@ == command_line(hello_text()),
{
    let bytes = vec![0x48u8, 0x45u8, 0x4Cu8, LINE_FEED];
    assert(bytes@ =~= command_line(hello_text()));
    bytes
}

/// `VER` followed by a line feed.
pub fn version_query() -> (bytes: Vec<u8>)
    ensures
        bytes@ == command_line(version_tag()),
{
    let bytes = vec![0x56u8, 0x45u8, 0x52u8, LINE_FEED];
    assert(bytes@ =~= command_line(version_tag()));
    bytes
}

/// `KEY` followed by a line feed.
pub fn key_query() -> (bytes: Vec<u8>)
    ensures
        bytes@ == command_line(key_tag()),
{
    let bytes = vec![0x4Bu8, 0x45u8, 0x59u8, LINE_FEED];
    assert(bytes@ =~= command_line(key_tag()));
    bytes
}

/// `LO`, the expected answer to `HEL`.
pub fn hello_reply_text() -> (bytes: Vec<u8>)
    ensures
        bytes@ == hello_reply(),
{
    let bytes = vec![0x4Cu8, 0x4Fu8];
    assert(bytes@ =~= hello_reply());
    bytes
}

/// `VER`, the start of the version reply.
pub fn version_tag_text() -> (bytes: Vec<u8>)
    ensures
        bytes@ == version_tag(),
{
    let bytes = vec![0x56u8, 0x45u8, 0x52u8];
    assert(bytes@ =~= version_tag());
    bytes
}

/// `KEY`, the start of the key reply.
pub fn key_tag_text() -> (bytes: Vec<u8>)
    ensures
        bytes@ == key_tag(),
{
    let bytes = vec![0x4Bu8, 0x45u8, 0x59u8];
    assert(bytes@ =~= key_tag());
    bytes
}

/// `ACK`, the expected answer to a command that sets the key.
pub fn ack_reply_text() -> (bytes: Vec<u8>)
    ensures
        bytes@ == ack_reply(),
{
    let bytes = vec![0x41u8, 0x43u8, 0x4Bu8];
    assert(bytes@ =~= ack_reply());
    bytes
}

/// The UTF-8 encoding of one character.
pub fn encode_char(c: char) -> (bytes: Vec<u8>)
    ensures
        bytes@ == encode_utf8(seq![c]),
{
    proof {
        char_is_scalar(c);
        assert(encode_utf8(seq![c]) == encode_scalar(c as u32) + encode_utf8(seq![c].drop_first()));
        assert(seq![c].drop_first() =~= Seq::<char>::empty());
        assert(encode_utf8(seq![c]) =~= encode_scalar(c as u32));
    }
    let v: u32 = c as u32;
    if v <= 0x7F {
        vec![(v & 0x7F) as u8]
    } else if v <= 0x7FF {
        vec![0xC0u8 | ((v >> 6) & 0x1F) as u8, 0x80u8 | (v & 0x3F) as u8]
    } else if v <= 0xFFFF {
        vec![
            0xE0u8 | ((v >> 12) & 0x0F) as u8,
            0x80u8 | ((v >> 6) & 0x3F) as u8,
            0x80u8 | (v & 0x3F) as u8,
        ]
    } else {
        vec![
            0xF0u8 | ((v >> 18) & 0x7) as u8,
            0x80u8 | ((v >> 12) & 0x3F) as u8,
            0x80u8 | ((v >> 6) & 0x3F) as u8,
            0x80u8 | (v & 0x3F) as u8,
        ]
    }
}

/// The command that sets the emulated key: `KEY<key>` and a line feed.
pub fn encode_set_key(key: char) -> (bytes: Vec<u8>)
    ensures
        bytes@ == set_key_command(key),
{
    let mut bytes = key_tag_text();
    let encoded = encode_char(key);
    bytes.extend_from_slice(encoded.as_slice());
    bytes.push(LINE_FEED);
    assert(bytes@ =~= set_key_command(key));
    bytes
}


// ---------------------------------------------------------------------------
// Lines.
// ---------------------------------------------------------------------------

/// `i` is the position of the first line feed in `bytes`.
pub open spec fn is_line_end(bytes: Seq<u8>, i: int) -> bool {
    &&& 0 <= i < bytes.len()
    &&& bytes[i] == LINE_FEED
    &&& forall|j: int| 0 <= j < i ==> bytes[j] != LINE_FEED
}

/// `bytes` holds a complete line.
pub open spec fn has_line(bytes: Seq<u8>) -> bool {
    exists|i: int| is_line_end(bytes, i)
}

/// The first complete line in `bytes`, without its line feed.
pub open spec fn first_line(bytes: Seq<u8>) -> Option<Seq<u8>> {
    if has_line(bytes) {
        Some(bytes.take(choose|i: int| is_line_end(bytes, i)))
    } else {
        None
    }
}

/// `bytes` without the carriage returns at its end.
pub open spec fn trim_cr(bytes: Seq<u8>) -> Seq<u8>
    decreases bytes.len(),
{
    if bytes.len() > 0 && bytes.last() == CARRIAGE_RETURN {
        trim_cr(bytes.drop_last())
    } else {
        bytes
    }
}

/// The reply that `bytes` holds: its first complete line, without the line
/// feed and without the carriage returns before it.
pub open spec fn reply_line(bytes: Seq<u8>) -> Option<Seq<u8>> {
    match first_line(bytes) {
        Some(line) => Some(trim_cr(line)),
        None => None,
    }
}

/// `text` begins with `tag`.
pub open spec fn starts_with(text: Seq<u8>, tag: Seq<u8>) -> bool {
    tag.len() <= text.len() && text.take(tag.len() as int) == tag
}

/// The first line end is unique.
proof fn lemma_line_end_unique(bytes: Seq<u8>, i: int, j: int)
    requires
        is_line_end(bytes, i),
        is_line_end(bytes, j),
    ensures
        i == j,
{
}

/// The first line of bytes whose first line feed is at `i`.
proof fn lemma_first_line_at(bytes: Seq<u8>, i: int)
    requires
        is_line_end(bytes, i),
    ensures
        first_line(bytes) == Some(bytes.take(i)),
{
    let k = choose|k: int| is_line_end(bytes, k);
    lemma_line_end_unique(bytes, i, k);
}

/// The position of the first line feed in `bytes`, if there is one.
pub fn find_line_end(bytes: &[u8]) -> (end: Option<usize>)
    ensures
        match end {
            Some(i) => is_line_end(bytes@, i as int),
            None => forall|i: int| 0 <= i < bytes@.len() ==> bytes@[i] != LINE_FEED,
        },
        end is None <==> !has_line(bytes@),
{
    let mut i: usize = 0;
    while i < bytes.len()
        invariant
            i <= bytes@.len(),
            forall|j: int| 0 <= j < i ==> bytes@[j] != LINE_FEED,
        decreases bytes.len() - i,
    {
        if bytes[i] == LINE_FEED {
            assert(is_line_end(bytes@, i as int));
            return Some(i);
        }
        i = i + 1;
    }
    None
}

/// `bytes` without the carriage returns at its end.
pub fn trim_carriage_returns(bytes: &[u8]) -> (trimmed: Vec<u8>)
    ensures
        trimmed@ == trim_cr(bytes@),
{
    let mut end: usize = bytes.len();
    assert(bytes@.take(end as int) =~= bytes@);
    while end > 0 && bytes[end - 1] == CARRIAGE_RETURN
        invariant
            end <= bytes@.len(),
            trim_cr(bytes@) == trim_cr(bytes@.take(end as int)),
        decreases end,
    {
        assert(bytes@.take(end as int).drop_last() =~= bytes@.take(end - 1));
        end = end - 1;
    }
    slice_to_vec(slice_subrange(bytes, 0, end))
}

/// The reply line held by `bytes`, if a line is complete.
pub fn extract_reply(bytes: &[u8]) -> (reply: Option<Vec<u8>>)
    ensures
        match reply {
            Some(line) => reply_line(bytes@) == Some(line@),
            None => reply_line(bytes@) is None,
        },
{
    match find_line_end(bytes) {
        Some(end) => {
            proof {
                lemma_first_line_at(bytes@, end as int);
            }
            let line = slice_subrange(bytes, 0, end);
            Some(trim_carriage_returns(line))
        },
        None => None,
    }
}

/// Whether `text` begins with `tag`.
pub fn has_prefix(text: &[u8], tag: &[u8]) -> (b: bool)
    ensures
        b == starts_with(text@, tag@),
{
    if tag.len() > text.len() {
        return false;
    }
    let mut i: usize = 0;
    while i < tag.len()
        invariant
            tag@.len() <= text@.len(),
            i <= tag@.len(),
            forall|j: int| 0 <= j < i ==> text@[j] == tag@[j],
        decreases tag.len() - i,
    {
        if text[i] != tag[i] {
            assert(text@.take(tag@.len() as int)[i as int] != tag@[i as int]);
            return false;
        }
        i = i + 1;
    }
    assert(text@.take(tag@.len() as int) =~= tag@);
    true
}

/// Whether `a` and `b` hold the same bytes.
pub fn same_bytes(a: &[u8], b: &[u8]) -> (same: bool)
    ensures
        same == (a@ == b@),
{
    if a.len() != b.len() {
        return false;
    }
    let mut i: usize = 0;
    while i < a.len()
        invariant
            a@.len() == b@.len(),
            i <= a@.len(),
            forall|j: int| 0 <= j < i ==> a@[j] == b@[j],
        decreases a.len() - i,
    {
        if a[i] != b[i] {
            return false;
        }
        i = i + 1;
    }
    assert(a@ =~= b@);
    true
}


// ---------------------------------------------------------------------------
// Text.
// ---------------------------------------------------------------------------

/// What `String::from_utf8_lossy` makes of bytes that are not valid UTF-8.
pub uninterp spec fn lossy_repair(bytes: Seq<u8>) -> Seq<char>;

/// The text that bytes from the pedal stand for: their UTF-8 decoding where
/// they are valid UTF-8, and otherwise what `String::from_utf8_lossy` makes
/// of them.
pub open spec fn lossy_text(bytes: Seq<u8>) -> Seq<char> {
    if valid_utf8(bytes) {
        decode_utf8(bytes)
    } else {
        lossy_repair(bytes)
    }
}

/// Decodes bytes through `String::from_utf8_lossy`, as the pedal's replies
/// are shown to the user. Its documentation states that valid UTF-8 comes
/// out as the text it encodes; the result on invalid bytes is only named
/// (`lossy_repair`), so how they are replaced is left unsaid here.
#[verifier::external_body]
pub(crate) fn decode_lossy(bytes: &[u8]) -> (text: String)
    ensures
        valid_utf8(bytes@) ==> text@ == decode_utf8(bytes@),
        !valid_utf8(bytes@) ==> text@ == lossy_repair(bytes@),
{
    String::from_utf8_lossy(bytes).into_owned()
}

/// Renders one character as a string through `char::to_string`, whose
/// `Display` writes exactly that character.
#[verifier::external_body]
pub(crate) fn char_text(c: char) -> (text: String)
    ensures
        text@ == seq![c],
{
    c.to_string()
}

/// The three texts one after the other.
pub fn join3(first: &str, second: &str, third: &str) -> (text: String)
    ensures
        text@ == first@ + second@ + third@,
{
    let mut text = String::from_str(first);
    text.append(second);
    text.append(third);
    text
}

/// The text of a reply line as the user sees it.
pub fn reply_text(line: &[u8]) -> (text: String)
    ensures
        text@ == lossy_text(line@),
{
    decode_lossy(line)
}

/// The firmware version that a `VER` reply carries: the text after `VER`,
/// or `unknown` when nothing follows it.
pub open spec fn version_of(line: Seq<u8>) -> Seq<char> {
    if line.len() > version_tag().len() {
        lossy_text(line.skip(version_tag().len() as int))
    } else {
        "unknown"@
    }
}

/// The key that a `KEY` reply carries: the first character after `KEY`,
/// unless nothing follows or that character is NUL.
pub open spec fn key_of(line: Seq<u8>) -> Option<char> {
    if line.len() > key_tag().len() {
        let text = lossy_text(line.skip(key_tag().len() as int));
        if text.len() > 0 && text[0] != '\0' {
            Some(text[0])
        } else {
            None
        }
    } else {
        None
    }
}

/// Reads the firmware version out of a `VER` reply.
pub fn parse_version(line: &[u8]) -> (version: String)
    ensures
        version@ == version_of(line@),
{
    if line.len() > 3 {
        let rest = slice_subrange(line, 3, line.len());
        assert(rest@ =~= line@.skip(3));
        decode_lossy(rest)
    } else {
        String::from_str("unknown")
    }
}

/// Reads the key out of a `KEY` reply.
pub fn parse_key(line: &[u8]) -> (key: Option<char>)
    ensures
        key == key_of(line@),
{
    if line.len() > 3 {
        let rest = slice_subrange(line, 3, line.len());
        assert(rest@ =~= line@.skip(3));
        let text = decode_lossy(rest);
        let text = text.as_str();
        if text.is_empty() {
            None
        } else {
            let c = text.get_char(0);
            if c != '\0' {
                Some(c)
            } else {
                None
            }
        }
    } else {
        None
    }
}


// ---------------------------------------------------------------------------
// Laws of the protocol.
// ---------------------------------------------------------------------------

/// `text` holds no line feed.
pub open spec fn no_line_feed(text: Seq<u8>) -> bool {
    forall|i: int| 0 <= i < text.len() ==> text[i] != LINE_FEED
}

/// Trimming removes every carriage return at the end of a text and nothing
/// else: what is left is a beginning of the text that does not end in a
/// carriage return, and everything cut off is carriage returns.
pub proof fn law_trim_cr(text: Seq<u8>)
    ensures
        trim_cr(text).len() <= text.len(),
        text.take(trim_cr(text).len() as int) == trim_cr(text),
        trim_cr(text).len() > 0 ==> trim_cr(text).last() != CARRIAGE_RETURN,
        forall|i: int| trim_cr(text).len() <= i < text.len() ==> text[i] == CARRIAGE_RETURN,
    decreases text.len(),
{
    if text.len() > 0 && text.last() == CARRIAGE_RETURN {
        law_trim_cr(text.drop_last());
        assert(text.take(trim_cr(text).len() as int) =~= text.drop_last().take(
            trim_cr(text).len() as int,
        ));
        assert forall|i: int| trim_cr(text).len() <= i < text.len() implies text[i]
            == CARRIAGE_RETURN by {
            if i < text.len() - 1 {
                assert(text[i] == text.drop_last()[i]);
            }
        }
    } else {
        assert(text.take(text.len() as int) =~= text);
    }
}

/// The texts of the protocol are the ASCII letters they are named by.
pub proof fn law_protocol_texts()
    ensures
        hello_text() == seq!['H' as u8, 'E' as u8, 'L' as u8],
        hello_reply() == seq!['L' as u8, 'O' as u8],
        version_tag() == seq!['V' as u8, 'E' as u8, 'R' as u8],
        key_tag() == seq!['K' as u8, 'E' as u8, 'Y' as u8],
        ack_reply() == seq!['A' as u8, 'C' as u8, 'K' as u8],
        LINE_FEED == '\n' as u8,
        CARRIAGE_RETURN == '\r' as u8,
{
}

/// Trimming carriage returns keeps a text that does not end in one.
proof fn lemma_trim_cr_keeps(text: Seq<u8>)
    requires
        text.len() > 0 ==> text.last() != CARRIAGE_RETURN,
    ensures
        trim_cr(text) == text,
{
}

/// Bytes that follow a complete line do not change it: once a line has
/// arrived, whatever comes after it is not part of the reply.
pub proof fn law_line_is_settled(received: Seq<u8>, later: Seq<u8>)
    requires
        has_line(received),
    ensures
        first_line(received + later) == first_line(received),
{
    let i = choose|i: int| is_line_end(received, i);
    assert(is_line_end(received + later, i));
    lemma_first_line_at(received, i);
    lemma_first_line_at(received + later, i);
    assert((received + later).take(i) =~= received.take(i));
}

/// A line may arrive in pieces: when the first piece holds no line feed,
/// the line is that piece followed by the line in the rest, and there is a
/// line exactly when the rest completes one.
pub proof fn law_line_in_pieces(piece: Seq<u8>, rest: Seq<u8>)
    requires
        no_line_feed(piece),
    ensures
        first_line(piece + rest) == match first_line(rest) {
            Some(line) => Some(piece + line),
            None => None::<Seq<u8>>,
        },
{
    let all = piece + rest;
    if has_line(rest) {
        let j = choose|j: int| is_line_end(rest, j);
        assert(is_line_end(all, piece.len() + j)) by {
            assert forall|k: int| 0 <= k < piece.len() + j implies all[k] != LINE_FEED by {
                if k >= piece.len() {
                    assert(all[k] == rest[k - piece.len()]);
                }
            }
        }
        lemma_first_line_at(rest, j);
        lemma_first_line_at(all, piece.len() + j);
        assert(all.take(piece.len() + j) =~= piece + rest.take(j));
    } else {
        if has_line(all) {
            let k = choose|k: int| is_line_end(all, k);
            assert(k >= piece.len()) by {
                if k < piece.len() {
                    assert(all[k] == piece[k]);
                }
            }
            assert(is_line_end(rest, k - piece.len())) by {
                assert forall|m: int| 0 <= m < k - piece.len() implies rest[m] != LINE_FEED by {
                    assert(all[piece.len() + m] == rest[m]);
                }
            }
            assert(false);
        }
    }
}

/// A command, read back through the framing of replies, gives back its
/// text, whether the line ends in a line feed alone or in a carriage return
/// and a line feed; the text must hold no line feed and not end in a
/// carriage return.
pub proof fn law_line_framing(text: Seq<u8>)
    requires
        no_line_feed(text),
        text.len() > 0 ==> text.last() != CARRIAGE_RETURN,
    ensures
        reply_line(command_line(text)) == Some(text),
        reply_line(text.push(CARRIAGE_RETURN).push(LINE_FEED)) == Some(text),
{
    let plain = command_line(text);
    assert(is_line_end(plain, text.len() as int));
    lemma_first_line_at(plain, text.len() as int);
    assert(plain.take(text.len() as int) =~= text);
    lemma_trim_cr_keeps(text);
    let crlf = text.push(CARRIAGE_RETURN).push(LINE_FEED);
    assert(is_line_end(crlf, text.len() as int + 1));
    lemma_first_line_at(crlf, text.len() as int + 1);
    let line = crlf.take(text.len() as int + 1);
    assert(line.drop_last() =~= text);
    assert(trim_cr(line) == trim_cr(text));
}

/// Every byte below 0x80 in the UTF-8 encoding of a text is one of its
/// characters; the other characters encode to bytes of 0x80 and above.
proof fn lemma_ascii_bytes_are_chars(text: Seq<char>, i: int)
    requires
        0 <= i < encode_utf8(text).len(),
        encode_utf8(text)[i] < 0x80,
    ensures
        exists|j: int| 0 <= j < text.len() && text[j] as u32 == encode_utf8(text)[i] as u32,
    decreases text.len(),
{
    if text.len() > 0 {
        let c = text[0] as u32;
        char_is_scalar(text[0]);
        let head = encode_scalar(c);
        let tail = encode_utf8(text.drop_first());
        assert(encode_utf8(text) == head + tail);
        if i < head.len() {
            let b = head[i];
            if has_width_1_encoding(c) {
                assert(leading_byte_width_1(c) == c) by (bit_vector)
                    requires
                        c <= 0x7F,
                ;
                assert(text[0] as u32 == encode_utf8(text)[i] as u32);
            } else {
                assert(last_continuation_byte(c) >= 0x80) by (bit_vector);
                assert(second_last_continuation_byte(c) >= 0x80) by (bit_vector);
                assert(third_last_continuation_byte(c) >= 0x80) by (bit_vector);
                assert(leading_byte_width_2(c) >= 0x80) by (bit_vector);
                assert(leading_byte_width_3(c) >= 0x80) by (bit_vector);
                assert(leading_byte_width_4(c) >= 0x80) by (bit_vector);
                assert(b >= 0x80);
            }
        } else {
            assert(encode_utf8(text)[i] == tail[i - head.len()]);
            lemma_ascii_bytes_are_chars(text.drop_first(), i - head.len());
            let j = choose|j: int|
                0 <= j < text.drop_first().len() && text.drop_first()[j] as u32 == tail[i
                    - head.len()] as u32;
            assert(text[j + 1] == text.drop_first()[j]);
        }
    }
}

/// The last byte of the encoding of a text whose last character is not a
/// carriage return is not a carriage return either.
proof fn lemma_encoding_last_byte(text: Seq<char>)
    requires
        text.len() > 0,
        text.last() != '\r',
    ensures
        encode_utf8(text).len() > 0,
        encode_utf8(text).last() != CARRIAGE_RETURN,
    decreases text.len(),
{
    char_is_scalar(text[0]);
    let c = text[0] as u32;
    let head = encode_scalar(c);
    let tail = encode_utf8(text.drop_first());
    assert(encode_utf8(text) == head + tail);
    if text.len() == 1 {
        assert(text.drop_first() =~= Seq::<char>::empty());
        assert(tail =~= Seq::<u8>::empty());
        assert(encode_utf8(text) =~= head);
        assert(text.last() == text[0]);
        if has_width_1_encoding(c) {
            assert(leading_byte_width_1(c) == c) by (bit_vector)
                requires
                    c <= 0x7F,
            ;
            assert(head.last() == leading_byte_width_1(c));
            if c == 13 {
                char_u32_cast(text[0], c);
                char_u32_cast('\r', c);
            }
        } else {
            assert(last_continuation_byte(c) >= 0x80) by (bit_vector);
            assert(head.last() == last_continuation_byte(c));
        }
    } else {
        assert(text.drop_first().last() == text.last());
        lemma_encoding_last_byte(text.drop_first());
    }
}

/// What follows a tag in a line is the rest of the line.
proof fn lemma_skip_tag(tag: Seq<u8>, rest: Seq<u8>)
    ensures
        (tag + rest).skip(tag.len() as int) == rest,
        (tag + rest).len() > tag.len() <==> rest.len() > 0,
{
    assert((tag + rest).skip(tag.len() as int) =~= rest);
}

/// The text of a `VER` reply is the version the pedal reports: what the
/// pedal sends after `VER`, or `unknown` when it sends nothing after it;
/// the version must hold no line feed and not end in a carriage return.
pub proof fn law_version_reply(version: Seq<char>)
    requires
        forall|i: int| 0 <= i < version.len() ==> version[i] != '\n',
        version.len() > 0 ==> version.last() != '\r',
    ensures
        reply_line(command_line(version_tag() + encode_utf8(version))) == Some(
            version_tag() + encode_utf8(version),
        ),
        version_of(version_tag() + encode_utf8(version)) == if version.len() > 0 {
            version
        } else {
            "unknown"@
        },
{
    let bytes = encode_utf8(version);
    let line = version_tag() + bytes;
    assert(no_line_feed(line)) by {
        assert forall|i: int| 0 <= i < line.len() implies line[i] != LINE_FEED by {
            if i < 3 {
                assert(line[i] == version_tag()[i]);
            } else if line[i] == LINE_FEED {
                assert(bytes[i - 3] == LINE_FEED);
                lemma_ascii_bytes_are_chars(version, i - 3);
                let j = choose|j: int|
                    0 <= j < version.len() && version[j] as u32 == bytes[i - 3] as u32;
                char_u32_cast(version[j], 10u32);
                char_u32_cast('\n', 10u32);
            }
        }
    }
    if version.len() > 0 {
        lemma_encoding_last_byte(version);
        assert(line.last() == bytes.last());
    } else {
        assert(bytes =~= Seq::<u8>::empty());
    }
    law_line_framing(line);
    lemma_skip_tag(version_tag(), bytes);
    encode_utf8_valid_utf8(version);
    encode_utf8_decode_utf8(version);
}

/// The line that saves a key is the line with which the pedal reports its
/// key: read back as a `KEY` reply it gives the very key that was saved.
/// NUL is left out, as a reply refuses it, and so are line feed and carriage
/// return, which cannot stand inside a line.
pub proof fn law_saved_key_reads_back(key: char)
    requires
        key != '\0',
        key != '\n',
        key != '\r',
    ensures
        reply_line(set_key_command(key)) == Some(key_tag() + encode_utf8(seq![key])),
        key_of(key_tag() + encode_utf8(seq![key])) == Some(key),
{
    let bytes = encode_utf8(seq![key]);
    let line = key_tag() + bytes;
    assert(no_line_feed(line)) by {
        assert forall|i: int| 0 <= i < line.len() implies line[i] != LINE_FEED by {
            if i < 3 {
                assert(line[i] == key_tag()[i]);
            } else if line[i] == LINE_FEED {
                assert(bytes[i - 3] == LINE_FEED);
                lemma_ascii_bytes_are_chars(seq![key], i - 3);
                let j = choose|j: int|
                    0 <= j < seq![key].len() && seq![key][j] as u32 == bytes[i - 3] as u32;
                assert(seq![key][j] == key);
                char_u32_cast(key, 10u32);
                char_u32_cast('\n', 10u32);
            }
        }
    }
    lemma_encoding_last_byte(seq![key]);
    assert(line.last() == bytes.last());
    law_line_framing(line);
    lemma_skip_tag(key_tag(), bytes);
    encode_utf8_valid_utf8(seq![key]);
    encode_utf8_decode_utf8(seq![key]);
}

} // verus!
