//! Framing of the provider's streamed replies: the byte stream is cut into
//! messages at blank lines, each optionally prefixed by `data: `.
use vstd::prelude::*;
use vstd::string::*;

use std::marker::PhantomData;

use crate::api::error::EndpointError;
use crate::text::{chars_of, string_from_chars, trim, trimmed_tail};

verus! {

/// The message separator: a blank line.
pub open spec fn separator() -> Seq<char> {
    seq!['\n', '\n']
}

/// The prefix of a server-sent event's data line.
pub open spec fn data_prefix() -> Seq<char> {
    seq!['d', 'a', 't', 'a', ':', ' ']
}

/// Whether a separator starts at `i` in `s`.
pub open spec fn separator_at(s: Seq<char>, i: int) -> bool {
    0 <= i && i + 1 < s.len() && s[i] == '\n' && s[i + 1] == '\n'
}

/// Whether `s` holds a separator.
pub open spec fn has_separator(s: Seq<char>) -> bool {
    exists|i: int| separator_at(s, i)
}

/// Where the first separator of `s` starts, as `str::find("\n\n")` gives it.
pub open spec fn first_separator(s: Seq<char>) -> int
    recommends
        has_separator(s),
{
    choose|i: int| separator_at(s, i) && forall|j: int| 0 <= j < i ==> !separator_at(s, j)
}

/// The next message of the buffer and what stays buffered after it: the text
/// before the first separator, or the whole buffer where there is none.
pub open spec fn next_chunk(buffer: Seq<char>) -> (Seq<char>, Seq<char>) {
    if has_separator(buffer) {
        let p = first_separator(buffer);
        (buffer.take(p), buffer.skip(p + 2))
    } else {
        (buffer, Seq::empty())
    }
}

/// The payload of a message: without its `data: ` prefix, trimmed.
pub open spec fn payload(chunk: Seq<char>) -> Seq<char> {
    if chunk.len() >= 6 && chunk.take(6) == data_prefix() {
        trim(chunk.skip(6))
    } else {
        trim(chunk)
    }
}

/// What a pull yields for a chunk: its payload, or nothing where the payload
/// is empty.
pub open spec fn pulled(chunk: Seq<char>) -> Option<Seq<char>> {
    if payload(chunk).len() > 0 {
        Some(payload(chunk))
    } else {
        None
    }
}

/// How `std::str::from_utf8` explains why `bytes` are not UTF-8, as
/// `Utf8Error`'s `Display` writes it.
pub uninterp spec fn utf8_error_message(bytes: Seq<u8>) -> Seq<char>;

/// Decodes UTF-8 bytes.
///
/// Trusted: `std::str::from_utf8` succeeds exactly on valid UTF-8 and then
/// yields the decoded characters; on failure the message of its `Utf8Error`
/// depends on the bytes alone.
#[verifier::external_body]
fn decode_utf8_bytes(bytes: &[u8]) -> (res: Result<String, String>)
    ensures
        match res {
            Ok(s) => vstd::utf8::valid_utf8(bytes@) && s@ == vstd::utf8::decode_utf8(bytes@),
            Err(m) => !vstd::utf8::valid_utf8(bytes@) && m@ == utf8_error_message(bytes@),
        },
{
    match std::str::from_utf8(bytes) {
        Ok(s) => Ok(s.to_owned()),
        Err(e) => Err(e.to_string()),
    }
}

proof fn lemma_first_separator_exists(s: Seq<char>, i: int)
    requires
        separator_at(s, i),
    ensures
        exists|k: int| separator_at(s, k) && forall|j: int| 0 <= j < k ==> !separator_at(s, j),
    decreases i,
{
    if exists|j: int| 0 <= j < i && separator_at(s, j) {
        let j = choose|j: int| 0 <= j < i && separator_at(s, j);
        lemma_first_separator_exists(s, j);
    } else {
        assert(separator_at(s, i) && forall|j: int| 0 <= j < i ==> !separator_at(s, j));
    }
}

/// A pull takes exactly one message: when the buffer holds a message without
/// blank line (and not ending in a newline), a separator and more text, the
/// pull yields that message and keeps the rest buffered.
pub proof fn lemma_pull_takes_one_message(chunk: Seq<char>, rest: Seq<char>)
    requires
        !has_separator(chunk),
        chunk.len() == 0 || chunk.last() != '\n',
    ensures
        next_chunk(chunk + separator() + rest) == (chunk, rest),
{
    let s = chunk + separator() + rest;
    let n = chunk.len() as int;
    assert(s[n] == '\n' && s[n + 1] == '\n');
    assert(separator_at(s, n));
    assert forall|j: int| 0 <= j < n implies !separator_at(s, j) by {
        if j + 1 < n {
            if separator_at(s, j) {
                assert(separator_at(chunk, j));
            }
        } else {
            assert(s[j] == chunk.last());
        }
    }
    assert(has_separator(s));
    let p = first_separator(s);
    assert(separator_at(s, p) && forall|j: int| 0 <= j < p ==> !separator_at(s, j));
    if p < n {
        assert(!separator_at(s, p));
    }
    if p > n {
        assert(!separator_at(s, n));
    }
    assert(p == n);
    assert(s.take(n) =~= chunk);
    assert(s.skip(n + 2) =~= rest);
}

/// Nothing is lost in framing: the message taken off the buffer, the
/// separator where there was one, and what stays buffered make up the
/// buffer again.
pub proof fn lemma_pull_keeps_text(buffer: Seq<char>)
    ensures
        has_separator(buffer) ==> next_chunk(buffer).0 + separator() + next_chunk(buffer).1
            == buffer,
        !has_separator(buffer) ==> next_chunk(buffer).0 == buffer && next_chunk(buffer).1.len()
            == 0,
        !has_separator(next_chunk(buffer).0),
{
    if has_separator(buffer) {
        let i = choose|i: int| separator_at(buffer, i);
        lemma_first_separator_exists(buffer, i);
        let p = first_separator(buffer);
        assert(separator_at(buffer, p) && forall|j: int| 0 <= j < p ==> !separator_at(buffer, j));
        assert(buffer.take(p) + separator() + buffer.skip(p + 2) =~= buffer);
        let c = buffer.take(p);
        assert forall|j: int| !separator_at(c, j) by {
            if separator_at(c, j) {
                assert(separator_at(buffer, j));
            }
        }
    }
}

/// A reply stream and the text received from it that is not yet framed.
pub struct EndpointStream<S, ResponseItem> {
    pub stream: S,
    pub _data: PhantomData<ResponseItem>,
    pub buffer: String,
}

impl<S, ResponseItem> EndpointStream<S, ResponseItem> {
    /// Starts framing `stream` with an empty buffer.
    pub fn new(stream: S) -> (res: Self)
        ensures
            res.stream == stream,
            res.buffer@ == Seq::<char>::empty(),
    {
        EndpointStream { stream, _data: PhantomData, buffer: String::new() }
    }

    /// Takes the next message off the buffer and returns its payload, if it
    /// is not empty. Without a blank line in the buffer the whole buffer is
    /// taken as the message.
    pub fn pull_from_buffer(&mut self) -> (res: Option<String>)
        ensures
            final(self).stream == old(self).stream,
            final(self).buffer@ == next_chunk(old(self).buffer@).1,
            match res {
                Some(p) => pulled(next_chunk(old(self).buffer@).0) == Some(p@),
                None => pulled(next_chunk(old(self).buffer@).0) is None,
            },
    {
        let chars = chars_of(self.buffer.as_str());
        let n = chars.len();
        let mut pos: usize = 0;
        let mut found = false;
        while !found && pos < n && pos + 1 < n
            invariant
                n == chars@.len(),
                found ==> separator_at(chars@, pos as int),
                !found ==> pos <= n,
                forall|j: int| 0 <= j < pos ==> !separator_at(chars@, j),
            decreases n - pos, (if found { 0int } else { 1int }),
        {
            if chars[pos] == '\n' && chars[pos + 1] == '\n' {
                found = true;
            } else {
                pos += 1;
            }
        }
        let ghost buf = chars@;
        let mut chunk: Vec<char> = Vec::new();
        let end = if found { pos } else { n };
        let mut k: usize = 0;
        while k < end
            invariant
                k <= end <= n,
                n == chars@.len(),
                chunk@ == chars@.take(k as int),
            decreases end - k,
        {
            chunk.push(chars[k]);
            proof {
                assert(chars@.take(k + 1) =~= chars@.take(k as int).push(chars@[k as int]));
            }
            k += 1;
        }
        let mut rest: Vec<char> = Vec::new();
        if found {
            let mut r = pos + 2;
            while r < n
                invariant
                    pos + 2 <= r <= n,
                    n == chars@.len(),
                    rest@ == chars@.subrange(pos + 2, r as int),
                decreases n - r,
            {
                rest.push(chars[r]);
                proof {
                    assert(chars@.subrange(pos + 2, r + 1) =~= chars@.subrange(pos + 2, r as int).push(
                        chars@[r as int],
                    ));
                }
                r += 1;
            }
        }
        proof {
            if found {
                assert(has_separator(buf));
                let p = first_separator(buf);
                assert(separator_at(buf, p) && forall|j: int| 0 <= j < p ==> !separator_at(buf, j));
                if p < pos {
                    assert(!separator_at(buf, p));
                }
                if pos < p {
                    assert(!separator_at(buf, pos as int));
                }
                assert(p == pos);
                assert(rest@ =~= buf.skip(pos + 2));
            } else {
                assert(!has_separator(buf)) by {
                    if has_separator(buf) {
                        let i = choose|i: int| separator_at(buf, i);
                        assert(!separator_at(buf, i));
                    }
                }
                assert(chunk@ =~= buf);
                assert(rest@ =~= Seq::<char>::empty());
            }
            assert(chunk@ == next_chunk(buf).0);
        }
        self.buffer = string_from_chars(rest.as_slice());
        let has_prefix = chunk.len() >= 6 && chunk[0] == 'd' && chunk[1] == 'a' && chunk[2] == 't'
            && chunk[3] == 'a' && chunk[4] == ':' && chunk[5] == ' ';
        proof {
            if chunk@.len() >= 6 {
                if chunk@.take(6) == data_prefix() {
                    assert(chunk@.take(6)[0] == 'd');
                    assert(chunk@.take(6)[1] == 'a');
                    assert(chunk@.take(6)[2] == 't');
                    assert(chunk@.take(6)[3] == 'a');
                    assert(chunk@.take(6)[4] == ':');
                    assert(chunk@.take(6)[5] == ' ');
                }
                if has_prefix {
                    assert(chunk@.take(6) =~= data_prefix());
                }
            }
        }
        let trimmed = if has_prefix { trimmed_tail(&chunk, 6) } else {
            proof {
                assert(chunk@.skip(0) =~= chunk@);
            }
            trimmed_tail(&chunk, 0)
        };
        if trimmed.as_str().unicode_len() > 0 {
            Some(trimmed)
        } else {
            None
        }
    }

    /// Appends the text of a received byte block to the buffer and pulls the
    /// next message; bytes that are not UTF-8 are reported as a client error
    /// and leave the buffer as it was.
    pub fn handle_stream_bytes(&mut self, bytes: &[u8]) -> (res: Option<Result<String, EndpointError>>)
        ensures
            final(self).stream == old(self).stream,
            vstd::utf8::valid_utf8(bytes@) ==> {
                let joined = old(self).buffer@ + vstd::utf8::decode_utf8(bytes@);
                &&& final(self).buffer@ == next_chunk(joined).1
                &&& match res {
                    Some(Ok(p)) => pulled(next_chunk(joined).0) == Some(p@),
                    Some(Err(_)) => false,
                    None => pulled(next_chunk(joined).0) is None,
                }
            },
            !vstd::utf8::valid_utf8(bytes@) ==> {
                &&& final(self).buffer@ == old(self).buffer@
                &&& match res {
                    Some(Err(EndpointError::ClientError(m))) => m@ == utf8_error_message(bytes@),
                    _ => false,
                }
            },
    {
        match decode_utf8_bytes(bytes) {
            Ok(s) => {
                self.buffer.append(s.as_str());
                match self.pull_from_buffer() {
                    Some(p) => Some(Ok(p)),
                    None => None,
                }
            },
            Err(m) => Some(Err(EndpointError::ClientError(m))),
        }
    }
}

} // verus!
