//! Framing of the single request line out of a byte stream.
//!
//! The stream is scanned byte by byte: the line ends as soon as the bytes
//! received so far end with `\r\n`, and the request is too large when the
//! buffer fills up before that.  Bytes after the terminator are ignored.

use vstd::prelude::*;

verus! {

/// The longest URL a request may carry.
pub const MAX_URL_LENGTH: usize = 1024;
/// The length of the `\r\n` terminator.
pub const CRLF_LENGTH: usize = 2;
/// The capacity of the request buffer: a URL of the largest size and its terminator.
pub const MAX_REQUEST_LENGTH: usize = MAX_URL_LENGTH + CRLF_LENGTH;

/// Why a request could not be turned into a request to dispatch.
#[derive(PartialEq, Eq, Structural, Debug, Clone, Copy)]
pub enum ProtocolError {
    /// The request line is not valid UTF-8.
    InvalidEncoding,
    /// The request line is not an absolute URL.
    InvalidUrl,
    /// The buffer filled up before a terminator was seen.
    TooLarge,
    /// The stream closed before a terminator was seen.
    MissingTerminator,
    /// The query holds a `%` that does not start an escape, or its
    /// percent-decoded bytes are not valid UTF-8.
    InvalidQueryEncoding,
}

/// The first `n` bytes of `s` end with `\r\n`.
pub open spec fn crlf_ends_at(s: Seq<u8>, n: int) -> bool {
    2 <= n <= s.len() && s[n - 2] == 13u8 && s[n - 1] == 10u8
}

/// The verdict of scanning `s` from position `n` on, one byte at a time:
/// the line (without terminator) once the bytes read end with `\r\n`,
/// `TooLarge` once the buffer is full, and `None` if `s` runs out first.
pub open spec fn scan(s: Seq<u8>, n: nat) -> Option<Result<Seq<u8>, ProtocolError>>
    recommends
        n <= s.len(),
    decreases s.len() - n,
{
    if crlf_ends_at(s, n as int) {
        Some(Ok(s.take(n - 2)))
    } else if n >= MAX_REQUEST_LENGTH {
        Some(Err(ProtocolError::TooLarge))
    } else if n >= s.len() {
        None
    } else {
        scan(s, n + 1)
    }
}

/// The outcome of reading a request line from a stream that delivers the
/// bytes `s` and then closes.
pub open spec fn frame(s: Seq<u8>) -> Result<Seq<u8>, ProtocolError> {
    match scan(s, 0) {
        Some(v) => v,
        None => Err(ProtocolError::MissingTerminator),
    }
}

/// Accumulates the bytes of a request line as they arrive.
pub struct LineReader {
    buffer: Vec<u8>,
}

impl View for LineReader {
    type V = Seq<u8>;

    /// The bytes received so far.
    closed spec fn view(&self) -> Seq<u8> {
        self.buffer@
    }
}

/// A verdict found in a prefix of a stream stands for the whole stream.
pub proof fn lemma_scan_prefix(s: Seq<u8>, t: Seq<u8>, n: nat)
    requires
        n <= s.len(),
        scan(s, n) is Some,
    ensures
        scan(s + t, n) == scan(s, n),
    decreases s.len() - n,
{
    let st = s + t;
    if crlf_ends_at(s, n as int) {
        assert(crlf_ends_at(st, n as int));
        assert(st.take(n - 2) =~= s.take(n - 2));
    } else {
        assert(!crlf_ends_at(st, n as int));
        if n < MAX_REQUEST_LENGTH {
            lemma_scan_prefix(s, t, n + 1);
        }
    }
}

/// Where the scan of a prefix `s.take(m)` from `n` finds no verdict, the
/// scan of `s` from `n` goes on as the scan of `s` from `m`.
pub proof fn lemma_scan_skip(s: Seq<u8>, m: nat, n: nat)
    requires
        n <= m <= s.len(),
        scan(s.take(m as int), n) is None,
    ensures
        scan(s, n) == scan(s, m),
    decreases m - n,
{
    let p = s.take(m as int);
    if n < m {
        assert(crlf_ends_at(p, n as int) == crlf_ends_at(s, n as int));
        lemma_scan_skip(s, m, n + 1);
    }
}

/// Bytes that decide nothing end below the capacity and without a terminator.
proof fn lemma_undecided_end(b: Seq<u8>)
    requires
        scan(b, 0) is None,
    ensures
        scan(b, b.len()) is None,
        b.len() < MAX_REQUEST_LENGTH,
        !crlf_ends_at(b, b.len() as int),
{
    assert(b.take(b.len() as int) =~= b);
    lemma_scan_skip(b, b.len(), 0);
}

impl LineReader {
    /// The bytes received have not yet decided the outcome.
    pub closed spec fn pending(&self) -> bool {
        scan(self.buffer@, 0) is None
    }

    /// A reader that has received nothing.
    pub fn new() -> (r: LineReader)
        ensures
            r@ == Seq::<u8>::empty(),
            r.pending(),
    {
        LineReader { buffer: Vec::new() }
    }

    /// How many more bytes the buffer takes (never zero while pending).
    pub fn remaining(&self) -> (r: usize)
        requires
            self.pending(),
        ensures
            r == MAX_REQUEST_LENGTH - self@.len(),
            r > 0,
    {
        proof {
            self.lemma_pending_len();
        }
        MAX_REQUEST_LENGTH - self.buffer.len()
    }

    proof fn lemma_pending_len(&self)
        requires
            self.pending(),
        ensures
            self@.len() < MAX_REQUEST_LENGTH,
    {
        lemma_undecided_end(self.buffer@);
    }

    /// Takes the next bytes of the stream.  Returns the verdict once the bytes
    /// received decide it; otherwise keeps them and stays pending.
    pub fn feed(&mut self, chunk: &[u8]) -> (r: Option<Result<Vec<u8>, ProtocolError>>)
        requires
            old(self).pending(),
        ensures
            match r {
                Some(Ok(line)) => scan(old(self)@ + chunk@, 0) == Some(
                    Ok::<Seq<u8>, ProtocolError>(line@),
                ),
                Some(Err(e)) => scan(old(self)@ + chunk@, 0) == Some(
                    Err::<Seq<u8>, ProtocolError>(e),
                ),
                None => scan(old(self)@ + chunk@, 0) is None && final(self)@ == old(self)@
                    + chunk@ && final(self).pending(),
            },
    {
        let ghost s = self.buffer@ + chunk@;
        let ghost start = self.buffer@.len();
        proof {
            self.lemma_pending_len();
            assert(s.take(start as int) =~= self.buffer@);
            lemma_scan_skip(s, start, 0);
        }
        let mut i: usize = 0;
        while i < chunk.len()
            invariant
                i <= chunk@.len(),
                s == old(self)@ + chunk@,
                start == old(self)@.len(),
                self.buffer@ == s.take(start + i),
                scan(self.buffer@, 0) is None,
                self.buffer@.len() < MAX_REQUEST_LENGTH,
                scan(s, 0) == scan(s, self.buffer@.len() as nat),
            decreases chunk@.len() - i,
        {
            let ghost before = self.buffer@;
            self.buffer.push(chunk[i]);
            i = i + 1;
            let n = self.buffer.len();
            proof {
                assert(self.buffer@ =~= s.take(start + i));
                assert(crlf_ends_at(self.buffer@, n as int) == crlf_ends_at(s, n as int));
                // the scan of `s` steps from n - 1 to n
                assert(!crlf_ends_at(s, (n - 1) as int)) by {
                    lemma_undecided_end(before);
                    assert(crlf_ends_at(before, (n - 1) as int) == crlf_ends_at(
                        s,
                        (n - 1) as int,
                    ));
                };
                assert(scan(s, (n - 1) as nat) == scan(s, n as nat));
            }
            if n >= 2 && self.buffer[n - 2] == 13u8 && self.buffer[n - 1] == 10u8 {
                self.buffer.truncate(n - 2);
                let line = self.buffer.clone();
                proof {
                    assert(line@ =~= s.take(n - 2));
                }
                return Some(Ok(line));
            }
            if n >= MAX_REQUEST_LENGTH {
                return Some(Err(ProtocolError::TooLarge));
            }
            proof {
                // no verdict in the buffer: the scan of the buffer runs to its end
                assert(self.buffer@.take(n - 1) =~= before);
                lemma_undecided_end(before);
                lemma_scan_skip(self.buffer@, (n - 1) as nat, 0);
                assert(crlf_ends_at(before, (n - 1) as int) == crlf_ends_at(
                    self.buffer@,
                    (n - 1) as int,
                ));
                assert(!crlf_ends_at(self.buffer@, n as int));
                assert(scan(self.buffer@, n as nat) is None);
                assert(scan(self.buffer@, (n - 1) as nat) is None);
            }
        }
        proof {
            assert(self.buffer@ =~= s);
        }
        None
    }

    /// The stream closed: the outcome for the bytes received.
    pub fn close(&self) -> (r: ProtocolError)
        requires
            self.pending(),
        ensures
            frame(self@) == Err::<Seq<u8>, ProtocolError>(r),
    {
        ProtocolError::MissingTerminator
    }
}

/// The outcome for a reader that has received `received` and is then fed
/// `chunks`, one `feed` each, before the stream closes.
pub open spec fn read_chunks(received: Seq<u8>, chunks: Seq<Seq<u8>>) -> Result<
    Seq<u8>,
    ProtocolError,
>
    decreases chunks.len(),
{
    if chunks.len() == 0 {
        frame(received)
    } else {
        match scan(received + chunks[0], 0) {
            Some(v) => v,
            None => read_chunks(received + chunks[0], chunks.drop_first()),
        }
    }
}

proof fn lemma_read_chunks(received: Seq<u8>, chunks: Seq<Seq<u8>>)
    requires
        scan(received, 0) is None,
    ensures
        read_chunks(received, chunks) == frame(received + chunks.flatten()),
    decreases chunks.len(),
{
    if chunks.len() == 0 {
        assert(received + chunks.flatten() =~= received);
    } else {
        let next = received + chunks[0];
        assert(received + chunks.flatten() =~= next + chunks.drop_first().flatten());
        if scan(next, 0) is Some {
            lemma_scan_prefix(next, chunks.drop_first().flatten(), 0);
        } else {
            lemma_read_chunks(next, chunks.drop_first());
        }
    }
}

/// However a stream is cut into chunks, reading it chunk by chunk gives the
/// same outcome as reading it in one piece.
pub proof fn lemma_chunking_independent(chunks: Seq<Seq<u8>>)
    ensures
        read_chunks(Seq::empty(), chunks) == frame(chunks.flatten()),
{
    lemma_read_chunks(Seq::empty(), chunks);
    assert(Seq::<u8>::empty() + chunks.flatten() =~= chunks.flatten());
}

/// No prefix of `b` longer than `n` bytes ends with `\r\n`.
pub open spec fn no_terminator_from(b: Seq<u8>, n: nat) -> bool {
    forall|k: int| n <= k <= b.len() ==> !#[trigger] crlf_ends_at(b, k)
}

proof fn lemma_no_terminator(b: Seq<u8>, n: nat)
    requires
        b.len() < MAX_REQUEST_LENGTH,
        n <= b.len(),
        no_terminator_from(b, n),
    ensures
        scan(b, n) is None,
    decreases b.len() - n,
{
    assert(!crlf_ends_at(b, n as int));
    if n < b.len() {
        lemma_no_terminator(b, n + 1);
    }
}

/// A stream that closes before a terminator, having delivered fewer bytes
/// than the buffer holds, is missing its terminator.
pub proof fn lemma_closed_without_terminator(s: Seq<u8>)
    requires
        s.len() < MAX_REQUEST_LENGTH,
        no_terminator_from(s, 0),
    ensures
        frame(s) == Err::<Seq<u8>, ProtocolError>(ProtocolError::MissingTerminator),
{
    lemma_no_terminator(s, 0);
}

/// A URL of the largest allowed length followed by the terminator is framed
/// whole, whatever follows; one byte more and the request is too large.
pub proof fn lemma_longest_line(url: Seq<u8>, rest: Seq<u8>)
    requires
        MAX_URL_LENGTH <= url.len() <= MAX_URL_LENGTH + 1,
        no_terminator_from(url, 0),
    ensures
        url.len() == MAX_URL_LENGTH ==> frame(url + seq![13u8, 10u8] + rest) == Ok::<
            Seq<u8>,
            ProtocolError,
        >(url),
        url.len() == MAX_URL_LENGTH + 1 ==> frame(url + seq![13u8, 10u8] + rest) == Err::<
            Seq<u8>,
            ProtocolError,
        >(ProtocolError::TooLarge),
{
    let s = url + seq![13u8, 10u8] + rest;
    let l = url.len();
    assert(s.take(l as int) =~= url);
    lemma_no_terminator(url, 0);
    lemma_scan_skip(s, l, 0);
    assert(crlf_ends_at(url, l as int) == crlf_ends_at(s, l as int));
    if l == MAX_URL_LENGTH {
        assert(!crlf_ends_at(s, (l + 1) as int));
        assert(crlf_ends_at(s, (l + 2) as int));
        assert(s.take(l as int) =~= url);
        assert(scan(s, (l + 2) as nat) == Some(Ok::<Seq<u8>, ProtocolError>(url)));
        assert(scan(s, (l + 1) as nat) == Some(Ok::<Seq<u8>, ProtocolError>(url)));
    } else {
        assert(!crlf_ends_at(s, (l + 1) as int));
        assert(scan(s, (l + 1) as nat) == Some(
            Err::<Seq<u8>, ProtocolError>(ProtocolError::TooLarge),
        ));
    }
}

} // verus!
