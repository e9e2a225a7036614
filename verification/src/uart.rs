//! The UART management channel of a SoftNpu emulated by propolis: a request
//! is framed by a preamble byte and a newline, and the reply is read until a
//! newline.

use vstd::prelude::*;
use crate::bytes::{append_bytes, prefix_bytes};
use crate::text::{all_ascii, ascii_chars, lossy_utf8, utf8_lossy_text};

verus! {

/// The byte that starts a management request on the UART.
pub const SOFTNPU_UART_PREAMBLE: u8 = 0b11100101;

/// The byte that ends a request and a reply.
pub const NEWLINE: u8 = 10;

/// The size of the buffer that a reply is read into.
pub const UART_REPLY_CAPACITY: usize = 10240;

/// A request framed for the UART: the preamble, the message, a newline.
pub fn frame_uart_request(message: &[u8]) -> (frame: Vec<u8>)
    ensures
        frame@ == seq![SOFTNPU_UART_PREAMBLE] + message@ + seq![NEWLINE],
{
    let mut frame: Vec<u8> = Vec::new();
    frame.push(SOFTNPU_UART_PREAMBLE);
    append_bytes(&mut frame, message);
    frame.push(NEWLINE);
    assert(frame@ =~= seq![SOFTNPU_UART_PREAMBLE] + message@ + seq![NEWLINE]);
    frame
}

/// How far a reply has been read into the buffer.
pub struct ReplyReader {
    filled: usize,
}

impl ReplyReader {
    /// The number of bytes of the buffer that hold the reply so far.
    pub closed spec fn spec_filled(&self) -> usize {
        self.filled
    }

    /// Nothing read yet.
    pub fn new() -> (r: ReplyReader)
        ensures
            r.spec_filled() == 0,
    {
        ReplyReader { filled: 0 }
    }

    /// Where the next read into the buffer starts.
    pub fn filled(&self) -> (n: usize)
        ensures
            n == self.spec_filled(),
    {
        self.filled
    }

    /// Takes a read of `n` bytes that landed in `buf` after the bytes read
    /// before. The reply is complete when the last byte read is a newline:
    /// then the length of the reply without that newline comes back.
    pub fn on_read(&mut self, buf: &[u8], n: usize) -> (done: Option<usize>)
        requires
            old(self).spec_filled() + n <= buf@.len(),
            old(self).spec_filled() + n > 0,
        ensures
            final(self).spec_filled() == old(self).spec_filled() + n,
            done == (if buf@[final(self).spec_filled() - 1] == NEWLINE {
                Some((final(self).spec_filled() - 1) as usize)
            } else {
                None::<usize>
            }),
    {
        assert(buf@.len() <= usize::MAX) by {
            assert(buf.len() == buf@.len());
        }
        self.filled = self.filled + n;
        if buf[self.filled - 1] == NEWLINE {
            Some(self.filled - 1)
        } else {
            None
        }
    }

    /// The text of a complete reply of `len` bytes at the start of `buf`,
    /// read as UTF-8 with each invalid sequence replaced.
    pub fn reply_text(buf: &[u8], len: usize) -> (text: String)
        requires
            len <= buf@.len(),
        ensures
            text@ == lossy_utf8(buf@.take(len as int)),
            all_ascii(buf@.take(len as int)) ==> text@ == ascii_chars(buf@.take(len as int)),
    {
        let reply = prefix_bytes(buf, len);
        utf8_lossy_text(reply.as_slice())
    }
}

} // verus!
