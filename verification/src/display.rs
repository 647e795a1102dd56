//! The console capability used by the I/O opcodes.
//!
//! Input arrives one line at a time into a buffer of pending characters;
//! output is a stream of printed characters. The caller that owns the real
//! streams supplies lines when the buffer runs dry and drains the printed
//! characters; everything the opcodes observe is specified here over the
//! two character sequences.

use vstd::prelude::*;

use crate::numeral::{parse_u32, parse_u32_spec};
use crate::Fault;

verus! {

/// What the console holds: the pending input characters (next to be read
/// first) and everything printed so far, in order.
pub struct DisplayView {
    /// Pending input characters, front first.
    pub buffer: Seq<char>,
    /// Every character printed so far, oldest first.
    pub output: Seq<char>,
}

/// The console: one shared input buffer, refilled a line at a time, and
/// the log of printed characters.
///
/// The character-input and number-input opcodes share this one buffer, so
/// interleaving them on the same program is order-sensitive; that sharing
/// is the documented contract, not an accident.
pub struct SystemDisplay {
    buffer: Vec<char>,
    output: Vec<char>,
}

impl View for SystemDisplay {
    type V = DisplayView;

    closed spec fn view(&self) -> DisplayView {
        DisplayView { buffer: self.buffer@, output: self.output@ }
    }
}

impl SystemDisplay {
    /// A console with no pending input and nothing printed.
    pub fn new() -> (r: Self)
        ensures
            r@.buffer == Seq::<char>::empty(),
            r@.output == Seq::<char>::empty(),
    {
        SystemDisplay { buffer: Vec::new(), output: Vec::new() }
    }

    /// Prints one character: appends it to the output stream.
    pub fn print(&mut self, c: char)
        ensures
            final(self)@.buffer == old(self)@.buffer,
            final(self)@.output == old(self)@.output.push(c),
    {
        self.output.push(c);
    }

    /// Takes the next buffered input character. The caller refills the
    /// buffer before calling when it is empty.
    pub fn get(&mut self) -> (c: char)
        requires
            old(self)@.buffer.len() > 0,
        ensures
            c == old(self)@.buffer[0],
            final(self)@.buffer == old(self)@.buffer.skip(1),
            final(self)@.output == old(self)@.output,
    {
        let c = self.buffer.remove(0);
        proof {
            assert(self.buffer@ =~= old(self)@.buffer.skip(1));
        }
        c
    }

    /// Consumes the entire buffered content as one unsigned decimal
    /// numeral. On a buffer that parses, the buffer is cleared and the
    /// value returned; on any other buffer (the empty one included) the
    /// console is unchanged and the malformed-number fault is returned.
    pub fn get_num(&mut self) -> (r: Result<u32, Fault>)
        ensures
            final(self)@.output == old(self)@.output,
            match parse_u32_spec(old(self)@.buffer) {
                Some(n) => r == Ok::<u32, Fault>(n) && final(self)@.buffer == Seq::<
                    char,
                >::empty(),
                None => r == Err::<u32, Fault>(Fault::MalformedNumber) && final(self)@ == old(
                    self,
                )@,
            },
    {
        match parse_u32(&self.buffer) {
            Some(n) => {
                self.buffer.clear();
                Ok(n)
            },
            None => Err(Fault::MalformedNumber),
        }
    }

    /// Appends one line of input, already stripped of its newline, to the
    /// pending buffer.
    pub fn supply(&mut self, line: Vec<char>)
        ensures
            final(self)@.buffer == old(self)@.buffer + line@,
            final(self)@.output == old(self)@.output,
    {
        let mut rest = line;
        self.buffer.append(&mut rest);
    }

    /// Whether no input is pending.
    pub fn buffer_is_empty(&self) -> (b: bool)
        ensures
            b == (self@.buffer.len() == 0),
    {
        self.buffer.len() == 0
    }

    /// The output stream printed so far.
    pub fn output_chars(&self) -> (r: &Vec<char>)
        ensures
            r@ == self@.output,
    {
        &self.output
    }
}

} // verus!
