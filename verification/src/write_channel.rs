use vstd::prelude::*;
use vstd::string::StringSliceAdditionalSpecFns;

use crate::logger::spec_logged;
use crate::vga_textmode::Writer;

verus! {

/// A place text can be sent: a small closed set of tagged channels, each
/// writing its own prefix before the payload and a newline after it.
pub trait WriteChannel {
    /// The bytes this channel puts before the payload.
    spec fn spec_prefix(&self) -> Seq<u8>;

    /// Writes one line of text to the display through this channel.
    fn write(&self, w: &mut Writer, data: &str)
        requires
            old(w).wf(),
        ensures
            final(w).wf(),
            final(w)@ == spec_logged(old(w)@, self.spec_prefix(), data.spec_bytes()),
    ;
}

/// The ordinary output channel: text goes out as it is.
pub struct ChannelSTDOUT {}

impl WriteChannel for ChannelSTDOUT {
    open spec fn spec_prefix(&self) -> Seq<u8> {
        Seq::empty()
    }

    fn write(&self, w: &mut Writer, data: &str) {
        w.write_string(data);
        w.write_byte(10);
    }
}

/// The input echo channel: text is marked as having arrived on input.
pub struct ChannelSTDIN {}

impl WriteChannel for ChannelSTDIN {
    open spec fn spec_prefix(&self) -> Seq<u8> {
        ("ON STDIN: ").spec_bytes()
    }

    fn write(&self, w: &mut Writer, data: &str) {
        w.write_string("ON STDIN: ");
        w.write_string(data);
        w.write_byte(10);
    }
}

/// The error channel: text is marked as an error report.
pub struct ChannelSTDERR {}

impl WriteChannel for ChannelSTDERR {
    open spec fn spec_prefix(&self) -> Seq<u8> {
        ("ON STDERR: ").spec_bytes()
    }

    fn write(&self, w: &mut Writer, data: &str) {
        w.write_string("ON STDERR: ");
        w.write_string(data);
        w.write_byte(10);
    }
}

} // verus!
