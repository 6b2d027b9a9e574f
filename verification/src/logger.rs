use vstd::prelude::*;
use vstd::string::StringSliceAdditionalSpecFns;

use crate::vga_textmode::{st_newline, st_write, MarkState, ScreenState, Writer};

verus! {

/// Where log lines go. Files do not exist yet, so every channel currently
/// ends up on the display; the tag is kept so callers can already choose.
#[derive(Debug, Clone, Copy, PartialEq, Eq, Structural)]
pub enum LogChannel {
    STDOUT,
    STDERR,
    STDIN,
}

/// The writer state after one log line: the severity prefix, then the
/// message, then a newline, each run through the markup parser as the
/// prefixes carry color markup.
pub open spec fn spec_logged(s: ScreenState, prefix: Seq<u8>, data: Seq<u8>) -> ScreenState {
    st_newline(st_write(st_write(s, MarkState::Plain, prefix).0, MarkState::Plain, data).0)
}

/// A leveled logger over the display writer: each severity has its own
/// colored prefix and can be switched off on its own.
pub struct Logger {
    pub channel: LogChannel,
    pub show_debug: bool,
    pub show_verbose: bool,
    pub show_info: bool,
    pub show_warn: bool,
    pub show_err: bool,
    pub show_wtf: bool,
}

impl Logger {
    /// A logger on the given channel with every severity switched on.
    pub fn new(chan: LogChannel) -> (l: Logger)
        ensures
            l.channel == chan,
            l.show_debug && l.show_verbose && l.show_info && l.show_warn && l.show_err
                && l.show_wtf,
    {
        Logger {
            channel: chan,
            show_debug: true,
            show_verbose: true,
            show_info: true,
            show_warn: true,
            show_err: true,
            show_wtf: true,
        }
    }

    /// Redirects future log lines to the given channel.
    pub fn set_channel(&mut self, chan: LogChannel)
        ensures
            final(self).channel == chan,
            final(self).show_debug == old(self).show_debug,
            final(self).show_verbose == old(self).show_verbose,
            final(self).show_info == old(self).show_info,
            final(self).show_warn == old(self).show_warn,
            final(self).show_err == old(self).show_err,
            final(self).show_wtf == old(self).show_wtf,
    {
        self.channel = chan;
    }

    /// Logs at the debug severity, if it is switched on.
    pub fn debug(&self, w: &mut Writer, data: &str)
        requires
            old(w).wf(),
        ensures
            final(w).wf(),
            self.show_debug ==> final(w)@ == spec_logged(
                old(w)@,
                ("&8[DEBUG] > ").spec_bytes(),
                data.spec_bytes(),
            ),
            !self.show_debug ==> final(w)@ == old(w)@,
    {
        if !self.show_debug {
            return;
        }
        w.write_string("&8[DEBUG] > ");
        w.write_string(data);
        w.write_byte(10);
    }

    /// Logs at the verbose severity, if it is switched on.
    pub fn verbose(&self, w: &mut Writer, data: &str)
        requires
            old(w).wf(),
        ensures
            final(w).wf(),
            self.show_verbose ==> final(w)@ == spec_logged(
                old(w)@,
                ("&8[&7VERBOSE&8] &7> &7").spec_bytes(),
                data.spec_bytes(),
            ),
            !self.show_verbose ==> final(w)@ == old(w)@,
    {
        if !self.show_verbose {
            return;
        }
        w.write_string("&8[&7VERBOSE&8] &7> &7");
        w.write_string(data);
        w.write_byte(10);
    }

    /// Logs at the info severity, if it is switched on.
    pub fn info(&self, w: &mut Writer, data: &str)
        requires
            old(w).wf(),
        ensures
            final(w).wf(),
            self.show_info ==> final(w)@ == spec_logged(
                old(w)@,
                ("&8[&bINFO&8] &7> &f").spec_bytes(),
                data.spec_bytes(),
            ),
            !self.show_info ==> final(w)@ == old(w)@,
    {
        if !self.show_info {
            return;
        }
        w.write_string("&8[&bINFO&8] &7> &f");
        w.write_string(data);
        w.write_byte(10);
    }

    /// Logs at the warning severity, if it is switched on.
    pub fn warn(&self, w: &mut Writer, data: &str)
        requires
            old(w).wf(),
        ensures
            final(w).wf(),
            self.show_warn ==> final(w)@ == spec_logged(
                old(w)@,
                ("&8[&eWARN&8] &7> &e").spec_bytes(),
                data.spec_bytes(),
            ),
            !self.show_warn ==> final(w)@ == old(w)@,
    {
        if !self.show_warn {
            return;
        }
        w.write_string("&8[&eWARN&8] &7> &e");
        w.write_string(data);
        w.write_byte(10);
    }

    /// Logs at the error severity, if it is switched on.
    pub fn error(&self, w: &mut Writer, data: &str)
        requires
            old(w).wf(),
        ensures
            final(w).wf(),
            self.show_err ==> final(w)@ == spec_logged(
                old(w)@,
                ("&8[&cERROR&8] &7> &c").spec_bytes(),
                data.spec_bytes(),
            ),
            !self.show_err ==> final(w)@ == old(w)@,
    {
        if !self.show_err {
            return;
        }
        w.write_string("&8[&cERROR&8] &7> &c");
        w.write_string(data);
        w.write_byte(10);
    }

    /// Logs a failure that should never happen, if that severity is
    /// switched on.
    pub fn wtf(&self, w: &mut Writer, data: &str)
        requires
            old(w).wf(),
        ensures
            final(w).wf(),
            self.show_wtf ==> final(w)@ == spec_logged(
                old(w)@,
                ("&8[&4FAILURE&8] &7> &c").spec_bytes(),
                data.spec_bytes(),
            ),
            !self.show_wtf ==> final(w)@ == old(w)@,
    {
        if !self.show_wtf {
            return;
        }
        w.write_string("&8[&4FAILURE&8] &7> &c");
        w.write_string(data);
        w.write_byte(10);
    }
}

} // verus!
