//! The console panel: a scrollback of command outcomes and a line buffer
//! for hand-typed commands.

use crate::response::{spec_args, spec_body, spec_header, spec_identifier, Response};
use crate::screen;
use crate::text::{contains_str, split_once_space, str_eq};
use vstd::prelude::*;
use vstd::string::*;

verus! {

/// How many scrollback entries are kept.
pub const ENTRY_LIMIT: usize = 300;

/// The console panel. Commands in `strict_excludes` never show; those in
/// `normal_excludes` show only when they fail. The caller edits
/// `command_buffer` and raises `command_send_flag` to submit it.
pub struct ConsolePanel {
    pub strict_excludes: Vec<String>,
    pub normal_excludes: Vec<String>,
    pub history: Vec<String>,
    pub command_buffer: String,
    pub command_send_flag: bool,
    pub expecting: Option<String>,
}

/// A scrollback with one more entry; the oldest leaves once the limit is
/// reached.
pub open spec fn spec_write_line(h: Seq<Seq<char>>, msg: Seq<char>) -> Seq<Seq<char>> {
    if h.len() >= 300 {
        h.drop_first().push(msg)
    } else {
        h.push(msg)
    }
}

/// The scrollback entry for one response: the command, its echoed
/// arguments, its status, and — where there is one — its body on the
/// following lines.
pub open spec fn console_entry(err: bool, cmd: Seq<char>, args: Seq<char>, body: Seq<char>)
    -> Seq<char> {
    let status = if err {
        "ERROR"@
    } else {
        "OK"@
    };
    let head = "* "@ + cmd + " ("@ + args + ") => ["@ + status + "]"@;
    if body.len() > 0 {
        head + seq!['\n'] + body
    } else {
        head
    }
}

/// The view of a panel's scrollback.
pub open spec fn history_view(p: &ConsolePanel) -> Seq<Seq<char>> {
    p.history@.map_values(|x: String| x@)
}

impl ConsolePanel {
    /// A fresh console: empty scrollback, empty buffer, nothing expected.
    pub fn new() -> (r: Self)
        ensures
            r.strict_excludes@.len() == 0,
            r.normal_excludes@.len() == 0,
            r.history@.len() == 0,
            r.command_buffer@.len() == 0,
            !r.command_send_flag,
            r.expecting is None,
    {
        ConsolePanel {
            strict_excludes: Vec::new(),
            normal_excludes: Vec::new(),
            history: Vec::new(),
            command_buffer: String::new(),
            command_send_flag: false,
            expecting: None,
        }
    }

    /// Appends one scrollback line, dropping the oldest at the limit, as
    /// [`spec_write_line`] describes.
    pub fn write_line(&mut self, msg: &str)
        ensures
            history_view(final(self)) == spec_write_line(history_view(old(self)), msg@),
            final(self).strict_excludes == old(self).strict_excludes,
            final(self).normal_excludes == old(self).normal_excludes,
            final(self).command_buffer == old(self).command_buffer,
            final(self).command_send_flag == old(self).command_send_flag,
            final(self).expecting == old(self).expecting,
    {
        if self.history.len() >= ENTRY_LIMIT {
            let ghost mapped = self.history@.map_values(|x: String| x@);
            self.history.remove(0);
            proof {
                assert(self.history@.map_values(|x: String| x@) =~= mapped.drop_first());
            }
        }
        let ghost before = self.history@.map_values(|x: String| x@);
        self.history.push(msg.to_owned());
        proof {
            assert(self.history@.map_values(|x: String| x@) =~= before.push(msg@));
        }
    }
}

impl screen::PanelInv for ConsolePanel {
    open spec fn inv(&self) -> bool {
        true
    }
}

impl screen::CommandHandler for ConsolePanel {
    /// Everything is shown except the strictly excluded commands.
    fn should_handle(&self, command: &str) -> (r: bool)
        ensures
            r == !self.strict_excludes@.map_values(|x: String| x@).contains(command@),
    {
        !contains_str(&self.strict_excludes, command)
    }

    /// Writes the response's scrollback entry. A response the panel was
    /// expecting clears the expectation; a successful response to a
    /// normally excluded command is dropped instead.
    fn handle(&mut self, response: &Response) -> (r: Result<(), String>)
        ensures
            r is Ok,
            ({
                let err = response@ is Error;
                let cmd = spec_identifier(spec_header(response@));
                let args = spec_args(spec_header(response@));
                let body = spec_body(response@);
                let entry = console_entry(err, cmd, args, body);
                match old(self).expecting {
                    Some(e) => (if e@ == cmd {
                        final(self).expecting is None
                    } else {
                        final(self).expecting == old(self).expecting
                    }) && history_view(final(self)) == spec_write_line(
                        history_view(old(self)),
                        entry,
                    ),
                    None => if !err && old(self).normal_excludes@.map_values(
                        |x: String| x@,
                    ).contains(cmd) {
                        *final(self) == *old(self)
                    } else {
                        final(self).expecting is None && history_view(final(self))
                            == spec_write_line(history_view(old(self)), entry)
                    },
                }
            }),
            final(self).strict_excludes == old(self).strict_excludes,
            final(self).normal_excludes == old(self).normal_excludes,
            final(self).command_buffer == old(self).command_buffer,
            final(self).command_send_flag == old(self).command_send_flag,
    {
        let (err, cmd, args, resp) = response.decompose();
        let mut expected = false;
        match &self.expecting {
            Some(e) => {
                if str_eq(e.as_str(), cmd) {
                    expected = true;
                }
            },
            None => {
                if !err && contains_str(&self.normal_excludes, cmd) {
                    return Ok(());
                }
            },
        }
        if expected {
            self.expecting = None;
        }
        let mut buffer = "* ".to_owned();
        buffer.append(cmd);
        buffer.append(" (");
        buffer.append(args);
        buffer.append(") => [");
        buffer.append(if err {
            "ERROR"
        } else {
            "OK"
        });
        buffer.append("]");
        proof {
            reveal_strlit("* ");
            reveal_strlit(" (");
            reveal_strlit(") => [");
            reveal_strlit("]");
        }
        if !resp.is_empty() {
            buffer.append("\n");
            buffer.append(resp);
            proof {
                reveal_strlit("\n");
                assert("\n"@ =~= seq!['\n']);
            }
        }
        proof {
            assert(buffer@ =~= console_entry(
                response@ is Error,
                spec_identifier(spec_header(response@)),
                spec_args(spec_header(response@)),
                spec_body(response@),
            ));
        }
        self.write_line(buffer.as_str());
        Ok(())
    }
}

impl screen::StateSync for ConsolePanel {
    /// Fills the exclusion lists: commands that never show, and commands
    /// that show only when they fail.
    fn initialize_state(&mut self, _send: &mut Vec<String>) {
        self.strict_excludes.push("view-preview".to_owned());
        self.normal_excludes.push("view-position".to_owned());
        self.normal_excludes.push("view-overview".to_owned());
        self.normal_excludes.push("track-reverse".to_owned());
        self.normal_excludes.push("color-list".to_owned());
        self.normal_excludes.push("view-preview-size".to_owned());
        self.normal_excludes.push("package-list".to_owned());
        self.normal_excludes.push("package-backgrounds".to_owned());
        self.normal_excludes.push("package-textures".to_owned());
        self.normal_excludes.push("package-props".to_owned());
        self.normal_excludes.push("header-get".to_owned());
        self.normal_excludes.push("section-list".to_owned());
        self.normal_excludes.push("section-metrics".to_owned());
        self.normal_excludes.push("project-list".to_owned());
        self.normal_excludes.push("project-file-name".to_owned());
        self.normal_excludes.push("pattern-list".to_owned());
    }

    /// The console needs no per-tick book-keeping of its own.
    fn update_state(&mut self, _now_ms: u64) {
    }

    /// The console re-requests nothing.
    fn request_state(&self, _send: &mut Vec<String>) {
    }

    /// Submits the typed command, remembering its first token as the
    /// command whose response is expected next.
    fn write_state(&mut self, _now_ms: u64, send: &mut Vec<String>)
        ensures
            (old(self).command_send_flag && old(self).command_buffer@.len() > 0) ==> ({
                &&& final(self).expecting is Some
                &&& final(self).expecting.unwrap()@ == spec_identifier(
                    old(self).command_buffer@,
                )
                &&& final(send)@.map_values(|x: String| x@) == old(send)@.map_values(
                    |x: String| x@,
                ).push(old(self).command_buffer@)
                &&& final(self).command_buffer@.len() == 0
                &&& !final(self).command_send_flag
            }),
            !(old(self).command_send_flag && old(self).command_buffer@.len() > 0) ==> (
            *final(self) == *old(self) && final(send)@ == old(send)@),
    {
        if self.command_send_flag && !self.command_buffer.as_str().is_empty() {
            self.expecting = Some(
                match split_once_space(self.command_buffer.as_str()) {
                    Some(p) => p.0,
                    None => self.command_buffer.clone(),
                },
            );
            let ghost before = send@.map_values(|x: String| x@);
            send.push(self.command_buffer.clone());
            proof {
                assert(send@.map_values(|x: String| x@) =~= before.push(
                    old(self).command_buffer@,
                ));
            }
            self.command_buffer = String::new();
            self.command_send_flag = false;
        }
    }
}

impl screen::Panel for ConsolePanel {

}

} // verus!
