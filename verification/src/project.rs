//! The project panel: creating, loading, saving and deleting track
//! projects, driven by a queue of pending actions and the confirmation
//! dialogs around them.

use crate::response::{spec_body, spec_header, spec_identifier, Response};
use crate::screen;
use crate::text::{body_lines, contains_str, payload_lines, str_eq, trim_each, trim_spec, trim_str};
use crate::util::bool_string;
use vstd::prelude::*;
use vstd::string::*;

verus! {

/// One queued project operation.
#[derive(Debug, Clone)]
pub enum ProjectAction {
    New,
    Refresh,
    Load(usize),
    Save(Option<String>),
    Delete(usize),
}

/// The dialog the panel is showing, if any.
#[derive(Debug, PartialEq, Eq, Structural, Clone, Copy)]
pub enum DialogWindow {
    Projects,
    Discard,
    Delete,
    Overwrite,
    Filename,
}

/// The project panel.
pub struct ProjectPanel {
    pub commands: Vec<String>,
    pub project_cache: Vec<String>,
    pub project_file_name: Option<String>,
    pub execute: bool,
    pub selected: usize,
    pub confirmed: Option<bool>,
    pub actions: Vec<ProjectAction>,
    pub name_buffer: String,
    pub dialog_window: Option<DialogWindow>,
}

/// A name in the quotes the command grammar uses.
pub open spec fn quoted(name: Seq<char>) -> Seq<char> {
    "\""@ + name + "\""@
}

/// The command that one write-back tick sends for the front action, given
/// the confirmation state; empty where the tick only opens a dialog or
/// discards the action.
pub open spec fn spec_project_cmds(p: &ProjectPanel) -> Seq<Seq<char>> {
    if !(p.execute && p.actions@.len() > 0) {
        Seq::<Seq<char>>::empty()
    } else {
        match p.actions@[0] {
            ProjectAction::New => match p.confirmed {
                None => seq!["project-new"@],
                Some(c) => seq![
                    "project-new "@ + (if c {
                        "#t"@
                    } else {
                        "#f"@
                    })
                ],
            },
            ProjectAction::Refresh => seq!["project-list"@],
            ProjectAction::Load(n) => {
                if p.project_cache@.len() > n {
                    match p.confirmed {
                        None => seq!["project-load "@ + quoted(p.project_cache@[n as int]@)],
                        Some(c) => seq![
                            "project-load "@ + quoted(p.project_cache@[n as int]@) + " "@ + (
                            if c {
                                "#t"@
                            } else {
                                "#f"@
                            })
                        ],
                    }
                } else {
                    Seq::<Seq<char>>::empty()
                }
            },
            ProjectAction::Save(name) => match name {
                None => seq!["project-save"@],
                Some(nm) => match p.confirmed {
                    None => seq!["project-save "@ + quoted(nm@)],
                    Some(c) => seq![
                        "project-save "@ + quoted(nm@) + " "@ + (if c {
                            "#t"@
                        } else {
                            "#f"@
                        })
                    ],
                },
            },
            ProjectAction::Delete(n) => match p.confirmed {
                Some(true) => if n < p.project_cache@.len() {
                    seq!["project-delete "@ + quoted(p.project_cache@[n as int]@)]
                } else {
                    Seq::<Seq<char>>::empty()
                },
                _ => Seq::<Seq<char>>::empty(),
            },
        }
    }
}

impl ProjectPanel {
    /// A fresh panel: nothing cached, nothing queued.
    pub fn new() -> (r: Self)
        ensures
            r.commands@.len() == 0,
            r.project_cache@.len() == 0,
            r.project_file_name is None,
            !r.execute,
            r.selected == 0,
            r.confirmed is None,
            r.actions@.len() == 0,
            r.name_buffer@.len() == 0,
            r.dialog_window is None,
    {
        ProjectPanel {
            commands: Vec::new(),
            project_cache: Vec::new(),
            project_file_name: None,
            execute: false,
            selected: 0,
            confirmed: None,
            actions: Vec::new(),
            name_buffer: String::new(),
            dialog_window: None,
        }
    }

    /// Queues one action for the next write-back tick, dropping any stale
    /// confirmation.
    pub fn push_action(&mut self, action: ProjectAction)
        ensures
            final(self).confirmed is None,
            final(self).actions@.len() == old(self).actions@.len() + 1,
            final(self).execute,
            final(self).commands == old(self).commands,
            final(self).project_cache == old(self).project_cache,
            final(self).dialog_window == old(self).dialog_window,
    {
        self.confirmed = None;
        self.actions.push(action);
        self.execute = true;
    }

    /// One quoted-name command.
    fn name_cmd(verb: &'static str, name: &str) -> (r: String)
        ensures
            r@ == verb@ + quoted(name@),
    {
        let mut c = verb.to_owned();
        c.append("\"");
        c.append(name);
        c.append("\"");
        proof {
            reveal_strlit("\"");
        }
        c
    }
}

impl screen::PanelInv for ProjectPanel {
    open spec fn inv(&self) -> bool {
        true
    }
}

impl screen::CommandHandler for ProjectPanel {
    /// True exactly for the commands in this panel's list.
    fn should_handle(&self, command: &str) -> (r: bool)
        ensures
            r == self.commands@.map_values(|x: String| x@).contains(command@),
    {
        contains_str(&self.commands, command)
    }

    /// Listings refresh the caches; the outcome of a queued action either
    /// retires it or opens the dialog that asks for confirmation.
    fn handle(&mut self, response: &Response) -> (r: Result<(), String>)
        ensures
            r is Ok,
            final(self).commands == old(self).commands,
            (spec_identifier(spec_header(response@)) == "project-list"@) ==> ({
                let body = spec_body(response@);
                if trim_spec(body) == "<EMPTY>"@ {
                    final(self).project_cache@.len() == 0
                } else {
                    final(self).project_cache@.map_values(|x: String| x@) == trim_each(
                        payload_lines(body),
                    )
                }
            }),
            (spec_identifier(spec_header(response@)) == "project-file-name"@) ==> ({
                let t = trim_spec(spec_body(response@));
                if t == "<EMPTY>"@ {
                    final(self).project_file_name is None && final(self).name_buffer@.len() == 0
                } else {
                    ({
                        let f = final(self).project_file_name;
                        f is Some && f.unwrap()@ == t && final(self).name_buffer@ == t
                    })
                }
            }),
    {
        let (err, cmd, args, resp) = response.decompose();
        proof {
            reveal_strlit("project-list");
            reveal_strlit("project-file-name");
            reveal_strlit("project-new");
            reveal_strlit("project-load");
            reveal_strlit("project-save");
            reveal_strlit("project-delete");
            reveal_strlit("<EMPTY>");
            reveal_strlit("");
        }
        if str_eq(cmd, "project-list") {
            if !str_eq(trim_str(resp), "<EMPTY>") {
                self.project_cache = body_lines(resp);
            } else {
                self.project_cache = Vec::new();
            }
        } else if str_eq(cmd, "project-file-name") {
            let t = trim_str(resp);
            if !str_eq(t, "<EMPTY>") {
                let s = t.to_owned();
                self.project_file_name = Some(s.clone());
                self.name_buffer = s;
            } else {
                self.name_buffer = String::new();
                self.project_file_name = None;
            }
        } else if str_eq(cmd, "project-new") || str_eq(cmd, "project-load") {
            let unconfirmed = match self.confirmed {
                None => true,
                Some(_) => false,
            };
            if err && unconfirmed {
                self.dialog_window = Some(DialogWindow::Discard);
            } else {
                if self.actions.len() > 0 {
                    self.actions.remove(0);
                }
                self.confirmed = None;
            }
        } else if str_eq(cmd, "project-save") {
            let unconfirmed = match self.confirmed {
                None => true,
                Some(_) => false,
            };
            if err && !args.is_empty() && unconfirmed {
                self.dialog_window = Some(DialogWindow::Overwrite);
            } else {
                if self.actions.len() > 0 {
                    self.actions.remove(0);
                }
                self.confirmed = None;
            }
        } else if str_eq(cmd, "project-delete") {
            if self.actions.len() > 0 {
                self.actions.remove(0);
            }
            self.confirmed = None;
        }
        Ok(())
    }
}

impl screen::StateSync for ProjectPanel {
    /// Registers the commands this panel reacts to.
    fn initialize_state(&mut self, _send: &mut Vec<String>) {
        self.commands.push("project-new".to_owned());
        self.commands.push("project-load".to_owned());
        self.commands.push("project-save".to_owned());
        self.commands.push("project-delete".to_owned());
        self.commands.push("project-list".to_owned());
        self.commands.push("project-file-name".to_owned());
    }

    /// The project panel needs no per-tick book-keeping of its own.
    fn update_state(&mut self, _now_ms: u64) {
    }

    /// Asks the interpreter for the project listing and the current file
    /// name.
    fn request_state(&self, send: &mut Vec<String>)
        ensures
            final(send)@.map_values(|x: String| x@) == old(send)@.map_values(|x: String| x@)
                + seq!["project-list"@, "project-file-name"@],
    {
        send.push("project-list".to_owned());
        send.push("project-file-name".to_owned());
        proof {
            assert(final(send)@.map_values(|x: String| x@) =~= old(send)@.map_values(
                |x: String| x@,
            ) + seq!["project-list"@, "project-file-name"@]);
        }
    }

    /// Executes the front of the action queue once: sends its command, as
    /// [`spec_project_cmds`] describes, or opens the dialog that asks for
    /// confirmation; a finished or discarded action leaves the queue.
    #[verifier::rlimit(100)]
    #[verifier::spinoff_prover]
    fn write_state(&mut self, _now_ms: u64, send: &mut Vec<String>)
        ensures
            final(send)@.map_values(|x: String| x@) == old(send)@.map_values(|x: String| x@)
                + spec_project_cmds(old(self)),
            !final(self).execute,
            final(self).commands == old(self).commands,
            final(self).project_cache == old(self).project_cache,
            (old(self).execute && old(self).actions@.len() > 0 && (old(self).actions@[0]
                is Refresh || (old(self).actions@[0] is Delete && old(self).confirmed == Some(
                false,
            )))) ==> final(self).actions@ == old(self).actions@.drop_first(),
            (old(self).execute && old(self).actions@.len() > 0 && old(self).actions@[0]
                is Delete && old(self).confirmed is None) ==> final(self).dialog_window == Some(
                DialogWindow::Delete,
            ),
    {
        let ex = self.execute;
        self.execute = false;
        let ghost base = old(send)@.map_values(|x: String| x@);
        if ex && self.actions.len() > 0 {
            let mut pop_next_action = false;
            let mut open_delete_dialog = false;
            let ghost prev = send@.map_values(|x: String| x@);
            match &self.actions[0] {
                ProjectAction::New => {
                    match self.confirmed {
                        None => {
                            send.push("project-new".to_owned());
                        },
                        Some(c) => {
                            let mut cmd = "project-new ".to_owned();
                            cmd.append(bool_string(c));
                            send.push(cmd);
                        },
                    }
                },
                ProjectAction::Refresh => {
                    send.push("project-list".to_owned());
                    pop_next_action = true;
                },
                ProjectAction::Load(n) => {
                    if self.project_cache.len() > *n {
                        match self.confirmed {
                            None => {
                                let cmd = Self::name_cmd(
                                    "project-load ",
                                    self.project_cache[*n].as_str(),
                                );
                                send.push(cmd);
                            },
                            Some(c) => {
                                let mut cmd = Self::name_cmd(
                                    "project-load ",
                                    self.project_cache[*n].as_str(),
                                );
                                cmd.append(" ");
                                cmd.append(bool_string(c));
                                send.push(cmd);
                            },
                        }
                    }
                },
                ProjectAction::Save(name) => {
                    match name {
                        None => {
                            send.push("project-save".to_owned());
                        },
                        Some(nm) => {
                            match self.confirmed {
                                None => {
                                    let cmd = Self::name_cmd("project-save ", nm.as_str());
                                    send.push(cmd);
                                },
                                Some(c) => {
                                    let mut cmd = Self::name_cmd("project-save ", nm.as_str());
                                    cmd.append(" ");
                                    cmd.append(bool_string(c));
                                    send.push(cmd);
                                },
                            }
                        },
                    }
                },
                ProjectAction::Delete(n) => {
                    match self.confirmed {
                        None => {
                            open_delete_dialog = true;
                        },
                        Some(true) => {
                            if *n < self.project_cache.len() {
                                let cmd = Self::name_cmd(
                                    "project-delete ",
                                    self.project_cache[*n].as_str(),
                                );
                                send.push(cmd);
                            }
                        },
                        Some(false) => {
                            pop_next_action = true;
                        },
                    }
                },
            }
            proof {
                assert(send@.map_values(|x: String| x@) =~= prev + spec_project_cmds(
                    old(self),
                ));
            }
            if open_delete_dialog {
                self.dialog_window = Some(DialogWindow::Delete);
            }
            if pop_next_action {
                self.actions.remove(0);
            }
        } else {
            proof {
                assert(send@.map_values(|x: String| x@) =~= base + spec_project_cmds(
                    old(self),
                ));
            }
        }
    }
}

impl screen::Panel for ProjectPanel {

}

} // verus!
