//! The header panel: the track's name, package, background, texture, flag
//! word and random seed, kept in step with the interpreter's `header-*`
//! and `package-*` commands.

use crate::monitor::{hash_bytes, StateMonitor};
use crate::numbers::{
    flags_binary_spec, parse_i64, parse_i64_spec, parse_u32, parse_u32_spec, u32_flags_binary,
};
use crate::response::{first_space, spec_body, spec_header, spec_identifier, Response};
use crate::screen;
use crate::text::{
    body_lines, contains_str, payload_lines, split_once_space, str_eq, trim_each,
};
use vstd::bytes::{u32_to_le_bytes, u64_to_le_bytes};
use vstd::prelude::*;
use vstd::string::*;

verus! {

/// How long after the last edit the panel waits before writing back, in
/// milliseconds.
pub const HEADER_WRITE_DELAY_MS: u64 = 48;

/// The editable header values.
pub struct HeaderState {
    pub package: String,
    pub name: String,
    pub background: String,
    pub texture: String,
    pub flags: u32,
    pub random_seed: i64,
    pub clicks: u8,
}

/// The ghost mirror of [`HeaderState`].
pub struct HeaderStateView {
    pub package: Seq<char>,
    pub name: Seq<char>,
    pub background: Seq<char>,
    pub texture: Seq<char>,
    pub flags: u32,
    pub random_seed: i64,
    pub clicks: u8,
}

impl View for HeaderState {
    type V = HeaderStateView;

    open spec fn view(&self) -> HeaderStateView {
        HeaderStateView {
            package: self.package@,
            name: self.name@,
            background: self.background@,
            texture: self.texture@,
            flags: self.flags,
            random_seed: self.random_seed,
            clicks: self.clicks,
        }
    }
}

/// The pending edits: one flag per field.
pub struct HeaderFlags {
    pub package: bool,
    pub name: bool,
    pub background: bool,
    pub texture: bool,
    pub flags: bool,
    pub play_test: bool,
    pub random_seed: bool,
}

/// The header panel. The four content lists cache what the loaded package
/// offers.
pub struct HeaderPanel {
    pub state: HeaderState,
    pub commands: Vec<String>,
    pub monitor: StateMonitor,
    pub packages: Vec<String>,
    pub backgrounds: Vec<String>,
    pub textures: Vec<String>,
    pub props: Vec<String>,
    pub modified: HeaderFlags,
    pub autosave: bool,
}

/// One `header-get` line folded into the state: a field name, whitespace,
/// and the value. An unknown field changes nothing; a line without
/// whitespace, or an unreadable number, is an error.
pub open spec fn apply_header_line(st: HeaderStateView, line: Seq<char>) -> Option<
    HeaderStateView,
> {
    match first_space(line) {
        None => None,
        Some(i) => {
            let field = line.take(i);
            let value = line.skip(i + 1);
            if field == "package"@ {
                Some(HeaderStateView { package: value, ..st })
            } else if field == "name"@ {
                Some(HeaderStateView { name: value, ..st })
            } else if field == "background"@ {
                Some(HeaderStateView { background: value, ..st })
            } else if field == "texture"@ {
                Some(HeaderStateView { texture: value, ..st })
            } else if field == "random-seed"@ {
                match parse_i64_spec(value) {
                    Some(v) => Some(HeaderStateView { random_seed: v, ..st }),
                    None => None,
                }
            } else if field == "flags"@ {
                match parse_u32_spec(value) {
                    Some(v) => Some(HeaderStateView { flags: v, ..st }),
                    None => None,
                }
            } else {
                Some(st)
            }
        },
    }
}

/// The `header-get` lines from position `i` on folded into the state;
/// `None` as soon as one line fails.
pub open spec fn apply_header_lines(st: HeaderStateView, ls: Seq<Seq<char>>, i: int) -> Option<
    HeaderStateView,
>
    decreases ls.len() - i,
{
    if i < 0 || i >= ls.len() {
        Some(st)
    } else {
        match apply_header_line(st, ls[i]) {
            Some(st2) => apply_header_lines(st2, ls, i + 1),
            None => None,
        }
    }
}

impl HeaderPanel {
    /// A fresh panel: everything empty, auto-save on.
    pub fn new() -> (r: Self)
        ensures
            r.state@.package.len() == 0,
            r.state@.name.len() == 0,
            r.state@.flags == 0u32,
            r.commands@.len() == 0,
            r.packages@.len() == 0,
            r.autosave,
    {
        HeaderPanel {
            state: HeaderState {
                package: String::new(),
                name: String::new(),
                background: String::new(),
                texture: String::new(),
                flags: 0,
                random_seed: 0,
                clicks: 0,
            },
            commands: Vec::new(),
            monitor: StateMonitor::new(0),
            packages: Vec::new(),
            backgrounds: Vec::new(),
            textures: Vec::new(),
            props: Vec::new(),
            modified: HeaderFlags {
                package: false,
                name: false,
                background: false,
                texture: false,
                flags: false,
                play_test: false,
                random_seed: false,
            },
            autosave: true,
        }
    }

    /// The hash code of the panel's editable state.
    fn state_code(&self) -> (r: u64) {
        let mut bytes: Vec<u8> = Vec::new();
        let mut b = self.state.package.as_str().as_bytes_vec();
        bytes.append(&mut b);
        let mut b = self.state.name.as_str().as_bytes_vec();
        bytes.append(&mut b);
        let mut b = self.state.background.as_str().as_bytes_vec();
        bytes.append(&mut b);
        let mut b = self.state.texture.as_str().as_bytes_vec();
        bytes.append(&mut b);
        let mut b = u32_to_le_bytes(self.state.flags);
        bytes.append(&mut b);
        let mut b = u64_to_le_bytes(self.state.random_seed as u64);
        bytes.append(&mut b);
        bytes.push(self.state.clicks);
        hash_bytes(&bytes)
    }
}

impl screen::PanelInv for HeaderPanel {
    open spec fn inv(&self) -> bool {
        true
    }
}

impl screen::CommandHandler for HeaderPanel {
    /// True exactly for the commands in this panel's list.
    fn should_handle(&self, command: &str) -> (r: bool)
        ensures
            r == self.commands@.map_values(|x: String| x@).contains(command@),
    {
        contains_str(&self.commands, command)
    }

    /// A successful `header-get` folds its lines into the state, as
    /// [`apply_header_lines`] describes; a successful package listing
    /// replaces the matching content list with the body's trimmed lines.
    fn handle(&mut self, response: &Response) -> (r: Result<(), String>)
        ensures
            final(self).commands == old(self).commands,
            (response@ is Success && spec_identifier(spec_header(response@)) == "header-get"@)
                ==> ({
                let folded = apply_header_lines(
                    old(self).state@,
                    trim_each(payload_lines(spec_body(response@))),
                    0,
                );
                match folded {
                    Some(st) => r is Ok && final(self).state@ == st,
                    None => r is Err,
                }
            }),
            (response@ is Success && spec_identifier(spec_header(response@))
                == "package-list"@) ==> r is Ok && final(self).packages@.map_values(
                |x: String| x@,
            ) == trim_each(payload_lines(spec_body(response@))),
            (response@ is Success && spec_identifier(spec_header(response@))
                == "package-backgrounds"@) ==> r is Ok && final(self).backgrounds@.map_values(
                |x: String| x@,
            ) == trim_each(payload_lines(spec_body(response@))),
            (response@ is Success && spec_identifier(spec_header(response@))
                == "package-textures"@) ==> r is Ok && final(self).textures@.map_values(
                |x: String| x@,
            ) == trim_each(payload_lines(spec_body(response@))),
            (response@ is Success && spec_identifier(spec_header(response@))
                == "package-props"@) ==> r is Ok && final(self).props@.map_values(
                |x: String| x@,
            ) == trim_each(payload_lines(spec_body(response@))),
            response@ is Error ==> r is Ok && *final(self) == *old(self),
    {
        let (err, cmd, _args, resp) = response.decompose();
        proof {
            reveal_strlit("header-get");
            reveal_strlit("package-list");
            reveal_strlit("package-backgrounds");
            reveal_strlit("package-textures");
            reveal_strlit("package-props");
            reveal_strlit("");
        }
        if err {
            return Ok(());
        }
        if str_eq(cmd, "header-get") {
            proof {
                assert("header-get"@ != "package-list"@);
                assert("header-get"@ != "package-backgrounds"@);
                assert("header-get"@ != "package-textures"@);
                assert("header-get"@ != "package-props"@);
            }
            self.apply_header_body(resp)
        } else if str_eq(cmd, "package-list") {
            self.packages = body_lines(resp);
            Ok(())
        } else if str_eq(cmd, "package-backgrounds") {
            self.backgrounds = body_lines(resp);
            Ok(())
        } else if str_eq(cmd, "package-textures") {
            self.textures = body_lines(resp);
            Ok(())
        } else if str_eq(cmd, "package-props") {
            self.props = body_lines(resp);
            Ok(())
        } else {
            Err("Failed to parse server response.".to_owned())
        }
    }
}

/// The `package-load` command of one write-back tick, if flagged; the
/// package name rides in quotes.
pub open spec fn hseg_package(p: &HeaderPanel) -> Seq<Seq<char>> {
    if p.modified.package {
        seq!["package-load \""@ + p.state@.package + "\""@]
    } else {
        Seq::<Seq<char>>::empty()
    }
}

/// The `header-name-set` command, if flagged.
pub open spec fn hseg_name(p: &HeaderPanel) -> Seq<Seq<char>> {
    if p.modified.name {
        seq!["header-name-set \""@ + p.state@.name + "\""@]
    } else {
        Seq::<Seq<char>>::empty()
    }
}

/// The `header-background-set` command, if flagged.
pub open spec fn hseg_background(p: &HeaderPanel) -> Seq<Seq<char>> {
    if p.modified.background {
        seq!["header-background-set \""@ + p.state@.background + "\""@]
    } else {
        Seq::<Seq<char>>::empty()
    }
}

/// The `header-texture-set` command, if flagged.
pub open spec fn hseg_texture(p: &HeaderPanel) -> Seq<Seq<char>> {
    if p.modified.texture {
        seq!["header-texture-set \""@ + p.state@.texture + "\""@]
    } else {
        Seq::<Seq<char>>::empty()
    }
}

/// The `header-flags-set` command carrying the flag word in padded
/// binary, if flagged.
pub open spec fn hseg_flags(p: &HeaderPanel) -> Seq<Seq<char>> {
    if p.modified.flags {
        seq!["header-flags-set "@ + flags_binary_spec(p.state@.flags as int)]
    } else {
        Seq::<Seq<char>>::empty()
    }
}

/// The `header-new-random-seed` command, if flagged.
pub open spec fn hseg_seed(p: &HeaderPanel) -> Seq<Seq<char>> {
    if p.modified.random_seed {
        seq!["header-new-random-seed"@]
    } else {
        Seq::<Seq<char>>::empty()
    }
}

/// The `header-get` re-request, after any flagged field at all.
pub open spec fn hseg_get(p: &HeaderPanel) -> Seq<Seq<char>> {
    if p.modified.package || p.modified.name || p.modified.background || p.modified.texture
        || p.modified.flags || p.modified.play_test || p.modified.random_seed {
        seq!["header-get"@]
    } else {
        Seq::<Seq<char>>::empty()
    }
}

/// The content re-listings, after a package change.
pub open spec fn hseg_extras(p: &HeaderPanel) -> Seq<Seq<char>> {
    if p.modified.package {
        seq!["package-backgrounds"@, "package-textures"@, "package-props"@]
    } else {
        Seq::<Seq<char>>::empty()
    }
}

/// The play-test launch — preceded by a save when auto-save is on — if
/// flagged.
pub open spec fn hseg_play(p: &HeaderPanel) -> Seq<Seq<char>> {
    if p.modified.play_test {
        if p.autosave {
            seq!["project-save"@, "track-play-test"@]
        } else {
            seq!["track-play-test"@]
        }
    } else {
        Seq::<Seq<char>>::empty()
    }
}

/// The commands one write-back tick sends, given the panel's flags.
pub open spec fn spec_header_write_cmds(p: &HeaderPanel) -> Seq<Seq<char>> {
    hseg_package(p) + hseg_name(p) + hseg_background(p) + hseg_texture(p) + hseg_flags(p)
        + hseg_seed(p) + hseg_get(p) + hseg_extras(p) + hseg_play(p)
}

impl screen::StateSync for HeaderPanel {
    /// Registers the commands this panel reacts to.
    fn initialize_state(&mut self, _send: &mut Vec<String>) {
        self.commands.push("header-get".to_owned());
        self.commands.push("package-list".to_owned());
        self.commands.push("package-backgrounds".to_owned());
        self.commands.push("package-textures".to_owned());
        self.commands.push("package-props".to_owned());
    }

    /// Lets the monitor see the current state.
    fn update_state(&mut self, now_ms: u64) {
        let code = self.state_code();
        self.monitor.update(code, now_ms);
    }

    /// Asks the interpreter for the package listings and the header.
    fn request_state(&self, send: &mut Vec<String>)
        ensures
            final(send)@.map_values(|x: String| x@) == old(send)@.map_values(|x: String| x@)
                + seq![
                "package-list"@,
                "package-backgrounds"@,
                "package-textures"@,
                "package-props"@,
                "header-get"@,
            ],
    {
        send.push("package-list".to_owned());
        send.push("package-backgrounds".to_owned());
        send.push("package-textures".to_owned());
        send.push("package-props".to_owned());
        send.push("header-get".to_owned());
        proof {
            assert(final(send)@.map_values(|x: String| x@) =~= old(send)@.map_values(
                |x: String| x@,
            ) + seq![
                "package-list"@,
                "package-backgrounds"@,
                "package-textures"@,
                "package-props"@,
                "header-get"@,
            ]);
        }
    }

    /// Once the edit delay has passed: the flagged commands, as
    /// [`spec_header_write_cmds`] describes, and every flag is cleared.
    fn write_state(&mut self, now_ms: u64, send: &mut Vec<String>)
        ensures
            !(now_ms >= old(self).monitor.last_modification_ms as int
                + HEADER_WRITE_DELAY_MS as int) ==> final(send)@ == old(send)@ && *final(self)
                == *old(self),
            (now_ms >= old(self).monitor.last_modification_ms as int
                + HEADER_WRITE_DELAY_MS as int) ==> ({
                &&& final(send)@.map_values(|x: String| x@) == old(send)@.map_values(
                    |x: String| x@,
                ) + spec_header_write_cmds(old(self))
                &&& !final(self).modified.package
                &&& !final(self).modified.name
                &&& !final(self).modified.background
                &&& !final(self).modified.texture
                &&& !final(self).modified.flags
                &&& !final(self).modified.play_test
                &&& !final(self).modified.random_seed
                &&& final(self).state == old(self).state
            }),
    {
        if self.monitor.time_elapsed(now_ms, HEADER_WRITE_DELAY_MS) {
            let mut out = self.build_write_commands();
            self.modified = HeaderFlags {
                package: false,
                name: false,
                background: false,
                texture: false,
                flags: false,
                play_test: false,
                random_seed: false,
            };
            let ghost outv = out@.map_values(|x: String| x@);
            let ghost pre = send@.map_values(|x: String| x@);
            send.append(&mut out);
            proof {
                assert(send@.map_values(|x: String| x@) =~= pre + outv);
            }
            self.monitor.sleep(now_ms);
        }
    }
}

impl HeaderPanel {
    /// Folds a `header-get` body into the state, line by line, as
    /// [`apply_header_lines`] describes; the first unreadable line stops
    /// the fold with an error, leaving the earlier lines applied.
    fn apply_header_body(&mut self, resp: &str) -> (r: Result<(), String>)
        ensures
            final(self).commands == old(self).commands,
            final(self).packages == old(self).packages,
            final(self).backgrounds == old(self).backgrounds,
            final(self).textures == old(self).textures,
            final(self).props == old(self).props,
            final(self).modified == old(self).modified,
            final(self).monitor == old(self).monitor,
            final(self).autosave == old(self).autosave,
            (match apply_header_lines(
                old(self).state@,
                trim_each(payload_lines(resp@)),
                0,
            ) {
                Some(st) => r is Ok && final(self).state@ == st,
                None => r is Err,
            }),
    {
        let ls = body_lines(resp);
        let ghost lsv = trim_each(payload_lines(resp@));
        let mut i: usize = 0;
        while i < ls.len()
            invariant
                i <= ls@.len(),
                lsv == ls@.map_values(|x: String| x@),
                lsv.len() == ls@.len(),
                lsv == trim_each(payload_lines(resp@)),
                self.commands == old(self).commands,
                self.packages == old(self).packages,
                self.backgrounds == old(self).backgrounds,
                self.textures == old(self).textures,
                self.props == old(self).props,
                self.modified == old(self).modified,
                self.monitor == old(self).monitor,
                self.autosave == old(self).autosave,
                apply_header_lines(old(self).state@, lsv, 0) == apply_header_lines(
                    self.state@,
                    lsv,
                    i as int,
                ),
            decreases ls@.len() - i,
        {
            let ghost st_before = self.state@;
            proof {
                reveal_strlit("package");
                reveal_strlit("name");
                reveal_strlit("background");
                reveal_strlit("texture");
                reveal_strlit("random-seed");
                reveal_strlit("flags");
            }
            match split_once_space(ls[i].as_str()) {
                None => {
                    proof {
                        assert(apply_header_line(st_before, lsv[i as int]) is None);
                        assert(apply_header_lines(st_before, lsv, i as int) is None);
                    }
                    return Err("Failed to parse server response.".to_owned());
                },
                Some(p) => {
                    let (field, value) = p;
                    if str_eq(field.as_str(), "package") {
                        self.state.package = value;
                    } else if str_eq(field.as_str(), "name") {
                        self.state.name = value;
                    } else if str_eq(field.as_str(), "background") {
                        self.state.background = value;
                    } else if str_eq(field.as_str(), "texture") {
                        self.state.texture = value;
                    } else if str_eq(field.as_str(), "random-seed") {
                        match parse_i64(value.as_str()) {
                            Some(v) => {
                                self.state.random_seed = v;
                            },
                            None => {
                                proof {
                                    assert(apply_header_line(st_before, lsv[i as int]) is None);
                                    assert(apply_header_lines(st_before, lsv, i as int)
                                        is None);
                                }
                                return Err("Failed to parse server response.".to_owned());
                            },
                        }
                    } else if str_eq(field.as_str(), "flags") {
                        match parse_u32(value.as_str()) {
                            Some(v) => {
                                self.state.flags = v;
                            },
                            None => {
                                proof {
                                    assert(apply_header_line(st_before, lsv[i as int]) is None);
                                    assert(apply_header_lines(st_before, lsv, i as int)
                                        is None);
                                }
                                return Err("Failed to parse server response.".to_owned());
                            },
                        }
                    }
                },
            }
            proof {
                assert(apply_header_line(st_before, lsv[i as int]) == Some(self.state@));
            }
            i = i + 1;
        }
        proof {
            assert(apply_header_lines(self.state@, lsv, lsv.len() as int) == Some(self.state@));
        }
        Ok(())
    }

    /// One quoted-argument command: the prefix, the value, a closing quote.
    fn quoted_cmd(prefix: &'static str, value: &str) -> (r: String)
        ensures
            r@ == prefix@ + value@ + "\""@,
    {
        let mut c = prefix.to_owned();
        c.append(value);
        c.append("\"");
        c
    }

    /// The field-edit commands of one write-back tick: the first six
    /// segments of [`spec_header_write_cmds`].
    #[verifier::rlimit(100)]
    #[verifier::spinoff_prover]
    fn build_field_commands(&self) -> (out: Vec<String>)
        ensures
            out@.map_values(|x: String| x@) == hseg_package(self) + hseg_name(self)
                + hseg_background(self) + hseg_texture(self) + hseg_flags(self) + hseg_seed(
                self,
            ),
    {
        let mut out: Vec<String> = Vec::new();
        let ghost mut built: Seq<Seq<char>> = Seq::<Seq<char>>::empty();
        proof {
            assert(built =~= Seq::<Seq<char>>::empty());
        }
        if self.modified.package {
            let c = Self::quoted_cmd("package-load \"", self.state.package.as_str());
            let ghost prev = out@.map_values(|x: String| x@);
            out.push(c);
            proof {
                assert(out@.map_values(|x: String| x@) =~= prev + hseg_package(self));
            }
        }
        proof {
            built = hseg_package(self);
            assert(out@.map_values(|x: String| x@) =~= built);
        }
        if self.modified.name {
            let c = Self::quoted_cmd("header-name-set \"", self.state.name.as_str());
            let ghost prev = out@.map_values(|x: String| x@);
            out.push(c);
            proof {
                assert(out@.map_values(|x: String| x@) =~= prev + hseg_name(self));
            }
        }
        proof {
            built = built + hseg_name(self);
            assert(out@.map_values(|x: String| x@) =~= built);
        }
        if self.modified.background {
            let c = Self::quoted_cmd("header-background-set \"", self.state.background.as_str());
            let ghost prev = out@.map_values(|x: String| x@);
            out.push(c);
            proof {
                assert(out@.map_values(|x: String| x@) =~= prev + hseg_background(self));
            }
        }
        proof {
            built = built + hseg_background(self);
            assert(out@.map_values(|x: String| x@) =~= built);
        }
        if self.modified.texture {
            let c = Self::quoted_cmd("header-texture-set \"", self.state.texture.as_str());
            let ghost prev = out@.map_values(|x: String| x@);
            out.push(c);
            proof {
                assert(out@.map_values(|x: String| x@) =~= prev + hseg_texture(self));
            }
        }
        proof {
            built = built + hseg_texture(self);
            assert(out@.map_values(|x: String| x@) =~= built);
        }
        if self.modified.flags {
            let mut c = "header-flags-set ".to_owned();
            c.append(u32_flags_binary(self.state.flags).as_str());
            let ghost prev = out@.map_values(|x: String| x@);
            out.push(c);
            proof {
                assert(out@.map_values(|x: String| x@) =~= prev + hseg_flags(self));
            }
        }
        proof {
            built = built + hseg_flags(self);
            assert(out@.map_values(|x: String| x@) =~= built);
        }
        if self.modified.random_seed {
            let ghost prev = out@.map_values(|x: String| x@);
            out.push("header-new-random-seed".to_owned());
            proof {
                assert(out@.map_values(|x: String| x@) =~= prev + hseg_seed(self));
            }
        }
        proof {
            built = built + hseg_seed(self);
            assert(out@.map_values(|x: String| x@) =~= built);
        }
        out
    }

    /// The commands one write-back tick sends, as
    /// [`spec_header_write_cmds`] describes.
    #[verifier::rlimit(100)]
    #[verifier::spinoff_prover]
    fn build_write_commands(&self) -> (out: Vec<String>)
        ensures
            out@.map_values(|x: String| x@) == spec_header_write_cmds(self),
    {
        let mut out = self.build_field_commands();
        let ghost mut built: Seq<Seq<char>> = out@.map_values(|x: String| x@);
        if self.modified.package || self.modified.name || self.modified.background
            || self.modified.texture || self.modified.flags || self.modified.play_test
            || self.modified.random_seed {
            let ghost prev = out@.map_values(|x: String| x@);
            out.push("header-get".to_owned());
            proof {
                assert(out@.map_values(|x: String| x@) =~= prev + hseg_get(self));
            }
        }
        proof {
            built = built + hseg_get(self);
            assert(out@.map_values(|x: String| x@) =~= built);
        }
        if self.modified.package {
            let ghost prev = out@.map_values(|x: String| x@);
            out.push("package-backgrounds".to_owned());
            out.push("package-textures".to_owned());
            out.push("package-props".to_owned());
            proof {
                assert(out@.map_values(|x: String| x@) =~= prev + hseg_extras(self));
            }
        }
        proof {
            built = built + hseg_extras(self);
            assert(out@.map_values(|x: String| x@) =~= built);
        }
        if self.modified.play_test {
            let ghost prev = out@.map_values(|x: String| x@);
            if self.autosave {
                out.push("project-save".to_owned());
            }
            out.push("track-play-test".to_owned());
            proof {
                assert(out@.map_values(|x: String| x@) =~= prev + hseg_play(self));
            }
        }
        proof {
            built = built + hseg_play(self);
            assert(out@.map_values(|x: String| x@) =~= built);
            assert(built == spec_header_write_cmds(self));
        }
        out
    }
}

impl screen::Panel for HeaderPanel {

}

} // verus!
