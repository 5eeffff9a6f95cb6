//! The preview panel: the rendered track image and the view position,
//! kept in step with the interpreter's `view-*` commands.

use crate::monitor::{hash_bytes, StateMonitor};
use crate::numbers::{i32_div, i64_string, int_seq, parse_i32, parse_i32_spec, scale_i32, trunc_div};
use crate::response::{first_space, spec_args, spec_body, spec_header, spec_identifier, Response};
use crate::screen;
use crate::text::{
    body_lines, contains_str, payload_lines, split_once_space, starts_with_str, str_eq, trim_each,
};
use crate::util::bool_string;
use vstd::bytes::u32_to_le_bytes;
use vstd::prelude::*;
use vstd::string::*;

verus! {

/// How long a freshly shown preview stays before it is re-requested, in
/// milliseconds.
pub const IDLE_PREVIEW_TIME_MS: u64 = 480;

/// How long after the last edit the panel waits before writing back, in
/// milliseconds.
pub const CHANGE_PREVIEW_TIME_MS: u64 = 80;

/// One slider step of view position on the wire.
pub const SLIDER_SCALE: u32 = 10;

/// The view position and toggles.
pub struct PreviewPanelState {
    pub view_x: i32,
    pub view_z: i32,
    pub overview: bool,
    pub reverse: bool,
}

/// The pending edits: one flag per kind of change.
pub struct PreviewFlags {
    pub view: bool,
    pub overview: bool,
    pub reverse: bool,
}

/// The preview panel. `image_data` holds the last decoded image until the
/// renderer takes it.
pub struct PreviewPanel {
    pub state: PreviewPanelState,
    pub commands: Vec<String>,
    pub image_data: Option<Vec<u8>>,
    pub monitor: StateMonitor,
    pub modified: PreviewFlags,
}

/// What the standard-alphabet base64 decoding of a text yields: the bytes
/// where the text decodes, nothing where it does not. Both depend on the
/// characters alone, so one name carries the whole outcome.
pub uninterp spec fn b64_decode_of(s: Seq<char>) -> Option<Seq<u8>>;

/// Relies on base64's standard-alphabet engine: what `decode` returns —
/// success included — is a function of the input text alone.
#[verifier::external_body]
fn b64_decode(s: &str) -> (r: Option<Vec<u8>>)
    ensures
        (match r {
            Some(v) => b64_decode_of(s@) == Some(v@),
            None => b64_decode_of(s@) is None,
        }),
{
    match base64::Engine::decode(&base64::engine::general_purpose::STANDARD, s) {
        Ok(v) => Some(v),
        Err(_) => None,
    }
}

/// One `x z` coordinate pair folded into the view state: both numbers,
/// scaled down to slider steps, where the pair reads as two numbers;
/// nothing changes otherwise.
pub open spec fn spec_apply_position(st: PreviewPanelState, val: Seq<char>) -> PreviewPanelState {
    match first_space(val) {
        Some(i) => {
            let x = parse_i32_spec(val.take(i));
            let z = parse_i32_spec(val.skip(i + 1));
            if x is Some && z is Some {
                PreviewPanelState {
                    view_x: trunc_div(x.unwrap() as int, SLIDER_SCALE as int) as i32,
                    view_z: trunc_div(z.unwrap() as int, SLIDER_SCALE as int) as i32,
                    ..st
                }
            } else {
                st
            }
        },
        None => st,
    }
}

/// One `view-state-info` line folded into the view state: a field name,
/// whitespace, and the value. Unknown fields and lines without whitespace
/// change nothing.
pub open spec fn spec_apply_info_line(st: PreviewPanelState, line: Seq<char>) -> PreviewPanelState {
    match first_space(line) {
        None => st,
        Some(k) => {
            let field = line.take(k);
            let val = line.skip(k + 1);
            if field == "position"@ {
                spec_apply_position(st, val)
            } else if field == "reverse"@ {
                PreviewPanelState { reverse: "#t"@.is_prefix_of(val), ..st }
            } else if field == "overview"@ {
                PreviewPanelState { overview: "#t"@.is_prefix_of(val), ..st }
            } else {
                st
            }
        },
    }
}

/// The `view-state-info` lines from position `i` on folded into the view
/// state, in order.
pub open spec fn spec_apply_info_lines(
    st: PreviewPanelState,
    ls: Seq<Seq<char>>,
    i: int,
) -> PreviewPanelState
    decreases ls.len() - i,
{
    if i < 0 || i >= ls.len() {
        st
    } else {
        spec_apply_info_lines(spec_apply_info_line(st, ls[i]), ls, i + 1)
    }
}

impl PreviewPanel {
    /// A fresh panel: view at the origin, no image yet.
    pub fn new() -> (r: Self)
        ensures
            r.state.view_x == 0i32,
            r.state.view_z == 0i32,
            !r.state.overview,
            !r.state.reverse,
            r.commands@.len() == 0,
            r.image_data is None,
    {
        PreviewPanel {
            state: PreviewPanelState { view_x: 0, view_z: 0, overview: false, reverse: false },
            commands: Vec::new(),
            image_data: None,
            monitor: StateMonitor::new(0),
            modified: PreviewFlags { view: false, overview: false, reverse: false },
        }
    }

    /// Hands the decoded image over to the renderer, clearing the slot.
    pub fn take_image_data(&mut self) -> (r: Option<Vec<u8>>)
        ensures
            r == old(self).image_data,
            final(self).image_data is None,
            final(self).state == old(self).state,
            final(self).commands == old(self).commands,
            final(self).modified == old(self).modified,
    {
        let mut taken: Option<Vec<u8>> = None;
        core::mem::swap(&mut taken, &mut self.image_data);
        taken
    }

    /// The hash code of the panel's editable state.
    fn state_code(&self) -> (r: u64) {
        let mut bytes: Vec<u8> = Vec::new();
        let mut b = u32_to_le_bytes(self.state.view_x as u32);
        bytes.append(&mut b);
        let mut b = u32_to_le_bytes(self.state.view_z as u32);
        bytes.append(&mut b);
        bytes.push(if self.state.overview {
            1
        } else {
            0
        });
        bytes.push(if self.state.reverse {
            1
        } else {
            0
        });
        hash_bytes(&bytes)
    }

    /// Reads one `x z` coordinate pair into the view position, scaled down
    /// to slider steps; anything unreadable changes nothing.
    fn apply_position(&mut self, val: &str)
        ensures
            final(self).commands == old(self).commands,
            final(self).image_data == old(self).image_data,
            final(self).modified == old(self).modified,
            final(self).monitor == old(self).monitor,
            final(self).state.overview == old(self).state.overview,
            final(self).state.reverse == old(self).state.reverse,
            final(self).state == spec_apply_position(old(self).state, val@),
    {
        match split_once_space(val) {
            Some(p) => {
                let x = parse_i32(p.0.as_str());
                let z = parse_i32(p.1.as_str());
                match (x, z) {
                    (Some(xv), Some(zv)) => {
                        self.state.view_x = i32_div(xv, SLIDER_SCALE);
                        self.state.view_z = i32_div(zv, SLIDER_SCALE);
                    },
                    _ => (),
                }
            },
            None => (),
        }
    }
}

impl screen::PanelInv for PreviewPanel {
    open spec fn inv(&self) -> bool {
        true
    }
}

impl screen::CommandHandler for PreviewPanel {
    /// True exactly for the commands in this panel's list.
    fn should_handle(&self, command: &str) -> (r: bool)
        ensures
            r == self.commands@.map_values(|x: String| x@).contains(command@),
    {
        contains_str(&self.commands, command)
    }

    /// A successful `view-state-info` folds its lines into the view state
    /// and a successful `view-position` folds its echoed coordinates; a
    /// successful `view-preview` decodes the body from base64 into the
    /// image slot — while the slot is empty — and an undecodable body is
    /// an error.
    fn handle(&mut self, response: &Response) -> (r: Result<(), String>)
        ensures
            final(self).commands == old(self).commands,
            response@ is Error ==> r is Ok && *final(self) == *old(self),
            (response@ is Success && spec_identifier(spec_header(response@))
                == "view-state-info"@) ==> r is Ok && final(self).image_data == old(
                self,
            ).image_data && final(self).state == spec_apply_info_lines(
                old(self).state,
                trim_each(payload_lines(spec_body(response@))),
                0,
            ),
            (response@ is Success && spec_identifier(spec_header(response@))
                == "view-position"@) ==> r is Ok && final(self).image_data == old(
                self,
            ).image_data && final(self).state == spec_apply_position(
                old(self).state,
                spec_args(spec_header(response@)),
            ),
            (response@ is Success && spec_identifier(spec_header(response@)) == "view-preview"@
                && old(self).image_data is None) ==> (match b64_decode_of(
                spec_body(response@),
            ) {
                Some(bytes) => r is Ok && ({
                    let img = final(self).image_data;
                    img is Some && img.unwrap()@ == bytes
                }) && final(self).state == old(self).state,
                None => r is Err && *final(self) == *old(self),
            }),
    {
        let (err, cmd, args, resp) = response.decompose();
        proof {
            reveal_strlit("view-state-info");
            reveal_strlit("view-position");
            reveal_strlit("view-preview");
            reveal_strlit("");
        }
        if err {
            return Ok(());
        }
        if str_eq(cmd, "view-state-info") {
            proof {
                assert("view-state-info"@ != "view-preview"@);
                assert("view-state-info"@ != "view-position"@);
            }
            let ls = body_lines(resp);
            let ghost lsv = trim_each(payload_lines(resp@));
            let mut i: usize = 0;
            while i < ls.len()
                invariant
                    i <= ls@.len(),
                    lsv == ls@.map_values(|x: String| x@),
                    lsv.len() == ls@.len(),
                    self.commands == old(self).commands,
                    self.image_data == old(self).image_data,
                    self.monitor == old(self).monitor,
                    self.modified == old(self).modified,
                    spec_apply_info_lines(old(self).state, lsv, 0) == spec_apply_info_lines(
                        self.state,
                        lsv,
                        i as int,
                    ),
                decreases ls@.len() - i,
            {
                let ghost st_before = self.state;
                proof {
                    reveal_strlit("position");
                    reveal_strlit("reverse");
                    reveal_strlit("overview");
                    reveal_strlit("#t");
                }
                match split_once_space(ls[i].as_str()) {
                    Some(p) => {
                        let (field, val) = p;
                        if str_eq(field.as_str(), "position") {
                            self.apply_position(val.as_str());
                        } else if str_eq(field.as_str(), "reverse") {
                            self.state.reverse = starts_with_str(val.as_str(), "#t");
                        } else if str_eq(field.as_str(), "overview") {
                            self.state.overview = starts_with_str(val.as_str(), "#t");
                        }
                    },
                    None => (),
                }
                proof {
                    assert(spec_apply_info_line(st_before, lsv[i as int]) == self.state);
                }
                i = i + 1;
            }
            Ok(())
        } else if str_eq(cmd, "view-position") {
            proof {
                assert("view-position"@ != "view-preview"@);
                assert("view-position"@ != "view-state-info"@);
            }
            self.apply_position(args);
            Ok(())
        } else if str_eq(cmd, "view-preview") {
            let slot_free = match &self.image_data {
                None => true,
                Some(_) => false,
            };
            if slot_free {
                match b64_decode(resp) {
                    Some(data) => {
                        self.image_data = Some(data);
                        Ok(())
                    },
                    None => Err("Failed to decode preview image.".to_owned()),
                }
            } else {
                Ok(())
            }
        } else {
            Ok(())
        }
    }
}

/// The `view-position` command of one write-back tick, if flagged; the
/// coordinates ride at wire scale.
pub open spec fn vseg_view(p: &PreviewPanel) -> Seq<Seq<char>> {
    if p.modified.view {
        seq![
            "view-position "@ + int_seq(p.state.view_x as int * SLIDER_SCALE as int) + " "@
                + int_seq(p.state.view_z as int * SLIDER_SCALE as int)
        ]
    } else {
        Seq::<Seq<char>>::empty()
    }
}

/// The `track-reverse` command, if flagged.
pub open spec fn vseg_reverse(p: &PreviewPanel) -> Seq<Seq<char>> {
    if p.modified.reverse {
        seq![
            "track-reverse "@ + (if p.state.reverse {
                "#t"@
            } else {
                "#f"@
            })
        ]
    } else {
        Seq::<Seq<char>>::empty()
    }
}

/// The `view-overview` command, if flagged.
pub open spec fn vseg_overview(p: &PreviewPanel) -> Seq<Seq<char>> {
    if p.modified.overview {
        seq![
            "view-overview "@ + (if p.state.overview {
                "#t"@
            } else {
                "#f"@
            })
        ]
    } else {
        Seq::<Seq<char>>::empty()
    }
}

/// The `section-metrics` re-request after a view move.
pub open spec fn vseg_metrics(p: &PreviewPanel) -> Seq<Seq<char>> {
    if p.modified.view {
        seq!["section-metrics"@]
    } else {
        Seq::<Seq<char>>::empty()
    }
}

/// The commands one write-back tick sends: the flagged edits, a
/// `view-preview` re-request, and the metrics after a view move.
pub open spec fn spec_preview_write_cmds(p: &PreviewPanel) -> Seq<Seq<char>> {
    vseg_view(p) + vseg_reverse(p) + vseg_overview(p) + seq!["view-preview"@] + vseg_metrics(p)
}

impl screen::StateSync for PreviewPanel {
    /// Registers the commands this panel reacts to and asks for the
    /// preview size and the view state.
    fn initialize_state(&mut self, send: &mut Vec<String>)
        ensures
            final(send)@.map_values(|x: String| x@) == old(send)@.map_values(|x: String| x@)
                + seq!["view-preview-size 640 360"@, "view-state-info"@],
    {
        self.commands.push("view-preview".to_owned());
        self.commands.push("view-position".to_owned());
        self.commands.push("view-state-info".to_owned());
        send.push("view-preview-size 640 360".to_owned());
        send.push("view-state-info".to_owned());
        proof {
            assert(final(send)@.map_values(|x: String| x@) =~= old(send)@.map_values(
                |x: String| x@,
            ) + seq!["view-preview-size 640 360"@, "view-state-info"@]);
        }
    }

    /// Lets the monitor see the current state.
    fn update_state(&mut self, now_ms: u64) {
        let code = self.state_code();
        self.monitor.update(code, now_ms);
    }

    /// Asks the interpreter for a fresh preview and the view state.
    fn request_state(&self, send: &mut Vec<String>)
        ensures
            final(send)@.map_values(|x: String| x@) == old(send)@.map_values(|x: String| x@)
                + seq!["view-preview"@, "view-state-info"@],
    {
        send.push("view-preview".to_owned());
        send.push("view-state-info".to_owned());
        proof {
            assert(final(send)@.map_values(|x: String| x@) =~= old(send)@.map_values(
                |x: String| x@,
            ) + seq!["view-preview"@, "view-state-info"@]);
        }
    }

    /// Once the edit delay has passed: the flagged commands, as
    /// [`spec_preview_write_cmds`] describes; the flags are cleared and
    /// the next refresh is held back for the idle time.
    #[verifier::rlimit(60)]
    fn write_state(&mut self, now_ms: u64, send: &mut Vec<String>)
        ensures
            !(now_ms >= old(self).monitor.last_modification_ms as int
                + CHANGE_PREVIEW_TIME_MS as int) ==> final(send)@ == old(send)@ && *final(self)
                == *old(self),
            (now_ms >= old(self).monitor.last_modification_ms as int
                + CHANGE_PREVIEW_TIME_MS as int) ==> ({
                &&& final(send)@.map_values(|x: String| x@) == old(send)@.map_values(
                    |x: String| x@,
                ) + spec_preview_write_cmds(old(self))
                &&& !final(self).modified.view
                &&& !final(self).modified.overview
                &&& !final(self).modified.reverse
                &&& final(self).state == old(self).state
            }),
    {
        if self.monitor.time_elapsed(now_ms, CHANGE_PREVIEW_TIME_MS) {
            let mut out: Vec<String> = Vec::new();
            let ghost mut built: Seq<Seq<char>> = Seq::<Seq<char>>::empty();
            proof {
                assert(built =~= Seq::<Seq<char>>::empty());
            }
            if self.modified.view {
                let mut c = "view-position ".to_owned();
                c.append(i64_string(scale_i32(self.state.view_x, SLIDER_SCALE)).as_str());
                c.append(" ");
                c.append(i64_string(scale_i32(self.state.view_z, SLIDER_SCALE)).as_str());
                let ghost prev = out@.map_values(|x: String| x@);
                out.push(c);
                proof {
                    assert(out@.map_values(|x: String| x@) =~= prev + vseg_view(self));
                }
            }
            proof {
                built = vseg_view(self);
                assert(out@.map_values(|x: String| x@) =~= built);
            }
            if self.modified.reverse {
                let mut c = "track-reverse ".to_owned();
                c.append(bool_string(self.state.reverse));
                let ghost prev = out@.map_values(|x: String| x@);
                out.push(c);
                proof {
                    assert(out@.map_values(|x: String| x@) =~= prev + vseg_reverse(self));
                }
            }
            proof {
                built = built + vseg_reverse(self);
                assert(out@.map_values(|x: String| x@) =~= built);
            }
            if self.modified.overview {
                let mut c = "view-overview ".to_owned();
                c.append(bool_string(self.state.overview));
                let ghost prev = out@.map_values(|x: String| x@);
                out.push(c);
                proof {
                    assert(out@.map_values(|x: String| x@) =~= prev + vseg_overview(self));
                }
            }
            proof {
                built = built + vseg_overview(self);
                assert(out@.map_values(|x: String| x@) =~= built);
            }
            let ghost prev = out@.map_values(|x: String| x@);
            out.push("view-preview".to_owned());
            proof {
                assert(out@.map_values(|x: String| x@) =~= prev.push("view-preview"@));
                built = built + seq!["view-preview"@];
                assert(out@.map_values(|x: String| x@) =~= built);
            }
            if self.modified.view {
                let ghost prev2 = out@.map_values(|x: String| x@);
                out.push("section-metrics".to_owned());
                proof {
                    assert(out@.map_values(|x: String| x@) =~= prev2 + vseg_metrics(self));
                }
            }
            proof {
                built = built + vseg_metrics(self);
                assert(out@.map_values(|x: String| x@) =~= built);
                assert(built == spec_preview_write_cmds(self));
            }
            self.modified = PreviewFlags { view: false, overview: false, reverse: false };
            let ghost outv = out@.map_values(|x: String| x@);
            let ghost pre = send@.map_values(|x: String| x@);
            send.append(&mut out);
            proof {
                assert(send@.map_values(|x: String| x@) =~= pre + outv);
            }
            self.monitor.advance(now_ms, IDLE_PREVIEW_TIME_MS - CHANGE_PREVIEW_TIME_MS);
        }
    }
}

impl screen::Panel for PreviewPanel {

}

} // verus!
