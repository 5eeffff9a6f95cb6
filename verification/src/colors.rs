//! The colors panel: eight RGBA track colors, kept in step with the
//! interpreter's `color-list` / `color-set` commands.

use crate::monitor::{hash_bytes, StateMonitor};
use crate::numbers::{
    dec_seq, hex_seq, parse_hex_u32, parse_hex_u32_spec, u32_hex_string, usize_string,
};
use crate::response::{spec_body, spec_header, spec_identifier, Response};
use crate::screen;
use crate::text::{payload_lines, split_lines, str_eq, trim_each, trim_str};
use vstd::bytes::u32_to_le_bytes;
use vstd::prelude::*;
use vstd::string::*;

verus! {

/// How many colors the track has.
pub const COLOR_COUNT: usize = 8;

/// How long after the last edit the panel waits before writing back, in
/// milliseconds.
pub const COLORS_WRITE_DELAY_MS: u64 = 100;

/// The eight colors, each a 32-bit RGBA value.
pub struct ColorsPanelState {
    pub colors: Vec<u32>,
}

/// The colors panel. `modified` is a bitmask: bit `i` set means color `i`
/// has an unwritten edit.
pub struct ColorsPanel {
    pub state: ColorsPanelState,
    pub commands: Vec<String>,
    pub monitor: StateMonitor,
    pub modified: u32,
}

/// Whether bit `i` of the mask is set.
pub open spec fn bit_set(m: u32, i: int) -> bool {
    m >> (i as u32) & 1 != 0
}

/// The `color-set` command for one slot.
pub open spec fn color_set_cmd(i: int, c: u32) -> Seq<char> {
    "color-set "@ + dec_seq(i) + " 0x"@ + hex_seq(c as int)
}

/// The write-back commands for the slots from `i` up whose bit is set.
pub open spec fn color_cmds(colors: Seq<u32>, m: u32, i: int) -> Seq<Seq<char>>
    decreases 8 - i,
{
    if i < 0 || i >= 8 {
        Seq::<Seq<char>>::empty()
    } else {
        (if bit_set(m, i) {
            seq![color_set_cmd(i, colors[i])]
        } else {
            Seq::<Seq<char>>::empty()
        }) + color_cmds(colors, m, i + 1)
    }
}

/// A panel is well formed when it holds exactly eight colors.
pub open spec fn colors_wf(p: &ColorsPanel) -> bool {
    p.state.colors@.len() == 8
}

impl ColorsPanel {
    /// A fresh panel: all colors black, nothing modified.
    pub fn new() -> (r: Self)
        ensures
            colors_wf(&r),
            forall|i: int| 0 <= i < 8 ==> r.state.colors@[i] == 0u32,
            r.modified == 0u32,
            r.commands_view().len() == 0,
    {
        let mut colors: Vec<u32> = Vec::new();
        let mut i: usize = 0;
        while i < COLOR_COUNT
            invariant
                colors@.len() == i <= 8,
                forall|t: int| 0 <= t < i ==> colors@[t] == 0u32,
            decreases 8 - i,
        {
            colors.push(0);
            i = i + 1;
        }
        ColorsPanel {
            state: ColorsPanelState { colors },
            commands: Vec::new(),
            monitor: StateMonitor::new(0),
            modified: 0,
        }
    }

    /// The commands this panel reacts to.
    pub open spec fn commands_view(&self) -> Seq<Seq<char>> {
        self.commands@.map_values(|x: String| x@)
    }

    /// Records an edit of one color slot, to be written back later.
    pub fn edit_color(&mut self, index: usize, color: u32)
        requires
            index < 8,
            colors_wf(old(self)),
        ensures
            colors_wf(final(self)),
            final(self).state.colors@ == old(self).state.colors@.update(index as int, color),
            final(self).modified == old(self).modified | (1u32 << (index as u32)),
            final(self).commands_view() == old(self).commands_view(),
    {
        self.state.colors.set(index, color);
        self.modified = self.modified | (1u32 << (index as u32));
    }

    /// The hash code of the panel's state.
    fn state_code(&self) -> (r: u64)
        requires
            colors_wf(self),
    {
        let mut bytes: Vec<u8> = Vec::new();
        let mut i: usize = 0;
        while i < COLOR_COUNT
            invariant
                colors_wf(self),
                i <= 8,
            decreases 8 - i,
        {
            let mut b = u32_to_le_bytes(self.state.colors[i]);
            bytes.append(&mut b);
            i = i + 1;
        }
        hash_bytes(&bytes)
    }
}

impl screen::PanelInv for ColorsPanel {
    open spec fn inv(&self) -> bool {
        colors_wf(self)
    }
}

impl screen::CommandHandler for ColorsPanel {
    /// True exactly for the commands in this panel's list.
    fn should_handle(&self, command: &str) -> (r: bool)
        ensures
            r == self.commands_view().contains(command@),
    {
        let mut i: usize = 0;
        let ghost cv = self.commands_view();
        while i < self.commands.len()
            invariant
                i <= self.commands@.len(),
                cv == self.commands_view(),
                cv.len() == self.commands@.len(),
                forall|t: int| 0 <= t < i ==> cv[t] != command@,
            decreases self.commands@.len() - i,
        {
            if str_eq(self.commands[i].as_str(), command) {
                proof {
                    assert(cv[i as int] == command@);
                }
                return true;
            }
            i = i + 1;
        }
        return false;
    }

    /// A successful `color-list` reply carries one hexadecimal value per
    /// line; each line that reads as a color replaces the slot at its line
    /// number. A line that does not read as a color, or a line count beyond
    /// the slots, stops the update with an error.
    fn handle(&mut self, response: &Response) -> (r: Result<(), String>)
        ensures
            final(self).commands_view() == old(self).commands_view(),
            final(self).modified == old(self).modified,
            !(response@ is Success && spec_identifier(spec_header(response@)) == "color-list"@)
                ==> final(self).state.colors@ == old(self).state.colors@ && r is Ok,
            (response@ is Success && spec_identifier(spec_header(response@)) == "color-list"@)
                ==> {
                let ls = trim_each(payload_lines(spec_body(response@)));
                r is Ok ==> (ls.len() <= 8 && (forall|t: int|
                    0 <= t < ls.len() ==> parse_hex_u32_spec(#[trigger] ls[t]) is Some)
                    && (forall|t: int|
                    0 <= t < ls.len() ==> final(self).state.colors@[t] == parse_hex_u32_spec(
                        #[trigger] ls[t],
                    ).unwrap()) && (forall|t: int|
                    ls.len() <= t < 8 ==> final(self).state.colors@[t] == old(
                        self,
                    ).state.colors@[t]))
            },
    {
        let (err, cmd, _args, resp) = response.decompose();
        let is_list = str_eq(cmd, "color-list");
        if !err && is_list {
            proof {
                reveal_strlit("color-list");
                reveal_strlit("");
                assert(response@ is Success);
            }
            let ghost ls = trim_each(payload_lines(resp@));
            let mut raw = split_lines(resp);
            if raw[raw.len() - 1].as_str().is_empty() {
                let ghost mapped = raw@.map_values(|x: String| x@);
                proof {
                    assert(mapped.drop_last() =~= raw@.drop_last().map_values(|x: String| x@));
                }
                raw.pop();
            }
            proof {
                assert(raw@.map_values(|x: String| x@) =~= payload_lines(resp@));
            }
            let mut index: usize = 0;
            while index < raw.len()
                invariant
                    colors_wf(self),
                    index <= raw@.len(),
                    response@ is Success,
                    spec_identifier(spec_header(response@)) == "color-list"@,
                    resp@ == spec_body(response@),
                    raw@.map_values(|x: String| x@) == payload_lines(resp@),
                    ls == trim_each(payload_lines(resp@)),
                    ls.len() == raw@.len(),
                    index <= 8,
                    self.commands_view() == old(self).commands_view(),
                    self.modified == old(self).modified,
                    forall|t: int| #![trigger ls[t]] 0 <= t < index ==> parse_hex_u32_spec(
                        ls[t],
                    ) is Some && self.state.colors@[t] == parse_hex_u32_spec(ls[t]).unwrap(),
                    forall|t: int| index <= t < 8 ==> self.state.colors@[t] == old(
                        self,
                    ).state.colors@[t],
                decreases raw@.len() - index,
            {
                if index >= 8 {
                    return Err("Too many colors in server response.".to_owned());
                }
                let line = trim_str(raw[index].as_str());
                match parse_hex_u32(line) {
                    Some(color) => {
                        self.state.colors.set(index, color);
                    },
                    None => {
                        return Err("Failed to parse server response.".to_owned());
                    },
                }
                index = index + 1;
            }
        }
        Ok(())
    }
}

impl screen::StateSync for ColorsPanel {
    /// Registers the one command this panel reacts to.
    fn initialize_state(&mut self, _send: &mut Vec<String>) {
        self.commands.push("color-list".to_owned());
    }

    /// Lets the monitor see the current state.
    fn update_state(&mut self, now_ms: u64) {
        if self.state.colors.len() == 8 {
            let code = self.state_code();
            self.monitor.update(code, now_ms);
        }
    }

    /// Asks the interpreter for the color list.
    fn request_state(&self, send: &mut Vec<String>)
        ensures
            final(send)@.map_values(|x: String| x@) == old(send)@.map_values(
                |x: String| x@,
            ).push("color-list"@),
    {
        send.push("color-list".to_owned());
        proof {
            assert(final(send)@.map_values(|x: String| x@) =~= old(send)@.map_values(
                |x: String| x@,
            ).push("color-list"@));
        }
    }

    /// Once the edit delay has passed: one `color-set` for each modified
    /// slot, then a `view-preview`, and the modified mask is cleared.
    fn write_state(&mut self, now_ms: u64, send: &mut Vec<String>)
        ensures
            final(self).state.colors@ == old(self).state.colors@,
            !(now_ms >= old(self).monitor.last_modification_ms as int
                + COLORS_WRITE_DELAY_MS as int) ==> final(send)@ == old(send)@ && *final(self)
                == *old(self),
            (now_ms >= old(self).monitor.last_modification_ms as int
                + COLORS_WRITE_DELAY_MS as int) ==> final(self).modified == 0u32
                && final(send)@.map_values(|x: String| x@) == old(send)@.map_values(
                |x: String| x@,
            ) + color_cmds(old(self).state.colors@, old(self).modified, 0).push(
                "view-preview"@,
            ),
    {
        if self.monitor.time_elapsed(now_ms, COLORS_WRITE_DELAY_MS) {
            let ghost base = old(send)@.map_values(|x: String| x@);
            let ghost cs = old(self).state.colors@;
            let ghost m = self.modified;
            let mut i: usize = 0;
            while i < 8
                invariant
                    colors_wf(self),
                    i <= 8,
                    self == old(self),
                    m == self.modified,
                    cs == self.state.colors@,
                    base == old(send)@.map_values(|x: String| x@),
                    base + color_cmds(cs, m, 0) =~= send@.map_values(|x: String| x@)
                        + color_cmds(cs, m, i as int),
                decreases 8 - i,
            {
                if self.modified >> (i as u32) & 1 != 0 {
                    let mut cmd = "color-set ".to_owned();
                    cmd.append(usize_string(i).as_str());
                    cmd.append(" 0x");
                    cmd.append(u32_hex_string(self.state.colors[i]).as_str());
                    proof {
                        reveal_strlit("color-set ");
                        reveal_strlit(" 0x");
                        assert(cmd@ =~= color_set_cmd(i as int, cs[i as int]));
                        assert(send@.push(cmd).map_values(|x: String| x@) =~= send@.map_values(
                            |x: String| x@,
                        ).push(cmd@));
                        assert(send@.map_values(|x: String| x@).push(cmd@) + color_cmds(
                            cs,
                            m,
                            i + 1,
                        ) =~= send@.map_values(|x: String| x@) + color_cmds(cs, m, i as int));
                    }
                    send.push(cmd);
                } else {
                    proof {
                        assert(color_cmds(cs, m, i as int) =~= color_cmds(cs, m, i + 1));
                    }
                }
                i = i + 1;
            }
            self.modified = 0;
            let ghost pre = send@.map_values(|x: String| x@);
            proof {
                assert(color_cmds(cs, m, 8) =~= Seq::<Seq<char>>::empty());
                assert(pre =~= base + color_cmds(cs, m, 0));
            }
            send.push("view-preview".to_owned());
            proof {
                assert(send@.map_values(|x: String| x@) =~= pre.push("view-preview"@));
                assert(pre.push("view-preview"@) =~= base + color_cmds(cs, m, 0).push(
                    "view-preview"@,
                ));
            }
            self.monitor.sleep(now_ms);
        }
    }
}

impl screen::Panel for ColorsPanel {

}

} // verus!
