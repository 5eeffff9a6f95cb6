//! The patterns panel: the prop patterns of one section, kept in step with
//! the interpreter's `pattern-*` commands.

use crate::monitor::{hash_bytes, StateMonitor};
use crate::numbers::{
    dec_seq, i32_div, i32_string, i64_string, int_seq, parse_i32, parse_i32_spec, parse_u32,
    parse_u32_spec, scale_i32, u32_string, usize_string,
};
use crate::response::{spec_body, spec_header, spec_identifier, Response};
use crate::screen;
use crate::sections::EMPTY_SIGNAL;
use crate::text::{
    body_lines, contains_str, payload_lines, split_spaces, split_spaces_spec, starts_with_str,
    str_eq, trim_each,
};
use vstd::bytes::{u32_to_le_bytes, u64_to_le_bytes};
use vstd::prelude::*;
use vstd::string::*;

verus! {

/// One slider step of sideways position or amplitude on the wire.
pub const X_SCALAR: u32 = 10;

/// How long after the last edit the panel waits before writing back, in
/// milliseconds.
pub const PATTERNS_WRITE_DELAY_MS: u64 = 120;

/// One pattern of a section: a prop and its placement numbers.
pub struct Pattern {
    pub prop: String,
    pub position: i32,
    pub size: i32,
    pub spacing: i32,
    pub x: i32,
    pub freq: i32,
    pub amp: i32,
    pub offset: i32,
    pub flags: u32,
}

/// The ghost mirror of [`Pattern`].
pub struct PatternView {
    pub prop: Seq<char>,
    pub position: i32,
    pub size: i32,
    pub spacing: i32,
    pub x: i32,
    pub freq: i32,
    pub amp: i32,
    pub offset: i32,
    pub flags: u32,
}

impl View for Pattern {
    type V = PatternView;

    open spec fn view(&self) -> PatternView {
        PatternView {
            prop: self.prop@,
            position: self.position,
            size: self.size,
            spacing: self.spacing,
            x: self.x,
            freq: self.freq,
            amp: self.amp,
            offset: self.offset,
            flags: self.flags,
        }
    }
}

/// The selected pattern and its editable values, at slider scale.
pub struct PatternsState {
    pub section: usize,
    pub index: usize,
    pub prop: usize,
    pub position: i32,
    pub size: i32,
    pub spacing: i32,
    pub x: i32,
    pub freq: i32,
    pub amp: i32,
    pub offset: i32,
    pub flags: u32,
    pub clicks: u8,
}

/// The pending edits: one flag per kind of change.
pub struct PatternFlags {
    pub select: bool,
    pub edit: bool,
    pub add: bool,
    pub delete: bool,
    pub duplicate: bool,
    pub adjust_one: bool,
    pub adjust_all: bool,
    pub copy_next: bool,
    pub copy_prev: bool,
}

/// The patterns panel. The cache pairs each raw listing line with its
/// display label.
pub struct PatternsPanel {
    pub state: PatternsState,
    pub prop_cache: Vec<String>,
    pub pattern_cache: Vec<(String, String)>,
    pub monitor: StateMonitor,
    pub modified: PatternFlags,
    pub commands: Vec<String>,
    pub current_section_length: i32,
    pub scroll_to: Option<usize>,
}

/// The numbers of one listing line: the fourth field is the prop, the
/// following seven fields its placement, and the last field the flag word,
/// which must read both as a signed number and as a flag word.
pub open spec fn spec_extract_pattern(s: Seq<char>) -> Option<PatternView> {
    let parts = split_spaces_spec(s);
    if parts.len() >= 11 && (forall|k: int|
        4 <= k < parts.len() ==> parse_i32_spec(#[trigger] parts[k]) is Some) && parse_u32_spec(
        parts[parts.len() - 1],
    ) is Some {
        Some(
            PatternView {
                prop: parts[3],
                position: parse_i32_spec(parts[4]).unwrap(),
                size: parse_i32_spec(parts[5]).unwrap(),
                spacing: parse_i32_spec(parts[6]).unwrap(),
                x: parse_i32_spec(parts[7]).unwrap(),
                freq: parse_i32_spec(parts[8]).unwrap(),
                amp: parse_i32_spec(parts[9]).unwrap(),
                offset: parse_i32_spec(parts[10]).unwrap(),
                flags: parse_u32_spec(parts[parts.len() - 1]).unwrap(),
            },
        )
    } else {
        None
    }
}

/// The display label of one pattern: its number, prop and position.
pub open spec fn spec_format_pattern(index: int, p: PatternView) -> Seq<char> {
    "#"@ + dec_seq(index) + " :: "@ + p.prop + " ("@ + int_seq(p.position as int) + ")"@
}

/// The cache entries for the listing lines from position `i` on: each line
/// that reads as a pattern, paired with its label.
pub open spec fn spec_pattern_cache_from(ls: Seq<Seq<char>>, i: int) -> Seq<
    (Seq<char>, Seq<char>),
>
    decreases ls.len() - i,
{
    if i < 0 || i >= ls.len() {
        Seq::<(Seq<char>, Seq<char>)>::empty()
    } else {
        (match spec_extract_pattern(ls[i]) {
            Some(p) => seq![(ls[i], spec_format_pattern(i, p))],
            None => Seq::<(Seq<char>, Seq<char>)>::empty(),
        }) + spec_pattern_cache_from(ls, i + 1)
    }
}

/// The cache a `pattern-list` body yields: empty on the empty marker or a
/// failed listing, the readable lines otherwise.
pub open spec fn spec_pattern_cache(body: Seq<char>) -> Seq<(Seq<char>, Seq<char>)> {
    if "<EMPTY>"@.is_prefix_of(body) {
        Seq::<(Seq<char>, Seq<char>)>::empty()
    } else {
        spec_pattern_cache_from(trim_each(payload_lines(body)), 0)
    }
}

/// The pattern cache's ghost view.
pub open spec fn pattern_cache_view(p: &PatternsPanel) -> Seq<(Seq<char>, Seq<char>)> {
    p.pattern_cache@.map_values(|x: (String, String)| (x.0@, x.1@))
}

/// A panel is well formed when its selections point into their caches, or
/// are zero while the caches are empty.
pub open spec fn patterns_wf(p: &PatternsPanel) -> bool {
    (p.state.index < p.pattern_cache@.len() || p.state.index == 0) && (p.state.prop
        < p.prop_cache@.len() || p.state.prop == 0)
}

/// Reads one listing line, as [`spec_extract_pattern`] describes.
pub fn extract_pattern_data(pattern: &str) -> (r: Option<Pattern>)
    ensures
        (match r {
            Some(p) => spec_extract_pattern(pattern@) == Some(p@),
            None => spec_extract_pattern(pattern@) is None,
        }),
{
    let ghost pv = split_spaces_spec(pattern@);
    let parts = split_spaces(pattern);
    if parts.len() < 11 {
        return None;
    }
    let n = parts.len();
    let mut k: usize = 4;
    while k < n
        invariant
            4 <= k <= n,
            n == parts@.len(),
            pv == parts@.map_values(|x: String| x@),
            pv == split_spaces_spec(pattern@),
            pv.len() == n,
            n >= 11,
            forall|t: int| 4 <= t < k ==> parse_i32_spec(#[trigger] pv[t]) is Some,
        decreases n - k,
    {
        if parse_i32(parts[k].as_str()).is_none() {
            proof {
                assert(parse_i32_spec(pv[k as int]) is None);
            }
            return None;
        }
        k = k + 1;
    }
    let flags = match parse_u32(parts[n - 1].as_str()) {
        Some(f) => f,
        None => {
            return None;
        },
    };
    let position = parse_i32(parts[4].as_str()).unwrap();
    let size = parse_i32(parts[5].as_str()).unwrap();
    let spacing = parse_i32(parts[6].as_str()).unwrap();
    let x = parse_i32(parts[7].as_str()).unwrap();
    let freq = parse_i32(parts[8].as_str()).unwrap();
    let amp = parse_i32(parts[9].as_str()).unwrap();
    let offset = parse_i32(parts[10].as_str()).unwrap();
    Some(
        Pattern {
            prop: parts[3].clone(),
            position,
            size,
            spacing,
            x,
            freq,
            amp,
            offset,
            flags,
        },
    )
}

/// Builds the display label of one pattern, as [`spec_format_pattern`]
/// describes.
pub fn format_pattern_data(index: usize, pattern: &Pattern) -> (r: String)
    ensures
        r@ == spec_format_pattern(index as int, pattern@),
{
    let mut b = "#".to_owned();
    b.append(usize_string(index).as_str());
    b.append(" :: ");
    b.append(pattern.prop.as_str());
    b.append(" (");
    b.append(i32_string(pattern.position).as_str());
    b.append(")");
    proof {
        assert(b@ =~= spec_format_pattern(index as int, pattern@));
    }
    b
}

/// The position of a prop name in the prop list: the first match, or zero
/// where none matches.
pub open spec fn spec_prop_position(props: Seq<Seq<char>>, name: Seq<char>, i: int) -> int
    decreases props.len() - i,
{
    if i < 0 || i >= props.len() {
        0
    } else if props[i] == name {
        i
    } else {
        spec_prop_position(props, name, i + 1)
    }
}

impl PatternsPanel {
    /// A fresh panel: empty caches, everything zero.
    pub fn new() -> (r: Self)
        ensures
            patterns_wf(&r),
            r.prop_cache@.len() == 0,
            r.pattern_cache@.len() == 0,
            r.commands@.len() == 0,
            r.current_section_length == 0i32,
            r.scroll_to is None,
    {
        PatternsPanel {
            state: PatternsState {
                section: 0,
                index: 0,
                prop: 0,
                position: 0,
                size: 0,
                spacing: 0,
                x: 0,
                freq: 0,
                amp: 0,
                offset: 0,
                flags: 0,
                clicks: 0,
            },
            prop_cache: Vec::new(),
            pattern_cache: Vec::new(),
            monitor: StateMonitor::new(0),
            modified: PatternFlags {
                select: false,
                edit: false,
                add: false,
                delete: false,
                duplicate: false,
                adjust_one: false,
                adjust_all: false,
                copy_next: false,
                copy_prev: false,
            },
            commands: Vec::new(),
            current_section_length: 0,
            scroll_to: None,
        }
    }

    /// Finds a prop's position in the prop list, as
    /// [`spec_prop_position`] describes.
    fn prop_position(&self, name: &str) -> (r: usize)
        ensures
            r == spec_prop_position(
                self.prop_cache@.map_values(|x: String| x@),
                name@,
                0,
            ),
            r < self.prop_cache@.len() || r == 0,
    {
        let ghost props = self.prop_cache@.map_values(|x: String| x@);
        let mut i: usize = 0;
        while i < self.prop_cache.len()
            invariant
                i <= self.prop_cache@.len(),
                props == self.prop_cache@.map_values(|x: String| x@),
                props.len() == self.prop_cache@.len(),
                spec_prop_position(props, name@, 0) == spec_prop_position(props, name@, i as int),
            decreases self.prop_cache@.len() - i,
        {
            if str_eq(self.prop_cache[i].as_str(), name) {
                return i;
            }
            i = i + 1;
        }
        0
    }

    /// Recomputes the sliders from the cached line of the selected
    /// pattern: its placement numbers at slider scale, and its prop's
    /// position in the prop list. An empty cache resets everything; an
    /// unreadable line changes nothing.
    pub fn update_sliders(&mut self)
        requires
            patterns_wf(old(self)),
        ensures
            patterns_wf(final(self)),
            final(self).prop_cache == old(self).prop_cache,
            final(self).pattern_cache == old(self).pattern_cache,
            final(self).commands == old(self).commands,
            final(self).modified == old(self).modified,
            final(self).monitor == old(self).monitor,
            final(self).scroll_to == old(self).scroll_to,
            final(self).current_section_length == old(self).current_section_length,
    {
        if self.pattern_cache.len() == 0 {
            self.state = PatternsState {
                section: 0,
                index: 0,
                prop: 0,
                position: 0,
                size: 0,
                spacing: 0,
                x: 0,
                freq: 0,
                amp: 0,
                offset: 0,
                flags: 0,
                clicks: 0,
            };
        } else {
            match extract_pattern_data(self.pattern_cache[self.state.index].0.as_str()) {
                Some(p) => {
                    let prop = self.prop_position(p.prop.as_str());
                    self.state = PatternsState {
                        section: self.state.section,
                        index: self.state.index,
                        prop,
                        position: p.position,
                        size: p.size,
                        spacing: p.spacing,
                        x: i32_div(p.x, X_SCALAR),
                        freq: p.freq,
                        amp: i32_div(p.amp, X_SCALAR),
                        offset: p.offset,
                        flags: p.flags,
                        clicks: self.state.clicks,
                    };
                    proof {
                        if self.prop_cache@.len() == 0 {
                            assert(self.state.prop == 0);
                        }
                    }
                },
                None => (),
            }
        }
    }

    /// The `pattern-set` command for the current sliders; the prop rides
    /// by name, the scaled values at wire scale.
    pub fn format_pattern_setter(&self) -> (r: String)
        requires
            self.state.prop < self.prop_cache@.len(),
        ensures
            r@ == "pattern-set "@ + dec_seq(self.state.section as int) + " "@ + dec_seq(
                self.state.index as int,
            ) + " "@ + self.prop_cache@[self.state.prop as int]@ + " "@ + int_seq(
                self.state.position as int,
            ) + " "@ + int_seq(self.state.size as int) + " "@ + int_seq(
                self.state.spacing as int,
            ) + " "@ + int_seq(self.state.x as int * X_SCALAR as int) + " "@ + int_seq(
                self.state.freq as int,
            ) + " "@ + int_seq(self.state.amp as int * X_SCALAR as int) + " "@ + int_seq(
                self.state.offset as int,
            ) + " "@ + dec_seq(self.state.flags as int),
    {
        let s = &self.state;
        let mut c = "pattern-set ".to_owned();
        c.append(usize_string(s.section).as_str());
        c.append(" ");
        c.append(usize_string(s.index).as_str());
        c.append(" ");
        c.append(self.prop_cache[s.prop].as_str());
        c.append(" ");
        c.append(i32_string(s.position).as_str());
        c.append(" ");
        c.append(i32_string(s.size).as_str());
        c.append(" ");
        c.append(i32_string(s.spacing).as_str());
        c.append(" ");
        c.append(i64_string(scale_i32(s.x, X_SCALAR)).as_str());
        c.append(" ");
        c.append(i32_string(s.freq).as_str());
        c.append(" ");
        c.append(i64_string(scale_i32(s.amp, X_SCALAR)).as_str());
        c.append(" ");
        c.append(i32_string(s.offset).as_str());
        c.append(" ");
        c.append(u32_string(s.flags).as_str());
        c
    }

    /// What the sections panel announces: the selected section and its
    /// length. The position slider is clamped into the new length.
    pub fn section_changed(&mut self, section: usize, length: i32)
        ensures
            final(self).current_section_length == length,
            final(self).state.section == section,
            final(self).state.position == (if old(self).state.position < 0 {
                0i32
            } else if old(self).state.position > length {
                length
            } else {
                old(self).state.position
            }),
            final(self).prop_cache == old(self).prop_cache,
            final(self).pattern_cache == old(self).pattern_cache,
            final(self).commands == old(self).commands,
            final(self).modified == old(self).modified,
            final(self).state.index == old(self).state.index,
            final(self).state.prop == old(self).state.prop,
    {
        self.current_section_length = length;
        if section != self.state.section {
            self.state.section = section;
        }
        if self.state.position < 0 {
            self.state.position = 0;
        } else if self.state.position > length {
            self.state.position = length;
        }
    }

    /// The hash code of the panel's editable state.
    fn state_code(&self) -> (r: u64) {
        let mut bytes: Vec<u8> = Vec::new();
        let mut b = u64_to_le_bytes(self.state.section as u64);
        bytes.append(&mut b);
        let mut b = u64_to_le_bytes(self.state.index as u64);
        bytes.append(&mut b);
        let mut b = u64_to_le_bytes(self.state.prop as u64);
        bytes.append(&mut b);
        let mut b = u32_to_le_bytes(self.state.position as u32);
        bytes.append(&mut b);
        let mut b = u32_to_le_bytes(self.state.size as u32);
        bytes.append(&mut b);
        let mut b = u32_to_le_bytes(self.state.spacing as u32);
        bytes.append(&mut b);
        let mut b = u32_to_le_bytes(self.state.x as u32);
        bytes.append(&mut b);
        let mut b = u32_to_le_bytes(self.state.freq as u32);
        bytes.append(&mut b);
        let mut b = u32_to_le_bytes(self.state.amp as u32);
        bytes.append(&mut b);
        let mut b = u32_to_le_bytes(self.state.offset as u32);
        bytes.append(&mut b);
        let mut b = u32_to_le_bytes(self.state.flags);
        bytes.append(&mut b);
        bytes.push(self.state.clicks);
        hash_bytes(&bytes)
    }
}

impl screen::PanelInv for PatternsPanel {
    open spec fn inv(&self) -> bool {
        patterns_wf(self)
    }
}

impl screen::CommandHandler for PatternsPanel {
    /// True exactly for the commands in this panel's list.
    fn should_handle(&self, command: &str) -> (r: bool)
        ensures
            r == self.commands@.map_values(|x: String| x@).contains(command@),
    {
        contains_str(&self.commands, command)
    }

    /// Reacts to prop and pattern listings and to structural edits. A
    /// `pattern-list` rebuilds the cache as [`spec_pattern_cache`]
    /// describes, clamps the selections into the caches, and recomputes
    /// the sliders.
    fn handle(&mut self, response: &Response) -> (r: Result<(), String>)
        ensures
            r is Ok,
            final(self).commands == old(self).commands,
            (spec_identifier(spec_header(response@)) == "pattern-list"@ && !(response@
                is Error)) ==> pattern_cache_view(final(self)) == spec_pattern_cache(
                spec_body(response@),
            ),
    {
        let (err, cmd, _args, resp) = response.decompose();
        proof {
            reveal_strlit("package-props");
            reveal_strlit("pattern-add");
            reveal_strlit("pattern-duplicate");
            reveal_strlit("pattern-list");
            reveal_strlit("");
        }
        if str_eq(cmd, "package-props") {
            proof {
                assert("package-props"@ != "pattern-list"@);
            }
            self.prop_cache = Vec::new();
            if !err && !starts_with_str(resp, EMPTY_SIGNAL) {
                self.prop_cache = body_lines(resp);
            }
            // Keep the prop selection inside the new list.
            let limit = if self.prop_cache.len() == 0 {
                0
            } else {
                self.prop_cache.len() - 1
            };
            if self.state.prop > limit {
                self.state.prop = limit;
            }
        } else if str_eq(cmd, "pattern-add") {
            proof {
                assert("pattern-add"@ != "pattern-list"@);
            }
            self.scroll_to = Some(self.pattern_cache.len());
        } else if str_eq(cmd, "pattern-duplicate") {
            proof {
                assert("pattern-duplicate"@ != "pattern-list"@);
            }
            self.scroll_to = Some(saturating_inc(self.state.index));
        } else if str_eq(cmd, "pattern-list") {
            self.pattern_cache = Vec::new();
            if !err && !starts_with_str(resp, EMPTY_SIGNAL) {
                let ls = body_lines(resp);
                let ghost lsv = trim_each(payload_lines(resp@));
                let mut i: usize = 0;
                while i < ls.len()
                    invariant
                        i <= ls@.len(),
                        lsv == ls@.map_values(|x: String| x@),
                        lsv.len() == ls@.len(),
                        self.commands == old(self).commands,
                        self.prop_cache == old(self).prop_cache,
                        self.state == old(self).state,
                        self.scroll_to == old(self).scroll_to,
                        spec_pattern_cache_from(lsv, 0) =~= pattern_cache_view(self)
                            + spec_pattern_cache_from(lsv, i as int),
                    decreases ls@.len() - i,
                {
                    let ghost pre = pattern_cache_view(self);
                    match extract_pattern_data(ls[i].as_str()) {
                        Some(p) => {
                            let label = format_pattern_data(i, &p);
                            self.pattern_cache.push((ls[i].clone(), label));
                            proof {
                                assert(pattern_cache_view(self) =~= pre.push(
                                    (lsv[i as int], spec_format_pattern(
                                        i as int,
                                        spec_extract_pattern(lsv[i as int]).unwrap(),
                                    )),
                                ));
                                assert(pre.push(
                                    (lsv[i as int], spec_format_pattern(
                                        i as int,
                                        spec_extract_pattern(lsv[i as int]).unwrap(),
                                    )),
                                ) + spec_pattern_cache_from(lsv, i + 1) =~= pre
                                    + spec_pattern_cache_from(lsv, i as int));
                            }
                        },
                        None => {
                            proof {
                                assert(spec_pattern_cache_from(lsv, i as int)
                                    =~= spec_pattern_cache_from(lsv, i + 1));
                            }
                        },
                    }
                    i = i + 1;
                }
                proof {
                    assert(spec_pattern_cache_from(lsv, lsv.len() as int) =~= Seq::<
                        (Seq<char>, Seq<char>),
                    >::empty());
                    assert(pattern_cache_view(self) =~= spec_pattern_cache(resp@));
                }
            } else {
                proof {
                    assert(pattern_cache_view(self) =~= Seq::<(Seq<char>, Seq<char>)>::empty());
                }
            }
            let n = match self.scroll_to {
                Some(v) => {
                    self.scroll_to = None;
                    v
                },
                None => self.state.index,
            };
            let prop_limit = if self.prop_cache.len() == 0 {
                0
            } else {
                self.prop_cache.len() - 1
            };
            if self.state.prop > prop_limit {
                self.state.prop = prop_limit;
            }
            let limit = if self.pattern_cache.len() == 0 {
                0
            } else {
                self.pattern_cache.len() - 1
            };
            self.state.index = if n > limit {
                limit
            } else {
                n
            };
            let ghost cv = pattern_cache_view(self);
            self.update_sliders();
            proof {
                assert(pattern_cache_view(self) == cv);
            }
        }
        Ok(())
    }
}

/// The next position up, stopping at the top.
fn saturating_inc(n: usize) -> (r: usize)
    ensures
        r == (if n as int + 1 <= usize::MAX {
            n as int + 1
        } else {
            usize::MAX as int
        }),
{
    if n < usize::MAX {
        n + 1
    } else {
        n
    }
}


/// The `pattern-add` command of one write-back tick, if flagged.
pub open spec fn pseg_add(p: &PatternsPanel) -> Seq<Seq<char>> {
    if p.modified.add {
        seq!["pattern-add "@ + dec_seq(p.state.section as int)]
    } else {
        Seq::<Seq<char>>::empty()
    }
}

/// The `pattern-delete` command, if flagged.
pub open spec fn pseg_delete(p: &PatternsPanel) -> Seq<Seq<char>> {
    if p.modified.delete {
        seq![
            "pattern-delete "@ + dec_seq(p.state.section as int) + " "@ + dec_seq(
                p.state.index as int,
            )
        ]
    } else {
        Seq::<Seq<char>>::empty()
    }
}

/// The `pattern-duplicate` command, if flagged.
pub open spec fn pseg_duplicate(p: &PatternsPanel) -> Seq<Seq<char>> {
    if p.modified.duplicate {
        seq![
            "pattern-duplicate "@ + dec_seq(p.state.section as int) + " "@ + dec_seq(
                p.state.index as int,
            )
        ]
    } else {
        Seq::<Seq<char>>::empty()
    }
}

/// The single `pattern-adjust` command, if flagged.
pub open spec fn pseg_adjust_one(p: &PatternsPanel) -> Seq<Seq<char>> {
    if p.modified.adjust_one {
        seq![
            "pattern-adjust "@ + dec_seq(p.state.section as int) + " "@ + dec_seq(
                p.state.index as int,
            )
        ]
    } else {
        Seq::<Seq<char>>::empty()
    }
}

/// One `pattern-adjust` for every cached pattern from position `i` on.
pub open spec fn adjust_all_from(sec: int, i: int, len: int) -> Seq<Seq<char>>
    decreases len - i,
{
    if i < 0 || i >= len {
        Seq::<Seq<char>>::empty()
    } else {
        seq!["pattern-adjust "@ + dec_seq(sec) + " "@ + dec_seq(i)] + adjust_all_from(
            sec,
            i + 1,
            len,
        )
    }
}

/// The whole-section `pattern-adjust` sweep, if flagged.
pub open spec fn pseg_adjust_all(p: &PatternsPanel) -> Seq<Seq<char>> {
    if p.modified.adjust_all {
        adjust_all_from(p.state.section as int, 0, pattern_cache_view(p).len() as int)
    } else {
        Seq::<Seq<char>>::empty()
    }
}

/// The copy into the section before this one, if flagged; at the first
/// section the copy stays in place.
pub open spec fn pseg_copy_prev(p: &PatternsPanel) -> Seq<Seq<char>> {
    if p.modified.copy_prev {
        seq![
            "pattern-copy-all "@ + dec_seq(p.state.section as int) + " "@ + dec_seq(
                if p.state.section as int >= 1 {
                    p.state.section as int - 1
                } else {
                    0
                },
            )
        ]
    } else {
        Seq::<Seq<char>>::empty()
    }
}

/// The copy into the section after this one, if flagged.
pub open spec fn pseg_copy_next(p: &PatternsPanel) -> Seq<Seq<char>> {
    if p.modified.copy_next {
        seq![
            "pattern-copy-all "@ + dec_seq(p.state.section as int) + " "@ + dec_seq(
                if p.state.section as int + 1 <= usize::MAX {
                    p.state.section as int + 1
                } else {
                    usize::MAX as int
                },
            )
        ]
    } else {
        Seq::<Seq<char>>::empty()
    }
}

/// The `pattern-set` command for the sliders, if an edit is flagged and a
/// prop is available to name.
pub open spec fn pseg_setter(p: &PatternsPanel) -> Seq<Seq<char>> {
    if p.modified.edit && p.state.prop < p.prop_cache@.len() {
        seq![
            "pattern-set "@ + dec_seq(p.state.section as int) + " "@ + dec_seq(
                p.state.index as int,
            ) + " "@ + p.prop_cache@[p.state.prop as int]@ + " "@ + int_seq(
                p.state.position as int,
            ) + " "@ + int_seq(p.state.size as int) + " "@ + int_seq(p.state.spacing as int)
                + " "@ + int_seq(p.state.x as int * X_SCALAR as int) + " "@ + int_seq(
                p.state.freq as int,
            ) + " "@ + int_seq(p.state.amp as int * X_SCALAR as int) + " "@ + int_seq(
                p.state.offset as int,
            ) + " "@ + dec_seq(p.state.flags as int)
        ]
    } else {
        Seq::<Seq<char>>::empty()
    }
}

/// The commands one write-back tick sends: the flagged edits, then a
/// re-listing of the current section.
pub open spec fn spec_patterns_write_cmds(p: &PatternsPanel) -> Seq<Seq<char>> {
    pseg_add(p) + pseg_delete(p) + pseg_duplicate(p) + pseg_adjust_one(p) + pseg_adjust_all(p)
        + pseg_copy_prev(p) + pseg_copy_next(p) + pseg_setter(p) + seq![
        "pattern-list "@ + dec_seq(p.state.section as int)
    ]
}

impl PatternsPanel {
    /// A two-number command: the verb, the section, and one more number.
    fn sec_cmd(verb: &'static str, section: usize, extra: usize) -> (r: String)
        ensures
            r@ == verb@ + dec_seq(section as int) + " "@ + dec_seq(extra as int),
    {
        let mut c = verb.to_owned();
        c.append(usize_string(section).as_str());
        c.append(" ");
        c.append(usize_string(extra).as_str());
        c
    }

    /// The structural-edit commands of one write-back tick: the first five
    /// segments of [`spec_patterns_write_cmds`].
    #[verifier::rlimit(100)]
    #[verifier::spinoff_prover]
    fn build_edit_commands(&self) -> (out: Vec<String>)
        ensures
            out@.map_values(|x: String| x@) == pseg_add(self) + pseg_delete(self)
                + pseg_duplicate(self) + pseg_adjust_one(self) + pseg_adjust_all(self),
    {
        let mut out: Vec<String> = Vec::new();
        let ghost mut built: Seq<Seq<char>> = Seq::<Seq<char>>::empty();
        proof {
            assert(built =~= Seq::<Seq<char>>::empty());
        }
        if self.modified.add {
            let mut c = "pattern-add ".to_owned();
            c.append(usize_string(self.state.section).as_str());
            let ghost prev = out@.map_values(|x: String| x@);
            out.push(c);
            proof {
                assert(out@.map_values(|x: String| x@) =~= prev + pseg_add(self));
            }
        }
        proof {
            built = pseg_add(self);
            assert(out@.map_values(|x: String| x@) =~= built);
        }
        if self.modified.delete {
            let c = Self::sec_cmd("pattern-delete ", self.state.section, self.state.index);
            let ghost prev = out@.map_values(|x: String| x@);
            out.push(c);
            proof {
                assert(out@.map_values(|x: String| x@) =~= prev + pseg_delete(self));
            }
        }
        proof {
            built = built + pseg_delete(self);
            assert(out@.map_values(|x: String| x@) =~= built);
        }
        if self.modified.duplicate {
            let c = Self::sec_cmd("pattern-duplicate ", self.state.section, self.state.index);
            let ghost prev = out@.map_values(|x: String| x@);
            out.push(c);
            proof {
                assert(out@.map_values(|x: String| x@) =~= prev + pseg_duplicate(self));
            }
        }
        proof {
            built = built + pseg_duplicate(self);
            assert(out@.map_values(|x: String| x@) =~= built);
        }
        if self.modified.adjust_one {
            let c = Self::sec_cmd("pattern-adjust ", self.state.section, self.state.index);
            let ghost prev = out@.map_values(|x: String| x@);
            out.push(c);
            proof {
                assert(out@.map_values(|x: String| x@) =~= prev + pseg_adjust_one(self));
            }
        }
        proof {
            built = built + pseg_adjust_one(self);
            assert(out@.map_values(|x: String| x@) =~= built);
        }
        if self.modified.adjust_all {
            let len = self.pattern_cache.len();
            let ghost sec = self.state.section as int;
            let ghost start = out@.map_values(|x: String| x@);
            let mut i: usize = 0;
            while i < len
                invariant
                    i <= len,
                    len == self.pattern_cache@.len(),
                    start + adjust_all_from(sec, 0, len as int) =~= out@.map_values(
                        |x: String| x@,
                    ) + adjust_all_from(sec, i as int, len as int),
                    sec == self.state.section as int,
                decreases len - i,
            {
                let c = Self::sec_cmd("pattern-adjust ", self.state.section, i);
                let ghost prev = out@.map_values(|x: String| x@);
                out.push(c);
                proof {
                    assert(out@.map_values(|x: String| x@) =~= prev.push(c@));
                    assert(prev.push(c@) + adjust_all_from(sec, i + 1, len as int) =~= prev
                        + adjust_all_from(sec, i as int, len as int));
                }
                i = i + 1;
            }
            proof {
                assert(adjust_all_from(sec, len as int, len as int) =~= Seq::<
                    Seq<char>,
                >::empty());
                assert(out@.map_values(|x: String| x@) =~= start + pseg_adjust_all(self));
            }
        }
        proof {
            built = built + pseg_adjust_all(self);
            assert(out@.map_values(|x: String| x@) =~= built);
        }
        out
    }

    /// The commands one write-back tick sends, as
    /// [`spec_patterns_write_cmds`] describes.
    #[verifier::rlimit(100)]
    #[verifier::spinoff_prover]
    fn build_write_commands(&self) -> (out: Vec<String>)
        requires
            patterns_wf(self),
        ensures
            out@.map_values(|x: String| x@) == spec_patterns_write_cmds(self),
    {
        let mut out = self.build_edit_commands();
        let ghost mut built: Seq<Seq<char>> = out@.map_values(|x: String| x@);
        if self.modified.copy_prev {
            let prev_sec = if self.state.section >= 1 {
                self.state.section - 1
            } else {
                0
            };
            let c = Self::sec_cmd("pattern-copy-all ", self.state.section, prev_sec);
            let ghost prev = out@.map_values(|x: String| x@);
            out.push(c);
            proof {
                assert(out@.map_values(|x: String| x@) =~= prev + pseg_copy_prev(self));
            }
        }
        proof {
            built = built + pseg_copy_prev(self);
            assert(out@.map_values(|x: String| x@) =~= built);
        }
        if self.modified.copy_next {
            let next_sec = if self.state.section < usize::MAX {
                self.state.section + 1
            } else {
                usize::MAX
            };
            let c = Self::sec_cmd("pattern-copy-all ", self.state.section, next_sec);
            let ghost prev = out@.map_values(|x: String| x@);
            out.push(c);
            proof {
                assert(out@.map_values(|x: String| x@) =~= prev + pseg_copy_next(self));
            }
        }
        proof {
            built = built + pseg_copy_next(self);
            assert(out@.map_values(|x: String| x@) =~= built);
        }
        if self.modified.edit && self.state.prop < self.prop_cache.len() {
            let c = self.format_pattern_setter();
            let ghost prev = out@.map_values(|x: String| x@);
            out.push(c);
            proof {
                assert(out@.map_values(|x: String| x@) =~= prev + pseg_setter(self));
            }
        }
        proof {
            built = built + pseg_setter(self);
            assert(out@.map_values(|x: String| x@) =~= built);
        }
        let mut c = "pattern-list ".to_owned();
        c.append(usize_string(self.state.section).as_str());
        let ghost prev = out@.map_values(|x: String| x@);
        out.push(c);
        proof {
            assert(out@.map_values(|x: String| x@) =~= prev.push(c@));
            built = built + seq!["pattern-list "@ + dec_seq(self.state.section as int)];
            assert(out@.map_values(|x: String| x@) =~= built);
            assert(built == spec_patterns_write_cmds(self));
        }
        out
    }
}

impl screen::StateSync for PatternsPanel {
    /// Registers the commands this panel reacts to.
    fn initialize_state(&mut self, _send: &mut Vec<String>) {
        self.commands.push("package-props".to_owned());
        self.commands.push("section-list".to_owned());
        self.commands.push("pattern-list".to_owned());
        self.commands.push("pattern-add".to_owned());
        self.commands.push("pattern-delete".to_owned());
        self.commands.push("pattern-duplicate".to_owned());
        self.commands.push("pattern-copy-all".to_owned());
        self.commands.push("pattern-adjust".to_owned());
        self.commands.push("pattern-set".to_owned());
    }

    /// Lets the monitor see the current state.
    fn update_state(&mut self, now_ms: u64) {
        let code = self.state_code();
        self.monitor.update(code, now_ms);
    }

    /// Asks the interpreter for the props and the current section's
    /// patterns.
    fn request_state(&self, send: &mut Vec<String>)
        ensures
            final(send)@.map_values(|x: String| x@) == old(send)@.map_values(|x: String| x@)
                + seq![
                "package-props"@,
                "pattern-list "@ + dec_seq(self.state.section as int),
            ],
    {
        send.push("package-props".to_owned());
        let mut c = "pattern-list ".to_owned();
        c.append(usize_string(self.state.section).as_str());
        send.push(c);
        proof {
            assert(final(send)@.map_values(|x: String| x@) =~= old(send)@.map_values(
                |x: String| x@,
            ) + seq![
                "package-props"@,
                "pattern-list "@ + dec_seq(self.state.section as int),
            ]);
        }
    }

    /// Once the edit delay has passed: the flagged commands, as
    /// [`spec_patterns_write_cmds`] describes; a flagged selection also
    /// recomputes the sliders; then every flag is cleared.
    fn write_state(&mut self, now_ms: u64, send: &mut Vec<String>)
        ensures
            !(now_ms >= old(self).monitor.last_modification_ms as int
                + PATTERNS_WRITE_DELAY_MS as int) ==> final(send)@ == old(send)@ && *final(self)
                == *old(self),
            (now_ms >= old(self).monitor.last_modification_ms as int
                + PATTERNS_WRITE_DELAY_MS as int) ==> ({
                &&& final(send)@.map_values(|x: String| x@) == old(send)@.map_values(
                    |x: String| x@,
                ) + spec_patterns_write_cmds(old(self))
                &&& !final(self).modified.select
                &&& !final(self).modified.edit
                &&& !final(self).modified.add
                &&& !final(self).modified.delete
                &&& !final(self).modified.duplicate
                &&& !final(self).modified.adjust_one
                &&& !final(self).modified.adjust_all
                &&& !final(self).modified.copy_next
                &&& !final(self).modified.copy_prev
                &&& final(self).pattern_cache == old(self).pattern_cache
                &&& final(self).prop_cache == old(self).prop_cache
            }),
    {
        if self.monitor.time_elapsed(now_ms, PATTERNS_WRITE_DELAY_MS) {
            let mut out = self.build_write_commands();
            if self.modified.select {
                self.update_sliders();
            }
            self.modified = PatternFlags {
                select: false,
                edit: false,
                add: false,
                delete: false,
                duplicate: false,
                adjust_one: false,
                adjust_all: false,
                copy_next: false,
                copy_prev: false,
            };
            let ghost outv = out@.map_values(|x: String| x@);
            let ghost pre = send@.map_values(|x: String| x@);
            send.append(&mut out);
            proof {
                assert(send@.map_values(|x: String| x@) =~= pre + outv);
            }
            self.monitor.sleep(now_ms);
        }
    }
}

impl screen::Panel for PatternsPanel {

}

} // verus!
