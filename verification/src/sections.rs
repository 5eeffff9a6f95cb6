//! The sections panel: the track's sections — length, curve, slope and
//! lane split — kept in step with the interpreter's `section-*` commands.

use crate::monitor::{hash_bytes, StateMonitor};
use crate::numbers::{
    dec_seq, i32_div, i32_string, i64_sat_add, i64_string, int_seq, pad_left, pad_left_spec,
    pad_right, pad_right_spec, parse_i32, parse_i32_spec, sat_add_i64, scale_i32, trunc_div,
    usize_string,
};
use crate::response::{spec_body, spec_header, spec_identifier, Response};
use crate::screen;
use crate::text::{
    body_lines, contains_str, payload_lines, split_once_space, split_spaces, split_spaces_spec,
    starts_with_str, str_eq, trim_each,
};
use vstd::bytes::{u32_to_le_bytes, u64_to_le_bytes};
use vstd::prelude::*;
use vstd::string::*;

verus! {

/// One slider step of section length on the wire.
pub const LENGTH_SCALAR: u32 = 25;

/// How long after the last edit the panel waits before writing back, in
/// milliseconds.
pub const SECTIONS_WRITE_DELAY_MS: u64 = 80;

/// The payload marker for an empty listing.
pub const EMPTY_SIGNAL: &'static str = "<EMPTY>";

/// The selected section and its editable values.
pub struct SectionsState {
    pub selected: usize,
    pub length: i32,
    pub curve: i32,
    pub slope: i32,
    pub split: i32,
    pub clicks: u8,
}

/// The pending edits: one flag per kind of change.
pub struct SectionFlags {
    pub select: bool,
    pub edit: bool,
    pub view: bool,
    pub add: bool,
    pub delete: bool,
    pub duplicate: bool,
    pub move_up: bool,
    pub move_down: bool,
}

/// The sections panel. The cache pairs each raw listing line with its
/// display label.
pub struct SectionsPanel {
    pub cache: Vec<(String, String)>,
    pub state: SectionsState,
    pub commands: Vec<String>,
    pub monitor: StateMonitor,
    pub modified: SectionFlags,
    pub metrics: String,
    pub sync_view: bool,
    pub scroll_to: Option<usize>,
    pub last_move: Option<i32>,
}

/// The four numbers of one listing line: length, curve, slope and split,
/// read from the third to sixth whitespace-separated fields.
pub open spec fn spec_extract_section(s: Seq<char>) -> Option<(i32, i32, i32, i32)> {
    let parts = split_spaces_spec(s);
    if parts.len() >= 6 {
        if parse_i32_spec(parts[2]) is Some && parse_i32_spec(parts[3]) is Some && parse_i32_spec(
            parts[4],
        ) is Some && parse_i32_spec(parts[5]) is Some {
            Some(
                (
                    parse_i32_spec(parts[2]).unwrap(),
                    parse_i32_spec(parts[3]).unwrap(),
                    parse_i32_spec(parts[4]).unwrap(),
                    parse_i32_spec(parts[5]).unwrap(),
                ),
            )
        } else {
            None
        }
    } else {
        None
    }
}

/// The display word for a curve value.
pub open spec fn spec_curve_label(c: int) -> Seq<char> {
    if c == 0 {
        "straight"@
    } else if c < -2 {
        "sharp left"@
    } else if c > 2 {
        "sharp right"@
    } else if c < 0 {
        "wide left"@
    } else {
        "wide right"@
    }
}

/// The display word for a slope value.
pub open spec fn spec_slope_label(s: int) -> Seq<char> {
    if s == 0 {
        "flat"@
    } else if s > 0 {
        "upward"@
    } else {
        "downward"@
    }
}

/// The display word for a lane split value.
pub open spec fn spec_lanes_label(s: int) -> Seq<char> {
    if s == 0 {
        "3 lanes"@
    } else if s == 1 {
        "4 lanes"@
    } else if s == 2 {
        "5 lanes"@
    } else {
        "dual tracks"@
    }
}

/// The display label of one listing line, or nothing where the line does
/// not read as a section.
pub open spec fn spec_format_section(index: int, s: Seq<char>) -> Option<Seq<char>> {
    match spec_extract_section(s) {
        Some(d) => Some(
            "["@ + pad_left_spec(dec_seq(index), 2) + "] "@ + pad_right_spec(
                "length "@ + int_seq(d.0 as int),
                11,
            ) + " "@ + pad_right_spec(spec_curve_label(d.1 as int), 12) + " "@ + pad_right_spec(
                spec_slope_label(d.2 as int),
                9,
            ) + " "@ + pad_right_spec(spec_lanes_label(d.3 as int), 12),
        ),
        None => None,
    }
}

/// The cache entries for the listing lines from position `i` on: each line
/// that reads as a section, paired with its label.
pub open spec fn spec_section_cache_from(ls: Seq<Seq<char>>, i: int) -> Seq<(Seq<char>, Seq<char>)>
    decreases ls.len() - i,
{
    if i < 0 || i >= ls.len() {
        Seq::<(Seq<char>, Seq<char>)>::empty()
    } else {
        (match spec_format_section(i, ls[i]) {
            Some(label) => seq![(ls[i], label)],
            None => Seq::<(Seq<char>, Seq<char>)>::empty(),
        }) + spec_section_cache_from(ls, i + 1)
    }
}

/// The cache a `section-list` body yields: empty on the empty marker, the
/// readable lines otherwise.
pub open spec fn spec_section_cache(body: Seq<char>) -> Seq<(Seq<char>, Seq<char>)> {
    if "<EMPTY>"@.is_prefix_of(body) {
        Seq::<(Seq<char>, Seq<char>)>::empty()
    } else {
        spec_section_cache_from(trim_each(payload_lines(body)), 0)
    }
}

/// The cache's ghost view.
pub open spec fn cache_view(p: &SectionsPanel) -> Seq<(Seq<char>, Seq<char>)> {
    p.cache@.map_values(|x: (String, String)| (x.0@, x.1@))
}

/// The sliders recomputed from the cached line of the selected section;
/// everything resets where the cache is empty or the line is unreadable.
pub open spec fn spec_update_sliders(
    cache: Seq<(Seq<char>, Seq<char>)>,
    selected: usize,
    clicks: u8,
) -> SectionsState {
    if cache.len() == 0 {
        SectionsState { selected: 0, length: 0, curve: 0, slope: 0, split: 0, clicks: 0 }
    } else {
        match spec_extract_section(cache[selected as int].0) {
            Some(d) => SectionsState {
                selected,
                length: trunc_div(d.0 as int, LENGTH_SCALAR as int) as i32,
                curve: d.1,
                slope: d.2,
                split: d.3,
                clicks,
            },
            None => SectionsState { selected: 0, length: 0, curve: 0, slope: 0, split: 0, clicks: 0 },
        }
    }
}

/// A panel is well formed when its selection points into the cache, or is
/// zero while the cache is empty.
pub open spec fn sections_wf(p: &SectionsPanel) -> bool {
    p.state.selected < p.cache@.len() || p.state.selected == 0
}

/// Reads the four numbers of one listing line, as [`spec_extract_section`]
/// describes.
pub fn extract_section_data(section: &str) -> (r: Option<(i32, i32, i32, i32)>)
    ensures
        r == spec_extract_section(section@),
{
    let parts = split_spaces(section);
    if parts.len() < 6 {
        return None;
    }
    let a = parse_i32(parts[2].as_str());
    let b = parse_i32(parts[3].as_str());
    let c = parse_i32(parts[4].as_str());
    let d = parse_i32(parts[5].as_str());
    match (a, b, c, d) {
        (Some(length), Some(curve), Some(slope), Some(split)) => Some(
            (length, curve, slope, split),
        ),
        _ => None,
    }
}

/// Builds the display label of one listing line, as
/// [`spec_format_section`] describes.
pub fn format_section_data(index: usize, section: &str) -> (r: Option<String>)
    ensures
        (match r {
            Some(label) => spec_format_section(index as int, section@) == Some(label@),
            None => spec_format_section(index as int, section@) is None,
        }),
{
    match extract_section_data(section) {
        Some(d) => {
            let (length, curve, slope, split) = d;
            let curve_label: &str = if curve == 0 {
                "straight"
            } else if curve < -2 {
                "sharp left"
            } else if curve > 2 {
                "sharp right"
            } else if curve < 0 {
                "wide left"
            } else {
                "wide right"
            };
            let slope_label: &str = if slope == 0 {
                "flat"
            } else if slope > 0 {
                "upward"
            } else {
                "downward"
            };
            let lanes_label: &str = if split == 0 {
                "3 lanes"
            } else if split == 1 {
                "4 lanes"
            } else if split == 2 {
                "5 lanes"
            } else {
                "dual tracks"
            };
            let mut length_part = "length ".to_owned();
            length_part.append(i32_string(length).as_str());
            proof {
                reveal_strlit("length ");
            }
            let mut b = "[".to_owned();
            b.append(pad_left(usize_string(index).as_str(), 2).as_str());
            b.append("] ");
            b.append(pad_right(length_part.as_str(), 11).as_str());
            b.append(" ");
            b.append(pad_right(curve_label, 12).as_str());
            b.append(" ");
            b.append(pad_right(slope_label, 9).as_str());
            b.append(" ");
            b.append(pad_right(lanes_label, 12).as_str());
            proof {
                reveal_strlit("[");
                reveal_strlit("] ");
                reveal_strlit(" ");
                assert(b@ =~= spec_format_section(index as int, section@).unwrap());
            }
            Some(b)
        },
        None => None,
    }
}

impl SectionsPanel {
    /// A fresh panel: empty cache, everything zero, view synchronization
    /// on, and a placeholder metrics line.
    pub fn new() -> (r: Self)
        ensures
            sections_wf(&r),
            r.cache@.len() == 0,
            r.state == (SectionsState {
                selected: 0,
                length: 0,
                curve: 0,
                slope: 0,
                split: 0,
                clicks: 0,
            }),
            r.commands@.len() == 0,
            r.sync_view,
            r.metrics@ == "-"@,
            r.scroll_to is None,
            r.last_move is None,
    {
        SectionsPanel {
            cache: Vec::new(),
            state: SectionsState { selected: 0, length: 0, curve: 0, slope: 0, split: 0, clicks: 0 },
            commands: Vec::new(),
            monitor: StateMonitor::new(0),
            modified: SectionFlags {
                select: false,
                edit: false,
                view: false,
                add: false,
                delete: false,
                duplicate: false,
                move_up: false,
                move_down: false,
            },
            metrics: "-".to_owned(),
            sync_view: true,
            scroll_to: None,
            last_move: None,
        }
    }

    /// Recomputes the sliders from the cached selection, as
    /// [`spec_update_sliders`] describes.
    pub fn update_sliders(&mut self)
        requires
            sections_wf(old(self)),
        ensures
            sections_wf(final(self)),
            final(self).state == spec_update_sliders(
                cache_view(old(self)),
                old(self).state.selected,
                old(self).state.clicks,
            ),
            final(self).cache == old(self).cache,
            final(self).commands == old(self).commands,
            final(self).monitor == old(self).monitor,
            final(self).modified == old(self).modified,
            final(self).metrics == old(self).metrics,
            final(self).sync_view == old(self).sync_view,
            final(self).scroll_to == old(self).scroll_to,
            final(self).last_move == old(self).last_move,
    {
        let selected = self.state.selected;
        let clicks = self.state.clicks;
        if self.cache.len() == 0 {
            self.state = SectionsState {
                selected: 0,
                length: 0,
                curve: 0,
                slope: 0,
                split: 0,
                clicks: 0,
            };
        } else {
            match extract_section_data(self.cache[selected].0.as_str()) {
                Some(d) => {
                    let (length, curve, slope, split) = d;
                    self.state = SectionsState {
                        selected,
                        length: i32_div(length, LENGTH_SCALAR),
                        curve,
                        slope,
                        split,
                        clicks,
                    };
                },
                None => {
                    self.state = SectionsState {
                        selected: 0,
                        length: 0,
                        curve: 0,
                        slope: 0,
                        split: 0,
                        clicks: 0,
                    };
                },
            }
        }
    }
}


/// The label prefix for one metrics field.
pub open spec fn spec_metric_label(f: Seq<char>) -> Seq<char> {
    if f == "view"@ {
        "Viewing Section #"@
    } else if f == "segments"@ {
        "\tTotal Segments: "@
    } else if f == "curve"@ {
        "\tTotal Curve: "@
    } else if f == "slope"@ {
        "\tTotal Slope: "@
    } else {
        "?????"@
    }
}

/// The metrics text that the listing lines from position `i` on yield:
/// each line with a field and a value contributes its label and the value.
pub open spec fn spec_metrics_from(ls: Seq<Seq<char>>, i: int) -> Seq<char>
    decreases ls.len() - i,
{
    if i < 0 || i >= ls.len() {
        Seq::<char>::empty()
    } else {
        (match crate::response::first_space(ls[i]) {
            Some(k) => spec_metric_label(ls[i].take(k)) + ls[i].skip(k + 1),
            None => Seq::<char>::empty(),
        }) + spec_metrics_from(ls, i + 1)
    }
}

/// The lengths of the cached sections before position `k`, added with
/// saturation; an unreadable line counts as zero.
pub open spec fn spec_len_sum(cache: Seq<(Seq<char>, Seq<char>)>, k: int) -> int
    decreases k,
{
    if k <= 0 {
        0
    } else {
        sat_add_i64(
            spec_len_sum(cache, k - 1),
            (match spec_extract_section(cache[k - 1].0) {
                Some(d) => d.0 as int,
                None => 0,
            }),
        )
    }
}

/// The `section-add` command of one write-back tick, if flagged.
pub open spec fn seg_add(p: &SectionsPanel) -> Seq<Seq<char>> {
    if p.modified.add {
        seq!["section-add "@ + dec_seq(p.state.selected as int + 1)]
    } else {
        Seq::<Seq<char>>::empty()
    }
}

/// The `section-delete` command, if flagged.
pub open spec fn seg_delete(p: &SectionsPanel) -> Seq<Seq<char>> {
    if p.modified.delete {
        seq!["section-delete "@ + dec_seq(p.state.selected as int)]
    } else {
        Seq::<Seq<char>>::empty()
    }
}

/// The `section-duplicate` command, if flagged.
pub open spec fn seg_duplicate(p: &SectionsPanel) -> Seq<Seq<char>> {
    if p.modified.duplicate {
        seq!["section-duplicate "@ + dec_seq(p.state.selected as int)]
    } else {
        Seq::<Seq<char>>::empty()
    }
}

/// The upward `section-move` command, if flagged.
pub open spec fn seg_move_up(p: &SectionsPanel) -> Seq<Seq<char>> {
    if p.modified.move_up {
        seq!["section-move "@ + dec_seq(p.state.selected as int) + " -1"@]
    } else {
        Seq::<Seq<char>>::empty()
    }
}

/// The downward `section-move` command, if flagged.
pub open spec fn seg_move_down(p: &SectionsPanel) -> Seq<Seq<char>> {
    if p.modified.move_down {
        seq!["section-move "@ + dec_seq(p.state.selected as int) + " 1"@]
    } else {
        Seq::<Seq<char>>::empty()
    }
}

/// The `section-set` command carrying the edited values, if flagged.
pub open spec fn seg_edit(p: &SectionsPanel) -> Seq<Seq<char>> {
    if p.modified.edit {
        seq![
            "section-set "@ + dec_seq(p.state.selected as int) + " "@ + int_seq(
                p.state.length as int * LENGTH_SCALAR as int,
            ) + " "@ + int_seq(p.state.curve as int) + " "@ + int_seq(p.state.slope as int)
                + " "@ + int_seq(p.state.split as int)
        ]
    } else {
        Seq::<Seq<char>>::empty()
    }
}

/// The `view-position` command that moves the view to the selected
/// section, if flagged.
pub open spec fn seg_view(p: &SectionsPanel) -> Seq<Seq<char>> {
    if p.modified.view {
        seq![
            "view-position 0 "@ + int_seq(
                sat_add_i64(spec_len_sum(cache_view(p), p.state.selected as int), 1),
            )
        ]
    } else {
        Seq::<Seq<char>>::empty()
    }
}

/// The re-listing requests, after any flagged change at all.
pub open spec fn seg_requests(p: &SectionsPanel) -> Seq<Seq<char>> {
    if p.modified.select || p.modified.edit || p.modified.view || p.modified.add
        || p.modified.delete || p.modified.duplicate || p.modified.move_up
        || p.modified.move_down {
        seq!["section-list"@, "section-metrics"@, "view-preview"@]
    } else {
        Seq::<Seq<char>>::empty()
    }
}

/// The commands one write-back tick sends, given the panel's flags: the
/// structural edits first, then the value edit, then the view move, then —
/// after any change at all — the re-listing requests.
pub open spec fn spec_section_write_cmds(p: &SectionsPanel) -> Seq<Seq<char>> {
    seg_add(p) + seg_delete(p) + seg_duplicate(p) + seg_move_up(p) + seg_move_down(p) + seg_edit(
        p,
    ) + seg_view(p) + seg_requests(p)
}

impl SectionsPanel {
    /// What the patterns panel needs of this one: the selected section and
    /// its wire-scale length.
    pub fn section_info(&self) -> (r: (usize, i64))
        ensures
            r.0 == self.state.selected,
            r.1 == self.state.length as int * LENGTH_SCALAR as int,
    {
        (self.state.selected, scale_i32(self.state.length, LENGTH_SCALAR))
    }

    /// The hash code of the panel's editable state.
    fn state_code(&self) -> (r: u64) {
        let mut bytes: Vec<u8> = Vec::new();
        let mut b = u64_to_le_bytes(self.state.selected as u64);
        bytes.append(&mut b);
        let mut b = u32_to_le_bytes(self.state.length as u32);
        bytes.append(&mut b);
        let mut b = u32_to_le_bytes(self.state.curve as u32);
        bytes.append(&mut b);
        let mut b = u32_to_le_bytes(self.state.slope as u32);
        bytes.append(&mut b);
        let mut b = u32_to_le_bytes(self.state.split as u32);
        bytes.append(&mut b);
        bytes.push(self.state.clicks);
        hash_bytes(&bytes)
    }
}

impl screen::PanelInv for SectionsPanel {
    open spec fn inv(&self) -> bool {
        sections_wf(self)
    }
}

impl screen::CommandHandler for SectionsPanel {
    /// True exactly for the commands in this panel's list.
    fn should_handle(&self, command: &str) -> (r: bool)
        ensures
            r == self.commands@.map_values(|x: String| x@).contains(command@),
    {
        contains_str(&self.commands, command)
    }

    /// Reacts to section listings, metrics, structural edits and view
    /// moves. A successful `section-list` rebuilds the cache as
    /// [`spec_section_cache`] describes, clamps the selection into it, and
    /// recomputes the sliders.
    fn handle(&mut self, response: &Response) -> (r: Result<(), String>)
        ensures
            r is Ok,
            final(self).commands == old(self).commands,
            response@ is Error ==> *final(self) == *old(self),
            (response@ is Success && spec_identifier(spec_header(response@)) == "section-list"@)
                ==> ({
                let cache = spec_section_cache(spec_body(response@));
                let target = (match old(self).scroll_to {
                    Some(v) => v as int,
                    None => old(self).state.selected as int,
                });
                let limit = if cache.len() == 0 {
                    0int
                } else {
                    cache.len() - 1
                };
                let sel = if target > limit {
                    limit
                } else {
                    target
                };
                &&& cache_view(final(self)) == cache
                &&& final(self).scroll_to is None
                &&& final(self).state == spec_update_sliders(
                    cache,
                    sel as usize,
                    old(self).state.clicks,
                )
            }),
            (response@ is Success && spec_identifier(spec_header(response@))
                == "section-metrics"@) ==> final(self).metrics@ == spec_metrics_from(
                trim_each(payload_lines(spec_body(response@))),
                0,
            ),
    {
        let (err, cmd, args, resp) = response.decompose();
        proof {
            reveal_strlit("section-add");
            reveal_strlit("section-list");
            reveal_strlit("section-metrics");
            reveal_strlit("section-duplicate");
            reveal_strlit("section-move");
            reveal_strlit("view-position");
            reveal_strlit("");
        }
        if err {
            return Ok(());
        }
        if str_eq(cmd, "section-add") {
            proof {
                assert("section-add"@ != "section-list"@);
                assert("section-add"@ != "section-metrics"@);
            }
            self.scroll_to = Some(saturating_inc(self.state.selected));
        } else if str_eq(cmd, "section-list") {
            proof {
                reveal_strlit("section-list");
                reveal_strlit("");
                assert(response@ is Success);
                assert("section-list"@ != "section-metrics"@);
            }
            self.cache = Vec::new();
            if !starts_with_str(resp, EMPTY_SIGNAL) {
                let ls = body_lines(resp);
                let ghost lsv = trim_each(payload_lines(resp@));
                let mut i: usize = 0;
                while i < ls.len()
                    invariant
                        i <= ls@.len(),
                        lsv == ls@.map_values(|x: String| x@),
                        lsv.len() == ls@.len(),
                        self.commands == old(self).commands,
                        self.state == old(self).state,
                        self.scroll_to == old(self).scroll_to,
                        spec_section_cache_from(lsv, 0) =~= cache_view(self)
                            + spec_section_cache_from(lsv, i as int),
                    decreases ls@.len() - i,
                {
                    let ghost pre = cache_view(self);
                    match format_section_data(i, ls[i].as_str()) {
                        Some(label) => {
                            self.cache.push((ls[i].clone(), label));
                            proof {
                                assert(cache_view(self) =~= pre.push(
                                    (lsv[i as int], spec_format_section(
                                        i as int,
                                        lsv[i as int],
                                    ).unwrap()),
                                ));
                                assert(pre.push(
                                    (lsv[i as int], spec_format_section(
                                        i as int,
                                        lsv[i as int],
                                    ).unwrap()),
                                ) + spec_section_cache_from(lsv, i + 1)
                                    =~= pre + spec_section_cache_from(lsv, i as int));
                            }
                        },
                        None => {
                            proof {
                                assert(spec_section_cache_from(lsv, i as int)
                                    =~= spec_section_cache_from(lsv, i + 1));
                            }
                        },
                    }
                    i = i + 1;
                }
                proof {
                    assert(spec_section_cache_from(lsv, lsv.len() as int) =~= Seq::<
                        (Seq<char>, Seq<char>),
                    >::empty());
                    assert(cache_view(self) =~= spec_section_cache(resp@));
                }
            } else {
                proof {
                    assert(cache_view(self) =~= spec_section_cache(resp@));
                }
            }
            let n = match self.scroll_to {
                Some(v) => {
                    self.scroll_to = None;
                    v
                },
                None => self.state.selected,
            };
            let limit = if self.cache.len() == 0 {
                0
            } else {
                self.cache.len() - 1
            };
            self.state.selected = if n > limit {
                limit
            } else {
                n
            };
            let ghost cv = cache_view(self);
            self.update_sliders();
            proof {
                assert(cache_view(self) == cv);
            }
        } else if str_eq(cmd, "section-metrics") {
            proof {
                assert("section-metrics"@ != "section-list"@);
            }
            self.metrics = String::new();
            let ls = body_lines(resp);
            let ghost lsv = trim_each(payload_lines(resp@));
            let mut i: usize = 0;
            while i < ls.len()
                invariant
                    i <= ls@.len(),
                    lsv == ls@.map_values(|x: String| x@),
                    lsv.len() == ls@.len(),
                    self.commands == old(self).commands,
                    self.cache == old(self).cache,
                    self.state == old(self).state,
                    sections_wf(self),
                    spec_metrics_from(lsv, 0) =~= self.metrics@ + spec_metrics_from(
                        lsv,
                        i as int,
                    ),
                decreases ls@.len() - i,
            {
                match split_once_space(ls[i].as_str()) {
                    Some(p) => {
                        let (field, val) = p;
                        let label: &str = if str_eq(field.as_str(), "view") {
                            "Viewing Section #"
                        } else if str_eq(field.as_str(), "segments") {
                            "\tTotal Segments: "
                        } else if str_eq(field.as_str(), "curve") {
                            "\tTotal Curve: "
                        } else if str_eq(field.as_str(), "slope") {
                            "\tTotal Slope: "
                        } else {
                            "?????"
                        };
                        proof {
                            assert(label@ == spec_metric_label(lsv[i as int].take(
                                crate::response::first_space(lsv[i as int]).unwrap(),
                            )));
                        }
                        self.metrics.append(label);
                        self.metrics.append(val.as_str());
                    },
                    None => (),
                }
                i = i + 1;
            }
            proof {
                assert(spec_metrics_from(lsv, lsv.len() as int) =~= Seq::<char>::empty());
                assert(self.metrics@ =~= spec_metrics_from(lsv, 0));
            }
        } else if str_eq(cmd, "section-duplicate") {
            self.scroll_to = Some(saturating_inc(self.state.selected));
        } else if str_eq(cmd, "section-move") {
            match self.last_move {
                Some(d) => {
                    self.last_move = None;
                    self.scroll_to = Some(saturating_add_signed(self.state.selected, d));
                },
                None => (),
            }
        } else if str_eq(cmd, "view-position") {
            if self.sync_view && self.cache.len() > 0 {
                match split_once_space(args) {
                    Some(p) => {
                        match parse_i32(p.1.as_str()) {
                            Some(view_z) => {
                                let mut vz: i64 = view_z as i64;
                                let mut target: usize = 0;
                                let mut k: usize = 0;
                                while k < self.cache.len()
                                    invariant
                                        k <= self.cache@.len(),
                                        target <= k,
                                        self.commands == old(self).commands,
                                        self.cache == old(self).cache,
                                        self.state == old(self).state,
                                        sections_wf(self),
                                    ensures
                                        self.commands == old(self).commands,
                                        self.cache == old(self).cache,
                                        self.state == old(self).state,
                                        sections_wf(self),
                                        target <= self.cache@.len(),
                                    decreases self.cache@.len() - k,
                                {
                                    match extract_section_data(self.cache[k].0.as_str()) {
                                        Some(d) => {
                                            let step = i64_sat_add(vz, -(d.0 as i64));
                                            if step <= 0 {
                                                break;
                                            } else {
                                                vz = step;
                                                target = target + 1;
                                            }
                                        },
                                        None => (),
                                    }
                                    k = k + 1;
                                }
                                let limit = self.cache.len() - 1;
                                let next = if target > limit {
                                    limit
                                } else {
                                    target
                                };
                                if next != self.state.selected {
                                    self.state.selected = next;
                                    self.modified.select = true;
                                }
                            },
                            None => (),
                        }
                    },
                    None => (),
                }
            }
        }
        Ok(())
    }
}

/// The next position up, stopping at the top.
fn saturating_inc(n: usize) -> (r: usize)
    ensures
        r == (if n as int + 1 <= usize::MAX {
            n as int + 1
        } else {
            usize::MAX as int
        }),
{
    if n < usize::MAX {
        n + 1
    } else {
        n
    }
}

/// A position moved by a signed offset, stopping at the ends.
fn saturating_add_signed(n: usize, d: i32) -> (r: usize)
    ensures
        d >= 0 ==> r == (if n as int + d as int <= usize::MAX {
            n + d
        } else {
            usize::MAX as int
        }),
        d < 0 ==> r == (if n as int + d as int >= 0 {
            n as int + d as int
        } else {
            0
        }),
{
    if d >= 0 {
        if n <= usize::MAX - (d as usize) {
            n + (d as usize)
        } else {
            usize::MAX
        }
    } else {
        let m = (-(d as i64)) as u64 as usize;
        if n >= m {
            n - m
        } else {
            0
        }
    }
}

impl screen::StateSync for SectionsPanel {
    /// Registers the commands this panel reacts to.
    fn initialize_state(&mut self, _send: &mut Vec<String>) {
        self.commands.push("section-add".to_owned());
        self.commands.push("section-list".to_owned());
        self.commands.push("section-metrics".to_owned());
        self.commands.push("section-duplicate".to_owned());
        self.commands.push("section-move".to_owned());
        self.commands.push("view-position".to_owned());
    }

    /// Lets the monitor see the current state.
    fn update_state(&mut self, now_ms: u64) {
        let code = self.state_code();
        self.monitor.update(code, now_ms);
    }

    /// Asks the interpreter for the section listing and metrics.
    fn request_state(&self, send: &mut Vec<String>)
        ensures
            final(send)@.map_values(|x: String| x@) == old(send)@.map_values(|x: String| x@)
                + seq!["section-list"@, "section-metrics"@],
    {
        send.push("section-list".to_owned());
        send.push("section-metrics".to_owned());
        proof {
            assert(final(send)@.map_values(|x: String| x@) =~= old(send)@.map_values(
                |x: String| x@,
            ) + seq!["section-list"@, "section-metrics"@]);
        }
    }

    /// Once the edit delay has passed: the flagged commands, as
    /// [`spec_section_write_cmds`] describes; a flagged selection also
    /// recomputes the sliders; then every flag is cleared.
    fn write_state(&mut self, now_ms: u64, send: &mut Vec<String>)
        ensures
            !(now_ms >= old(self).monitor.last_modification_ms as int
                + SECTIONS_WRITE_DELAY_MS as int) ==> final(send)@ == old(send)@ && *final(self)
                == *old(self),
            (now_ms >= old(self).monitor.last_modification_ms as int
                + SECTIONS_WRITE_DELAY_MS as int) ==> ({
                &&& final(send)@.map_values(|x: String| x@) == old(send)@.map_values(
                    |x: String| x@,
                ) + spec_section_write_cmds(old(self))
                &&& !final(self).modified.select
                &&& !final(self).modified.edit
                &&& !final(self).modified.view
                &&& !final(self).modified.add
                &&& !final(self).modified.delete
                &&& !final(self).modified.duplicate
                &&& !final(self).modified.move_up
                &&& !final(self).modified.move_down
                &&& final(self).cache == old(self).cache
            }),
    {
        if self.monitor.time_elapsed(now_ms, SECTIONS_WRITE_DELAY_MS) {
            let mut out = self.build_write_commands();
            if self.modified.move_up {
                self.last_move = Some(-1);
            }
            if self.modified.move_down {
                self.last_move = Some(1);
            }
            if self.modified.select {
                self.update_sliders();
            }
            self.modified = SectionFlags {
                select: false,
                edit: false,
                view: false,
                add: false,
                delete: false,
                duplicate: false,
                move_up: false,
                move_down: false,
            };
            let ghost outv = out@.map_values(|x: String| x@);
            let ghost pre = send@.map_values(|x: String| x@);
            send.append(&mut out);
            proof {
                assert(send@.map_values(|x: String| x@) =~= pre + outv);
            }
            self.monitor.sleep(now_ms);
        }
    }
}

impl SectionsPanel {
    /// The commands one write-back tick sends, as
    /// [`spec_section_write_cmds`] describes.
    #[verifier::rlimit(100)]
    #[verifier::spinoff_prover]
    fn build_write_commands(&self) -> (out: Vec<String>)
        requires
            sections_wf(self),
        ensures
            out@.map_values(|x: String| x@) == spec_section_write_cmds(self),
    {
        let ghost sint = self.state.selected as int;
        // Reading the length pins the selection below `usize::MAX`.
        let _cache_len = self.cache.len();
        let any = self.modified.select || self.modified.edit || self.modified.view
            || self.modified.add || self.modified.delete || self.modified.duplicate
            || self.modified.move_up || self.modified.move_down;
        let sel = usize_string(self.state.selected);
        let mut out: Vec<String> = Vec::new();
        let ghost mut built: Seq<Seq<char>> = Seq::<Seq<char>>::empty();
        proof {
            assert(built =~= Seq::<Seq<char>>::empty());
        }
        if self.modified.add {
            proof {
                assert(sint + 1 <= usize::MAX);
            }
            let mut c = "section-add ".to_owned();
            c.append(usize_string(saturating_inc_for_label(self.state.selected)).as_str());
            let ghost prev = out@.map_values(|x: String| x@);
            out.push(c);
            proof {
                assert(out@.map_values(|x: String| x@) =~= prev + seg_add(self));
            }
        }
        proof {
            built = seg_add(self);
            assert(out@.map_values(|x: String| x@) =~= built);
        }
        if self.modified.delete {
            let mut c = "section-delete ".to_owned();
            c.append(sel.as_str());
            let ghost prev = out@.map_values(|x: String| x@);
            out.push(c);
            proof {
                assert(out@.map_values(|x: String| x@) =~= prev + seg_delete(self));
            }
        }
        proof {
            built = built + seg_delete(self);
            assert(out@.map_values(|x: String| x@) =~= built);
        }
        if self.modified.duplicate {
            let mut c = "section-duplicate ".to_owned();
            c.append(sel.as_str());
            let ghost prev = out@.map_values(|x: String| x@);
            out.push(c);
            proof {
                assert(out@.map_values(|x: String| x@) =~= prev + seg_duplicate(self));
            }
        }
        proof {
            built = built + seg_duplicate(self);
            assert(out@.map_values(|x: String| x@) =~= built);
        }
        if self.modified.move_up {
            let mut c = "section-move ".to_owned();
            c.append(sel.as_str());
            c.append(" -1");
            let ghost prev = out@.map_values(|x: String| x@);
            out.push(c);
            proof {
                assert(out@.map_values(|x: String| x@) =~= prev + seg_move_up(self));
            }
        }
        proof {
            built = built + seg_move_up(self);
            assert(out@.map_values(|x: String| x@) =~= built);
        }
        if self.modified.move_down {
            let mut c = "section-move ".to_owned();
            c.append(sel.as_str());
            c.append(" 1");
            let ghost prev = out@.map_values(|x: String| x@);
            out.push(c);
            proof {
                assert(out@.map_values(|x: String| x@) =~= prev + seg_move_down(self));
            }
        }
        proof {
            built = built + seg_move_down(self);
            assert(out@.map_values(|x: String| x@) =~= built);
        }
        if self.modified.edit {
            let mut c = "section-set ".to_owned();
            c.append(sel.as_str());
            c.append(" ");
            c.append(i64_string(scale_i32(self.state.length, LENGTH_SCALAR)).as_str());
            c.append(" ");
            c.append(i32_string(self.state.curve).as_str());
            c.append(" ");
            c.append(i32_string(self.state.slope).as_str());
            c.append(" ");
            c.append(i32_string(self.state.split).as_str());
            let ghost prev = out@.map_values(|x: String| x@);
            out.push(c);
            proof {
                assert(out@.map_values(|x: String| x@) =~= prev + seg_edit(self));
            }
        }
        proof {
            built = built + seg_edit(self);
            assert(out@.map_values(|x: String| x@) =~= built);
        }
        if self.modified.view {
            let total = self.selected_length_sum();
            let mut c = "view-position 0 ".to_owned();
            c.append(i64_string(i64_sat_add(total, 1)).as_str());
            let ghost prev = out@.map_values(|x: String| x@);
            out.push(c);
            proof {
                assert(out@.map_values(|x: String| x@) =~= prev + seg_view(self));
            }
        }
        proof {
            built = built + seg_view(self);
            assert(out@.map_values(|x: String| x@) =~= built);
        }
        if any {
            let ghost prev = out@.map_values(|x: String| x@);
            out.push("section-list".to_owned());
            out.push("section-metrics".to_owned());
            out.push("view-preview".to_owned());
            proof {
                assert(out@.map_values(|x: String| x@) =~= prev + seg_requests(self));
            }
        }
        proof {
            built = built + seg_requests(self);
            assert(out@.map_values(|x: String| x@) =~= built);
            assert(built == spec_section_write_cmds(self));
        }
        out
    }

    /// The saturated sum of the cached lengths before the selection, as
    /// [`spec_len_sum`] describes.
    fn selected_length_sum(&self) -> (r: i64)
        requires
            sections_wf(self),
        ensures
            r == spec_len_sum(cache_view(self), self.state.selected as int),
    {
        let mut acc: i64 = 0;
        let mut k: usize = 0;
        let end = self.state.selected;
        let ghost cv = cache_view(self);
        while k < end && k < self.cache.len()
            invariant
                k <= end,
                k <= self.cache@.len(),
                end == self.state.selected,
                cv == cache_view(self),
                cv.len() == self.cache@.len(),
                acc == spec_len_sum(cv, k as int),
                sections_wf(self),
            ensures
                acc == spec_len_sum(cv, k as int),
                k <= end,
                k >= end || k >= self.cache@.len(),
            decreases end - k,
        {
            let entry_len: i64 = match extract_section_data(self.cache[k].0.as_str()) {
                Some(d) => d.0 as i64,
                None => 0,
            };
            acc = i64_sat_add(acc, entry_len);
            k = k + 1;
        }
        proof {
            assert(k as int == end as int);
        }
        acc
    }
}

/// The next position up, for a command label; stops at the top.
fn saturating_inc_for_label(n: usize) -> (r: usize)
    ensures
        r == (if n as int + 1 <= usize::MAX {
            n as int + 1
        } else {
            usize::MAX as int
        }),
{
    if n < usize::MAX {
        n + 1
    } else {
        n
    }
}

impl screen::Panel for SectionsPanel {

}

} // verus!
