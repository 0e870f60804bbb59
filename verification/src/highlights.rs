//! The highlight groups of marks and hints: their names and their looks.

use crate::ui::grid::GridLayout;
use crate::ui::record_mark::RecordMarkTime;
use vstd::prelude::*;
use vstd::string::*;

verus! {

/// The looks of one highlight group: colours of text and ground, and style.
#[derive(Debug, Clone, Copy)]
pub struct OptsHighlight<'a> {
    pub fg: Option<&'a str>,
    pub bg: Option<&'a str>,
    pub gui: Option<&'a str>,
}

impl<'a> OptsHighlight<'a> {
    /// The looks with the colours `fg` and `bg` and the style `gui`, each if given.
    pub fn new(fg: Option<&'a str>, bg: Option<&'a str>, gui: Option<&'a str>) -> (o: Self)
        ensures
            o.fg == fg,
            o.bg == bg,
            o.gui == gui,
    {
        Self { fg, bg, gui }
    }

    /// The editor command that defines the group `name` with these looks,
    /// unless the user has defined it.
    pub open spec fn spec_command(self, name: Seq<char>) -> Seq<char> {
        "hi default "@ + name + (match self.fg {
            Some(fg) => " guifg="@ + fg@,
            None => Seq::empty(),
        }) + (match self.bg {
            Some(bg) => " guibg="@ + bg@,
            None => Seq::empty(),
        }) + (match self.gui {
            Some(gui) => " gui="@ + gui@,
            None => Seq::empty(),
        })
    }

    /// The editor command that defines the group `name` with these looks,
    /// unless the user has defined it.
    pub fn command(&self, name: &str) -> (cmd: String)
        ensures
            cmd@ == self.spec_command(name@),
    {
        let mut cmd = String::from_str("hi default ").concat(name);
        if let Some(fg) = self.fg {
            cmd.append(" guifg=");
            cmd.append(fg);
        }
        if let Some(bg) = self.bg {
            cmd.append(" guibg=");
            cmd.append(bg);
        }
        if let Some(gui) = self.gui {
            cmd.append(" gui=");
            cmd.append(gui);
        }
        cmd
    }
}

/// The looks of the mark and of the sign of one band.
#[derive(Debug, Clone, Copy)]
pub struct RecordHighlight<'a> {
    pub mark: OptsHighlight<'a>,
    pub sign: OptsHighlight<'a>,
}

/// The looks of the four bands.
#[derive(Debug, Clone, Copy)]
pub struct RecordHighlightList<'a> {
    pub past: RecordHighlight<'a>,
    pub close_past: RecordHighlight<'a>,
    pub future: RecordHighlight<'a>,
    pub close_future: RecordHighlight<'a>,
}

/// The names of the highlight groups of one band.
#[derive(Debug, Clone, Copy)]
pub struct RecordHighlightNames {
    pub mark: &'static str,
    pub sign: &'static str,
}

impl<'a> RecordHighlightList<'a> {
    /// The names of the highlight groups of the mark and of the sign of the band
    /// `typ`.
    pub fn record_hl_names(typ: RecordMarkTime) -> (names: RecordHighlightNames)
        ensures
            (names.mark@, names.sign@) == match typ {
                RecordMarkTime::Past => ("CompassRecordPast"@, "CompassRecordPastSign"@),
                RecordMarkTime::PastClose => (
                    "CompassRecordClosePast"@,
                    "CompassRecordClosePastSign"@,
                ),
                RecordMarkTime::Future => ("CompassRecordFuture"@, "CompassRecordFutureSign"@),
                RecordMarkTime::FutureClose => (
                    "CompassRecordCloseFuture"@,
                    "CompassRecordCloseFutureSign"@,
                ),
            },
    {
        match typ {
            RecordMarkTime::Past => RecordHighlightNames {
                mark: "CompassRecordPast",
                sign: "CompassRecordPastSign",
            },
            RecordMarkTime::PastClose => RecordHighlightNames {
                mark: "CompassRecordClosePast",
                sign: "CompassRecordClosePastSign",
            },
            RecordMarkTime::Future => RecordHighlightNames {
                mark: "CompassRecordFuture",
                sign: "CompassRecordFutureSign",
            },
            RecordMarkTime::FutureClose => RecordHighlightNames {
                mark: "CompassRecordCloseFuture",
                sign: "CompassRecordCloseFutureSign",
            },
        }
    }

    /// The looks of the band `typ`.
    pub fn get(&self, typ: RecordMarkTime) -> (h: &RecordHighlight<'a>)
        ensures
            *h == match typ {
                RecordMarkTime::Past => self.past,
                RecordMarkTime::PastClose => self.close_past,
                RecordMarkTime::Future => self.future,
                RecordMarkTime::FutureClose => self.close_future,
            },
    {
        match typ {
            RecordMarkTime::Past => &self.past,
            RecordMarkTime::PastClose => &self.close_past,
            RecordMarkTime::Future => &self.future,
            RecordMarkTime::FutureClose => &self.close_future,
        }
    }
}

/// Bold text of the colour `fg`.
pub open spec fn spec_bold(fg: &'static str) -> OptsHighlight<'static> {
    OptsHighlight { fg: Some(fg), bg: None, gui: Some("bold") }
}

/// Bold text on a ground of the colour `bg`.
pub open spec fn spec_bold_on(bg: &'static str) -> OptsHighlight<'static> {
    OptsHighlight { fg: None, bg: Some(bg), gui: Some("bold") }
}

impl<'a> RecordHighlightList<'a> {
    /// The looks of the bands where the user sets none: the far bands grey,
    /// the close past red and the close future blue.
    pub open spec fn spec_default() -> RecordHighlightList<'static> {
        RecordHighlightList {
            past: RecordHighlight { mark: spec_bold_on("grey"), sign: spec_bold("grey") },
            close_past: RecordHighlight { mark: spec_bold("red"), sign: spec_bold("red") },
            future: RecordHighlight { mark: spec_bold_on("grey"), sign: spec_bold("grey") },
            close_future: RecordHighlight { mark: spec_bold("blue"), sign: spec_bold("blue") },
        }
    }
}

impl<'a> Default for RecordHighlightList<'a> {
    fn default() -> (list: Self)
        ensures
            list == RecordHighlightList::spec_default(),
    {
        let grey_ground = OptsHighlight::new(None, Some("grey"), Some("bold"));
        let grey = OptsHighlight::new(Some("grey"), None, Some("bold"));
        let red = OptsHighlight::new(Some("red"), None, Some("bold"));
        let blue = OptsHighlight::new(Some("blue"), None, Some("bold"));
        Self {
            past: RecordHighlight { mark: grey_ground, sign: grey },
            close_past: RecordHighlight { mark: red, sign: red },
            future: RecordHighlight { mark: grey_ground, sign: grey },
            close_future: RecordHighlight { mark: blue, sign: blue },
        }
    }
}

/// The looks of the label and of the path of one kind of hint.
#[derive(Debug, Clone, Copy)]
pub struct HintHighlight<'a> {
    pub label: OptsHighlight<'a>,
    pub path: OptsHighlight<'a>,
}

/// The looks of the hints of the two layouts of the picker.
#[derive(Debug, Clone, Copy)]
pub struct HintHighlightList<'a> {
    pub open: HintHighlight<'a>,
    pub follow: HintHighlight<'a>,
}

/// The names of the highlight groups of one kind of hint.
#[derive(Debug, Clone, Copy)]
pub struct HintHighlightNames {
    pub mark: &'static str,
    pub path: &'static str,
}

impl<'a> HintHighlightList<'a> {
    /// The names of the highlight groups of the label and of the path of a hint
    /// in the layout `typ`.
    pub fn hint_hl_names(typ: GridLayout) -> (names: HintHighlightNames)
        ensures
            (names.mark@, names.path@) == match typ {
                GridLayout::Open => ("CompassHintOpen"@, "CompassHintOpenPath"@),
                GridLayout::Follow => ("CompassHintFollow"@, "CompassHintFollowPath"@),
            },
    {
        match typ {
            GridLayout::Open => HintHighlightNames {
                mark: "CompassHintOpen",
                path: "CompassHintOpenPath",
            },
            GridLayout::Follow => HintHighlightNames {
                mark: "CompassHintFollow",
                path: "CompassHintFollowPath",
            },
        }
    }
}

impl<'a> HintHighlightList<'a> {
    /// The looks of the hints where the user sets none: the labels black on
    /// yellow, the paths yellow.
    pub open spec fn spec_default() -> HintHighlightList<'static> {
        let label = OptsHighlight { fg: Some("black"), bg: Some("yellow"), gui: Some("bold") };
        let hint = HintHighlight { label, path: spec_bold("yellow") };
        HintHighlightList { open: hint, follow: hint }
    }
}

impl<'a> Default for HintHighlightList<'a> {
    fn default() -> (list: Self)
        ensures
            list == HintHighlightList::spec_default(),
    {
        let label = OptsHighlight::new(Some("black"), Some("yellow"), Some("bold"));
        let path = OptsHighlight::new(Some("yellow"), None, Some("bold"));
        Self { open: HintHighlight { label, path }, follow: HintHighlight { label, path } }
    }
}

/// The looks of all highlight groups.
#[derive(Debug, Clone, Copy)]
pub struct HighlightList<'a> {
    pub tracks: RecordHighlightList<'a>,
    pub hints: HintHighlightList<'a>,
}

impl<'a> Default for HighlightList<'a> {
    fn default() -> (list: Self)
        ensures
            list.tracks == RecordHighlightList::spec_default(),
            list.hints == HintHighlightList::spec_default(),
    {
        Self { tracks: RecordHighlightList::default(), hints: HintHighlightList::default() }
    }
}

/// How many highlight groups there are.
pub const HIGHLIGHT_GROUPS: usize = 12;

/// The bands in the order in which their groups are gone through.
pub open spec fn spec_band(i: int) -> RecordMarkTime {
    if i == 0 {
        RecordMarkTime::Past
    } else if i == 1 {
        RecordMarkTime::PastClose
    } else if i == 2 {
        RecordMarkTime::Future
    } else {
        RecordMarkTime::FutureClose
    }
}

/// The name of the group at `index`.
pub open spec fn spec_group_name(index: int) -> Seq<char> {
    if index == 0 {
        "CompassRecordPast"@
    } else if index == 1 {
        "CompassRecordPastSign"@
    } else if index == 2 {
        "CompassRecordClosePast"@
    } else if index == 3 {
        "CompassRecordClosePastSign"@
    } else if index == 4 {
        "CompassRecordFuture"@
    } else if index == 5 {
        "CompassRecordFutureSign"@
    } else if index == 6 {
        "CompassRecordCloseFuture"@
    } else if index == 7 {
        "CompassRecordCloseFutureSign"@
    } else if index == 8 {
        "CompassHintOpen"@
    } else if index == 9 {
        "CompassHintOpenPath"@
    } else if index == 10 {
        "CompassHintFollow"@
    } else {
        "CompassHintFollowPath"@
    }
}

impl<'a> HighlightList<'a> {
    /// The looks of the group at `index`: the mark and the sign of each band,
    /// then the label and the path of each kind of hint.
    pub open spec fn spec_group(self, index: int) -> Option<OptsHighlight<'a>> {
        if 0 <= index < 8 {
            let band = match spec_band(index / 2) {
                RecordMarkTime::Past => self.tracks.past,
                RecordMarkTime::PastClose => self.tracks.close_past,
                RecordMarkTime::Future => self.tracks.future,
                RecordMarkTime::FutureClose => self.tracks.close_future,
            };
            Some(
                if index % 2 == 0 {
                    band.mark
                } else {
                    band.sign
                },
            )
        } else if 8 <= index < 12 {
            let hint = if index < 10 {
                self.hints.open
            } else {
                self.hints.follow
            };
            Some(
                if index % 2 == 0 {
                    hint.label
                } else {
                    hint.path
                },
            )
        } else {
            None
        }
    }

    /// The name and the looks of the group at `index`.
    pub fn group(&'a self, index: usize) -> (r: Option<(&'static str, &'a OptsHighlight<'a>)>)
        ensures
            r is Some == (index < HIGHLIGHT_GROUPS),
            r matches Some(g) ==> Some(*g.1) == self.spec_group(index as int) && g.0@
                == spec_group_name(index as int),
    {
        let past = RecordHighlightList::record_hl_names(RecordMarkTime::Past);
        let close_past = RecordHighlightList::record_hl_names(RecordMarkTime::PastClose);
        let future = RecordHighlightList::record_hl_names(RecordMarkTime::Future);
        let close_future = RecordHighlightList::record_hl_names(RecordMarkTime::FutureClose);
        let open = HintHighlightList::hint_hl_names(GridLayout::Open);
        let follow = HintHighlightList::hint_hl_names(GridLayout::Follow);
        match index {
            0 => Some((past.mark, &self.tracks.past.mark)),
            1 => Some((past.sign, &self.tracks.past.sign)),
            2 => Some((close_past.mark, &self.tracks.close_past.mark)),
            3 => Some((close_past.sign, &self.tracks.close_past.sign)),
            4 => Some((future.mark, &self.tracks.future.mark)),
            5 => Some((future.sign, &self.tracks.future.sign)),
            6 => Some((close_future.mark, &self.tracks.close_future.mark)),
            7 => Some((close_future.sign, &self.tracks.close_future.sign)),
            8 => Some((open.mark, &self.hints.open.label)),
            9 => Some((open.path, &self.hints.open.path)),
            10 => Some((follow.mark, &self.hints.follow.label)),
            11 => Some((follow.path, &self.hints.follow.path)),
            _ => None,
        }
    }

    /// Goes through the groups from the first.
    pub fn iter(&'a self) -> (it: IterHighlightList<'a>)
        ensures
            it.hls == self,
            it.index == 0,
    {
        IterHighlightList { hls: self, index: 0 }
    }
}

/// A walk through the highlight groups.
#[derive(Debug, Clone, Copy)]
pub struct IterHighlightList<'a> {
    pub hls: &'a HighlightList<'a>,
    pub index: usize,
}

impl<'a> IterHighlightList<'a> {
    /// The next group, until all were given.
    pub fn next(&mut self) -> (r: Option<(&'static str, &'a OptsHighlight<'a>)>)
        ensures
            final(self).hls == old(self).hls,
            final(self).index == if old(self).index < HIGHLIGHT_GROUPS {
                old(self).index + 1
            } else {
                old(self).index as int
            },
            r is Some == (old(self).index < HIGHLIGHT_GROUPS),
            r matches Some(g) ==> Some(*g.1) == old(self).hls.spec_group(old(self).index as int)
                && g.0@ == spec_group_name(old(self).index as int),
    {
        let result = self.hls.group(self.index);
        if self.index < HIGHLIGHT_GROUPS {
            self.index += 1;
        }
        result
    }
}

} // verus!
