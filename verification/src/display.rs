//! How the picture is handed to the display that the window is on.
use crate::text::{decimal, decimal_text, digit, law_decimal_reads_back, number_of};
use vstd::prelude::*;

verus! {

/// What the display can show.
#[derive(Debug, Clone, Copy, PartialEq, Eq, Structural)]
pub enum DisplayOutputMode {
    /// High dynamic range.
    Hdr,
    /// Standard dynamic range.
    Sdr,
    /// Unknown.
    Auto,
}

/// What the picture has to fit.
#[derive(Debug, Clone, Copy, PartialEq, Eq, Structural)]
pub struct DisplayOutputState {
    pub mode: DisplayOutputMode,
    /// How much larger the display is than the video, in percent.
    pub scale_percent: u32,
}

/// The mode of a display of which it is known, or not, whether high dynamic range is active.
pub fn output_mode(hdr_active: Option<bool>) -> (mode: DisplayOutputMode)
    ensures
        mode == match hdr_active {
            Some(true) => DisplayOutputMode::Hdr,
            Some(false) => DisplayOutputMode::Sdr,
            None => DisplayOutputMode::Auto,
        },
{
    match hdr_active {
        Some(true) => DisplayOutputMode::Hdr,
        Some(false) => DisplayOutputMode::Sdr,
        None => DisplayOutputMode::Auto,
    }
}

/// A percentage as a factor with two decimals.
pub open spec fn factor(percent: u32) -> Seq<char> {
    decimal((percent / 100) as nat).push('.').push(digit(percent as int % 100 / 10)).push(
        digit(percent as int % 10),
    )
}

/// A percentage as a factor with two decimals.
pub fn factor_text(percent: u32) -> (text: String)
    ensures
        text@ == factor(percent),
{
    let mut text = decimal_text((percent / 100) as u64);
    text.push('.');
    text.push((48 + (percent % 100 / 10) as u8) as char);
    text.push((48 + (percent % 10) as u8) as char);
    text
}

/// The video filter: none, or the scaler of the graphics card, which also turns the picture into
/// high dynamic range where the display shows it.
pub open spec fn video_filter(state: DisplayOutputState, gpu_video_processing: bool) -> Seq<char> {
    if gpu_video_processing {
        "d3d11vpp=scaling-mode=nvidia:scale="@ + factor(state.scale_percent) + if state.mode
            == DisplayOutputMode::Hdr {
            ":format=x2bgr10:nvidia-true-hdr"@
        } else {
            Seq::empty()
        }
    } else {
        Seq::empty()
    }
}

/// The video filter.
pub fn video_filter_text(state: DisplayOutputState, gpu_video_processing: bool) -> (filter: String)
    ensures
        filter@ == video_filter(state, gpu_video_processing),
{
    if !gpu_video_processing {
        return String::new();
    }
    let mut filter = "d3d11vpp=scaling-mode=nvidia:scale=".to_owned();
    filter.append(factor_text(state.scale_percent).as_str());
    if state.mode == DisplayOutputMode::Hdr {
        filter.append(":format=x2bgr10:nvidia-true-hdr");
    }
    assert(filter@ =~= video_filter(state, gpu_video_processing));
    filter
}

/// The properties of the player that follow the display, in the order in which they are set: the
/// video filter, then the colors, which stay with the player unless the display is known to show
/// standard dynamic range.
pub open spec fn display_properties(state: DisplayOutputState, gpu_video_processing: bool) -> Seq<
    (Seq<char>, Seq<char>),
> {
    let sdr = state.mode == DisplayOutputMode::Sdr;
    seq![
        ("vf"@, video_filter(state, gpu_video_processing)),
        (
            "d3d11-output-csp"@,
            if sdr {
                "srgb"@
            } else {
                "auto"@
            },
        ),
        (
            "target-colorspace-hint"@,
            if sdr {
                "yes"@
            } else {
                "auto"@
            },
        ),
        ("target-trc"@, "auto"@),
        (
            "target-prim"@,
            if sdr {
                "bt.709"@
            } else {
                "auto"@
            },
        ),
    ]
}

/// The texts of a list of properties.
pub open spec fn property_texts(list: Seq<(&'static str, String)>) -> Seq<(Seq<char>, Seq<char>)> {
    list.map_values(|p: (&'static str, String)| (p.0@, p.1@))
}

/// The properties of the player that follow the display.
pub fn properties_for(state: DisplayOutputState, gpu_video_processing: bool) -> (list: Vec<
    (&'static str, String),
>)
    ensures
        property_texts(list@) == display_properties(state, gpu_video_processing),
{
    let sdr = match state.mode {
        DisplayOutputMode::Sdr => true,
        _ => false,
    };
    let csp = if sdr {
        "srgb"
    } else {
        "auto"
    };
    let hint = if sdr {
        "yes"
    } else {
        "auto"
    };
    let prim = if sdr {
        "bt.709"
    } else {
        "auto"
    };
    let list = vec![
        ("vf", video_filter_text(state, gpu_video_processing)),
        ("d3d11-output-csp", csp.to_owned()),
        ("target-colorspace-hint", hint.to_owned()),
        ("target-trc", "auto".to_owned()),
        ("target-prim", prim.to_owned()),
    ];
    assert(property_texts(list@) =~= display_properties(state, gpu_video_processing));
    list
}

/// What the player was last set to.
pub struct DisplayOutputTracker {
    last_state: Option<(DisplayOutputState, bool)>,
}

impl View for DisplayOutputTracker {
    type V = Option<(DisplayOutputState, bool)>;

    closed spec fn view(&self) -> Option<(DisplayOutputState, bool)> {
        self.last_state
    }
}

impl DisplayOutputTracker {
    /// Nothing was set yet.
    pub fn new() -> (tracker: Self)
        ensures
            tracker@ is None,
    {
        DisplayOutputTracker { last_state: None }
    }

    /// Takes what is found now. Returns whether the player has to be set anew, which is so
    /// whenever it differs from what was found last.
    pub fn observe(&mut self, state: DisplayOutputState, gpu_video_processing: bool) -> (changed:
        bool)
        ensures
            changed == (old(self)@ != Some((state, gpu_video_processing))),
            final(self)@ == Some((state, gpu_video_processing)),
    {
        let changed = match self.last_state {
            Some((last, gpu)) => last.mode != state.mode || last.scale_percent
                != state.scale_percent || gpu != gpu_video_processing,
            None => true,
        };
        self.last_state = Some((state, gpu_video_processing));
        changed
    }
}

/// Whether two device names are the same.
fn same_name(a: &Vec<u16>, b: &Vec<u16>) -> (same: bool)
    ensures
        same == (a@ == b@),
{
    if a.len() != b.len() {
        return false;
    }
    let mut i: usize = 0;
    while i < a.len()
        invariant
            i <= a.len(),
            a.len() == b.len(),
            forall|k: int| 0 <= k < i ==> a@[k] == b@[k],
        decreases a.len() - i,
    {
        if a[i] != b[i] {
            return false;
        }
        i += 1;
    }
    assert(a@ =~= b@);
    true
}

/// Whether a display path has a source of this name.
pub open spec fn is_source(source: Option<Vec<u16>>, device: Seq<u16>) -> bool {
    source matches Some(name) && name@ == device
}

/// The first of the display paths whose source has the name of the monitor's device. Paths whose
/// source has no known name are passed over.
pub fn matching_path(device: &Vec<u16>, sources: &Vec<Option<Vec<u16>>>) -> (path: Option<usize>)
    ensures
        match path {
            Some(i) => i < sources.len() && is_source(sources@[i as int], device@) && forall|k: int|
                0 <= k < i ==> !is_source(#[trigger] sources@[k], device@),
            None => forall|k: int|
                0 <= k < sources.len() ==> !is_source(#[trigger] sources@[k], device@),
        },
{
    let mut i: usize = 0;
    while i < sources.len()
        invariant
            i <= sources.len(),
            forall|k: int| 0 <= k < i ==> !is_source(#[trigger] sources@[k], device@),
        decreases sources.len() - i,
    {
        if let Some(name) = &sources[i] {
            if same_name(name, device) {
                return Some(i);
            }
        }
        i += 1;
    }
    None
}

/// The status of a call that succeeded.
pub const ERROR_SUCCESS: i32 = 0;

/// The status of a call that was handed too little room.
pub const ERROR_INSUFFICIENT_BUFFER: i32 = 122;

/// The color mode of a display that shows high dynamic range.
pub const DISPLAYCONFIG_ADVANCED_COLOR_MODE_HDR: u32 = 2;

/// Whether high dynamic range is active, given the status of the question and its answer.
pub fn hdr_active(status: i32, active_color_mode: u32) -> (active: Option<bool>)
    ensures
        active == if status == 0 {
            Some(active_color_mode == 2)
        } else {
            None
        },
{
    if status == ERROR_SUCCESS {
        Some(active_color_mode == DISPLAYCONFIG_ADVANCED_COLOR_MODE_HDR)
    } else {
        None
    }
}

/// What comes next in the search for the active display paths.
#[derive(Debug, Clone, Copy, PartialEq, Eq, Structural)]
pub enum PathStep {
    /// Ask how many paths there are.
    AskSizes,
    /// Ask for the paths.
    AskPaths,
    /// So many paths were found.
    Found(u32),
    /// The paths cannot be had.
    GiveUp,
}

/// The search for the active display paths. Displays can come and go between the question for the
/// number of the paths and the one for the paths; the search then starts over, three times in
/// all.
pub struct PathSearch {
    attempts_left: u8,
}

impl View for PathSearch {
    type V = int;

    closed spec fn view(&self) -> int {
        self.attempts_left as int
    }
}

/// What comes behind an answer to the question for the number of the paths.
pub open spec fn after_sizes(status: i32) -> PathStep {
    if status == 0 {
        PathStep::AskPaths
    } else {
        PathStep::GiveUp
    }
}

/// What comes behind an answer to the question for the paths, with so many attempts left.
pub open spec fn after_paths(attempts_left: int, status: i32, path_count: u32) -> PathStep {
    if status == 0 {
        PathStep::Found(path_count)
    } else if status == 122 && attempts_left > 0 {
        PathStep::AskSizes
    } else {
        PathStep::GiveUp
    }
}

impl PathSearch {
    /// The search, and its first step.
    pub fn start() -> (search: (PathSearch, PathStep))
        ensures
            search.0@ == 2,
            search.1 == PathStep::AskSizes,
    {
        (PathSearch { attempts_left: 2 }, PathStep::AskSizes)
    }

    /// The answer to the question for the number of the paths.
    pub fn on_sizes(&mut self, status: i32) -> (step: PathStep)
        ensures
            final(self)@ == old(self)@,
            step == after_sizes(status),
    {
        if status != ERROR_SUCCESS {
            return PathStep::GiveUp;
        }
        PathStep::AskPaths
    }

    /// The answer to the question for the paths.
    pub fn on_paths(&mut self, status: i32, path_count: u32) -> (step: PathStep)
        ensures
            step == after_paths(old(self)@, status, path_count),
            final(self)@ == old(self)@ - if step == PathStep::AskSizes {
                1int
            } else {
                0
            },
    {
        if status == ERROR_SUCCESS {
            return PathStep::Found(path_count);
        }
        if status != ERROR_INSUFFICIENT_BUFFER || self.attempts_left == 0 {
            return PathStep::GiveUp;
        }
        self.attempts_left -= 1;
        PathStep::AskSizes
    }
}

/// The outcome of the search, given the answers to come: each the status of the first question,
/// the status of the second, and the number of paths that it gave.
pub open spec fn search_outcome(attempts_left: int, answers: spec_fn(int) -> (i32, i32, u32)) -> Option<
    u32,
>
    decreases attempts_left,
{
    let (sizes, paths, count) = answers(attempts_left);
    match after_sizes(sizes) {
        PathStep::AskPaths => match after_paths(attempts_left, paths, count) {
            PathStep::Found(n) => Some(n),
            PathStep::AskSizes => search_outcome(attempts_left - 1, answers),
            _ => None,
        },
        _ => None,
    }
}

/// The search ends after three attempts at most: paths are found exactly if one of the three
/// attempts succeeds, and those in front of it failed only for want of room.
pub proof fn law_three_attempts(answers: spec_fn(int) -> (i32, i32, u32))
    ensures
        ({
            let a = answers(2);
            let b = answers(1);
            let c = answers(0);
            let succeeds = |x: (i32, i32, u32)| x.0 == 0 && x.1 == 0;
            let again = |x: (i32, i32, u32)| x.0 == 0 && x.1 == 122;
            search_outcome(2, answers) == if succeeds(a) {
                Some(a.2)
            } else if again(a) && succeeds(b) {
                Some(b.2)
            } else if again(a) && again(b) && succeeds(c) {
                Some(c.2)
            } else {
                None
            }
        }),
{
    reveal_with_fuel(search_outcome, 3);
}

/// A factor reads as its percentage: whole hundreds, a point, and two digits.
pub proof fn law_factor_reads_back(percent: u32)
    ensures
        ({
            let text = factor(percent);
            let n = text.len() as int;
            &&& n >= 4
            &&& text[n - 3] == '.'
            &&& 100 * number_of(text.take(n - 3)) + 10 * (text[n - 2] as int - 48) + (text[n - 1]
                as int - 48) == percent
        }),
{
    let text = factor(percent);
    let n = text.len() as int;
    law_decimal_reads_back((percent / 100) as nat);
    assert(text.take(n - 3) =~= decimal((percent / 100) as nat));
    assert(text[n - 2] == digit(percent as int % 100 / 10));
    assert(text[n - 1] == digit(percent as int % 10));
}

/// The picture is scaled by the graphics card exactly if that is asked for, and turned into high
/// dynamic range exactly if the display shows it besides.
pub proof fn law_video_filter(scale_percent: u32, mode: DisplayOutputMode)
    ensures
        ({
            let filter = |gpu: bool| video_filter(DisplayOutputState { mode, scale_percent }, gpu);
            let scaler = "d3d11vpp=scaling-mode=nvidia:scale="@ + factor(scale_percent);
            &&& filter(false).len() == 0
            &&& mode == DisplayOutputMode::Hdr ==> filter(true) == scaler
                + ":format=x2bgr10:nvidia-true-hdr"@
            &&& mode != DisplayOutputMode::Hdr ==> filter(true) == scaler
        }),
{
    let scaler = "d3d11vpp=scaling-mode=nvidia:scale="@ + factor(scale_percent);
    assert(scaler + Seq::<char>::empty() =~= scaler);
}

/// The colors are those of standard dynamic range on a display that shows that, and the player's
/// own on any other; the filter is set in front of them.
pub proof fn law_display_properties(state: DisplayOutputState, gpu: bool)
    ensures
        ({
            let list = display_properties(state, gpu);
            &&& list.len() == 5
            &&& list[0] == ("vf"@, video_filter(state, gpu))
            &&& list[1].0 == "d3d11-output-csp"@
            &&& list[2].0 == "target-colorspace-hint"@
            &&& list[3] == ("target-trc"@, "auto"@)
            &&& list[4].0 == "target-prim"@
            &&& state.mode == DisplayOutputMode::Sdr ==> list[1].1 == "srgb"@ && list[2].1
                == "yes"@ && list[4].1 == "bt.709"@
            &&& state.mode != DisplayOutputMode::Sdr ==> list[1].1 == "auto"@ && list[2].1
                == "auto"@ && list[4].1 == "auto"@
        }),
{
}

/// A list of properties has as many texts as properties, each at its place.
pub proof fn law_property_texts(list: Seq<(&'static str, String)>)
    ensures
        property_texts(list).len() == list.len(),
        forall|i: int|
            0 <= i < list.len() ==> #[trigger] property_texts(list)[i] == (list[i].0@, list[i].1@),
{
}

/// A path is that of the monitor exactly if its source has a name, and that is the monitor's.
pub proof fn law_source_goes_by_its_name(name: Vec<u16>, device: Seq<u16>)
    ensures
        is_source(Some(name), device) <==> name@ == device,
        !is_source(None, device),
{
}

} // verus!
