use stremio_shell::display::{
    factor_text, hdr_active, matching_path, output_mode, properties_for, video_filter_text,
    DisplayOutputMode, DisplayOutputState, DisplayOutputTracker, PathSearch, PathStep,
    ERROR_INSUFFICIENT_BUFFER, ERROR_SUCCESS,
};
use stremio_shell::mpv_options::{mpv_options, OptionValue};
use stremio_shell::video_output::with_gpu_next_fallback;

fn fallback(vo: &str) -> String {
    with_gpu_next_fallback(vo.to_owned())
}

#[test]
fn each_gpu_output_brings_the_other() {
    assert_eq!(fallback(""), "gpu-next,gpu,");
    assert_eq!(fallback(",,"), "gpu-next,gpu,");
    assert_eq!(fallback("gpu-next"), "gpu-next,gpu,");
    assert_eq!(fallback("gpu"), "gpu,gpu-next,");
    assert_eq!(fallback("gpu,,direct3d,"), "gpu,direct3d,gpu-next,");
    assert_eq!(fallback("gpu,gpu-next"), "gpu,gpu-next,");
    assert_eq!(fallback("direct3d"), "direct3d,");
    assert_eq!(fallback(" gpu"), " gpu,");
}

#[test]
fn the_fallback_is_added_once() {
    for vo in ["", "gpu", "gpu-next", "direct3d", "a,,gpu,b", ","] {
        assert_eq!(fallback(&fallback(vo)), fallback(vo));
    }
}

fn state(mode: DisplayOutputMode, scale_percent: u32) -> DisplayOutputState {
    DisplayOutputState {
        mode,
        scale_percent,
    }
}

#[test]
fn factors_have_two_decimals() {
    for percent in [0, 1, 9, 10, 99, 100, 133, 225, 400, 12345, u32::MAX] {
        let factor = percent as f64 / 100.0;
        assert_eq!(factor_text(percent), format!("{:.2}", factor));
    }
    assert_eq!(factor_text(225), "2.25");
}

#[test]
fn the_video_filter_follows_the_display() {
    let hdr = state(DisplayOutputMode::Hdr, 150);
    assert_eq!(video_filter_text(hdr, false), "");
    assert_eq!(
        video_filter_text(hdr, true),
        "d3d11vpp=scaling-mode=nvidia:scale=1.50:format=x2bgr10:nvidia-true-hdr"
    );
    assert_eq!(
        video_filter_text(state(DisplayOutputMode::Auto, 100), true),
        "d3d11vpp=scaling-mode=nvidia:scale=1.00"
    );
}

#[test]
fn the_colors_follow_the_display() {
    let properties = |mode| {
        properties_for(state(mode, 100), false)
            .into_iter()
            .map(|(name, value)| format!("{}={}", name, value))
            .collect::<Vec<String>>()
    };
    assert_eq!(
        properties(DisplayOutputMode::Sdr),
        vec![
            "vf=",
            "d3d11-output-csp=srgb",
            "target-colorspace-hint=yes",
            "target-trc=auto",
            "target-prim=bt.709",
        ]
    );
    let auto = vec![
        "vf=",
        "d3d11-output-csp=auto",
        "target-colorspace-hint=auto",
        "target-trc=auto",
        "target-prim=auto",
    ];
    assert_eq!(properties(DisplayOutputMode::Hdr), auto);
    assert_eq!(properties(DisplayOutputMode::Auto), auto);
}

#[test]
fn the_mode_of_a_display() {
    assert_eq!(output_mode(Some(true)), DisplayOutputMode::Hdr);
    assert_eq!(output_mode(Some(false)), DisplayOutputMode::Sdr);
    assert_eq!(output_mode(None), DisplayOutputMode::Auto);
    assert_eq!(hdr_active(ERROR_SUCCESS, 2), Some(true));
    assert_eq!(hdr_active(ERROR_SUCCESS, 1), Some(false));
    assert_eq!(hdr_active(5, 2), None);
}

#[test]
fn only_changes_are_applied() {
    let mut tracker = DisplayOutputTracker::new();
    let first = state(DisplayOutputMode::Hdr, 100);
    assert!(tracker.observe(first, false));
    assert!(!tracker.observe(first, false));
    assert!(tracker.observe(first, true));
    assert!(tracker.observe(state(DisplayOutputMode::Sdr, 100), true));
    assert!(tracker.observe(state(DisplayOutputMode::Sdr, 101), true));
    assert!(!tracker.observe(state(DisplayOutputMode::Sdr, 101), true));
}

#[test]
fn the_first_path_with_the_name_is_taken() {
    let name = |text: &str| text.encode_utf16().collect::<Vec<u16>>();
    let sources = vec![None, Some(name("a")), Some(name("ab")), Some(name("ab"))];
    assert_eq!(matching_path(&name("ab"), &sources), Some(2));
    assert_eq!(matching_path(&name("a"), &sources), Some(1));
    assert_eq!(matching_path(&name("b"), &sources), None);
    assert_eq!(matching_path(&name("a"), &vec![]), None);
}

#[test]
fn paths_are_asked_for_three_times() {
    let (mut search, step) = PathSearch::start();
    assert_eq!(step, PathStep::AskSizes);
    for _ in 0..2 {
        assert_eq!(search.on_sizes(ERROR_SUCCESS), PathStep::AskPaths);
        assert_eq!(
            search.on_paths(ERROR_INSUFFICIENT_BUFFER, 0),
            PathStep::AskSizes
        );
    }
    assert_eq!(search.on_sizes(ERROR_SUCCESS), PathStep::AskPaths);
    assert_eq!(
        search.on_paths(ERROR_INSUFFICIENT_BUFFER, 0),
        PathStep::GiveUp
    );
    let (mut search, _) = PathSearch::start();
    assert_eq!(search.on_paths(ERROR_SUCCESS, 4), PathStep::Found(4));
    assert_eq!(search.on_paths(5, 4), PathStep::GiveUp);
    assert_eq!(search.on_sizes(5), PathStep::GiveUp);
}

#[test]
fn the_options_of_the_player() {
    let options = mpv_options(77, true, false);
    assert_eq!(options.len(), 19);
    assert_eq!(options[0].name, "wid");
    assert!(matches!(options[0].value, OptionValue::Number(77)));
    let text = |name: &str| {
        options
            .iter()
            .find(|option| option.name == name)
            .map(|option| match option.value {
                OptionValue::Text(text) => (text, option.required),
                OptionValue::Number(_) => panic!("a number"),
            })
    };
    assert_eq!(text("msg-level"), Some(("all=no,cplayer=debug", true)));
    assert_eq!(text("vo"), Some(("gpu-next,gpu,", true)));
    assert_eq!(text("tone-mapping"), Some(("bt.2390", false)));
    assert_eq!(text("cscale"), Some(("spline36", false)));
    assert_eq!(text("profile"), None);
    let plain = mpv_options(77, false, true);
    assert_eq!(plain.len(), 17);
    assert!(matches!(plain[4].value, OptionValue::Text("all=no")));
    assert_eq!(plain[16].name, "profile");
    assert!(matches!(plain[16].value, OptionValue::Text("fast")));
}

#[test]
fn the_announced_length_is_the_length_of_the_list() {
    let options = mpv_options(0, false, false);
    let value = match options[7].value {
        OptionValue::Text(text) => text,
        OptionValue::Number(_) => panic!("a number"),
    };
    let behind = value.split("%23%").nth(1).unwrap();
    assert_eq!(&behind[..23], "408,429,500,502,503,504");
    assert_eq!(&behind[23..], ",reconnect_delay_max=15");
}
