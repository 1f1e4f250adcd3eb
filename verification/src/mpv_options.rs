//! The options that the player is created with.
use crate::video_output::{law_each_output_ends_with_a_comma, law_fallback_adds_nothing_else};
use crate::video_output::{option_text, with_fallback};
use vstd::prelude::*;

verus! {

/// The value of an option.
#[derive(Debug, Clone, Copy)]
pub enum OptionValue {
    Number(i64),
    Text(&'static str),
}

/// An option of the player.
#[derive(Debug, Clone, Copy)]
pub struct MpvOption {
    pub name: &'static str,
    pub value: OptionValue,
    /// Whether the player cannot be used without the option. An optional one that the player
    /// refuses is passed over.
    pub required: bool,
}

/// The texts of an `OptionValue`.
pub enum OptionValueText {
    Number(i64),
    Text(Seq<char>),
}

/// The texts of an `MpvOption`.
pub struct MpvOptionText {
    pub name: Seq<char>,
    pub value: OptionValueText,
    pub required: bool,
}

impl View for MpvOption {
    type V = MpvOptionText;

    open spec fn view(&self) -> MpvOptionText {
        MpvOptionText {
            name: self.name@,
            value: match self.value {
                OptionValue::Number(n) => OptionValueText::Number(n),
                OptionValue::Text(text) => OptionValueText::Text(text@),
            },
            required: self.required,
        }
    }
}

/// An option that the player needs.
pub open spec fn needed(name: Seq<char>, value: Seq<char>) -> MpvOptionText {
    MpvOptionText { name, value: OptionValueText::Text(value), required: true }
}

/// An option that the player can do without.
pub open spec fn wanted(name: Seq<char>, value: Seq<char>) -> MpvOptionText {
    MpvOptionText { name, value: OptionValueText::Text(value), required: false }
}

/// What the player needs to draw into a window.
pub open spec fn needed_options(window: i64, debug: bool) -> Seq<MpvOptionText> {
    seq![
        MpvOptionText { name: "wid"@, value: OptionValueText::Number(window), required: true },
        needed("title"@, "Stremio"@),
        needed("audio-client-name"@, "Stremio"@),
        needed("terminal"@, "yes"@),
        needed(
            "msg-level"@,
            if debug {
                "all=no,cplayer=debug"@
            } else {
                "all=no"@
            },
        ),
        needed("quiet"@, "yes"@),
        needed("hwdec"@, "auto"@),
        needed(
            "stream-lavf-o"@,
            "reconnect=1,reconnect_streamed=1,reconnect_on_network_error=1,reconnect_on_http_error=%23%408,429,500,502,503,504,reconnect_delay_max=15"@,
        ),
        needed("vo"@, "gpu-next,gpu,"@),
    ]
}

/// What the player had better do on any graphics card.
pub open spec fn picture_options() -> Seq<MpvOptionText> {
    seq![
        wanted("gpu-context"@, "d3d11"@),
        wanted("d3d11-output-format"@, "auto"@),
        wanted("d3d11-output-csp"@, "auto"@),
        wanted("target-colorspace-hint"@, "auto"@),
        wanted("target-colorspace-hint-mode"@, "target"@),
        wanted("tone-mapping"@, "bt.2390"@),
        wanted("dither-depth"@, "auto"@),
    ]
}

/// What the player had better do on a graphics card that shares its memory with the processor,
/// or on one that has its own.
pub open spec fn effort_options(unified_memory: bool) -> Seq<MpvOptionText> {
    if unified_memory {
        seq![wanted("profile"@, "fast"@)]
    } else {
        seq![
            wanted("deband"@, "yes"@),
            wanted("scale"@, "spline36"@),
            wanted("cscale"@, "spline36"@),
        ]
    }
}

/// All options, in the order in which they are set.
pub open spec fn all_options(window: i64, debug: bool, unified_memory: bool) -> Seq<MpvOptionText> {
    needed_options(window, debug) + picture_options() + effort_options(unified_memory)
}

/// The texts of a list of options.
pub open spec fn option_texts(options: Seq<MpvOption>) -> Seq<MpvOptionText> {
    options.map_values(|option: MpvOption| option@)
}

/// An option that the player needs.
fn need(name: &'static str, value: &'static str) -> (option: MpvOption)
    ensures
        option@ == needed(name@, value@),
{
    MpvOption { name, value: OptionValue::Text(value), required: true }
}

/// An option that the player can do without.
fn want(name: &'static str, value: &'static str) -> (option: MpvOption)
    ensures
        option@ == wanted(name@, value@),
{
    MpvOption { name, value: OptionValue::Text(value), required: false }
}

/// The options of a player that draws into the window with this handle. `debug` asks for its
/// messages, `unified_memory` says that the graphics card shares its memory with the processor.
pub fn mpv_options(window: i64, debug: bool, unified_memory: bool) -> (options: Vec<MpvOption>)
    ensures
        option_texts(options@) == all_options(window, debug, unified_memory),
{
    let msg_level = if debug {
        "all=no,cplayer=debug"
    } else {
        "all=no"
    };
    let mut options = vec![
        MpvOption { name: "wid", value: OptionValue::Number(window), required: true },
        need("title", "Stremio"),
        need("audio-client-name", "Stremio"),
        need("terminal", "yes"),
        need("msg-level", msg_level),
        need("quiet", "yes"),
        need("hwdec", "auto"),
        // `%23%` makes the 23 bytes of the list of HTTP statuses one value.
        need(
            "stream-lavf-o",
            "reconnect=1,reconnect_streamed=1,reconnect_on_network_error=1,reconnect_on_http_error=%23%408,429,500,502,503,504,reconnect_delay_max=15",
        ),
        // `gpu-next` maps the tones of HDR video best; `gpu` is the fallback.
        need("vo", "gpu-next,gpu,"),
    ];
    assert(option_texts(options@) =~= needed_options(window, debug));
    let mut picture = vec![
        want("gpu-context", "d3d11"),
        want("d3d11-output-format", "auto"),
        want("d3d11-output-csp", "auto"),
        want("target-colorspace-hint", "auto"),
        want("target-colorspace-hint-mode", "target"),
        want("tone-mapping", "bt.2390"),
        want("dither-depth", "auto"),
    ];
    assert(option_texts(picture@) =~= picture_options());
    let mut effort = if unified_memory {
        vec![want("profile", "fast")]
    } else {
        vec![want("deband", "yes"), want("scale", "spline36"), want("cscale", "spline36")]
    };
    assert(option_texts(effort@) =~= effort_options(unified_memory));
    options.append(&mut picture);
    options.append(&mut effort);
    assert(option_texts(options@) =~= all_options(window, debug, unified_memory));
    options
}

/// The number of bytes that the option for reconnecting announces is the number of bytes of the
/// list of HTTP statuses behind it, so that the commas in the list do not end the value.
pub proof fn law_status_list_is_one_value(window: i64, debug: bool, unified_memory: bool)
    ensures
        exists|front: Seq<char>, list: Seq<char>|
            all_options(window, debug, unified_memory)[7] == needed(
                "stream-lavf-o"@,
                #[trigger] (front + list) + ",reconnect_delay_max=15"@,
            ) && front == "reconnect=1,reconnect_streamed=1,reconnect_on_network_error=1,reconnect_on_http_error=%23%"@
                && list.len() == 23,
{
    reveal_strlit("reconnect=1,reconnect_streamed=1,reconnect_on_network_error=1,reconnect_on_http_error=%23%408,429,500,502,503,504,reconnect_delay_max=15");
    reveal_strlit("reconnect=1,reconnect_streamed=1,reconnect_on_network_error=1,reconnect_on_http_error=%23%");
    reveal_strlit("408,429,500,502,503,504");
    reveal_strlit(",reconnect_delay_max=15");
    let front = "reconnect=1,reconnect_streamed=1,reconnect_on_network_error=1,reconnect_on_http_error=%23%"@;
    let list = "408,429,500,502,503,504"@;
    let value = "reconnect=1,reconnect_streamed=1,reconnect_on_network_error=1,reconnect_on_http_error=%23%408,429,500,502,503,504,reconnect_delay_max=15"@;
    assert((front + list) + ",reconnect_delay_max=15"@ =~= value);
}

/// The player draws into the window that it is given, and keeps quiet unless its messages are asked
/// for. What it needs comes first; what it had better do comes behind it and may be refused. On a
/// graphics card that shares its memory it takes the fast way, on any other the better one.
pub proof fn law_options_of_the_player(window: i64, debug: bool, unified_memory: bool)
    ensures
        ({
            let options = all_options(window, debug, unified_memory);
            &&& options.len() == if unified_memory {
                17int
            } else {
                19
            }
            &&& forall|i: int| 0 <= i < options.len() ==> ((#[trigger] options[i]).required <==> i < 9)
            &&& options[0].name == "wid"@ && options[0].value == OptionValueText::Number(window)
            &&& options[1] == needed("title"@, "Stremio"@)
            &&& options[2] == needed("audio-client-name"@, "Stremio"@)
            &&& options[3] == needed("terminal"@, "yes"@)
            &&& options[4] == needed(
                "msg-level"@,
                if debug {
                    "all=no,cplayer=debug"@
                } else {
                    "all=no"@
                },
            )
            &&& options[5] == needed("quiet"@, "yes"@)
            &&& options[6] == needed("hwdec"@, "auto"@)
            &&& options[7] == needed(
                "stream-lavf-o"@,
                "reconnect=1,reconnect_streamed=1,reconnect_on_network_error=1,reconnect_on_http_error=%23%408,429,500,502,503,504,reconnect_delay_max=15"@,
            )
            &&& options[8] == needed("vo"@, "gpu-next,gpu,"@)
            &&& options[9] == wanted("gpu-context"@, "d3d11"@)
            &&& options[10] == wanted("d3d11-output-format"@, "auto"@)
            &&& options[11] == wanted("d3d11-output-csp"@, "auto"@)
            &&& options[12] == wanted("target-colorspace-hint"@, "auto"@)
            &&& options[13] == wanted("target-colorspace-hint-mode"@, "target"@)
            &&& options[14] == wanted("tone-mapping"@, "bt.2390"@)
            &&& options[15] == wanted("dither-depth"@, "auto"@)
            &&& unified_memory ==> options[16] == wanted("profile"@, "fast"@)
            &&& !unified_memory ==> options[16] == wanted("deband"@, "yes"@) && options[17]
                == wanted("scale"@, "spline36"@) && options[18] == wanted("cscale"@, "spline36"@)
        }),
        forall|name: Seq<char>, value: Seq<char>| #[trigger]
            needed(name, value).name == name && needed(name, value).value == OptionValueText::Text(
                value,
            ) && needed(name, value).required,
        forall|name: Seq<char>, value: Seq<char>| #[trigger]
            wanted(name, value).name == name && wanted(name, value).value == OptionValueText::Text(
                value,
            ) && !wanted(name, value).required,
{
}

/// The video outputs that the player is created with have their fallback already.
pub proof fn law_first_video_output_has_its_fallback(window: i64, debug: bool, unified_memory: bool)
    ensures
        all_options(window, debug, unified_memory)[8].value == OptionValueText::Text(
            option_text(with_fallback(Seq::empty())),
        ),
{
    reveal_strlit("gpu-next,gpu,");
    reveal_strlit("gpu-next");
    reveal_strlit("gpu");
    law_fallback_adds_nothing_else(Seq::empty());
    let both = seq!["gpu-next"@] + seq!["gpu"@];
    assert(with_fallback(Seq::empty()) =~= both);
    law_each_output_ends_with_a_comma("gpu-next"@, seq!["gpu"@]);
    law_each_output_ends_with_a_comma("gpu"@, Seq::empty());
    assert("gpu-next"@ + seq![','] + ("gpu"@ + seq![',']) =~= "gpu-next,gpu,"@);
}

/// A list of options has as many texts as options, each at its place, and an option those of its
/// own name and value.
pub proof fn law_option_texts(list: Seq<MpvOption>)
    ensures
        option_texts(list).len() == list.len(),
        forall|i: int|
            0 <= i < list.len() ==> {
                let text = #[trigger] option_texts(list)[i];
                &&& text.name == list[i].name@ && text.required == list[i].required
                &&& list[i].value matches OptionValue::Number(n) ==> text.value
                    == OptionValueText::Number(n)
                &&& list[i].value matches OptionValue::Text(t) ==> text.value
                    == OptionValueText::Text(t@)
            },
{
}

} // verus!
