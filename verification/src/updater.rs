//! Where the shell looks for updates.
use crate::build_info::Arch;
use crate::outside::{parse_url_with_params, random_index, url_parse};
use crate::text::{optional_text, same_text};
use crate::urls::{pair_texts, with_params};
use vstd::prelude::*;

verus! {

/// How many addresses there are that tell about updates.
pub const UPDATE_ENDPOINTS: usize = 3;

/// The message that starts the search for updates.
pub const UPDATE_SIGNAL: &'static str = "check_for_update";

/// The addresses that tell about updates.
pub open spec fn update_endpoints() -> Seq<Seq<char>> {
    seq![
        "https://www.strem.io/updater/check?product=stremio-shell-ng"@,
        "https://www.stremio.com/updater/check?product=stremio-shell-ng"@,
        "https://www.stremio.net/updater/check?product=stremio-shell-ng"@,
    ]
}

/// One of the addresses that tell about updates.
pub fn update_endpoint(index: usize) -> (endpoint: &'static str)
    requires
        index < 3,
    ensures
        endpoint@ == update_endpoints()[index as int],
{
    if index == 0 {
        "https://www.strem.io/updater/check?product=stremio-shell-ng"
    } else if index == 1 {
        "https://www.stremio.com/updater/check?product=stremio-shell-ng"
    } else {
        "https://www.stremio.net/updater/check?product=stremio-shell-ng"
    }
}

/// What an address is asked for: the processor, and release candidates if they are wanted.
pub open spec fn update_params(arch: Arch, release_candidate: bool) -> Seq<(Seq<char>, Seq<char>)> {
    if release_candidate {
        seq![("arch"@, arch.spec_name()), ("rc"@, "true"@)]
    } else {
        seq![("arch"@, arch.spec_name())]
    }
}

/// The question for updates at one of the addresses. There is none if the address is no URL.
pub open spec fn update_question(index: int, arch: Arch, release_candidate: bool) -> Option<
    Seq<char>,
> {
    match url_parse(update_endpoints()[index]) {
        Some(url) => Some(with_params(url.text, update_params(arch, release_candidate))),
        None => None,
    }
}

/// The question for updates at one of the addresses.
pub fn update_url(index: usize, arch: Arch, release_candidate: bool) -> (url: Option<String>)
    requires
        index < 3,
    ensures
        optional_text(url) == update_question(index as int, arch, release_candidate),
{
    let endpoint = update_endpoint(index);
    let mut params: Vec<(&'static str, &'static str)> = Vec::new();
    params.push(("arch", arch.name()));
    if release_candidate {
        params.push(("rc", "true"));
    }
    proof {
        reveal_strlit("https://www.strem.io/updater/check?product=stremio-shell-ng");
        reveal_strlit("https://www.stremio.com/updater/check?product=stremio-shell-ng");
        reveal_strlit("https://www.stremio.net/updater/check?product=stremio-shell-ng");
        reveal_strlit("arch");
        reveal_strlit("x64");
        reveal_strlit("arm64");
        reveal_strlit("rc");
        reveal_strlit("true");
        assert(pair_texts(params@) =~= update_params(arch, release_candidate));
    }
    parse_url_with_params(endpoint, &params)
}

/// The question for updates: the one that is configured, or else one at any of the addresses.
pub fn updater_endpoint(
    configured: Option<String>,
    arch: Arch,
    release_candidate: bool,
) -> (url: Option<String>)
    ensures
        match configured {
            Some(endpoint) => url == Some(endpoint),
            None => exists|index: int|
                0 <= index < 3 && optional_text(url) == #[trigger] update_question(
                    index,
                    arch,
                    release_candidate,
                ),
        },
{
    match configured {
        Some(endpoint) => Some(endpoint),
        None => {
            let index = random_index(UPDATE_ENDPOINTS);
            update_url(index, arch, release_candidate)
        },
    }
}

/// Whether a message starts the search for updates.
pub fn starts_search(message: &str) -> (starts: bool)
    ensures
        starts == (message@ == UPDATE_SIGNAL@),
{
    same_text(message, UPDATE_SIGNAL)
}

/// The question for updates goes to one of three addresses, names the processor that the shell is
/// built for, and asks for release candidates exactly if they are wanted.
pub proof fn law_question_names_the_processor(index: int, arch: Arch, release_candidate: bool)
    ensures
        ({
            let address = if index == 0 {
                "https://www.strem.io/updater/check?product=stremio-shell-ng"@
            } else if index == 1 {
                "https://www.stremio.com/updater/check?product=stremio-shell-ng"@
            } else {
                "https://www.stremio.net/updater/check?product=stremio-shell-ng"@
            };
            let processor = if arch == Arch::X64 {
                "x64"@
            } else {
                "arm64"@
            };
            0 <= index < 3 ==> match url_parse(address) {
                Some(url) => update_question(index, arch, release_candidate) == Some(
                    with_params(
                        url.text,
                        if release_candidate {
                            seq![("arch"@, processor)].push(("rc"@, "true"@))
                        } else {
                            seq![("arch"@, processor)]
                        },
                    ),
                ),
                None => update_question(index, arch, release_candidate) is None,
            }
        }),
{
    assert(update_params(arch, true) =~= seq![("arch"@, arch.spec_name())].push(("rc"@, "true"@)));
}

} // verus!
