//! The template renderer: splices a submitted video URL into the
//! playback page by replacing the empty video element of the template
//! with the same element carrying a source attribute.

use vstd::prelude::*;
use vstd::string::StringExecFns;
use crate::search::first_match;
use crate::search::has_match;
use crate::search::lemma_first_match;
use crate::search::matches_at;
use crate::search::replace_first;
use crate::search::spec_replace_first;

verus! {

/// The exact empty video element the renderer looks for in the
/// playback-page template.
pub open spec fn spec_placeholder() -> Seq<char> {
    "<video id=\"videoPlayer\" preload=\"metadata\"></video>"@
}

/// Everything of the spliced video element that comes before the URL.
pub open spec fn spec_element_head() -> Seq<char> {
    "<video id=\"videoPlayer\" src=\""@
}

/// Everything of the spliced video element that comes after the URL.
pub open spec fn spec_element_tail() -> Seq<char> {
    "\" preload=\"metadata\"></video>"@
}

/// The video element with `url` as its source attribute value,
/// inserted verbatim: the renderer applies no escaping.
pub open spec fn spec_video_element(url: Seq<char>) -> Seq<char> {
    spec_element_head() + url + spec_element_tail()
}

/// The rendered playback page: the template with the first occurrence
/// of the placeholder replaced by the video element for `url`, or the
/// template unchanged when the placeholder is absent.
pub open spec fn spec_render(template: Seq<char>, url: Seq<char>) -> Seq<char> {
    spec_replace_first(template, spec_placeholder(), spec_video_element(url))
}

/// Renders the playback page for `video_url` from `template`.
pub fn render_video_page(template: &str, video_url: &str) -> (r: String)
    ensures
        r@ == spec_render(template@, video_url@),
{
    let mut element = String::from_str("<video id=\"videoPlayer\" src=\"");
    element.append(video_url);
    element.append("\" preload=\"metadata\"></video>");
    proof {
        assert(element@ =~= spec_video_element(video_url@));
    }
    replace_first(
        template,
        "<video id=\"videoPlayer\" preload=\"metadata\"></video>",
        element.as_str(),
    )
}

/// Rendering is a pure function of the template and the URL: it touches
/// no state, so rendering twice with the same inputs gives the same
/// document, and one request cannot affect another.
pub proof fn lemma_render_deterministic(
    template: Seq<char>,
    url: Seq<char>,
    r1: Seq<char>,
    r2: Seq<char>,
)
    requires
        r1 == spec_render(template, url),
        r2 == spec_render(template, url),
    ensures
        r1 == r2,
{
}

/// When the placeholder is present in the template, the rendered page
/// carries `src="` followed by the URL, verbatim, followed by `"`,
/// starting right after the spliced element's identity attribute.
pub proof fn lemma_render_src_attribute(template: Seq<char>, url: Seq<char>)
    requires
        has_match(template, spec_placeholder()),
    ensures
        matches_at(
            spec_render(template, url),
            "src=\""@ + url + "\""@,
            first_match(template, spec_placeholder()) + 24,
        ),
{
    reveal_strlit("<video id=\"videoPlayer\" preload=\"metadata\"></video>");
    reveal_strlit("<video id=\"videoPlayer\" src=\"");
    reveal_strlit("\" preload=\"metadata\"></video>");
    reveal_strlit("src=\"");
    reveal_strlit("\"");
    lemma_first_match(template, spec_placeholder());
    let i = first_match(template, spec_placeholder());
    let rendered = spec_render(template, url);
    let target = "src=\""@ + url + "\""@;
    assert(rendered == template.subrange(0, i) + spec_video_element(url) + template.subrange(
        i + spec_placeholder().len() as int,
        template.len() as int,
    ));
    assert(rendered.subrange(i + 24, i + 24 + target.len() as int) =~= target);
}

} // verus!
