//! The extraction pipeline's pure half: the caps and filters applied to
//! raw page content, the lazy-scroll stabilization rule, and the assembly
//! of the scraped document.

use vstd::prelude::*;
use vstd::string::StrSliceExecFns;
use vstd::string::StringExecFns;
use crate::errors::ScrapeError;
use crate::model::ImageData;
use crate::model::ImageModel;
use crate::model::LinkData;
use crate::model::LinkModel;
use crate::model::ScrapedData;
use crate::outcome::LoginMeta;
use crate::text::str_starts_with;
use crate::text::truncate_chars;
use crate::text::truncated;

verus! {

/// At most this many image entries are kept.
pub const IMAGE_CAP: usize = 20;

/// At most this many link entries are kept.
pub const LINK_CAP: usize = 50;

/// Link text is capped at this many characters.
pub const LINK_TEXT_CAP: usize = 200;

/// Body text is capped at this many characters.
pub const TEXT_CAP: usize = 100000;

/// At most this many lazy-scroll rounds are made.
pub const LAZY_SCROLL_MAX_ROUNDS: usize = 5;

/// A sequence cut off after `cap` elements.
pub open spec fn capped<T>(s: Seq<T>, cap: int) -> Seq<T> {
    if s.len() <= cap {
        s
    } else {
        s.take(cap)
    }
}

/// An absolute web URL: one that begins with "http", so both plain and
/// TLS schemes pass and relative or data URLs do not.
pub open spec fn is_http(s: Seq<char>) -> bool {
    "http"@.is_prefix_of(s)
}

/// The image entries kept: those with an absolute web URL, in order.
pub open spec fn http_images(s: Seq<ImageModel>) -> Seq<ImageModel> {
    s.filter(|m: ImageModel| is_http(m.src))
}

/// A link entry with its visible text capped.
pub open spec fn link_normed(l: LinkModel) -> LinkModel {
    LinkModel { href: l.href, text: truncated(l.text, LINK_TEXT_CAP as int) }
}

/// The link entries kept: text capped, then those with an absolute web
/// URL, in order.
pub open spec fn normed_http_links(s: Seq<LinkModel>) -> Seq<LinkModel> {
    s.map_values(|l: LinkModel| link_normed(l)).filter(|m: LinkModel| is_http(m.href))
}

/// Keep the images with an absolute web URL, in order, capped at the
/// image limit.
pub fn cap_images(v: &Vec<ImageData>) -> (r: Vec<ImageData>)
    ensures
        r.deep_view() == capped(http_images(v.deep_view()), IMAGE_CAP as int),
{
    let ghost dv = v.deep_view();
    let mut r: Vec<ImageData> = Vec::new();
    let mut i: usize = 0;
    proof {
        assert(dv.take(0) =~= Seq::<ImageModel>::empty());
        assert(r.deep_view() =~= http_images(dv.take(0)));
    }
    while i < v.len()
        invariant
            i <= v@.len(),
            dv == v.deep_view(),
            dv.len() == v@.len(),
            r@.len() == r.deep_view().len(),
            r.deep_view() == capped(http_images(dv.take(i as int)), IMAGE_CAP as int),
            r@.len() <= IMAGE_CAP,
        decreases v@.len() - i,
    {
        let ghost pre = http_images(dv.take(i as int));
        proof {
            broadcast use Seq::lemma_filter_push;

            assert(dv.take(i + 1) =~= dv.take(i as int).push(dv[i as int]));
        }
        let item = &v[i];
        proof {
            assert(item.deep_view() == dv[i as int]);
        }
        let keep = str_starts_with(item.src.as_str(), "http");
        let ghost post = http_images(dv.take(i + 1));
        proof {
            if keep {
                assert(post == pre.push(dv[i as int]));
            } else {
                assert(post == pre);
            }
        }
        if keep && r.len() < IMAGE_CAP {
            let ghost old_r = r.deep_view();
            let copy = ImageData { src: item.src.clone(), alt: item.alt.clone() };
            proof {
                assert(copy.deep_view() == dv[i as int]);
                assert(old_r == pre);
            }
            r.push(copy);
            proof {
                assert(r.deep_view() =~= pre.push(dv[i as int]));
            }
        } else {
            proof {
                if keep {
                    assert(pre.len() >= IMAGE_CAP);
                    assert(pre.push(dv[i as int]).take(IMAGE_CAP as int) =~= pre.take(
                        IMAGE_CAP as int,
                    ));
                }
            }
        }
        i += 1;
    }
    proof {
        assert(dv.take(v@.len() as int) =~= dv);
    }
    r
}

/// Keep the links with an absolute web URL, each with its text capped, in
/// order, capped at the link limit.
pub fn cap_links(v: &Vec<LinkData>) -> (r: Vec<LinkData>)
    ensures
        r.deep_view() == capped(normed_http_links(v.deep_view()), LINK_CAP as int),
{
    let ghost dv = v.deep_view();
    let ghost normed = dv.map_values(|l: LinkModel| link_normed(l));
    let mut r: Vec<LinkData> = Vec::new();
    let mut i: usize = 0;
    proof {
        assert(dv.take(0).map_values(|l: LinkModel| link_normed(l)) =~= Seq::<
            LinkModel,
        >::empty());
        assert(r.deep_view() =~= normed_http_links(dv.take(0)));
    }
    while i < v.len()
        invariant
            i <= v@.len(),
            dv == v.deep_view(),
            dv.len() == v@.len(),
            r@.len() == r.deep_view().len(),
            r.deep_view() == capped(normed_http_links(dv.take(i as int)), LINK_CAP as int),
            r@.len() <= LINK_CAP,
        decreases v@.len() - i,
    {
        let ghost pre = normed_http_links(dv.take(i as int));
        let ghost mpre = dv.take(i as int).map_values(|l: LinkModel| link_normed(l));
        let ghost mpost = dv.take(i + 1).map_values(|l: LinkModel| link_normed(l));
        proof {
            broadcast use Seq::lemma_filter_push;

            assert(mpost =~= mpre.push(link_normed(dv[i as int])));
        }
        let item = &v[i];
        proof {
            assert(item.deep_view() == dv[i as int]);
        }
        let keep = str_starts_with(item.href.as_str(), "http");
        let ghost post = normed_http_links(dv.take(i + 1));
        proof {
            assert(is_http(link_normed(dv[i as int]).href) == is_http(dv[i as int].href));
            if keep {
                assert(post == pre.push(link_normed(dv[i as int])));
            } else {
                assert(post == pre);
            }
        }
        if keep && r.len() < LINK_CAP {
            let copy = LinkData {
                href: item.href.clone(),
                text: truncate_chars(item.text.as_str(), LINK_TEXT_CAP),
            };
            proof {
                assert(copy.deep_view() == link_normed(dv[i as int]));
                assert(r.deep_view() == pre);
            }
            r.push(copy);
            proof {
                assert(r.deep_view() =~= pre.push(link_normed(dv[i as int])));
            }
        } else {
            proof {
                if keep {
                    assert(pre.len() >= LINK_CAP);
                    assert(pre.push(link_normed(dv[i as int])).take(LINK_CAP as int) =~= pre.take(
                        LINK_CAP as int,
                    ));
                }
            }
        }
        i += 1;
    }
    proof {
        assert(dv.take(v@.len() as int) =~= dv);
    }
    r
}

/// Cap the body text at the text limit, counted in characters.
pub fn cap_text(text: Option<String>) -> (r: Option<String>)
    ensures
        match text {
            Some(t) => r is Some && r->0@ == truncated(t@, TEXT_CAP as int),
            None => r is None,
        },
{
    match text {
        Some(t) => Some(truncate_chars(t.as_str(), TEXT_CAP)),
        None => None,
    }
}

/// How many height evaluations the lazy-scroll loop makes on a page whose
/// successive document heights are given: it stops as soon as one round
/// leaves the height unchanged, and never makes more than the maximum
/// number of rounds.
pub open spec fn spec_scroll_evals(hs: Seq<i64>) -> int {
    if hs[1] == hs[0] {
        2
    } else if hs[2] == hs[1] {
        3
    } else if hs[3] == hs[2] {
        4
    } else {
        5
    }
}

/// Whether the lazy-scroll loop goes into another round after reading the
/// given document height: it continues exactly while the height still
/// changes, and the very first reading always continues.
pub open spec fn spec_scroll_continue(last: Option<i64>, new_height: i64) -> bool {
    last != Some(new_height)
}

/// Decide, after one height reading, whether the lazy-scroll loop makes
/// another round. The driver calls this once per round, up to the round
/// limit.
pub fn scroll_continue(last: &Option<i64>, new_height: i64) -> (r: bool)
    ensures
        r == spec_scroll_continue(*last, new_height),
{
    match last {
        Some(h) => *h != new_height,
        None => true,
    }
}

/// Decide how many scroll rounds a page with the given successive heights
/// receives.
pub fn lazy_scroll_evals(heights: &Vec<i64>) -> (n: usize)
    requires
        heights@.len() >= LAZY_SCROLL_MAX_ROUNDS,
    ensures
        n == spec_scroll_evals(heights@),
        2 <= n <= LAZY_SCROLL_MAX_ROUNDS,
{
    if !scroll_continue(&Some(heights[0]), heights[1]) {
        2
    } else if !scroll_continue(&Some(heights[1]), heights[2]) {
        3
    } else if !scroll_continue(&Some(heights[2]), heights[3]) {
        4
    } else {
        5
    }
}

/// The per-round stop rule realizes the round count: a loop that reads
/// heights one by one and stops as soon as one round leaves the height
/// unchanged, bounded by the round limit, makes exactly the number of
/// evaluations the round-count function states.
pub proof fn lemma_scroll_continue_matches_evals(hs: Seq<i64>)
    requires
        hs.len() >= LAZY_SCROLL_MAX_ROUNDS,
    ensures
        spec_scroll_evals(hs) == if !spec_scroll_continue(Some(hs[0]), hs[1]) {
            2int
        } else if !spec_scroll_continue(Some(hs[1]), hs[2]) {
            3int
        } else if !spec_scroll_continue(Some(hs[2]), hs[3]) {
            4int
        } else {
            5int
        },
{
}

/// The DOM-ready gate: extraction may start only once a body element
/// exists; a page that never produced one within the budget is a content
/// extraction failure.
pub fn dom_ready_gate(body_found: bool) -> (r: Result<(), ScrapeError>)
    ensures
        body_found ==> r is Ok,
        !body_found ==> match r {
            Result::Err(ScrapeError::ContentExtraction(m)) => m@
                == "Timeout waiting for body element"@,
            _ => false,
        },
{
    if body_found {
        Ok(())
    } else {
        Err(ScrapeError::ContentExtraction(String::from_str("Timeout waiting for body element")))
    }
}

/// Assemble the scraped document: body text capped, images and links
/// filtered to absolute web URLs and capped, and the login metadata of
/// the request carried through unchanged.
pub fn assemble_scraped(
    title: Option<String>,
    description: Option<String>,
    text: Option<String>,
    images: Vec<ImageData>,
    links: Vec<LinkData>,
    meta: LoginMeta,
) -> (d: ScrapedData)
    ensures
        d.title == title,
        d.description == description,
        match text {
            Some(t) => d.text is Some && d.text->0@ == truncated(t@, TEXT_CAP as int),
            None => d.text is None,
        },
        d.images.deep_view() == capped(http_images(images.deep_view()), IMAGE_CAP as int),
        d.links.deep_view() == capped(normed_http_links(links.deep_view()), LINK_CAP as int),
        d.login_attempted == meta.login_attempted,
        d.login_success == meta.login_success,
        d.platform_detected == meta.platform_detected,
        d.requires_2fa == meta.requires_2fa,
{
    ScrapedData {
        title,
        description,
        text: cap_text(text),
        images: cap_images(&images),
        links: cap_links(&links),
        login_attempted: meta.login_attempted,
        login_success: meta.login_success,
        platform_detected: meta.platform_detected,
        requires_2fa: meta.requires_2fa,
    }
}

} // verus!
