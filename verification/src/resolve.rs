//! Per-request work: deriving the render context from process-wide state and
//! the live request, and resolving a request path against the page registry
//! with a static-file fallback.

use vstd::prelude::*;

use crate::config::Config;
use crate::page_map::spec_lookup;
use crate::templates::Templates;
use vstd::string::{StrSliceExecFns, StringExecFns};

verus! {

/// The common part of the render context, built fresh per request from the
/// process-wide configuration, the build mode, and the request's own path.
pub struct CommonPageContext {
    pub branding: String,
    pub prod: bool,
    pub url: String,
}

impl CommonPageContext {
    /// Derives the common context from the process state a request sees.
    /// The configuration is written once at startup; its absence here is an
    /// internal-configuration fault, reported with a fixed message and never
    /// recovered per request.
    pub fn from_state(config: Option<&Config>, prod: bool, url: &str) -> (r: Result<
        CommonPageContext,
        String,
    >)
        ensures
            config matches Some(c) ==> (r matches Ok(ctx) && ctx.branding@ == c.branding@
                && ctx.prod == prod && ctx.url@ == url@),
            config is None ==> (r matches Err(e) && e@ == "missing Config in request state"@),
    {
        match config {
            Some(c) => Ok(
                CommonPageContext {
                    branding: c.branding.clone(),
                    prod,
                    url: String::from_str(url),
                },
            ),
            None => Err(String::from_str("missing Config in request state")),
        }
    }
}

/// The page part of the render context.
pub struct PageContext {
    pub title: String,
    pub scripted: bool,
    pub template_name: String,
}

/// The page-file suffix a template identifier is derived by stripping.
pub open spec fn html_suffix() -> Seq<char> {
    seq!['.', 'h', 't', 'm', 'l']
}

/// The template identifier a page url derives: the page-file suffix is
/// stripped when present, then a leading path separator when present; a url
/// without the suffix is the identifier verbatim.
pub open spec fn template_id_of(url: Seq<char>) -> Seq<char> {
    if url.len() >= 5 && url.subrange(url.len() - 5, url.len() as int) == html_suffix() {
        let stem = url.subrange(0, url.len() - 5);
        if stem.len() >= 1 && stem[0] == '/' {
            stem.subrange(1, stem.len() as int)
        } else {
            stem
        }
    } else {
        url
    }
}

/// Derives the template identifier from a page's configured url. The
/// transform is best effort: a url without the page-file suffix is already
/// the identifier.
pub fn template_name_of(url: &str) -> (r: String)
    ensures
        r@ == template_id_of(url@),
{
    let n = url.unicode_len();
    if n >= 5 && url.get_char(n - 5) == '.' && url.get_char(n - 4) == 'h' && url.get_char(n - 3)
        == 't' && url.get_char(n - 2) == 'm' && url.get_char(n - 1) == 'l' {
        proof {
            assert(url@.subrange(n - 5, n as int) =~= html_suffix());
        }
        let strip = n - 5 >= 1 && url.get_char(0) == '/';
        let start: usize = if strip {
            1
        } else {
            0
        };
        let stem = url.substring_char(start, n - 5);
        proof {
            let spec_stem = url@.subrange(0, n - 5);
            if strip {
                assert(spec_stem[0] == url@[0]);
                assert(url@.subrange(1, n - 5) =~= spec_stem.subrange(1, spec_stem.len() as int));
            } else if n - 5 >= 1 {
                assert(spec_stem[0] == url@[0]);
            }
        }
        String::from_str(stem)
    } else {
        proof {
            if n >= 5 {
                let sub = url@.subrange(n - 5, n as int);
                assert(sub[0] == url@[n - 5]);
                assert(sub[1] == url@[n - 4]);
                assert(sub[2] == url@[n - 3]);
                assert(sub[3] == url@[n - 2]);
                assert(sub[4] == url@[n - 1]);
                assert(html_suffix()[0] == '.');
                assert(html_suffix()[1] == 'h');
                assert(html_suffix()[2] == 't');
                assert(html_suffix()[3] == 'm');
                assert(html_suffix()[4] == 'l');
                assert(sub != html_suffix());
            }
        }
        String::from_str(url)
    }
}

/// A url that does not end in the page-file suffix is its own template
/// identifier, unchanged.
pub proof fn lemma_no_suffix_verbatim(url: Seq<char>)
    requires
        !(url.len() >= 5 && url.subrange(url.len() - 5, url.len() as int) == html_suffix()),
    ensures
        template_id_of(url) == url,
{
}

/// The canonical request path of route segments: a leading path separator,
/// then the segments as the route gave them.
pub fn full_request_path(segments: &str) -> (r: String)
    ensures
        r@ == "/"@ + segments@,
{
    String::from_str("/").concat(segments)
}

/// The resolver's decision for one request path: exactly one of a rendered
/// page and a static-file attempt.
pub enum Resolution {
    /// The path is in the registry: render `template_name` with the page
    /// context; no static-file read is attempted.
    Rendered { template_name: String, page: PageContext },
    /// The path is not in the registry: the caller attempts exactly one
    /// static-file read at the same relative path, and signals "not found"
    /// when that fails, whatever the cause of the failure.
    StaticCandidate,
}

/// Resolves a request path against the page registry. A hit derives the
/// template identifier from the configured url and builds the page part of
/// the render context; a miss defers to the static-file fallback.
pub fn resolve(templates: &Templates, request_path: &str) -> (r: Resolution)
    requires
        templates.wf(),
    ensures
        match spec_lookup(templates@, request_path@) {
            Some(p) => r matches Resolution::Rendered { template_name, page } && {
                &&& template_name@ == template_id_of(p.url)
                &&& page.template_name@ == template_id_of(p.url)
                &&& page.title@ == p.title
                &&& page.scripted == p.scripted
            },
            None => r is StaticCandidate,
        },
{
    match templates.get_page(request_path) {
        Some(page) => {
            let template_name = template_name_of(page.url.as_str());
            let page_context = PageContext {
                title: page.title.clone(),
                scripted: page.scripted,
                template_name: template_name.clone(),
            };
            Resolution::Rendered { template_name, page: page_context }
        },
        None => Resolution::StaticCandidate,
    }
}

/// The fixed context the not-found page renders with, whatever the request
/// path was: the literal not-found template identifier and title, and no
/// client-side script.
pub fn not_found_context() -> (r: PageContext)
    ensures
        r.template_name@ == "404"@,
        r.title@ == "Not Found"@,
        r.scripted == false,
{
    PageContext {
        template_name: String::from_str("404"),
        title: String::from_str("Not Found"),
        scripted: false,
    }
}

} // verus!
