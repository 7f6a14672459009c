//! Request, credential and response types, and the pure assembly of the
//! response returned to the caller.

use vstd::prelude::*;
use vstd::string::StrSliceExecFns;
use vstd::string::StringExecFns;

verus! {

/// A pre-authentication cookie used to seed the browser session.
#[derive(Clone)]
pub struct CookieData {
    pub name: String,
    pub value: String,
    pub domain: String,
    pub path: Option<String>,
}

/// Credentials supplied with a request; optional fields override the
/// platform catalog.
#[derive(Clone)]
pub struct LoginCredentials {
    pub email: String,
    pub password: String,
    pub platform: Option<String>,
    pub login_url: Option<String>,
    pub email_selector: Option<String>,
    pub password_selector: Option<String>,
    pub submit_selector: Option<String>,
    pub wait_after_login_secs: Option<u64>,
    pub cookies: Option<Vec<CookieData>>,
}

/// A scrape request: the target URL and optional credentials.
#[derive(Clone)]
pub struct ScrapeRequest {
    pub url: String,
    pub login: Option<LoginCredentials>,
}

/// One extracted image: absolute URL and alternative text.
#[derive(Clone)]
pub struct ImageData {
    pub src: String,
    pub alt: String,
}

/// Mathematical model of one image entry.
#[verifier::ext_equal]
pub struct ImageModel {
    pub src: Seq<char>,
    pub alt: Seq<char>,
}

impl View for ImageData {
    type V = ImageModel;

    open spec fn view(&self) -> ImageModel {
        ImageModel { src: self.src@, alt: self.alt@ }
    }
}

impl DeepView for ImageData {
    type V = ImageModel;

    open spec fn deep_view(&self) -> ImageModel {
        self.view()
    }
}

/// One extracted link: absolute URL and trimmed visible text.
#[derive(Clone)]
pub struct LinkData {
    pub href: String,
    pub text: String,
}

/// Mathematical model of one link entry.
#[verifier::ext_equal]
pub struct LinkModel {
    pub href: Seq<char>,
    pub text: Seq<char>,
}

impl View for LinkData {
    type V = LinkModel;

    open spec fn view(&self) -> LinkModel {
        LinkModel { href: self.href@, text: self.text@ }
    }
}

impl DeepView for LinkData {
    type V = LinkModel;

    open spec fn deep_view(&self) -> LinkModel {
        self.view()
    }
}

/// The extracted document together with the login metadata of the request.
#[derive(Clone)]
pub struct ScrapedData {
    pub title: Option<String>,
    pub description: Option<String>,
    pub text: Option<String>,
    pub images: Vec<ImageData>,
    pub links: Vec<LinkData>,
    pub login_attempted: bool,
    pub login_success: Option<bool>,
    pub platform_detected: Option<String>,
    pub requires_2fa: Option<bool>,
}

/// The unit returned to the caller.
pub struct ScrapeResponse {
    pub title: Option<String>,
    pub description: Option<String>,
    pub url: String,
    pub text: Option<String>,
    pub images: Vec<ImageData>,
    pub links: Vec<LinkData>,
    pub success: bool,
    pub error: Option<String>,
    pub login_attempted: bool,
    pub login_success: Option<bool>,
    pub platform_detected: Option<String>,
    pub requires_2fa: Option<bool>,
}

/// The domain with its leading dots removed.
pub open spec fn strip_leading_dots(s: Seq<char>) -> Seq<char>
    decreases s.len(),
{
    if s.len() > 0 && s[0] == '.' {
        strip_leading_dots(s.drop_first())
    } else {
        s
    }
}

proof fn lemma_strip_dots_skip(s: Seq<char>, i: int)
    requires
        0 <= i <= s.len(),
        forall|j: int| 0 <= j < i ==> s[j] == '.',
        i < s.len() ==> s[i] != '.',
    ensures
        strip_leading_dots(s) == s.skip(i),
    decreases i,
{
    if i == 0 {
        assert(s.skip(0) =~= s);
    } else {
        assert(s[0] == '.');
        lemma_strip_dots_skip(s.drop_first(), i - 1);
        assert(s.drop_first().skip(i - 1) =~= s.skip(i));
    }
}

/// The URL under which a cookie is registered: an https URL formed from
/// the cookie's domain (without leading dots) and its path, defaulting
/// to the root path.
pub open spec fn spec_cookie_url(domain: Seq<char>, path: Option<Seq<char>>) -> Seq<char> {
    "https://"@ + strip_leading_dots(domain) + match path {
        Option::Some(p) => p,
        Option::None => "/"@,
    }
}

/// Build the registration URL for one cookie.
pub fn cookie_url(cookie: &CookieData) -> (r: String)
    ensures
        r@ == spec_cookie_url(cookie.domain@, cookie.path.deep_view()),
{
    let domain = cookie.domain.as_str();
    let dlen = domain.unicode_len();
    let mut i: usize = 0;
    while i < dlen && domain.get_char(i) == '.'
        invariant
            i <= dlen,
            dlen == domain@.len(),
            forall|j: int| 0 <= j < i ==> domain@[j] == '.',
        decreases dlen - i,
    {
        i += 1;
    }
    proof {
        lemma_strip_dots_skip(domain@, i as int);
    }
    let cleaned = domain.substring_char(i, dlen);
    proof {
        assert(cleaned@ =~= domain@.skip(i as int));
    }
    let mut url = String::from_str("https://");
    url.append(cleaned);
    match &cookie.path {
        Option::Some(p) => {
            url.append(p.as_str());
        },
        Option::None => {
            url.append("/");
        },
    }
    url
}

/// Assemble the successful response: the extracted document plus the login
/// metadata, with the overall success flag set and no error.
pub fn build_success_response(url: String, data: ScrapedData) -> (r: ScrapeResponse)
    ensures
        r.title == data.title,
        r.description == data.description,
        r.url == url,
        r.text == data.text,
        r.images == data.images,
        r.links == data.links,
        r.success == true,
        r.error is None,
        r.login_attempted == data.login_attempted,
        r.login_success == data.login_success,
        r.platform_detected == data.platform_detected,
        r.requires_2fa == data.requires_2fa,
{
    ScrapeResponse {
        title: data.title,
        description: data.description,
        url,
        text: data.text,
        images: data.images,
        links: data.links,
        success: true,
        error: None,
        login_attempted: data.login_attempted,
        login_success: data.login_success,
        platform_detected: data.platform_detected,
        requires_2fa: data.requires_2fa,
    }
}

/// Assemble the failure response: no document, the error message, and the
/// login metadata as far as it was established before the failure.
pub fn build_error_response(
    url: String,
    message: String,
    login_attempted: bool,
    login_success: Option<bool>,
    platform_detected: Option<String>,
    requires_2fa: Option<bool>,
) -> (r: ScrapeResponse)
    ensures
        r.title is None,
        r.description is None,
        r.url == url,
        r.text is None,
        r.images@ == Seq::<ImageData>::empty(),
        r.links@ == Seq::<LinkData>::empty(),
        r.success == false,
        r.error == Some(message),
        r.login_attempted == login_attempted,
        r.login_success == login_success,
        r.platform_detected == platform_detected,
        r.requires_2fa == requires_2fa,
{
    let images: Vec<ImageData> = Vec::new();
    let links: Vec<LinkData> = Vec::new();
    ScrapeResponse {
        title: None,
        description: None,
        url,
        text: None,
        images,
        links,
        success: false,
        error: Some(message),
        login_attempted,
        login_success,
        platform_detected,
        requires_2fa,
    }
}

} // verus!
