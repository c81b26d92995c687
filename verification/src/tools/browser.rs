//! Browser automation: the actions a page can be driven with, the state the
//! tool keeps between them, what each action reports, and that report as
//! Markdown. The tool keeps the page address and counts screenshots; it
//! drives no real browser.

use vstd::prelude::*;
use crate::text::{
    can_truncate_bytes, clone_opt, decimal, i64_to_decimal, longer_than_bytes, opt_view, owned, push_str,
    signed_decimal, truncate_bytes, truncate_str, u64_to_decimal, utf8_len,
};

verus! {

/// The browser engine.
#[derive(Clone, Copy, Debug, PartialEq, Eq, Structural)]
pub enum BrowserProvider {
    Chrome,
    Firefox,
    WebKit,
}

/// Browser settings.
pub struct BrowserConfig {
    pub provider: BrowserProvider,
    pub headless: bool,
    pub viewport: (u32, u32),
    pub user_agent: Option<String>,
    pub timeout_ms: u64,
}

impl Default for BrowserConfig {
    /// Headless Chrome at 1280x720 with a 30 s timeout.
    fn default() -> (r: Self)
        ensures
            r.provider == BrowserProvider::Chrome,
            r.headless,
            r.viewport == (1280u32, 720u32),
            r.user_agent is None,
            r.timeout_ms == 30000,
    {
        BrowserConfig {
            provider: BrowserProvider::Chrome,
            headless: true,
            viewport: (1280, 720),
            user_agent: None,
            timeout_ms: 30000,
        }
    }
}

/// What to do with the page.
pub enum BrowserAction {
    Navigate { url: String },
    Click { selector: String },
    Type { selector: String, text: String },
    Hover { selector: String },
    Scroll { x: i32, y: i32 },
    Screenshot { full_page: Option<bool> },
    GetHtml,
    Eval { script: String },
    WaitFor { selector: String, timeout_ms: Option<u64> },
    Back,
    Forward,
    Reload,
    Select { selector: String, value: String },
    Press { key: String },
    GetTitle,
    GetUrl,
}

/// A cookie.
pub struct Cookie {
    pub name: String,
    pub value: String,
    pub domain: Option<String>,
    pub path: Option<String>,
    pub secure: bool,
    pub http_only: bool,
}

/// What an action reports.
pub struct BrowserResult {
    pub success: bool,
    pub url: Option<String>,
    pub title: Option<String>,
    /// A base64 PNG.
    pub screenshot: Option<String>,
    pub html: Option<String>,
    pub text: Option<String>,
    pub error: Option<String>,
    pub cookies: Option<Vec<Cookie>>,
}

/// The tool's state: its settings, the page address and the screenshots
/// taken.
pub struct BrowserTool {
    config: BrowserConfig,
    current_url: Option<String>,
    screenshot_counter: u32,
}

/// `true` or `false`, as `Display` writes a `bool`.
pub open spec fn bool_text(b: bool) -> Seq<char> {
    if b {
        "true"@
    } else {
        "false"@
    }
}

/// What an action reports as text, given the page address and the number
/// of screenshots taken, this one included.
pub open spec fn action_text(a: BrowserAction, url: Option<Seq<char>>, shots: nat) -> Option<Seq<char>> {
    match a {
        BrowserAction::Navigate { .. } => None,
        BrowserAction::GetHtml => None,
        BrowserAction::GetTitle => None,
        BrowserAction::Screenshot { full_page } => Some(
            "Screenshot "@ + decimal(shots) + " captured (full_page="@ + bool_text(
                full_page == Some(true),
            ) + ")"@,
        ),
        BrowserAction::GetUrl => url,
        BrowserAction::Reload => url,
        BrowserAction::Back => url,
        BrowserAction::Forward => url,
        BrowserAction::Eval { script } => Some("Script executed: "@ + truncate_bytes(script@, 100)),
        BrowserAction::Click { selector } => Some("Clicked: "@ + selector@),
        BrowserAction::Type { selector, text } => Some("Typed '"@ + text@ + "' into "@ + selector@),
        BrowserAction::Hover { selector } => Some("Hovered: "@ + selector@),
        BrowserAction::Scroll { x, y } => Some(
            "Scrolled: x="@ + signed_decimal(x as int) + ", y="@ + signed_decimal(y as int),
        ),
        BrowserAction::WaitFor { selector, .. } => Some("Waited for: "@ + selector@),
        BrowserAction::Select { selector, value } => Some("Selected '"@ + value@ + "' in "@ + selector@),
        BrowserAction::Press { key } => Some("Pressed key: "@ + key@),
    }
}

/// An action can be reported: a script is cut at a character boundary.
pub open spec fn action_reportable(a: BrowserAction) -> bool {
    match a {
        BrowserAction::Eval { script } => can_truncate_bytes(script@, 100),
        _ => true,
    }
}

fn report(url: Option<String>, text: Option<String>) -> (r: BrowserResult)
    ensures
        r.success && r.url == url && r.text == text,
        r.title is None && r.screenshot is None && r.html is None && r.error is None && r.cookies is None,
{
    BrowserResult {
        success: true,
        url,
        title: None,
        screenshot: None,
        html: None,
        text,
        error: None,
        cookies: None,
    }
}

fn with_prefix(prefix: &str, s: &str) -> (r: Option<String>)
    ensures
        r matches Some(t) && t@ == prefix@ + s@,
{
    let mut t = owned(prefix);
    push_str(&mut t, s);
    Some(t)
}

impl BrowserTool {
    /// The page address, if a page was opened.
    pub closed spec fn url_spec(&self) -> Option<Seq<char>> {
        opt_view(self.current_url)
    }

    /// Screenshots taken.
    pub closed spec fn shots_spec(&self) -> nat {
        self.screenshot_counter as nat
    }

    /// The settings the tool was made with.
    pub closed spec fn config_spec(&self) -> BrowserConfig {
        self.config
    }

    /// A tool with these settings, on no page, with no screenshots taken.
    pub fn new(config: BrowserConfig) -> (r: Self)
        ensures
            r.config_spec() == config,
            r.url_spec() is None,
            r.shots_spec() == 0,
    {
        BrowserTool { config, current_url: None, screenshot_counter: 0 }
    }

    /// Screenshots taken.
    pub fn screenshots_taken(&self) -> (n: u32)
        ensures
            n == self.shots_spec(),
    {
        self.screenshot_counter
    }

    /// Performs an action. Navigating changes the page address; a
    /// screenshot is counted; every action succeeds and reports the page
    /// address, with the page's title for `GetTitle`, its HTML for
    /// `GetHtml`, and a line of text that says what was done.
    pub fn execute(&mut self, action: BrowserAction) -> (r: Result<BrowserResult, String>)
        requires
            action_reportable(action),
            action is Screenshot ==> old(self).shots_spec() < u32::MAX,
        ensures
            final(self).config_spec() == old(self).config_spec(),
            final(self).url_spec() == (match action {
                BrowserAction::Navigate { url } => Some(url@),
                _ => old(self).url_spec(),
            }),
            final(self).shots_spec() == old(self).shots_spec() + (if action is Screenshot {
                1nat
            } else {
                0nat
            }),
            r matches Ok(res) && res.success && res.error is None && res.screenshot is None
                && res.cookies is None && opt_view(res.url) == final(self).url_spec()
                && opt_view(res.title) == (if action is GetTitle {
                Some("Page Title"@)
            } else {
                None::<Seq<char>>
            }) && opt_view(res.html) == (if action is GetHtml {
                Some("<html>...</html>"@)
            } else {
                None::<Seq<char>>
            }) && opt_view(res.text) == action_text(action, final(self).url_spec(), final(self).shots_spec()),
    {
        match action {
            BrowserAction::Navigate { url } => {
                self.current_url = Some(url);
                let u = clone_opt(&self.current_url);
                Ok(report(u, None))
            },
            BrowserAction::Screenshot { full_page } => {
                self.screenshot_counter = self.screenshot_counter + 1;
                let mut t = owned("Screenshot ");
                let n = u64_to_decimal(self.screenshot_counter as u64);
                push_str(&mut t, n.as_str());
                push_str(&mut t, " captured (full_page=");
                let full = match full_page {
                    Some(b) => b,
                    None => false,
                };
                push_str(&mut t, if full { "true" } else { "false" });
                push_str(&mut t, ")");
                Ok(report(clone_opt(&self.current_url), Some(t)))
            },
            BrowserAction::GetHtml => {
                let mut r = report(clone_opt(&self.current_url), None);
                r.html = Some(owned("<html>...</html>"));
                Ok(r)
            },
            BrowserAction::GetTitle => {
                let mut r = report(clone_opt(&self.current_url), None);
                r.title = Some(owned("Page Title"));
                Ok(r)
            },
            BrowserAction::GetUrl | BrowserAction::Reload | BrowserAction::Back | BrowserAction::Forward => {
                Ok(report(clone_opt(&self.current_url), clone_opt(&self.current_url)))
            },
            BrowserAction::Eval { script } => {
                let cut = truncate_str(script.as_str(), 100);
                Ok(report(clone_opt(&self.current_url), with_prefix("Script executed: ", cut.as_str())))
            },
            BrowserAction::Click { selector } => {
                Ok(report(clone_opt(&self.current_url), with_prefix("Clicked: ", selector.as_str())))
            },
            BrowserAction::Type { selector, text } => {
                let mut t = owned("Typed '");
                push_str(&mut t, text.as_str());
                push_str(&mut t, "' into ");
                push_str(&mut t, selector.as_str());
                Ok(report(clone_opt(&self.current_url), Some(t)))
            },
            BrowserAction::Hover { selector } => {
                Ok(report(clone_opt(&self.current_url), with_prefix("Hovered: ", selector.as_str())))
            },
            BrowserAction::Scroll { x, y } => {
                let mut t = owned("Scrolled: x=");
                let xs = i64_to_decimal(x as i64);
                push_str(&mut t, xs.as_str());
                push_str(&mut t, ", y=");
                let ys = i64_to_decimal(y as i64);
                push_str(&mut t, ys.as_str());
                Ok(report(clone_opt(&self.current_url), Some(t)))
            },
            BrowserAction::WaitFor { selector, .. } => {
                Ok(report(clone_opt(&self.current_url), with_prefix("Waited for: ", selector.as_str())))
            },
            BrowserAction::Select { selector, value } => {
                let mut t = owned("Selected '");
                push_str(&mut t, value.as_str());
                push_str(&mut t, "' in ");
                push_str(&mut t, selector.as_str());
                Ok(report(clone_opt(&self.current_url), Some(t)))
            },
            BrowserAction::Press { key } => {
                Ok(report(clone_opt(&self.current_url), with_prefix("Pressed key: ", key.as_str())))
            },
        }
    }
}

/// The address part of a result's Markdown.
pub open spec fn url_part(r: BrowserResult) -> Seq<char> {
    match r.url {
        Some(u) => "**URL:** "@ + u@ + "\n\n"@,
        None => Seq::empty(),
    }
}

/// The title part of a result's Markdown.
pub open spec fn title_part(r: BrowserResult) -> Seq<char> {
    match r.title {
        Some(t) => "**Title:** "@ + t@ + "\n\n"@,
        None => Seq::empty(),
    }
}

/// The text part of a result's Markdown.
pub open spec fn text_part(r: BrowserResult) -> Seq<char> {
    match r.text {
        Some(t) => t@ + "\n\n"@,
        None => Seq::empty(),
    }
}

/// The HTML part of a result's Markdown: its first 500 bytes in a code
/// block, marked when cut.
pub open spec fn html_part(r: BrowserResult) -> Seq<char> {
    match r.html {
        Some(h) => "**HTML:**\n```\n"@ + truncate_bytes(h@, 500) + (if utf8_len(h@) > 500 {
            "\n... (truncated)"@
        } else {
            Seq::empty()
        }) + "\n```\n\n"@,
        None => Seq::empty(),
    }
}

/// The error part of a result's Markdown.
pub open spec fn error_part(r: BrowserResult) -> Seq<char> {
    match r.error {
        Some(e) => "**Error:** "@ + e@ + "\n"@,
        None => Seq::empty(),
    }
}

/// A result as Markdown: the address, the title, the text, the first 500
/// bytes of the HTML (marked when cut) and the error, each where present.
pub open spec fn browser_markdown(r: BrowserResult) -> Seq<char> {
    url_part(r) + title_part(r) + text_part(r) + html_part(r) + error_part(r)
}

fn push_labelled(md: &mut String, label: &str, v: &Option<String>, end: &str)
    ensures
        final(md)@ == old(md)@ + (match *v {
            Some(t) => label@ + t@ + end@,
            None => Seq::empty(),
        }),
{
    match v {
        Some(t) => {
            push_str(md, label);
            push_str(md, t.as_str());
            push_str(md, end);
        },
        None => {
            assert(md@ =~= md@ + Seq::<char>::empty());
        },
    }
}

fn push_html(md: &mut String, result: &BrowserResult)
    requires
        result.html matches Some(h) ==> can_truncate_bytes(h@, 500),
    ensures
        final(md)@ == old(md)@ + html_part(*result),
{
    match &result.html {
        Some(h) => {
            push_str(md, "**HTML:**\n```\n");
            let cut = truncate_str(h.as_str(), 500);
            push_str(md, cut.as_str());
            if longer_than_bytes(h.as_str(), 500) {
                push_str(md, "\n... (truncated)");
            }
            push_str(md, "\n```\n\n");
        },
        None => {
            assert(md@ =~= md@ + Seq::<char>::empty());
        },
    }
}

/// The result as Markdown.
pub fn format_browser_result(result: &BrowserResult) -> (r: String)
    requires
        result.html matches Some(h) ==> can_truncate_bytes(h@, 500),
    ensures
        r@ == browser_markdown(*result),
{
    let mut md = String::new();
    push_labelled(&mut md, "**URL:** ", &result.url, "\n\n");
    push_labelled(&mut md, "**Title:** ", &result.title, "\n\n");
    push_labelled(&mut md, "", &result.text, "\n\n");
    proof {
        reveal_strlit("");
        assert(""@ =~= Seq::<char>::empty());
        match &result.text {
            Some(t) => assert(""@ + t@ =~= t@),
            None => {},
        }
    }
    push_html(&mut md, result);
    push_labelled(&mut md, "**Error:** ", &result.error, "\n");
    assert(md@ =~= browser_markdown(*result));
    md
}

} // verus!
